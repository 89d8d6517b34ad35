//! The decisions of one draw: process the queued text, grow the atlas while
//! the glyph cache reports it too small, then upload the vertices if they
//! changed and draw.
//!
//! The caller performs each step on the glyph cache and the render target and
//! reports what the cache's processing pass returned; `DrawLoop` decides what
//! comes next and keeps the atlas and the texture sizes in agreement.
use vstd::prelude::*;

use crate::atlas::{resize_target, resize_target_spec, Dimensions};

verus! {

/// What one processing pass of the glyph cache returned.
#[derive(Clone, Copy, Debug, PartialEq, Eq, Structural)]
pub enum Processed {
    /// The queued sections gave new vertices.
    Draw,
    /// Nothing changed since the last pass: the vertex buffer is still valid.
    ReDraw,
    /// The atlas cannot hold the queued glyphs; the cache suggests a larger size.
    TooSmall(Dimensions),
}

/// What the caller does next.
#[derive(Clone, Copy, Debug, PartialEq, Eq, Structural)]
pub enum Step {
    /// Resize the render target's texture and the cache's atlas to this size,
    /// then run another processing pass.
    Resize(Dimensions),
    /// Replace the whole vertex buffer with the new vertices, then draw.
    UploadAndDraw,
    /// Draw with the vertex buffer as it is.
    Draw,
}

impl Step {
    /// The draw is over after this step: no further processing pass follows.
    pub open spec fn ends_loop(self) -> bool {
        !(self is Resize)
    }

    /// The step replaces the vertex buffer.
    pub open spec fn uploads(self) -> bool {
        self is UploadAndDraw
    }

    pub fn is_final(&self) -> (r: bool)
        ensures
            r == self.ends_loop(),
    {
        match self {
            Step::Resize(_) => false,
            _ => true,
        }
    }
}

/// The state of one draw: the size of the cache's atlas, the size of the render
/// target's texture, the device's largest 2D texture side, and whether the loop
/// has ended.
pub struct DrawLoop {
    atlas: Dimensions,
    texture: Dimensions,
    max_dimension: u32,
    done: bool,
}

impl DrawLoop {
    /// The atlas and the texture that mirrors it have the same size.
    pub closed spec fn wf(&self) -> bool {
        self.atlas == self.texture
    }

    pub closed spec fn spec_atlas(&self) -> Dimensions {
        self.atlas
    }

    pub closed spec fn spec_texture(&self) -> Dimensions {
        self.texture
    }

    pub closed spec fn spec_max_dimension(&self) -> u32 {
        self.max_dimension
    }

    pub closed spec fn spec_done(&self) -> bool {
        self.done
    }

    /// Starts a draw on an atlas of size `atlas`, mirrored by a texture of the
    /// same size, on a device whose largest 2D texture side is `max_dimension`.
    pub fn new(atlas: Dimensions, max_dimension: u32) -> (r: DrawLoop)
        ensures
            r.wf(),
            r.spec_atlas() == atlas,
            r.spec_texture() == atlas,
            r.spec_max_dimension() == max_dimension,
            !r.spec_done(),
    {
        DrawLoop { atlas, texture: atlas, max_dimension, done: false }
    }

    pub fn atlas(&self) -> (r: Dimensions)
        ensures
            r == self.spec_atlas(),
    {
        self.atlas
    }

    pub fn texture(&self) -> (r: Dimensions)
        ensures
            r == self.spec_texture(),
    {
        self.texture
    }

    pub fn max_dimension(&self) -> (r: u32)
        ensures
            r == self.spec_max_dimension(),
    {
        self.max_dimension
    }

    pub fn is_done(&self) -> (r: bool)
        ensures
            r == self.spec_done(),
    {
        self.done
    }

    /// Takes what a processing pass returned and says what to do next.
    ///
    /// New vertices are uploaded and drawn; an unchanged result is drawn
    /// without an upload; a texture that is too small is grown to
    /// `resize_target_spec` of the suggestion, atlas and texture together, and
    /// the loop goes on. Only that last case leaves the loop running.
    pub fn advance(&mut self, outcome: Processed) -> (s: Step)
        requires
            old(self).wf(),
            !old(self).spec_done(),
        ensures
            final(self).wf(),
            final(self).spec_max_dimension() == old(self).spec_max_dimension(),
            final(self).spec_atlas() == final(self).spec_texture(),
            final(self).spec_done() == s.ends_loop(),
            s.uploads() <==> outcome is Draw,
            match outcome {
                Processed::Draw => s == Step::UploadAndDraw && final(self).spec_atlas()
                    == old(self).spec_atlas(),
                Processed::ReDraw => s == Step::Draw && final(self).spec_atlas()
                    == old(self).spec_atlas(),
                Processed::TooSmall(suggested) => {
                    let target = resize_target_spec(
                        suggested,
                        old(self).spec_atlas(),
                        old(self).spec_max_dimension(),
                    );
                    s == Step::Resize(target) && final(self).spec_atlas() == target
                },
            },
    {
        let max_dimension = self.max_dimension;
        match outcome {
            Processed::Draw => {
                let atlas = self.atlas;
                *self = DrawLoop { atlas, texture: atlas, max_dimension, done: true };
                Step::UploadAndDraw
            },
            Processed::ReDraw => {
                let atlas = self.atlas;
                *self = DrawLoop { atlas, texture: atlas, max_dimension, done: true };
                Step::Draw
            },
            Processed::TooSmall(suggested) => {
                let target = resize_target(suggested, self.atlas, max_dimension);
                *self = DrawLoop { atlas: target, texture: target, max_dimension, done: false };
                Step::Resize(target)
            },
        }
    }
}

/// Whatever steps a draw has taken, the atlas of the glyph cache and the
/// texture of the render target have the same size.
pub proof fn lemma_atlas_matches_texture(l: DrawLoop)
    requires
        l.wf(),
    ensures
        l.spec_atlas() == l.spec_texture(),
{
}

} // verus!
