use wgpu_text::atlas::{resize_target, Dimensions};
use wgpu_text::draw::{DrawLoop, Processed, Step};

#[test]
fn oversized_suggestion_is_clamped_to_device_limit() {
    let target = resize_target(Dimensions::new(20000, 20000), Dimensions::new(1024, 1024), 8192);
    assert_eq!(target, Dimensions::new(8192, 8192));
    assert_ne!(target, Dimensions::new(20000, 20000));
}

#[test]
fn suggestion_within_limit_passes_through() {
    let target = resize_target(Dimensions::new(4096, 2048), Dimensions::new(2048, 1024), 8192);
    assert_eq!(target, Dimensions::new(4096, 2048));
}

#[test]
fn one_side_over_limit_is_clamped() {
    let target = resize_target(Dimensions::new(16384, 512), Dimensions::new(8192, 256), 8192);
    assert_eq!(target, Dimensions::new(8192, 8192));
}

#[test]
fn suggestion_at_limit_is_not_clamped() {
    let target = resize_target(Dimensions::new(8192, 8192), Dimensions::new(4096, 4096), 8192);
    assert_eq!(target, Dimensions::new(8192, 8192));
}

#[test]
fn atlas_at_limit_takes_suggestion_as_is() {
    let target = resize_target(Dimensions::new(16384, 16384), Dimensions::new(8192, 8192), 8192);
    assert_eq!(target, Dimensions::new(16384, 16384));
}

#[test]
fn fitting_section_draws_after_one_pass() {
    let mut draw = DrawLoop::new(Dimensions::new(256, 256), 8192);
    let mut passes = 0;
    let mut uploads = 0;
    let mut resizes = 0;
    loop {
        passes += 1;
        let step = draw.advance(Processed::Draw);
        match step {
            Step::Resize(_) => resizes += 1,
            Step::UploadAndDraw => uploads += 1,
            Step::Draw => {}
        }
        if step.is_final() {
            break;
        }
    }
    assert_eq!(passes, 1);
    assert_eq!(resizes, 0);
    assert_eq!(uploads, 1);
    assert!(draw.is_done());
    assert_eq!(draw.atlas(), Dimensions::new(256, 256));
    assert_eq!(draw.texture(), Dimensions::new(256, 256));
}

#[test]
fn small_atlas_is_resized_once_then_drawn() {
    let mut draw = DrawLoop::new(Dimensions::new(16, 16), 8192);
    let outcomes = [Processed::TooSmall(Dimensions::new(64, 64)), Processed::Draw];
    let mut steps = Vec::new();
    for outcome in outcomes {
        let step = draw.advance(outcome);
        steps.push(step);
        if step.is_final() {
            break;
        }
    }
    assert_eq!(steps, vec![Step::Resize(Dimensions::new(64, 64)), Step::UploadAndDraw]);
    assert_eq!(draw.atlas(), Dimensions::new(64, 64));
    assert_eq!(draw.texture(), Dimensions::new(64, 64));
}

#[test]
fn unchanged_text_is_drawn_without_upload() {
    let mut first = DrawLoop::new(Dimensions::new(256, 256), 8192);
    assert_eq!(first.advance(Processed::Draw), Step::UploadAndDraw);
    let mut second = DrawLoop::new(first.atlas(), 8192);
    let step = second.advance(Processed::ReDraw);
    assert_eq!(step, Step::Draw);
    assert!(step.is_final());
    assert_eq!(second.atlas(), Dimensions::new(256, 256));
}

#[test]
fn atlas_grows_on_each_retry() {
    let mut draw = DrawLoop::new(Dimensions::new(1024, 1024), 8192);
    let mut sizes = vec![draw.atlas()];
    let mut step = Step::Resize(draw.atlas());
    while !step.is_final() {
        let current = draw.atlas();
        let outcome = if current.width >= 8192 {
            Processed::Draw
        } else {
            Processed::TooSmall(Dimensions::new(current.width * 2, current.height * 2))
        };
        step = draw.advance(outcome);
        sizes.push(draw.atlas());
        assert_eq!(draw.atlas(), draw.texture());
    }
    assert_eq!(
        sizes,
        vec![
            Dimensions::new(1024, 1024),
            Dimensions::new(2048, 2048),
            Dimensions::new(4096, 4096),
            Dimensions::new(8192, 8192),
            Dimensions::new(8192, 8192),
        ]
    );
    for pair in sizes.windows(2) {
        assert!(pair[0].width <= pair[1].width && pair[0].height <= pair[1].height);
    }
}

#[test]
fn clamping_within_a_draw_reaches_the_limit() {
    let mut draw = DrawLoop::new(Dimensions::new(1024, 1024), 8192);
    let step = draw.advance(Processed::TooSmall(Dimensions::new(20000, 20000)));
    assert_eq!(step, Step::Resize(Dimensions::new(8192, 8192)));
    assert!(!draw.is_done());
    assert_eq!(draw.max_dimension(), 8192);
    assert_eq!(draw.atlas(), Dimensions::new(8192, 8192));
}

#[test]
fn dimensions_pair() {
    assert_eq!(Dimensions::new(640, 480).as_pair(), (640, 480));
}

#[test]
fn atlas_beyond_limit_keeps_growing_with_suggestion() {
    let mut draw = DrawLoop::new(Dimensions::new(4096, 4096), 8192);
    assert_eq!(
        draw.advance(Processed::TooSmall(Dimensions::new(8192, 8192))),
        Step::Resize(Dimensions::new(8192, 8192))
    );
    assert_eq!(
        draw.advance(Processed::TooSmall(Dimensions::new(16384, 16384))),
        Step::Resize(Dimensions::new(16384, 16384))
    );
    assert_eq!(draw.atlas(), Dimensions::new(16384, 16384));
}
