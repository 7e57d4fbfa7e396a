use sph_synth::surface::{frame_action, nonzero_dimension, FrameAction, FrameStatus, SurfaceExtent};

#[test]
fn zero_dimension_becomes_one() {
    assert_eq!(nonzero_dimension(0), 1);
    assert_eq!(nonzero_dimension(800), 800);
    let e = SurfaceExtent::for_window(0, 0);
    assert_eq!((e.width(), e.height()), (1, 1));
    let e = SurfaceExtent::for_window(800, 600);
    assert_eq!((e.width(), e.height()), (800, 600));
}

#[test]
fn resize_to_an_empty_size_is_ignored() {
    let mut e = SurfaceExtent::for_window(800, 800);
    assert!(!e.resize(0, 500));
    assert!(!e.resize(500, 0));
    assert_eq!((e.width(), e.height()), (800, 800));
    assert!(e.resize(1024, 768));
    assert_eq!((e.width(), e.height()), (1024, 768));
}

#[test]
fn frame_answers() {
    assert_eq!(frame_action(FrameStatus::Success), FrameAction::Draw);
    assert_eq!(frame_action(FrameStatus::Suboptimal), FrameAction::Draw);
    assert_eq!(frame_action(FrameStatus::Outdated), FrameAction::Reconfigure);
    assert_eq!(frame_action(FrameStatus::Lost), FrameAction::Reconfigure);
    assert_eq!(frame_action(FrameStatus::Timeout), FrameAction::Skip);
    assert_eq!(frame_action(FrameStatus::Occluded), FrameAction::Skip);
    assert_eq!(frame_action(FrameStatus::Validation), FrameAction::Skip);
}
