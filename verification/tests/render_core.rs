use wgpu_winsafe_compat::render::{PaintAction, RenderCore};
use wgpu_winsafe_compat::size::Size;

#[test]
fn clamps_zero_width() {
    let s = Size::new(0, 480);
    assert_eq!(s, Size { width: 1, height: 480 });
}

#[test]
fn clamps_zero_height() {
    let s = Size::new(640, 0);
    assert_eq!(s, Size { width: 640, height: 1 });
}

#[test]
fn clamps_both_zero() {
    let s = Size::new(0, 0);
    assert_eq!(s, Size { width: 1, height: 1 });
}

#[test]
fn keeps_positive_extent() {
    let s = Size::new(300, 150);
    assert_eq!(s, Size { width: 300, height: 150 });
}

#[test]
fn keeps_largest_extent() {
    let s = Size::new(u32::MAX, u32::MAX);
    assert_eq!(s, Size { width: u32::MAX, height: u32::MAX });
}

#[test]
fn first_notification_initializes() {
    let mut core = RenderCore::new();
    let action = core.on_paint_notification(800, 600);
    assert_eq!(
        action,
        PaintAction::Initialize(Size { width: 800, height: 600 })
    );
}

#[test]
fn first_notification_initializes_with_clamped_size() {
    let mut core = RenderCore::new();
    let action = core.on_paint_notification(0, 0);
    assert_eq!(action, PaintAction::Initialize(Size { width: 1, height: 1 }));
}

#[test]
fn repeated_size_only_redraws() {
    let mut core = RenderCore::new();
    core.on_paint_notification(800, 600);
    let action = core.on_paint_notification(800, 600);
    assert_eq!(action, PaintAction::RedrawOnly);
}

#[test]
fn repeated_clamped_size_only_redraws() {
    // 0 and 1 clamp to the same effective size, so the second
    // notification reconfigures nothing.
    let mut core = RenderCore::new();
    core.on_paint_notification(0, 600);
    let action = core.on_paint_notification(1, 600);
    assert_eq!(action, PaintAction::RedrawOnly);
}

#[test]
fn changed_size_reconfigures() {
    let mut core = RenderCore::new();
    core.on_paint_notification(800, 600);
    let action = core.on_paint_notification(1024, 768);
    assert_eq!(
        action,
        PaintAction::Reconfigure(Size { width: 1024, height: 768 })
    );
}

#[test]
fn initializes_exactly_once_over_many_sizes() {
    let mut core = RenderCore::new();
    let events = [(300, 150), (300, 150), (0, 0), (1, 1), (1920, 1080), (300, 150)];
    let mut initializations = 0;
    for (w, h) in events {
        if let PaintAction::Initialize(_) = core.on_paint_notification(w, h) {
            initializations += 1;
        }
    }
    assert_eq!(initializations, 1);
}

#[test]
fn every_notification_redraws_once() {
    // Each action carries exactly one redraw, whichever variant it is.
    let mut core = RenderCore::new();
    let events = [(300, 150), (300, 150), (500, 500), (500, 500)];
    let mut redraws = 0;
    for (w, h) in events {
        match core.on_paint_notification(w, h) {
            PaintAction::Initialize(_) => redraws += 1,
            PaintAction::Reconfigure(_) => redraws += 1,
            PaintAction::RedrawOnly => redraws += 1,
        }
    }
    assert_eq!(redraws, events.len());
}
