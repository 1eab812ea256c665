use overlay_effect::geometry::{
    desktop_or_fallback, normalize_global_mouse_position, overlay_desktop_bounds,
    pointer_mapping_is_defined, pointer_monitor, MonitorBounds, OverlayBounds,
};

fn mon(x: i32, y: i32, width: u32, height: u32) -> MonitorBounds {
    MonitorBounds { x, y, width, height }
}

#[test]
fn no_displays_no_frame() {
    assert_eq!(overlay_desktop_bounds(&[]), None);
}

#[test]
fn frame_of_one_display() {
    assert_eq!(
        overlay_desktop_bounds(&[mon(0, 0, 1920, 1080)]),
        Some(OverlayBounds { x: 0, y: 0, width: 1920, height: 1080 })
    );
}

#[test]
fn frame_covers_all_displays() {
    let ms = [mon(0, 0, 1920, 1080), mon(-1280, -200, 1280, 1024), mon(1920, 300, 2560, 1440)];
    let b = overlay_desktop_bounds(&ms).unwrap();
    assert_eq!(b, OverlayBounds { x: -1280, y: -200, width: 5760, height: 1940 });
    for m in ms {
        assert!(b.x <= m.x && b.y <= m.y);
        assert!(m.x as i64 + m.width as i64 <= b.x as i64 + b.width as i64);
        assert!(m.y as i64 + m.height as i64 <= b.y as i64 + b.height as i64);
    }
}

#[test]
fn frame_is_at_least_one_pixel() {
    assert_eq!(
        overlay_desktop_bounds(&[mon(5, 5, 0, 0)]),
        Some(OverlayBounds { x: 5, y: 5, width: 1, height: 1 })
    );
}

#[test]
fn frame_fallbacks() {
    let d = OverlayBounds { x: 1, y: 2, width: 3, height: 4 };
    assert_eq!(desktop_or_fallback(Some(d), None), d);
    assert_eq!(desktop_or_fallback(None, Some(mon(7, 8, 9, 10))), OverlayBounds { x: 7, y: 8, width: 9, height: 10 });
    assert_eq!(desktop_or_fallback(None, None), OverlayBounds { x: 0, y: 0, width: 1, height: 1 });
    assert_eq!(pointer_monitor(Some(mon(1, 1, 1, 1)), Some(mon(2, 2, 2, 2)), d), mon(1, 1, 1, 1));
    assert_eq!(pointer_monitor(None, Some(mon(2, 2, 2, 2)), d), mon(2, 2, 2, 2));
    assert_eq!(pointer_monitor(None, None, d), mon(1, 2, 3, 4));
}

#[test]
fn first_reading_is_taken_from_the_top() {
    let desktop = OverlayBounds { x: 0, y: 0, width: 1920, height: 1080 };
    let monitor = mon(0, 0, 1920, 1080);
    let mut last = None;
    assert_eq!(normalize_global_mouse_position(100, 200, desktop, monitor, &mut last), (100, 200));
    assert_eq!(last, Some((100, 200)));
}

#[test]
fn nearest_reading_wins() {
    let desktop = OverlayBounds { x: 0, y: 0, width: 1920, height: 1080 };
    let monitor = mon(0, 0, 1920, 1080);
    let mut last = Some((100, 870));
    assert_eq!(normalize_global_mouse_position(100, 200, desktop, monitor, &mut last), (100, 880));
    assert_eq!(last, Some((100, 880)));
    let mut last = Some((100, 210));
    assert_eq!(normalize_global_mouse_position(100, 200, desktop, monitor, &mut last), (100, 200));
}

#[test]
fn readings_outside_the_frame_are_dropped_or_clamped() {
    let desktop = OverlayBounds { x: 0, y: 0, width: 1920, height: 1080 };
    let monitor = mon(0, 0, 1920, 1080);
    let mut last = Some((100, 0));
    // top reading 1200 is below the frame, bottom reading -120 above it: nearest of both, clamped
    assert_eq!(normalize_global_mouse_position(2500, 1200, desktop, monitor, &mut last), (1920, 0));
    let tall = mon(0, 0, 1920, 2000);
    let mut last = Some((0, 1000));
    // only the top reading lies within the frame
    assert_eq!(normalize_global_mouse_position(-50, 30, desktop, tall, &mut last), (0, 30));
}

#[test]
fn secondary_display_offsets() {
    let desktop = OverlayBounds { x: -1280, y: 0, width: 3200, height: 1080 };
    let monitor = mon(-1280, 0, 1280, 1024);
    let mut last = None;
    assert_eq!(normalize_global_mouse_position(-1000, 50, desktop, monitor, &mut last), (280, 50));
}

#[test]
fn mapping_definedness() {
    let monitor = mon(0, 0, 10, 10);
    let small = OverlayBounds { x: 0, y: 0, width: 10, height: 10 };
    assert!(pointer_mapping_is_defined(1, 1, small, monitor, None));
    assert!(pointer_mapping_is_defined(1, 1, small, monitor, Some((5, 5))));
    let huge = OverlayBounds { x: 0, y: 0, width: u32::MAX, height: 10 };
    assert!(!pointer_mapping_is_defined(1, 1, huge, monitor, None));
    let far = mon(i32::MAX, 0, 10, 10);
    let left = OverlayBounds { x: -10, y: 0, width: 10, height: 10 };
    assert!(!pointer_mapping_is_defined(1, 1, left, far, None));
    assert!(!pointer_mapping_is_defined(i32::MIN, 1, small, monitor, Some((i32::MAX, 5))));
}
