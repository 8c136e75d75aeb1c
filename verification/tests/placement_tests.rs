use svc_supervisor::placement::DisplayGeometry;
use svc_supervisor::placement::place_secondary_surface;

#[test]
fn two_displays_cover_second_exactly() {
    let displays = vec![
        DisplayGeometry { x: 0, y: 0, width: 1280, height: 720 },
        DisplayGeometry { x: 1280, y: 40, width: 1024, height: 768 },
    ];
    let s = place_secondary_surface(&displays);
    assert_eq!(s.x, 1280);
    assert_eq!(s.y, 40);
    assert_eq!(s.width, 1024);
    assert_eq!(s.height, 768);
    assert!(s.fullscreen);
    assert!(!s.resizable);
    assert!(!s.decorations);
}

#[test]
fn three_displays_still_pick_second() {
    let displays = vec![
        DisplayGeometry { x: 0, y: 0, width: 1920, height: 1080 },
        DisplayGeometry { x: 1920, y: 0, width: 2560, height: 1440 },
        DisplayGeometry { x: 4480, y: 0, width: 800, height: 600 },
    ];
    let s = place_secondary_surface(&displays);
    assert_eq!((s.x, s.y, s.width, s.height), (1920, 0, 2560, 1440));
    assert!(s.fullscreen);
}

#[test]
fn one_display_falls_back_to_fixed_window() {
    let displays = vec![DisplayGeometry { x: 0, y: 0, width: 3840, height: 2160 }];
    let s = place_secondary_surface(&displays);
    assert_eq!((s.x, s.y, s.width, s.height), (100, 100, 1920, 1080));
    assert!(!s.fullscreen);
    assert!(s.resizable);
    assert!(s.decorations);
}

#[test]
fn no_display_falls_back_too() {
    let displays: Vec<DisplayGeometry> = Vec::new();
    let s = place_secondary_surface(&displays);
    assert_eq!((s.x, s.y, s.width, s.height), (100, 100, 1920, 1080));
    assert!(!s.fullscreen);
}
