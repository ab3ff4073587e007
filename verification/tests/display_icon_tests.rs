use snip::display::{virtual_desktop_bounds, DesktopBounds, DisplayBounds};
use snip::icon::IconData;

#[test]
fn single_display_bounds() {
    let displays = vec![DisplayBounds { x: 0, y: 0, width: 1920, height: 1080 }];
    let b = virtual_desktop_bounds(&displays);
    assert_eq!(b, DesktopBounds { min_x: 0, min_y: 0, max_x: 1920, max_y: 1080 });
}

#[test]
fn side_by_side_displays_union() {
    let displays = vec![
        DisplayBounds { x: 0, y: 0, width: 1920, height: 1080 },
        DisplayBounds { x: 1920, y: 0, width: 1280, height: 1024 },
    ];
    let b = virtual_desktop_bounds(&displays);
    assert_eq!(b, DesktopBounds { min_x: 0, min_y: 0, max_x: 3200, max_y: 1080 });
}

#[test]
fn negative_positions_are_covered() {
    let displays = vec![
        DisplayBounds { x: -1920, y: -100, width: 1920, height: 1080 },
        DisplayBounds { x: 0, y: 0, width: 800, height: 600 },
    ];
    let b = virtual_desktop_bounds(&displays);
    assert_eq!(b, DesktopBounds { min_x: -1920, min_y: -100, max_x: 800, max_y: 980 });
}

#[test]
fn no_displays_give_degenerate_zero_bounds() {
    let displays: Vec<DisplayBounds> = Vec::new();
    let b = virtual_desktop_bounds(&displays);
    assert_eq!(b, DesktopBounds { min_x: 0, min_y: 0, max_x: 0, max_y: 0 });
}

#[test]
fn nested_display_does_not_grow_bounds() {
    let displays = vec![
        DisplayBounds { x: 0, y: 0, width: 3840, height: 2160 },
        DisplayBounds { x: 100, y: 100, width: 640, height: 480 },
    ];
    let b = virtual_desktop_bounds(&displays);
    assert_eq!(b, DesktopBounds { min_x: 0, min_y: 0, max_x: 3840, max_y: 2160 });
}

#[test]
fn valid_icon_data_converts_to_image() {
    let icon = IconData { rgba: vec![0u8; 16], width: 2, height: 2 };
    assert!(icon.is_valid());
    let img = icon.to_image().expect("2x2 RGBA data must convert");
    assert_eq!(img.inner.width(), 2);
    assert_eq!(img.inner.height(), 2);
}

#[test]
fn short_buffer_is_rejected() {
    let icon = IconData { rgba: vec![0u8; 15], width: 2, height: 2 };
    assert!(!icon.is_valid());
    let err = icon.to_image().err().expect("short buffer must be rejected");
    assert_eq!(err, "Invalid IconData");
}

#[test]
fn oversized_buffer_is_accepted_by_image_but_not_strictly_valid() {
    let icon = IconData { rgba: vec![0u8; 20], width: 2, height: 2 };
    assert!(!icon.is_valid());
    assert!(icon.to_image().is_ok());
}

#[test]
fn zero_size_icon_is_valid_when_empty() {
    let icon = IconData { rgba: Vec::new(), width: 0, height: 0 };
    assert!(icon.is_valid());
    assert!(icon.to_image().is_ok());
}
