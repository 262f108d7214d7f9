use pihost::color::{LedColor, PixelWrite};
use pihost::strip::{DeviceWrite, Strip};

#[test]
fn new_strip_is_dark_and_open() {
    let s = Strip::new(8);
    assert_eq!(s.len(), 8);
    assert!(s.is_open());
    for i in 0..8 {
        assert_eq!(s.pixel(i), LedColor::off());
    }
}

#[test]
fn in_range_write_is_forwarded() {
    let mut s = Strip::new(8);
    let out = s.set_pixel(3, 10, 20, 30);
    assert_eq!(out, Some(DeviceWrite { index: 3, r: 10, g: 20, b: 30 }));
    assert_eq!(s.pixel(3), LedColor(10, 20, 30));
}

#[test]
fn out_of_range_index_is_a_no_op() {
    let mut s = Strip::new(8);
    assert_eq!(s.set_pixel(8, 255, 0, 0), None);
    assert_eq!(s.set_pixel(-1, 255, 0, 0), None);
    assert_eq!(s.set_pixel(i32::MAX, 255, 0, 0), None);
    for i in 0..8 {
        assert_eq!(s.pixel(i), LedColor::off());
    }
}

#[test]
fn out_of_range_channel_is_a_no_op() {
    let mut s = Strip::new(8);
    assert_eq!(s.set_pixel(0, 256, 0, 0), None);
    assert_eq!(s.set_pixel(0, 0, -1, 0), None);
    assert_eq!(s.set_pixel(0, 0, 0, 1000), None);
    assert_eq!(s.pixel(0), LedColor::off());
}

#[test]
fn apply_writes_forwards_only_accepted() {
    let mut s = Strip::new(8);
    let writes = vec![
        PixelWrite { index: 1, color: LedColor::green() },
        PixelWrite { index: 9, color: LedColor::green() },
        PixelWrite { index: 1, color: LedColor::yellow() },
    ];
    let out = s.apply_writes(&writes);
    assert_eq!(
        out,
        vec![
            DeviceWrite { index: 1, r: 0, g: 255, b: 0 },
            DeviceWrite { index: 1, r: 255, g: 255, b: 0 },
        ]
    );
    assert_eq!(s.pixel(1), LedColor::yellow());
}

#[test]
fn shutdown_darkens_and_then_ignores_writes() {
    let mut s = Strip::new(8);
    s.set_pixel(2, 255, 0, 0);
    s.set_pixel(5, 0, 255, 0);
    let out = s.shutdown();
    assert_eq!(out.len(), 8);
    assert!(out.iter().all(|d| d.r == 0 && d.g == 0 && d.b == 0));
    assert!(!s.is_open());
    for i in 0..8 {
        assert_eq!(s.pixel(i), LedColor::off());
    }
    assert_eq!(s.set_pixel(2, 255, 0, 0), None);
    let writes = vec![PixelWrite { index: 0, color: LedColor::red() }];
    assert!(s.apply_writes(&writes).is_empty());
    assert_eq!(s.pixel(0), LedColor::off());
    assert!(s.shutdown().is_empty());
}
