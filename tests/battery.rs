use pihost::battery::{apply, get_led_values, sensor_update, set_leds, SENSOR_BATTERY};
use pihost::color::{LedColor, PixelWrite};

fn off() -> LedColor {
    LedColor(0, 0, 0)
}

fn yellow() -> LedColor {
    LedColor(255, 255, 0)
}

fn green() -> LedColor {
    LedColor(0, 255, 0)
}

fn red() -> LedColor {
    LedColor(255, 0, 0)
}

/// Charge in hundredths of a percent for a whole percentage.
fn pct(p: u32) -> u32 {
    p * 100
}

#[test]
fn test_0_pct() {
    assert_eq!(get_led_values(pct(0)), [off(), off(), off(), off(), off(), off(), off(), off()]);
}

#[test]
fn test_15_pct() {
    assert_eq!(get_led_values(pct(15)), [red(), red(), off(), off(), off(), off(), off(), off()]);
}

#[test]
fn test_49_pct() {
    assert_eq!(
        get_led_values(pct(49)),
        [yellow(), yellow(), yellow(), yellow(), off(), off(), off(), off()]
    );
}

#[test]
fn test_75_pct() {
    assert_eq!(
        get_led_values(pct(75)),
        [green(), green(), green(), green(), green(), green(), off(), off()]
    );
}

#[test]
fn test_100_pct() {
    assert_eq!(
        get_led_values(pct(100)),
        [green(), green(), green(), green(), green(), green(), green(), green()]
    );
}

#[test]
fn colour_bands_at_their_edges() {
    assert_eq!(get_led_values(2000)[0], red());
    assert_eq!(get_led_values(2001)[0], yellow());
    assert_eq!(get_led_values(4999)[0], yellow());
    assert_eq!(get_led_values(5000)[0], green());
}

#[test]
fn lit_count_is_a_ceiling() {
    // 12.5 % lights exactly one pixel, a hair more lights two.
    assert_eq!(get_led_values(1250), [red(), off(), off(), off(), off(), off(), off(), off()]);
    assert_eq!(get_led_values(1251), [red(), red(), off(), off(), off(), off(), off(), off()]);
    assert_eq!(get_led_values(1), [red(), off(), off(), off(), off(), off(), off(), off()]);
    let mid = get_led_values(8751);
    assert!(mid.iter().all(|c| *c == green()));
}

#[test]
fn lit_count_capped_at_strip_length() {
    assert_eq!(get_led_values(u32::MAX), [green(); 8]);
    assert_eq!(get_led_values(20000), [green(); 8]);
}

#[test]
fn every_whole_percent_matches_the_gauge_rule() {
    for p in 0..=100u32 {
        let v = p as f64;
        let lit = ((v / 12.5).ceil() as usize).min(8);
        let colour = if v <= 20.0 {
            red()
        } else if v < 50.0 {
            yellow()
        } else {
            green()
        };
        let got = get_led_values(pct(p));
        for i in 0..8 {
            let want = if i < lit { colour } else { off() };
            assert_eq!(got[i], want, "pixel {} at {} %", i, p);
        }
    }
}

#[test]
fn set_leds_writes_every_pixel_in_order() {
    let values = get_led_values(pct(30));
    let writes = set_leds(&values);
    assert_eq!(writes.len(), 8);
    for (i, w) in writes.iter().enumerate() {
        assert_eq!(*w, PixelWrite { index: i as i32, color: values[i] });
    }
}

#[test]
fn battery_reading_repaints_and_is_returned() {
    let (v, writes) = sensor_update(SENSOR_BATTERY, pct(15));
    assert_eq!(v, 1500);
    assert_eq!(writes.len(), 8);
    assert_eq!(writes[0], PixelWrite { index: 0, color: red() });
    assert_eq!(writes[1], PixelWrite { index: 1, color: red() });
    assert_eq!(writes[2], PixelWrite { index: 2, color: off() });
}

#[test]
fn other_sensor_paints_nothing() {
    let (v, writes) = sensor_update(SENSOR_BATTERY + 1, pct(15));
    assert_eq!(v, 1500);
    assert!(writes.is_empty());
}

#[test]
fn gauge_apply_paints_nothing() {
    assert!(apply(0).is_empty());
    assert!(apply(7).is_empty());
}
