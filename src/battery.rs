//! The battery-gauge indicator plugin: lights one pixel per 12.5 % of charge,
//! coloured by how much is left.
//!
//! Charge is carried as an integer number of hundredths of a percent
//! (`10000` is full), so that `12.5 %` is exactly `1250`.
use vstd::prelude::*;
use crate::color::{LedColor, PixelWrite};
use crate::strip::STRIP_LEN;

verus! {

/// Identifier of the battery sensor, shared by the host and the plugins.
pub const SENSOR_BATTERY: i32 = 20;

/// Charge, in hundredths of a percent, that one lit pixel stands for.
pub const CENTI_PCT_PER_PIXEL: u32 = 1250;

/// Highest charge, in hundredths of a percent, still shown in red.
pub const RED_UPTO: u32 = 2000;

/// Lowest charge, in hundredths of a percent, shown in green.
pub const GREEN_FROM: u32 = 5000;

/// `ceil(centi / 1250)`, capped at the strip length.
pub open spec fn lit_pixels(centi: int) -> int {
    let n = centi / 1250 + if centi % 1250 == 0 { 0int } else { 1int };
    if n > 8 { 8 } else { n }
}

/// Red up to 20 %, yellow strictly between 20 % and 50 %, green from 50 % on.
pub open spec fn gauge_color(centi: int) -> LedColor {
    if centi <= 2000 {
        LedColor::spec_red()
    } else if centi < 5000 {
        LedColor::spec_yellow()
    } else {
        LedColor::spec_green()
    }
}

/// The colour of pixel `i` of the gauge for charge `centi`.
pub open spec fn gauge_pixel(centi: int, i: int) -> LedColor {
    if i < lit_pixels(centi) {
        gauge_color(centi)
    } else {
        LedColor::spec_off()
    }
}

/// The `set_led` calls that paint the gauge: every pixel of the strip, in order.
pub open spec fn gauge_writes(centi: int) -> Seq<PixelWrite> {
    Seq::new(8, |i: int| PixelWrite { index: i as i32, color: gauge_pixel(centi, i) })
}

/// For a charge in `[0 %, 100 %]` the number of lit pixels is the ceiling of
/// `charge / 12.5 %`, capped at eight: an empty battery lights none, and a
/// full one lights all eight, green.
pub proof fn lemma_gauge_rule(centi: int)
    requires
        0 <= centi <= 10000,
    ensures
        0 <= lit_pixels(centi) <= 8,
        lit_pixels(centi) * 1250 >= centi,
        lit_pixels(centi) == 0 || (lit_pixels(centi) - 1) * 1250 < centi,
        centi == 0 ==> forall|i: int| 0 <= i < 8 ==> #[trigger] gauge_pixel(centi, i) == LedColor::spec_off(),
        centi == 10000 ==> forall|i: int| 0 <= i < 8 ==> #[trigger] gauge_pixel(centi, i) == LedColor::spec_green(),
{
    let q = centi / 1250;
    let m = centi % 1250;
    assert(centi == q * 1250 + m);
    assert(0 <= q <= 8);
}

/// The eight pixel colours of the gauge for a charge of `battery_remaining`
/// hundredths of a percent.
pub fn get_led_values(battery_remaining: u32) -> (arr: [LedColor; 8])
    ensures
        forall|i: int| 0 <= i < 8 ==> #[trigger] arr@[i] == gauge_pixel(battery_remaining as int, i),
{
    let off = LedColor::off();
    let mut arr: [LedColor; 8] = [off, off, off, off, off, off, off, off];
    let whole: u32 = battery_remaining / CENTI_PCT_PER_PIXEL;
    let ceil: u32 = if battery_remaining % CENTI_PCT_PER_PIXEL == 0 { whole } else { whole + 1 };
    let lit: usize = if ceil > 8 { 8 } else { ceil as usize };
    assert(lit as int == lit_pixels(battery_remaining as int));

    let color = if battery_remaining <= RED_UPTO {
        LedColor::red()
    } else if battery_remaining < GREEN_FROM {
        LedColor::yellow()
    } else {
        LedColor::green()
    };

    let mut idx: usize = 0;
    while idx < lit
        invariant
            lit <= 8,
            idx <= lit,
            lit as int == lit_pixels(battery_remaining as int),
            color == gauge_color(battery_remaining as int),
            forall|i: int| 0 <= i < 8 ==> #[trigger] arr@[i] == (if i < idx { color } else { off }),
            off == LedColor::spec_off(),
        decreases lit - idx,
    {
        arr[idx] = color;
        idx = idx + 1;
    }
    arr
}

/// The `set_led` calls that write `value` to the strip, pixel `0` first.
pub fn set_leds(value: &[LedColor; 8]) -> (writes: Vec<PixelWrite>)
    ensures
        writes@.len() == 8,
        forall|i: int| 0 <= i < 8 ==> #[trigger] writes@[i] == (PixelWrite { index: i as i32, color: value@[i] }),
{
    let mut writes: Vec<PixelWrite> = Vec::new();
    let mut x: usize = 0;
    while x < STRIP_LEN
        invariant
            x <= 8,
            writes@.len() == x,
            forall|i: int| 0 <= i < x ==> #[trigger] writes@[i] == (PixelWrite { index: i as i32, color: value@[i] }),
        decreases 8 - x,
    {
        writes.push(PixelWrite { index: x as i32, color: value[x] });
        x = x + 1;
    }
    writes
}

/// Plugin entry point: on a battery reading, repaints the gauge; hands the
/// reading back unchanged together with the `set_led` calls it made.
pub fn sensor_update(sensor_id: i32, sensor_value: u32) -> (r: (u32, Vec<PixelWrite>))
    ensures
        r.0 == sensor_value,
        sensor_id == SENSOR_BATTERY ==> r.1@ == gauge_writes(sensor_value as int),
        sensor_id != SENSOR_BATTERY ==> r.1@.len() == 0,
{
    if sensor_id == SENSOR_BATTERY {
        let values = get_led_values(sensor_value);
        let writes = set_leds(&values);
        assert(writes@ =~= gauge_writes(sensor_value as int));
        (sensor_value, writes)
    } else {
        (sensor_value, Vec::new())
    }
}

/// Plugin entry point: the gauge has no animation, so a frame paints nothing.
pub fn apply(frame: i32) -> (writes: Vec<PixelWrite>)
    ensures
        writes@.len() == 0,
{
    Vec::new()
}

} // verus!
