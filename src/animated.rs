//! The animated keyframe indicator plugin: a single red pixel that sweeps
//! along the strip and back, one keyframe per frame.
use vstd::prelude::*;
use crate::color::{LedColor, PixelWrite};
use crate::strip::{StripState, write_all, lemma_write_all_shape};

verus! {

/// Number of keyframes in one sweep.
pub const N_KEYFRAMES: i32 = 16;

/// The pixel lit at each keyframe: out along the strip, then back.
pub open spec fn keyframes() -> Seq<i32> {
    seq![0i32, 1, 2, 3, 4, 5, 6, 7, 7, 6, 5, 4, 3, 2, 1, 0]
}

/// The pixel lit at `frame`: the keyframe at `frame mod 16`.
pub open spec fn lit_index(frame: int) -> i32 {
    keyframes()[frame % 16]
}

/// The `set_led` calls of one frame: every pixel off, then the lit one red.
pub open spec fn frame_writes(frame: int) -> Seq<PixelWrite> {
    Seq::new(8, |i: int| PixelWrite { index: i as i32, color: LedColor::spec_off() }).push(
        PixelWrite { index: lit_index(frame), color: LedColor::spec_red() },
    )
}

/// The first `k` writes of a frame darken pixels `0..k` and leave the rest.
proof fn lemma_dark_prefix(s: StripState, k: int)
    requires
        s.open,
        s.pixels.len() == 8,
        0 <= k <= 8,
    ensures
        write_all(s, frame_writes(0).subrange(0, k)).pixels.len() == 8,
        write_all(s, frame_writes(0).subrange(0, k)).open,
        forall|i: int|
            0 <= i < 8 ==> #[trigger] write_all(s, frame_writes(0).subrange(0, k)).pixels[i] == (
            if i < k {
                LedColor::spec_off()
            } else {
                s.pixels[i]
            }),
    decreases k,
{
    let ws = frame_writes(0).subrange(0, k);
    lemma_write_all_shape(s, ws);
    if k > 0 {
        assert(ws.drop_last() =~= frame_writes(0).subrange(0, k - 1));
        lemma_dark_prefix(s, k - 1);
    }
}

/// On an open strip of eight pixels, whatever it showed before, a frame leaves
/// exactly one pixel lit, red, at the keyframe of `frame mod 16`; all others are off.
pub proof fn lemma_frame_lights_one_red(s: StripState, frame: int)
    requires
        s.open,
        s.pixels.len() == 8,
    ensures
        write_all(s, frame_writes(frame)).open,
        write_all(s, frame_writes(frame)).pixels.len() == 8,
        forall|i: int|
            0 <= i < 8 ==> #[trigger] write_all(s, frame_writes(frame)).pixels[i] == (
            if i == lit_index(frame) as int {
                LedColor::spec_red()
            } else {
                LedColor::spec_off()
            }),
{
    let ws = frame_writes(frame);
    lemma_dark_prefix(s, 8);
    assert(ws.drop_last() =~= frame_writes(0).subrange(0, 8));
    assert(0 <= lit_index(frame) < 8) by {
        assert(0 <= frame % 16 < 16);
    }
    let mid = write_all(s, ws.drop_last());
    assert(write_all(s, ws) == crate::strip::write_one(mid, ws.last()));
    assert(LedColor::spec_red().is_valid());
}

/// Plugin entry point: the keyframe plugin tracks no sensor and reports `0`.
pub fn sensor_update(sensor_id: i32, sensor_value: u32) -> (r: u32)
    ensures
        r == 0,
{
    0
}

/// Plugin entry point: paints frame `frame`, returning the `set_led` calls it made.
pub fn apply(frame: i32) -> (writes: Vec<PixelWrite>)
    ensures
        writes@ == frame_writes(frame as int),
{
    let table: [i32; 16] = [0, 1, 2, 3, 4, 5, 6, 7, 7, 6, 5, 4, 3, 2, 1, 0];
    assert(table@ =~= keyframes());
    let rem: i32 = frame % N_KEYFRAMES;
    let idx: i32 = if rem < 0 { rem + N_KEYFRAMES } else { rem };
    assert(idx as int == frame as int % 16);

    let mut writes: Vec<PixelWrite> = Vec::new();
    let mut x: i32 = 0;
    while x < 8
        invariant
            0 <= x <= 8,
            writes@ =~= Seq::new(x as nat, |i: int| PixelWrite { index: i as i32, color: LedColor::spec_off() }),
        decreases 8 - x,
    {
        writes.push(PixelWrite { index: x, color: LedColor::off() });
        x = x + 1;
    }
    writes.push(PixelWrite { index: table[idx as usize], color: LedColor::red() });
    assert(writes@ =~= frame_writes(frame as int));
    writes
}

} // verus!
