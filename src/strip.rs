//! The hardware bridge: the only path from a plugin's `set_led` calls to the
//! LED strip. Every write is checked here; a write that names no pixel of the
//! strip, or a channel outside `[0, 255]`, is dropped as a no-op.
use vstd::prelude::*;
use crate::color::{LedColor, PixelWrite};

verus! {

/// Number of pixels on the strip.
pub const STRIP_LEN: usize = 8;

/// What the strip holds: one colour per pixel, and whether it still takes writes.
pub struct StripState {
    pub pixels: Seq<LedColor>,
    pub open: bool,
}

/// A write that the bridge accepted, in the driver's own units.
#[derive(Clone, Copy, Debug, PartialEq, Eq, Structural)]
pub struct DeviceWrite {
    pub index: usize,
    pub r: u8,
    pub g: u8,
    pub b: u8,
}

/// The bridge takes `w`: it is open, the index names a pixel, the channels are bytes.
pub open spec fn accepts(s: StripState, w: PixelWrite) -> bool {
    &&& s.open
    &&& 0 <= w.index < s.pixels.len()
    &&& w.color.is_valid()
}

/// The strip after one `set_led` call.
pub open spec fn write_one(s: StripState, w: PixelWrite) -> StripState {
    if accepts(s, w) {
        StripState { pixels: s.pixels.update(w.index as int, w.color), open: s.open }
    } else {
        s
    }
}

/// The strip after a run of `set_led` calls, in order.
pub open spec fn write_all(s: StripState, ws: Seq<PixelWrite>) -> StripState
    decreases ws.len(),
{
    if ws.len() == 0 {
        s
    } else {
        write_one(write_all(s, ws.drop_last()), ws.last())
    }
}

/// The driver write that an accepted `set_led` call becomes.
pub open spec fn device_write_of(w: PixelWrite) -> DeviceWrite {
    DeviceWrite { index: w.index as usize, r: w.color.0 as u8, g: w.color.1 as u8, b: w.color.2 as u8 }
}

/// The driver writes that a run of `set_led` calls gives: one per accepted
/// call, in order.
pub open spec fn forwarded(s: StripState, ws: Seq<PixelWrite>) -> Seq<DeviceWrite>
    decreases ws.len(),
{
    if ws.len() == 0 {
        Seq::empty()
    } else {
        let prev = forwarded(s, ws.drop_last());
        if accepts(write_all(s, ws.drop_last()), ws.last()) {
            prev.push(device_write_of(ws.last()))
        } else {
            prev
        }
    }
}

/// Once the strip has been shut down, no run of `set_led` calls changes it.
pub proof fn lemma_closed_strip_ignores_writes(s: StripState, ws: Seq<PixelWrite>)
    requires
        !s.open,
    ensures
        write_all(s, ws) == s,
    decreases ws.len(),
{
    if ws.len() > 0 {
        lemma_closed_strip_ignores_writes(s, ws.drop_last());
    }
}

/// A run of `set_led` calls keeps the strip's length and whether it is open.
pub proof fn lemma_write_all_shape(s: StripState, ws: Seq<PixelWrite>)
    ensures
        write_all(s, ws).pixels.len() == s.pixels.len(),
        write_all(s, ws).open == s.open,
    decreases ws.len(),
{
    if ws.len() > 0 {
        lemma_write_all_shape(s, ws.drop_last());
    }
}

/// The strip: one colour per pixel, held on the host side and forwarded to
/// the driver write by write.
pub struct Strip {
    pixels: Vec<LedColor>,
    open: bool,
}

impl View for Strip {
    type V = StripState;

    closed spec fn view(&self) -> StripState {
        StripState { pixels: self.pixels@, open: self.open }
    }
}

impl Strip {
    /// An open strip of `len` pixels, all dark.
    pub fn new(len: usize) -> (s: Strip)
        ensures
            s@.open,
            s@.pixels == Seq::new(len as nat, |i: int| LedColor::spec_off()),
    {
        let mut pixels: Vec<LedColor> = Vec::new();
        let mut i: usize = 0;
        while i < len
            invariant
                i <= len,
                pixels@ =~= Seq::new(i as nat, |k: int| LedColor::spec_off()),
            decreases len - i,
        {
            pixels.push(LedColor::off());
            i = i + 1;
        }
        Strip { pixels, open: true }
    }

    pub fn len(&self) -> (n: usize)
        ensures
            n == self@.pixels.len(),
    {
        self.pixels.len()
    }

    pub fn is_open(&self) -> (b: bool)
        ensures
            b == self@.open,
    {
        self.open
    }

    /// The colour of pixel `index`.
    pub fn pixel(&self, index: usize) -> (c: LedColor)
        requires
            index < self@.pixels.len(),
        ensures
            c == self@.pixels[index as int],
    {
        self.pixels[index]
    }

    /// The `set_pixel(index, r, g, b)` operation. Returns the write to pass on
    /// to the driver, or `None` where the write was dropped.
    pub fn set_pixel(&mut self, index: i32, r: i32, g: i32, b: i32) -> (out: Option<DeviceWrite>)
        ensures
            final(self)@ == write_one(old(self)@, PixelWrite { index, color: LedColor(r, g, b) }),
            out is Some <==> accepts(old(self)@, PixelWrite { index, color: LedColor(r, g, b) }),
            out is Some ==> out == Some(device_write_of(PixelWrite { index, color: LedColor(r, g, b) })),
    {
        if self.open && 0 <= index && (index as usize) < self.pixels.len() && 0 <= r && r <= 255
            && 0 <= g && g <= 255 && 0 <= b && b <= 255 {
            let i = index as usize;
            self.pixels.set(i, LedColor(r, g, b));
            Some(DeviceWrite { index: i, r: r as u8, g: g as u8, b: b as u8 })
        } else {
            None
        }
    }

    /// Carries out a plugin's `set_led` calls in order. Returns the writes to
    /// pass on to the driver.
    pub fn apply_writes(&mut self, writes: &Vec<PixelWrite>) -> (out: Vec<DeviceWrite>)
        ensures
            final(self)@ == write_all(old(self)@, writes@),
            out@ == forwarded(old(self)@, writes@),
    {
        let mut out: Vec<DeviceWrite> = Vec::new();
        let mut k: usize = 0;
        while k < writes.len()
            invariant
                k <= writes@.len(),
                self@ == write_all(old(self)@, writes@.subrange(0, k as int)),
                out@ == forwarded(old(self)@, writes@.subrange(0, k as int)),
            decreases writes@.len() - k,
        {
            let w = writes[k];
            let accepted = self.set_pixel(w.index, w.color.0, w.color.1, w.color.2);
            if let Some(d) = accepted {
                out.push(d);
            }
            assert(writes@.subrange(0, k as int + 1).drop_last() =~= writes@.subrange(0, k as int));
            k = k + 1;
        }
        assert(writes@.subrange(0, writes@.len() as int) =~= writes@);
        out
    }

    /// Orderly shutdown: darkens every pixel, then stops taking writes.
    /// Returns the writes to pass on to the driver.
    pub fn shutdown(&mut self) -> (out: Vec<DeviceWrite>)
        ensures
            !final(self)@.open,
            final(self)@.pixels.len() == old(self)@.pixels.len(),
            old(self)@.open ==> final(self)@.pixels == Seq::new(
                old(self)@.pixels.len(),
                |i: int| LedColor::spec_off(),
            ),
            !old(self)@.open ==> final(self)@.pixels == old(self)@.pixels,
            old(self)@.open ==> out@ == Seq::new(
                old(self)@.pixels.len(),
                |i: int| DeviceWrite { index: i as usize, r: 0, g: 0, b: 0 },
            ),
            !old(self)@.open ==> out@.len() == 0,
    {
        let mut out: Vec<DeviceWrite> = Vec::new();
        if self.open {
            let mut i: usize = 0;
            while i < self.pixels.len()
                invariant
                    self.open,
                    i <= self@.pixels.len(),
                    self@.pixels.len() == old(self)@.pixels.len(),
                    forall|k: int| 0 <= k < i ==> #[trigger] self@.pixels[k] == LedColor::spec_off(),
                    out@ =~= Seq::new(i as nat, |k: int| DeviceWrite { index: k as usize, r: 0, g: 0, b: 0 }),
                decreases self@.pixels.len() - i,
            {
                self.pixels.set(i, LedColor::off());
                out.push(DeviceWrite { index: i, r: 0, g: 0, b: 0 });
                i = i + 1;
            }
            assert(self@.pixels =~= Seq::new(old(self)@.pixels.len(), |i: int| LedColor::spec_off()));
        }
        self.open = false;
        out
    }
}

} // verus!
