use vstd::prelude::*;

verus! {

/// An RGB colour as the plugin ABI carries it: three `int32` channels.
#[derive(Clone, Copy, Debug, PartialEq, Eq, Structural)]
pub struct LedColor(pub i32, pub i32, pub i32);

/// Every channel lies in `[0, 255]`.
pub open spec fn channels_valid(r: int, g: int, b: int) -> bool {
    0 <= r <= 255 && 0 <= g <= 255 && 0 <= b <= 255
}

impl LedColor {
    pub open spec fn is_valid(&self) -> bool {
        channels_valid(self.0 as int, self.1 as int, self.2 as int)
    }

    pub open spec fn spec_off() -> LedColor {
        LedColor(0, 0, 0)
    }

    pub open spec fn spec_red() -> LedColor {
        LedColor(255, 0, 0)
    }

    pub open spec fn spec_yellow() -> LedColor {
        LedColor(255, 255, 0)
    }

    pub open spec fn spec_green() -> LedColor {
        LedColor(0, 255, 0)
    }

    /// All channels dark.
    pub fn off() -> (c: LedColor)
        ensures
            c == Self::spec_off(),
    {
        LedColor(0, 0, 0)
    }

    pub fn red() -> (c: LedColor)
        ensures
            c == Self::spec_red(),
    {
        LedColor(255, 0, 0)
    }

    pub fn yellow() -> (c: LedColor)
        ensures
            c == Self::spec_yellow(),
    {
        LedColor(255, 255, 0)
    }

    pub fn green() -> (c: LedColor)
        ensures
            c == Self::spec_green(),
    {
        LedColor(0, 255, 0)
    }
}

/// One call of the `set_led(index, r, g, b)` host import, as a plugin makes it.
#[derive(Clone, Copy, Debug, PartialEq, Eq, Structural)]
pub struct PixelWrite {
    pub index: i32,
    pub color: LedColor,
}

} // verus!
