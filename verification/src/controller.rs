use vstd::prelude::*;

verus! {

/// The eight buttons of a standard controller, one bit each, in the order the
/// console reads them: A, B, Select, Start, Up, Down, Left, Right.
#[derive(Debug, Clone, Copy, PartialEq, Eq, Structural)]
pub struct ControllerButtons(pub u8);

pub const BUTTON_A: u8 = 1;
pub const BUTTON_B: u8 = 2;
pub const BUTTON_SELECT: u8 = 4;
pub const BUTTON_START: u8 = 8;
pub const BUTTON_UP: u8 = 16;
pub const BUTTON_DOWN: u8 = 32;
pub const BUTTON_LEFT: u8 = 64;
pub const BUTTON_RIGHT: u8 = 128;

/// `bits` with the bits of `mask` set when `pressed`, cleared otherwise.
pub open spec fn with_mask(bits: u8, mask: u8, pressed: bool) -> u8 {
    if pressed {
        bits | mask
    } else {
        bits & !mask
    }
}

/// Setting one button leaves every other button as it was.
pub proof fn lemma_with_mask_changes_only_mask(bits: u8, mask: u8, pressed: bool)
    ensures
        with_mask(bits, mask, pressed) & !mask == bits & !mask,
        pressed ==> with_mask(bits, mask, pressed) & mask == mask,
        !pressed ==> with_mask(bits, mask, pressed) & mask == 0,
{
    if pressed {
        assert((bits | mask) & !mask == bits & !mask && (bits | mask) & mask == mask) by (bit_vector);
    } else {
        assert((bits & !mask) & !mask == bits & !mask && (bits & !mask) & mask == 0) by (bit_vector);
    }
}

impl ControllerButtons {
    pub fn from_bits(bits: u8) -> (b: Self)
        ensures
            b.0 == bits,
    {
        ControllerButtons(bits)
    }

    fn with_button(self, mask: u8, pressed: bool) -> (b: Self)
        ensures
            b.0 == with_mask(self.0, mask, pressed),
    {
        if pressed {
            ControllerButtons(self.0 | mask)
        } else {
            ControllerButtons(self.0 & !mask)
        }
    }

    pub fn with_a(self, pressed: bool) -> (b: Self)
        ensures
            b.0 == with_mask(self.0, BUTTON_A, pressed),
    {
        self.with_button(BUTTON_A, pressed)
    }

    pub fn with_b(self, pressed: bool) -> (b: Self)
        ensures
            b.0 == with_mask(self.0, BUTTON_B, pressed),
    {
        self.with_button(BUTTON_B, pressed)
    }

    pub fn with_select(self, pressed: bool) -> (b: Self)
        ensures
            b.0 == with_mask(self.0, BUTTON_SELECT, pressed),
    {
        self.with_button(BUTTON_SELECT, pressed)
    }

    pub fn with_start(self, pressed: bool) -> (b: Self)
        ensures
            b.0 == with_mask(self.0, BUTTON_START, pressed),
    {
        self.with_button(BUTTON_START, pressed)
    }

    pub fn with_up(self, pressed: bool) -> (b: Self)
        ensures
            b.0 == with_mask(self.0, BUTTON_UP, pressed),
    {
        self.with_button(BUTTON_UP, pressed)
    }

    pub fn with_down(self, pressed: bool) -> (b: Self)
        ensures
            b.0 == with_mask(self.0, BUTTON_DOWN, pressed),
    {
        self.with_button(BUTTON_DOWN, pressed)
    }

    pub fn with_left(self, pressed: bool) -> (b: Self)
        ensures
            b.0 == with_mask(self.0, BUTTON_LEFT, pressed),
    {
        self.with_button(BUTTON_LEFT, pressed)
    }

    pub fn with_right(self, pressed: bool) -> (b: Self)
        ensures
            b.0 == with_mask(self.0, BUTTON_RIGHT, pressed),
    {
        self.with_button(BUTTON_RIGHT, pressed)
    }
}

impl Default for ControllerButtons {
    fn default() -> (b: Self)
        ensures
            b.0 == 0,
    {
        ControllerButtons(0)
    }
}

impl From<u8> for ControllerButtons {
    fn from(value: u8) -> (b: Self) {
        Self::from_bits(value)
    }
}

impl vstd::std_specs::convert::FromSpecImpl<u8> for ControllerButtons {
    open spec fn obeys_from_spec() -> bool {
        true
    }

    open spec fn from_spec(v: u8) -> Self {
        ControllerButtons(v)
    }
}

/// The serial shift register behind `$4016`/`$4017`.
#[derive(Debug, Clone, Copy, PartialEq, Eq, Structural)]
pub struct ControllerPort {
    pub shift: u8,
    pub strobe: bool,
}

/// The shift register after `k` reads: the button bits move down one place per
/// read and ones fill in from the top.
pub open spec fn shift_after_reads(shift: u8, k: nat) -> u8
    decreases k,
{
    if k == 0 {
        shift
    } else {
        ((shift_after_reads(shift, (k - 1) as nat) >> 1u8) | 0x80) as u8
    }
}

/// Reading a latched port reports the buttons one per read, A first, and
/// then ones once all eight have been shifted out.
pub proof fn lemma_latched_reads(buttons: u8, k: nat)
    ensures
        k < 8 ==> shift_after_reads(buttons, k) & 1 == (buttons >> (k as u8)) & 1,
        k >= 8 ==> shift_after_reads(buttons, k) & 1 == 1,
        k <= 8 ==> shift_after_reads(buttons, k) == (buttons >> (k as u8)) | !(0xFFu8 >> (k as u8)),
        k >= 8 ==> shift_after_reads(buttons, k) == 0xFF,
    decreases k,
{
    if k == 0 {
        assert(buttons == (buttons >> 0u8) | !(0xFFu8 >> 0u8) && buttons & 1 == (buttons >> 0u8) & 1)
            by (bit_vector);
    } else {
        lemma_latched_reads(buttons, (k - 1) as nat);
        let prev = shift_after_reads(buttons, (k - 1) as nat);
        if k <= 8 {
            let j = (k - 1) as u8;
            assert(j < 8);
            assert(prev == (buttons >> j) | !(0xFFu8 >> j));
            assert(((((buttons >> j) | !(0xFFu8 >> j)) >> 1u8) | 0x80) as u8
                == (buttons >> ((j + 1) as u8)) | !(0xFFu8 >> ((j + 1) as u8))) by (bit_vector)
                requires
                    j < 8,
            ;
            assert(k as u8 == (j + 1) as u8);
            if k < 8 {
                let kk = k as u8;
                assert(((buttons >> kk) | !(0xFFu8 >> kk)) & 1 == (buttons >> kk) & 1) by (bit_vector)
                    requires
                        kk < 8,
                ;
            } else {
                assert((buttons >> 8u8) | !(0xFFu8 >> 8u8) == 0xFF && 0xFFu8 & 1 == 1) by (bit_vector);
            }
        } else {
            assert(prev == 0xFF);
            assert((((0xFFu8 >> 1u8) | 0x80) as u8) == 0xFF && 0xFFu8 & 1 == 1) by (bit_vector);
        }
    }
}

impl ControllerPort {
    /// Bit 0 of a `$4016` write is the strobe; while it is high, and on its
    /// falling edge, the port copies the current buttons.
    pub fn write_strobe(&mut self, value: u8, buttons: ControllerButtons)
        ensures
            final(self).strobe == (value & 1 != 0),
            final(self).shift == if old(self).strobe || value & 1 != 0 {
                buttons.0
            } else {
                old(self).shift
            },
    {
        let new_strobe = value & 1 != 0;
        if self.strobe || new_strobe {
            self.shift = buttons.0;
        }
        self.strobe = new_strobe;
    }

    /// While the strobe is high a read reports button A live; otherwise it
    /// reports and shifts out the lowest latched bit.
    pub fn read(&mut self, buttons: ControllerButtons) -> (bit: u8)
        ensures
            old(self).strobe ==> bit == buttons.0 & 1 && *final(self) == *old(self),
            !old(self).strobe ==> bit == old(self).shift & 1 && final(self).shift
                == shift_after_reads(old(self).shift, 1) && !final(self).strobe,
    {
        if self.strobe {
            return buttons.0 & 1;
        }
        let bit = self.shift & 1;
        proof {
            reveal_with_fuel(shift_after_reads, 2);
        }
        self.shift = (self.shift >> 1) | 0x80;
        bit
    }
}

impl Default for ControllerPort {
    fn default() -> (p: Self)
        ensures
            p.shift == 0,
            !p.strobe,
    {
        ControllerPort { shift: 0, strobe: false }
    }
}

} // verus!
