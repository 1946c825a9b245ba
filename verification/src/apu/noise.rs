use vstd::prelude::*;

use crate::apu::envelope::{envelope_clocked, envelope_output, Envelope};
use crate::apu::LENGTH_TABLE;

verus! {

/// Timer periods selected by the low four bits of `$400E`.
pub const NOISE_PERIOD_TABLE: [u16; 16] = [
    4, 8, 16, 32, 64, 96, 128, 160, 202, 254, 380, 508, 762, 1016, 2034, 4068,
];

#[derive(Debug, Clone, Copy, PartialEq, Eq, Structural)]
pub struct Noise {
    pub enabled: bool,
    pub envelope: Envelope,
    pub mode: bool,
    pub timer_period: u16,
    pub timer_counter: u16,
    pub shift_register: u16,
    pub length_counter: u8,
}

/// The 15-bit linear feedback shift register after one step: shift right and
/// feed bit 0 XOR bit 1 (bit 6 in mode 1) into bit 14.
pub open spec fn lfsr_step(shift_register: u16, mode: bool) -> u16 {
    let tap: u16 = if mode { 6 } else { 1 };
    let feedback = (shift_register & 0x01) ^ ((shift_register >> tap) & 0x01);
    (shift_register >> 1) | (feedback << 14)
}

/// The channel after one timer clock: on reload the shift register steps.
pub open spec fn noise_timer_ticked(t: Noise) -> Noise {
    if t.timer_counter == 0 {
        Noise {
            timer_counter: if t.timer_period == 0 {
                0
            } else {
                (t.timer_period - 1) as u16
            },
            shift_register: lfsr_step(t.shift_register, t.mode),
            ..t
        }
    } else {
        Noise { timer_counter: (t.timer_counter - 1) as u16, ..t }
    }
}

impl Noise {
    pub open spec fn wf(self) -> bool {
        self.envelope.wf()
    }

    /// The channel at power-on.
    pub open spec fn new_spec() -> Noise {
        Noise {
            enabled: false,
            envelope: Envelope::new_spec(),
            mode: false,
            timer_period: 0,
            timer_counter: 0,
            shift_register: 1,
            length_counter: 0,
        }
    }

    pub fn new() -> (n: Self)
        ensures
            n.wf(),
            n == Noise::new_spec(),
    {
        Noise {
            enabled: false,
            envelope: Envelope::new(),
            mode: false,
            timer_period: 0,
            timer_counter: 0,
            shift_register: 1,
            length_counter: 0,
        }
    }

    pub fn set_enabled(&mut self, enabled: bool)
        ensures
            *final(self) == (Noise {
                enabled,
                length_counter: if enabled { old(self).length_counter } else { 0 },
                ..*old(self)
            }),
    {
        self.enabled = enabled;

        if !enabled {
            self.length_counter = 0;
        }
    }

    pub fn length_counter_active(&self) -> (b: bool)
        ensures
            b == (self.length_counter > 0),
    {
        self.length_counter > 0
    }

    pub fn write_control(&mut self, value: u8)
        requires
            old(self).wf(),
        ensures
            final(self).wf(),
            *final(self) == (Noise {
                envelope: Envelope {
                    loop_flag: value & 0x20 != 0,
                    constant_volume: value & 0x10 != 0,
                    volume: value & 0x0F,
                    ..old(self).envelope
                },
                ..*old(self)
            }),
    {
        self.envelope.write_control(value);
    }

    pub fn write_period(&mut self, value: u8)
        ensures
            *final(self) == (Noise {
                mode: value & 0x80 != 0,
                timer_period: NOISE_PERIOD_TABLE[(value & 0x0F) as int],
                ..*old(self)
            }),
    {
        self.mode = value & 0x80 != 0;
        assert(value & 0x0F < 16) by (bit_vector);
        self.timer_period = NOISE_PERIOD_TABLE[(value & 0x0F) as usize];
    }

    pub fn write_length(&mut self, value: u8)
        ensures
            *final(self) == (Noise {
                length_counter: if old(self).enabled {
                    LENGTH_TABLE[(value >> 3) as int]
                } else {
                    old(self).length_counter
                },
                envelope: Envelope { start: true, ..old(self).envelope },
                ..*old(self)
            }),
    {
        if self.enabled {
            assert(value >> 3 < 32) by (bit_vector);
            self.length_counter = LENGTH_TABLE[(value >> 3) as usize];
        }

        self.envelope.restart();
    }

    pub fn tick_timer(&mut self)
        ensures
            *final(self) == noise_timer_ticked(*old(self)),
    {
        if self.timer_counter == 0 {
            self.timer_counter = self.timer_period.saturating_sub(1);
            self.clock_shift_register();
        } else {
            self.timer_counter = self.timer_counter - 1;
        }
    }

    pub fn clock_shift_register(&mut self)
        ensures
            *final(self) == (Noise {
                shift_register: lfsr_step(old(self).shift_register, old(self).mode),
                ..*old(self)
            }),
    {
        let tap: u16 = if self.mode {
            6
        } else {
            1
        };
        let feedback = (self.shift_register & 0x01) ^ ((self.shift_register >> tap) & 0x01);

        self.shift_register = (self.shift_register >> 1) | (feedback << 14);
    }

    pub fn clock_envelope(&mut self)
        requires
            old(self).wf(),
        ensures
            final(self).wf(),
            *final(self) == (Noise { envelope: envelope_clocked(old(self).envelope), ..*old(self) }),
    {
        self.envelope.clock();
    }

    pub fn clock_length_counter(&mut self)
        ensures
            *final(self) == (Noise {
                length_counter: if !old(self).envelope.loop_flag && old(self).length_counter > 0 {
                    (old(self).length_counter - 1) as u8
                } else {
                    old(self).length_counter
                },
                ..*old(self)
            }),
    {
        if !self.envelope.loop_flag() && self.length_counter > 0 {
            self.length_counter = self.length_counter - 1;
        }
    }

    pub fn output(&self) -> (level: u8)
        ensures
            level == if self.length_counter == 0 || self.shift_register & 0x01 != 0 {
                0
            } else {
                envelope_output(self.envelope)
            },
    {
        if self.length_counter == 0 || self.shift_register & 0x01 != 0 {
            0
        } else {
            self.envelope.output()
        }
    }
}

/// A 15-bit shift register stays within 15 bits and never becomes zero, so
/// the noise never locks up (it starts at 1).
pub proof fn lemma_lfsr_nonzero(shift_register: u16, mode: bool)
    requires
        0 < shift_register < 0x8000,
    ensures
        0 < lfsr_step(shift_register, mode) < 0x8000,
{
    let tap: u16 = if mode { 6 } else { 1 };
    assert(0 < shift_register < 0x8000 && (tap == 1 || tap == 6) ==> ({
        let feedback = (shift_register & 0x01) ^ ((shift_register >> tap) & 0x01);
        let next = (shift_register >> 1) | (feedback << 14);
        0 < next < 0x8000
    })) by (bit_vector);
}

} // verus!
