use vstd::prelude::*;

use crate::apu::envelope::{envelope_output, Envelope};
use crate::apu::LENGTH_TABLE;

verus! {

/// The four duty cycles, eight steps each.
pub const DUTY_TABLE: [[u8; 8]; 4] = [
    [0, 1, 0, 0, 0, 0, 0, 0],
    [0, 1, 1, 0, 0, 0, 0, 0],
    [0, 1, 1, 1, 1, 0, 0, 0],
    [1, 0, 0, 1, 1, 1, 1, 1],
];

/// How the sweep unit negates: pulse 1 subtracts one more than pulse 2.
#[derive(Debug, Clone, Copy, PartialEq, Eq, Structural)]
pub enum SweepNegateMode {
    OnesComplement,
    TwosComplement,
}

#[derive(Debug, Clone, Copy, PartialEq, Eq, Structural)]
pub struct Pulse {
    pub enabled: bool,
    pub duty: u8,
    pub envelope: Envelope,
    pub timer_period: u16,
    pub timer_counter: u16,
    pub sequence_step: u8,
    pub length_counter: u8,
    pub sweep_negate_mode: SweepNegateMode,
    pub sweep_enabled: bool,
    pub sweep_period: u8,
    pub sweep_negate: bool,
    pub sweep_shift: u8,
    pub sweep_divider: u8,
    pub sweep_reload: bool,
}

/// The period the sweep unit would set, clamped to 16 bits.
pub open spec fn sweep_target(p: Pulse) -> u16 {
    let change = (p.timer_period >> p.sweep_shift) as int;
    let current = p.timer_period as int;
    let target = if p.sweep_negate {
        current - change - match p.sweep_negate_mode {
            SweepNegateMode::OnesComplement => 1int,
            SweepNegateMode::TwosComplement => 0int,
        }
    } else {
        current + change
    };
    if target < 0 {
        0
    } else if target > 0xFFFF {
        0xFFFF
    } else {
        target as u16
    }
}

/// The channel is silenced by a too short period or an out-of-range sweep target.
pub open spec fn sweep_mutes(p: Pulse) -> bool {
    p.timer_period < 8 || sweep_target(p) > 0x07FF
}

#[verifier::opaque]
pub open spec fn sweep_clocked(p: Pulse) -> Pulse {
    let p1 = if p.sweep_divider == 0 && p.sweep_enabled && p.sweep_shift != 0 && !sweep_mutes(p) {
        Pulse { timer_period: sweep_target(p), ..p }
    } else {
        p
    };
    if p1.sweep_divider == 0 || p1.sweep_reload {
        Pulse { sweep_divider: p1.sweep_period, sweep_reload: false, ..p1 }
    } else {
        Pulse { sweep_divider: (p1.sweep_divider - 1) as u8, ..p1 }
    }
}

pub open spec fn pulse_output(p: Pulse) -> u8 {
    if !p.enabled || p.length_counter == 0 || p.timer_period < 8 {
        0
    } else if DUTY_TABLE[p.duty as int][p.sequence_step as int] == 0 {
        0
    } else {
        envelope_output(p.envelope)
    }
}

/// The channel after one timer clock: count down, and step the duty sequence on reload.
pub open spec fn pulse_timer_ticked(t: Pulse) -> Pulse {
    if t.timer_counter == 0 {
        Pulse {
            timer_counter: t.timer_period,
            sequence_step: ((t.sequence_step + 1) % 8) as u8,
            ..t
        }
    } else {
        Pulse { timer_counter: (t.timer_counter - 1) as u16, ..t }
    }
}

impl Pulse {
    /// Register fields fit their bit widths; the period is 11 bits.
    pub open spec fn wf(self) -> bool {
        &&& self.envelope.wf()
        &&& self.duty < 4
        &&& self.sequence_step < 8
        &&& self.timer_period <= 0x07FF
        &&& self.sweep_shift < 8
        &&& self.sweep_period < 8
    }

    /// The channel at power-on.
    pub open spec fn new_spec(sweep_negate_mode: SweepNegateMode) -> Pulse {
        Pulse {
            enabled: false,
            duty: 0,
            envelope: Envelope::new_spec(),
            timer_period: 0,
            timer_counter: 0,
            sequence_step: 0,
            length_counter: 0,
            sweep_negate_mode,
            sweep_enabled: false,
            sweep_period: 0,
            sweep_negate: false,
            sweep_shift: 0,
            sweep_divider: 0,
            sweep_reload: false,
        }
    }

    pub fn new(sweep_negate_mode: SweepNegateMode) -> (p: Self)
        ensures
            p.wf(),
            p == Pulse::new_spec(sweep_negate_mode),
    {
        Pulse {
            enabled: false,
            duty: 0,
            envelope: Envelope::new(),
            timer_period: 0,
            timer_counter: 0,
            sequence_step: 0,
            length_counter: 0,
            sweep_negate_mode,
            sweep_enabled: false,
            sweep_period: 0,
            sweep_negate: false,
            sweep_shift: 0,
            sweep_divider: 0,
            sweep_reload: false,
        }
    }

    pub fn write_control(&mut self, value: u8)
        requires
            old(self).wf(),
        ensures
            final(self).wf(),
            *final(self) == (Pulse {
                duty: value >> 6,
                envelope: Envelope {
                    loop_flag: value & 0x20 != 0,
                    constant_volume: value & 0x10 != 0,
                    volume: value & 0x0F,
                    ..old(self).envelope
                },
                ..*old(self)
            }),
    {
        self.duty = value >> 6;
        assert(value >> 6 < 4) by (bit_vector);
        self.envelope.write_control(value);
    }

    pub fn write_sweep(&mut self, value: u8)
        requires
            old(self).wf(),
        ensures
            final(self).wf(),
            *final(self) == (Pulse {
                sweep_enabled: value & 0x80 != 0,
                sweep_period: (value >> 4) & 0x07,
                sweep_negate: value & 0x08 != 0,
                sweep_shift: value & 0x07,
                sweep_reload: true,
                ..*old(self)
            }),
    {
        self.sweep_enabled = value & 0x80 != 0;
        self.sweep_period = (value >> 4) & 0x07;
        self.sweep_negate = value & 0x08 != 0;
        self.sweep_shift = value & 0x07;
        self.sweep_reload = true;
        assert((value >> 4) & 0x07 < 8 && value & 0x07 < 8) by (bit_vector);
    }

    pub fn sweep_target_period(&self) -> (target: u16)
        requires
            self.sweep_shift < 16,
        ensures
            target == sweep_target(*self),
    {
        let change = (self.timer_period >> self.sweep_shift) as i32;
        let current = self.timer_period as i32;

        let target = if self.sweep_negate {
            let extra: i32 = match self.sweep_negate_mode {
                SweepNegateMode::OnesComplement => 1,
                SweepNegateMode::TwosComplement => 0,
            };
            current - change - extra
        } else {
            current + change
        };

        if target < 0 {
            0
        } else if target > 0xFFFF {
            0xFFFF
        } else {
            target as u16
        }
    }

    pub fn sweep_muting(&self) -> (muted: bool)
        requires
            self.sweep_shift < 16,
        ensures
            muted == sweep_mutes(*self),
    {
        self.timer_period < 8 || self.sweep_target_period() > 0x07FF
    }

    pub fn clock_sweep(&mut self)
        requires
            old(self).wf(),
        ensures
            final(self).wf(),
            *final(self) == sweep_clocked(*old(self)),
    {
        reveal(sweep_clocked);
        if self.sweep_divider == 0 && self.sweep_enabled && self.sweep_shift != 0
            && !self.sweep_muting() {
            self.timer_period = self.sweep_target_period();
        }

        if self.sweep_divider == 0 || self.sweep_reload {
            self.sweep_divider = self.sweep_period;
            self.sweep_reload = false;
        } else {
            self.sweep_divider = self.sweep_divider - 1;
        }
    }

    pub fn write_timer_low(&mut self, value: u8)
        requires
            old(self).wf(),
        ensures
            final(self).wf(),
            *final(self) == (Pulse {
                timer_period: (old(self).timer_period & 0x0700) | value as u16,
                ..*old(self)
            }),
    {
        let period = self.timer_period;
        self.timer_period = (period & 0x0700) | value as u16;
        assert((period & 0x0700) | value as u16 <= 0x07FF) by (bit_vector);
    }

    pub fn write_timer_high(&mut self, value: u8)
        requires
            old(self).wf(),
        ensures
            final(self).wf(),
            *final(self) == (Pulse {
                timer_period: (old(self).timer_period & 0x00FF) | (((value & 0x07) as u16) << 8),
                sequence_step: 0,
                envelope: Envelope { start: true, ..old(self).envelope },
                length_counter: if old(self).enabled {
                    LENGTH_TABLE[(value >> 3) as int]
                } else {
                    old(self).length_counter
                },
                ..*old(self)
            }),
    {
        let period = self.timer_period;
        self.timer_period = (period & 0x00FF) | (((value & 0x07) as u16) << 8);
        assert((period & 0x00FF) | (((value & 0x07) as u16) << 8) <= 0x07FF) by (bit_vector);
        self.sequence_step = 0;
        self.envelope.restart();

        if self.enabled {
            assert(value >> 3 < 32) by (bit_vector);
            self.length_counter = LENGTH_TABLE[(value >> 3) as usize];
        }
    }

    pub fn set_enabled(&mut self, enabled: bool)
        ensures
            *final(self) == (Pulse {
                enabled,
                length_counter: if enabled { old(self).length_counter } else { 0 },
                ..*old(self)
            }),
    {
        self.enabled = enabled;

        if !enabled {
            self.length_counter = 0;
        }
    }

    pub fn length_counter_active(&self) -> (b: bool)
        ensures
            b == (self.length_counter > 0),
    {
        self.length_counter > 0
    }

    pub fn clock_length_counter(&mut self)
        ensures
            *final(self) == (Pulse {
                length_counter: if !old(self).envelope.loop_flag && old(self).length_counter > 0 {
                    (old(self).length_counter - 1) as u8
                } else {
                    old(self).length_counter
                },
                ..*old(self)
            }),
    {
        if !self.envelope.loop_flag() && self.length_counter > 0 {
            self.length_counter = self.length_counter - 1;
        }
    }

    pub fn tick_timer(&mut self)
        requires
            old(self).wf(),
        ensures
            final(self).wf(),
            *final(self) == pulse_timer_ticked(*old(self)),
    {
        if self.timer_counter == 0 {
            self.timer_counter = self.timer_period;
            self.sequence_step = (self.sequence_step + 1) % 8;
        } else {
            self.timer_counter = self.timer_counter - 1;
        }
    }

    pub fn clock_envelope(&mut self)
        requires
            old(self).wf(),
        ensures
            final(self).wf(),
            *final(self) == (Pulse {
                envelope: crate::apu::envelope::envelope_clocked(old(self).envelope),
                ..*old(self)
            }),
    {
        self.envelope.clock();
    }

    pub fn output(&self) -> (level: u8)
        requires
            self.wf(),
        ensures
            level == pulse_output(*self),
    {
        if !self.enabled || self.length_counter == 0 || self.timer_period < 8 {
            return 0;
        }

        if DUTY_TABLE[self.duty as usize][self.sequence_step as usize] == 0 {
            return 0;
        }

        self.envelope.output()
    }
}

/// The sweep unit never moves the period out of its 11 bits: a target above
/// `$7FF` mutes the channel instead of being taken.
pub proof fn lemma_sweep_keeps_period(p: Pulse)
    requires
        p.wf(),
    ensures
        sweep_clocked(p).timer_period <= 0x07FF,
        sweep_clocked(p).wf(),
{
    reveal(sweep_clocked);
}

} // verus!
