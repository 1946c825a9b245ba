use vstd::prelude::*;

use crate::apu::LENGTH_TABLE;

verus! {

/// The 32-step triangle waveform.
pub const TRIANGLE_SEQUENCE: [u8; 32] = [
    15, 14, 13, 12, 11, 10, 9, 8, 7, 6, 5, 4, 3, 2, 1, 0, 0, 1, 2, 3, 4, 5, 6, 7, 8, 9, 10, 11, 12,
    13, 14, 15,
];

#[derive(Debug, Clone, Copy, PartialEq, Eq, Structural)]
pub struct Triangle {
    pub enabled: bool,
    pub control_flag: bool,
    pub linear_reload_value: u8,
    pub linear_counter: u8,
    pub linear_reload_flag: bool,
    pub length_counter: u8,
    pub timer_period: u16,
    pub timer_counter: u16,
    pub sequence_step: u8,
}

pub open spec fn triangle_linear_clocked(t: Triangle) -> Triangle {
    let t1 = if t.linear_reload_flag {
        Triangle { linear_counter: t.linear_reload_value, ..t }
    } else if t.linear_counter > 0 {
        Triangle { linear_counter: (t.linear_counter - 1) as u8, ..t }
    } else {
        t
    };
    if !t1.control_flag {
        Triangle { linear_reload_flag: false, ..t1 }
    } else {
        t1
    }
}

/// The channel after one timer clock: the sequencer steps on reload while both counters run.
pub open spec fn triangle_timer_ticked(t: Triangle) -> Triangle {
    if t.timer_counter == 0 {
        Triangle {
            timer_counter: t.timer_period,
            sequence_step: if t.length_counter > 0 && t.linear_counter > 0 {
                ((t.sequence_step + 1) % 32) as u8
            } else {
                t.sequence_step
            },
            ..t
        }
    } else {
        Triangle { timer_counter: (t.timer_counter - 1) as u16, ..t }
    }
}

impl Triangle {
    pub open spec fn wf(self) -> bool {
        &&& self.sequence_step < 32
        &&& self.timer_period <= 0x07FF
    }

    /// The channel at power-on.
    pub open spec fn new_spec() -> Triangle {
        Triangle {
            enabled: false,
            control_flag: false,
            linear_reload_value: 0,
            linear_counter: 0,
            linear_reload_flag: false,
            length_counter: 0,
            timer_period: 0,
            timer_counter: 0,
            sequence_step: 16,
        }
    }

    pub fn new() -> (t: Self)
        ensures
            t.wf(),
            t == Triangle::new_spec(),
    {
        Triangle {
            enabled: false,
            control_flag: false,
            linear_reload_value: 0,
            linear_counter: 0,
            linear_reload_flag: false,
            length_counter: 0,
            timer_period: 0,
            timer_counter: 0,
            sequence_step: 16,
        }
    }

    pub fn set_enabled(&mut self, enabled: bool)
        ensures
            *final(self) == (Triangle {
                enabled,
                length_counter: if enabled { old(self).length_counter } else { 0 },
                ..*old(self)
            }),
    {
        self.enabled = enabled;

        if !enabled {
            self.length_counter = 0;
        }
    }

    pub fn length_counter_active(&self) -> (b: bool)
        ensures
            b == (self.length_counter > 0),
    {
        self.length_counter > 0
    }

    pub fn write_linear_counter(&mut self, value: u8)
        ensures
            *final(self) == (Triangle {
                control_flag: value & 0x80 != 0,
                linear_reload_value: value & 0x7F,
                ..*old(self)
            }),
    {
        self.control_flag = value & 0x80 != 0;
        self.linear_reload_value = value & 0x7F;
    }

    pub fn write_timer_low(&mut self, value: u8)
        requires
            old(self).wf(),
        ensures
            final(self).wf(),
            *final(self) == (Triangle {
                timer_period: (old(self).timer_period & 0x0700) | value as u16,
                ..*old(self)
            }),
    {
        let period = self.timer_period;
        self.timer_period = (period & 0x0700) | value as u16;
        assert((period & 0x0700) | value as u16 <= 0x07FF) by (bit_vector);
    }

    pub fn write_timer_high_and_length(&mut self, value: u8)
        requires
            old(self).wf(),
        ensures
            final(self).wf(),
            *final(self) == (Triangle {
                timer_period: (old(self).timer_period & 0x00FF) | (((value & 0x07) as u16) << 8),
                length_counter: if old(self).enabled {
                    LENGTH_TABLE[(value >> 3) as int]
                } else {
                    old(self).length_counter
                },
                linear_reload_flag: true,
                ..*old(self)
            }),
    {
        let period = self.timer_period;
        self.timer_period = (period & 0x00FF) | (((value & 0x07) as u16) << 8);
        assert((period & 0x00FF) | (((value & 0x07) as u16) << 8) <= 0x07FF) by (bit_vector);

        if self.enabled {
            assert(value >> 3 < 32) by (bit_vector);
            self.length_counter = LENGTH_TABLE[(value >> 3) as usize];
        }

        self.linear_reload_flag = true;
    }

    /// The sequencer only advances while both counters are running.
    pub fn tick_timer(&mut self)
        requires
            old(self).wf(),
        ensures
            final(self).wf(),
            *final(self) == triangle_timer_ticked(*old(self)),
    {
        if self.timer_counter == 0 {
            self.timer_counter = self.timer_period;

            if self.length_counter > 0 && self.linear_counter > 0 {
                self.sequence_step = (self.sequence_step + 1) % 32;
            }
        } else {
            self.timer_counter = self.timer_counter - 1;
        }
    }

    pub fn clock_linear_counter(&mut self)
        ensures
            *final(self) == triangle_linear_clocked(*old(self)),
    {
        if self.linear_reload_flag {
            self.linear_counter = self.linear_reload_value;
        } else if self.linear_counter > 0 {
            self.linear_counter = self.linear_counter - 1;
        }

        if !self.control_flag {
            self.linear_reload_flag = false;
        }
    }

    pub fn clock_length_counter(&mut self)
        ensures
            *final(self) == (Triangle {
                length_counter: if !old(self).control_flag && old(self).length_counter > 0 {
                    (old(self).length_counter - 1) as u8
                } else {
                    old(self).length_counter
                },
                ..*old(self)
            }),
    {
        if !self.control_flag && self.length_counter > 0 {
            self.length_counter = self.length_counter - 1;
        }
    }

    pub fn output(&self) -> (level: u8)
        requires
            self.wf(),
        ensures
            level == TRIANGLE_SEQUENCE[self.sequence_step as int],
    {
        TRIANGLE_SEQUENCE[self.sequence_step as usize]
    }
}

} // verus!
