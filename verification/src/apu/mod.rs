use vstd::prelude::*;

use crate::apu::dmc::{dmc_timer_ticked, sample_loaded, Dmc, DmcDmaRequest, DMC_RATE_TABLE};
use crate::apu::envelope::{envelope_clocked, Envelope};
use crate::apu::noise::{noise_timer_ticked, Noise, NOISE_PERIOD_TABLE};
use crate::apu::pulse::{pulse_timer_ticked, sweep_clocked, Pulse, SweepNegateMode};
use crate::apu::triangle::{triangle_linear_clocked, triangle_timer_ticked, Triangle};

pub mod dmc;
pub mod envelope;
pub mod noise;
pub mod pulse;
pub mod triangle;

verus! {

/// Length counter load values, indexed by the top five bits of a length write.
pub const LENGTH_TABLE: [u8; 32] = [
    10, 254, 20, 2, 40, 4, 80, 6, 160, 8, 60, 10, 14, 12, 26, 14, 12, 16, 24, 18, 48, 20, 96, 22,
    192, 24, 72, 26, 16, 28, 32, 30,
];

} // verus!

verus! {

/// What a frame-counter step clocks.
#[derive(Debug, Clone, Copy, PartialEq, Eq, Structural)]
pub struct FrameEvents {
    pub quarter: bool,
    pub half: bool,
    pub irq: bool,
}

/// A `$4017` write takes effect a few CPU cycles later.
#[derive(Debug, Clone, Copy, PartialEq, Eq, Structural)]
pub struct PendingFrameCounterWrite {
    pub five_step_mode: bool,
    pub finish_ticks_remaining: u8,
}

/// The audio processing unit's channels and frame counter; turning the
/// channel levels into samples is left to the host.
#[derive(Debug, Clone, Copy, PartialEq, Eq, Structural)]
pub struct Apu {
    pub pulse1: Pulse,
    pub pulse2: Pulse,
    pub triangle: Triangle,
    pub noise: Noise,
    pub dmc: Dmc,
    pub pulse_timer_phase: bool,
    pub frame_cycle: u32,
    pub five_step_mode: bool,
    pub irq_inhibit: bool,
    pub frame_interrupt_flag: bool,
    pub pending_frame_counter_write: Option<PendingFrameCounterWrite>,
}

pub open spec fn no_events() -> FrameEvents {
    FrameEvents { quarter: false, half: false, irq: false }
}

/// The frame sequencer's events at `cycle`, and the cycle it continues from.
pub open spec fn sequencer_events(five_step_mode: bool, cycle: u32) -> (u32, FrameEvents) {
    let q = FrameEvents { quarter: true, half: false, irq: false };
    let qh = FrameEvents { quarter: true, half: true, irq: false };
    if five_step_mode {
        if cycle == 7457 || cycle == 22371 {
            (cycle, q)
        } else if cycle == 14913 || cycle == 37281 {
            (cycle, qh)
        } else if cycle == 37282 {
            (0, no_events())
        } else {
            (cycle, no_events())
        }
    } else {
        if cycle == 7457 || cycle == 22371 {
            (cycle, q)
        } else if cycle == 14913 {
            (cycle, qh)
        } else if cycle == 29828 {
            (cycle, FrameEvents { irq: true, ..no_events() })
        } else if cycle == 29829 {
            (cycle, FrameEvents { quarter: true, half: true, irq: true })
        } else if cycle == 29830 {
            (0, FrameEvents { irq: true, ..no_events() })
        } else {
            (cycle, no_events())
        }
    }
}

/// One frame-counter step, including a pending `$4017` write coming into effect.
pub open spec fn frame_counter_step(a: Apu) -> (Apu, FrameEvents) {
    let (cycle, events) = sequencer_events(a.five_step_mode, (a.frame_cycle + 1) as u32);
    let a1 = Apu { frame_cycle: cycle, ..a };
    match a1.pending_frame_counter_write {
        Some(pending) => if pending.finish_ticks_remaining == 1 {
            (
                Apu {
                    five_step_mode: pending.five_step_mode,
                    frame_cycle: 0,
                    pending_frame_counter_write: None,
                    ..a1
                },
                if pending.five_step_mode {
                    FrameEvents { quarter: true, half: true, ..events }
                } else {
                    events
                },
            )
        } else {
            (
                Apu {
                    pending_frame_counter_write: Some(
                        PendingFrameCounterWrite {
                            finish_ticks_remaining: (pending.finish_ticks_remaining - 1) as u8,
                            ..pending
                        },
                    ),
                    ..a1
                },
                events,
            )
        },
        None => (a1, events),
    }
}

pub open spec fn quarter_clocked(a: Apu) -> Apu {
    Apu {
        pulse1: Pulse { envelope: envelope_clocked(a.pulse1.envelope), ..a.pulse1 },
        pulse2: Pulse { envelope: envelope_clocked(a.pulse2.envelope), ..a.pulse2 },
        triangle: triangle_linear_clocked(a.triangle),
        noise: Noise { envelope: envelope_clocked(a.noise.envelope), ..a.noise },
        ..a
    }
}

pub open spec fn length_clocked(length_counter: u8, halt: bool) -> u8 {
    if !halt && length_counter > 0 {
        (length_counter - 1) as u8
    } else {
        length_counter
    }
}

pub open spec fn half_clocked(a: Apu) -> Apu {
    Apu {
        pulse1: sweep_clocked(
            Pulse {
                length_counter: length_clocked(a.pulse1.length_counter, a.pulse1.envelope.loop_flag),
                ..a.pulse1
            },
        ),
        pulse2: sweep_clocked(
            Pulse {
                length_counter: length_clocked(a.pulse2.length_counter, a.pulse2.envelope.loop_flag),
                ..a.pulse2
            },
        ),
        triangle: Triangle {
            length_counter: length_clocked(a.triangle.length_counter, a.triangle.control_flag),
            ..a.triangle
        },
        noise: Noise {
            length_counter: length_clocked(a.noise.length_counter, a.noise.envelope.loop_flag),
            ..a.noise
        },
        ..a
    }
}

/// The `$4015` status byte: length counters active, DMC active, frame and DMC interrupts.
pub open spec fn status_byte(a: Apu) -> u8 {
    (if a.pulse1.length_counter > 0 { 0x01u8 } else { 0 }) | (if a.pulse2.length_counter > 0 {
        0x02u8
    } else {
        0
    }) | (if a.triangle.length_counter > 0 { 0x04u8 } else { 0 }) | (if a.noise.length_counter
        > 0 {
        0x08u8
    } else {
        0
    }) | (if a.dmc.bytes_remaining > 0 { 0x10u8 } else { 0 }) | (if a.frame_interrupt_flag {
        0x40u8
    } else {
        0
    }) | (if a.dmc.interrupt_flag { 0x80u8 } else { 0 })
}

impl Apu {
    pub open spec fn wf(self) -> bool {
        &&& self.pulse1.wf()
        &&& self.pulse2.wf()
        &&& self.triangle.wf()
        &&& self.noise.wf()
        &&& self.dmc.wf()
        &&& self.frame_cycle <= if self.five_step_mode { 37281u32 } else { 29829u32 }
        &&& self.pending_frame_counter_write matches Some(p) ==> p.finish_ticks_remaining > 0
    }

    /// The APU at power-on: the first pulse channel's sweep negates with the
    /// ones' complement, the second with the two's complement.
    pub open spec fn new_spec() -> Apu {
        Apu {
            pulse1: Pulse::new_spec(SweepNegateMode::OnesComplement),
            pulse2: Pulse::new_spec(SweepNegateMode::TwosComplement),
            triangle: Triangle::new_spec(),
            noise: Noise::new_spec(),
            dmc: Dmc::new_spec(),
            pulse_timer_phase: false,
            frame_cycle: 0,
            five_step_mode: false,
            irq_inhibit: false,
            frame_interrupt_flag: false,
            pending_frame_counter_write: None,
        }
    }

    pub fn new() -> (a: Self)
        ensures
            a.wf(),
            a == Apu::new_spec(),
    {
        Apu {
            pulse1: Pulse::new(SweepNegateMode::OnesComplement),
            pulse2: Pulse::new(SweepNegateMode::TwosComplement),
            triangle: Triangle::new(),
            noise: Noise::new(),
            dmc: Dmc::new(),
            pulse_timer_phase: false,
            frame_cycle: 0,
            five_step_mode: false,
            irq_inhibit: false,
            frame_interrupt_flag: false,
            pending_frame_counter_write: None,
        }
    }

    pub fn tick_frame_counter(&mut self) -> (events: FrameEvents)
        requires
            old(self).wf(),
        ensures
            final(self).wf(),
            (*final(self), events) == frame_counter_step(*old(self)),
    {
        self.frame_cycle = self.frame_cycle + 1;

        let mut events = FrameEvents { quarter: false, half: false, irq: false };

        if self.five_step_mode {
            if self.frame_cycle == 7457 || self.frame_cycle == 22371 {
                events.quarter = true;
            } else if self.frame_cycle == 14913 || self.frame_cycle == 37281 {
                events.quarter = true;
                events.half = true;
            } else if self.frame_cycle == 37282 {
                self.frame_cycle = 0;
            }
        } else {
            if self.frame_cycle == 7457 || self.frame_cycle == 22371 {
                events.quarter = true;
            } else if self.frame_cycle == 14913 {
                events.quarter = true;
                events.half = true;
            } else if self.frame_cycle == 29828 {
                events.irq = true;
            } else if self.frame_cycle == 29829 {
                events.quarter = true;
                events.half = true;
                events.irq = true;
            } else if self.frame_cycle == 29830 {
                events.irq = true;
                self.frame_cycle = 0;
            }
        }
        match self.pending_frame_counter_write {
            Some(pending) => {
                if pending.finish_ticks_remaining == 1 {
                    self.five_step_mode = pending.five_step_mode;
                    self.frame_cycle = 0;
                    self.pending_frame_counter_write = None;

                    if self.five_step_mode {
                        events.quarter = true;
                        events.half = true;
                    }
                } else {
                    self.pending_frame_counter_write = Some(
                        PendingFrameCounterWrite {
                            finish_ticks_remaining: pending.finish_ticks_remaining - 1,
                            ..pending
                        },
                    );
                }
            },
            None => {},
        }

        events
    }
}

/// One CPU cycle of the APU: timers (pulses every other cycle), the frame
/// counter and the envelope, length and sweep clocks it produces.
pub open spec fn apu_ticked(a: Apu) -> Apu {
    let a1 = Apu {
        triangle: triangle_timer_ticked(a.triangle),
        noise: noise_timer_ticked(a.noise),
        dmc: dmc_timer_ticked(a.dmc),
        pulse_timer_phase: !a.pulse_timer_phase,
        ..a
    };
    let a2 = if a1.pulse_timer_phase {
        Apu { pulse1: pulse_timer_ticked(a1.pulse1), pulse2: pulse_timer_ticked(a1.pulse2), ..a1 }
    } else {
        a1
    };
    let (a3, events) = frame_counter_step(a2);
    let a4 = if events.irq && !a3.irq_inhibit {
        Apu { frame_interrupt_flag: true, ..a3 }
    } else {
        a3
    };
    let a5 = if events.quarter {
        quarter_clocked(a4)
    } else {
        a4
    };
    if events.half {
        half_clocked(a5)
    } else {
        a5
    }
}

/// A pulse channel after a write to its register `reg` (0 to 3).
pub open spec fn pulse_written(p: Pulse, reg: u16, value: u8) -> Pulse {
    if reg == 0 {
        Pulse {
            duty: value >> 6,
            envelope: Envelope {
                loop_flag: value & 0x20 != 0,
                constant_volume: value & 0x10 != 0,
                volume: value & 0x0F,
                ..p.envelope
            },
            ..p
        }
    } else if reg == 1 {
        Pulse {
            sweep_enabled: value & 0x80 != 0,
            sweep_period: (value >> 4) & 0x07,
            sweep_negate: value & 0x08 != 0,
            sweep_shift: value & 0x07,
            sweep_reload: true,
            ..p
        }
    } else if reg == 2 {
        Pulse { timer_period: (p.timer_period & 0x0700) | value as u16, ..p }
    } else {
        Pulse {
            timer_period: (p.timer_period & 0x00FF) | (((value & 0x07) as u16) << 8),
            sequence_step: 0,
            envelope: Envelope { start: true, ..p.envelope },
            length_counter: if p.enabled {
                LENGTH_TABLE[(value >> 3) as int]
            } else {
                p.length_counter
            },
            ..p
        }
    }
}

/// Write register `reg` (0 to 3) of a pulse channel.
fn write_pulse(p: &mut Pulse, reg: u16, value: u8)
    requires
        old(p).wf(),
        reg < 4,
    ensures
        final(p).wf(),
        *final(p) == pulse_written(*old(p), reg, value),
{
    if reg == 0 {
        p.write_control(value);
    } else if reg == 1 {
        p.write_sweep(value);
    } else if reg == 2 {
        p.write_timer_low(value);
    } else {
        p.write_timer_high(value);
    }
}

/// The APU after a CPU write of `value` to `addr`; addresses outside the
/// registers, and the unused `$4009` and `$400D`, leave it unchanged.
pub open spec fn register_written(a: Apu, addr: u16, value: u8) -> Apu {
    if 0x4000 <= addr <= 0x4003 {
        Apu { pulse1: pulse_written(a.pulse1, (addr - 0x4000) as u16, value), ..a }
    } else if 0x4004 <= addr <= 0x4007 {
        Apu { pulse2: pulse_written(a.pulse2, (addr - 0x4004) as u16, value), ..a }
    } else if addr == 0x4008 {
        Apu {
            triangle: Triangle {
                control_flag: value & 0x80 != 0,
                linear_reload_value: value & 0x7F,
                ..a.triangle
            },
            ..a
        }
    } else if addr == 0x400A {
        Apu {
            triangle: Triangle {
                timer_period: (a.triangle.timer_period & 0x0700) | value as u16,
                ..a.triangle
            },
            ..a
        }
    } else if addr == 0x400B {
        Apu {
            triangle: Triangle {
                timer_period: (a.triangle.timer_period & 0x00FF) | (((value & 0x07) as u16) << 8),
                length_counter: if a.triangle.enabled {
                    LENGTH_TABLE[(value >> 3) as int]
                } else {
                    a.triangle.length_counter
                },
                linear_reload_flag: true,
                ..a.triangle
            },
            ..a
        }
    } else if addr == 0x400C {
        Apu {
            noise: Noise {
                envelope: Envelope {
                    loop_flag: value & 0x20 != 0,
                    constant_volume: value & 0x10 != 0,
                    volume: value & 0x0F,
                    ..a.noise.envelope
                },
                ..a.noise
            },
            ..a
        }
    } else if addr == 0x400E {
        Apu {
            noise: Noise {
                mode: value & 0x80 != 0,
                timer_period: NOISE_PERIOD_TABLE[(value & 0x0F) as int],
                ..a.noise
            },
            ..a
        }
    } else if addr == 0x400F {
        Apu {
            noise: Noise {
                length_counter: if a.noise.enabled {
                    LENGTH_TABLE[(value >> 3) as int]
                } else {
                    a.noise.length_counter
                },
                envelope: Envelope { start: true, ..a.noise.envelope },
                ..a.noise
            },
            ..a
        }
    } else if addr == 0x4010 {
        Apu {
            dmc: Dmc {
                irq_enabled: value & 0x80 != 0,
                loop_flag: value & 0x40 != 0,
                timer_period: DMC_RATE_TABLE[(value & 0x0F) as int],
                interrupt_flag: a.dmc.interrupt_flag && value & 0x80 != 0,
                ..a.dmc
            },
            ..a
        }
    } else if addr == 0x4011 {
        Apu { dmc: Dmc { output_level: value & 0x7F, ..a.dmc }, ..a }
    } else if addr == 0x4012 {
        Apu { dmc: Dmc { sample_address: (0xC000 + value * 64) as u16, ..a.dmc }, ..a }
    } else if addr == 0x4013 {
        Apu { dmc: Dmc { sample_length: (value * 16 + 1) as u16, ..a.dmc }, ..a }
    } else if addr == 0x4015 {
        channels_enabled(a, value)
    } else if addr == 0x4017 {
        frame_counter_written(a, value)
    } else {
        a
    }
}


pub open spec fn channels_enabled(a: Apu, value: u8) -> Apu {
    let d = Dmc { interrupt_flag: false, ..a.dmc };
    Apu {
        pulse1: Pulse {
            enabled: value & 0x01 != 0,
            length_counter: if value & 0x01 != 0 { a.pulse1.length_counter } else { 0 },
            ..a.pulse1
        },
        pulse2: Pulse {
            enabled: value & 0x02 != 0,
            length_counter: if value & 0x02 != 0 { a.pulse2.length_counter } else { 0 },
            ..a.pulse2
        },
        triangle: Triangle {
            enabled: value & 0x04 != 0,
            length_counter: if value & 0x04 != 0 { a.triangle.length_counter } else { 0 },
            ..a.triangle
        },
        noise: Noise {
            enabled: value & 0x08 != 0,
            length_counter: if value & 0x08 != 0 { a.noise.length_counter } else { 0 },
            ..a.noise
        },
        dmc: if value & 0x10 == 0 {
            Dmc { bytes_remaining: 0, ..d }
        } else if d.bytes_remaining == 0 {
            crate::apu::dmc::with_request(
                crate::apu::dmc::restarted(d),
                crate::apu::dmc::DmcDmaKind::Load,
            )
        } else {
            d
        },
        ..a
    }
}

pub open spec fn frame_counter_written(a: Apu, value: u8) -> Apu {
    Apu {
        irq_inhibit: value & 0x40 != 0,
        frame_interrupt_flag: a.frame_interrupt_flag && value & 0x40 == 0,
        pending_frame_counter_write: Some(
            PendingFrameCounterWrite {
                five_step_mode: value & 0x80 != 0,
                finish_ticks_remaining: if a.pulse_timer_phase { 5 } else { 4 },
            },
        ),
        ..a
    }
}

impl Apu {
    pub fn tick(&mut self)
        requires
            old(self).wf(),
        ensures
            final(self).wf(),
            *final(self) == apu_ticked(*old(self)),
    {
        self.triangle.tick_timer();
        self.noise.tick_timer();
        self.dmc.tick_timer();

        self.pulse_timer_phase = !self.pulse_timer_phase;
        if self.pulse_timer_phase {
            self.pulse1.tick_timer();
            self.pulse2.tick_timer();
        }

        let events = self.tick_frame_counter();

        if events.irq && !self.irq_inhibit {
            self.frame_interrupt_flag = true;
        }

        if events.quarter {
            self.clock_quarter_frame();
        }

        if events.half {
            self.clock_half_frame();
        }
    }

    fn write_pulse_register(&mut self, addr: u16, value: u8)
        requires
            old(self).wf(),
            0x4000 <= addr <= 0x4007,
        ensures
            final(self).wf(),
            *final(self) == register_written(*old(self), addr, value),
    {
        if addr <= 0x4003 {
            write_pulse(&mut self.pulse1, addr - 0x4000, value);
        } else {
            write_pulse(&mut self.pulse2, addr - 0x4004, value);
        }
    }

    fn write_triangle_noise_register(&mut self, addr: u16, value: u8)
        requires
            old(self).wf(),
            0x4008 <= addr <= 0x400F,
        ensures
            final(self).wf(),
            *final(self) == register_written(*old(self), addr, value),
    {
        if addr == 0x4008 {
            self.triangle.write_linear_counter(value);
        } else if addr == 0x400A {
            self.triangle.write_timer_low(value);
        } else if addr == 0x400B {
            self.triangle.write_timer_high_and_length(value);
        } else if addr == 0x400C {
            self.noise.write_control(value);
        } else if addr == 0x400E {
            self.noise.write_period(value);
        } else if addr == 0x400F {
            self.noise.write_length(value);
        }
    }

    fn write_dmc_register(&mut self, addr: u16, value: u8)
        requires
            old(self).wf(),
            0x4010 <= addr <= 0x4013,
        ensures
            final(self).wf(),
            *final(self) == register_written(*old(self), addr, value),
    {
        if addr == 0x4010 {
            self.dmc.write_flags_rate(value);
        } else if addr == 0x4011 {
            self.dmc.write_direct_load(value);
        } else if addr == 0x4012 {
            self.dmc.write_sample_address(value);
        } else {
            self.dmc.write_sample_length(value);
        }
    }

    /// A CPU write to the APU registers at `$4000..$4017`.
    pub fn write_register(&mut self, addr: u16, value: u8)
        requires
            old(self).wf(),
        ensures
            final(self).wf(),
            *final(self) == register_written(*old(self), addr, value),
    {
        if 0x4000 <= addr && addr <= 0x4007 {
            self.write_pulse_register(addr, value);
        } else if 0x4008 <= addr && addr <= 0x400F {
            self.write_triangle_noise_register(addr, value);
        } else if 0x4010 <= addr && addr <= 0x4013 {
            self.write_dmc_register(addr, value);
        } else if addr == 0x4015 {
            self.write_channel_enable(value);
        } else if addr == 0x4017 {
            self.write_frame_counter(value);
        }
    }

    /// Read `$4015`: channel and interrupt status; clears the frame interrupt.
    pub fn read_status(&mut self) -> (value: u8)
        ensures
            value == status_byte(*old(self)),
            *final(self) == (Apu { frame_interrupt_flag: false, ..*old(self) }),
    {
        let p1: u8 = if self.pulse1.length_counter_active() { 0x01 } else { 0 };
        let p2: u8 = if self.pulse2.length_counter_active() { 0x02 } else { 0 };
        let tri: u8 = if self.triangle.length_counter_active() { 0x04 } else { 0 };
        let noise: u8 = if self.noise.length_counter_active() { 0x08 } else { 0 };
        let dmc: u8 = if self.dmc.active() { 0x10 } else { 0 };
        let frame: u8 = if self.frame_interrupt_flag { 0x40 } else { 0 };
        let dmc_irq: u8 = if self.dmc.interrupt_flag() { 0x80 } else { 0 };

        self.frame_interrupt_flag = false;

        p1 | p2 | tri | noise | dmc | frame | dmc_irq
    }

    fn write_channel_enable(&mut self, value: u8)
        requires
            old(self).wf(),
        ensures
            final(self).wf(),
            *final(self) == channels_enabled(*old(self), value),
    {
        self.pulse1.set_enabled(value & 0x01 != 0);
        self.pulse2.set_enabled(value & 0x02 != 0);
        self.triangle.set_enabled(value & 0x04 != 0);
        self.noise.set_enabled(value & 0x08 != 0);
        self.dmc.set_enabled(value & 0x10 != 0);
    }

    fn write_frame_counter(&mut self, value: u8)
        requires
            old(self).wf(),
        ensures
            final(self).wf(),
            *final(self) == frame_counter_written(*old(self), value),
    {
        self.irq_inhibit = value & 0x40 != 0;

        if self.irq_inhibit {
            self.frame_interrupt_flag = false;
        }

        let pos_write_cycles: u8 = if self.pulse_timer_phase {
            4
        } else {
            3
        };

        self.pending_frame_counter_write = Some(
            PendingFrameCounterWrite {
                five_step_mode: value & 0x80 != 0,
                finish_ticks_remaining: pos_write_cycles + 1,
            },
        );
    }

    fn clock_quarter_frame(&mut self)
        requires
            old(self).wf(),
        ensures
            final(self).wf(),
            *final(self) == quarter_clocked(*old(self)),
    {
        self.pulse1.clock_envelope();
        self.pulse2.clock_envelope();
        self.triangle.clock_linear_counter();
        self.noise.clock_envelope();
    }

    fn clock_pulse_half_frame(pulse: &mut Pulse)
        requires
            old(pulse).wf(),
        ensures
            final(pulse).wf(),
            *final(pulse) == sweep_clocked(
                Pulse {
                    length_counter: length_clocked(old(pulse).length_counter, old(pulse).envelope.loop_flag),
                    ..*old(pulse)
                },
            ),
    {
        pulse.clock_length_counter();
        pulse.clock_sweep();
    }

    fn clock_half_frame(&mut self)
        requires
            old(self).wf(),
        ensures
            final(self).wf(),
            *final(self) == half_clocked(*old(self)),
    {
        let mut pulse1 = self.pulse1;
        let mut pulse2 = self.pulse2;
        let mut triangle = self.triangle;
        let mut noise = self.noise;
        Self::clock_pulse_half_frame(&mut pulse1);
        Self::clock_pulse_half_frame(&mut pulse2);
        triangle.clock_length_counter();
        noise.clock_length_counter();
        self.pulse1 = pulse1;
        self.pulse2 = pulse2;
        self.triangle = triangle;
        self.noise = noise;
    }

    pub fn take_dmc_dma_request(&mut self) -> (request: Option<DmcDmaRequest>)
        ensures
            request == old(self).dmc.dma_request,
            *final(self) == (Apu { dmc: Dmc { dma_request: None, ..old(self).dmc }, ..*old(self) }),
    {
        self.dmc.take_dma_request()
    }

    /// Deliver a DMC sample byte fetched by DMA.
    pub fn finish_dmc_dma(&mut self, value: u8)
        requires
            old(self).wf(),
            old(self).dmc.bytes_remaining > 0,
        ensures
            final(self).wf(),
            *final(self) == (Apu { dmc: sample_loaded(old(self).dmc, value), ..*old(self) }),
    {
        self.dmc.load_sample_buffer(value);
    }

    pub fn irq_asserted(&self) -> (b: bool)
        ensures
            b == (self.frame_interrupt_flag || self.dmc.interrupt_flag),
    {
        self.frame_interrupt_flag || self.dmc.interrupt_flag()
    }
}

/// The frame counter after `k` steps.
pub open spec fn frame_counter_steps(a: Apu, k: nat) -> Apu
    decreases k,
{
    if k == 0 {
        a
    } else {
        frame_counter_step(frame_counter_steps(a, (k - 1) as nat)).0
    }
}

/// The length of one frame-sequencer period in CPU cycles.
pub open spec fn sequencer_period(five_step_mode: bool) -> nat {
    if five_step_mode {
        37282
    } else {
        29830
    }
}

/// With no `$4017` write pending, the frame sequencer counts up from zero one
/// step at a time and is back at zero after exactly 29830 steps in
/// four-step mode and 37282 in five-step mode, not before.
pub proof fn lemma_sequencer_period(a: Apu, k: nat)
    requires
        a.frame_cycle == 0,
        a.pending_frame_counter_write is None,
        k <= sequencer_period(a.five_step_mode),
    ensures
        frame_counter_steps(a, k).frame_cycle == if k == sequencer_period(a.five_step_mode) {
            0
        } else {
            k
        },
        frame_counter_steps(a, k).five_step_mode == a.five_step_mode,
        frame_counter_steps(a, k).pending_frame_counter_write is None,
    decreases k,
{
    if k > 0 {
        lemma_sequencer_period(a, (k - 1) as nat);
    }
}

/// The frame events of step `k` (counted from 1) of a sequencer period:
/// quarter frames at 7457, 14913, 22371 and at the period's last quarter
/// (29829, or 37281 in five-step mode), half frames at 14913 and that last
/// quarter, and in four-step mode the frame interrupt at 29828-29830.
pub open spec fn period_events(five_step_mode: bool, k: nat) -> FrameEvents {
    let last: nat = if five_step_mode {
        37281
    } else {
        29829
    };
    FrameEvents {
        quarter: k == 7457 || k == 14913 || k == 22371 || k == last,
        half: k == 14913 || k == last,
        irq: !five_step_mode && 29828 <= k <= 29830,
    }
}

/// With no `$4017` write pending, step `k` of a period that starts at cycle
/// zero reports exactly `period_events`.
pub proof fn lemma_sequencer_events(a: Apu, k: nat)
    requires
        a.frame_cycle == 0,
        a.pending_frame_counter_write is None,
        1 <= k <= sequencer_period(a.five_step_mode),
    ensures
        frame_counter_step(frame_counter_steps(a, (k - 1) as nat)).1 == period_events(a.five_step_mode, k),
{
    lemma_sequencer_period(a, (k - 1) as nat);
}

} // verus!
