use vstd::prelude::*;

verus! {

/// Timer periods selected by the low four bits of `$4010`.
pub const DMC_RATE_TABLE: [u16; 16] = [
    428, 380, 340, 320, 286, 254, 226, 214, 190, 160, 142, 128, 106, 84, 72, 54,
];

/// Why the DMC asks for a sample byte: the first load after enabling, or a
/// reload while playing.
#[derive(Debug, Clone, Copy, PartialEq, Eq, Structural)]
pub enum DmcDmaKind {
    Load,
    Reload,
}

#[derive(Debug, Clone, Copy, PartialEq, Eq, Structural)]
pub struct DmcDmaRequest {
    pub addr: u16,
    pub kind: DmcDmaKind,
}

/// The delta modulation channel: plays 1-bit deltas of sample bytes fetched
/// from `$8000..$FFFF` by DMA.
#[derive(Debug, Clone, Copy, PartialEq, Eq, Structural)]
pub struct Dmc {
    pub irq_enabled: bool,
    pub loop_flag: bool,
    pub interrupt_flag: bool,
    pub timer_period: u16,
    pub timer_counter: u16,
    pub output_level: u8,
    pub shift_register: u8,
    pub bits_remaining: u8,
    pub silence: bool,
    pub sample_address: u16,
    pub sample_length: u16,
    pub current_address: u16,
    pub bytes_remaining: u16,
    pub sample_buffer: Option<u8>,
    pub dma_request: Option<DmcDmaRequest>,
}

/// A DMA request is raised when the buffer is empty, bytes remain and none is pending.
pub open spec fn with_request(d: Dmc, kind: DmcDmaKind) -> Dmc {
    if d.sample_buffer is None && d.bytes_remaining > 0 && d.dma_request is None {
        Dmc { dma_request: Some(DmcDmaRequest { addr: d.current_address, kind }), ..d }
    } else {
        d
    }
}

pub open spec fn restarted(d: Dmc) -> Dmc {
    Dmc { current_address: d.sample_address, bytes_remaining: d.sample_length, ..d }
}

/// The output unit after one clock: move the level by 2 towards the next
/// delta bit (within 0..=127), then refill the shift register from the buffer.
pub open spec fn output_clocked(d: Dmc) -> Dmc {
    let level = if d.silence {
        d.output_level
    } else if d.shift_register & 0x01 != 0 {
        if d.output_level <= 125 {
            (d.output_level + 2) as u8
        } else {
            d.output_level
        }
    } else if d.output_level >= 2 {
        (d.output_level - 2) as u8
    } else {
        d.output_level
    };
    let d1 = Dmc {
        output_level: level,
        shift_register: d.shift_register >> 1,
        bits_remaining: (d.bits_remaining - 1) as u8,
        ..d
    };
    if d1.bits_remaining == 0 {
        match d1.sample_buffer {
            Some(value) => with_request(
                Dmc { bits_remaining: 8, silence: false, shift_register: value, sample_buffer: None, ..d1 },
                DmcDmaKind::Reload,
            ),
            None => Dmc { bits_remaining: 8, silence: true, ..d1 },
        }
    } else {
        d1
    }
}

/// The channel after the DMA delivers `value`.
pub open spec fn sample_loaded(d: Dmc, value: u8) -> Dmc {
    let d1 = Dmc {
        sample_buffer: Some(value),
        current_address: if d.current_address == 0xFFFF {
            0x8000
        } else {
            (d.current_address + 1) as u16
        },
        bytes_remaining: (d.bytes_remaining - 1) as u16,
        ..d
    };
    if d1.bytes_remaining == 0 {
        if d1.loop_flag {
            with_request(restarted(d1), DmcDmaKind::Reload)
        } else if d1.irq_enabled {
            Dmc { interrupt_flag: true, ..d1 }
        } else {
            d1
        }
    } else {
        d1
    }
}

/// The channel after one timer clock: on reload the output unit is clocked.
pub open spec fn dmc_timer_ticked(t: Dmc) -> Dmc {
    if t.timer_counter == 0 {
        output_clocked(
            Dmc { timer_counter: (t.timer_period - 1) as u16, ..t },
        )
    } else {
        Dmc { timer_counter: (t.timer_counter - 1) as u16, ..t }
    }
}

impl Dmc {
    /// The rate is a table entry, a shift is in progress, and samples live in `$8000..`.
    pub open spec fn wf(self) -> bool {
        &&& self.timer_period >= 1
        &&& 1 <= self.bits_remaining <= 8
        &&& self.output_level <= 127
        &&& self.current_address >= 0x8000
        &&& self.sample_address >= 0x8000
    }

    /// The channel at power-on.
    pub open spec fn new_spec() -> Dmc {
        Dmc {
            irq_enabled: false,
            loop_flag: false,
            interrupt_flag: false,
            timer_period: 428,
            timer_counter: 427,
            output_level: 0,
            shift_register: 0,
            bits_remaining: 8,
            silence: true,
            sample_address: 0xC000,
            sample_length: 1,
            current_address: 0xC000,
            bytes_remaining: 0,
            sample_buffer: None,
            dma_request: None,
        }
    }

    pub fn new() -> (d: Self)
        ensures
            d.wf(),
            d == Dmc::new_spec(),
    {
        Dmc {
            irq_enabled: false,
            loop_flag: false,
            interrupt_flag: false,
            timer_period: DMC_RATE_TABLE[0],
            timer_counter: DMC_RATE_TABLE[0] - 1,
            output_level: 0,
            shift_register: 0,
            bits_remaining: 8,
            silence: true,
            sample_address: 0xC000,
            sample_length: 1,
            current_address: 0xC000,
            bytes_remaining: 0,
            sample_buffer: None,
            dma_request: None,
        }
    }

    pub fn write_flags_rate(&mut self, value: u8)
        requires
            old(self).wf(),
        ensures
            final(self).wf(),
            *final(self) == (Dmc {
                irq_enabled: value & 0x80 != 0,
                loop_flag: value & 0x40 != 0,
                timer_period: DMC_RATE_TABLE[(value & 0x0F) as int],
                interrupt_flag: old(self).interrupt_flag && value & 0x80 != 0,
                ..*old(self)
            }),
    {
        self.irq_enabled = value & 0x80 != 0;
        self.loop_flag = value & 0x40 != 0;
        proof {
            crate::bytes::lemma_u8_low_mask(value, 0x0F);
        }
        self.timer_period = DMC_RATE_TABLE[(value & 0x0F) as usize];

        if !self.irq_enabled {
            self.interrupt_flag = false;
        }
    }

    pub fn write_direct_load(&mut self, value: u8)
        requires
            old(self).wf(),
        ensures
            final(self).wf(),
            *final(self) == (Dmc { output_level: value & 0x7F, ..*old(self) }),
    {
        self.output_level = value & 0x7F;
        proof {
            crate::bytes::lemma_u8_low_mask(value, 0x7F);
        }
    }

    /// Samples start at `$C000 + 64 * value`.
    pub fn write_sample_address(&mut self, value: u8)
        requires
            old(self).wf(),
        ensures
            final(self).wf(),
            *final(self) == (Dmc { sample_address: (0xC000 + value * 64) as u16, ..*old(self) }),
    {
        self.sample_address = 0xC000 + (value as u16) * 64;
    }

    /// Samples are `16 * value + 1` bytes long.
    pub fn write_sample_length(&mut self, value: u8)
        ensures
            *final(self) == (Dmc { sample_length: (value * 16 + 1) as u16, ..*old(self) }),
    {
        self.sample_length = (value as u16) * 16 + 1;
    }

    pub fn set_enabled(&mut self, enabled: bool)
        requires
            old(self).wf(),
        ensures
            final(self).wf(),
            *final(self) == {
                let d = Dmc { interrupt_flag: false, ..*old(self) };
                if !enabled {
                    Dmc { bytes_remaining: 0, ..d }
                } else if d.bytes_remaining == 0 {
                    with_request(restarted(d), DmcDmaKind::Load)
                } else {
                    d
                }
            },
    {
        self.interrupt_flag = false;

        if !enabled {
            self.bytes_remaining = 0;
            return;
        }

        if self.bytes_remaining == 0 {
            self.restart_sample();
            self.request_dma(DmcDmaKind::Load);
        }
    }

    fn restart_sample(&mut self)
        requires
            old(self).wf(),
        ensures
            final(self).wf(),
            *final(self) == restarted(*old(self)),
    {
        self.current_address = self.sample_address;
        self.bytes_remaining = self.sample_length;
    }

    pub fn active(&self) -> (b: bool)
        ensures
            b == (self.bytes_remaining > 0),
    {
        self.bytes_remaining > 0
    }

    pub fn interrupt_flag(&self) -> (b: bool)
        ensures
            b == self.interrupt_flag,
    {
        self.interrupt_flag
    }

    fn request_dma(&mut self, kind: DmcDmaKind)
        ensures
            *final(self) == with_request(*old(self), kind),
    {
        if self.sample_buffer.is_none() && self.bytes_remaining > 0 && self.dma_request.is_none() {
            self.dma_request = Some(DmcDmaRequest { addr: self.current_address, kind });
        }
    }

    /// Hand out the pending DMA request, if any.
    pub fn take_dma_request(&mut self) -> (request: Option<DmcDmaRequest>)
        ensures
            request == old(self).dma_request,
            *final(self) == (Dmc { dma_request: None, ..*old(self) }),
    {
        let request = self.dma_request;
        self.dma_request = None;
        request
    }

    /// Store a fetched sample byte; at the end of the sample, loop or raise the interrupt.
    pub fn load_sample_buffer(&mut self, value: u8)
        requires
            old(self).wf(),
            old(self).bytes_remaining > 0,
        ensures
            final(self).wf(),
            *final(self) == sample_loaded(*old(self), value),
    {
        self.sample_buffer = Some(value);

        self.current_address = if self.current_address == 0xFFFF {
            0x8000
        } else {
            self.current_address + 1
        };

        self.bytes_remaining = self.bytes_remaining - 1;

        if self.bytes_remaining == 0 {
            if self.loop_flag {
                self.restart_sample();
                self.request_dma(DmcDmaKind::Reload);
            } else if self.irq_enabled {
                self.interrupt_flag = true;
            }
        }
    }

    pub fn tick_timer(&mut self)
        requires
            old(self).wf(),
        ensures
            final(self).wf(),
            *final(self) == dmc_timer_ticked(*old(self)),
    {
        if self.timer_counter == 0 {
            self.timer_counter = self.timer_period - 1;
            self.clock_output_unit();
        } else {
            self.timer_counter = self.timer_counter - 1;
        }
    }

    fn clock_output_unit(&mut self)
        requires
            old(self).wf(),
        ensures
            final(self).wf(),
            *final(self) == output_clocked(*old(self)),
    {
        if !self.silence {
            if self.shift_register & 0x01 != 0 {
                if self.output_level <= 125 {
                    self.output_level = self.output_level + 2;
                }
            } else if self.output_level >= 2 {
                self.output_level = self.output_level - 2;
            }
        }

        self.shift_register = self.shift_register >> 1;
        self.bits_remaining = self.bits_remaining - 1;

        if self.bits_remaining == 0 {
            self.bits_remaining = 8;

            match self.sample_buffer {
                Some(value) => {
                    self.sample_buffer = None;
                    self.silence = false;
                    self.shift_register = value;
                    self.request_dma(DmcDmaKind::Reload);
                },
                None => {
                    self.silence = true;
                },
            }
        }
    }

    pub fn output(&self) -> (level: u8)
        ensures
            level == self.output_level,
    {
        self.output_level
    }
}

} // verus!
