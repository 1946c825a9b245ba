use vstd::prelude::*;

verus! {

/// The volume envelope shared by the pulse and noise channels: a constant
/// volume, or a decay level that counts 15 down to 0 (looping if asked) at a
/// rate set by the volume.
#[derive(Debug, Clone, Copy, PartialEq, Eq, Structural)]
pub struct Envelope {
    pub loop_flag: bool,
    pub constant_volume: bool,
    pub volume: u8,
    pub start: bool,
    pub divider: u8,
    pub decay: u8,
}

/// The envelope after one quarter-frame clock.
pub open spec fn envelope_clocked(e: Envelope) -> Envelope {
    if e.start {
        Envelope { start: false, decay: 15, divider: e.volume, ..e }
    } else if e.divider == 0 {
        Envelope {
            divider: e.volume,
            decay: if e.decay > 0 {
                (e.decay - 1) as u8
            } else if e.loop_flag {
                15
            } else {
                0
            },
            ..e
        }
    } else {
        Envelope { divider: (e.divider - 1) as u8, ..e }
    }
}

pub open spec fn envelope_output(e: Envelope) -> u8 {
    if e.constant_volume {
        e.volume
    } else {
        e.decay
    }
}

impl Envelope {
    pub open spec fn new_spec() -> Envelope {
        Envelope {
            loop_flag: false,
            constant_volume: false,
            volume: 0,
            start: false,
            divider: 0,
            decay: 0,
        }
    }

    /// Volume, divider and decay fit in four bits.
    pub open spec fn wf(self) -> bool {
        self.volume <= 15 && self.divider <= 15 && self.decay <= 15
    }

    pub fn new() -> (e: Self)
        ensures
            e == Envelope::new_spec(),
            e.wf(),
    {
        Envelope {
            loop_flag: false,
            constant_volume: false,
            volume: 0,
            start: false,
            divider: 0,
            decay: 0,
        }
    }

    pub fn write_control(&mut self, value: u8)
        requires
            old(self).wf(),
        ensures
            final(self).wf(),
            *final(self) == (Envelope {
                loop_flag: value & 0x20 != 0,
                constant_volume: value & 0x10 != 0,
                volume: value & 0x0F,
                ..*old(self)
            }),
    {
        self.loop_flag = value & 0x20 != 0;
        self.constant_volume = value & 0x10 != 0;
        self.volume = value & 0x0F;
        proof {
            crate::bytes::lemma_u8_low_mask(value, 0x0F);
        }
    }

    pub fn restart(&mut self)
        ensures
            *final(self) == (Envelope { start: true, ..*old(self) }),
    {
        self.start = true;
    }

    pub fn clock(&mut self)
        requires
            old(self).wf(),
        ensures
            final(self).wf(),
            *final(self) == envelope_clocked(*old(self)),
    {
        if self.start {
            self.start = false;
            self.decay = 15;
            self.divider = self.volume;
        } else if self.divider == 0 {
            self.divider = self.volume;

            if self.decay > 0 {
                self.decay = self.decay - 1;
            } else if self.loop_flag {
                self.decay = 15;
            }
        } else {
            self.divider = self.divider - 1;
        }
    }

    pub fn output(&self) -> (level: u8)
        ensures
            level == envelope_output(*self),
    {
        if self.constant_volume {
            self.volume
        } else {
            self.decay
        }
    }

    pub fn loop_flag(&self) -> (b: bool)
        ensures
            b == self.loop_flag,
    {
        self.loop_flag
    }
}

/// Without looping, a started envelope decays from 15 to 0 and stays there:
/// after a clock the decay level never rises, except when the envelope is
/// restarted or loops.
pub proof fn lemma_envelope_decay_falls(e: Envelope)
    requires
        e.wf(),
        !e.start,
        !e.loop_flag,
    ensures
        envelope_clocked(e).decay <= e.decay,
        envelope_clocked(e).wf(),
{
}

} // verus!
