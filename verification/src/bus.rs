use vstd::prelude::*;

verus! {

/// The CPU side of the address space: one byte behind each 16-bit address.
///
/// A read may change the bus (a status register that clears when read, a
/// controller that shifts), so a read and a write are each described as a
/// transition of the bus state. An implementation states its own transitions
/// by giving bodies to the three spec functions; one that does not is taken to
/// promise nothing about what its reads return.
pub trait Bus: Sized {
    /// What the bus needs to serve reads and writes; both keep it.
    open spec fn bus_wf(&self) -> bool {
        true
    }

    /// The byte that a read of `addr` returns in this state.
    open spec fn read_value(&self, addr: u16) -> u8 {
        arbitrary()
    }

    /// The bus after a read of `addr`.
    open spec fn after_read(&self, addr: u16) -> Self {
        arbitrary()
    }

    /// The bus after `value` is written to `addr`.
    open spec fn after_write(&self, addr: u16, value: u8) -> Self {
        arbitrary()
    }

    fn read(&mut self, addr: u16) -> (value: u8)
        requires
            old(self).bus_wf(),
        ensures
            value == old(self).read_value(addr),
            *final(self) == old(self).after_read(addr),
            final(self).bus_wf(),
    ;

    fn write(&mut self, addr: u16, value: u8)
        requires
            old(self).bus_wf(),
        ensures
            *final(self) == old(self).after_write(addr, value),
            final(self).bus_wf(),
    ;
}

} // verus!
