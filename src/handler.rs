//! The application's side of the server: access to its coils and registers.
use crate::error::Error;
use vstd::prelude::*;

verus! {

/// Trait for defining handlers for access to the Modbus data.
///
/// The user application holds all data and defines the access including
/// application side effects. Each operation defaults to `NotSupported`, which
/// the server reports as an illegal-function exception, so an application
/// implements only the ones it needs.
pub trait ModbusHandler: Sized {
    /// Read Coils: fill the first `len` entries of `out`, which holds at least
    /// the 2000 coils one request may ask for.
    fn read_coils(&mut self, addr: usize, len: usize, out: &mut [bool]) -> (r: Result<usize, Error>)
        requires
            len <= old(out)@.len(),
        default_ensures
            r == Err::<usize, Error>(Error::NotSupported),
            *final(self) == *old(self),
            final(out)@ == old(out)@,
    {
        Err(Error::NotSupported)
    }

    /// Read Discrete Inputs: fill the first `len` entries of `out`, which holds
    /// at least the 2000 inputs one request may ask for.
    fn read_discrete_input(&mut self, addr: usize, len: usize, out: &mut [bool]) -> (r: Result<
        usize,
        Error,
    >)
        requires
            len <= old(out)@.len(),
        default_ensures
            r == Err::<usize, Error>(Error::NotSupported),
            *final(self) == *old(self),
            final(out)@ == old(out)@,
    {
        Err(Error::NotSupported)
    }

    /// Read Holding Registers: fill the first `len` entries of `out`, which
    /// holds at least the 125 registers one request may ask for.
    fn read_holding_registers(&mut self, addr: usize, len: usize, out: &mut [u16]) -> (r: Result<
        usize,
        Error,
    >)
        requires
            len <= old(out)@.len(),
        default_ensures
            r == Err::<usize, Error>(Error::NotSupported),
            *final(self) == *old(self),
            final(out)@ == old(out)@,
    {
        Err(Error::NotSupported)
    }

    /// Read Input Registers: fill the first `len` entries of `out`, which holds
    /// at least the 125 registers one request may ask for.
    fn read_input_registers(&mut self, addr: usize, len: usize, out: &mut [u16]) -> (r: Result<
        usize,
        Error,
    >)
        requires
            len <= old(out)@.len(),
        default_ensures
            r == Err::<usize, Error>(Error::NotSupported),
            *final(self) == *old(self),
            final(out)@ == old(out)@,
    {
        Err(Error::NotSupported)
    }

    /// Write Coils: store the first `len` entries of `buf` from `addr` on, and
    /// report how many were written.
    fn write_coils(&mut self, addr: usize, len: usize, buf: &[bool]) -> (r: Result<usize, Error>)
        requires
            len <= buf@.len(),
        default_ensures
            r == Err::<usize, Error>(Error::NotSupported),
            *final(self) == *old(self),
    {
        Err(Error::NotSupported)
    }

    /// Write Registers: store the first `len` entries of `buf` from `addr` on,
    /// and report how many were written.
    fn write_registers(&mut self, addr: usize, len: usize, buf: &[u16]) -> (r: Result<
        usize,
        Error,
    >)
        requires
            len <= buf@.len(),
        default_ensures
            r == Err::<usize, Error>(Error::NotSupported),
            *final(self) == *old(self),
    {
        Err(Error::NotSupported)
    }
}

/// Callbacks for an application that has a single coil, such as a relay.
pub trait CoilHandler {
    /// The coil was written with `value`.
    fn on_write(&mut self, value: bool);

    /// The coil, holding `value`, was read.
    fn on_read(&mut self, value: bool);
}

/// A handler for one coil at address 0, which tells a `CoilHandler` of each
/// read and write. The coil starts off.
pub struct SingleCoil<C> {
    coil: bool,
    handler: C,
}

impl<C: CoilHandler> SingleCoil<C> {
    /// The state of the coil.
    pub closed spec fn spec_coil(&self) -> bool {
        self.coil
    }

    /// The application's callbacks.
    pub closed spec fn spec_handler(&self) -> C {
        self.handler
    }

    pub fn new(handler: C) -> (r: Self)
        ensures
            r.spec_coil() == false,
            r.spec_handler() == handler,
    {
        SingleCoil { coil: false, handler }
    }

    /// The state of the coil.
    pub fn coil(&self) -> (r: bool)
        ensures
            r == self.spec_coil(),
    {
        self.coil
    }

    /// The application's callbacks.
    pub fn handler(&self) -> (r: &C)
        ensures
            *r == self.spec_handler(),
    {
        &self.handler
    }
}

impl<C: CoilHandler> ModbusHandler for SingleCoil<C> {
    /// Reads the coil, which a request must ask for alone.
    fn read_coils(&mut self, addr: usize, len: usize, out: &mut [bool]) -> (r: Result<usize, Error>)
        ensures
            r == (if addr == 0 && len == 1 {
                Ok::<usize, Error>(1)
            } else {
                Err::<usize, Error>(Error::InvalidAddress)
            }),
            r is Ok ==> final(out)@ == old(out)@.update(0, old(self).spec_coil()),
            final(self).spec_coil() == old(self).spec_coil(),
    {
        if addr != 0 || len != 1 {
            return Err(Error::InvalidAddress);
        }
        let value = self.coil;
        self.handler.on_read(value);
        out[0] = value;
        Ok(1)
    }

    /// Writes the coil, which a request must ask for alone.
    fn write_coils(&mut self, addr: usize, len: usize, buf: &[bool]) -> (r: Result<usize, Error>)
        ensures
            r == (if addr == 0 && len == 1 {
                Ok::<usize, Error>(1)
            } else {
                Err::<usize, Error>(Error::InvalidAddress)
            }),
            final(self).spec_coil() == (if r is Ok {
                buf@[0]
            } else {
                old(self).spec_coil()
            }),
    {
        if addr != 0 || len != 1 {
            return Err(Error::InvalidAddress);
        }
        let value = buf[0];
        self.coil = value;
        self.handler.on_write(value);
        Ok(1)
    }
}

} // verus!
