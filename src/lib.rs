//! A Modbus RTU server core: it decodes one request frame, hands the request to
//! an application handler and encodes the response or exception frame.
pub mod codec;
pub mod error;
pub mod handler;
pub mod laws;
pub mod request;
pub mod response;

pub use error::{map_exception, Error};
pub use handler::{CoilHandler, ModbusHandler, SingleCoil};
pub use request::Request;
pub use response::{handler_call, HandlerCall};

use request::{locate_request, request_in};
use response::{
    answered, call_for, invokes_handler, reply_frame, respond, sent, MAX_COILS, MAX_REGISTERS,
};
use vstd::prelude::*;
use vstd::slice::slice_subrange;

verus! {

/// A server for one unit identifier on an RTU bus, serving requests through an
/// application handler.
pub struct ModbusRtuServer<H> {
    unit_id: u8,
    handler: H,
}

impl<H: ModbusHandler> ModbusRtuServer<H> {
    /// The unit identifier the server answers to.
    pub closed spec fn spec_unit_id(&self) -> u8 {
        self.unit_id
    }

    /// The application handler.
    pub closed spec fn spec_handler(&self) -> H {
        self.handler
    }

    pub fn new(unit_id: u8, handler: H) -> (r: Self)
        ensures
            r.spec_unit_id() == unit_id,
            r.spec_handler() == handler,
    {
        Self { unit_id, handler }
    }

    /// Serves the request frame in `rx`, if there is one for this unit: makes the
    /// one handler call that `handler_call` gives for the request (none where it
    /// gives a failure), writes the response or exception frame that `respond`
    /// gives for the handler's report to the start of `tx` and returns its length. Returns 0 and writes nothing where `rx` holds no
    /// request for this unit; fails with `BufferTooSmall` where the response does
    /// not fit `tx`.
    pub fn process_frame(&mut self, rx: &[u8], tx: &mut [u8]) -> (r: Result<usize, Error>)
        ensures
            final(self).spec_unit_id() == old(self).spec_unit_id(),
            request_in(old(self).spec_unit_id(), rx@) is None ==> {
                &&& r == Ok::<usize, Error>(0)
                &&& final(tx)@ == old(tx)@
                &&& final(self).spec_handler() == old(self).spec_handler()
            },
            request_in(old(self).spec_unit_id(), rx@) matches Some((frame, req)) ==> (!invokes_handler(req)
                ==> final(self).spec_handler() == old(self).spec_handler()),
            request_in(old(self).spec_unit_id(), rx@) matches Some((frame, req)) ==> (call_for(req) matches HandlerCall::Refused(e)
                ==> sent(
                r,
                old(tx)@,
                final(tx)@,
                reply_frame(old(self).spec_unit_id(), frame, req, Err(e), Seq::empty(), Seq::empty()),
            )),
            request_in(old(self).spec_unit_id(), rx@) matches Some((frame, req)) ==> answered(
                old(self).spec_unit_id(),
                frame,
                req,
                r,
                old(tx)@,
                final(tx)@,
            ),
    {
        let unit = self.unit_id;
        match locate_request(unit, rx) {
            None => Ok(0),
            Some((start, size, req)) => {
                assert(start + size <= rx.len());
                let frame = slice_subrange(rx, start, start + size);
                let mut bits = [false; MAX_COILS];
                let mut words = [0u16; MAX_REGISTERS];
                let res = self.dispatch(req, &mut bits, &mut words);
                let r = respond(unit, frame, req, res, &bits, &words, tx);
                r
            },
        }
    }

    /// Makes the handler call `handler_call` gives for `req`, with `bits` or
    /// `words` as the buffer a read fills; where it gives a failure, calls nothing
    /// and returns that failure.
    fn dispatch(
        &mut self,
        req: Request,
        bits: &mut [bool; MAX_COILS],
        words: &mut [u16; MAX_REGISTERS],
    ) -> (r: Result<usize, Error>)
        ensures
            final(self).spec_unit_id() == old(self).spec_unit_id(),
            call_for(req) matches HandlerCall::Refused(e) ==> {
                &&& r == Err::<usize, Error>(e)
                &&& final(self).spec_handler() == old(self).spec_handler()
            },
    {
        match handler_call(req) {
            HandlerCall::ReadCoils(a, n) => self.handler.read_coils(a, n, bits),
            HandlerCall::ReadDiscreteInputs(a, n) => self.handler.read_discrete_input(a, n, bits),
            HandlerCall::ReadHoldingRegisters(a, n) => self.handler.read_holding_registers(a, n, words),
            HandlerCall::ReadInputRegisters(a, n) => self.handler.read_input_registers(a, n, words),
            HandlerCall::WriteCoil(a, v) => {
                let value = [v];
                self.handler.write_coils(a, 1, &value)
            },
            HandlerCall::WriteRegister(a, v) => {
                let value = [v];
                self.handler.write_registers(a, 1, &value)
            },
            HandlerCall::Refused(e) => Err(e),
        }
    }

    /// The unit identifier the server answers to.
    pub fn unit_id(&self) -> (r: u8)
        ensures
            r == self.spec_unit_id(),
    {
        self.unit_id
    }

    /// The application handler.
    pub fn handler(&self) -> (r: &H)
        ensures
            *r == self.spec_handler(),
    {
        &self.handler
    }
}

} // verus!
