//! The requests the dispatcher serves, and how they are found in a received
//! buffer.
use crate::codec::{be16, crc_ok, decode_frame, decoded_span};
use modbus_core::Error as CodecError;
use modbus_core::Request as WireRequest;
use vstd::prelude::*;
use vstd::slice::slice_subrange;

verus! {

/// A decoded request: one of the six operations this server serves, or another
/// request of the protocol, kept by its function code.
#[derive(Debug, Clone, Copy, PartialEq, Eq, Structural)]
pub enum Request {
    ReadCoils(u16, u16),
    ReadDiscreteInputs(u16, u16),
    ReadHoldingRegisters(u16, u16),
    ReadInputRegisters(u16, u16),
    WriteSingleCoil(u16, bool),
    WriteSingleRegister(u16, u16),
    Unsupported(u8),
}

impl Request {
    /// The function code of the request.
    pub open spec fn spec_function_code(self) -> u8 {
        match self {
            Request::ReadCoils(_, _) => 0x01,
            Request::ReadDiscreteInputs(_, _) => 0x02,
            Request::ReadHoldingRegisters(_, _) => 0x03,
            Request::ReadInputRegisters(_, _) => 0x04,
            Request::WriteSingleCoil(_, _) => 0x05,
            Request::WriteSingleRegister(_, _) => 0x06,
            Request::Unsupported(code) => code,
        }
    }

    /// Function codes of the protocol are below 0x80; the high bit marks
    /// exceptions.
    pub open spec fn wf(self) -> bool {
        self.spec_function_code() < 0x80
    }

    /// The function code of the request.
    pub fn function_code(&self) -> (r: u8)
        ensures
            r == self.spec_function_code(),
    {
        match self {
            Request::ReadCoils(_, _) => 0x01,
            Request::ReadDiscreteInputs(_, _) => 0x02,
            Request::ReadHoldingRegisters(_, _) => 0x03,
            Request::ReadInputRegisters(_, _) => 0x04,
            Request::WriteSingleCoil(_, _) => 0x05,
            Request::WriteSingleRegister(_, _) => 0x06,
            Request::Unsupported(code) => *code,
        }
    }
}

/// The request that modbus-core reads from a protocol data unit, `None` where it
/// rejects the bytes.
pub open spec fn parse_pdu(pdu: Seq<u8>) -> Option<Request> {
    if pdu.len() == 0 {
        None
    } else {
        let code = pdu[0];
        if 0x01 <= code <= 0x06 {
            if pdu.len() < 5 {
                None
            } else {
                let address = be16(pdu[1], pdu[2]);
                let value = be16(pdu[3], pdu[4]);
                if code == 0x01 {
                    Some(Request::ReadCoils(address, value))
                } else if code == 0x02 {
                    Some(Request::ReadDiscreteInputs(address, value))
                } else if code == 0x03 {
                    Some(Request::ReadHoldingRegisters(address, value))
                } else if code == 0x04 {
                    Some(Request::ReadInputRegisters(address, value))
                } else if code == 0x06 {
                    Some(Request::WriteSingleRegister(address, value))
                } else if value == 0xFF00 {
                    Some(Request::WriteSingleCoil(address, true))
                } else if value == 0x0000 {
                    Some(Request::WriteSingleCoil(address, false))
                } else {
                    None
                }
            }
        } else if code == 0x0F || code == 0x10 {
            if pdu.len() >= 6 && pdu.len() >= 6 + pdu[5] {
                Some(Request::Unsupported(code))
            } else {
                None
            }
        } else if code == 0x17 {
            if pdu.len() >= 10 && pdu.len() >= 10 + pdu[9] {
                Some(Request::Unsupported(code))
            } else {
                None
            }
        } else if code < 0x80 {
            Some(Request::Unsupported(code))
        } else {
            None
        }
    }
}

/// A request of modbus-core as one of this server's requests; `code` is the
/// function code it was read from.
pub open spec fn as_request(req: WireRequest, code: u8) -> Request {
    match req {
        WireRequest::ReadCoils(a, q) => Request::ReadCoils(a, q),
        WireRequest::ReadDiscreteInputs(a, q) => Request::ReadDiscreteInputs(a, q),
        WireRequest::ReadHoldingRegisters(a, q) => Request::ReadHoldingRegisters(a, q),
        WireRequest::ReadInputRegisters(a, q) => Request::ReadInputRegisters(a, q),
        WireRequest::WriteSingleCoil(a, v) => Request::WriteSingleCoil(a, v),
        WireRequest::WriteSingleRegister(a, v) => Request::WriteSingleRegister(a, v),
        _ => Request::Unsupported(code),
    }
}

/// Relies on modbus-core's `TryFrom<&[u8]>` for `Request`: it reads the function
/// code, then the fields that code has, and rejects bytes that do not hold them.
pub assume_specification<'r>[ <WireRequest<'r> as core::convert::TryFrom<&'r [u8]>>::try_from ](bytes: &'r [u8]) -> (r:
    Result<WireRequest<'r>, CodecError>)
    ensures
        r is Err <==> parse_pdu(bytes@) is None,
        r matches Ok(req) ==> parse_pdu(bytes@) == Some(as_request(req, bytes@[0])),
;

fn convert(req: WireRequest, code: u8) -> (r: Request)
    ensures
        r == as_request(req, code),
{
    match req {
        WireRequest::ReadCoils(a, q) => Request::ReadCoils(a, q),
        WireRequest::ReadDiscreteInputs(a, q) => Request::ReadDiscreteInputs(a, q),
        WireRequest::ReadHoldingRegisters(a, q) => Request::ReadHoldingRegisters(a, q),
        WireRequest::ReadInputRegisters(a, q) => Request::ReadInputRegisters(a, q),
        WireRequest::WriteSingleCoil(a, v) => Request::WriteSingleCoil(a, v),
        WireRequest::WriteSingleRegister(a, v) => Request::WriteSingleRegister(a, v),
        _ => Request::Unsupported(code),
    }
}

/// Reads a request from a protocol data unit.
pub fn parse_request(pdu: &[u8]) -> (r: Option<Request>)
    ensures
        r == parse_pdu(pdu@),
        r matches Some(req) ==> req.wf(),
{
    match WireRequest::try_from(pdu) {
        Ok(req) => Some(convert(req, pdu[0])),
        Err(_) => None,
    }
}

/// The frame in `rx` that is addressed to `unit` and holds a request, with that
/// request. The frame is the one the codec finds: its checksum holds, and for
/// the six served function codes it is 8 bytes long.
pub open spec fn request_in(unit: u8, rx: Seq<u8>) -> Option<(Seq<u8>, Request)> {
    match decoded_span(rx) {
        Some((s, n)) => {
            let frame = rx.subrange(s, s + n);
            if 0 <= s && 4 <= n && s + n <= rx.len() && crc_ok(frame) && (1 <= frame[1] <= 6
                ==> n == 8) && frame[0] == unit {
                match parse_pdu(frame.subrange(1, n - 2)) {
                    Some(req) => Some((frame, req)),
                    None => None,
                }
            } else {
                None
            }
        },
        None => None,
    }
}

/// Finds the request addressed to `unit` in `rx`, as the start and size of its
/// frame and the request.
pub fn locate_request(unit: u8, rx: &[u8]) -> (r: Option<(usize, usize, Request)>)
    ensures
        r is None ==> request_in(unit, rx@) is None,
        r matches Some((s, n, req)) ==> {
            &&& request_in(unit, rx@) == Some((rx@.subrange(s as int, s + n), req))
            &&& 4 <= n && s + n <= rx@.len()
            &&& req.wf()
        },
{
    match decode_frame(rx) {
        Ok(Some((start, size))) => {
            proof {
                let frame = rx@.subrange(start as int, start + size);
                assert(frame.take(frame.len() - 2) =~= rx@.subrange(start as int, start + size - 2));
            }
            if rx[start] != unit {
                return None;
            }
            let pdu = slice_subrange(rx, start + 1, start + size - 2);
            proof {
                let frame = rx@.subrange(start as int, start + size);
                assert(frame.subrange(1, size - 2) =~= pdu@);
            }
            match parse_request(pdu) {
                Some(req) => Some((start, size, req)),
                None => None,
            }
        },
        _ => None,
    }
}

} // verus!
