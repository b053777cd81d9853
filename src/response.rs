//! What the server answers to a request, given what the handler reported, and
//! how that answer is put into the output buffer.
use crate::codec::{
    be_bytes, be_words, encode_reply, exception_code, packed_bits, reply_encodable, reply_pdu,
    rtu_adu, Reply,
};
use crate::error::{exception_for, map_exception, Error};
use crate::request::Request;
use modbus_core::{Coils, Data};
use vstd::prelude::*;
use vstd::slice::slice_subrange;

verus! {

/// Most coils (and discrete inputs) one request may read.
pub const MAX_COILS: usize = 2000;

/// Most registers one request may read.
pub const MAX_REGISTERS: usize = 125;

/// Bytes the codec gets to pack a payload into: enough for either maximum.
pub const PAYLOAD_CAPACITY: usize = 250;

/// The handler operation that serving a request calls, with its address and
/// count (or, for a single write, the value handed over in a one-element
/// buffer); or the failure that stands for the handler where none is called.
#[derive(Debug, Clone, Copy, PartialEq, Eq, Structural)]
pub enum HandlerCall {
    ReadCoils(usize, usize),
    ReadDiscreteInputs(usize, usize),
    ReadHoldingRegisters(usize, usize),
    ReadInputRegisters(usize, usize),
    WriteCoil(usize, bool),
    WriteRegister(usize, u16),
    Refused(Error),
}

/// The handler call for `req`: the matching operation with the decoded address
/// and count, where a read asks for no more items than one request may; a
/// failure otherwise.
pub open spec fn call_for(req: Request) -> HandlerCall {
    match req {
        Request::ReadCoils(a, n) => if n <= MAX_COILS {
            HandlerCall::ReadCoils(a as usize, n as usize)
        } else {
            HandlerCall::Refused(Error::InvalidValue)
        },
        Request::ReadDiscreteInputs(a, n) => if n <= MAX_COILS {
            HandlerCall::ReadDiscreteInputs(a as usize, n as usize)
        } else {
            HandlerCall::Refused(Error::InvalidValue)
        },
        Request::ReadHoldingRegisters(a, n) => if n <= MAX_REGISTERS {
            HandlerCall::ReadHoldingRegisters(a as usize, n as usize)
        } else {
            HandlerCall::Refused(Error::InvalidValue)
        },
        Request::ReadInputRegisters(a, n) => if n <= MAX_REGISTERS {
            HandlerCall::ReadInputRegisters(a as usize, n as usize)
        } else {
            HandlerCall::Refused(Error::InvalidValue)
        },
        Request::WriteSingleCoil(a, v) => HandlerCall::WriteCoil(a as usize, v),
        Request::WriteSingleRegister(a, v) => HandlerCall::WriteRegister(a as usize, v),
        Request::Unsupported(_) => HandlerCall::Refused(Error::NotSupported),
    }
}

/// The handler call for `req`.
pub fn handler_call(req: Request) -> (r: HandlerCall)
    ensures
        r == call_for(req),
{
    match req {
        Request::ReadCoils(a, n) => if n as usize <= MAX_COILS {
            HandlerCall::ReadCoils(a as usize, n as usize)
        } else {
            HandlerCall::Refused(Error::InvalidValue)
        },
        Request::ReadDiscreteInputs(a, n) => if n as usize <= MAX_COILS {
            HandlerCall::ReadDiscreteInputs(a as usize, n as usize)
        } else {
            HandlerCall::Refused(Error::InvalidValue)
        },
        Request::ReadHoldingRegisters(a, n) => if n as usize <= MAX_REGISTERS {
            HandlerCall::ReadHoldingRegisters(a as usize, n as usize)
        } else {
            HandlerCall::Refused(Error::InvalidValue)
        },
        Request::ReadInputRegisters(a, n) => if n as usize <= MAX_REGISTERS {
            HandlerCall::ReadInputRegisters(a as usize, n as usize)
        } else {
            HandlerCall::Refused(Error::InvalidValue)
        },
        Request::WriteSingleCoil(a, v) => HandlerCall::WriteCoil(a as usize, v),
        Request::WriteSingleRegister(a, v) => HandlerCall::WriteRegister(a as usize, v),
        Request::Unsupported(_) => HandlerCall::Refused(Error::NotSupported),
    }
}

/// Whether serving `req` calls the handler: every served operation does, unless
/// a read asks for more items than one request may.
pub open spec fn invokes_handler(req: Request) -> bool {
    !(call_for(req) is Refused)
}

/// The outcome of a coil or input read with function code `code` of `n` items,
/// where the handler reported `res` and filled `bits`.
pub open spec fn read_bits_outcome(code: u8, n: u16, res: Result<usize, Error>, bits: Seq<bool>) -> Result<
    Option<Seq<u8>>,
    Error,
> {
    if n > MAX_COILS {
        Err(Error::InvalidValue)
    } else {
        match res {
            Err(e) => Err(e),
            Ok(_) => if n == 0 {
                Err(Error::BufferTooSmall)
            } else {
                let payload = packed_bits(bits.take(n as int));
                Ok(Some(seq![code, payload.len() as u8] + payload))
            },
        }
    }
}

/// The outcome of a register read with function code `code` of `n` items,
/// where the handler reported `res` and filled `words`.
pub open spec fn read_words_outcome(code: u8, n: u16, res: Result<usize, Error>, words: Seq<u16>) -> Result<
    Option<Seq<u8>>,
    Error,
> {
    if n > MAX_REGISTERS {
        Err(Error::InvalidValue)
    } else {
        match res {
            Err(e) => Err(e),
            Ok(_) => if n == 0 {
                Err(Error::BufferTooSmall)
            } else {
                let payload = be_words(words.take(n as int));
                Ok(Some(seq![code, payload.len() as u8] + payload))
            },
        }
    }
}

/// The outcome of serving `req` where the handler reported `res` (and, for a
/// read, filled `bits` or `words`): `Ok(Some(pdu))` for a response, `Ok(None)`
/// where the request frame itself is the response, `Err` for a failure.
pub open spec fn outcome(req: Request, res: Result<usize, Error>, bits: Seq<bool>, words: Seq<u16>) -> Result<
    Option<Seq<u8>>,
    Error,
> {
    match req {
        Request::ReadCoils(_, n) => read_bits_outcome(0x01, n, res, bits),
        Request::ReadDiscreteInputs(_, n) => read_bits_outcome(0x02, n, res, bits),
        Request::ReadHoldingRegisters(_, n) => read_words_outcome(0x03, n, res, words),
        Request::ReadInputRegisters(_, n) => read_words_outcome(0x04, n, res, words),
        Request::WriteSingleCoil(_, _) => match res {
            Ok(k) => if k == 1 {
                Ok(None)
            } else {
                Err(Error::Application)
            },
            Err(e) => Err(e),
        },
        Request::WriteSingleRegister(a, v) => match res {
            Ok(_) => Ok(Some(seq![0x06u8] + be_bytes(a) + be_bytes(v))),
            Err(e) => Err(e),
        },
        Request::Unsupported(_) => Err(Error::NotSupported),
    }
}

/// The exception for a failure of a request with function code `code`.
pub open spec fn exception_pdu(code: u8, err: Error) -> Seq<u8> {
    seq![(code + 0x80) as u8, exception_code(exception_for(err))]
}

/// The frame the server sends for `req`, read from `frame`, where the handler
/// reported `res` and filled `bits` or `words`.
pub open spec fn reply_frame(
    unit: u8,
    frame: Seq<u8>,
    req: Request,
    res: Result<usize, Error>,
    bits: Seq<bool>,
    words: Seq<u16>,
) -> Seq<u8> {
    match outcome(req, res, bits, words) {
        Ok(None) => frame,
        Ok(Some(pdu)) => rtu_adu(unit, pdu),
        Err(e) => rtu_adu(unit, exception_pdu(req.spec_function_code(), e)),
    }
}

/// `reply` went out through the output buffer, which was `before` and is
/// `after`: written at its start where it fits, refused as too small where it
/// does not. `r` is what the server returned.
pub open spec fn sent(r: Result<usize, Error>, before: Seq<u8>, after: Seq<u8>, reply: Seq<u8>) -> bool {
    &&& after.len() == before.len()
    &&& if reply.len() <= before.len() {
        &&& r == Ok::<usize, Error>(reply.len() as usize)
        &&& after.take(reply.len() as int) == reply
        &&& after.skip(reply.len() as int) == before.skip(reply.len() as int)
    } else {
        r == Err::<usize, Error>(Error::BufferTooSmall)
    }
}

/// The server answered `req`, read from `frame`, as it does for some report of
/// the handler: `r` and the output buffer, `before` and `after`, are those of
/// `reply_frame` for that report.
pub open spec fn answered(
    unit: u8,
    frame: Seq<u8>,
    req: Request,
    r: Result<usize, Error>,
    before: Seq<u8>,
    after: Seq<u8>,
) -> bool {
    exists|res: Result<usize, Error>, bits: Seq<bool>, words: Seq<u16>|
        sent(r, before, after, #[trigger] reply_frame(unit, frame, req, res, bits, words))
}

fn send(unit: u8, reply: Reply, tx: &mut [u8]) -> (r: Result<usize, Error>)
    requires
        reply_encodable(reply),
    ensures
        sent(r, old(tx)@, final(tx)@, rtu_adu(unit, reply_pdu(reply))),
{
    if tx.len() < 3 {
        return Err(Error::BufferTooSmall);
    }
    match encode_reply(unit, reply, tx) {
        Ok(k) => Ok(k),
        Err(_) => Err(Error::BufferTooSmall),
    }
}

fn send_exception(unit: u8, code: u8, err: Error, tx: &mut [u8]) -> (r: Result<usize, Error>)
    requires
        code < 0x80,
    ensures
        sent(r, old(tx)@, final(tx)@, rtu_adu(unit, exception_pdu(code, err))),
{
    let exception = map_exception(err);
    send(unit, Reply::Exception(code, exception), tx)
}

fn echo(frame: &[u8], tx: &mut [u8]) -> (r: Result<usize, Error>)
    ensures
        sent(r, old(tx)@, final(tx)@, frame@),
{
    let n = frame.len();
    if tx.len() < n {
        return Err(Error::BufferTooSmall);
    }
    let mut i: usize = 0;
    while i < n
        invariant
            n == frame@.len(),
            n <= tx@.len(),
            tx@.len() == old(tx)@.len(),
            i <= n,
            forall|j: int| 0 <= j < i ==> tx@[j] == frame@[j],
            forall|j: int| n <= j < tx@.len() ==> tx@[j] == old(tx)@[j],
        decreases n - i,
    {
        tx[i] = frame[i];
        i = i + 1;
    }
    assert(tx@.take(n as int) =~= frame@);
    assert(tx@.skip(n as int) =~= old(tx)@.skip(n as int));
    Ok(n)
}

fn send_bits(unit: u8, code: u8, n: u16, res: Result<usize, Error>, bits: &[bool], tx: &mut [u8]) -> (r:
    Result<usize, Error>)
    requires
        code == 0x01 || code == 0x02,
        bits@.len() == MAX_COILS,
    ensures
        sent(r, old(tx)@, final(tx)@, match read_bits_outcome(code, n, res, bits@) {
            Ok(Some(pdu)) => rtu_adu(unit, pdu),
            Ok(None) => Seq::empty(),
            Err(e) => rtu_adu(unit, exception_pdu(code, e)),
        }),
{
    if n as usize > MAX_COILS {
        return send_exception(unit, code, Error::InvalidValue, tx);
    }
    match res {
        Err(e) => send_exception(unit, code, e, tx),
        Ok(_) => {
            let wanted = slice_subrange(bits, 0, n as usize);
            let mut scratch = [0u8; PAYLOAD_CAPACITY];
            match Coils::from_bools(wanted, &mut scratch) {
                Ok(coils) => {
                    assert(wanted@ =~= bits@.take(n as int));
                    let reply = if code == 0x01 {
                        Reply::ReadCoils(coils)
                    } else {
                        Reply::ReadDiscreteInputs(coils)
                    };
                    send(unit, reply, tx)
                },
                Err(_) => send_exception(unit, code, Error::BufferTooSmall, tx),
            }
        },
    }
}

fn send_words(unit: u8, code: u8, n: u16, res: Result<usize, Error>, words: &[u16], tx: &mut [u8]) -> (r:
    Result<usize, Error>)
    requires
        code == 0x03 || code == 0x04,
        words@.len() == MAX_REGISTERS,
    ensures
        sent(r, old(tx)@, final(tx)@, match read_words_outcome(code, n, res, words@) {
            Ok(Some(pdu)) => rtu_adu(unit, pdu),
            Ok(None) => Seq::empty(),
            Err(e) => rtu_adu(unit, exception_pdu(code, e)),
        }),
{
    if n as usize > MAX_REGISTERS {
        return send_exception(unit, code, Error::InvalidValue, tx);
    }
    match res {
        Err(e) => send_exception(unit, code, e, tx),
        Ok(_) => {
            let wanted = slice_subrange(words, 0, n as usize);
            let mut scratch = [0u8; PAYLOAD_CAPACITY];
            match Data::from_words(wanted, &mut scratch) {
                Ok(data) => {
                    assert(wanted@ =~= words@.take(n as int));
                    let reply = if code == 0x03 {
                        Reply::ReadHoldingRegisters(data)
                    } else {
                        Reply::ReadInputRegisters(data)
                    };
                    send(unit, reply, tx)
                },
                Err(_) => send_exception(unit, code, Error::BufferTooSmall, tx),
            }
        },
    }
}

/// Answers `req`, read from `frame`, where the handler reported `res` and, for a
/// read, filled `bits` or `words`: writes the response or exception frame to
/// `tx` and returns its length, or fails where `tx` is too small for it.
pub fn respond(
    unit: u8,
    frame: &[u8],
    req: Request,
    res: Result<usize, Error>,
    bits: &[bool],
    words: &[u16],
    tx: &mut [u8],
) -> (r: Result<usize, Error>)
    requires
        req.wf(),
        bits@.len() == MAX_COILS,
        words@.len() == MAX_REGISTERS,
    ensures
        sent(r, old(tx)@, final(tx)@, reply_frame(unit, frame@, req, res, bits@, words@)),
{
    match req {
        Request::ReadCoils(_, n) => send_bits(unit, 0x01, n, res, bits, tx),
        Request::ReadDiscreteInputs(_, n) => send_bits(unit, 0x02, n, res, bits, tx),
        Request::ReadHoldingRegisters(_, n) => send_words(unit, 0x03, n, res, words, tx),
        Request::ReadInputRegisters(_, n) => send_words(unit, 0x04, n, res, words, tx),
        Request::WriteSingleCoil(_, _) => match res {
            Ok(k) => if k == 1 {
                echo(frame, tx)
            } else {
                send_exception(unit, 0x05, Error::Application, tx)
            },
            Err(e) => send_exception(unit, 0x05, e, tx),
        },
        Request::WriteSingleRegister(a, v) => match res {
            Ok(_) => {
                let r = send(unit, Reply::WriteSingleRegister(a, v), tx);
                assert(seq![0x06u8] + be_bytes(a) + be_bytes(v) =~= reply_pdu(
                    Reply::WriteSingleRegister(a, v),
                ));
                r
            },
            Err(e) => send_exception(unit, 0x06, e, tx),
        },
        Request::Unsupported(code) => send_exception(unit, code, Error::NotSupported, tx),
    }
}

} // verus!
