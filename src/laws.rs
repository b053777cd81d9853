//! Properties of the server that relate its parts or hold for all inputs.
use crate::codec::{
    be16, be_bytes, be_words, crc16_of, crc_ok, exception_code, packed_bits, packed_len, rtu_adu,
};
use crate::error::{exception_for, Error};
use crate::request::{request_in, Request};
use crate::response::{
    exception_pdu, invokes_handler, outcome, reply_frame, MAX_COILS, MAX_REGISTERS,
};
use vstd::prelude::*;

verus! {

/// Payload bytes of the response to a read: coils packed eight to a byte, or
/// two bytes per register.
pub open spec fn read_payload_len(req: Request) -> int {
    match req {
        Request::ReadCoils(_, n) => packed_len(n as int),
        Request::ReadDiscreteInputs(_, n) => packed_len(n as int),
        Request::ReadHoldingRegisters(_, n) => 2 * n,
        Request::ReadInputRegisters(_, n) => 2 * n,
        _ => 0,
    }
}

/// A read of at most as many items as one request may ask for, served by the
/// handler, is answered with a frame of 5 bytes (unit, function code, byte count
/// and two checksum bytes) plus the payload.
pub proof fn lemma_read_reply_length(
    unit: u8,
    frame: Seq<u8>,
    req: Request,
    k: usize,
    bits: Seq<bool>,
    words: Seq<u16>,
)
    requires
        bits.len() == MAX_COILS,
        words.len() == MAX_REGISTERS,
        match req {
            Request::ReadCoils(_, n) => n <= MAX_COILS,
            Request::ReadDiscreteInputs(_, n) => n <= MAX_COILS,
            Request::ReadHoldingRegisters(_, n) => n <= MAX_REGISTERS,
            Request::ReadInputRegisters(_, n) => n <= MAX_REGISTERS,
            _ => false,
        },
    ensures
        reply_frame(unit, frame, req, Ok(k), bits, words).len() == 5 + read_payload_len(req),
{
}

/// Where the handler fails, the answer is a 5-byte exception frame: unit, the
/// request's function code with the high bit set, the exception code of the
/// failure, and the checksum of those three bytes.
pub proof fn lemma_failure_reply(
    unit: u8,
    frame: Seq<u8>,
    req: Request,
    e: Error,
    bits: Seq<bool>,
    words: Seq<u16>,
)
    requires
        req.wf(),
        invokes_handler(req),
    ensures
        ({
            let f = reply_frame(unit, frame, req, Err(e), bits, words);
            &&& f.len() == 5
            &&& f[0] == unit
            &&& f[1] == req.spec_function_code() + 0x80
            &&& f[2] == exception_code(exception_for(e))
            &&& f.skip(3) == be_bytes(crc16_of(f.take(3)))
        }),
{
    let f = reply_frame(unit, frame, req, Err(e), bits, words);
    let body = seq![unit] + exception_pdu(req.spec_function_code(), e);
    assert(f == body + be_bytes(crc16_of(body)));
    assert(f.take(3) =~= body);
    assert(f.skip(3) =~= be_bytes(crc16_of(body)));
}

/// There is a frame in `rx` from `s` on, `n` bytes long, whose checksum holds.
pub open spec fn checksum_span(rx: Seq<u8>, s: int, n: int) -> bool {
    0 <= s && 4 <= n && s + n <= rx.len() && crc_ok(rx.subrange(s, s + n))
}

/// A buffer in which no frame has a valid checksum holds no request: the server
/// returns 0, writes nothing and leaves the handler alone.
pub proof fn lemma_bad_checksum_ignored(unit: u8, rx: Seq<u8>)
    requires
        forall|s: int, n: int| !#[trigger] checksum_span(rx, s, n),
    ensures
        request_in(unit, rx) is None,
{
    if let Some((s, n)) = crate::codec::decoded_span(rx) {
        assert(!checksum_span(rx, s, n));
    }
}

/// A frame the server builds passes the checksum check of the decoder and gives
/// back the unit identifier and the protocol data unit, so the function code and
/// payload.
pub proof fn lemma_frame_round_trip(unit: u8, pdu: Seq<u8>)
    ensures
        crc_ok(rtu_adu(unit, pdu)),
        rtu_adu(unit, pdu)[0] == unit,
        rtu_adu(unit, pdu).subrange(1, rtu_adu(unit, pdu).len() - 2) == pdu,
{
    let f = rtu_adu(unit, pdu);
    let c = crc16_of(seq![unit] + pdu);
    assert(f.take(f.len() - 2) =~= seq![unit] + pdu);
    assert(f.subrange(1, f.len() - 2) =~= pdu);
    assert(be16((c / 256) as u8, (c % 256) as u8) == c);
}

/// Writing a single coil: where the handler reports the one coil written, the
/// answer is the 8-byte request frame itself, whatever else the handler did, so
/// serving the same frame twice sends the same bytes twice.
pub proof fn lemma_single_coil_echo(
    unit: u8,
    rx: Seq<u8>,
    bits1: Seq<bool>,
    words1: Seq<u16>,
    bits2: Seq<bool>,
    words2: Seq<u16>,
)
    requires
        request_in(unit, rx) matches Some((_, req)) && req is WriteSingleCoil,
    ensures
        request_in(unit, rx) matches Some((frame, req)) && {
            &&& frame.len() == 8
            &&& reply_frame(unit, frame, req, Ok(1), bits1, words1) == frame
            &&& reply_frame(unit, frame, req, Ok(1), bits2, words2) == frame
        },
{
}

/// A 16-bit value read from two bytes is written back as the same two bytes.
pub proof fn lemma_be_bytes_of_be16(hi: u8, lo: u8)
    ensures
        be_bytes(be16(hi, lo)) == seq![hi, lo],
{
    let v = be16(hi, lo);
    assert(v == hi as int * 256 + lo as int);
    assert(v / 256 == hi as int);
    assert(v % 256 == lo as int);
    assert(be_bytes(v) =~= seq![hi, lo]);
}

/// Whether the handler report `Ok(k)` counts as success for `req`: a read of at
/// least one item and at most as many as one request may, a single coil write
/// of one coil, any single register write.
pub open spec fn served_ok(req: Request, k: usize) -> bool {
    match req {
        Request::ReadCoils(_, n) => 1 <= n <= MAX_COILS,
        Request::ReadDiscreteInputs(_, n) => 1 <= n <= MAX_COILS,
        Request::ReadHoldingRegisters(_, n) => 1 <= n <= MAX_REGISTERS,
        Request::ReadInputRegisters(_, n) => 1 <= n <= MAX_REGISTERS,
        Request::WriteSingleCoil(_, _) => k == 1,
        Request::WriteSingleRegister(_, _) => true,
        Request::Unsupported(_) => false,
    }
}

/// What follows the function code in the response to `req`: byte count and
/// payload of a read (coils packed from the lowest bit, registers high byte
/// first), address and value of a single write.
pub open spec fn reply_data(req: Request, bits: Seq<bool>, words: Seq<u16>) -> Seq<u8> {
    match req {
        Request::ReadCoils(_, n) => {
            let p = packed_bits(bits.take(n as int));
            seq![p.len() as u8] + p
        },
        Request::ReadDiscreteInputs(_, n) => {
            let p = packed_bits(bits.take(n as int));
            seq![p.len() as u8] + p
        },
        Request::ReadHoldingRegisters(_, n) => {
            let p = be_words(words.take(n as int));
            seq![p.len() as u8] + p
        },
        Request::ReadInputRegisters(_, n) => {
            let p = be_words(words.take(n as int));
            seq![p.len() as u8] + p
        },
        Request::WriteSingleCoil(a, v) => be_bytes(a) + be_bytes(
            if v {
                0xFF00u16
            } else {
                0x0000u16
            },
        ),
        Request::WriteSingleRegister(a, v) => be_bytes(a) + be_bytes(v),
        Request::Unsupported(_) => Seq::empty(),
    }
}

/// A response to a served request passes the checksum check of the decoder and
/// gives back the unit identifier, the request's function code, and the payload
/// the handler filled in (for a read) or the address and value (for a single
/// write).
pub proof fn lemma_reply_round_trip(unit: u8, rx: Seq<u8>, k: usize, bits: Seq<bool>, words: Seq<u16>)
    requires
        request_in(unit, rx) matches Some((_, req)) && served_ok(req, k),
    ensures
        request_in(unit, rx) matches Some((frame, req)) && {
            let f = reply_frame(unit, frame, req, Ok(k), bits, words);
            &&& crc_ok(f)
            &&& f[0] == unit
            &&& f[1] == req.spec_function_code()
            &&& f.subrange(2, f.len() - 2) == reply_data(req, bits, words)
        },
{
    let (frame, req) = request_in(unit, rx)->Some_0;
    let f = reply_frame(unit, frame, req, Ok(k), bits, words);
    if req is WriteSingleCoil {
        let n = frame.len();
        let pdu = frame.subrange(1, n - 2);
        assert(pdu[0] == 0x05);
        assert(n == 8);
        lemma_be_bytes_of_be16(pdu[1], pdu[2]);
        lemma_be_bytes_of_be16(pdu[3], pdu[4]);
        assert(f == frame);
        assert(f.subrange(2, f.len() - 2) =~= seq![pdu[1], pdu[2]] + seq![pdu[3], pdu[4]]);
    } else {
        let pdu = seq![req.spec_function_code()] + reply_data(req, bits, words);
        assert(outcome(req, Ok(k), bits, words) == Ok::<Option<Seq<u8>>, Error>(Some(pdu))) by {
            assert(pdu =~= outcome(req, Ok(k), bits, words)->Ok_0->Some_0);
        }
        lemma_frame_round_trip(unit, pdu);
        assert(f == rtu_adu(unit, pdu));
        assert(f.subrange(2, f.len() - 2) =~= f.subrange(1, f.len() - 2).skip(1));
        assert(pdu.skip(1) =~= reply_data(req, bits, words));
    }
}

} // verus!
