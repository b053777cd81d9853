//! The RTU codec of modbus-core as the dispatcher sees it: the outside types it
//! carries, the calls it makes, and what those calls do to bytes.
use modbus_core::rtu::{Header, ResponseAdu};
use modbus_core::Error as CodecError;
use modbus_core::Request as WireRequest;
use modbus_core::{
    Coils, Data, DecoderType, Exception, ExceptionResponse, FunctionCode, Response, ResponsePdu,
};
use vstd::prelude::*;

verus! {

#[verifier::external_type_specification]
#[verifier::external_body]
pub struct ExCoils<'c>(modbus_core::Coils<'c>);

#[verifier::external_type_specification]
#[verifier::external_body]
pub struct ExData<'d>(modbus_core::Data<'d>);

#[verifier::external_type_specification]
#[verifier::external_body]
pub struct ExFunctionCode(modbus_core::FunctionCode);

#[verifier::external_type_specification]
#[verifier::external_body]
pub struct ExCodecError(CodecError);

#[verifier::external_type_specification]
pub struct ExException(modbus_core::Exception);

#[verifier::external_type_specification]
pub struct ExWireRequest<'r>(WireRequest<'r>);

/// The checksum that `modbus_core::rtu::crc16` computes over a byte string.
pub uninterp spec fn crc16_of(data: Seq<u8>) -> u16;

/// Where `modbus_core::rtu::decode` finds the first request frame of a buffer,
/// as (start, size); `None` where it finds none or gives up.
pub uninterp spec fn decoded_span(buf: Seq<u8>) -> Option<(int, int)>;

/// The packed coil bytes that a `Coils` payload puts on the wire.
pub uninterp spec fn coils_payload(c: Coils) -> Seq<u8>;

/// The register bytes (two per register, big-endian) that a `Data` payload puts
/// on the wire.
pub uninterp spec fn data_payload(d: Data) -> Seq<u8>;

/// A 16-bit value from its high and low byte.
pub open spec fn be16(hi: u8, lo: u8) -> u16 {
    (hi as int * 256 + lo as int) as u16
}

/// A 16-bit value as two bytes, high byte first.
pub open spec fn be_bytes(v: u16) -> Seq<u8> {
    seq![(v / 256) as u8, (v % 256) as u8]
}

/// The last two bytes of `frame` are the checksum of the bytes before them, high
/// byte first, which is how modbus-core reads and writes it.
pub open spec fn crc_ok(frame: Seq<u8>) -> bool {
    &&& frame.len() >= 2
    &&& crc16_of(frame.take(frame.len() - 2)) == be16(
        frame[frame.len() - 2],
        frame[frame.len() - 1],
    )
}

/// An RTU frame: unit identifier, protocol data unit, checksum.
pub open spec fn rtu_adu(unit: u8, pdu: Seq<u8>) -> Seq<u8> {
    let body = seq![unit] + pdu;
    body + be_bytes(crc16_of(body))
}

/// Number of bytes that `n` coils take when packed eight to a byte.
pub open spec fn packed_len(n: int) -> int {
    (n + 7) / 8
}

/// 1 where coil `k` is on, 0 where it is off or missing.
pub open spec fn coil_bit(bits: Seq<bool>, k: int) -> int {
    if 0 <= k < bits.len() && bits[k] {
        1
    } else {
        0
    }
}

/// Byte `i` of the packed coils: coil `8 * i + j` is bit `j`.
pub open spec fn packed_byte(bits: Seq<bool>, i: int) -> u8 {
    (coil_bit(bits, 8 * i) + 2 * coil_bit(bits, 8 * i + 1) + 4 * coil_bit(bits, 8 * i + 2) + 8
        * coil_bit(bits, 8 * i + 3) + 16 * coil_bit(bits, 8 * i + 4) + 32 * coil_bit(bits, 8 * i + 5)
        + 64 * coil_bit(bits, 8 * i + 6) + 128 * coil_bit(bits, 8 * i + 7)) as u8
}

/// Coils packed eight to a byte, the first coil in the lowest bit.
pub open spec fn packed_bits(bits: Seq<bool>) -> Seq<u8> {
    Seq::new(packed_len(bits.len() as int) as nat, |i: int| packed_byte(bits, i))
}

/// Registers as bytes, two per register, high byte first.
pub open spec fn be_words(words: Seq<u16>) -> Seq<u8> {
    Seq::new(
        2 * words.len(),
        |i: int|
            if i % 2 == 0 {
                (words[i / 2] / 256) as u8
            } else {
                (words[i / 2] % 256) as u8
            },
    )
}

/// The code that an exception has on the wire.
pub open spec fn exception_code(e: Exception) -> u8 {
    match e {
        Exception::IllegalFunction => 0x01,
        Exception::IllegalDataAddress => 0x02,
        Exception::IllegalDataValue => 0x03,
        Exception::ServerDeviceFailure => 0x04,
        Exception::Acknowledge => 0x05,
        Exception::ServerDeviceBusy => 0x06,
        Exception::MemoryParityError => 0x08,
        Exception::GatewayPathUnavailable => 0x0A,
        Exception::GatewayTargetDevice => 0x0B,
    }
}

/// Relies on `modbus_core::Coils::from_bools`: it fails on no coils or a target
/// too short for them, and otherwise ORs the coils into the target, packed.
pub assume_specification<'c>[ Coils::<'c>::from_bools ](bools: &[bool], target: &'c mut [u8]) -> (r:
    Result<Coils<'c>, CodecError>)
    ensures
        r is Ok <==> bools@.len() > 0 && packed_len(bools@.len() as int) <= old(target)@.len(),
        r matches Ok(c) ==> coils_payload(c).len() == packed_len(bools@.len() as int),
        r matches Ok(c) ==> (forall|i: int| 0 <= i < old(target)@.len() ==> old(target)@[i] == 0)
            ==> coils_payload(c) == packed_bits(bools@),
;

/// Relies on `modbus_core::Data::from_words`: it fails on no registers or a
/// target too short for them, and otherwise writes them big-endian.
pub assume_specification<'d>[ Data::<'d>::from_words ](words: &[u16], target: &'d mut [u8]) -> (r:
    Result<Data<'d>, CodecError>)
    ensures
        r is Ok <==> words@.len() > 0 && 2 * words@.len() <= old(target)@.len(),
        r matches Ok(d) ==> data_payload(d) == be_words(words@),
;

/// A response that the codec encodes: a payload for a read, the echo of a
/// register write, or an exception for a function code.
pub enum Reply<'a> {
    ReadCoils(Coils<'a>),
    ReadDiscreteInputs(Coils<'a>),
    ReadHoldingRegisters(Data<'a>),
    ReadInputRegisters(Data<'a>),
    WriteSingleRegister(u16, u16),
    Exception(u8, Exception),
}

/// The protocol data unit that the codec writes for a reply.
pub open spec fn reply_pdu(reply: Reply) -> Seq<u8> {
    match reply {
        Reply::ReadCoils(c) => seq![0x01u8, coils_payload(c).len() as u8] + coils_payload(c),
        Reply::ReadDiscreteInputs(c) => seq![0x02u8, coils_payload(c).len() as u8] + coils_payload(
            c,
        ),
        Reply::ReadHoldingRegisters(d) => seq![0x03u8, data_payload(d).len() as u8] + data_payload(
            d,
        ),
        Reply::ReadInputRegisters(d) => seq![0x04u8, data_payload(d).len() as u8] + data_payload(d),
        Reply::WriteSingleRegister(a, v) => seq![0x06u8] + be_bytes(a) + be_bytes(v),
        Reply::Exception(f, e) => seq![(f + 0x80) as u8, exception_code(e)],
    }
}

/// The byte count of a payload fits its one byte, and an exception's function
/// code leaves room for the high bit.
pub open spec fn reply_encodable(reply: Reply) -> bool {
    match reply {
        Reply::ReadCoils(c) => coils_payload(c).len() <= 255,
        Reply::ReadDiscreteInputs(c) => coils_payload(c).len() <= 255,
        Reply::ReadHoldingRegisters(d) => data_payload(d).len() <= 255,
        Reply::ReadInputRegisters(d) => data_payload(d).len() <= 255,
        Reply::WriteSingleRegister(_, _) => true,
        Reply::Exception(f, _) => f < 0x80,
    }
}

/// Relies on `modbus_core::rtu::decode` for requests: it scans the buffer for a
/// frame whose checksum holds and reports where that frame lies.
#[verifier::external_body]
pub(crate) fn decode_frame(buf: &[u8]) -> (r: Result<Option<(usize, usize)>, CodecError>)
    ensures
        r matches Ok(Some((s, n))) ==> decoded_span(buf@) == Some((s as int, n as int)),
        !(r matches Ok(Some(_))) ==> decoded_span(buf@) is None,
        r matches Ok(Some((s, n))) ==> 4 <= n && s + n <= buf@.len(),
        r matches Ok(Some((s, n))) ==> crc16_of(buf@.subrange(s as int, s + n - 2)) == be16(
            buf@[s + n - 2],
            buf@[s + n - 1],
        ),
        r matches Ok(Some((s, n))) ==> 1 <= buf@[s + 1] <= 6 ==> n == 8,
{
    match modbus_core::rtu::decode(DecoderType::Request, buf) {
        Ok(Some((_, location))) => Ok(Some((location.start, location.size))),
        Ok(None) => Ok(None),
        Err(e) => Err(e),
    }
}

/// Relies on `modbus_core::rtu::server::encode_response`: it writes unit,
/// protocol data unit and checksum at the start of `tx`, or fails where `tx` is
/// too short. On a buffer of two bytes it would panic for an exception.
#[verifier::external_body]
pub(crate) fn encode_reply(unit: u8, reply: Reply, tx: &mut [u8]) -> (r: Result<usize, CodecError>)
    requires
        old(tx)@.len() >= 3,
        reply_encodable(reply),
    ensures
        final(tx)@.len() == old(tx)@.len(),
        r is Ok <==> rtu_adu(unit, reply_pdu(reply)).len() <= old(tx)@.len(),
        r matches Ok(k) ==> k == rtu_adu(unit, reply_pdu(reply)).len(),
        r matches Ok(k) ==> final(tx)@.take(k as int) == rtu_adu(unit, reply_pdu(reply)),
        r matches Ok(k) ==> final(tx)@.skip(k as int) == old(tx)@.skip(k as int),
{
    let pdu = match reply {
        Reply::ReadCoils(c) => Ok(Response::ReadCoils(c)),
        Reply::ReadDiscreteInputs(c) => Ok(Response::ReadDiscreteInputs(c)),
        Reply::ReadHoldingRegisters(d) => Ok(Response::ReadHoldingRegisters(d)),
        Reply::ReadInputRegisters(d) => Ok(Response::ReadInputRegisters(d)),
        Reply::WriteSingleRegister(a, v) => Ok(Response::WriteSingleRegister(a, v)),
        Reply::Exception(f, e) => Err(ExceptionResponse { function: FunctionCode::new(f), exception: e }),
    };
    let adu = ResponseAdu { hdr: Header { slave: unit }, pdu: ResponsePdu(pdu) };
    modbus_core::rtu::server::encode_response(adu, tx)
}

} // verus!
