use modbus_core::rtu::client::decode_response;
use modbus_core::rtu::crc16;
use modbus_core::Response;
use modbus_core::Exception;
use modbus_rtu_server::{
    handler_call, map_exception, CoilHandler, Error, HandlerCall, ModbusHandler, ModbusRtuServer, Request,
    SingleCoil,
};

/// A frame with its checksum appended, high byte of `crc16` first.
fn framed(body: &[u8]) -> Vec<u8> {
    let mut v = body.to_vec();
    let crc = crc16(body);
    v.push((crc >> 8) as u8);
    v.push((crc & 0xff) as u8);
    v
}

struct MyCoil;

impl CoilHandler for MyCoil {
    fn on_write(&mut self, value: bool) {
        if value {
            // set pin high
        } else {
            // set pin low
        }
    }

    fn on_read(&mut self, _value: bool) {}
}

#[test]
fn it_works() {
    let mut server = ModbusRtuServer::new(1, SingleCoil::new(MyCoil));

    let frame: [u8; 8] = [
        0x01, // Slave address
        0x01, // Function code: Read Coils
        0x00, 0x00, // Starting address: 0
        0x00, 0x01, // Quantity of coils: 1
        0xFD, 0xCA, // CRC16 (low byte first)
    ];
    let mut tx_buf = [0u8; 32];

    match server.process_frame(&frame, &mut tx_buf) {
        Ok(len) => {
            let response = &tx_buf[..len];
            assert_eq!(len, 6);
            assert_eq!(response, &[0x01, 0x01, 0x01, 0x00, 0x51, 0x88]);
        }
        Err(e) => panic!("unexpected error {:?}", e),
    }
}

/// Records every call and answers from fixed data.
#[derive(Default)]
struct Recorder {
    coils: Vec<bool>,
    registers: Vec<u16>,
    fail_with: Option<Error>,
    coil_writes_reported: Option<usize>,
    calls: Vec<(&'static str, usize, usize, Vec<u16>)>,
}

impl ModbusHandler for Recorder {
    fn read_coils(&mut self, addr: usize, len: usize, out: &mut [bool]) -> Result<usize, Error> {
        self.calls.push(("read_coils", addr, len, vec![]));
        if let Some(e) = self.fail_with {
            return Err(e);
        }
        for i in 0..len {
            out[i] = self.coils[addr + i];
        }
        Ok(len)
    }

    fn read_discrete_input(&mut self, addr: usize, len: usize, out: &mut [bool]) -> Result<usize, Error> {
        self.calls.push(("read_discrete_input", addr, len, vec![]));
        if let Some(e) = self.fail_with {
            return Err(e);
        }
        for i in 0..len {
            out[i] = self.coils[addr + i];
        }
        Ok(len)
    }

    fn read_holding_registers(&mut self, addr: usize, len: usize, out: &mut [u16]) -> Result<usize, Error> {
        self.calls.push(("read_holding_registers", addr, len, vec![]));
        if let Some(e) = self.fail_with {
            return Err(e);
        }
        for i in 0..len {
            out[i] = self.registers[addr + i];
        }
        Ok(len)
    }

    fn read_input_registers(&mut self, addr: usize, len: usize, out: &mut [u16]) -> Result<usize, Error> {
        self.calls.push(("read_input_registers", addr, len, vec![]));
        if let Some(e) = self.fail_with {
            return Err(e);
        }
        for i in 0..len {
            out[i] = self.registers[addr + i];
        }
        Ok(len)
    }

    fn write_coils(&mut self, addr: usize, len: usize, buf: &[bool]) -> Result<usize, Error> {
        self.calls.push(("write_coils", addr, len, buf[..len].iter().map(|b| *b as u16).collect()));
        if let Some(e) = self.fail_with {
            return Err(e);
        }
        Ok(self.coil_writes_reported.unwrap_or(len))
    }

    fn write_registers(&mut self, addr: usize, len: usize, buf: &[u16]) -> Result<usize, Error> {
        self.calls.push(("write_registers", addr, len, buf[..len].to_vec()));
        if let Some(e) = self.fail_with {
            return Err(e);
        }
        Ok(len)
    }
}

fn recorder() -> Recorder {
    Recorder {
        coils: (0..64).map(|i| i % 3 == 0).collect(),
        registers: (0..64).map(|i| 0x1000 + i as u16).collect(),
        ..Default::default()
    }
}

/// A handler that implements nothing: every operation is not supported.
struct Nothing;

impl ModbusHandler for Nothing {}

#[test]
fn read_coils_scenario() {
    let mut handler = recorder();
    handler.coils[0] = false;
    let mut server = ModbusRtuServer::new(1, handler);
    let rx = [0x01, 0x01, 0x00, 0x00, 0x00, 0x01, 0xFD, 0xCA];
    let mut tx = [0u8; 32];
    let len = server.process_frame(&rx, &mut tx).unwrap();
    assert_eq!(&tx[..len], &[0x01, 0x01, 0x01, 0x00, 0x51, 0x88]);
    assert_eq!(server.handler().calls, vec![("read_coils", 0, 1, vec![])]);
}

#[test]
fn exception_scenario() {
    let mut handler = recorder();
    handler.fail_with = Some(Error::InvalidAddress);
    let mut server = ModbusRtuServer::new(1, handler);
    let rx = [0x01, 0x01, 0x00, 0x00, 0x00, 0x01, 0xFD, 0xCA];
    let mut tx = [0u8; 32];
    let len = server.process_frame(&rx, &mut tx).unwrap();
    assert_eq!(len, 5);
    assert_eq!(&tx[..3], &[0x01, 0x81, 0x02]);
    assert_eq!(&tx[..5], framed(&[0x01, 0x81, 0x02]).as_slice());
}

#[test]
fn write_single_register_scenario() {
    let mut server = ModbusRtuServer::new(1, recorder());
    let rx = framed(&[0x01, 0x06, 0x00, 0x08, 0x12, 0x34]);
    let mut tx = [0u8; 32];
    let len = server.process_frame(&rx, &mut tx).unwrap();
    assert_eq!(server.handler().calls, vec![("write_registers", 8, 1, vec![0x1234])]);
    assert_eq!(&tx[..len], framed(&[0x01, 0x06, 0x00, 0x08, 0x12, 0x34]).as_slice());
}

#[test]
fn write_single_register_reply_ignores_reported_count() {
    struct Zero;
    impl ModbusHandler for Zero {
        fn write_registers(&mut self, _addr: usize, _len: usize, _buf: &[u16]) -> Result<usize, Error> {
            Ok(0)
        }
    }
    let mut server = ModbusRtuServer::new(1, Zero);
    let rx = framed(&[0x01, 0x06, 0x00, 0x08, 0x12, 0x34]);
    let mut tx = [0u8; 32];
    let len = server.process_frame(&rx, &mut tx).unwrap();
    assert_eq!(&tx[..len], framed(&[0x01, 0x06, 0x00, 0x08, 0x12, 0x34]).as_slice());
}

#[test]
fn single_coil_write_twice_echoes_twice() {
    let mut server = ModbusRtuServer::new(1, recorder());
    let rx = framed(&[0x01, 0x05, 0x00, 0x03, 0xFF, 0x00]);
    let mut tx1 = [0u8; 16];
    let mut tx2 = [0u8; 16];
    let len1 = server.process_frame(&rx, &mut tx1).unwrap();
    let len2 = server.process_frame(&rx, &mut tx2).unwrap();
    assert_eq!(len1, 8);
    assert_eq!(len2, 8);
    assert_eq!(&tx1[..8], rx.as_slice());
    assert_eq!(tx1, tx2);
    let calls = &server.handler().calls;
    assert_eq!(calls.len(), 2);
    assert_eq!(calls[0], ("write_coils", 3, 1, vec![1]));
    assert_eq!(calls[0], calls[1]);
}

#[test]
fn single_coil_write_of_wrong_count_is_exception() {
    let mut handler = recorder();
    handler.coil_writes_reported = Some(0);
    let mut server = ModbusRtuServer::new(1, handler);
    let rx = framed(&[0x01, 0x05, 0x00, 0x03, 0x00, 0x00]);
    let mut tx = [0u8; 16];
    let len = server.process_frame(&rx, &mut tx).unwrap();
    assert_eq!(&tx[..len], framed(&[0x01, 0x85, 0x04]).as_slice());
    assert_eq!(server.handler().calls, vec![("write_coils", 3, 1, vec![0])]);
}

#[test]
fn bad_checksum_is_ignored() {
    let mut server = ModbusRtuServer::new(1, recorder());
    let rx = [0x01, 0x01, 0x00, 0x00, 0x00, 0x01, 0xFD, 0xCB];
    let mut tx = [0xAAu8; 16];
    assert_eq!(server.process_frame(&rx, &mut tx), Ok(0));
    assert_eq!(tx, [0xAAu8; 16]);
    assert!(server.handler().calls.is_empty());
}

#[test]
fn empty_input_is_ignored() {
    let mut server = ModbusRtuServer::new(1, recorder());
    let mut tx = [0u8; 16];
    assert_eq!(server.process_frame(&[], &mut tx), Ok(0));
    assert!(server.handler().calls.is_empty());
}

#[test]
fn other_unit_is_ignored() {
    let mut server = ModbusRtuServer::new(2, recorder());
    let rx = [0x01, 0x01, 0x00, 0x00, 0x00, 0x01, 0xFD, 0xCA];
    let mut tx = [0u8; 16];
    assert_eq!(server.process_frame(&rx, &mut tx), Ok(0));
    assert!(server.handler().calls.is_empty());
    assert_eq!(server.unit_id(), 2);
}

#[test]
fn frame_after_leading_noise_is_served() {
    let mut server = ModbusRtuServer::new(1, recorder());
    let mut rx = vec![0x00];
    rx.extend_from_slice(&framed(&[0x01, 0x05, 0x00, 0x07, 0x00, 0x00]));
    let mut tx = [0u8; 16];
    let len = server.process_frame(&rx, &mut tx).unwrap();
    assert_eq!(len, 8);
    assert_eq!(&tx[..8], &rx[1..]);
}

#[test]
fn read_reply_lengths() {
    let mut server = ModbusRtuServer::new(1, recorder());
    let mut tx = [0u8; 300];
    // 10 coils: 2 payload bytes
    let len = server.process_frame(&framed(&[0x01, 0x01, 0x00, 0x00, 0x00, 0x0A]), &mut tx).unwrap();
    assert_eq!(len, 5 + 2);
    // 3 registers: 6 payload bytes
    let len = server.process_frame(&framed(&[0x01, 0x03, 0x00, 0x00, 0x00, 0x03]), &mut tx).unwrap();
    assert_eq!(len, 5 + 6);
}

#[test]
fn read_coils_packs_bits() {
    // coils i % 3 == 0: 0, 3, 6, 9 on
    let mut server = ModbusRtuServer::new(1, recorder());
    let mut tx = [0u8; 32];
    let len = server.process_frame(&framed(&[0x01, 0x01, 0x00, 0x00, 0x00, 0x0A]), &mut tx).unwrap();
    assert_eq!(&tx[..len], framed(&[0x01, 0x01, 0x02, 0b0100_1001, 0b0000_0010]).as_slice());
}

#[test]
fn read_discrete_inputs_packs_bits() {
    let mut server = ModbusRtuServer::new(1, recorder());
    let mut tx = [0u8; 32];
    let len = server.process_frame(&framed(&[0x01, 0x02, 0x00, 0x01, 0x00, 0x03]), &mut tx).unwrap();
    // inputs 1, 2, 3: off, off, on
    assert_eq!(&tx[..len], framed(&[0x01, 0x02, 0x01, 0b0000_0100]).as_slice());
    assert_eq!(server.handler().calls, vec![("read_discrete_input", 1, 3, vec![])]);
}

#[test]
fn read_holding_registers_big_endian() {
    let mut server = ModbusRtuServer::new(1, recorder());
    let mut tx = [0u8; 32];
    let len = server.process_frame(&framed(&[0x01, 0x03, 0x00, 0x02, 0x00, 0x02]), &mut tx).unwrap();
    assert_eq!(&tx[..len], framed(&[0x01, 0x03, 0x04, 0x10, 0x02, 0x10, 0x03]).as_slice());
}

#[test]
fn read_input_registers_big_endian() {
    let mut server = ModbusRtuServer::new(1, recorder());
    let mut tx = [0u8; 32];
    let len = server.process_frame(&framed(&[0x01, 0x04, 0x00, 0x05, 0x00, 0x01]), &mut tx).unwrap();
    assert_eq!(&tx[..len], framed(&[0x01, 0x04, 0x02, 0x10, 0x05]).as_slice());
    assert_eq!(server.handler().calls, vec![("read_input_registers", 5, 1, vec![])]);
}

#[test]
fn handler_failures_are_five_byte_exceptions() {
    let cases = [
        (Error::InvalidAddress, 0x02),
        (Error::InvalidValue, 0x03),
        (Error::NotSupported, 0x01),
        (Error::Application, 0x04),
        (Error::BufferTooSmall, 0x04),
    ];
    for (err, code) in cases {
        for body in [
            [0x01u8, 0x01, 0x00, 0x00, 0x00, 0x01],
            [0x01, 0x02, 0x00, 0x00, 0x00, 0x01],
            [0x01, 0x03, 0x00, 0x00, 0x00, 0x01],
            [0x01, 0x04, 0x00, 0x00, 0x00, 0x01],
            [0x01, 0x05, 0x00, 0x00, 0xFF, 0x00],
            [0x01, 0x06, 0x00, 0x00, 0x00, 0x01],
        ] {
            let mut handler = recorder();
            handler.fail_with = Some(err);
            let mut server = ModbusRtuServer::new(1, handler);
            let mut tx = [0u8; 32];
            let len = server.process_frame(&framed(&body), &mut tx).unwrap();
            assert_eq!(len, 5);
            assert_eq!(&tx[..5], framed(&[0x01, body[1] | 0x80, code]).as_slice());
        }
    }
}

#[test]
fn unimplemented_operations_are_illegal_function() {
    let mut server = ModbusRtuServer::new(1, Nothing);
    let mut tx = [0u8; 32];
    let len = server.process_frame(&framed(&[0x01, 0x03, 0x00, 0x00, 0x00, 0x01]), &mut tx).unwrap();
    assert_eq!(&tx[..len], framed(&[0x01, 0x83, 0x01]).as_slice());
}

#[test]
fn unsupported_function_is_illegal_function() {
    let mut server = ModbusRtuServer::new(1, recorder());
    let mut tx = [0u8; 32];
    // read exception status
    let len = server.process_frame(&framed(&[0x01, 0x07]), &mut tx).unwrap();
    assert_eq!(&tx[..len], framed(&[0x01, 0x87, 0x01]).as_slice());
    // report server id
    let len = server.process_frame(&framed(&[0x01, 0x11]), &mut tx).unwrap();
    assert_eq!(&tx[..len], framed(&[0x01, 0x91, 0x01]).as_slice());
    assert!(server.handler().calls.is_empty());
}

#[test]
fn too_many_coils_is_illegal_value() {
    let mut server = ModbusRtuServer::new(1, recorder());
    let mut tx = [0u8; 32];
    // 2001 coils
    let len = server.process_frame(&framed(&[0x01, 0x01, 0x00, 0x00, 0x07, 0xD1]), &mut tx).unwrap();
    assert_eq!(&tx[..len], framed(&[0x01, 0x81, 0x03]).as_slice());
    // 126 registers
    let len = server.process_frame(&framed(&[0x01, 0x03, 0x00, 0x00, 0x00, 0x7E]), &mut tx).unwrap();
    assert_eq!(&tx[..len], framed(&[0x01, 0x83, 0x03]).as_slice());
    assert!(server.handler().calls.is_empty());
}

#[test]
fn most_coils_and_registers_fit() {
    struct Full;
    impl ModbusHandler for Full {
        fn read_coils(&mut self, _addr: usize, len: usize, out: &mut [bool]) -> Result<usize, Error> {
            assert!(out.len() >= 2000);
            for b in out[..len].iter_mut() {
                *b = true;
            }
            Ok(len)
        }
        fn read_holding_registers(&mut self, _addr: usize, len: usize, out: &mut [u16]) -> Result<usize, Error> {
            assert!(out.len() >= 125);
            for w in out[..len].iter_mut() {
                *w = 0xABCD;
            }
            Ok(len)
        }
    }
    let mut server = ModbusRtuServer::new(1, Full);
    let mut tx = [0u8; 300];
    let len = server.process_frame(&framed(&[0x01, 0x01, 0x00, 0x00, 0x07, 0xD0]), &mut tx).unwrap();
    assert_eq!(len, 5 + 250);
    assert_eq!(tx[2], 250);
    assert!(tx[3..253].iter().all(|b| *b == 0xFF));
    let len = server.process_frame(&framed(&[0x01, 0x03, 0x00, 0x00, 0x00, 0x7D]), &mut tx).unwrap();
    assert_eq!(len, 5 + 250);
    assert_eq!(&tx[3..5], &[0xAB, 0xCD]);
}

#[test]
fn zero_count_read_is_device_failure() {
    let mut server = ModbusRtuServer::new(1, recorder());
    let mut tx = [0u8; 32];
    let len = server.process_frame(&framed(&[0x01, 0x01, 0x00, 0x00, 0x00, 0x00]), &mut tx).unwrap();
    assert_eq!(&tx[..len], framed(&[0x01, 0x81, 0x04]).as_slice());
}

#[test]
fn small_output_buffer_is_refused() {
    let mut server = ModbusRtuServer::new(1, recorder());
    let rx = [0x01, 0x01, 0x00, 0x00, 0x00, 0x01, 0xFD, 0xCA];
    let mut tx = [0u8; 5];
    assert_eq!(server.process_frame(&rx, &mut tx), Err(Error::BufferTooSmall));
    let mut tx = [0u8; 2];
    assert_eq!(server.process_frame(&rx, &mut tx), Err(Error::BufferTooSmall));
    let echo = framed(&[0x01, 0x05, 0x00, 0x03, 0xFF, 0x00]);
    let mut tx = [0u8; 7];
    assert_eq!(server.process_frame(&echo, &mut tx), Err(Error::BufferTooSmall));
    let mut tx = [0u8; 6];
    assert_eq!(server.process_frame(&rx, &mut tx), Ok(6));
}

#[test]
fn response_round_trips_through_client_decoder() {
    let mut server = ModbusRtuServer::new(7, recorder());
    let mut tx = [0u8; 32];
    let len = server.process_frame(&framed(&[0x07, 0x03, 0x00, 0x01, 0x00, 0x02]), &mut tx).unwrap();
    let adu = decode_response(&tx[..len]).unwrap().unwrap();
    assert_eq!(adu.hdr.slave, 7);
    match adu.pdu.0 {
        Ok(Response::ReadHoldingRegisters(data)) => {
            assert_eq!(data.len(), 2);
            assert_eq!(data.get(0), Some(0x1001));
            assert_eq!(data.get(1), Some(0x1002));
        }
        other => panic!("unexpected {:?}", other),
    }
    let len = server.process_frame(&framed(&[0x07, 0x06, 0x00, 0x08, 0x12, 0x34]), &mut tx).unwrap();
    let adu = decode_response(&tx[..len]).unwrap().unwrap();
    assert_eq!(adu.pdu.0, Ok(Response::WriteSingleRegister(8, 0x1234)));
}

#[test]
fn exception_round_trips_through_client_decoder() {
    let mut handler = recorder();
    handler.fail_with = Some(Error::InvalidValue);
    let mut server = ModbusRtuServer::new(1, handler);
    let mut tx = [0u8; 32];
    let len = server.process_frame(&framed(&[0x01, 0x04, 0x00, 0x00, 0x00, 0x01]), &mut tx).unwrap();
    let adu = decode_response(&tx[..len]).unwrap().unwrap();
    let ex = adu.pdu.0.unwrap_err();
    assert_eq!(ex.function.value(), 0x04);
    assert_eq!(ex.exception, Exception::IllegalDataValue);
}

#[test]
fn map_exception_table() {
    assert_eq!(map_exception(Error::InvalidAddress), Exception::IllegalDataAddress);
    assert_eq!(map_exception(Error::InvalidValue), Exception::IllegalDataValue);
    assert_eq!(map_exception(Error::NotSupported), Exception::IllegalFunction);
    assert_eq!(map_exception(Error::Application), Exception::ServerDeviceFailure);
    assert_eq!(map_exception(Error::BufferTooSmall), Exception::ServerDeviceFailure);
}

#[test]
fn malformed_request_with_valid_checksum_is_ignored() {
    let mut server = ModbusRtuServer::new(1, recorder());
    let mut tx = [0u8; 16];
    // a coil value other than 0xFF00 or 0x0000
    let rx = framed(&[0x01, 0x05, 0x00, 0x03, 0x12, 0x34]);
    assert_eq!(server.process_frame(&rx, &mut tx), Ok(0));
    assert!(server.handler().calls.is_empty());
}

#[test]
fn handler_call_for_each_request() {
    assert_eq!(handler_call(Request::ReadCoils(4, 2000)), HandlerCall::ReadCoils(4, 2000));
    assert_eq!(handler_call(Request::ReadCoils(4, 2001)), HandlerCall::Refused(Error::InvalidValue));
    assert_eq!(handler_call(Request::ReadDiscreteInputs(9, 3)), HandlerCall::ReadDiscreteInputs(9, 3));
    assert_eq!(
        handler_call(Request::ReadDiscreteInputs(9, 2001)),
        HandlerCall::Refused(Error::InvalidValue)
    );
    assert_eq!(handler_call(Request::ReadHoldingRegisters(1, 125)), HandlerCall::ReadHoldingRegisters(1, 125));
    assert_eq!(
        handler_call(Request::ReadHoldingRegisters(1, 126)),
        HandlerCall::Refused(Error::InvalidValue)
    );
    assert_eq!(handler_call(Request::ReadInputRegisters(0, 0)), HandlerCall::ReadInputRegisters(0, 0));
    assert_eq!(
        handler_call(Request::ReadInputRegisters(0, 300)),
        HandlerCall::Refused(Error::InvalidValue)
    );
    assert_eq!(handler_call(Request::WriteSingleCoil(3, true)), HandlerCall::WriteCoil(3, true));
    assert_eq!(handler_call(Request::WriteSingleRegister(8, 0x1234)), HandlerCall::WriteRegister(8, 0x1234));
    assert_eq!(handler_call(Request::Unsupported(0x07)), HandlerCall::Refused(Error::NotSupported));
}

#[test]
fn default_operations_are_not_supported() {
    let mut h = Nothing;
    let mut bits = [true; 8];
    let mut words = [7u16; 8];
    assert_eq!(h.read_coils(0, 1, &mut bits), Err(Error::NotSupported));
    assert_eq!(h.read_discrete_input(0, 1, &mut bits), Err(Error::NotSupported));
    assert_eq!(bits, [true; 8]);
    assert_eq!(h.read_holding_registers(0, 1, &mut words), Err(Error::NotSupported));
    assert_eq!(h.read_input_registers(0, 1, &mut words), Err(Error::NotSupported));
    assert_eq!(words, [7u16; 8]);
    assert_eq!(h.write_coils(0, 1, &[true]), Err(Error::NotSupported));
    assert_eq!(h.write_registers(0, 1, &[1]), Err(Error::NotSupported));
}

#[test]
fn coil_replies_round_trip_through_client_decoder() {
    let mut server = ModbusRtuServer::new(1, recorder());
    let mut tx = [0u8; 32];
    let len = server.process_frame(&framed(&[0x01, 0x01, 0x00, 0x00, 0x00, 0x0A]), &mut tx).unwrap();
    let adu = decode_response(&tx[..len]).unwrap().unwrap();
    match adu.pdu.0 {
        Ok(Response::ReadCoils(coils)) => {
            for i in 0..10 {
                assert_eq!(coils.get(i), Some(i % 3 == 0));
            }
        }
        other => panic!("unexpected {:?}", other),
    }
    let len = server.process_frame(&framed(&[0x01, 0x05, 0x00, 0x03, 0xFF, 0x00]), &mut tx).unwrap();
    let adu = decode_response(&tx[..len]).unwrap().unwrap();
    assert_eq!(adu.hdr.slave, 1);
    assert_eq!(adu.pdu.0, Ok(Response::WriteSingleCoil(3)));
}
