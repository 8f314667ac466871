use solix_monitor::modbus::{ModbusError, ModbusSession, ReadRequest};

fn request(count: u16) -> ReadRequest {
    ReadRequest { transaction_id: 7, unit_id: 1, function: 0x04, address: 10000, count }
}

#[test]
fn session_starts_at_transaction_zero() {
    let s = ModbusSession::new(9);
    assert_eq!(s.transaction_id, 0);
    assert_eq!(s.unit_id, 9);
}

#[test]
fn input_read_uses_function_four() {
    let mut s = ModbusSession::new(1);
    let req = s.read_input(10000, 51).unwrap();
    assert_eq!(req, ReadRequest { transaction_id: 1, unit_id: 1, function: 0x04, address: 10000, count: 51 });
    assert_eq!(s.transaction_id, 1);
}

#[test]
fn holding_read_uses_function_three() {
    let mut s = ModbusSession::new(1);
    let req = s.read_holding(10060, 13).unwrap();
    assert_eq!(req.function, 0x03);
    assert_eq!(req.transaction_id, 1);
}

#[test]
fn invalid_count_is_refused_without_taking_an_id() {
    let mut s = ModbusSession::new(1);
    assert_eq!(s.read_input(0, 0), Err(ModbusError::InvalidCount));
    assert_eq!(s.read_input(0, 126), Err(ModbusError::InvalidCount));
    assert_eq!(s.transaction_id, 0);
    assert!(s.read_input(0, 125).is_ok());
    assert!(s.read_input(0, 1).is_ok());
    assert_eq!(s.transaction_id, 2);
}

#[test]
fn transaction_id_wraps() {
    let mut s = ModbusSession { transaction_id: 0xFFFF, unit_id: 3 };
    let req = s.read_input(1, 1).unwrap();
    assert_eq!(req.transaction_id, 0);
    assert_eq!(s.transaction_id, 0);
}

#[test]
fn request_is_encoded_big_endian() {
    let req = ReadRequest { transaction_id: 0x0102, unit_id: 1, function: 0x04, address: 10000, count: 51 };
    assert_eq!(req.encode(), vec![0x01, 0x02, 0x00, 0x00, 0x00, 0x06, 0x01, 0x04, 0x27, 0x10, 0x00, 0x33]);
}

#[test]
fn header_gives_payload_length() {
    let req = request(2);
    assert_eq!(req.check_header(&[0, 7, 0, 0, 0, 7, 1]), Ok(6));
    assert_eq!(req.check_header(&[0, 7, 0, 0, 0, 2, 1]), Ok(1));
    assert_eq!(req.check_header(&[0, 7, 0, 0, 0, 254, 1]), Ok(253));
}

#[test]
fn header_of_other_transaction_is_refused() {
    let req = request(2);
    assert_eq!(req.check_header(&[0, 8, 0, 0, 0, 7, 1]), Err(ModbusError::InvalidHeader));
    assert_eq!(req.check_header(&[0, 7, 0, 1, 0, 7, 1]), Err(ModbusError::InvalidHeader));
    assert_eq!(req.check_header(&[0, 7, 0, 0, 0, 7, 2]), Err(ModbusError::InvalidHeader));
}

#[test]
fn header_length_out_of_range_is_refused() {
    let req = request(2);
    assert_eq!(req.check_header(&[0, 7, 0, 0, 0, 1, 1]), Err(ModbusError::InvalidLength));
    assert_eq!(req.check_header(&[0, 7, 0, 0, 0, 255, 1]), Err(ModbusError::InvalidLength));
    assert_eq!(req.check_header(&[0, 7, 0, 0, 1, 0, 1]), Err(ModbusError::InvalidLength));
}

#[test]
fn payload_decodes_registers() {
    let req = request(2);
    assert_eq!(req.decode_payload(&[0x04, 4, 0x12, 0x34, 0xAB, 0xCD]), Ok(vec![0x1234, 0xABCD]));
    // bytes beyond the announced count are ignored
    assert_eq!(req.decode_payload(&[0x04, 4, 0x12, 0x34, 0xAB, 0xCD, 0xEE]), Ok(vec![0x1234, 0xABCD]));
}

#[test]
fn exception_reply_is_reported() {
    let req = request(2);
    assert_eq!(req.decode_payload(&[0x84, 0x02]), Err(ModbusError::Exception { code: 2, address: 10000 }));
    assert_eq!(req.decode_payload(&[0x84]), Err(ModbusError::Exception { code: 0, address: 10000 }));
}

#[test]
fn reply_for_other_function_is_refused() {
    let req = request(2);
    assert_eq!(req.decode_payload(&[0x03, 4, 0, 0, 0, 0]), Err(ModbusError::UnexpectedFunction));
    assert_eq!(req.decode_payload(&[0x04]), Err(ModbusError::UnexpectedFunction));
}

#[test]
fn wrong_byte_count_is_refused() {
    let req = request(2);
    assert_eq!(
        req.decode_payload(&[0x04, 2, 0, 0]),
        Err(ModbusError::WrongDataLength { expected: 4, received: 2 })
    );
    assert_eq!(
        req.decode_payload(&[0x04, 4, 0, 0, 0]),
        Err(ModbusError::WrongDataLength { expected: 4, received: 4 })
    );
}

#[test]
fn full_exchange_round_trips() {
    let mut s = ModbusSession::new(1);
    let req = s.read_input(10000, 3).unwrap();
    let values = [0x0000u16, 0x012C, 0xFFFF];
    let mut header = vec![0, 1, 0, 0, 0, 9, 1];
    header[0] = (req.transaction_id >> 8) as u8;
    header[1] = req.transaction_id as u8;
    let n = req.check_header(&header).unwrap();
    assert_eq!(n, 8);
    let mut payload = vec![0x04, 6];
    for v in values {
        payload.extend_from_slice(&v.to_be_bytes());
    }
    assert_eq!(payload.len(), n);
    assert_eq!(req.decode_payload(&payload), Ok(values.to_vec()));
}
