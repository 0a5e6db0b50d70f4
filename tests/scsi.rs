use nvme::scsi::{
    sector_aligned_length, ScsiCdbFlag, ScsiDataBuffer, ScsiDirection, ScsiError, ScsiOpcode,
    ScsiRwCdb16, ScsiSecCdb12, ScsiStream,
};

#[test]
fn read16_cdb_bytes_are_big_endian() {
    let cdb = ScsiRwCdb16::new(ScsiOpcode::SCSI_OPCODE_READ_16, 0x0102_0304_0506_0708, 0x0a0b_0c0d, 0);
    assert_eq!(
        cdb.to_be_bytes(),
        vec![0x88, 0x00, 0x01, 0x02, 0x03, 0x04, 0x05, 0x06, 0x07, 0x08, 0x0a, 0x0b, 0x0c, 0x0d, 0x00, 0x00]
    );
}

#[test]
fn rw_cdb_round_trip() {
    let cdb = ScsiRwCdb16::new(ScsiOpcode::SCSI_OPCODE_WRITE_16, u64::MAX - 3, 7, ScsiCdbFlag::SCSI_FL_FUA.value());
    let bytes = cdb.to_be_bytes();
    assert_eq!(ScsiRwCdb16::from_be_bytes(&bytes), Some(cdb));
    assert_eq!(ScsiRwCdb16::from_be_bytes(&bytes[..15]), None);
    assert_eq!(ScsiRwCdb16::default().to_be_bytes(), vec![0u8; 16]);
}

#[test]
fn security_cdb_bytes_and_round_trip() {
    let cdb = ScsiSecCdb12::new(ScsiOpcode::SCSI_OPCODE_SECURITY_RECV, 0x01, 0x0001, 4096);
    let bytes = cdb.to_be_bytes();
    assert_eq!(bytes, vec![0xa2, 0x01, 0x00, 0x01, 0x00, 0x00, 0x00, 0x00, 0x10, 0x00, 0x00, 0x00]);
    assert_eq!(ScsiSecCdb12::from_be_bytes(&bytes), Some(cdb));
    assert_eq!(ScsiSecCdb12::from_be_bytes(&bytes[1..]), None);
}

#[test]
fn write_length_rounding() {
    assert_eq!(sector_aligned_length(1), Some(512));
    assert_eq!(sector_aligned_length(513), Some(1024));
    assert_eq!(sector_aligned_length(512), Some(512));
    assert_eq!(sector_aligned_length(0), Some(0));
    assert_eq!(sector_aligned_length(0xffff_fe00), Some(0xffff_fe00));
    assert_eq!(sector_aligned_length(0xffff_fe01), None);
}

#[test]
fn write_request_uses_cursor_and_minus_one_count() {
    let mut st = ScsiStream::new(Some(true));
    assert!(st.write_request(0).unwrap().is_none());
    let q = st.write_request(513).unwrap().unwrap();
    assert_eq!(q.cdb_length, 16);
    assert_eq!(q.direction, ScsiDirection::DataOut);
    assert_eq!(q.transfer_length, 513);
    assert_eq!(&q.cdb[..2], &[0x8a, 0x08]);
    assert_eq!(&q.cdb[2..10], &[0u8; 8]);
    // 1024 bytes = 2 blocks, written as 1
    assert_eq!(&q.cdb[10..14], &[0, 0, 0, 1]);
    st.complete_write(1024);
    assert_eq!(st.write_offset, 1024);
    let q2 = st.write_request(1).unwrap().unwrap();
    assert_eq!(&q2.cdb[2..10], &[0, 0, 0, 0, 0, 0, 0, 2]);
    assert_eq!(&q2.cdb[10..14], &[0, 0, 0, 0]);
}

#[test]
fn write_without_fua_policy_has_no_flag() {
    let st = ScsiStream::new(None);
    let q = st.write_request(512).unwrap().unwrap();
    assert_eq!(q.cdb[1], 0);
    let st = ScsiStream::new(Some(false));
    assert_eq!(st.write_request(512).unwrap().unwrap().cdb[1], 0);
}

#[test]
fn read_request_at_offset() {
    let st = ScsiStream::new(None);
    let q = st.read_request(4096, 4096).unwrap().unwrap();
    assert_eq!(q.direction, ScsiDirection::DataIn);
    assert_eq!(q.cdb[0], 0x88);
    assert_eq!(&q.cdb[2..10], &[0, 0, 0, 0, 0, 0, 0, 8]);
    assert_eq!(&q.cdb[10..14], &[0, 0, 0, 7]);
    assert!(st.read_request(0, 0).unwrap().is_none());
    assert_eq!(st.read_request(0, 0x1_0000_0000).unwrap_err(), ScsiError::TooLong);
}

#[test]
fn security_requests() {
    let q = ScsiStream::security_recv_request(0x01, 0x0001, 4096).unwrap();
    assert_eq!(q.cdb_length, 12);
    assert_eq!(q.cdb.len(), 16);
    assert_eq!(&q.cdb[12..], &[0, 0, 0, 0]);
    assert_eq!(q.sense_length, 32);
    assert_eq!(q.timeout_secs, 10);
    let s = ScsiStream::security_send_request(0x02, 0x1234, 16).unwrap();
    assert_eq!(&s.cdb[..4], &[0xb5, 0x02, 0x12, 0x34]);
    assert_eq!(s.direction, ScsiDirection::DataOut);
    assert!(ScsiStream::security_send_request(0x02, 0, 0x1_0000_0000).is_err());
}

#[test]
fn data_buffer_index() {
    let mut b = ScsiDataBuffer::new(4);
    b.index_mut(2, 9);
    assert_eq!(b.index(2), 9);
    assert_eq!(b.as_ref(), &[0, 0, 9, 0]);
    assert_eq!(ScsiDataBuffer::from_vec(vec![1, 2]).len(), 2);
}
