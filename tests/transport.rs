use nvme::command::NVME_COMMAND;
use nvme::status::NVME_COMMAND_STATUS;
use nvme::transport::{
    build_protocol_command, getfeature_query, identify_query, logpage_query, parse_protocol_command,
    parse_protocol_data_descriptor, setfeature_set, TransportError,
};
use nvme::vsc::{
    identify_ns_list_command, namespace_list_result, vsc_admin_plan, vsc_after_param, vsc_param_command,
    NvmeVscOpcode, VS_STD_NVME_CMD_TYPE_NON_DATA, VS_STD_NVME_CMD_TYPE_READ,
};

fn word(b: &[u8], off: usize) -> u32 {
    u32::from_le_bytes([b[off], b[off + 1], b[off + 2], b[off + 3]])
}

#[test]
fn protocol_command_layout_to_device() {
    let mut c = NVME_COMMAND::default();
    c.opcode(0x09);
    let data = [1u8, 2, 3, 4, 5];
    let b = build_protocol_command(&c, 1, &data);
    assert_eq!(b.len(), 80 + 64 + 5);
    assert_eq!(word(&b, 0), 1);
    assert_eq!(word(&b, 4), 84);
    assert_eq!(word(&b, 8), 3);
    assert_eq!(word(&b, 12), 0x8000_0000);
    assert_eq!(word(&b, 24), 64);
    assert_eq!(word(&b, 32), 5);
    assert_eq!(word(&b, 36), 0);
    assert_eq!(word(&b, 40), 30);
    assert_eq!(word(&b, 44), 144);
    assert_eq!(word(&b, 48), 144);
    assert_eq!(word(&b, 52), 149);
    assert_eq!(word(&b, 56), 1);
    assert_eq!(b[80], 0x09);
    assert_eq!(&b[144..], &data);
}

#[test]
fn protocol_command_from_device_round() {
    let c = NVME_COMMAND::default();
    let mut b = build_protocol_command(&c, 2, &[0u8; 8]);
    assert_eq!(word(&b, 32), 0);
    assert_eq!(word(&b, 36), 8);
    assert_eq!(word(&b, 52), 144);
    // the device fills in status, dword 0 and the data
    b[20..24].copy_from_slice(&((0x81u32 << 1) | (2 << 9)).to_le_bytes());
    b[64..68].copy_from_slice(&0xabcdu32.to_le_bytes());
    b[144..152].copy_from_slice(&[9, 8, 7, 6, 5, 4, 3, 2]);
    let r = parse_protocol_command(&b, 2).unwrap();
    assert_eq!(r.status.SCT(), 2);
    assert_eq!(r.status.SC(), 0x81);
    assert_eq!(r.completion_dw0, 0xabcd);
    assert_eq!(r.data, vec![9, 8, 7, 6, 5, 4, 3, 2]);
    assert_eq!(parse_protocol_command(&b[..100], 2).unwrap_err(), TransportError::Truncated);
    assert_eq!(parse_protocol_command(&b[..79], 1).unwrap_err(), TransportError::Truncated);
    assert!(parse_protocol_command(&b[..100], 1).unwrap().data.is_empty());
}

#[test]
fn query_buffers() {
    let q = identify_query(1, 0);
    assert_eq!(q.len(), 48 + 4096);
    assert_eq!(word(&q, 0), 49);
    assert_eq!(word(&q, 4), 0);
    assert_eq!(word(&q, 8), 3);
    assert_eq!(word(&q, 12), 1);
    assert_eq!(word(&q, 16), 1);
    assert_eq!(word(&q, 24), 40);
    assert_eq!(word(&q, 28), 4096);
    let l = logpage_query(0x02, 0);
    assert_eq!(word(&l, 0), 50);
    assert_eq!(word(&l, 12), 2);
    let f = getfeature_query(0x06, 0);
    assert_eq!(f.len(), 48);
    assert_eq!(word(&f, 24), 0);
    let s = setfeature_set(0x06, 1);
    assert_eq!(s.len(), 8 + 64 + 4096);
    assert_eq!(word(&s, 8), 3);
    assert_eq!(word(&s, 20), 1);
    assert_eq!(word(&s, 24), 64);
}

#[test]
fn data_descriptor_checks() {
    let mut b = vec![0u8; 48 + 8];
    b[0..4].copy_from_slice(&48u32.to_le_bytes());
    b[4..8].copy_from_slice(&48u32.to_le_bytes());
    b[24..28].copy_from_slice(&40u32.to_le_bytes());
    b[28..32].copy_from_slice(&8u32.to_le_bytes());
    b[32..36].copy_from_slice(&0x1234u32.to_le_bytes());
    b[48..56].copy_from_slice(&[1, 2, 3, 4, 5, 6, 7, 8]);
    let r = parse_protocol_data_descriptor(&b).unwrap();
    assert_eq!(r.data, vec![1, 2, 3, 4, 5, 6, 7, 8]);
    assert_eq!(r.fixed_return, 0x1234);
    assert_eq!(parse_protocol_data_descriptor(&b[..55]).unwrap_err(), TransportError::Truncated);
    let mut bad = b.clone();
    bad[0] = 47;
    assert_eq!(parse_protocol_data_descriptor(&bad).unwrap_err(), TransportError::InvalidDescriptor);
    assert_eq!(parse_protocol_data_descriptor(&b[..40]).unwrap_err(), TransportError::InvalidDescriptor);
}

#[test]
fn vsc_admin_plan_directions() {
    let mut c = NVME_COMMAND::default();
    c.opcode(0x06);
    let p = vsc_admin_plan(&c, true).unwrap();
    assert_eq!(p.direction, 2);
    assert_eq!(p.sub_opcode, VS_STD_NVME_CMD_TYPE_READ);
    assert_eq!(p.param.len(), 4096);
    assert_eq!(&p.param[..64], &c.to_bytes()[..]);
    let n = vsc_admin_plan(&c, false).unwrap();
    assert_eq!(n.direction, 0);
    assert_eq!(n.sub_opcode, VS_STD_NVME_CMD_TYPE_NON_DATA);
    c.opcode(0x0f);
    assert_eq!(vsc_admin_plan(&c, true).unwrap_err(), TransportError::NotSupported);
}

#[test]
fn vsc_phases() {
    let p = vsc_param_command(0x8306_1400, 7, 4096);
    assert_eq!(p.get_opcode(), NvmeVscOpcode::Write.value());
    assert_eq!(p.nsid, 7);
    assert_eq!(p.cdw10, 1024);
    assert_eq!(p.cdw12, 0x8306_1400);
    let ok = NVME_COMMAND_STATUS::from_bits(0);
    let (dir, d) = vsc_after_param(&p, ok, 2, 0x8306_1400, 512).unwrap();
    assert_eq!(dir, 2);
    assert_eq!(d.get_opcode(), 0xf2);
    assert_eq!(d.cdw10, 128);
    assert_eq!(d.cdw14, 1);
    assert_eq!(d.nsid, 7);
    assert!(vsc_after_param(&p, ok, 0, 0, 0).is_none());
    let failed = NVME_COMMAND_STATUS::from_bits(0x02 << 1);
    assert!(vsc_after_param(&p, failed, 2, 0, 512).is_none());
    assert_eq!(NvmeVscOpcode::default(), NvmeVscOpcode::NonData);
}

#[test]
fn namespace_list_command_and_result() {
    let c = identify_ns_list_command(0, true);
    assert_eq!(c.get_opcode(), 0x06);
    assert_eq!(c.cdw10, 0x10);
    assert_eq!(identify_ns_list_command(0, false).cdw10, 0x02);
    let mut buf = vec![0u8; 4096];
    buf[0] = 1;
    buf[4] = 2;
    assert_eq!(namespace_list_result(NVME_COMMAND_STATUS::from_bits(0), &buf), Ok(vec![1, 2]));
    assert_eq!(
        namespace_list_result(NVME_COMMAND_STATUS::from_bits(0x01 << 1), &buf),
        Err(TransportError::Protocol { code_type: 0, code: 1 })
    );
}
