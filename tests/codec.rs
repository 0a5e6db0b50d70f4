use nvme::bitfield::BitField;
use nvme::codes::{NVME_STATUS_GENERIC_COMMAND_CODES, NVME_STATUS_MEDIA_ERROR_CODES};
use nvme::command::{CommandDword0Field, NVME_COMMAND};
use nvme::feature::{decode_feature, get_features_cdw10, set_features_dwords, FeatureError, FeatureValue};
use nvme::identify::{decode_namespace_list, NVME_IDENTIFY_CONTROLLER_DATA, NVME_IDENTIFY_NAMESPACE_DATA};
use nvme::specific::{CommandSpecific, SpecificDwords};
use nvme::status::{StatusMeaning, NVME_COMMAND_STATUS};

#[test]
fn bitfield_set_then_get_returns_value() {
    let f = BitField { offset: 8, width: 3 };
    let w = f.set(0xffff_ffff, 5);
    assert_eq!(f.get(w), 5);
    assert_eq!(w, 0xffff_fdff);
    let g = BitField { offset: 0, width: 32 };
    assert_eq!(g.set(7, 0x1234_5678), 0x1234_5678);
}

#[test]
fn status_zero_is_success() {
    let s = NVME_COMMAND_STATUS::from_bits(0x0000);
    assert!(s.is_success());
    assert_eq!(s.SCT(), 0);
    assert_eq!(s.SC(), 0);
    assert_eq!(s.meaning(), StatusMeaning::Success);
}

#[test]
fn status_media_error_unrecovered_read() {
    // phase 0, SC 0x81 at bits 1..9, SCT 2 at bits 9..12
    let s = NVME_COMMAND_STATUS::from_bits((0x81 << 1) | (2 << 9));
    assert!(!s.is_success());
    assert_eq!(s.SCT(), 2);
    assert_eq!(s.SC(), 0x81);
    assert_eq!(
        s.meaning(),
        StatusMeaning::MediaError(NVME_STATUS_MEDIA_ERROR_CODES::NVME_STATUS_NVM_UNRECOVERED_READ_ERROR)
    );
}

#[test]
fn status_fields_and_other_tables() {
    let s = NVME_COMMAND_STATUS::from_bits(0x8001 | (0x02 << 1) | (1 << 14));
    assert_eq!(s.P(), 1);
    assert_eq!(s.M(), 1);
    assert_eq!(s.DNR(), 1);
    assert_eq!(
        s.meaning(),
        StatusMeaning::Generic(NVME_STATUS_GENERIC_COMMAND_CODES::NVME_STATUS_INVALID_FIELD_IN_COMMAND)
    );
    let vendor = NVME_COMMAND_STATUS::from_bits((0x10 << 1) | (7 << 9));
    assert_eq!(vendor.meaning(), StatusMeaning::VendorSpecific(0x10));
    let unknown = NVME_COMMAND_STATUS::from_bits((0x20 << 1) | (2 << 9));
    assert_eq!(unknown.meaning(), StatusMeaning::Unknown { code_type: 2, code: 0x20 });
    let reserved_type = NVME_COMMAND_STATUS::from_bits((0x01 << 1) | (4 << 9));
    assert_eq!(reserved_type.meaning(), StatusMeaning::Unknown { code_type: 4, code: 1 });
}

#[test]
fn command_bytes_are_little_endian_dwords() {
    let mut c = NVME_COMMAND::default();
    c.opcode(0x06);
    c.nsid(0x0102_0304);
    c.identify(0x02);
    c.cdw15(0xaabb_ccdd);
    let b = c.to_bytes();
    assert_eq!(b.len(), 64);
    assert_eq!(&b[0..4], &[0x06, 0, 0, 0]);
    assert_eq!(&b[4..8], &[0x04, 0x03, 0x02, 0x01]);
    assert_eq!(&b[40..44], &[0x02, 0, 0, 0]);
    assert_eq!(&b[60..64], &[0xdd, 0xcc, 0xbb, 0xaa]);
    assert_eq!(c.get_opcode(), 0x06);
}

#[test]
fn opcode_keeps_command_identifier() {
    let mut c = NVME_COMMAND::default();
    c.cdw0 = CommandDword0Field::CID.layout().set(0, 0xbeef);
    c.opcode(0xf1);
    assert_eq!(c.cdw0, 0xbeef_00f1);
}

#[test]
fn get_features_dword10() {
    assert_eq!(get_features_cdw10(0x06, 3), Ok(0x0306));
    assert_eq!(get_features_cdw10(0x100, 0), Err(FeatureError::FidOutOfRange));
    assert_eq!(get_features_cdw10(0x06, 8), Err(FeatureError::SelectOutOfRange));
}

#[test]
fn set_features_reencodes_write_cache() {
    assert_eq!(set_features_dwords(0x06, 1), Ok((0x06, 1)));
    assert_eq!(set_features_dwords(0x06, 0), Ok((0x06, 0)));
    assert_eq!(set_features_dwords(0x06, 2), Err(FeatureError::NotABoolean));
    assert_eq!(set_features_dwords(0x07, 0x0003_0004), Ok((0x07, 0x0003_0004)));
    assert_eq!(set_features_dwords(0x1ff, 0), Err(FeatureError::FidOutOfRange));
}

#[test]
fn decode_feature_layouts() {
    assert_eq!(
        decode_feature(0x01, 0x0403_0205),
        FeatureValue::Arbitration { ab: 5, lpw: 2, mpw: 3, hpw: 4 }
    );
    assert_eq!(decode_feature(0x07, 0x001f_003f), FeatureValue::NumberOfQueues { nsq: 0x3f, ncq: 0x1f });
    assert_eq!(decode_feature(0x06, 0xffff_fffe), FeatureValue::VolatileWriteCache { wce: 0 });
    assert_eq!(
        decode_feature(0x04, 0x0025_0157),
        FeatureValue::TemperatureThreshold { tmpth: 0x0157, tmpsel: 5, thsel: 2 }
    );
    assert_eq!(decode_feature(0x99, 7), FeatureValue::Other { fid: 0x99, value: 7 });
}

fn words(ws: &[u32], total: usize) -> Vec<u8> {
    let mut b = vec![0u8; total];
    for (i, w) in ws.iter().enumerate() {
        b[4 * i..4 * i + 4].copy_from_slice(&w.to_le_bytes());
    }
    b
}

#[test]
fn namespace_list_stops_at_first_zero() {
    let b = words(&[1, 2, 0x0102_0304, 0, 5, 6], 4096);
    assert_eq!(decode_namespace_list(&b), vec![1, 2, 0x0102_0304]);
}

#[test]
fn namespace_list_edges() {
    assert_eq!(decode_namespace_list(&vec![0u8; 4096]), Vec::<u32>::new());
    assert_eq!(decode_namespace_list(&[]), Vec::<u32>::new());
    let full: Vec<u32> = (1..=1024).collect();
    assert_eq!(decode_namespace_list(&words(&full, 4096)), full);
    // a trailing partial word is not read
    assert_eq!(decode_namespace_list(&[9, 0, 0, 0, 7, 7]), vec![9]);
}

#[test]
fn identify_controller_fields() {
    let mut b = vec![0u8; 4096];
    b[0] = 0x44;
    b[1] = 0x14;
    b[4..8].copy_from_slice(b"SN01");
    b[80..84].copy_from_slice(&0x0001_0400u32.to_le_bytes());
    b[516..520].copy_from_slice(&32u32.to_le_bytes());
    let d = NVME_IDENTIFY_CONTROLLER_DATA::decode(&b).unwrap();
    assert_eq!(d.VID, 0x1444);
    assert_eq!(&d.SN[..4], b"SN01");
    assert_eq!(d.SN.len(), 20);
    assert_eq!(d.VER, 0x0001_0400);
    assert_eq!(d.NN, 32);
    assert!(NVME_IDENTIFY_CONTROLLER_DATA::decode(&b[..4095]).is_none());
}

#[test]
fn identify_namespace_fields() {
    let mut b = vec![0u8; 4096];
    b[0..8].copy_from_slice(&0x1_0000_0000u64.to_le_bytes());
    b[8..16].copy_from_slice(&0x8000u64.to_le_bytes());
    b[128..132].copy_from_slice(&0x0009_0000u32.to_le_bytes());
    let d = NVME_IDENTIFY_NAMESPACE_DATA::decode(&b).unwrap();
    assert_eq!(d.NSZE, 0x1_0000_0000);
    assert_eq!(d.NCAP, 0x8000);
    assert_eq!(d.LBAF.len(), 16);
    assert_eq!(d.LBAF[0], 0x0009_0000);
}

#[test]
fn identify_defaults_are_zero() {
    let c = NVME_IDENTIFY_CONTROLLER_DATA::default();
    assert_eq!(c.VID, 0);
    assert_eq!(c.SUBNQN, vec![0u8; 256]);
    let n = NVME_IDENTIFY_NAMESPACE_DATA::default();
    assert_eq!(n.NSZE, 0);
    assert_eq!(n.LBAF, vec![0u32; 16]);
}

#[test]
fn command_specific_encodings() {
    let d = CommandSpecific::Identify { cns: 1, cntid: 0x1234, cns_id: 5, csi: 2 }.encode().unwrap();
    assert_eq!((d.cdw10, d.cdw11), (0x1234_0001, 0x0200_0005));
    assert_eq!(CommandSpecific::GetFeatures { fid: 6, sel: 8, cdw11: 0 }.encode(), None);
    assert_eq!(CommandSpecific::GetFeatures { fid: 6, sel: 2, cdw11: 9 }.encode().unwrap().cdw10, 0x0206);
    let s = CommandSpecific::SetFeatures { fid: 6, save: true, cdw11: 1, cdw12: 0, cdw13: 0, cdw14: 0, cdw15: 0 };
    assert_eq!(s.encode().unwrap().cdw10, 0x8000_0006);
    let l = CommandSpecific::GetLogPage {
        lid: 2,
        lsp: 0,
        rae: true,
        numd: 0x0001_0003,
        lsi: 7,
        offset: 0x1_0000_0200,
        uuid_index: 1,
        csi: 0,
    };
    assert_eq!(
        l.encode(),
        Some(SpecificDwords { cdw10: 0x0003_8002, cdw11: 0x0007_0001, cdw12: 0x200, cdw13: 1, cdw14: 1, cdw15: 0 })
    );
    let rw = CommandSpecific::ReadWrite {
        slba: 0x1_0000_0010,
        nlb: 7,
        fua: true,
        limited_retry: false,
        dtype: 0,
        prinfo: 0,
        dsm: 0x12,
        dspec: 0x3456,
        elbat: 1,
        elbatm: 2,
    };
    assert_eq!(
        rw.encode(),
        Some(SpecificDwords { cdw10: 0x10, cdw11: 1, cdw12: 0x4000_0007, cdw13: 0x3456_0012, cdw14: 0, cdw15: 0x0002_0001 })
    );
    let mut c = NVME_COMMAND::default();
    c.set_specific(rw.encode().unwrap());
    assert_eq!(c.cdw12, 0x4000_0007);
    let bad = CommandSpecific::ReadWrite {
        slba: 0,
        nlb: 0,
        fua: false,
        limited_retry: false,
        dtype: 0,
        prinfo: 16,
        dsm: 0,
        dspec: 0,
        elbat: 0,
        elbatm: 0,
    };
    assert_eq!(bad.encode(), None);
}
