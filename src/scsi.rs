use vstd::prelude::*;

use crate::bytes::{
    be_bytes_u16, be_bytes_u32, be_bytes_u64, be_u16_at, be_u32_at, be_u64_at, decode_be_u16,
    decode_be_u32, decode_be_u64, copy_range, encode_be_u16, zeroed, encode_be_u32, encode_be_u64,
    lemma_be_u16_round_trip, lemma_be_u32_round_trip, lemma_be_u64_round_trip,
};

verus! {

/// Bytes in one sector of a pass-through transfer.
pub const SECTOR_SIZE: usize = 512;

/// Bytes of the sense buffer that a pass-through request carries.
pub const SENSE_BUFFER_LEN: u8 = 32;

/// Seconds a SCSI pass-through request may take.
pub const SCSI_TIMEOUT_SECS: u32 = 10;

/// SCSI operation codes.
#[allow(non_camel_case_types)]
#[derive(Clone, Copy, Debug, PartialEq, Eq, Structural)]
pub enum ScsiOpcode {
    SCSI_OPCODE_READ_10,
    SCSI_OPCODE_READ_16,
    SCSI_OPCODE_WRITE_10,
    SCSI_OPCODE_WRITE_16,
    SCSI_OPCODE_READ_CAPACITY_10,
    SCSI_OPCODE_SERVICE_ACTION_IN,
    SCSI_SERVICE_ACTION_READ_CAPACITY_16,
    SCSI_OPCODE_TEST_UNIT_READY,
    SCSI_OPCODE_SECURITY_RECV,
    SCSI_OPCODE_SECURITY_SEND,
}

impl ScsiOpcode {
    pub open spec fn spec_value(self) -> u8 {
        match self {
            ScsiOpcode::SCSI_OPCODE_READ_10 => 0x28,
            ScsiOpcode::SCSI_OPCODE_READ_16 => 0x88,
            ScsiOpcode::SCSI_OPCODE_WRITE_10 => 0x2a,
            ScsiOpcode::SCSI_OPCODE_WRITE_16 => 0x8a,
            ScsiOpcode::SCSI_OPCODE_READ_CAPACITY_10 => 0x25,
            ScsiOpcode::SCSI_OPCODE_SERVICE_ACTION_IN => 0x9e,
            ScsiOpcode::SCSI_SERVICE_ACTION_READ_CAPACITY_16 => 0x10,
            ScsiOpcode::SCSI_OPCODE_TEST_UNIT_READY => 0x00,
            ScsiOpcode::SCSI_OPCODE_SECURITY_RECV => 0xa2,
            ScsiOpcode::SCSI_OPCODE_SECURITY_SEND => 0xb5,
        }
    }

    /// The operation code byte.
    #[verifier::when_used_as_spec(spec_value)]
    pub fn value(self) -> (r: u8)
        ensures
            r == self.spec_value(),
    {
        match self {
            ScsiOpcode::SCSI_OPCODE_READ_10 => 0x28,
            ScsiOpcode::SCSI_OPCODE_READ_16 => 0x88,
            ScsiOpcode::SCSI_OPCODE_WRITE_10 => 0x2a,
            ScsiOpcode::SCSI_OPCODE_WRITE_16 => 0x8a,
            ScsiOpcode::SCSI_OPCODE_READ_CAPACITY_10 => 0x25,
            ScsiOpcode::SCSI_OPCODE_SERVICE_ACTION_IN => 0x9e,
            ScsiOpcode::SCSI_SERVICE_ACTION_READ_CAPACITY_16 => 0x10,
            ScsiOpcode::SCSI_OPCODE_TEST_UNIT_READY => 0x00,
            ScsiOpcode::SCSI_OPCODE_SECURITY_RECV => 0xa2,
            ScsiOpcode::SCSI_OPCODE_SECURITY_SEND => 0xb5,
        }
    }
}

/// Bits of the flags byte of a read or write CDB.
#[allow(non_camel_case_types)]
#[derive(Clone, Copy, Debug, PartialEq, Eq, Structural)]
pub enum ScsiCdbFlag {
    SCSI_FL_FUA_NV,
    SCSI_FL_FUA,
    SCSI_FL_DPO,
}

impl ScsiCdbFlag {
    pub open spec fn spec_value(self) -> u8 {
        match self {
            ScsiCdbFlag::SCSI_FL_FUA_NV => 0x02,
            ScsiCdbFlag::SCSI_FL_FUA => 0x08,
            ScsiCdbFlag::SCSI_FL_DPO => 0x10,
        }
    }

    /// The flag's bit in the flags byte.
    #[verifier::when_used_as_spec(spec_value)]
    pub fn value(self) -> (r: u8)
        ensures
            r == self.spec_value(),
    {
        match self {
            ScsiCdbFlag::SCSI_FL_FUA_NV => 0x02,
            ScsiCdbFlag::SCSI_FL_FUA => 0x08,
            ScsiCdbFlag::SCSI_FL_DPO => 0x10,
        }
    }
}

/// Read(16) / Write(16) command descriptor block.
#[derive(Clone, Copy, Debug, PartialEq, Eq, Structural)]
pub struct ScsiRwCdb16 {
    pub opcode: u8,
    pub flags: u8,
    pub lba: u64,
    /// Transfer length in blocks, written minus one as the pass-through path does.
    pub len: u32,
    pub group: u8,
    pub control: u8,
}

/// The 16 bytes of a read/write CDB: every multi-byte field big-endian.
pub open spec fn rw_cdb16_bytes(c: ScsiRwCdb16) -> Seq<u8> {
    seq![c.opcode, c.flags] + be_bytes_u64(c.lba) + be_bytes_u32(c.len) + seq![c.group, c.control]
}

/// The read/write CDB that 16 bytes hold.
pub open spec fn rw_cdb16_of(s: Seq<u8>) -> ScsiRwCdb16 {
    ScsiRwCdb16 {
        opcode: s[0],
        flags: s[1],
        lba: be_u64_at(s, 2),
        len: be_u32_at(s, 10),
        group: s[14],
        control: s[15],
    }
}

impl Default for ScsiRwCdb16 {
    fn default() -> (r: Self)
        ensures
            r == (ScsiRwCdb16 { opcode: 0, flags: 0, lba: 0, len: 0, group: 0, control: 0 }),
    {
        ScsiRwCdb16 { opcode: 0, flags: 0, lba: 0, len: 0, group: 0, control: 0 }
    }
}

impl ScsiRwCdb16 {
    pub fn new(opcode: ScsiOpcode, lba: u64, len: u32, flags: u8) -> (r: Self)
        ensures
            r == (ScsiRwCdb16 { opcode: opcode.spec_value(), flags, lba, len, group: 0, control: 0 }),
    {
        ScsiRwCdb16 { opcode: opcode.value(), flags, lba, len, group: 0, control: 0 }
    }

    /// The CDB as it goes on the wire.
    pub fn to_be_bytes(&self) -> (r: Vec<u8>)
        ensures
            r@ == rw_cdb16_bytes(*self),
            r@.len() == 16,
    {
        let mut out: Vec<u8> = Vec::new();
        out.push(self.opcode);
        out.push(self.flags);
        let mut lba = encode_be_u64(self.lba);
        out.append(&mut lba);
        let mut len = encode_be_u32(self.len);
        out.append(&mut len);
        out.push(self.group);
        out.push(self.control);
        assert(out@ =~= rw_cdb16_bytes(*self));
        out
    }

    /// Reads a CDB back from its 16 bytes; `None` for any other length.
    pub fn from_be_bytes(b: &[u8]) -> (r: Option<Self>)
        ensures
            b@.len() == 16 ==> r == Some(rw_cdb16_of(b@)),
            b@.len() != 16 ==> r is None,
    {
        if b.len() != 16 {
            return None;
        }
        let lba_bytes = copy_range(b, 2, 10);
        let len_bytes = copy_range(b, 10, 14);
        let lba = decode_be_u64(lba_bytes.as_slice());
        let len = decode_be_u32(len_bytes.as_slice());
        proof {
            assert(be_u64_at(lba_bytes@, 0) == be_u64_at(b@, 2));
            assert(be_u32_at(len_bytes@, 0) == be_u32_at(b@, 10));
        }
        Some(ScsiRwCdb16 { opcode: b[0], flags: b[1], lba, len, group: b[14], control: b[15] })
    }
}

/// Decoding the encoded read/write CDB gives the CDB back.
pub proof fn lemma_rw_cdb16_round_trip(c: ScsiRwCdb16)
    ensures
        rw_cdb16_bytes(c).len() == 16,
        rw_cdb16_of(rw_cdb16_bytes(c)) == c,
{
    let s = rw_cdb16_bytes(c);
    lemma_be_u64_round_trip(c.lba);
    lemma_be_u32_round_trip(c.len);
    assert(s.subrange(2, 10) =~= be_bytes_u64(c.lba));
    assert(s.subrange(10, 14) =~= be_bytes_u32(c.len));
    assert(be_u64_at(s, 2) == be_u64_at(be_bytes_u64(c.lba), 0));
    assert(be_u32_at(s, 10) == be_u32_at(be_bytes_u32(c.len), 0));
}

/// Security Protocol In / Out command descriptor block.
#[derive(Clone, Copy, Debug, PartialEq, Eq, Structural)]
pub struct ScsiSecCdb12 {
    pub opcode: u8,
    pub protocol: u8,
    /// Security-protocol-specific value (ComID).
    pub com_id: u16,
    pub reserved: u16,
    /// Allocation or transfer length in bytes.
    pub len: u32,
    pub reserved2: u8,
    pub control: u8,
}

/// The 12 bytes of a security CDB: every multi-byte field big-endian.
pub open spec fn sec_cdb12_bytes(c: ScsiSecCdb12) -> Seq<u8> {
    seq![c.opcode, c.protocol] + be_bytes_u16(c.com_id) + be_bytes_u16(c.reserved) + be_bytes_u32(
        c.len,
    ) + seq![c.reserved2, c.control]
}

/// The security CDB that 12 bytes hold.
pub open spec fn sec_cdb12_of(s: Seq<u8>) -> ScsiSecCdb12 {
    ScsiSecCdb12 {
        opcode: s[0],
        protocol: s[1],
        com_id: be_u16_at(s, 2),
        reserved: be_u16_at(s, 4),
        len: be_u32_at(s, 6),
        reserved2: s[10],
        control: s[11],
    }
}

impl Default for ScsiSecCdb12 {
    fn default() -> (r: Self)
        ensures
            r == (ScsiSecCdb12 {
                opcode: 0,
                protocol: 0,
                com_id: 0,
                reserved: 0,
                len: 0,
                reserved2: 0,
                control: 0,
            }),
    {
        ScsiSecCdb12 {
            opcode: 0,
            protocol: 0,
            com_id: 0,
            reserved: 0,
            len: 0,
            reserved2: 0,
            control: 0,
        }
    }
}

impl ScsiSecCdb12 {
    pub fn new(opcode: ScsiOpcode, protocol: u8, com_id: u16, len: u32) -> (r: Self)
        ensures
            r == (ScsiSecCdb12 {
                opcode: opcode.spec_value(),
                protocol,
                com_id,
                reserved: 0,
                len,
                reserved2: 0,
                control: 0,
            }),
    {
        ScsiSecCdb12 {
            opcode: opcode.value(),
            protocol,
            com_id,
            reserved: 0,
            len,
            reserved2: 0,
            control: 0,
        }
    }

    /// The CDB as it goes on the wire.
    pub fn to_be_bytes(&self) -> (r: Vec<u8>)
        ensures
            r@ == sec_cdb12_bytes(*self),
            r@.len() == 12,
    {
        let mut out: Vec<u8> = Vec::new();
        out.push(self.opcode);
        out.push(self.protocol);
        let mut com_id = encode_be_u16(self.com_id);
        out.append(&mut com_id);
        let mut reserved = encode_be_u16(self.reserved);
        out.append(&mut reserved);
        let mut len = encode_be_u32(self.len);
        out.append(&mut len);
        out.push(self.reserved2);
        out.push(self.control);
        assert(out@ =~= sec_cdb12_bytes(*self));
        out
    }

    /// Reads a CDB back from its 12 bytes; `None` for any other length.
    pub fn from_be_bytes(b: &[u8]) -> (r: Option<Self>)
        ensures
            b@.len() == 12 ==> r == Some(sec_cdb12_of(b@)),
            b@.len() != 12 ==> r is None,
    {
        if b.len() != 12 {
            return None;
        }
        let com_id_bytes = copy_range(b, 2, 4);
        let reserved_bytes = copy_range(b, 4, 6);
        let len_bytes = copy_range(b, 6, 10);
        let com_id = decode_be_u16(com_id_bytes.as_slice());
        let reserved = decode_be_u16(reserved_bytes.as_slice());
        let len = decode_be_u32(len_bytes.as_slice());
        proof {
            assert(be_u16_at(com_id_bytes@, 0) == be_u16_at(b@, 2));
            assert(be_u16_at(reserved_bytes@, 0) == be_u16_at(b@, 4));
            assert(be_u32_at(len_bytes@, 0) == be_u32_at(b@, 6));
        }
        Some(
            ScsiSecCdb12 {
                opcode: b[0],
                protocol: b[1],
                com_id,
                reserved,
                len,
                reserved2: b[10],
                control: b[11],
            },
        )
    }
}

/// Decoding the encoded security CDB gives the CDB back.
pub proof fn lemma_sec_cdb12_round_trip(c: ScsiSecCdb12)
    ensures
        sec_cdb12_bytes(c).len() == 12,
        sec_cdb12_of(sec_cdb12_bytes(c)) == c,
{
    let s = sec_cdb12_bytes(c);
    lemma_be_u16_round_trip(c.com_id);
    lemma_be_u16_round_trip(c.reserved);
    lemma_be_u32_round_trip(c.len);
    assert(s.subrange(2, 4) =~= be_bytes_u16(c.com_id));
    assert(s.subrange(4, 6) =~= be_bytes_u16(c.reserved));
    assert(s.subrange(6, 10) =~= be_bytes_u32(c.len));
    assert(be_u16_at(s, 2) == be_u16_at(be_bytes_u16(c.com_id), 0));
    assert(be_u16_at(s, 4) == be_u16_at(be_bytes_u16(c.reserved), 0));
    assert(be_u32_at(s, 6) == be_u32_at(be_bytes_u32(c.len), 0));
}

/// A data buffer handed to a SCSI pass-through request.
pub struct ScsiDataBuffer(Vec<u8>);

impl View for ScsiDataBuffer {
    type V = Seq<u8>;

    closed spec fn view(&self) -> Seq<u8> {
        self.0@
    }
}

impl ScsiDataBuffer {
    /// A zero-filled buffer of `len` bytes.
    pub fn new(len: usize) -> (r: Self)
        ensures
            r@ == Seq::new(len as nat, |_i: int| 0u8),
    {
        let v = zeroed(len);
        ScsiDataBuffer(v)
    }

    pub fn from_vec(v: Vec<u8>) -> (r: Self)
        ensures
            r@ == v@,
    {
        ScsiDataBuffer(v)
    }

    pub fn len(&self) -> (r: usize)
        ensures
            r == self@.len(),
    {
        self.0.len()
    }

    pub fn as_ref(&self) -> (r: &[u8])
        ensures
            r@ == self@,
    {
        self.0.as_slice()
    }

    pub fn index(&self, index: usize) -> (r: u8)
        requires
            index < self@.len(),
        ensures
            r == self@[index as int],
    {
        self.0[index]
    }

    pub fn index_mut(&mut self, index: usize, value: u8)
        requires
            index < old(self)@.len(),
        ensures
            final(self)@ == old(self)@.update(index as int, value),
    {
        self.0.set(index, value);
    }
}

/// Bytes of a transfer of `n` requested bytes once rounded up to whole sectors.
pub open spec fn sector_rounded(n: nat) -> nat {
    (((n + 511) / 512) * 512) as nat
}

/// The rounded length is the least multiple of the sector size that holds the request:
/// a multiple of 512, no shorter than the request, and less than a sector longer.
pub proof fn lemma_sector_rounded(n: nat)
    ensures
        sector_rounded(n) % 512 == 0,
        n <= sector_rounded(n) < n + 512,
{
    let q = (n + 511) / 512;
    assert(q * 512 <= n + 511 < q * 512 + 512) by (nonlinear_arith)
        requires
            q == (n + 511) / 512,
    ;
    assert((q * 512) % 512 == 0) by (nonlinear_arith);
}

/// Rounds a requested byte length up to the next multiple of the sector size.
/// `None` when the rounded length does not fit in the 32-bit transfer-length field.
pub fn sector_aligned_length(requested: usize) -> (r: Option<u32>)
    ensures
        sector_rounded(requested as nat) <= u32::MAX ==> r == Some(
            sector_rounded(requested as nat) as u32,
        ),
        sector_rounded(requested as nat) > u32::MAX ==> r is None,
{
    if requested > 0xffff_fe00 {
        assert(sector_rounded(requested as nat) > u32::MAX) by (nonlinear_arith)
            requires
                requested > 0xffff_fe00,
        ;
        return None;
    }
    let n = requested as u32;
    let q = (n + 511) / 512;
    assert(q * 512 <= 0xffff_fe00) by (nonlinear_arith)
        requires
            n <= 0xffff_fe00,
            q == (n + 511) / 512,
    ;
    Some(q * 512)
}

/// Direction of the data phase of a SCSI pass-through request.
#[derive(Clone, Copy, Debug, PartialEq, Eq, Structural)]
pub enum ScsiDirection {
    /// Host to device.
    DataOut,
    /// Device to host.
    DataIn,
}

impl ScsiDirection {
    pub open spec fn spec_value(self) -> u8 {
        match self {
            ScsiDirection::DataOut => 0,
            ScsiDirection::DataIn => 1,
        }
    }

    /// The direction code of the pass-through ioctl.
    #[verifier::when_used_as_spec(spec_value)]
    pub fn value(self) -> (r: u8)
        ensures
            r == self.spec_value(),
    {
        match self {
            ScsiDirection::DataOut => 0,
            ScsiDirection::DataIn => 1,
        }
    }
}

/// A SCSI pass-through request: the CDB, the data phase, and a sense buffer
/// that is captured whatever the outcome.
#[derive(Debug)]
pub struct ScsiPassThroughRequest {
    /// The CDB, zero-padded to 16 bytes.
    pub cdb: Vec<u8>,
    pub cdb_length: u8,
    pub direction: ScsiDirection,
    pub transfer_length: u32,
    pub sense_length: u8,
    pub timeout_secs: u32,
}

/// `s` padded with zeros to 16 bytes.
pub open spec fn padded_cdb(s: Seq<u8>) -> Seq<u8> {
    s + Seq::new((16 - s.len()) as nat, |_i: int| 0u8)
}

impl ScsiPassThroughRequest {
    pub fn new(cdb: Vec<u8>, direction: ScsiDirection, transfer_length: u32) -> (r: Self)
        requires
            cdb@.len() <= 16,
        ensures
            r.cdb@ == padded_cdb(cdb@),
            r.cdb_length == cdb@.len(),
            r.direction == direction,
            r.transfer_length == transfer_length,
            r.sense_length == SENSE_BUFFER_LEN,
            r.timeout_secs == SCSI_TIMEOUT_SECS,
    {
        let n = cdb.len();
        let mut padded = cdb;
        while padded.len() < 16
            invariant
                n <= padded@.len() <= 16,
                padded@ == cdb@ + Seq::new((padded@.len() - n) as nat, |_i: int| 0u8),
            decreases 16 - padded@.len(),
        {
            padded.push(0u8);
            assert(padded@ =~= cdb@ + Seq::new((padded@.len() - n) as nat, |_i: int| 0u8));
        }
        ScsiPassThroughRequest {
            cdb: padded,
            cdb_length: n as u8,
            direction,
            transfer_length,
            sense_length: SENSE_BUFFER_LEN,
            timeout_secs: SCSI_TIMEOUT_SECS,
        }
    }
}

/// Why a SCSI transfer could not be framed.
#[derive(Clone, Copy, Debug, PartialEq, Eq, Structural)]
pub enum ScsiError {
    /// The length does not fit in the 32-bit transfer-length field.
    TooLong,
}

/// Sequential SCSI streaming state of an open disk: the block size and the write cursor.
#[derive(Clone, Copy, Debug, PartialEq, Eq, Structural)]
pub struct ScsiStream {
    /// log2 of the block size; at most 9, so that a sector holds a whole number of blocks.
    pub lba_shift: u8,
    /// Byte offset at which the next write lands.
    pub write_offset: u64,
    /// Force-unit-access policy of writes, when one is set.
    pub fua: Option<bool>,
}

/// Blocks in `rounded` bytes, minus one, as the CDB transfer length carries them.
pub open spec fn blocks_minus_one(rounded: u32, lba_shift: u8) -> u32 {
    ((rounded >> (lba_shift as u32)) - 1) as u32
}

/// The flags byte of a write: FUA set exactly when the policy asks for it.
pub open spec fn write_flags(fua: Option<bool>) -> u8 {
    match fua {
        Some(true) => 0x08,
        _ => 0,
    }
}

impl ScsiStream {
    pub open spec fn wf(self) -> bool {
        self.lba_shift <= 9
    }

    /// A stream with 512-byte blocks and the write cursor at 0.
    pub fn new(fua: Option<bool>) -> (r: Self)
        ensures
            r.wf(),
            r == (ScsiStream { lba_shift: 9, write_offset: 0, fua }),
    {
        ScsiStream { lba_shift: 9, write_offset: 0, fua }
    }

    /// Frames a Read(16) of `len` bytes at byte `offset`; `Ok(None)` when there is nothing to read.
    pub fn read_request(&self, offset: u64, len: usize) -> (r: Result<
        Option<ScsiPassThroughRequest>,
        ScsiError,
    >)
        requires
            self.wf(),
        ensures
            len == 0 ==> r == Ok::<Option<ScsiPassThroughRequest>, ScsiError>(None),
            len > 0 && (sector_rounded(len as nat) > u32::MAX || len > u32::MAX) ==> r == Err::<
                Option<ScsiPassThroughRequest>,
                ScsiError,
            >(ScsiError::TooLong),
            len > 0 && sector_rounded(len as nat) <= u32::MAX && len <= u32::MAX ==> (r matches Ok(
                Some(q),
            ) && q.cdb@ == padded_cdb(
                rw_cdb16_bytes(
                    ScsiRwCdb16 {
                        opcode: 0x88,
                        flags: 0,
                        lba: offset >> (self.lba_shift as u64),
                        len: blocks_minus_one(sector_rounded(len as nat) as u32, self.lba_shift),
                        group: 0,
                        control: 0,
                    },
                ),
            ) && q.cdb_length == 16 && q.direction == ScsiDirection::DataIn && q.transfer_length
                == len),
    {
        if len == 0 {
            return Ok(None);
        }
        if len > 0xffff_ffff {
            return Err(ScsiError::TooLong);
        }
        let rounded = match sector_aligned_length(len) {
            Some(n) => n,
            None => {
                return Err(ScsiError::TooLong);
            },
        };
        let shift = self.lba_shift;
        let lba = offset >> (shift as u64);
        let nlb = self.block_count_minus_one(rounded, len);
        let cdb = ScsiRwCdb16::new(ScsiOpcode::SCSI_OPCODE_READ_16, lba, nlb, 0);
        let bytes = cdb.to_be_bytes();
        Ok(Some(ScsiPassThroughRequest::new(bytes, ScsiDirection::DataIn, len as u32)))
    }

    /// Frames a Write(16) of `len` bytes at the write cursor; `Ok(None)` when there is nothing to write.
    pub fn write_request(&self, len: usize) -> (r: Result<
        Option<ScsiPassThroughRequest>,
        ScsiError,
    >)
        requires
            self.wf(),
        ensures
            len == 0 ==> r == Ok::<Option<ScsiPassThroughRequest>, ScsiError>(None),
            len > 0 && (sector_rounded(len as nat) > u32::MAX || len > u32::MAX) ==> r == Err::<
                Option<ScsiPassThroughRequest>,
                ScsiError,
            >(ScsiError::TooLong),
            len > 0 && sector_rounded(len as nat) <= u32::MAX && len <= u32::MAX ==> (r matches Ok(
                Some(q),
            ) && q.cdb@ == padded_cdb(
                rw_cdb16_bytes(
                    ScsiRwCdb16 {
                        opcode: 0x8a,
                        flags: write_flags(self.fua),
                        lba: self.write_offset >> (self.lba_shift as u64),
                        len: blocks_minus_one(sector_rounded(len as nat) as u32, self.lba_shift),
                        group: 0,
                        control: 0,
                    },
                ),
            ) && q.cdb_length == 16 && q.direction == ScsiDirection::DataOut && q.transfer_length
                == len),
    {
        if len == 0 {
            return Ok(None);
        }
        if len > 0xffff_ffff {
            return Err(ScsiError::TooLong);
        }
        let rounded = match sector_aligned_length(len) {
            Some(n) => n,
            None => {
                return Err(ScsiError::TooLong);
            },
        };
        let shift = self.lba_shift;
        let lba = self.write_offset >> (shift as u64);
        let nlb = self.block_count_minus_one(rounded, len);
        let flags: u8 = match self.fua {
            Some(true) => ScsiCdbFlag::SCSI_FL_FUA.value(),
            _ => 0,
        };
        let cdb = ScsiRwCdb16::new(ScsiOpcode::SCSI_OPCODE_WRITE_16, lba, nlb, flags);
        let bytes = cdb.to_be_bytes();
        Ok(Some(ScsiPassThroughRequest::new(bytes, ScsiDirection::DataOut, len as u32)))
    }

    fn block_count_minus_one(&self, rounded: u32, len: usize) -> (r: u32)
        requires
            self.wf(),
            len > 0,
            rounded == sector_rounded(len as nat),
        ensures
            r == blocks_minus_one(rounded, self.lba_shift),
    {
        let shift = self.lba_shift as u32;
        assert(rounded >= 512) by (nonlinear_arith)
            requires
                len > 0,
                rounded == (((len + 511) / 512) * 512),
        ;
        assert(rounded >> shift >= 1) by (bit_vector)
            requires
                rounded >= 512,
                shift <= 9,
        ;
        (rounded >> shift) - 1
    }

    /// Moves the write cursor past what the completed pass-through actually transferred.
    pub fn complete_write(&mut self, transferred: u32)
        requires
            old(self).write_offset + transferred <= u64::MAX,
        ensures
            final(self).write_offset == old(self).write_offset + transferred,
            final(self).lba_shift == old(self).lba_shift,
            final(self).fua == old(self).fua,
    {
        self.write_offset = self.write_offset + transferred as u64;
    }

    /// Frames a Security Protocol In of `len` bytes.
    pub fn security_recv_request(protocol: u8, com_id: u16, len: usize) -> (r: Result<
        ScsiPassThroughRequest,
        ScsiError,
    >)
        ensures
            len > u32::MAX ==> r is Err,
            len <= u32::MAX ==> (r matches Ok(q) && q.cdb@ == padded_cdb(
                sec_cdb12_bytes(
                    ScsiSecCdb12 {
                        opcode: 0xa2,
                        protocol,
                        com_id,
                        reserved: 0,
                        len: len as u32,
                        reserved2: 0,
                        control: 0,
                    },
                ),
            ) && q.cdb_length == 12 && q.direction == ScsiDirection::DataIn && q.transfer_length
                == len),
    {
        if len > 0xffff_ffff {
            return Err(ScsiError::TooLong);
        }
        let cdb = ScsiSecCdb12::new(ScsiOpcode::SCSI_OPCODE_SECURITY_RECV, protocol, com_id, len as u32);
        Ok(ScsiPassThroughRequest::new(cdb.to_be_bytes(), ScsiDirection::DataIn, len as u32))
    }

    /// Frames a Security Protocol Out of `len` bytes.
    pub fn security_send_request(protocol: u8, com_id: u16, len: usize) -> (r: Result<
        ScsiPassThroughRequest,
        ScsiError,
    >)
        ensures
            len > u32::MAX ==> r is Err,
            len <= u32::MAX ==> (r matches Ok(q) && q.cdb@ == padded_cdb(
                sec_cdb12_bytes(
                    ScsiSecCdb12 {
                        opcode: 0xb5,
                        protocol,
                        com_id,
                        reserved: 0,
                        len: len as u32,
                        reserved2: 0,
                        control: 0,
                    },
                ),
            ) && q.cdb_length == 12 && q.direction == ScsiDirection::DataOut && q.transfer_length
                == len),
    {
        if len > 0xffff_ffff {
            return Err(ScsiError::TooLong);
        }
        let cdb = ScsiSecCdb12::new(ScsiOpcode::SCSI_OPCODE_SECURITY_SEND, protocol, com_id, len as u32);
        Ok(ScsiPassThroughRequest::new(cdb.to_be_bytes(), ScsiDirection::DataOut, len as u32))
    }
}

} // verus!
