use vstd::prelude::*;

use crate::bytes::{
    copy_range, zeroed, le_u16_at, le_u32_at, le_u64_at, read_le_u16, read_le_u32, read_le_u64,
};

verus! {

/// Bytes of the data that an Identify command returns.
pub const NVME_IDENTIFY_SIZE: usize = 4096;

/// The `n` little-endian 32-bit values starting at byte `off`.
pub open spec fn le_u32_seq(s: Seq<u8>, off: int, n: nat) -> Seq<u32> {
    Seq::new(n, |i: int| le_u32_at(s, off + 4 * i))
}

/// Reads `n` little-endian 32-bit values starting at byte `off`.
pub fn read_le_u32_seq(b: &[u8], off: usize, n: usize) -> (r: Vec<u32>)
    requires
        off + 4 * n <= b@.len(),
    ensures
        r@ == le_u32_seq(b@, off as int, n as nat),
{
    let len = b.len();
    let mut r: Vec<u32> = Vec::new();
    let mut i: usize = 0;
    while i < n
        invariant
            i <= n,
            len == b@.len(),
            off + 4 * n <= b@.len(),
            r@ == le_u32_seq(b@, off as int, i as nat),
        decreases n - i,
    {
        r.push(read_le_u32(b, off + 4 * i));
        i = i + 1;
        assert(r@ =~= le_u32_seq(b@, off as int, i as nat));
    }
    r
}

/// Identify Controller data structure (CNS 01h).
#[allow(non_snake_case, non_camel_case_types)]
#[derive(Debug)]
pub struct NVME_IDENTIFY_CONTROLLER_DATA {
    /// PCI Vendor ID (VID)
    pub VID: u16,
    /// PCI Subsystem Vendor ID (SSVID)
    pub SSVID: u16,
    /// Serial Number (SN)
    pub SN: Vec<u8>,
    /// Model Number (MN)
    pub MN: Vec<u8>,
    /// Firmware Revision (FR)
    pub FR: Vec<u8>,
    /// Recommended Arbitration Burst (RAB)
    pub RAB: u8,
    /// IEEE OUI Identifier (IEEE). Controller Vendor code.
    pub IEEE: Vec<u8>,
    /// Controller Multi-Path I/O and Namespace Sharing Capabilities (CMIC)
    pub CMIC: u8,
    /// Maximum Data Transfer Size (MDTS)
    pub MDTS: u8,
    /// Controller ID (CNTLID)
    pub CNTLID: u16,
    /// Version (VER)
    pub VER: u32,
    /// RTD3 Resume Latency (RTD3R)
    pub RTD3R: u32,
    /// RTD3 Entry Latency (RTD3E)
    pub RTD3E: u32,
    /// Optional Asynchronous Events Supported (OAES)
    pub OAES: u32,
    /// Controller Attributes (CTRATT)
    pub CTRATT: u32,
    /// Read Recovery Levels Supported (RRLS)
    pub RRLS: u16,
    /// Controller Type
    pub CNTRLTYPE: u8,
    /// FRU Globally Unique Identifier (FGUID)
    pub FGUID: Vec<u8>,
    /// Command Retry Delay Time 1
    pub CRDT1: u16,
    /// Command Retry Delay Time 1
    pub CRDT2: u16,
    /// Command Retry Delay Time 1
    pub CRDT3: u16,
    /// Optional Admin Command Support (OACS)
    pub OACS: u16,
    /// Abort Command Limit (ACL)
    pub ACL: u8,
    /// Asynchronous Event Request Limit (AERL)
    pub AERL: u8,
    /// Firmware Updates (FRMW)
    pub FRMW: u8,
    /// Log Page Attributes (LPA)
    pub LPA: u8,
    /// Error Log Page Entries (ELPE)
    pub ELPE: u8,
    /// Number of Power States Support (NPSS)
    pub NPSS: u8,
    /// Admin Vendor Specific Command Configuration (AVSCC)
    pub AVSCC: u8,
    /// Autonomous Power State Transition Attributes (APSTA)
    pub APSTA: u8,
    /// Warning Composite Temperature Threshold (WCTEMP)
    pub WCTEMP: u16,
    /// Critical Composite Temperature Threshold (CCTEMP)
    pub CCTEMP: u16,
    /// Maximum Time for Firmware Activation (MTFA)
    pub MTFA: u16,
    /// Host Memory Buffer Preferred Size (HMPRE)
    pub HMPRE: u32,
    /// Host Memory Buffer Minimum Size (HMMIN)
    pub HMMIN: u32,
    /// Total NVM Capacity (TNVMCAP)
    pub TNVMCAP: Vec<u8>,
    /// Unallocated NVM Capacity (UNVMCAP)
    pub UNVMCAP: Vec<u8>,
    /// Replay Protected Memory Block Support (RPMBS)
    pub RPMBS: u32,
    /// Extended Device Self-test Time (EDSTT)
    pub EDSTT: u16,
    /// Device Self-test Options (DSTO)
    pub DSTO: u8,
    /// Firmware Update Granularity (FWUG)
    pub FWUG: u8,
    /// Keep Alive Support (KAS)
    pub KAS: u16,
    /// Host Controlled Thermal Management Attributes (HCTMA)
    pub HCTMA: u16,
    /// Minimum Thermal Management Temperature (MNTMT)
    pub MNTMT: u16,
    /// Maximum Thermal Management Temperature (MXTMT)
    pub MXTMT: u16,
    /// Sanitize Capabilities (SANICAP)
    pub SANICAP: u32,
    /// Host Memory Buffer Minimum Descriptor Entry Size (HMMINDS)
    pub HMMINDS: u32,
    /// Host Memory Maximum Descriptors Entries (HMMAXD)
    pub HMMAXD: u16,
    /// NVM Set Identifier Maximum
    pub NSETIDMAX: u16,
    /// Endurance Group Identifier Maximum (ENDGIDMAX)
    pub ENDGIDMAX: u16,
    /// ANA Transition Time (ANATT)
    pub ANATT: u8,
    /// Asymmetric Namespace Access Capabilities (ANACAP)
    pub ANACAP: u8,
    /// ANA Group Identifier Maximum (ANAGRPMAX)
    pub ANAGRPMAX: u32,
    /// Number of ANA Group Identifiers (NANAGRPID)
    pub NANAGRPID: u32,
    /// Persistent Event Log Size (PELS)
    pub PELS: u32,
    /// Submission Queue Entry Size (SQES)
    pub SQES: u8,
    /// Completion Queue Entry Size (CQES)
    pub CQES: u8,
    /// Maximum Outstanding Commands (MAXCMD)
    pub MAXCMD: u16,
    /// Number of Namespaces (NN)
    pub NN: u32,
    /// Optional NVM Command Support (ONCS)
    pub ONCS: u16,
    /// Fused Operation Support (FUSES)
    pub FUSES: u16,
    /// Format NVM Attributes (FNA)
    pub FNA: u8,
    /// Volatile Write Cache (VWC)
    pub VWC: u8,
    /// Atomic Write Unit Normal (AWUN)
    pub AWUN: u16,
    /// Atomic Write Unit Power Fail (AWUPF)
    pub AWUPF: u16,
    /// NVM Vendor Specific Command Configuration (NVSCC)
    pub NVSCC: u8,
    /// Namespace Write Protection Capabilities (NWPC)
    pub NWPC: u8,
    /// Atomic Compare & Write Unit (ACWU)
    pub ACWU: u16,
    /// SGL Support (SGLS)
    pub SGLS: u32,
    /// Maximum Number of Allowed Namespace (MNAN)
    pub MNAN: u32,
    /// NVM Subsystem NVMe Qualified Name (SUBNQN)
    pub SUBNQN: Vec<u8>,
    /// Power State Descriptors
    pub PDS: Vec<u8>,
}

impl Default for NVME_IDENTIFY_CONTROLLER_DATA {
    /// The structure as an all-zero identify buffer holds it.
    fn default() -> (r: Self)
        ensures
            r.decodes(Seq::new(NVME_IDENTIFY_SIZE as nat, |_i: int| 0u8)),
    {
        let z = zeroed(NVME_IDENTIFY_SIZE);
        NVME_IDENTIFY_CONTROLLER_DATA::decode(z.as_slice()).unwrap()
    }
}

impl NVME_IDENTIFY_CONTROLLER_DATA {
    /// Every field holds the bytes at its offset in `s`, multi-byte fields little-endian.
    pub open spec fn decodes(self, s: Seq<u8>) -> bool {
        &&& self.VID == le_u16_at(s, 0)
        &&& self.SSVID == le_u16_at(s, 2)
        &&& self.SN@ == s.subrange(4, 24)
        &&& self.MN@ == s.subrange(24, 64)
        &&& self.FR@ == s.subrange(64, 72)
        &&& self.RAB == s[72]
        &&& self.IEEE@ == s.subrange(73, 76)
        &&& self.CMIC == s[76]
        &&& self.MDTS == s[77]
        &&& self.CNTLID == le_u16_at(s, 78)
        &&& self.VER == le_u32_at(s, 80)
        &&& self.RTD3R == le_u32_at(s, 84)
        &&& self.RTD3E == le_u32_at(s, 88)
        &&& self.OAES == le_u32_at(s, 92)
        &&& self.CTRATT == le_u32_at(s, 96)
        &&& self.RRLS == le_u16_at(s, 100)
        &&& self.CNTRLTYPE == s[111]
        &&& self.FGUID@ == s.subrange(112, 128)
        &&& self.CRDT1 == le_u16_at(s, 128)
        &&& self.CRDT2 == le_u16_at(s, 130)
        &&& self.CRDT3 == le_u16_at(s, 132)
        &&& self.OACS == le_u16_at(s, 256)
        &&& self.ACL == s[258]
        &&& self.AERL == s[259]
        &&& self.FRMW == s[260]
        &&& self.LPA == s[261]
        &&& self.ELPE == s[262]
        &&& self.NPSS == s[263]
        &&& self.AVSCC == s[264]
        &&& self.APSTA == s[265]
        &&& self.WCTEMP == le_u16_at(s, 266)
        &&& self.CCTEMP == le_u16_at(s, 268)
        &&& self.MTFA == le_u16_at(s, 270)
        &&& self.HMPRE == le_u32_at(s, 272)
        &&& self.HMMIN == le_u32_at(s, 276)
        &&& self.TNVMCAP@ == s.subrange(280, 296)
        &&& self.UNVMCAP@ == s.subrange(296, 312)
        &&& self.RPMBS == le_u32_at(s, 312)
        &&& self.EDSTT == le_u16_at(s, 316)
        &&& self.DSTO == s[318]
        &&& self.FWUG == s[319]
        &&& self.KAS == le_u16_at(s, 320)
        &&& self.HCTMA == le_u16_at(s, 322)
        &&& self.MNTMT == le_u16_at(s, 324)
        &&& self.MXTMT == le_u16_at(s, 326)
        &&& self.SANICAP == le_u32_at(s, 328)
        &&& self.HMMINDS == le_u32_at(s, 332)
        &&& self.HMMAXD == le_u16_at(s, 336)
        &&& self.NSETIDMAX == le_u16_at(s, 338)
        &&& self.ENDGIDMAX == le_u16_at(s, 340)
        &&& self.ANATT == s[342]
        &&& self.ANACAP == s[343]
        &&& self.ANAGRPMAX == le_u32_at(s, 344)
        &&& self.NANAGRPID == le_u32_at(s, 348)
        &&& self.PELS == le_u32_at(s, 352)
        &&& self.SQES == s[512]
        &&& self.CQES == s[513]
        &&& self.MAXCMD == le_u16_at(s, 514)
        &&& self.NN == le_u32_at(s, 516)
        &&& self.ONCS == le_u16_at(s, 520)
        &&& self.FUSES == le_u16_at(s, 522)
        &&& self.FNA == s[524]
        &&& self.VWC == s[525]
        &&& self.AWUN == le_u16_at(s, 526)
        &&& self.AWUPF == le_u16_at(s, 528)
        &&& self.NVSCC == s[530]
        &&& self.NWPC == s[531]
        &&& self.ACWU == le_u16_at(s, 532)
        &&& self.SGLS == le_u32_at(s, 536)
        &&& self.MNAN == le_u32_at(s, 540)
        &&& self.SUBNQN@ == s.subrange(768, 1024)
        &&& self.PDS@ == s.subrange(2048, 3072)
    }

    /// Reads the structure from the identify data; `None` when fewer than 4096 bytes came back.
    #[verifier::rlimit(40)]
    pub fn decode(b: &[u8]) -> (r: Option<Self>)
        ensures
            b@.len() >= NVME_IDENTIFY_SIZE ==> (r matches Some(d) && d.decodes(b@)),
            b@.len() < NVME_IDENTIFY_SIZE ==> r is None,
    {
        if b.len() < NVME_IDENTIFY_SIZE {
            return None;
        }
        Some(
            NVME_IDENTIFY_CONTROLLER_DATA {
                VID: read_le_u16(b, 0),
                SSVID: read_le_u16(b, 2),
                SN: copy_range(b, 4, 24),
                MN: copy_range(b, 24, 64),
                FR: copy_range(b, 64, 72),
                RAB: b[72],
                IEEE: copy_range(b, 73, 76),
                CMIC: b[76],
                MDTS: b[77],
                CNTLID: read_le_u16(b, 78),
                VER: read_le_u32(b, 80),
                RTD3R: read_le_u32(b, 84),
                RTD3E: read_le_u32(b, 88),
                OAES: read_le_u32(b, 92),
                CTRATT: read_le_u32(b, 96),
                RRLS: read_le_u16(b, 100),
                CNTRLTYPE: b[111],
                FGUID: copy_range(b, 112, 128),
                CRDT1: read_le_u16(b, 128),
                CRDT2: read_le_u16(b, 130),
                CRDT3: read_le_u16(b, 132),
                OACS: read_le_u16(b, 256),
                ACL: b[258],
                AERL: b[259],
                FRMW: b[260],
                LPA: b[261],
                ELPE: b[262],
                NPSS: b[263],
                AVSCC: b[264],
                APSTA: b[265],
                WCTEMP: read_le_u16(b, 266),
                CCTEMP: read_le_u16(b, 268),
                MTFA: read_le_u16(b, 270),
                HMPRE: read_le_u32(b, 272),
                HMMIN: read_le_u32(b, 276),
                TNVMCAP: copy_range(b, 280, 296),
                UNVMCAP: copy_range(b, 296, 312),
                RPMBS: read_le_u32(b, 312),
                EDSTT: read_le_u16(b, 316),
                DSTO: b[318],
                FWUG: b[319],
                KAS: read_le_u16(b, 320),
                HCTMA: read_le_u16(b, 322),
                MNTMT: read_le_u16(b, 324),
                MXTMT: read_le_u16(b, 326),
                SANICAP: read_le_u32(b, 328),
                HMMINDS: read_le_u32(b, 332),
                HMMAXD: read_le_u16(b, 336),
                NSETIDMAX: read_le_u16(b, 338),
                ENDGIDMAX: read_le_u16(b, 340),
                ANATT: b[342],
                ANACAP: b[343],
                ANAGRPMAX: read_le_u32(b, 344),
                NANAGRPID: read_le_u32(b, 348),
                PELS: read_le_u32(b, 352),
                SQES: b[512],
                CQES: b[513],
                MAXCMD: read_le_u16(b, 514),
                NN: read_le_u32(b, 516),
                ONCS: read_le_u16(b, 520),
                FUSES: read_le_u16(b, 522),
                FNA: b[524],
                VWC: b[525],
                AWUN: read_le_u16(b, 526),
                AWUPF: read_le_u16(b, 528),
                NVSCC: b[530],
                NWPC: b[531],
                ACWU: read_le_u16(b, 532),
                SGLS: read_le_u32(b, 536),
                MNAN: read_le_u32(b, 540),
                SUBNQN: copy_range(b, 768, 1024),
                PDS: copy_range(b, 2048, 3072),
            },
        )
    }
}

/// Identify Namespace data structure (CNS 00h).
#[allow(non_snake_case, non_camel_case_types)]
#[derive(Debug)]
pub struct NVME_IDENTIFY_NAMESPACE_DATA {
    /// Namespace Size (NSZE)
    pub NSZE: u64,
    /// Namespace Capacity (NCAP)
    pub NCAP: u64,
    /// Namespace Utilization (NUSE)
    pub NUSE: u64,
    /// Namespace Features (NSFEAT)
    pub NSFEAT: u8,
    /// Number of LBA Formats (NLBAF)
    pub NLBAF: u8,
    /// Formatted LBA Size (FLBAS)
    pub FLBAS: u8,
    /// Metadata Capabilities (MC)
    pub MC: u8,
    /// End-to-end Data Protection Capabilities (DPC)
    pub DPC: u8,
    /// End-to-end Data Protection Type Settings (DPS)
    pub DPS: u8,
    /// Namespace Multi-path I/O and Namespace Sharing Capabilities (NMIC)
    pub NMIC: u8,
    /// Reservation Capabilities (RESCAP)
    pub RESCAP: u8,
    /// Format Progress Indicator (FPI)
    pub FPI: u8,
    pub DLFEAT: u8,
    /// Namespace Atomic Write Unit Normal (NAWUN)
    pub NAWUN: u16,
    /// Namespace Atomic Write Unit Power Fail (NAWUPF)
    pub NAWUPF: u16,
    /// Namespace Atomic Compare & Write Unit (NACWU)
    pub NACWU: u16,
    /// Namespace Atomic Boundary Size Normal (NABSN)
    pub NABSN: u16,
    /// Namespace Atomic Boundary Offset (NABO)
    pub NABO: u16,
    /// Namespace Atomic Boundary Size Power Fail (NABSPF)
    pub NABSPF: u16,
    /// Namespace Optimal IO Boundary (NOIOB)
    pub NOIOB: u16,
    /// NVM Capacity (NVMCAP)
    pub NVMCAP: Vec<u8>,
    /// Namespace Preferred Write Granularity (NPWG)
    pub NPWG: u16,
    /// Namespace Preferred Write Alignment (NPWA)
    pub NPWA: u16,
    /// Namespace Preferred Deallocate Granularity (NPDG)
    pub NPDG: u16,
    /// Namespace Preferred Deallocate Alignment (NPDA)
    pub NPDA: u16,
    /// Namespace Optimal Write Size (NOWS)
    pub NOWS: u16,
    /// Maximum Single Source Range Length(MSSRL)
    pub MSSRL: u16,
    /// Maximum Copy Length(MCL)
    pub MCL: u32,
    /// Maximum Source Range Count(MSRC)
    pub MSRC: u8,
    /// ANA Group Identifier (ANAGRPID)
    pub ANAGRPID: u32,
    /// Namespace Attributes{
    pub NSATTR: u8,
    /// Associated NVM Set Identifier
    pub NVMSETID: u16,
    /// Associated Endurance Group Identifier
    pub ENDGID: u16,
    /// Namespace Globally Unique Identifier (NGUID)
    pub NGUID: Vec<u8>,
    /// IEEE Extended Unique Identifier (EUI64)
    pub EUI64: Vec<u8>,
    /// LBA Format 0~15 Support (LBAF0)
    pub LBAF: Vec<u32>,
}

impl Default for NVME_IDENTIFY_NAMESPACE_DATA {
    /// The structure as an all-zero identify buffer holds it.
    fn default() -> (r: Self)
        ensures
            r.decodes(Seq::new(NVME_IDENTIFY_SIZE as nat, |_i: int| 0u8)),
    {
        let z = zeroed(NVME_IDENTIFY_SIZE);
        NVME_IDENTIFY_NAMESPACE_DATA::decode(z.as_slice()).unwrap()
    }
}

impl NVME_IDENTIFY_NAMESPACE_DATA {
    /// Every field holds the bytes at its offset in `s`, multi-byte fields little-endian.
    pub open spec fn decodes(self, s: Seq<u8>) -> bool {
        &&& self.NSZE == le_u64_at(s, 0)
        &&& self.NCAP == le_u64_at(s, 8)
        &&& self.NUSE == le_u64_at(s, 16)
        &&& self.NSFEAT == s[24]
        &&& self.NLBAF == s[25]
        &&& self.FLBAS == s[26]
        &&& self.MC == s[27]
        &&& self.DPC == s[28]
        &&& self.DPS == s[29]
        &&& self.NMIC == s[30]
        &&& self.RESCAP == s[31]
        &&& self.FPI == s[32]
        &&& self.DLFEAT == s[33]
        &&& self.NAWUN == le_u16_at(s, 34)
        &&& self.NAWUPF == le_u16_at(s, 36)
        &&& self.NACWU == le_u16_at(s, 38)
        &&& self.NABSN == le_u16_at(s, 40)
        &&& self.NABO == le_u16_at(s, 42)
        &&& self.NABSPF == le_u16_at(s, 44)
        &&& self.NOIOB == le_u16_at(s, 46)
        &&& self.NVMCAP@ == s.subrange(48, 64)
        &&& self.NPWG == le_u16_at(s, 64)
        &&& self.NPWA == le_u16_at(s, 66)
        &&& self.NPDG == le_u16_at(s, 68)
        &&& self.NPDA == le_u16_at(s, 70)
        &&& self.NOWS == le_u16_at(s, 72)
        &&& self.MSSRL == le_u16_at(s, 74)
        &&& self.MCL == le_u32_at(s, 76)
        &&& self.MSRC == s[80]
        &&& self.ANAGRPID == le_u32_at(s, 92)
        &&& self.NSATTR == s[99]
        &&& self.NVMSETID == le_u16_at(s, 100)
        &&& self.ENDGID == le_u16_at(s, 102)
        &&& self.NGUID@ == s.subrange(104, 120)
        &&& self.EUI64@ == s.subrange(120, 128)
        &&& self.LBAF@ == le_u32_seq(s, 128, 16)
    }

    /// Reads the structure from the identify data; `None` when fewer than 4096 bytes came back.
    #[verifier::rlimit(40)]
    pub fn decode(b: &[u8]) -> (r: Option<Self>)
        ensures
            b@.len() >= NVME_IDENTIFY_SIZE ==> (r matches Some(d) && d.decodes(b@)),
            b@.len() < NVME_IDENTIFY_SIZE ==> r is None,
    {
        if b.len() < NVME_IDENTIFY_SIZE {
            return None;
        }
        Some(
            NVME_IDENTIFY_NAMESPACE_DATA {
                NSZE: read_le_u64(b, 0),
                NCAP: read_le_u64(b, 8),
                NUSE: read_le_u64(b, 16),
                NSFEAT: b[24],
                NLBAF: b[25],
                FLBAS: b[26],
                MC: b[27],
                DPC: b[28],
                DPS: b[29],
                NMIC: b[30],
                RESCAP: b[31],
                FPI: b[32],
                DLFEAT: b[33],
                NAWUN: read_le_u16(b, 34),
                NAWUPF: read_le_u16(b, 36),
                NACWU: read_le_u16(b, 38),
                NABSN: read_le_u16(b, 40),
                NABO: read_le_u16(b, 42),
                NABSPF: read_le_u16(b, 44),
                NOIOB: read_le_u16(b, 46),
                NVMCAP: copy_range(b, 48, 64),
                NPWG: read_le_u16(b, 64),
                NPWA: read_le_u16(b, 66),
                NPDG: read_le_u16(b, 68),
                NPDA: read_le_u16(b, 70),
                NOWS: read_le_u16(b, 72),
                MSSRL: read_le_u16(b, 74),
                MCL: read_le_u32(b, 76),
                MSRC: b[80],
                ANAGRPID: read_le_u32(b, 92),
                NSATTR: b[99],
                NVMSETID: read_le_u16(b, 100),
                ENDGID: read_le_u16(b, 102),
                NGUID: copy_range(b, 104, 120),
                EUI64: copy_range(b, 120, 128),
                LBAF: read_le_u32_seq(b, 128, 16),
            },
        )
    }
}

/// `r` is the namespace list that the identify buffer `s` holds: its little-endian
/// 32-bit words up to, not including, the first zero word (zero is never a namespace id).
pub open spec fn is_namespace_list_of(r: Seq<u32>, s: Seq<u8>) -> bool {
    &&& r.len() <= s.len() / 4
    &&& forall|i: int| 0 <= i < r.len() ==> #[trigger] r[i] == le_u32_at(s, 4 * i) && r[i] != 0
    &&& (r.len() == s.len() / 4 || le_u32_at(s, 4 * (r.len() as int)) == 0)
}

/// Decodes a namespace-list identify buffer: the non-zero prefix of its words.
pub fn decode_namespace_list(b: &[u8]) -> (r: Vec<u32>)
    ensures
        is_namespace_list_of(r@, b@),
{
    let len = b.len();
    let words = len / 4;
    let mut r: Vec<u32> = Vec::new();
    let mut i: usize = 0;
    while i < words
        invariant
            len == b@.len(),
            words == len / 4,
            i <= words,
            r@.len() == i,
            forall|k: int| 0 <= k < i ==> #[trigger] r@[k] == le_u32_at(b@, 4 * k) && r@[k] != 0,
        decreases words - i,
    {
        let w = read_le_u32(b, 4 * i);
        if w == 0 {
            return r;
        }
        r.push(w);
        i = i + 1;
    }
    r
}

/// The namespace list of a buffer is determined by the buffer: it is exactly the
/// non-zero prefix, so any two lists that the buffer holds are the same list.
pub proof fn lemma_namespace_list_exact(r1: Seq<u32>, r2: Seq<u32>, s: Seq<u8>)
    requires
        is_namespace_list_of(r1, s),
        is_namespace_list_of(r2, s),
    ensures
        r1 == r2,
{
    if r1.len() < r2.len() {
        assert(r2[r1.len() as int] == le_u32_at(s, 4 * (r1.len() as int)));
        assert(false);
    } else if r2.len() < r1.len() {
        assert(r1[r2.len() as int] == le_u32_at(s, 4 * (r2.len() as int)));
        assert(false);
    }
    assert(r1 =~= r2);
}

} // verus!
