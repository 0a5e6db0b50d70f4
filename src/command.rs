use vstd::prelude::*;

use crate::bitfield::{lemma_low_mask_values, BitField};
use crate::bytes::{le_bytes_u32, le_bytes_u64, push_le_u32, push_le_u64};

verus! {

/// Bytes of an NVMe submission queue entry.
pub const NVME_COMMAND_SIZE: usize = 64;

/// Fields of command dword 0, low bit first.
#[derive(Clone, Copy, Debug, PartialEq, Eq, Structural)]
pub enum CommandDword0Field {
    /// Opcode.
    OPC,
    /// Fused operation.
    FUSE,
    /// Reserved.
    Reserved0,
    /// PRP or SGL for data transfer.
    PSDT,
    /// Command identifier.
    CID,
}

impl CommandDword0Field {
    pub open spec fn spec_layout(self) -> BitField {
        match self {
            CommandDword0Field::OPC => BitField { offset: 0, width: 8 },
            CommandDword0Field::FUSE => BitField { offset: 8, width: 2 },
            CommandDword0Field::Reserved0 => BitField { offset: 10, width: 5 },
            CommandDword0Field::PSDT => BitField { offset: 15, width: 1 },
            CommandDword0Field::CID => BitField { offset: 16, width: 16 },
        }
    }

    #[verifier::when_used_as_spec(spec_layout)]
    pub fn layout(self) -> (r: BitField)
        ensures
            r == self.spec_layout(),
            r.wf(),
    {
        match self {
            CommandDword0Field::OPC => BitField { offset: 0, width: 8 },
            CommandDword0Field::FUSE => BitField { offset: 8, width: 2 },
            CommandDword0Field::Reserved0 => BitField { offset: 10, width: 5 },
            CommandDword0Field::PSDT => BitField { offset: 15, width: 1 },
            CommandDword0Field::CID => BitField { offset: 16, width: 16 },
        }
    }
}


/// Fields of dword 10 of the Identify command.
#[derive(Clone, Copy, Debug, PartialEq, Eq, Structural)]
pub enum IdentifyCdw10Field {
    /// Controller or namespace structure.
    CNS,
    /// Reserved.
    Reserved,
    /// Controller identifier.
    CNTID,
}

impl IdentifyCdw10Field {
    pub open spec fn spec_layout(self) -> BitField {
        match self {
            IdentifyCdw10Field::CNS => BitField { offset: 0, width: 8 },
            IdentifyCdw10Field::Reserved => BitField { offset: 8, width: 8 },
            IdentifyCdw10Field::CNTID => BitField { offset: 16, width: 16 },
        }
    }

    #[verifier::when_used_as_spec(spec_layout)]
    pub fn layout(self) -> (r: BitField)
        ensures
            r == self.spec_layout(),
            r.wf(),
    {
        match self {
            IdentifyCdw10Field::CNS => BitField { offset: 0, width: 8 },
            IdentifyCdw10Field::Reserved => BitField { offset: 8, width: 8 },
            IdentifyCdw10Field::CNTID => BitField { offset: 16, width: 16 },
        }
    }
}


/// An NVMe admin or I/O command: the 64-byte submission queue entry, dword by dword.
#[allow(non_camel_case_types)]
#[derive(Clone, Copy, Debug, PartialEq, Eq, Structural)]
pub struct NVME_COMMAND {
    /// Opcode, fused operation, PSDT and command identifier (see `CommandDword0Field`).
    pub cdw0: u32,
    pub nsid: u32,
    pub reserved0: u32,
    pub reserved1: u32,
    /// Metadata pointer.
    pub mptr: u64,
    pub prp1: u64,
    pub prp2: u64,
    /// The command-specific dwords; their shape is selected by the opcode.
    pub cdw10: u32,
    pub cdw11: u32,
    pub cdw12: u32,
    pub cdw13: u32,
    pub cdw14: u32,
    pub cdw15: u32,
}

/// The 64 bytes of a command, each dword little-endian.
pub open spec fn command_bytes(c: NVME_COMMAND) -> Seq<u8> {
    le_bytes_u32(c.cdw0) + le_bytes_u32(c.nsid) + le_bytes_u32(c.reserved0) + le_bytes_u32(
        c.reserved1,
    ) + le_bytes_u64(c.mptr) + le_bytes_u64(c.prp1) + le_bytes_u64(c.prp2) + le_bytes_u32(c.cdw10)
        + le_bytes_u32(c.cdw11) + le_bytes_u32(c.cdw12) + le_bytes_u32(c.cdw13) + le_bytes_u32(
        c.cdw14,
    ) + le_bytes_u32(c.cdw15)
}

/// The command with every dword zero.
pub open spec fn zero_command() -> NVME_COMMAND {
    NVME_COMMAND {
        cdw0: 0,
        nsid: 0,
        reserved0: 0,
        reserved1: 0,
        mptr: 0,
        prp1: 0,
        prp2: 0,
        cdw10: 0,
        cdw11: 0,
        cdw12: 0,
        cdw13: 0,
        cdw14: 0,
        cdw15: 0,
    }
}

impl Default for NVME_COMMAND {
    fn default() -> (r: Self)
        ensures
            r == zero_command(),
    {
        NVME_COMMAND {
            cdw0: 0,
            nsid: 0,
            reserved0: 0,
            reserved1: 0,
            mptr: 0,
            prp1: 0,
            prp2: 0,
            cdw10: 0,
            cdw11: 0,
            cdw12: 0,
            cdw13: 0,
            cdw14: 0,
            cdw15: 0,
        }
    }
}

impl NVME_COMMAND {
    /// The opcode field of dword 0.
    pub open spec fn spec_opcode(self) -> u32 {
        CommandDword0Field::OPC.spec_layout().spec_get(self.cdw0)
    }

    /// Reads the opcode out of dword 0.
    pub fn get_opcode(&self) -> (r: u8)
        ensures
            r == self.spec_opcode(),
    {
        proof {
            lemma_low_mask_values();
        }
        CommandDword0Field::OPC.layout().get(self.cdw0) as u8
    }

    /// Sets the opcode; the other fields of dword 0 are kept.
    pub fn opcode(&mut self, opc: u8)
        ensures
            *final(self) == (NVME_COMMAND {
                cdw0: CommandDword0Field::OPC.spec_layout().spec_set(old(self).cdw0, opc as u32),
                ..*old(self)
            }),
            final(self).spec_opcode() == opc,
    {
        proof {
            lemma_low_mask_values();
        }
        self.cdw0 = CommandDword0Field::OPC.layout().set(self.cdw0, opc as u32);
    }

    pub fn nsid(&mut self, nsid: u32)
        ensures
            *final(self) == (NVME_COMMAND { nsid, ..*old(self) }),
    {
        self.nsid = nsid;
    }

    pub fn cdw10(&mut self, value: u32)
        ensures
            *final(self) == (NVME_COMMAND { cdw10: value, ..*old(self) }),
    {
        self.cdw10 = value;
    }

    pub fn cdw11(&mut self, value: u32)
        ensures
            *final(self) == (NVME_COMMAND { cdw11: value, ..*old(self) }),
    {
        self.cdw11 = value;
    }

    pub fn cdw12(&mut self, value: u32)
        ensures
            *final(self) == (NVME_COMMAND { cdw12: value, ..*old(self) }),
    {
        self.cdw12 = value;
    }

    pub fn cdw13(&mut self, value: u32)
        ensures
            *final(self) == (NVME_COMMAND { cdw13: value, ..*old(self) }),
    {
        self.cdw13 = value;
    }

    pub fn cdw14(&mut self, value: u32)
        ensures
            *final(self) == (NVME_COMMAND { cdw14: value, ..*old(self) }),
    {
        self.cdw14 = value;
    }

    pub fn cdw15(&mut self, value: u32)
        ensures
            *final(self) == (NVME_COMMAND { cdw15: value, ..*old(self) }),
    {
        self.cdw15 = value;
    }

    /// Sets the CNS field of an Identify command's dword 10; the rest of dword 10 is kept.
    pub fn identify(&mut self, cns: u8)
        ensures
            *final(self) == (NVME_COMMAND {
                cdw10: IdentifyCdw10Field::CNS.spec_layout().spec_set(old(self).cdw10, cns as u32),
                ..*old(self)
            }),
            IdentifyCdw10Field::CNS.spec_layout().spec_get(final(self).cdw10) == cns,
    {
        proof {
            lemma_low_mask_values();
        }
        self.cdw10 = IdentifyCdw10Field::CNS.layout().set(self.cdw10, cns as u32);
    }

    /// The command as it is handed to the device.
    pub fn to_bytes(&self) -> (r: Vec<u8>)
        ensures
            r@ == command_bytes(*self),
            r@.len() == NVME_COMMAND_SIZE,
    {
        let mut out: Vec<u8> = Vec::new();
        push_le_u32(&mut out, self.cdw0);
        push_le_u32(&mut out, self.nsid);
        push_le_u32(&mut out, self.reserved0);
        push_le_u32(&mut out, self.reserved1);
        push_le_u64(&mut out, self.mptr);
        push_le_u64(&mut out, self.prp1);
        push_le_u64(&mut out, self.prp2);
        push_le_u32(&mut out, self.cdw10);
        push_le_u32(&mut out, self.cdw11);
        push_le_u32(&mut out, self.cdw12);
        push_le_u32(&mut out, self.cdw13);
        push_le_u32(&mut out, self.cdw14);
        push_le_u32(&mut out, self.cdw15);
        assert(out@ =~= command_bytes(*self));
        out
    }
}

} // verus!
