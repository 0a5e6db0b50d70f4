//! Vendor-specific two-phase pass-through: an admin command travels as the parameter
//! buffer of a vendor write command, and its data follows in a second command.
use vstd::prelude::*;

use crate::command::{command_bytes, CommandDword0Field, IdentifyCdw10Field, NVME_COMMAND, zero_command};
use crate::identify::{decode_namespace_list, is_namespace_list_of};
use crate::status::NVME_COMMAND_STATUS;
use crate::transport::TransportError;

verus! {

/// Direction bits of a pass-through command.
#[allow(non_camel_case_types, clippy::upper_case_acronyms)]
#[derive(Clone, Copy, Debug, PartialEq, Eq, Structural)]
pub enum NvmeOpcodeType {
    NOBUFFER,
    WRITE,
    READ,
    READWRITE,
}

impl NvmeOpcodeType {
    pub open spec fn spec_value(self) -> u8 {
        match self {
            NvmeOpcodeType::NOBUFFER => 0,
            NvmeOpcodeType::WRITE => 1,
            NvmeOpcodeType::READ => 2,
            NvmeOpcodeType::READWRITE => 3,
        }
    }

    #[verifier::when_used_as_spec(spec_value)]
    pub fn value(self) -> (r: u8)
        ensures
            r == self.spec_value(),
    {
        match self {
            NvmeOpcodeType::NOBUFFER => 0,
            NvmeOpcodeType::WRITE => 1,
            NvmeOpcodeType::READ => 2,
            NvmeOpcodeType::READWRITE => 3,
        }
    }
}

/// Opcodes of the vendor-specific pass-through commands.
#[derive(Clone, Copy, Debug, PartialEq, Eq, Structural)]
pub enum NvmeVscOpcode {
    NonData,
    Write,
    Read,
}

impl NvmeVscOpcode {
    pub open spec fn spec_value(self) -> u8 {
        match self {
            NvmeVscOpcode::NonData => 0xf0,
            NvmeVscOpcode::Write => 0xf1,
            NvmeVscOpcode::Read => 0xf2,
        }
    }

    #[verifier::when_used_as_spec(spec_value)]
    pub fn value(self) -> (r: u8)
        ensures
            r == self.spec_value(),
    {
        match self {
            NvmeVscOpcode::NonData => 0xf0,
            NvmeVscOpcode::Write => 0xf1,
            NvmeVscOpcode::Read => 0xf2,
        }
    }
}

impl Default for NvmeVscOpcode {
    fn default() -> (r: Self)
        ensures
            r == NvmeVscOpcode::NonData,
    {
        NvmeVscOpcode::NonData
    }
}

/// Bytes of the parameter buffer of the vendor-specific write.
pub const NVME_DATA_BUFFER_SIZE: usize = 4096;

pub const VS_STD_NVME_CMD_TYPE_READ: u32 = 0x8306_1400;

pub const VS_STD_NVME_CMD_TYPE_WRITE: u32 = 0x8306_1401;

pub const VS_STD_NVME_CMD_TYPE_NON_DATA: u32 = 0x8306_1402;

/// What the admin pass-through sends: the data direction, the sub-opcode that names it,
/// and the parameter buffer that carries the admin command.
#[derive(Debug)]
pub struct VscPlan {
    pub direction: u8,
    pub sub_opcode: u32,
    pub param: Vec<u8>,
}

/// The data direction of an admin command: the low two opcode bits, or none without a buffer.
pub open spec fn admin_direction(cmd: NVME_COMMAND, has_data: bool) -> u8 {
    if has_data {
        (cmd.spec_opcode() & 3) as u8
    } else {
        0
    }
}

/// The parameter buffer: the command's 64 bytes, then zeros up to the buffer size.
pub open spec fn admin_param_buffer(cmd: NVME_COMMAND) -> Seq<u8> {
    command_bytes(cmd) + Seq::new((NVME_DATA_BUFFER_SIZE - 64) as nat, |_i: int| 0u8)
}

/// Plans the vendor-specific pass-through of an admin command. A command that both
/// reads and writes cannot be carried.
pub fn vsc_admin_plan(cmd: &NVME_COMMAND, has_data: bool) -> (r: Result<VscPlan, TransportError>)
    ensures
        admin_direction(*cmd, has_data) == 3 ==> r == Err::<VscPlan, TransportError>(
            TransportError::NotSupported,
        ),
        admin_direction(*cmd, has_data) != 3 ==> (r matches Ok(p) && p.direction == admin_direction(
            *cmd,
            has_data,
        ) && p.sub_opcode == (if p.direction == 0 {
            VS_STD_NVME_CMD_TYPE_NON_DATA
        } else if p.direction == 1 {
            VS_STD_NVME_CMD_TYPE_WRITE
        } else {
            VS_STD_NVME_CMD_TYPE_READ
        }) && p.param@ == admin_param_buffer(*cmd)),
{
    let opc = cmd.get_opcode();
    let direction: u8 = if has_data {
        opc & 3
    } else {
        0
    };
    assert(opc & 3 <= 3) by (bit_vector);
    let sub_opcode = if direction == 0 {
        VS_STD_NVME_CMD_TYPE_NON_DATA
    } else if direction == 1 {
        VS_STD_NVME_CMD_TYPE_WRITE
    } else if direction == 2 {
        VS_STD_NVME_CMD_TYPE_READ
    } else {
        return Err(TransportError::NotSupported);
    };
    let mut param = cmd.to_bytes();
    let mut i: usize = 64;
    while i < NVME_DATA_BUFFER_SIZE
        invariant
            64 <= i <= NVME_DATA_BUFFER_SIZE,
            param@ == command_bytes(*cmd) + Seq::new((i - 64) as nat, |_i: int| 0u8),
        decreases NVME_DATA_BUFFER_SIZE - i,
    {
        param.push(0u8);
        i = i + 1;
        assert(param@ =~= command_bytes(*cmd) + Seq::new((i - 64) as nat, |_i: int| 0u8));
    }
    Ok(VscPlan { direction, sub_opcode, param })
}

/// The parameter-phase command: a vendor write of `param_len` bytes, counted in dwords.
pub open spec fn vsc_param_command_of(sub_opcode: u32, nsid: u32, param_len: nat) -> NVME_COMMAND {
    NVME_COMMAND {
        cdw0: CommandDword0Field::OPC.spec_layout().spec_set(0, NvmeVscOpcode::Write.spec_value() as u32),
        nsid,
        cdw10: (param_len / 4) as u32,
        cdw12: sub_opcode,
        ..zero_command()
    }
}

/// Builds the parameter-phase command; it is sent in the write direction.
pub fn vsc_param_command(sub_opcode: u32, nsid: u32, param_len: usize) -> (r: NVME_COMMAND)
    requires
        param_len / 4 <= u32::MAX,
    ensures
        r == vsc_param_command_of(sub_opcode, nsid, param_len as nat),
{
    let mut nc = NVME_COMMAND::default();
    nc.opcode(NvmeVscOpcode::Write.value());
    nc.nsid(nsid);
    nc.cdw10((param_len / 4) as u32);
    nc.cdw12(sub_opcode);
    nc
}

/// The data-phase command: the parameter-phase command with opcode `F0h | direction`,
/// the data length in dwords, the sub-opcode again, and dword 14 set to 1.
pub open spec fn vsc_data_command_of(
    param_cmd: NVME_COMMAND,
    direction: u8,
    sub_opcode: u32,
    data_len: nat,
) -> NVME_COMMAND {
    NVME_COMMAND {
        cdw0: CommandDword0Field::OPC.spec_layout().spec_set(
            param_cmd.cdw0,
            (NvmeVscOpcode::NonData.spec_value() | direction) as u32,
        ),
        cdw10: (data_len / 4) as u32,
        cdw12: sub_opcode,
        cdw14: 1,
        ..param_cmd
    }
}

/// Decides what follows the parameter phase: the data phase (its transfer direction and
/// command) when the admin command moves data and the parameter phase succeeded;
/// otherwise `None`, and the parameter phase's completion is the result.
pub fn vsc_after_param(
    param_cmd: &NVME_COMMAND,
    param_status: NVME_COMMAND_STATUS,
    direction: u8,
    sub_opcode: u32,
    data_len: usize,
) -> (r: Option<(u8, NVME_COMMAND)>)
    requires
        data_len / 4 <= u32::MAX,
    ensures
        (direction == 0 || !param_status.spec_is_success()) ==> r is None,
        (direction != 0 && param_status.spec_is_success()) ==> r == Some(
            (
                (NvmeOpcodeType::NOBUFFER.spec_value() | direction) as u8,
                vsc_data_command_of(*param_cmd, direction, sub_opcode, data_len as nat),
            ),
        ),
{
    if direction == 0 || !param_status.is_success() {
        return None;
    }
    let mut nc = *param_cmd;
    nc.opcode(NvmeVscOpcode::NonData.value() | direction);
    nc.cdw10((data_len / 4) as u32);
    nc.cdw12(sub_opcode);
    nc.cdw14(1);
    Some((NvmeOpcodeType::NOBUFFER.value() | direction, nc))
}

/// Identify of the namespace list: the allocated list when `all`, else the active one,
/// of namespaces above `nsid`.
pub open spec fn identify_ns_list_command_of(nsid: u32, all: bool) -> NVME_COMMAND {
    NVME_COMMAND {
        cdw0: CommandDword0Field::OPC.spec_layout().spec_set(0, 0x06),
        nsid,
        cdw10: IdentifyCdw10Field::CNS.spec_layout().spec_set(
            0,
            if all {
                0x10
            } else {
                0x02
            },
        ),
        ..zero_command()
    }
}

pub fn identify_ns_list_command(nsid: u32, all: bool) -> (r: NVME_COMMAND)
    ensures
        r == identify_ns_list_command_of(nsid, all),
{
    let cns: u8 = if all {
        0x10
    } else {
        0x02
    };
    let mut nc = NVME_COMMAND::default();
    nc.opcode(0x06);
    nc.nsid(nsid);
    nc.identify(cns);
    nc
}

/// The namespace list out of a completed identify: the decoded list on success, the
/// status fields as a protocol error otherwise.
pub fn namespace_list_result(status: NVME_COMMAND_STATUS, buffer: &[u8]) -> (r: Result<
    Vec<u32>,
    TransportError,
>)
    ensures
        status.spec_is_success() ==> (r matches Ok(l) && is_namespace_list_of(l@, buffer@)),
        !status.spec_is_success() ==> r == Err::<Vec<u32>, TransportError>(
            TransportError::Protocol { code_type: status.spec_sct(), code: status.spec_sc() },
        ),
{
    if status.is_success() {
        Ok(decode_namespace_list(buffer))
    } else {
        Err(TransportError::Protocol { code_type: status.SCT(), code: status.SC() })
    }
}

} // verus!
