//! Pass-through buffers of the generic storage-protocol ioctls, laid out byte by byte:
//! the protocol command that carries a raw NVMe command, and the property query / set
//! that carry a protocol-specific data descriptor.
use vstd::prelude::*;

use crate::bytes::{copy_range, le_bytes_u32, le_u32_at, push_le_u32, read_le_u32};
use crate::command::{command_bytes, NVME_COMMAND, NVME_COMMAND_SIZE};
use crate::status::NVME_COMMAND_STATUS;

verus! {

/// Offset of the NVMe command inside the protocol-command buffer (the fixed header before it).
pub const PROTOCOL_COMMAND_HEADER_LEN: usize = 80;

/// The structure length that the protocol-command header reports of itself.
pub const PROTOCOL_COMMAND_STRUCT_LEN: u32 = 84;

pub const STORAGE_PROTOCOL_STRUCTURE_VERSION: u32 = 1;

pub const PROTOCOL_TYPE_NVME: u32 = 3;

/// The command goes to the adapter, not to a namespace.
pub const PROTOCOL_COMMAND_FLAG_ADAPTER_REQUEST: u32 = 0x8000_0000;

pub const PROTOCOL_SPECIFIC_NVME_ADMIN_COMMAND: u32 = 1;

/// Seconds a protocol command may take.
pub const PROTOCOL_COMMAND_TIMEOUT_SECS: u32 = 30;

/// Direction code of a protocol command that sends data to the device.
pub const DIRECTION_TO_DEVICE: u8 = 1;

/// Direction code of a protocol command that reads data from the device.
pub const DIRECTION_FROM_DEVICE: u8 = 2;

/// Offset of the additional parameters of a property query or set.
pub const PROPERTY_HEADER_LEN: usize = 8;

/// Bytes of the protocol-specific data of a query.
pub const PROTOCOL_SPECIFIC_DATA_LEN: u32 = 40;

/// Bytes of the extended protocol-specific data of a set.
pub const PROTOCOL_SPECIFIC_DATA_EXT_LEN: u32 = 64;

/// Bytes of the data descriptor that a query or set returns; its version and size fields
/// must both report this.
pub const DATA_DESCRIPTOR_LEN: u32 = 48;

/// Property of protocol-specific data addressed to the adapter.
pub const PROPERTY_ADAPTER_PROTOCOL_SPECIFIC: u32 = 49;

/// Property of protocol-specific data addressed to the device.
pub const PROPERTY_DEVICE_PROTOCOL_SPECIFIC: u32 = 50;

pub const NVME_DATA_TYPE_IDENTIFY: u32 = 1;

pub const NVME_DATA_TYPE_LOG_PAGE: u32 = 2;

pub const NVME_DATA_TYPE_FEATURE: u32 = 3;

/// Largest log page the query path asks for.
pub const NVME_MAX_LOG_SIZE: u32 = 4096;

/// Why a pass-through exchange failed on the host side of the ioctl.
#[derive(Clone, Copy, Debug, PartialEq, Eq, Structural)]
pub enum TransportError {
    /// The returned buffer is shorter than the regions it claims to hold.
    Truncated,
    /// The returned data descriptor does not report the expected version and size.
    InvalidDescriptor,
    /// The command cannot be carried by this path.
    NotSupported,
    /// The device completed the command with a non-success status.
    Protocol { code_type: u8, code: u8 },
}

/// 32-bit words, each little-endian, one after the other.
pub open spec fn le_words(ws: Seq<u32>) -> Seq<u8>
    decreases ws.len(),
{
    if ws.len() == 0 {
        Seq::empty()
    } else {
        le_words(ws.drop_last()) + le_bytes_u32(ws.last())
    }
}

/// `n` zero bytes.
pub open spec fn zeros(n: nat) -> Seq<u8> {
    Seq::new(n, |_i: int| 0u8)
}

pub proof fn lemma_le_words_len(ws: Seq<u32>)
    ensures
        le_words(ws).len() == 4 * ws.len(),
    decreases ws.len(),
{
    if ws.len() > 0 {
        lemma_le_words_len(ws.drop_last());
    }
}

/// Appends each word of `ws` in little-endian order.
fn push_le_words(v: &mut Vec<u8>, ws: &[u32])
    ensures
        final(v)@ == old(v)@ + le_words(ws@),
{
    let mut i: usize = 0;
    while i < ws.len()
        invariant
            i <= ws@.len(),
            v@ == old(v)@ + le_words(ws@.subrange(0, i as int)),
        decreases ws@.len() - i,
    {
        push_le_u32(v, ws[i]);
        i = i + 1;
        assert(ws@.subrange(0, i as int).drop_last() =~= ws@.subrange(0, i - 1));
    }
    assert(ws@.subrange(0, i as int) =~= ws@);
}

/// Appends `n` zero bytes.
fn push_zeros(v: &mut Vec<u8>, n: usize)
    ensures
        final(v)@ == old(v)@ + zeros(n as nat),
{
    let mut i: usize = 0;
    while i < n
        invariant
            i <= n,
            v@ == old(v)@ + zeros(i as nat),
        decreases n - i,
    {
        v.push(0u8);
        i = i + 1;
        assert(v@ =~= old(v)@ + zeros(i as nat));
    }
}

/// Appends the bytes of `s`.
fn push_bytes(v: &mut Vec<u8>, s: &[u8])
    ensures
        final(v)@ == old(v)@ + s@,
{
    let mut i: usize = 0;
    while i < s.len()
        invariant
            i <= s@.len(),
            v@ == old(v)@ + s@.subrange(0, i as int),
        decreases s@.len() - i,
    {
        v.push(s[i]);
        i = i + 1;
        assert(v@ =~= old(v)@ + s@.subrange(0, i as int));
    }
    assert(s@.subrange(0, i as int) =~= s@);
}

/// Bytes the device is sent, by direction.
pub open spec fn to_device_len(direction: u8, n: nat) -> nat {
    if direction == DIRECTION_TO_DEVICE {
        n
    } else {
        0
    }
}

/// Bytes the device sends back, by direction.
pub open spec fn from_device_len(direction: u8, n: nat) -> nat {
    if direction == DIRECTION_FROM_DEVICE {
        n
    } else {
        0
    }
}

/// Offset of the command's error-info region: right after the command.
pub open spec fn error_info_offset() -> nat {
    (PROTOCOL_COMMAND_HEADER_LEN + NVME_COMMAND_SIZE) as nat
}

/// The header of a protocol command whose data region holds `n` bytes. Regions follow
/// one another: command, error info (empty), data to device, data from device.
pub open spec fn protocol_command_header(direction: u8, n: nat) -> Seq<u32> {
    let to_len = to_device_len(direction, n);
    let from_len = from_device_len(direction, n);
    let err_off = error_info_offset();
    seq![
        STORAGE_PROTOCOL_STRUCTURE_VERSION,
        PROTOCOL_COMMAND_STRUCT_LEN,
        PROTOCOL_TYPE_NVME,
        PROTOCOL_COMMAND_FLAG_ADAPTER_REQUEST,
        0u32,
        0u32,
        NVME_COMMAND_SIZE as u32,
        0u32,
        to_len as u32,
        from_len as u32,
        PROTOCOL_COMMAND_TIMEOUT_SECS,
        err_off as u32,
        err_off as u32,
        (err_off + to_len) as u32,
        PROTOCOL_SPECIFIC_NVME_ADMIN_COMMAND,
        0u32,
        0u32,
        0u32,
        0u32,
        0u32,
    ]
}

/// The whole protocol-command buffer: header, command, then the data region, which holds
/// the payload when it goes to the device and is zeroed for the device to fill otherwise.
pub open spec fn protocol_command_buffer(cmd: NVME_COMMAND, direction: u8, data: Seq<u8>) -> Seq<
    u8,
> {
    le_words(protocol_command_header(direction, data.len())) + command_bytes(cmd) + (
    if direction == DIRECTION_TO_DEVICE {
        data
    } else {
        zeros(data.len())
    })
}

/// Lays out the buffer of a protocol-command ioctl carrying `cmd` and, for the
/// direction, `data`.
pub fn build_protocol_command(cmd: &NVME_COMMAND, direction: u8, data: &[u8]) -> (r: Vec<u8>)
    requires
        data@.len() + error_info_offset() <= u32::MAX,
    ensures
        r@ == protocol_command_buffer(*cmd, direction, data@),
        r@.len() == error_info_offset() + data@.len(),
{
    let n = data.len();
    let err_off: u32 = (PROTOCOL_COMMAND_HEADER_LEN + NVME_COMMAND_SIZE) as u32;
    let to_len: u32 = if direction == DIRECTION_TO_DEVICE {
        n as u32
    } else {
        0
    };
    let from_len: u32 = if direction == DIRECTION_FROM_DEVICE {
        n as u32
    } else {
        0
    };
    let header: [u32; 20] = [
        STORAGE_PROTOCOL_STRUCTURE_VERSION,
        PROTOCOL_COMMAND_STRUCT_LEN,
        PROTOCOL_TYPE_NVME,
        PROTOCOL_COMMAND_FLAG_ADAPTER_REQUEST,
        0,
        0,
        NVME_COMMAND_SIZE as u32,
        0,
        to_len,
        from_len,
        PROTOCOL_COMMAND_TIMEOUT_SECS,
        err_off,
        err_off,
        err_off + to_len,
        PROTOCOL_SPECIFIC_NVME_ADMIN_COMMAND,
        0,
        0,
        0,
        0,
        0,
    ];
    let mut out: Vec<u8> = Vec::new();
    push_le_words(&mut out, header.as_slice());
    assert(header@ =~= protocol_command_header(direction, data@.len()));
    let cmd_bytes = cmd.to_bytes();
    push_bytes(&mut out, cmd_bytes.as_slice());
    if direction == DIRECTION_TO_DEVICE {
        push_bytes(&mut out, data);
    } else {
        push_zeros(&mut out, n);
    }
    proof {
        lemma_le_words_len(header@);
    }
    out
}

/// What a completed protocol command hands back.
#[derive(Debug)]
pub struct ProtocolCommandResult {
    /// The 16-bit completion status.
    pub status: NVME_COMMAND_STATUS,
    /// Completion dword 0.
    pub completion_dw0: u32,
    /// The data-from-device region, for a command that reads.
    pub data: Vec<u8>,
}

/// Offsets of the fields that a completed protocol command is read from.
pub open spec fn pc_error_code(s: Seq<u8>) -> u32 {
    le_u32_at(s, 20)
}

pub open spec fn pc_from_device_len(s: Seq<u8>) -> u32 {
    le_u32_at(s, 36)
}

pub open spec fn pc_from_device_offset(s: Seq<u8>) -> u32 {
    le_u32_at(s, 52)
}

pub open spec fn pc_fixed_return(s: Seq<u8>) -> u32 {
    le_u32_at(s, 64)
}

/// Reads status, completion dword 0 and, for a read, the data-from-device region out of
/// a protocol-command buffer the ioctl has completed.
pub fn parse_protocol_command(buf: &[u8], direction: u8) -> (r: Result<
    ProtocolCommandResult,
    TransportError,
>)
    ensures
        buf@.len() < PROTOCOL_COMMAND_HEADER_LEN ==> r == Err::<
            ProtocolCommandResult,
            TransportError,
        >(TransportError::Truncated),
        buf@.len() >= PROTOCOL_COMMAND_HEADER_LEN && direction == DIRECTION_FROM_DEVICE
            && pc_from_device_offset(buf@) + pc_from_device_len(buf@) > buf@.len() ==> r == Err::<
            ProtocolCommandResult,
            TransportError,
        >(TransportError::Truncated),
        buf@.len() >= PROTOCOL_COMMAND_HEADER_LEN && !(direction == DIRECTION_FROM_DEVICE
            && pc_from_device_offset(buf@) + pc_from_device_len(buf@) > buf@.len()) ==> (r matches Ok(
            res,
        ) && res.status.bits == pc_error_code(buf@) as u16 && res.completion_dw0 == pc_fixed_return(
            buf@,
        ) && (direction == DIRECTION_FROM_DEVICE ==> res.data@ == buf@.subrange(
            pc_from_device_offset(buf@) as int,
            pc_from_device_offset(buf@) + pc_from_device_len(buf@),
        )) && (direction != DIRECTION_FROM_DEVICE ==> res.data@.len() == 0)),
{
    let n = buf.len();
    if n < PROTOCOL_COMMAND_HEADER_LEN {
        return Err(TransportError::Truncated);
    }
    let error_code = read_le_u32(buf, 20);
    let dw0 = read_le_u32(buf, 64);
    let data = if direction == DIRECTION_FROM_DEVICE {
        let len = read_le_u32(buf, 36) as usize;
        let off = read_le_u32(buf, 52) as usize;
        if off > n || len > n - off {
            return Err(TransportError::Truncated);
        }
        copy_range(buf, off, off + len)
    } else {
        Vec::new()
    };
    Ok(
        ProtocolCommandResult {
            status: NVME_COMMAND_STATUS::from_bits(error_code as u16),
            completion_dw0: dw0,
            data,
        },
    )
}

/// The protocol-specific data of a query: what is asked and where its answer goes.
pub open spec fn query_specific_data(data_type: u32, value: u32, sub_value: u32, length: u32) -> Seq<
    u32,
> {
    seq![
        PROTOCOL_TYPE_NVME,
        data_type,
        value,
        sub_value,
        if length > 0 { PROTOCOL_SPECIFIC_DATA_LEN } else { 0u32 },
        length,
        0u32,
        0u32,
        0u32,
        0u32,
    ]
}

/// The buffer of a property query: property id, standard query, the protocol-specific
/// data, then room for `length` bytes of answer.
pub open spec fn property_query_buffer(
    property_id: u32,
    data_type: u32,
    value: u32,
    sub_value: u32,
    length: u32,
) -> Seq<u8> {
    le_words(seq![property_id, 0u32] + query_specific_data(data_type, value, sub_value, length))
        + zeros(length as nat)
}

/// Lays out a property-query ioctl buffer asking for protocol-specific data.
pub fn build_property_query(
    property_id: u32,
    data_type: u32,
    value: u32,
    sub_value: u32,
    length: u32,
) -> (r: Vec<u8>)
    ensures
        r@ == property_query_buffer(property_id, data_type, value, sub_value, length),
{
    let offset: u32 = if length > 0 {
        PROTOCOL_SPECIFIC_DATA_LEN
    } else {
        0
    };
    let words: [u32; 12] = [
        property_id,
        0,
        PROTOCOL_TYPE_NVME,
        data_type,
        value,
        sub_value,
        offset,
        length,
        0,
        0,
        0,
        0,
    ];
    let mut out: Vec<u8> = Vec::new();
    push_le_words(&mut out, words.as_slice());
    assert(words@ =~= seq![property_id, 0u32] + query_specific_data(
        data_type,
        value,
        sub_value,
        length,
    ));
    push_zeros(&mut out, length as usize);
    out
}

/// The buffer of a property set: property id, standard set, the extended protocol-specific
/// data, then `length` bytes of payload room.
pub open spec fn property_set_buffer(
    property_id: u32,
    data_type: u32,
    value: u32,
    sub_value: u32,
    length: u32,
) -> Seq<u8> {
    le_words(
        seq![
            property_id,
            0u32,
            PROTOCOL_TYPE_NVME,
            data_type,
            value,
            sub_value,
            PROTOCOL_SPECIFIC_DATA_EXT_LEN,
            length,
            0u32,
            0u32,
            0u32,
            0u32,
            0u32,
            0u32,
            0u32,
            0u32,
            0u32,
            0u32,
        ],
    ) + zeros(length as nat)
}

/// Lays out a property-set ioctl buffer carrying protocol-specific data.
pub fn build_property_set(
    property_id: u32,
    data_type: u32,
    value: u32,
    sub_value: u32,
    length: u32,
) -> (r: Vec<u8>)
    ensures
        r@ == property_set_buffer(property_id, data_type, value, sub_value, length),
{
    let words: [u32; 18] = [
        property_id,
        0,
        PROTOCOL_TYPE_NVME,
        data_type,
        value,
        sub_value,
        PROTOCOL_SPECIFIC_DATA_EXT_LEN,
        length,
        0,
        0,
        0,
        0,
        0,
        0,
        0,
        0,
        0,
        0,
    ];
    let mut out: Vec<u8> = Vec::new();
    push_le_words(&mut out, words.as_slice());
    assert(words@ =~= seq![
        property_id,
        0u32,
        PROTOCOL_TYPE_NVME,
        data_type,
        value,
        sub_value,
        PROTOCOL_SPECIFIC_DATA_EXT_LEN,
        length,
        0u32,
        0u32,
        0u32,
        0u32,
        0u32,
        0u32,
        0u32,
        0u32,
        0u32,
        0u32,
    ]);
    push_zeros(&mut out, length as usize);
    out
}

/// The answer that a property query or set returns.
#[derive(Debug)]
pub struct ProtocolDataResponse {
    /// The protocol data that the descriptor points at.
    pub data: Vec<u8>,
    /// The fixed return data of the descriptor (completion dword 0 of a feature command).
    pub fixed_return: u32,
}

/// Fields of the returned data descriptor.
pub open spec fn dd_version(s: Seq<u8>) -> u32 {
    le_u32_at(s, 0)
}

pub open spec fn dd_size(s: Seq<u8>) -> u32 {
    le_u32_at(s, 4)
}

/// Offset of the protocol data, counted from the protocol-specific data at byte 8.
pub open spec fn dd_data_offset(s: Seq<u8>) -> u32 {
    le_u32_at(s, 24)
}

pub open spec fn dd_data_len(s: Seq<u8>) -> u32 {
    le_u32_at(s, 28)
}

pub open spec fn dd_fixed_return(s: Seq<u8>) -> u32 {
    le_u32_at(s, 32)
}

/// The descriptor reports the expected version and size.
pub open spec fn dd_valid(s: Seq<u8>) -> bool {
    s.len() >= DATA_DESCRIPTOR_LEN && dd_version(s) == DATA_DESCRIPTOR_LEN && dd_size(s)
        == DATA_DESCRIPTOR_LEN
}

/// Start of the protocol data in the returned buffer.
pub open spec fn dd_data_start(s: Seq<u8>) -> int {
    PROPERTY_HEADER_LEN + dd_data_offset(s)
}

/// Checks the data descriptor at the start of a completed query or set buffer and reads
/// the protocol data it points at.
pub fn parse_protocol_data_descriptor(buf: &[u8]) -> (r: Result<
    ProtocolDataResponse,
    TransportError,
>)
    ensures
        !dd_valid(buf@) ==> r == Err::<ProtocolDataResponse, TransportError>(
            TransportError::InvalidDescriptor,
        ),
        dd_valid(buf@) && dd_data_start(buf@) + dd_data_len(buf@) > buf@.len() ==> r == Err::<
            ProtocolDataResponse,
            TransportError,
        >(TransportError::Truncated),
        dd_valid(buf@) && dd_data_start(buf@) + dd_data_len(buf@) <= buf@.len() ==> (r matches Ok(
            res,
        ) && res.data@ == buf@.subrange(
            dd_data_start(buf@),
            dd_data_start(buf@) + dd_data_len(buf@),
        ) && res.fixed_return == dd_fixed_return(buf@)),
{
    let n = buf.len();
    if n < DATA_DESCRIPTOR_LEN as usize {
        return Err(TransportError::InvalidDescriptor);
    }
    let version = read_le_u32(buf, 0);
    let size = read_le_u32(buf, 4);
    if version != DATA_DESCRIPTOR_LEN || size != DATA_DESCRIPTOR_LEN {
        return Err(TransportError::InvalidDescriptor);
    }
    let off = read_le_u32(buf, 24) as usize;
    let len = read_le_u32(buf, 28) as usize;
    let fixed = read_le_u32(buf, 32);
    if off > n || PROPERTY_HEADER_LEN > n - off || len > n - off - PROPERTY_HEADER_LEN {
        return Err(TransportError::Truncated);
    }
    let start = PROPERTY_HEADER_LEN + off;
    Ok(ProtocolDataResponse { data: copy_range(buf, start, start + len), fixed_return: fixed })
}

/// Query buffer of an Identify with controller-or-namespace structure `cns` for namespace `nsid`.
pub fn identify_query(cns: u32, nsid: u32) -> (r: Vec<u8>)
    ensures
        r@ == property_query_buffer(
            PROPERTY_ADAPTER_PROTOCOL_SPECIFIC,
            NVME_DATA_TYPE_IDENTIFY,
            cns,
            nsid,
            4096,
        ),
{
    build_property_query(PROPERTY_ADAPTER_PROTOCOL_SPECIFIC, NVME_DATA_TYPE_IDENTIFY, cns, nsid, 4096)
}

/// Query buffer of a Get Log Page of log `lid`; the log id is not checked here, the device
/// rejects one it does not know.
pub fn logpage_query(lid: u32, cdw11: u32) -> (r: Vec<u8>)
    ensures
        r@ == property_query_buffer(
            PROPERTY_DEVICE_PROTOCOL_SPECIFIC,
            NVME_DATA_TYPE_LOG_PAGE,
            lid,
            cdw11,
            NVME_MAX_LOG_SIZE,
        ),
{
    build_property_query(
        PROPERTY_DEVICE_PROTOCOL_SPECIFIC,
        NVME_DATA_TYPE_LOG_PAGE,
        lid,
        cdw11,
        NVME_MAX_LOG_SIZE,
    )
}

/// Query buffer of a Get Features with dword 10 `cdw10`; the value comes back as the
/// descriptor's fixed return data.
pub fn getfeature_query(cdw10: u32, cdw11: u32) -> (r: Vec<u8>)
    ensures
        r@ == property_query_buffer(
            PROPERTY_DEVICE_PROTOCOL_SPECIFIC,
            NVME_DATA_TYPE_FEATURE,
            cdw10,
            cdw11,
            0,
        ),
{
    build_property_query(PROPERTY_DEVICE_PROTOCOL_SPECIFIC, NVME_DATA_TYPE_FEATURE, cdw10, cdw11, 0)
}

/// Set buffer of a Set Features with dwords 10 and 11.
pub fn setfeature_set(cdw10: u32, cdw11: u32) -> (r: Vec<u8>)
    ensures
        r@ == property_set_buffer(
            PROPERTY_ADAPTER_PROTOCOL_SPECIFIC,
            NVME_DATA_TYPE_FEATURE,
            cdw10,
            cdw11,
            NVME_MAX_LOG_SIZE,
        ),
{
    build_property_set(
        PROPERTY_ADAPTER_PROTOCOL_SPECIFIC,
        NVME_DATA_TYPE_FEATURE,
        cdw10,
        cdw11,
        NVME_MAX_LOG_SIZE,
    )
}

} // verus!
