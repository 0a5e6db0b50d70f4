use vstd::prelude::*;

verus! {

/// Status Code Type (SCT) of a completion: selects the table that the status code is read in.
#[allow(non_camel_case_types)]
#[derive(Clone, Copy, Debug, PartialEq, Eq, Structural)]
pub enum NVME_STATUS_TYPES {
    NVME_STATUS_TYPE_GENERIC_COMMAND,
    NVME_STATUS_TYPE_COMMAND_SPECIFIC,
    NVME_STATUS_TYPE_MEDIA_ERROR,
    NVME_STATUS_TYPE_VENDOR_SPECIFIC,
}

impl NVME_STATUS_TYPES {
    /// The code as it stands on the wire.
    pub open spec fn spec_value(self) -> u8 {
        match self {
            NVME_STATUS_TYPES::NVME_STATUS_TYPE_GENERIC_COMMAND => 0x00,
            NVME_STATUS_TYPES::NVME_STATUS_TYPE_COMMAND_SPECIFIC => 0x01,
            NVME_STATUS_TYPES::NVME_STATUS_TYPE_MEDIA_ERROR => 0x02,
            NVME_STATUS_TYPES::NVME_STATUS_TYPE_VENDOR_SPECIFIC => 0x07,
        }
    }

    #[verifier::when_used_as_spec(spec_value)]
    pub fn value(self) -> (r: u8)
        ensures
            r == self.spec_value(),
    {
        match self {
            NVME_STATUS_TYPES::NVME_STATUS_TYPE_GENERIC_COMMAND => 0x00,
            NVME_STATUS_TYPES::NVME_STATUS_TYPE_COMMAND_SPECIFIC => 0x01,
            NVME_STATUS_TYPES::NVME_STATUS_TYPE_MEDIA_ERROR => 0x02,
            NVME_STATUS_TYPES::NVME_STATUS_TYPE_VENDOR_SPECIFIC => 0x07,
        }
    }

    /// The entry whose code is `v`, if the table has one.
    pub fn from_value(v: u8) -> (r: Option<NVME_STATUS_TYPES>)
        ensures
            r matches Some(c) ==> c.spec_value() == v,
            r is None ==> forall|c: NVME_STATUS_TYPES| #[trigger] c.spec_value() != v,
    {
        match v {
            0x00 => Some(NVME_STATUS_TYPES::NVME_STATUS_TYPE_GENERIC_COMMAND),
            0x01 => Some(NVME_STATUS_TYPES::NVME_STATUS_TYPE_COMMAND_SPECIFIC),
            0x02 => Some(NVME_STATUS_TYPES::NVME_STATUS_TYPE_MEDIA_ERROR),
            0x07 => Some(NVME_STATUS_TYPES::NVME_STATUS_TYPE_VENDOR_SPECIFIC),
            _ => None,
        }
    }
}

/// Status codes of the generic command status type.
#[allow(non_camel_case_types)]
#[derive(Clone, Copy, Debug, PartialEq, Eq, Structural)]
pub enum NVME_STATUS_GENERIC_COMMAND_CODES {
    NVME_STATUS_SUCCESS_COMPLETION,
    NVME_STATUS_INVALID_COMMAND_OPCODE,
    NVME_STATUS_INVALID_FIELD_IN_COMMAND,
    NVME_STATUS_COMMAND_ID_CONFLICT,
    NVME_STATUS_DATA_TRANSFER_ERROR,
    NVME_STATUS_COMMAND_ABORTED_DUE_TO_POWER_LOSS_NOTIFICATION,
    NVME_STATUS_INTERNAL_DEVICE_ERROR,
    NVME_STATUS_COMMAND_ABORT_REQUESTED,
    NVME_STATUS_COMMAND_ABORTED_DUE_TO_SQ_DELETION,
    NVME_STATUS_COMMAND_ABORTED_DUE_TO_FAILED_FUSED_COMMAND,
    NVME_STATUS_COMMAND_ABORTED_DUE_TO_FAILED_MISSING_COMMAND,
    NVME_STATUS_INVALID_NAMESPACE_OR_FORMAT,
    NVME_STATUS_COMMAND_SEQUENCE_ERROR,
    NVME_STATUS_INVALID_SGL_LAST_SEGMENT_DESCR,
    NVME_STATUS_INVALID_NUMBER_OF_SGL_DESCR,
    NVME_STATUS_DATA_SGL_LENGTH_INVALID,
    NVME_STATUS_METADATA_SGL_LENGTH_INVALID,
    NVME_STATUS_SGL_DESCR_TYPE_INVALID,
    NVME_STATUS_INVALID_USE_OF_CONTROLLER_MEMORY_BUFFER,
    NVME_STATUS_PRP_OFFSET_INVALID,
    NVME_STATUS_ATOMIC_WRITE_UNIT_EXCEEDED,
    NVME_STATUS_OPERATION_DENIED,
    NVME_STATUS_SGL_OFFSET_INVALID,
    NVME_STATUS_RESERVED,
    NVME_STATUS_HOST_IDENTIFIER_INCONSISTENT_FORMAT,
    NVME_STATUS_KEEP_ALIVE_TIMEOUT_EXPIRED,
    NVME_STATUS_KEEP_ALIVE_TIMEOUT_INVALID,
    NVME_STATUS_COMMAND_ABORTED_DUE_TO_PREEMPT_ABORT,
    NVME_STATUS_SANITIZE_FAILED,
    NVME_STATUS_SANITIZE_IN_PROGRESS,
    NVME_STATUS_SGL_DATA_BLOCK_GRANULARITY_INVALID,
    NVME_STATUS_DIRECTIVE_TYPE_INVALID,
    NVME_STATUS_DIRECTIVE_ID_INVALID,
    NVME_STATUS_NVM_LBA_OUT_OF_RANGE,
    NVME_STATUS_NVM_CAPACITY_EXCEEDED,
    NVME_STATUS_NVM_NAMESPACE_NOT_READY,
    NVME_STATUS_NVM_RESERVATION_CONFLICT,
    NVME_STATUS_FORMAT_IN_PROGRESS,
}

impl NVME_STATUS_GENERIC_COMMAND_CODES {
    /// The code as it stands on the wire.
    pub open spec fn spec_value(self) -> u8 {
        match self {
            NVME_STATUS_GENERIC_COMMAND_CODES::NVME_STATUS_SUCCESS_COMPLETION => 0x00,
            NVME_STATUS_GENERIC_COMMAND_CODES::NVME_STATUS_INVALID_COMMAND_OPCODE => 0x01,
            NVME_STATUS_GENERIC_COMMAND_CODES::NVME_STATUS_INVALID_FIELD_IN_COMMAND => 0x02,
            NVME_STATUS_GENERIC_COMMAND_CODES::NVME_STATUS_COMMAND_ID_CONFLICT => 0x03,
            NVME_STATUS_GENERIC_COMMAND_CODES::NVME_STATUS_DATA_TRANSFER_ERROR => 0x04,
            NVME_STATUS_GENERIC_COMMAND_CODES::NVME_STATUS_COMMAND_ABORTED_DUE_TO_POWER_LOSS_NOTIFICATION => 0x05,
            NVME_STATUS_GENERIC_COMMAND_CODES::NVME_STATUS_INTERNAL_DEVICE_ERROR => 0x06,
            NVME_STATUS_GENERIC_COMMAND_CODES::NVME_STATUS_COMMAND_ABORT_REQUESTED => 0x07,
            NVME_STATUS_GENERIC_COMMAND_CODES::NVME_STATUS_COMMAND_ABORTED_DUE_TO_SQ_DELETION => 0x08,
            NVME_STATUS_GENERIC_COMMAND_CODES::NVME_STATUS_COMMAND_ABORTED_DUE_TO_FAILED_FUSED_COMMAND => 0x09,
            NVME_STATUS_GENERIC_COMMAND_CODES::NVME_STATUS_COMMAND_ABORTED_DUE_TO_FAILED_MISSING_COMMAND => 0x0a,
            NVME_STATUS_GENERIC_COMMAND_CODES::NVME_STATUS_INVALID_NAMESPACE_OR_FORMAT => 0x0b,
            NVME_STATUS_GENERIC_COMMAND_CODES::NVME_STATUS_COMMAND_SEQUENCE_ERROR => 0x0c,
            NVME_STATUS_GENERIC_COMMAND_CODES::NVME_STATUS_INVALID_SGL_LAST_SEGMENT_DESCR => 0x0d,
            NVME_STATUS_GENERIC_COMMAND_CODES::NVME_STATUS_INVALID_NUMBER_OF_SGL_DESCR => 0x0e,
            NVME_STATUS_GENERIC_COMMAND_CODES::NVME_STATUS_DATA_SGL_LENGTH_INVALID => 0x0f,
            NVME_STATUS_GENERIC_COMMAND_CODES::NVME_STATUS_METADATA_SGL_LENGTH_INVALID => 0x10,
            NVME_STATUS_GENERIC_COMMAND_CODES::NVME_STATUS_SGL_DESCR_TYPE_INVALID => 0x11,
            NVME_STATUS_GENERIC_COMMAND_CODES::NVME_STATUS_INVALID_USE_OF_CONTROLLER_MEMORY_BUFFER => 0x12,
            NVME_STATUS_GENERIC_COMMAND_CODES::NVME_STATUS_PRP_OFFSET_INVALID => 0x13,
            NVME_STATUS_GENERIC_COMMAND_CODES::NVME_STATUS_ATOMIC_WRITE_UNIT_EXCEEDED => 0x14,
            NVME_STATUS_GENERIC_COMMAND_CODES::NVME_STATUS_OPERATION_DENIED => 0x15,
            NVME_STATUS_GENERIC_COMMAND_CODES::NVME_STATUS_SGL_OFFSET_INVALID => 0x16,
            NVME_STATUS_GENERIC_COMMAND_CODES::NVME_STATUS_RESERVED => 0x17,
            NVME_STATUS_GENERIC_COMMAND_CODES::NVME_STATUS_HOST_IDENTIFIER_INCONSISTENT_FORMAT => 0x18,
            NVME_STATUS_GENERIC_COMMAND_CODES::NVME_STATUS_KEEP_ALIVE_TIMEOUT_EXPIRED => 0x19,
            NVME_STATUS_GENERIC_COMMAND_CODES::NVME_STATUS_KEEP_ALIVE_TIMEOUT_INVALID => 0x1a,
            NVME_STATUS_GENERIC_COMMAND_CODES::NVME_STATUS_COMMAND_ABORTED_DUE_TO_PREEMPT_ABORT => 0x1b,
            NVME_STATUS_GENERIC_COMMAND_CODES::NVME_STATUS_SANITIZE_FAILED => 0x1c,
            NVME_STATUS_GENERIC_COMMAND_CODES::NVME_STATUS_SANITIZE_IN_PROGRESS => 0x1d,
            NVME_STATUS_GENERIC_COMMAND_CODES::NVME_STATUS_SGL_DATA_BLOCK_GRANULARITY_INVALID => 0x1e,
            NVME_STATUS_GENERIC_COMMAND_CODES::NVME_STATUS_DIRECTIVE_TYPE_INVALID => 0x70,
            NVME_STATUS_GENERIC_COMMAND_CODES::NVME_STATUS_DIRECTIVE_ID_INVALID => 0x71,
            NVME_STATUS_GENERIC_COMMAND_CODES::NVME_STATUS_NVM_LBA_OUT_OF_RANGE => 0x80,
            NVME_STATUS_GENERIC_COMMAND_CODES::NVME_STATUS_NVM_CAPACITY_EXCEEDED => 0x81,
            NVME_STATUS_GENERIC_COMMAND_CODES::NVME_STATUS_NVM_NAMESPACE_NOT_READY => 0x82,
            NVME_STATUS_GENERIC_COMMAND_CODES::NVME_STATUS_NVM_RESERVATION_CONFLICT => 0x83,
            NVME_STATUS_GENERIC_COMMAND_CODES::NVME_STATUS_FORMAT_IN_PROGRESS => 0x84,
        }
    }

    #[verifier::when_used_as_spec(spec_value)]
    pub fn value(self) -> (r: u8)
        ensures
            r == self.spec_value(),
    {
        match self {
            NVME_STATUS_GENERIC_COMMAND_CODES::NVME_STATUS_SUCCESS_COMPLETION => 0x00,
            NVME_STATUS_GENERIC_COMMAND_CODES::NVME_STATUS_INVALID_COMMAND_OPCODE => 0x01,
            NVME_STATUS_GENERIC_COMMAND_CODES::NVME_STATUS_INVALID_FIELD_IN_COMMAND => 0x02,
            NVME_STATUS_GENERIC_COMMAND_CODES::NVME_STATUS_COMMAND_ID_CONFLICT => 0x03,
            NVME_STATUS_GENERIC_COMMAND_CODES::NVME_STATUS_DATA_TRANSFER_ERROR => 0x04,
            NVME_STATUS_GENERIC_COMMAND_CODES::NVME_STATUS_COMMAND_ABORTED_DUE_TO_POWER_LOSS_NOTIFICATION => 0x05,
            NVME_STATUS_GENERIC_COMMAND_CODES::NVME_STATUS_INTERNAL_DEVICE_ERROR => 0x06,
            NVME_STATUS_GENERIC_COMMAND_CODES::NVME_STATUS_COMMAND_ABORT_REQUESTED => 0x07,
            NVME_STATUS_GENERIC_COMMAND_CODES::NVME_STATUS_COMMAND_ABORTED_DUE_TO_SQ_DELETION => 0x08,
            NVME_STATUS_GENERIC_COMMAND_CODES::NVME_STATUS_COMMAND_ABORTED_DUE_TO_FAILED_FUSED_COMMAND => 0x09,
            NVME_STATUS_GENERIC_COMMAND_CODES::NVME_STATUS_COMMAND_ABORTED_DUE_TO_FAILED_MISSING_COMMAND => 0x0a,
            NVME_STATUS_GENERIC_COMMAND_CODES::NVME_STATUS_INVALID_NAMESPACE_OR_FORMAT => 0x0b,
            NVME_STATUS_GENERIC_COMMAND_CODES::NVME_STATUS_COMMAND_SEQUENCE_ERROR => 0x0c,
            NVME_STATUS_GENERIC_COMMAND_CODES::NVME_STATUS_INVALID_SGL_LAST_SEGMENT_DESCR => 0x0d,
            NVME_STATUS_GENERIC_COMMAND_CODES::NVME_STATUS_INVALID_NUMBER_OF_SGL_DESCR => 0x0e,
            NVME_STATUS_GENERIC_COMMAND_CODES::NVME_STATUS_DATA_SGL_LENGTH_INVALID => 0x0f,
            NVME_STATUS_GENERIC_COMMAND_CODES::NVME_STATUS_METADATA_SGL_LENGTH_INVALID => 0x10,
            NVME_STATUS_GENERIC_COMMAND_CODES::NVME_STATUS_SGL_DESCR_TYPE_INVALID => 0x11,
            NVME_STATUS_GENERIC_COMMAND_CODES::NVME_STATUS_INVALID_USE_OF_CONTROLLER_MEMORY_BUFFER => 0x12,
            NVME_STATUS_GENERIC_COMMAND_CODES::NVME_STATUS_PRP_OFFSET_INVALID => 0x13,
            NVME_STATUS_GENERIC_COMMAND_CODES::NVME_STATUS_ATOMIC_WRITE_UNIT_EXCEEDED => 0x14,
            NVME_STATUS_GENERIC_COMMAND_CODES::NVME_STATUS_OPERATION_DENIED => 0x15,
            NVME_STATUS_GENERIC_COMMAND_CODES::NVME_STATUS_SGL_OFFSET_INVALID => 0x16,
            NVME_STATUS_GENERIC_COMMAND_CODES::NVME_STATUS_RESERVED => 0x17,
            NVME_STATUS_GENERIC_COMMAND_CODES::NVME_STATUS_HOST_IDENTIFIER_INCONSISTENT_FORMAT => 0x18,
            NVME_STATUS_GENERIC_COMMAND_CODES::NVME_STATUS_KEEP_ALIVE_TIMEOUT_EXPIRED => 0x19,
            NVME_STATUS_GENERIC_COMMAND_CODES::NVME_STATUS_KEEP_ALIVE_TIMEOUT_INVALID => 0x1a,
            NVME_STATUS_GENERIC_COMMAND_CODES::NVME_STATUS_COMMAND_ABORTED_DUE_TO_PREEMPT_ABORT => 0x1b,
            NVME_STATUS_GENERIC_COMMAND_CODES::NVME_STATUS_SANITIZE_FAILED => 0x1c,
            NVME_STATUS_GENERIC_COMMAND_CODES::NVME_STATUS_SANITIZE_IN_PROGRESS => 0x1d,
            NVME_STATUS_GENERIC_COMMAND_CODES::NVME_STATUS_SGL_DATA_BLOCK_GRANULARITY_INVALID => 0x1e,
            NVME_STATUS_GENERIC_COMMAND_CODES::NVME_STATUS_DIRECTIVE_TYPE_INVALID => 0x70,
            NVME_STATUS_GENERIC_COMMAND_CODES::NVME_STATUS_DIRECTIVE_ID_INVALID => 0x71,
            NVME_STATUS_GENERIC_COMMAND_CODES::NVME_STATUS_NVM_LBA_OUT_OF_RANGE => 0x80,
            NVME_STATUS_GENERIC_COMMAND_CODES::NVME_STATUS_NVM_CAPACITY_EXCEEDED => 0x81,
            NVME_STATUS_GENERIC_COMMAND_CODES::NVME_STATUS_NVM_NAMESPACE_NOT_READY => 0x82,
            NVME_STATUS_GENERIC_COMMAND_CODES::NVME_STATUS_NVM_RESERVATION_CONFLICT => 0x83,
            NVME_STATUS_GENERIC_COMMAND_CODES::NVME_STATUS_FORMAT_IN_PROGRESS => 0x84,
        }
    }

    /// The entry whose code is `v`, if the table has one.
    pub fn from_value(v: u8) -> (r: Option<NVME_STATUS_GENERIC_COMMAND_CODES>)
        ensures
            r matches Some(c) ==> c.spec_value() == v,
            r is None ==> forall|c: NVME_STATUS_GENERIC_COMMAND_CODES| #[trigger] c.spec_value() != v,
    {
        match v {
            0x00 => Some(NVME_STATUS_GENERIC_COMMAND_CODES::NVME_STATUS_SUCCESS_COMPLETION),
            0x01 => Some(NVME_STATUS_GENERIC_COMMAND_CODES::NVME_STATUS_INVALID_COMMAND_OPCODE),
            0x02 => Some(NVME_STATUS_GENERIC_COMMAND_CODES::NVME_STATUS_INVALID_FIELD_IN_COMMAND),
            0x03 => Some(NVME_STATUS_GENERIC_COMMAND_CODES::NVME_STATUS_COMMAND_ID_CONFLICT),
            0x04 => Some(NVME_STATUS_GENERIC_COMMAND_CODES::NVME_STATUS_DATA_TRANSFER_ERROR),
            0x05 => Some(NVME_STATUS_GENERIC_COMMAND_CODES::NVME_STATUS_COMMAND_ABORTED_DUE_TO_POWER_LOSS_NOTIFICATION),
            0x06 => Some(NVME_STATUS_GENERIC_COMMAND_CODES::NVME_STATUS_INTERNAL_DEVICE_ERROR),
            0x07 => Some(NVME_STATUS_GENERIC_COMMAND_CODES::NVME_STATUS_COMMAND_ABORT_REQUESTED),
            0x08 => Some(NVME_STATUS_GENERIC_COMMAND_CODES::NVME_STATUS_COMMAND_ABORTED_DUE_TO_SQ_DELETION),
            0x09 => Some(NVME_STATUS_GENERIC_COMMAND_CODES::NVME_STATUS_COMMAND_ABORTED_DUE_TO_FAILED_FUSED_COMMAND),
            0x0a => Some(NVME_STATUS_GENERIC_COMMAND_CODES::NVME_STATUS_COMMAND_ABORTED_DUE_TO_FAILED_MISSING_COMMAND),
            0x0b => Some(NVME_STATUS_GENERIC_COMMAND_CODES::NVME_STATUS_INVALID_NAMESPACE_OR_FORMAT),
            0x0c => Some(NVME_STATUS_GENERIC_COMMAND_CODES::NVME_STATUS_COMMAND_SEQUENCE_ERROR),
            0x0d => Some(NVME_STATUS_GENERIC_COMMAND_CODES::NVME_STATUS_INVALID_SGL_LAST_SEGMENT_DESCR),
            0x0e => Some(NVME_STATUS_GENERIC_COMMAND_CODES::NVME_STATUS_INVALID_NUMBER_OF_SGL_DESCR),
            0x0f => Some(NVME_STATUS_GENERIC_COMMAND_CODES::NVME_STATUS_DATA_SGL_LENGTH_INVALID),
            0x10 => Some(NVME_STATUS_GENERIC_COMMAND_CODES::NVME_STATUS_METADATA_SGL_LENGTH_INVALID),
            0x11 => Some(NVME_STATUS_GENERIC_COMMAND_CODES::NVME_STATUS_SGL_DESCR_TYPE_INVALID),
            0x12 => Some(NVME_STATUS_GENERIC_COMMAND_CODES::NVME_STATUS_INVALID_USE_OF_CONTROLLER_MEMORY_BUFFER),
            0x13 => Some(NVME_STATUS_GENERIC_COMMAND_CODES::NVME_STATUS_PRP_OFFSET_INVALID),
            0x14 => Some(NVME_STATUS_GENERIC_COMMAND_CODES::NVME_STATUS_ATOMIC_WRITE_UNIT_EXCEEDED),
            0x15 => Some(NVME_STATUS_GENERIC_COMMAND_CODES::NVME_STATUS_OPERATION_DENIED),
            0x16 => Some(NVME_STATUS_GENERIC_COMMAND_CODES::NVME_STATUS_SGL_OFFSET_INVALID),
            0x17 => Some(NVME_STATUS_GENERIC_COMMAND_CODES::NVME_STATUS_RESERVED),
            0x18 => Some(NVME_STATUS_GENERIC_COMMAND_CODES::NVME_STATUS_HOST_IDENTIFIER_INCONSISTENT_FORMAT),
            0x19 => Some(NVME_STATUS_GENERIC_COMMAND_CODES::NVME_STATUS_KEEP_ALIVE_TIMEOUT_EXPIRED),
            0x1a => Some(NVME_STATUS_GENERIC_COMMAND_CODES::NVME_STATUS_KEEP_ALIVE_TIMEOUT_INVALID),
            0x1b => Some(NVME_STATUS_GENERIC_COMMAND_CODES::NVME_STATUS_COMMAND_ABORTED_DUE_TO_PREEMPT_ABORT),
            0x1c => Some(NVME_STATUS_GENERIC_COMMAND_CODES::NVME_STATUS_SANITIZE_FAILED),
            0x1d => Some(NVME_STATUS_GENERIC_COMMAND_CODES::NVME_STATUS_SANITIZE_IN_PROGRESS),
            0x1e => Some(NVME_STATUS_GENERIC_COMMAND_CODES::NVME_STATUS_SGL_DATA_BLOCK_GRANULARITY_INVALID),
            0x70 => Some(NVME_STATUS_GENERIC_COMMAND_CODES::NVME_STATUS_DIRECTIVE_TYPE_INVALID),
            0x71 => Some(NVME_STATUS_GENERIC_COMMAND_CODES::NVME_STATUS_DIRECTIVE_ID_INVALID),
            0x80 => Some(NVME_STATUS_GENERIC_COMMAND_CODES::NVME_STATUS_NVM_LBA_OUT_OF_RANGE),
            0x81 => Some(NVME_STATUS_GENERIC_COMMAND_CODES::NVME_STATUS_NVM_CAPACITY_EXCEEDED),
            0x82 => Some(NVME_STATUS_GENERIC_COMMAND_CODES::NVME_STATUS_NVM_NAMESPACE_NOT_READY),
            0x83 => Some(NVME_STATUS_GENERIC_COMMAND_CODES::NVME_STATUS_NVM_RESERVATION_CONFLICT),
            0x84 => Some(NVME_STATUS_GENERIC_COMMAND_CODES::NVME_STATUS_FORMAT_IN_PROGRESS),
            _ => None,
        }
    }
}

/// Status codes of the command specific status type.
#[allow(non_camel_case_types)]
#[derive(Clone, Copy, Debug, PartialEq, Eq, Structural)]
pub enum NVME_STATUS_COMMAND_SPECIFIC_CODES {
    NVME_STATUS_COMPLETION_QUEUE_INVALID,
    NVME_STATUS_INVALID_QUEUE_IDENTIFIER,
    NVME_STATUS_MAX_QUEUE_SIZE_EXCEEDED,
    NVME_STATUS_ABORT_COMMAND_LIMIT_EXCEEDED,
    NVME_STATUS_ASYNC_EVENT_REQUEST_LIMIT_EXCEEDED,
    NVME_STATUS_INVALID_FIRMWARE_SLOT,
    NVME_STATUS_INVALID_FIRMWARE_IMAGE,
    NVME_STATUS_INVALID_INTERRUPT_VECTOR,
    NVME_STATUS_INVALID_LOG_PAGE,
    NVME_STATUS_INVALID_FORMAT,
    NVME_STATUS_FIRMWARE_ACTIVATION_REQUIRES_CONVENTIONAL_RESET,
    NVME_STATUS_INVALID_QUEUE_DELETION,
    NVME_STATUS_FEATURE_ID_NOT_SAVEABLE,
    NVME_STATUS_FEATURE_NOT_CHANGEABLE,
    NVME_STATUS_FEATURE_NOT_NAMESPACE_SPECIFIC,
    NVME_STATUS_FIRMWARE_ACTIVATION_REQUIRES_NVM_SUBSYSTEM_RESET,
    NVME_STATUS_FIRMWARE_ACTIVATION_REQUIRES_RESET,
    NVME_STATUS_FIRMWARE_ACTIVATION_REQUIRES_MAX_TIME_VIOLATION,
    NVME_STATUS_FIRMWARE_ACTIVATION_PROHIBITED,
    NVME_STATUS_OVERLAPPING_RANGE,
    NVME_STATUS_NAMESPACE_INSUFFICIENT_CAPACITY,
    NVME_STATUS_NAMESPACE_IDENTIFIER_UNAVAILABLE,
    NVME_STATUS_NAMESPACE_ALREADY_ATTACHED,
    NVME_STATUS_NAMESPACE_IS_PRIVATE,
    NVME_STATUS_NAMESPACE_NOT_ATTACHED,
    NVME_STATUS_NAMESPACE_THIN_PROVISIONING_NOT_SUPPORTED,
    NVME_STATUS_CONTROLLER_LIST_INVALID,
    NVME_STATUS_DEVICE_SELF_TEST_IN_PROGRESS,
    NVME_STATUS_BOOT_PARTITION_WRITE_PROHIBITED,
    NVME_STATUS_INVALID_CONTROLLER_IDENTIFIER,
    NVME_STATUS_INVALID_SECONDARY_CONTROLLER_STATE,
    NVME_STATUS_INVALID_NUMBER_OF_CONTROLLER_RESOURCES,
    NVME_STATUS_INVALID_RESOURCE_IDENTIFIER,
    NVME_STATUS_SANITIZE_PROHIBITED_ON_PERSISTENT_MEMORY,
    NVME_STATUS_INVALID_ANA_GROUP_IDENTIFIER,
    NVME_STATUS_ANA_ATTACH_FAILED,
    NVME_IO_COMMAND_SET_NOT_SUPPORTED,
    NVME_IO_COMMAND_SET_NOT_ENABLED,
    NVME_IO_COMMAND_SET_COMBINATION_REJECTED,
    NVME_IO_COMMAND_SET_INVALID,
    NVME_STATUS_STREAM_RESOURCE_ALLOCATION_FAILED,
    NVME_STATUS_NVM_CONFLICTING_ATTRIBUTES,
    NVME_STATUS_NVM_INVALID_PROTECTION_INFORMATION,
    NVME_STATUS_NVM_ATTEMPTED_WRITE_TO_READ_ONLY_RANGE,
    NVME_STATUS_NVM_COMMAND_SIZE_LIMIT_EXCEEDED,
    NVME_STATUS_ZONE_BOUNDARY_ERROR,
    NVME_STATUS_ZONE_FULL,
    NVME_STATUS_ZONE_READ_ONLY,
    NVME_STATUS_ZONE_OFFLINE,
    NVME_STATUS_ZONE_INVALID_WRITE,
    NVME_STATUS_ZONE_TOO_MANY_ACTIVE,
    NVME_STATUS_ZONE_TOO_MANY_OPEN,
    NVME_STATUS_ZONE_INVALID_STATE_TRANSITION,
}

impl NVME_STATUS_COMMAND_SPECIFIC_CODES {
    /// The code as it stands on the wire.
    pub open spec fn spec_value(self) -> u8 {
        match self {
            NVME_STATUS_COMMAND_SPECIFIC_CODES::NVME_STATUS_COMPLETION_QUEUE_INVALID => 0x00,
            NVME_STATUS_COMMAND_SPECIFIC_CODES::NVME_STATUS_INVALID_QUEUE_IDENTIFIER => 0x01,
            NVME_STATUS_COMMAND_SPECIFIC_CODES::NVME_STATUS_MAX_QUEUE_SIZE_EXCEEDED => 0x02,
            NVME_STATUS_COMMAND_SPECIFIC_CODES::NVME_STATUS_ABORT_COMMAND_LIMIT_EXCEEDED => 0x03,
            NVME_STATUS_COMMAND_SPECIFIC_CODES::NVME_STATUS_ASYNC_EVENT_REQUEST_LIMIT_EXCEEDED => 0x05,
            NVME_STATUS_COMMAND_SPECIFIC_CODES::NVME_STATUS_INVALID_FIRMWARE_SLOT => 0x06,
            NVME_STATUS_COMMAND_SPECIFIC_CODES::NVME_STATUS_INVALID_FIRMWARE_IMAGE => 0x07,
            NVME_STATUS_COMMAND_SPECIFIC_CODES::NVME_STATUS_INVALID_INTERRUPT_VECTOR => 0x08,
            NVME_STATUS_COMMAND_SPECIFIC_CODES::NVME_STATUS_INVALID_LOG_PAGE => 0x09,
            NVME_STATUS_COMMAND_SPECIFIC_CODES::NVME_STATUS_INVALID_FORMAT => 0x0a,
            NVME_STATUS_COMMAND_SPECIFIC_CODES::NVME_STATUS_FIRMWARE_ACTIVATION_REQUIRES_CONVENTIONAL_RESET => 0x0b,
            NVME_STATUS_COMMAND_SPECIFIC_CODES::NVME_STATUS_INVALID_QUEUE_DELETION => 0x0c,
            NVME_STATUS_COMMAND_SPECIFIC_CODES::NVME_STATUS_FEATURE_ID_NOT_SAVEABLE => 0x0d,
            NVME_STATUS_COMMAND_SPECIFIC_CODES::NVME_STATUS_FEATURE_NOT_CHANGEABLE => 0x0e,
            NVME_STATUS_COMMAND_SPECIFIC_CODES::NVME_STATUS_FEATURE_NOT_NAMESPACE_SPECIFIC => 0x0f,
            NVME_STATUS_COMMAND_SPECIFIC_CODES::NVME_STATUS_FIRMWARE_ACTIVATION_REQUIRES_NVM_SUBSYSTEM_RESET => 0x10,
            NVME_STATUS_COMMAND_SPECIFIC_CODES::NVME_STATUS_FIRMWARE_ACTIVATION_REQUIRES_RESET => 0x11,
            NVME_STATUS_COMMAND_SPECIFIC_CODES::NVME_STATUS_FIRMWARE_ACTIVATION_REQUIRES_MAX_TIME_VIOLATION => 0x12,
            NVME_STATUS_COMMAND_SPECIFIC_CODES::NVME_STATUS_FIRMWARE_ACTIVATION_PROHIBITED => 0x13,
            NVME_STATUS_COMMAND_SPECIFIC_CODES::NVME_STATUS_OVERLAPPING_RANGE => 0x14,
            NVME_STATUS_COMMAND_SPECIFIC_CODES::NVME_STATUS_NAMESPACE_INSUFFICIENT_CAPACITY => 0x15,
            NVME_STATUS_COMMAND_SPECIFIC_CODES::NVME_STATUS_NAMESPACE_IDENTIFIER_UNAVAILABLE => 0x16,
            NVME_STATUS_COMMAND_SPECIFIC_CODES::NVME_STATUS_NAMESPACE_ALREADY_ATTACHED => 0x18,
            NVME_STATUS_COMMAND_SPECIFIC_CODES::NVME_STATUS_NAMESPACE_IS_PRIVATE => 0x19,
            NVME_STATUS_COMMAND_SPECIFIC_CODES::NVME_STATUS_NAMESPACE_NOT_ATTACHED => 0x1a,
            NVME_STATUS_COMMAND_SPECIFIC_CODES::NVME_STATUS_NAMESPACE_THIN_PROVISIONING_NOT_SUPPORTED => 0x1b,
            NVME_STATUS_COMMAND_SPECIFIC_CODES::NVME_STATUS_CONTROLLER_LIST_INVALID => 0x1c,
            NVME_STATUS_COMMAND_SPECIFIC_CODES::NVME_STATUS_DEVICE_SELF_TEST_IN_PROGRESS => 0x1d,
            NVME_STATUS_COMMAND_SPECIFIC_CODES::NVME_STATUS_BOOT_PARTITION_WRITE_PROHIBITED => 0x1e,
            NVME_STATUS_COMMAND_SPECIFIC_CODES::NVME_STATUS_INVALID_CONTROLLER_IDENTIFIER => 0x1f,
            NVME_STATUS_COMMAND_SPECIFIC_CODES::NVME_STATUS_INVALID_SECONDARY_CONTROLLER_STATE => 0x20,
            NVME_STATUS_COMMAND_SPECIFIC_CODES::NVME_STATUS_INVALID_NUMBER_OF_CONTROLLER_RESOURCES => 0x21,
            NVME_STATUS_COMMAND_SPECIFIC_CODES::NVME_STATUS_INVALID_RESOURCE_IDENTIFIER => 0x22,
            NVME_STATUS_COMMAND_SPECIFIC_CODES::NVME_STATUS_SANITIZE_PROHIBITED_ON_PERSISTENT_MEMORY => 0x23,
            NVME_STATUS_COMMAND_SPECIFIC_CODES::NVME_STATUS_INVALID_ANA_GROUP_IDENTIFIER => 0x24,
            NVME_STATUS_COMMAND_SPECIFIC_CODES::NVME_STATUS_ANA_ATTACH_FAILED => 0x25,
            NVME_STATUS_COMMAND_SPECIFIC_CODES::NVME_IO_COMMAND_SET_NOT_SUPPORTED => 0x29,
            NVME_STATUS_COMMAND_SPECIFIC_CODES::NVME_IO_COMMAND_SET_NOT_ENABLED => 0x2a,
            NVME_STATUS_COMMAND_SPECIFIC_CODES::NVME_IO_COMMAND_SET_COMBINATION_REJECTED => 0x2b,
            NVME_STATUS_COMMAND_SPECIFIC_CODES::NVME_IO_COMMAND_SET_INVALID => 0x2c,
            NVME_STATUS_COMMAND_SPECIFIC_CODES::NVME_STATUS_STREAM_RESOURCE_ALLOCATION_FAILED => 0x7f,
            NVME_STATUS_COMMAND_SPECIFIC_CODES::NVME_STATUS_NVM_CONFLICTING_ATTRIBUTES => 0x80,
            NVME_STATUS_COMMAND_SPECIFIC_CODES::NVME_STATUS_NVM_INVALID_PROTECTION_INFORMATION => 0x81,
            NVME_STATUS_COMMAND_SPECIFIC_CODES::NVME_STATUS_NVM_ATTEMPTED_WRITE_TO_READ_ONLY_RANGE => 0x82,
            NVME_STATUS_COMMAND_SPECIFIC_CODES::NVME_STATUS_NVM_COMMAND_SIZE_LIMIT_EXCEEDED => 0x83,
            NVME_STATUS_COMMAND_SPECIFIC_CODES::NVME_STATUS_ZONE_BOUNDARY_ERROR => 0xb8,
            NVME_STATUS_COMMAND_SPECIFIC_CODES::NVME_STATUS_ZONE_FULL => 0xb9,
            NVME_STATUS_COMMAND_SPECIFIC_CODES::NVME_STATUS_ZONE_READ_ONLY => 0xba,
            NVME_STATUS_COMMAND_SPECIFIC_CODES::NVME_STATUS_ZONE_OFFLINE => 0xbb,
            NVME_STATUS_COMMAND_SPECIFIC_CODES::NVME_STATUS_ZONE_INVALID_WRITE => 0xbc,
            NVME_STATUS_COMMAND_SPECIFIC_CODES::NVME_STATUS_ZONE_TOO_MANY_ACTIVE => 0xbd,
            NVME_STATUS_COMMAND_SPECIFIC_CODES::NVME_STATUS_ZONE_TOO_MANY_OPEN => 0xbe,
            NVME_STATUS_COMMAND_SPECIFIC_CODES::NVME_STATUS_ZONE_INVALID_STATE_TRANSITION => 0xbf,
        }
    }

    #[verifier::when_used_as_spec(spec_value)]
    pub fn value(self) -> (r: u8)
        ensures
            r == self.spec_value(),
    {
        match self {
            NVME_STATUS_COMMAND_SPECIFIC_CODES::NVME_STATUS_COMPLETION_QUEUE_INVALID => 0x00,
            NVME_STATUS_COMMAND_SPECIFIC_CODES::NVME_STATUS_INVALID_QUEUE_IDENTIFIER => 0x01,
            NVME_STATUS_COMMAND_SPECIFIC_CODES::NVME_STATUS_MAX_QUEUE_SIZE_EXCEEDED => 0x02,
            NVME_STATUS_COMMAND_SPECIFIC_CODES::NVME_STATUS_ABORT_COMMAND_LIMIT_EXCEEDED => 0x03,
            NVME_STATUS_COMMAND_SPECIFIC_CODES::NVME_STATUS_ASYNC_EVENT_REQUEST_LIMIT_EXCEEDED => 0x05,
            NVME_STATUS_COMMAND_SPECIFIC_CODES::NVME_STATUS_INVALID_FIRMWARE_SLOT => 0x06,
            NVME_STATUS_COMMAND_SPECIFIC_CODES::NVME_STATUS_INVALID_FIRMWARE_IMAGE => 0x07,
            NVME_STATUS_COMMAND_SPECIFIC_CODES::NVME_STATUS_INVALID_INTERRUPT_VECTOR => 0x08,
            NVME_STATUS_COMMAND_SPECIFIC_CODES::NVME_STATUS_INVALID_LOG_PAGE => 0x09,
            NVME_STATUS_COMMAND_SPECIFIC_CODES::NVME_STATUS_INVALID_FORMAT => 0x0a,
            NVME_STATUS_COMMAND_SPECIFIC_CODES::NVME_STATUS_FIRMWARE_ACTIVATION_REQUIRES_CONVENTIONAL_RESET => 0x0b,
            NVME_STATUS_COMMAND_SPECIFIC_CODES::NVME_STATUS_INVALID_QUEUE_DELETION => 0x0c,
            NVME_STATUS_COMMAND_SPECIFIC_CODES::NVME_STATUS_FEATURE_ID_NOT_SAVEABLE => 0x0d,
            NVME_STATUS_COMMAND_SPECIFIC_CODES::NVME_STATUS_FEATURE_NOT_CHANGEABLE => 0x0e,
            NVME_STATUS_COMMAND_SPECIFIC_CODES::NVME_STATUS_FEATURE_NOT_NAMESPACE_SPECIFIC => 0x0f,
            NVME_STATUS_COMMAND_SPECIFIC_CODES::NVME_STATUS_FIRMWARE_ACTIVATION_REQUIRES_NVM_SUBSYSTEM_RESET => 0x10,
            NVME_STATUS_COMMAND_SPECIFIC_CODES::NVME_STATUS_FIRMWARE_ACTIVATION_REQUIRES_RESET => 0x11,
            NVME_STATUS_COMMAND_SPECIFIC_CODES::NVME_STATUS_FIRMWARE_ACTIVATION_REQUIRES_MAX_TIME_VIOLATION => 0x12,
            NVME_STATUS_COMMAND_SPECIFIC_CODES::NVME_STATUS_FIRMWARE_ACTIVATION_PROHIBITED => 0x13,
            NVME_STATUS_COMMAND_SPECIFIC_CODES::NVME_STATUS_OVERLAPPING_RANGE => 0x14,
            NVME_STATUS_COMMAND_SPECIFIC_CODES::NVME_STATUS_NAMESPACE_INSUFFICIENT_CAPACITY => 0x15,
            NVME_STATUS_COMMAND_SPECIFIC_CODES::NVME_STATUS_NAMESPACE_IDENTIFIER_UNAVAILABLE => 0x16,
            NVME_STATUS_COMMAND_SPECIFIC_CODES::NVME_STATUS_NAMESPACE_ALREADY_ATTACHED => 0x18,
            NVME_STATUS_COMMAND_SPECIFIC_CODES::NVME_STATUS_NAMESPACE_IS_PRIVATE => 0x19,
            NVME_STATUS_COMMAND_SPECIFIC_CODES::NVME_STATUS_NAMESPACE_NOT_ATTACHED => 0x1a,
            NVME_STATUS_COMMAND_SPECIFIC_CODES::NVME_STATUS_NAMESPACE_THIN_PROVISIONING_NOT_SUPPORTED => 0x1b,
            NVME_STATUS_COMMAND_SPECIFIC_CODES::NVME_STATUS_CONTROLLER_LIST_INVALID => 0x1c,
            NVME_STATUS_COMMAND_SPECIFIC_CODES::NVME_STATUS_DEVICE_SELF_TEST_IN_PROGRESS => 0x1d,
            NVME_STATUS_COMMAND_SPECIFIC_CODES::NVME_STATUS_BOOT_PARTITION_WRITE_PROHIBITED => 0x1e,
            NVME_STATUS_COMMAND_SPECIFIC_CODES::NVME_STATUS_INVALID_CONTROLLER_IDENTIFIER => 0x1f,
            NVME_STATUS_COMMAND_SPECIFIC_CODES::NVME_STATUS_INVALID_SECONDARY_CONTROLLER_STATE => 0x20,
            NVME_STATUS_COMMAND_SPECIFIC_CODES::NVME_STATUS_INVALID_NUMBER_OF_CONTROLLER_RESOURCES => 0x21,
            NVME_STATUS_COMMAND_SPECIFIC_CODES::NVME_STATUS_INVALID_RESOURCE_IDENTIFIER => 0x22,
            NVME_STATUS_COMMAND_SPECIFIC_CODES::NVME_STATUS_SANITIZE_PROHIBITED_ON_PERSISTENT_MEMORY => 0x23,
            NVME_STATUS_COMMAND_SPECIFIC_CODES::NVME_STATUS_INVALID_ANA_GROUP_IDENTIFIER => 0x24,
            NVME_STATUS_COMMAND_SPECIFIC_CODES::NVME_STATUS_ANA_ATTACH_FAILED => 0x25,
            NVME_STATUS_COMMAND_SPECIFIC_CODES::NVME_IO_COMMAND_SET_NOT_SUPPORTED => 0x29,
            NVME_STATUS_COMMAND_SPECIFIC_CODES::NVME_IO_COMMAND_SET_NOT_ENABLED => 0x2a,
            NVME_STATUS_COMMAND_SPECIFIC_CODES::NVME_IO_COMMAND_SET_COMBINATION_REJECTED => 0x2b,
            NVME_STATUS_COMMAND_SPECIFIC_CODES::NVME_IO_COMMAND_SET_INVALID => 0x2c,
            NVME_STATUS_COMMAND_SPECIFIC_CODES::NVME_STATUS_STREAM_RESOURCE_ALLOCATION_FAILED => 0x7f,
            NVME_STATUS_COMMAND_SPECIFIC_CODES::NVME_STATUS_NVM_CONFLICTING_ATTRIBUTES => 0x80,
            NVME_STATUS_COMMAND_SPECIFIC_CODES::NVME_STATUS_NVM_INVALID_PROTECTION_INFORMATION => 0x81,
            NVME_STATUS_COMMAND_SPECIFIC_CODES::NVME_STATUS_NVM_ATTEMPTED_WRITE_TO_READ_ONLY_RANGE => 0x82,
            NVME_STATUS_COMMAND_SPECIFIC_CODES::NVME_STATUS_NVM_COMMAND_SIZE_LIMIT_EXCEEDED => 0x83,
            NVME_STATUS_COMMAND_SPECIFIC_CODES::NVME_STATUS_ZONE_BOUNDARY_ERROR => 0xb8,
            NVME_STATUS_COMMAND_SPECIFIC_CODES::NVME_STATUS_ZONE_FULL => 0xb9,
            NVME_STATUS_COMMAND_SPECIFIC_CODES::NVME_STATUS_ZONE_READ_ONLY => 0xba,
            NVME_STATUS_COMMAND_SPECIFIC_CODES::NVME_STATUS_ZONE_OFFLINE => 0xbb,
            NVME_STATUS_COMMAND_SPECIFIC_CODES::NVME_STATUS_ZONE_INVALID_WRITE => 0xbc,
            NVME_STATUS_COMMAND_SPECIFIC_CODES::NVME_STATUS_ZONE_TOO_MANY_ACTIVE => 0xbd,
            NVME_STATUS_COMMAND_SPECIFIC_CODES::NVME_STATUS_ZONE_TOO_MANY_OPEN => 0xbe,
            NVME_STATUS_COMMAND_SPECIFIC_CODES::NVME_STATUS_ZONE_INVALID_STATE_TRANSITION => 0xbf,
        }
    }

    /// The entry whose code is `v`, if the table has one.
    pub fn from_value(v: u8) -> (r: Option<NVME_STATUS_COMMAND_SPECIFIC_CODES>)
        ensures
            r matches Some(c) ==> c.spec_value() == v,
            r is None ==> forall|c: NVME_STATUS_COMMAND_SPECIFIC_CODES| #[trigger] c.spec_value() != v,
    {
        match v {
            0x00 => Some(NVME_STATUS_COMMAND_SPECIFIC_CODES::NVME_STATUS_COMPLETION_QUEUE_INVALID),
            0x01 => Some(NVME_STATUS_COMMAND_SPECIFIC_CODES::NVME_STATUS_INVALID_QUEUE_IDENTIFIER),
            0x02 => Some(NVME_STATUS_COMMAND_SPECIFIC_CODES::NVME_STATUS_MAX_QUEUE_SIZE_EXCEEDED),
            0x03 => Some(NVME_STATUS_COMMAND_SPECIFIC_CODES::NVME_STATUS_ABORT_COMMAND_LIMIT_EXCEEDED),
            0x05 => Some(NVME_STATUS_COMMAND_SPECIFIC_CODES::NVME_STATUS_ASYNC_EVENT_REQUEST_LIMIT_EXCEEDED),
            0x06 => Some(NVME_STATUS_COMMAND_SPECIFIC_CODES::NVME_STATUS_INVALID_FIRMWARE_SLOT),
            0x07 => Some(NVME_STATUS_COMMAND_SPECIFIC_CODES::NVME_STATUS_INVALID_FIRMWARE_IMAGE),
            0x08 => Some(NVME_STATUS_COMMAND_SPECIFIC_CODES::NVME_STATUS_INVALID_INTERRUPT_VECTOR),
            0x09 => Some(NVME_STATUS_COMMAND_SPECIFIC_CODES::NVME_STATUS_INVALID_LOG_PAGE),
            0x0a => Some(NVME_STATUS_COMMAND_SPECIFIC_CODES::NVME_STATUS_INVALID_FORMAT),
            0x0b => Some(NVME_STATUS_COMMAND_SPECIFIC_CODES::NVME_STATUS_FIRMWARE_ACTIVATION_REQUIRES_CONVENTIONAL_RESET),
            0x0c => Some(NVME_STATUS_COMMAND_SPECIFIC_CODES::NVME_STATUS_INVALID_QUEUE_DELETION),
            0x0d => Some(NVME_STATUS_COMMAND_SPECIFIC_CODES::NVME_STATUS_FEATURE_ID_NOT_SAVEABLE),
            0x0e => Some(NVME_STATUS_COMMAND_SPECIFIC_CODES::NVME_STATUS_FEATURE_NOT_CHANGEABLE),
            0x0f => Some(NVME_STATUS_COMMAND_SPECIFIC_CODES::NVME_STATUS_FEATURE_NOT_NAMESPACE_SPECIFIC),
            0x10 => Some(NVME_STATUS_COMMAND_SPECIFIC_CODES::NVME_STATUS_FIRMWARE_ACTIVATION_REQUIRES_NVM_SUBSYSTEM_RESET),
            0x11 => Some(NVME_STATUS_COMMAND_SPECIFIC_CODES::NVME_STATUS_FIRMWARE_ACTIVATION_REQUIRES_RESET),
            0x12 => Some(NVME_STATUS_COMMAND_SPECIFIC_CODES::NVME_STATUS_FIRMWARE_ACTIVATION_REQUIRES_MAX_TIME_VIOLATION),
            0x13 => Some(NVME_STATUS_COMMAND_SPECIFIC_CODES::NVME_STATUS_FIRMWARE_ACTIVATION_PROHIBITED),
            0x14 => Some(NVME_STATUS_COMMAND_SPECIFIC_CODES::NVME_STATUS_OVERLAPPING_RANGE),
            0x15 => Some(NVME_STATUS_COMMAND_SPECIFIC_CODES::NVME_STATUS_NAMESPACE_INSUFFICIENT_CAPACITY),
            0x16 => Some(NVME_STATUS_COMMAND_SPECIFIC_CODES::NVME_STATUS_NAMESPACE_IDENTIFIER_UNAVAILABLE),
            0x18 => Some(NVME_STATUS_COMMAND_SPECIFIC_CODES::NVME_STATUS_NAMESPACE_ALREADY_ATTACHED),
            0x19 => Some(NVME_STATUS_COMMAND_SPECIFIC_CODES::NVME_STATUS_NAMESPACE_IS_PRIVATE),
            0x1a => Some(NVME_STATUS_COMMAND_SPECIFIC_CODES::NVME_STATUS_NAMESPACE_NOT_ATTACHED),
            0x1b => Some(NVME_STATUS_COMMAND_SPECIFIC_CODES::NVME_STATUS_NAMESPACE_THIN_PROVISIONING_NOT_SUPPORTED),
            0x1c => Some(NVME_STATUS_COMMAND_SPECIFIC_CODES::NVME_STATUS_CONTROLLER_LIST_INVALID),
            0x1d => Some(NVME_STATUS_COMMAND_SPECIFIC_CODES::NVME_STATUS_DEVICE_SELF_TEST_IN_PROGRESS),
            0x1e => Some(NVME_STATUS_COMMAND_SPECIFIC_CODES::NVME_STATUS_BOOT_PARTITION_WRITE_PROHIBITED),
            0x1f => Some(NVME_STATUS_COMMAND_SPECIFIC_CODES::NVME_STATUS_INVALID_CONTROLLER_IDENTIFIER),
            0x20 => Some(NVME_STATUS_COMMAND_SPECIFIC_CODES::NVME_STATUS_INVALID_SECONDARY_CONTROLLER_STATE),
            0x21 => Some(NVME_STATUS_COMMAND_SPECIFIC_CODES::NVME_STATUS_INVALID_NUMBER_OF_CONTROLLER_RESOURCES),
            0x22 => Some(NVME_STATUS_COMMAND_SPECIFIC_CODES::NVME_STATUS_INVALID_RESOURCE_IDENTIFIER),
            0x23 => Some(NVME_STATUS_COMMAND_SPECIFIC_CODES::NVME_STATUS_SANITIZE_PROHIBITED_ON_PERSISTENT_MEMORY),
            0x24 => Some(NVME_STATUS_COMMAND_SPECIFIC_CODES::NVME_STATUS_INVALID_ANA_GROUP_IDENTIFIER),
            0x25 => Some(NVME_STATUS_COMMAND_SPECIFIC_CODES::NVME_STATUS_ANA_ATTACH_FAILED),
            0x29 => Some(NVME_STATUS_COMMAND_SPECIFIC_CODES::NVME_IO_COMMAND_SET_NOT_SUPPORTED),
            0x2a => Some(NVME_STATUS_COMMAND_SPECIFIC_CODES::NVME_IO_COMMAND_SET_NOT_ENABLED),
            0x2b => Some(NVME_STATUS_COMMAND_SPECIFIC_CODES::NVME_IO_COMMAND_SET_COMBINATION_REJECTED),
            0x2c => Some(NVME_STATUS_COMMAND_SPECIFIC_CODES::NVME_IO_COMMAND_SET_INVALID),
            0x7f => Some(NVME_STATUS_COMMAND_SPECIFIC_CODES::NVME_STATUS_STREAM_RESOURCE_ALLOCATION_FAILED),
            0x80 => Some(NVME_STATUS_COMMAND_SPECIFIC_CODES::NVME_STATUS_NVM_CONFLICTING_ATTRIBUTES),
            0x81 => Some(NVME_STATUS_COMMAND_SPECIFIC_CODES::NVME_STATUS_NVM_INVALID_PROTECTION_INFORMATION),
            0x82 => Some(NVME_STATUS_COMMAND_SPECIFIC_CODES::NVME_STATUS_NVM_ATTEMPTED_WRITE_TO_READ_ONLY_RANGE),
            0x83 => Some(NVME_STATUS_COMMAND_SPECIFIC_CODES::NVME_STATUS_NVM_COMMAND_SIZE_LIMIT_EXCEEDED),
            0xb8 => Some(NVME_STATUS_COMMAND_SPECIFIC_CODES::NVME_STATUS_ZONE_BOUNDARY_ERROR),
            0xb9 => Some(NVME_STATUS_COMMAND_SPECIFIC_CODES::NVME_STATUS_ZONE_FULL),
            0xba => Some(NVME_STATUS_COMMAND_SPECIFIC_CODES::NVME_STATUS_ZONE_READ_ONLY),
            0xbb => Some(NVME_STATUS_COMMAND_SPECIFIC_CODES::NVME_STATUS_ZONE_OFFLINE),
            0xbc => Some(NVME_STATUS_COMMAND_SPECIFIC_CODES::NVME_STATUS_ZONE_INVALID_WRITE),
            0xbd => Some(NVME_STATUS_COMMAND_SPECIFIC_CODES::NVME_STATUS_ZONE_TOO_MANY_ACTIVE),
            0xbe => Some(NVME_STATUS_COMMAND_SPECIFIC_CODES::NVME_STATUS_ZONE_TOO_MANY_OPEN),
            0xbf => Some(NVME_STATUS_COMMAND_SPECIFIC_CODES::NVME_STATUS_ZONE_INVALID_STATE_TRANSITION),
            _ => None,
        }
    }
}

/// Status codes of the media and data integrity error status type.
#[allow(non_camel_case_types)]
#[derive(Clone, Copy, Debug, PartialEq, Eq, Structural)]
pub enum NVME_STATUS_MEDIA_ERROR_CODES {
    NVME_STATUS_NVM_WRITE_FAULT,
    NVME_STATUS_NVM_UNRECOVERED_READ_ERROR,
    NVME_STATUS_NVM_END_TO_END_GUARD_CHECK_ERROR,
    NVME_STATUS_NVM_END_TO_END_APPLICATION_TAG_CHECK_ERROR,
    NVME_STATUS_NVM_END_TO_END_REFERENCE_TAG_CHECK_ERROR,
    NVME_STATUS_NVM_COMPARE_FAILURE,
    NVME_STATUS_NVM_ACCESS_DENIED,
    NVME_STATUS_NVM_DEALLOCATED_OR_UNWRITTEN_LOGICAL_BLOCK,
}

impl NVME_STATUS_MEDIA_ERROR_CODES {
    /// The code as it stands on the wire.
    pub open spec fn spec_value(self) -> u8 {
        match self {
            NVME_STATUS_MEDIA_ERROR_CODES::NVME_STATUS_NVM_WRITE_FAULT => 0x80,
            NVME_STATUS_MEDIA_ERROR_CODES::NVME_STATUS_NVM_UNRECOVERED_READ_ERROR => 0x81,
            NVME_STATUS_MEDIA_ERROR_CODES::NVME_STATUS_NVM_END_TO_END_GUARD_CHECK_ERROR => 0x82,
            NVME_STATUS_MEDIA_ERROR_CODES::NVME_STATUS_NVM_END_TO_END_APPLICATION_TAG_CHECK_ERROR => 0x83,
            NVME_STATUS_MEDIA_ERROR_CODES::NVME_STATUS_NVM_END_TO_END_REFERENCE_TAG_CHECK_ERROR => 0x84,
            NVME_STATUS_MEDIA_ERROR_CODES::NVME_STATUS_NVM_COMPARE_FAILURE => 0x85,
            NVME_STATUS_MEDIA_ERROR_CODES::NVME_STATUS_NVM_ACCESS_DENIED => 0x86,
            NVME_STATUS_MEDIA_ERROR_CODES::NVME_STATUS_NVM_DEALLOCATED_OR_UNWRITTEN_LOGICAL_BLOCK => 0x87,
        }
    }

    #[verifier::when_used_as_spec(spec_value)]
    pub fn value(self) -> (r: u8)
        ensures
            r == self.spec_value(),
    {
        match self {
            NVME_STATUS_MEDIA_ERROR_CODES::NVME_STATUS_NVM_WRITE_FAULT => 0x80,
            NVME_STATUS_MEDIA_ERROR_CODES::NVME_STATUS_NVM_UNRECOVERED_READ_ERROR => 0x81,
            NVME_STATUS_MEDIA_ERROR_CODES::NVME_STATUS_NVM_END_TO_END_GUARD_CHECK_ERROR => 0x82,
            NVME_STATUS_MEDIA_ERROR_CODES::NVME_STATUS_NVM_END_TO_END_APPLICATION_TAG_CHECK_ERROR => 0x83,
            NVME_STATUS_MEDIA_ERROR_CODES::NVME_STATUS_NVM_END_TO_END_REFERENCE_TAG_CHECK_ERROR => 0x84,
            NVME_STATUS_MEDIA_ERROR_CODES::NVME_STATUS_NVM_COMPARE_FAILURE => 0x85,
            NVME_STATUS_MEDIA_ERROR_CODES::NVME_STATUS_NVM_ACCESS_DENIED => 0x86,
            NVME_STATUS_MEDIA_ERROR_CODES::NVME_STATUS_NVM_DEALLOCATED_OR_UNWRITTEN_LOGICAL_BLOCK => 0x87,
        }
    }

    /// The entry whose code is `v`, if the table has one.
    pub fn from_value(v: u8) -> (r: Option<NVME_STATUS_MEDIA_ERROR_CODES>)
        ensures
            r matches Some(c) ==> c.spec_value() == v,
            r is None ==> forall|c: NVME_STATUS_MEDIA_ERROR_CODES| #[trigger] c.spec_value() != v,
    {
        match v {
            0x80 => Some(NVME_STATUS_MEDIA_ERROR_CODES::NVME_STATUS_NVM_WRITE_FAULT),
            0x81 => Some(NVME_STATUS_MEDIA_ERROR_CODES::NVME_STATUS_NVM_UNRECOVERED_READ_ERROR),
            0x82 => Some(NVME_STATUS_MEDIA_ERROR_CODES::NVME_STATUS_NVM_END_TO_END_GUARD_CHECK_ERROR),
            0x83 => Some(NVME_STATUS_MEDIA_ERROR_CODES::NVME_STATUS_NVM_END_TO_END_APPLICATION_TAG_CHECK_ERROR),
            0x84 => Some(NVME_STATUS_MEDIA_ERROR_CODES::NVME_STATUS_NVM_END_TO_END_REFERENCE_TAG_CHECK_ERROR),
            0x85 => Some(NVME_STATUS_MEDIA_ERROR_CODES::NVME_STATUS_NVM_COMPARE_FAILURE),
            0x86 => Some(NVME_STATUS_MEDIA_ERROR_CODES::NVME_STATUS_NVM_ACCESS_DENIED),
            0x87 => Some(NVME_STATUS_MEDIA_ERROR_CODES::NVME_STATUS_NVM_DEALLOCATED_OR_UNWRITTEN_LOGICAL_BLOCK),
            _ => None,
        }
    }
}

/// Opcodes of the admin command set.
#[allow(non_camel_case_types)]
#[derive(Clone, Copy, Debug, PartialEq, Eq, Structural)]
pub enum NVME_ADMIN_COMMANDS {
    NVME_ADMIN_COMMAND_DELETE_IO_SQ,
    NVME_ADMIN_COMMAND_CREATE_IO_SQ,
    NVME_ADMIN_COMMAND_GET_LOG_PAGE,
    NVME_ADMIN_COMMAND_DELETE_IO_CQ,
    NVME_ADMIN_COMMAND_CREATE_IO_CQ,
    NVME_ADMIN_COMMAND_IDENTIFY,
    NVME_ADMIN_COMMAND_ABORT,
    NVME_ADMIN_COMMAND_SET_FEATURES,
    NVME_ADMIN_COMMAND_GET_FEATURES,
    NVME_ADMIN_COMMAND_ASYNC_EVENT_REQUEST,
    NVME_ADMIN_COMMAND_NAMESPACE_MANAGEMENT,
    NVME_ADMIN_COMMAND_FIRMWARE_COMMIT,
    NVME_ADMIN_COMMAND_FIRMWARE_IMAGE_DOWNLOAD,
    NVME_ADMIN_COMMAND_DEVICE_SELF_TEST,
    NVME_ADMIN_COMMAND_NAMESPACE_ATTACHMENT,
    NVME_ADMIN_COMMAND_DIRECTIVE_SEND,
    NVME_ADMIN_COMMAND_DIRECTIVE_RECEIVE,
    NVME_ADMIN_COMMAND_VIRTUALIZATION_MANAGEMENT,
    NVME_ADMIN_COMMAND_NVME_MI_SEND,
    NVME_ADMIN_COMMAND_NVME_MI_RECEIVE,
    NVME_ADMIN_COMMAND_DOORBELL_BUFFER_CONFIG,
    NVME_ADMIN_COMMAND_FORMAT_NVM,
    NVME_ADMIN_COMMAND_SECURITY_SEND,
    NVME_ADMIN_COMMAND_SECURITY_RECEIVE,
    NVME_ADMIN_COMMAND_SANITIZE,
    NVME_ADMIN_COMMAND_GET_LBA_STATUS,
}

impl NVME_ADMIN_COMMANDS {
    /// The code as it stands on the wire.
    pub open spec fn spec_value(self) -> u8 {
        match self {
            NVME_ADMIN_COMMANDS::NVME_ADMIN_COMMAND_DELETE_IO_SQ => 0x00,
            NVME_ADMIN_COMMANDS::NVME_ADMIN_COMMAND_CREATE_IO_SQ => 0x01,
            NVME_ADMIN_COMMANDS::NVME_ADMIN_COMMAND_GET_LOG_PAGE => 0x02,
            NVME_ADMIN_COMMANDS::NVME_ADMIN_COMMAND_DELETE_IO_CQ => 0x04,
            NVME_ADMIN_COMMANDS::NVME_ADMIN_COMMAND_CREATE_IO_CQ => 0x05,
            NVME_ADMIN_COMMANDS::NVME_ADMIN_COMMAND_IDENTIFY => 0x06,
            NVME_ADMIN_COMMANDS::NVME_ADMIN_COMMAND_ABORT => 0x08,
            NVME_ADMIN_COMMANDS::NVME_ADMIN_COMMAND_SET_FEATURES => 0x09,
            NVME_ADMIN_COMMANDS::NVME_ADMIN_COMMAND_GET_FEATURES => 0x0a,
            NVME_ADMIN_COMMANDS::NVME_ADMIN_COMMAND_ASYNC_EVENT_REQUEST => 0x0c,
            NVME_ADMIN_COMMANDS::NVME_ADMIN_COMMAND_NAMESPACE_MANAGEMENT => 0x0d,
            NVME_ADMIN_COMMANDS::NVME_ADMIN_COMMAND_FIRMWARE_COMMIT => 0x10,
            NVME_ADMIN_COMMANDS::NVME_ADMIN_COMMAND_FIRMWARE_IMAGE_DOWNLOAD => 0x11,
            NVME_ADMIN_COMMANDS::NVME_ADMIN_COMMAND_DEVICE_SELF_TEST => 0x14,
            NVME_ADMIN_COMMANDS::NVME_ADMIN_COMMAND_NAMESPACE_ATTACHMENT => 0x15,
            NVME_ADMIN_COMMANDS::NVME_ADMIN_COMMAND_DIRECTIVE_SEND => 0x19,
            NVME_ADMIN_COMMANDS::NVME_ADMIN_COMMAND_DIRECTIVE_RECEIVE => 0x1a,
            NVME_ADMIN_COMMANDS::NVME_ADMIN_COMMAND_VIRTUALIZATION_MANAGEMENT => 0x1c,
            NVME_ADMIN_COMMANDS::NVME_ADMIN_COMMAND_NVME_MI_SEND => 0x1d,
            NVME_ADMIN_COMMANDS::NVME_ADMIN_COMMAND_NVME_MI_RECEIVE => 0x1e,
            NVME_ADMIN_COMMANDS::NVME_ADMIN_COMMAND_DOORBELL_BUFFER_CONFIG => 0x7c,
            NVME_ADMIN_COMMANDS::NVME_ADMIN_COMMAND_FORMAT_NVM => 0x80,
            NVME_ADMIN_COMMANDS::NVME_ADMIN_COMMAND_SECURITY_SEND => 0x81,
            NVME_ADMIN_COMMANDS::NVME_ADMIN_COMMAND_SECURITY_RECEIVE => 0x82,
            NVME_ADMIN_COMMANDS::NVME_ADMIN_COMMAND_SANITIZE => 0x84,
            NVME_ADMIN_COMMANDS::NVME_ADMIN_COMMAND_GET_LBA_STATUS => 0x86,
        }
    }

    #[verifier::when_used_as_spec(spec_value)]
    pub fn value(self) -> (r: u8)
        ensures
            r == self.spec_value(),
    {
        match self {
            NVME_ADMIN_COMMANDS::NVME_ADMIN_COMMAND_DELETE_IO_SQ => 0x00,
            NVME_ADMIN_COMMANDS::NVME_ADMIN_COMMAND_CREATE_IO_SQ => 0x01,
            NVME_ADMIN_COMMANDS::NVME_ADMIN_COMMAND_GET_LOG_PAGE => 0x02,
            NVME_ADMIN_COMMANDS::NVME_ADMIN_COMMAND_DELETE_IO_CQ => 0x04,
            NVME_ADMIN_COMMANDS::NVME_ADMIN_COMMAND_CREATE_IO_CQ => 0x05,
            NVME_ADMIN_COMMANDS::NVME_ADMIN_COMMAND_IDENTIFY => 0x06,
            NVME_ADMIN_COMMANDS::NVME_ADMIN_COMMAND_ABORT => 0x08,
            NVME_ADMIN_COMMANDS::NVME_ADMIN_COMMAND_SET_FEATURES => 0x09,
            NVME_ADMIN_COMMANDS::NVME_ADMIN_COMMAND_GET_FEATURES => 0x0a,
            NVME_ADMIN_COMMANDS::NVME_ADMIN_COMMAND_ASYNC_EVENT_REQUEST => 0x0c,
            NVME_ADMIN_COMMANDS::NVME_ADMIN_COMMAND_NAMESPACE_MANAGEMENT => 0x0d,
            NVME_ADMIN_COMMANDS::NVME_ADMIN_COMMAND_FIRMWARE_COMMIT => 0x10,
            NVME_ADMIN_COMMANDS::NVME_ADMIN_COMMAND_FIRMWARE_IMAGE_DOWNLOAD => 0x11,
            NVME_ADMIN_COMMANDS::NVME_ADMIN_COMMAND_DEVICE_SELF_TEST => 0x14,
            NVME_ADMIN_COMMANDS::NVME_ADMIN_COMMAND_NAMESPACE_ATTACHMENT => 0x15,
            NVME_ADMIN_COMMANDS::NVME_ADMIN_COMMAND_DIRECTIVE_SEND => 0x19,
            NVME_ADMIN_COMMANDS::NVME_ADMIN_COMMAND_DIRECTIVE_RECEIVE => 0x1a,
            NVME_ADMIN_COMMANDS::NVME_ADMIN_COMMAND_VIRTUALIZATION_MANAGEMENT => 0x1c,
            NVME_ADMIN_COMMANDS::NVME_ADMIN_COMMAND_NVME_MI_SEND => 0x1d,
            NVME_ADMIN_COMMANDS::NVME_ADMIN_COMMAND_NVME_MI_RECEIVE => 0x1e,
            NVME_ADMIN_COMMANDS::NVME_ADMIN_COMMAND_DOORBELL_BUFFER_CONFIG => 0x7c,
            NVME_ADMIN_COMMANDS::NVME_ADMIN_COMMAND_FORMAT_NVM => 0x80,
            NVME_ADMIN_COMMANDS::NVME_ADMIN_COMMAND_SECURITY_SEND => 0x81,
            NVME_ADMIN_COMMANDS::NVME_ADMIN_COMMAND_SECURITY_RECEIVE => 0x82,
            NVME_ADMIN_COMMANDS::NVME_ADMIN_COMMAND_SANITIZE => 0x84,
            NVME_ADMIN_COMMANDS::NVME_ADMIN_COMMAND_GET_LBA_STATUS => 0x86,
        }
    }

    /// The entry whose code is `v`, if the table has one.
    pub fn from_value(v: u8) -> (r: Option<NVME_ADMIN_COMMANDS>)
        ensures
            r matches Some(c) ==> c.spec_value() == v,
            r is None ==> forall|c: NVME_ADMIN_COMMANDS| #[trigger] c.spec_value() != v,
    {
        match v {
            0x00 => Some(NVME_ADMIN_COMMANDS::NVME_ADMIN_COMMAND_DELETE_IO_SQ),
            0x01 => Some(NVME_ADMIN_COMMANDS::NVME_ADMIN_COMMAND_CREATE_IO_SQ),
            0x02 => Some(NVME_ADMIN_COMMANDS::NVME_ADMIN_COMMAND_GET_LOG_PAGE),
            0x04 => Some(NVME_ADMIN_COMMANDS::NVME_ADMIN_COMMAND_DELETE_IO_CQ),
            0x05 => Some(NVME_ADMIN_COMMANDS::NVME_ADMIN_COMMAND_CREATE_IO_CQ),
            0x06 => Some(NVME_ADMIN_COMMANDS::NVME_ADMIN_COMMAND_IDENTIFY),
            0x08 => Some(NVME_ADMIN_COMMANDS::NVME_ADMIN_COMMAND_ABORT),
            0x09 => Some(NVME_ADMIN_COMMANDS::NVME_ADMIN_COMMAND_SET_FEATURES),
            0x0a => Some(NVME_ADMIN_COMMANDS::NVME_ADMIN_COMMAND_GET_FEATURES),
            0x0c => Some(NVME_ADMIN_COMMANDS::NVME_ADMIN_COMMAND_ASYNC_EVENT_REQUEST),
            0x0d => Some(NVME_ADMIN_COMMANDS::NVME_ADMIN_COMMAND_NAMESPACE_MANAGEMENT),
            0x10 => Some(NVME_ADMIN_COMMANDS::NVME_ADMIN_COMMAND_FIRMWARE_COMMIT),
            0x11 => Some(NVME_ADMIN_COMMANDS::NVME_ADMIN_COMMAND_FIRMWARE_IMAGE_DOWNLOAD),
            0x14 => Some(NVME_ADMIN_COMMANDS::NVME_ADMIN_COMMAND_DEVICE_SELF_TEST),
            0x15 => Some(NVME_ADMIN_COMMANDS::NVME_ADMIN_COMMAND_NAMESPACE_ATTACHMENT),
            0x19 => Some(NVME_ADMIN_COMMANDS::NVME_ADMIN_COMMAND_DIRECTIVE_SEND),
            0x1a => Some(NVME_ADMIN_COMMANDS::NVME_ADMIN_COMMAND_DIRECTIVE_RECEIVE),
            0x1c => Some(NVME_ADMIN_COMMANDS::NVME_ADMIN_COMMAND_VIRTUALIZATION_MANAGEMENT),
            0x1d => Some(NVME_ADMIN_COMMANDS::NVME_ADMIN_COMMAND_NVME_MI_SEND),
            0x1e => Some(NVME_ADMIN_COMMANDS::NVME_ADMIN_COMMAND_NVME_MI_RECEIVE),
            0x7c => Some(NVME_ADMIN_COMMANDS::NVME_ADMIN_COMMAND_DOORBELL_BUFFER_CONFIG),
            0x80 => Some(NVME_ADMIN_COMMANDS::NVME_ADMIN_COMMAND_FORMAT_NVM),
            0x81 => Some(NVME_ADMIN_COMMANDS::NVME_ADMIN_COMMAND_SECURITY_SEND),
            0x82 => Some(NVME_ADMIN_COMMANDS::NVME_ADMIN_COMMAND_SECURITY_RECEIVE),
            0x84 => Some(NVME_ADMIN_COMMANDS::NVME_ADMIN_COMMAND_SANITIZE),
            0x86 => Some(NVME_ADMIN_COMMANDS::NVME_ADMIN_COMMAND_GET_LBA_STATUS),
            _ => None,
        }
    }
}

/// Feature identifiers of the Get Features and Set Features commands.
#[allow(non_camel_case_types)]
#[derive(Clone, Copy, Debug, PartialEq, Eq, Structural)]
pub enum NVME_FEATURES {
    NVME_FEATURE_ARBITRATION,
    NVME_FEATURE_POWER_MANAGEMENT,
    NVME_FEATURE_LBA_RANGE_TYPE,
    NVME_FEATURE_TEMPERATURE_THRESHOLD,
    NVME_FEATURE_ERROR_RECOVERY,
    NVME_FEATURE_VOLATILE_WRITE_CACHE,
    NVME_FEATURE_NUMBER_OF_QUEUES,
    NVME_FEATURE_INTERRUPT_COALESCING,
    NVME_FEATURE_INTERRUPT_VECTOR_CONFIG,
    NVME_FEATURE_WRITE_ATOMICITY,
    NVME_FEATURE_ASYNC_EVENT_CONFIG,
    NVME_FEATURE_AUTONOMOUS_POWER_STATE_TRANSITION,
    NVME_FEATURE_HOST_MEMORY_BUFFER,
    NVME_FEATURE_TIMESTAMP,
    NVME_FEATURE_KEEP_ALIVE,
    NVME_FEATURE_HOST_CONTROLLED_THERMAL_MANAGEMENT,
    NVME_FEATURE_NONOPERATIONAL_POWER_STATE,
    NVME_FEATURE_READ_RECOVERY_LEVEL_CONFIG,
    NVME_FEATURE_PREDICTABLE_LATENCY_MODE_CONFIG,
    NVME_FEATURE_PREDICTABLE_LATENCY_MODE_WINDOW,
    NVME_FEATURE_LBA_STATUS_INFORMATION_REPORT_INTERVAL,
    NVME_FEATURE_HOST_BEHAVIOR_SUPPORT,
    NVME_FEATURE_SANITIZE_CONFIG,
    NVME_FEATURE_ENDURANCE_GROUP_EVENT_CONFIG,
    NVME_FEATURE_IO_COMMAND_SET_PROFILE,
    NVME_FEATURE_ENHANCED_CONTROLLER_METADATA,
    NVME_FEATURE_CONTROLLER_METADATA,
    NVME_FEATURE_NAMESPACE_METADATA,
    NVME_FEATURE_NVM_SOFTWARE_PROGRESS_MARKER,
    NVME_FEATURE_NVM_HOST_IDENTIFIER,
    NVME_FEATURE_NVM_RESERVATION_NOTIFICATION_MASK,
    NVME_FEATURE_NVM_RESERVATION_PERSISTANCE,
    NVME_FEATURE_NVM_NAMESPACE_WRITE_PROTECTION_CONFIG,
    NVME_FEATURE_ERROR_INJECTION,
    NVME_FEATURE_CLEAR_FW_UPDATE_HISTORY,
    NVME_FEATURE_READONLY_WRITETHROUGH_MODE,
    NVME_FEATURE_CLEAR_PCIE_CORRECTABLE_ERROR_COUNTERS,
    NVME_FEATURE_ENABLE_IEEE1667_SILO,
    NVME_FEATURE_PLP_HEALTH_MONITOR,
}

impl NVME_FEATURES {
    /// The code as it stands on the wire.
    pub open spec fn spec_value(self) -> u8 {
        match self {
            NVME_FEATURES::NVME_FEATURE_ARBITRATION => 0x01,
            NVME_FEATURES::NVME_FEATURE_POWER_MANAGEMENT => 0x02,
            NVME_FEATURES::NVME_FEATURE_LBA_RANGE_TYPE => 0x03,
            NVME_FEATURES::NVME_FEATURE_TEMPERATURE_THRESHOLD => 0x04,
            NVME_FEATURES::NVME_FEATURE_ERROR_RECOVERY => 0x05,
            NVME_FEATURES::NVME_FEATURE_VOLATILE_WRITE_CACHE => 0x06,
            NVME_FEATURES::NVME_FEATURE_NUMBER_OF_QUEUES => 0x07,
            NVME_FEATURES::NVME_FEATURE_INTERRUPT_COALESCING => 0x08,
            NVME_FEATURES::NVME_FEATURE_INTERRUPT_VECTOR_CONFIG => 0x09,
            NVME_FEATURES::NVME_FEATURE_WRITE_ATOMICITY => 0x0a,
            NVME_FEATURES::NVME_FEATURE_ASYNC_EVENT_CONFIG => 0x0b,
            NVME_FEATURES::NVME_FEATURE_AUTONOMOUS_POWER_STATE_TRANSITION => 0x0c,
            NVME_FEATURES::NVME_FEATURE_HOST_MEMORY_BUFFER => 0x0d,
            NVME_FEATURES::NVME_FEATURE_TIMESTAMP => 0x0e,
            NVME_FEATURES::NVME_FEATURE_KEEP_ALIVE => 0x0f,
            NVME_FEATURES::NVME_FEATURE_HOST_CONTROLLED_THERMAL_MANAGEMENT => 0x10,
            NVME_FEATURES::NVME_FEATURE_NONOPERATIONAL_POWER_STATE => 0x11,
            NVME_FEATURES::NVME_FEATURE_READ_RECOVERY_LEVEL_CONFIG => 0x12,
            NVME_FEATURES::NVME_FEATURE_PREDICTABLE_LATENCY_MODE_CONFIG => 0x13,
            NVME_FEATURES::NVME_FEATURE_PREDICTABLE_LATENCY_MODE_WINDOW => 0x14,
            NVME_FEATURES::NVME_FEATURE_LBA_STATUS_INFORMATION_REPORT_INTERVAL => 0x15,
            NVME_FEATURES::NVME_FEATURE_HOST_BEHAVIOR_SUPPORT => 0x16,
            NVME_FEATURES::NVME_FEATURE_SANITIZE_CONFIG => 0x17,
            NVME_FEATURES::NVME_FEATURE_ENDURANCE_GROUP_EVENT_CONFIG => 0x18,
            NVME_FEATURES::NVME_FEATURE_IO_COMMAND_SET_PROFILE => 0x19,
            NVME_FEATURES::NVME_FEATURE_ENHANCED_CONTROLLER_METADATA => 0x7d,
            NVME_FEATURES::NVME_FEATURE_CONTROLLER_METADATA => 0x7e,
            NVME_FEATURES::NVME_FEATURE_NAMESPACE_METADATA => 0x7f,
            NVME_FEATURES::NVME_FEATURE_NVM_SOFTWARE_PROGRESS_MARKER => 0x80,
            NVME_FEATURES::NVME_FEATURE_NVM_HOST_IDENTIFIER => 0x81,
            NVME_FEATURES::NVME_FEATURE_NVM_RESERVATION_NOTIFICATION_MASK => 0x82,
            NVME_FEATURES::NVME_FEATURE_NVM_RESERVATION_PERSISTANCE => 0x83,
            NVME_FEATURES::NVME_FEATURE_NVM_NAMESPACE_WRITE_PROTECTION_CONFIG => 0x84,
            NVME_FEATURES::NVME_FEATURE_ERROR_INJECTION => 0xc0,
            NVME_FEATURES::NVME_FEATURE_CLEAR_FW_UPDATE_HISTORY => 0xc1,
            NVME_FEATURES::NVME_FEATURE_READONLY_WRITETHROUGH_MODE => 0xc2,
            NVME_FEATURES::NVME_FEATURE_CLEAR_PCIE_CORRECTABLE_ERROR_COUNTERS => 0xc3,
            NVME_FEATURES::NVME_FEATURE_ENABLE_IEEE1667_SILO => 0xc4,
            NVME_FEATURES::NVME_FEATURE_PLP_HEALTH_MONITOR => 0xc5,
        }
    }

    #[verifier::when_used_as_spec(spec_value)]
    pub fn value(self) -> (r: u8)
        ensures
            r == self.spec_value(),
    {
        match self {
            NVME_FEATURES::NVME_FEATURE_ARBITRATION => 0x01,
            NVME_FEATURES::NVME_FEATURE_POWER_MANAGEMENT => 0x02,
            NVME_FEATURES::NVME_FEATURE_LBA_RANGE_TYPE => 0x03,
            NVME_FEATURES::NVME_FEATURE_TEMPERATURE_THRESHOLD => 0x04,
            NVME_FEATURES::NVME_FEATURE_ERROR_RECOVERY => 0x05,
            NVME_FEATURES::NVME_FEATURE_VOLATILE_WRITE_CACHE => 0x06,
            NVME_FEATURES::NVME_FEATURE_NUMBER_OF_QUEUES => 0x07,
            NVME_FEATURES::NVME_FEATURE_INTERRUPT_COALESCING => 0x08,
            NVME_FEATURES::NVME_FEATURE_INTERRUPT_VECTOR_CONFIG => 0x09,
            NVME_FEATURES::NVME_FEATURE_WRITE_ATOMICITY => 0x0a,
            NVME_FEATURES::NVME_FEATURE_ASYNC_EVENT_CONFIG => 0x0b,
            NVME_FEATURES::NVME_FEATURE_AUTONOMOUS_POWER_STATE_TRANSITION => 0x0c,
            NVME_FEATURES::NVME_FEATURE_HOST_MEMORY_BUFFER => 0x0d,
            NVME_FEATURES::NVME_FEATURE_TIMESTAMP => 0x0e,
            NVME_FEATURES::NVME_FEATURE_KEEP_ALIVE => 0x0f,
            NVME_FEATURES::NVME_FEATURE_HOST_CONTROLLED_THERMAL_MANAGEMENT => 0x10,
            NVME_FEATURES::NVME_FEATURE_NONOPERATIONAL_POWER_STATE => 0x11,
            NVME_FEATURES::NVME_FEATURE_READ_RECOVERY_LEVEL_CONFIG => 0x12,
            NVME_FEATURES::NVME_FEATURE_PREDICTABLE_LATENCY_MODE_CONFIG => 0x13,
            NVME_FEATURES::NVME_FEATURE_PREDICTABLE_LATENCY_MODE_WINDOW => 0x14,
            NVME_FEATURES::NVME_FEATURE_LBA_STATUS_INFORMATION_REPORT_INTERVAL => 0x15,
            NVME_FEATURES::NVME_FEATURE_HOST_BEHAVIOR_SUPPORT => 0x16,
            NVME_FEATURES::NVME_FEATURE_SANITIZE_CONFIG => 0x17,
            NVME_FEATURES::NVME_FEATURE_ENDURANCE_GROUP_EVENT_CONFIG => 0x18,
            NVME_FEATURES::NVME_FEATURE_IO_COMMAND_SET_PROFILE => 0x19,
            NVME_FEATURES::NVME_FEATURE_ENHANCED_CONTROLLER_METADATA => 0x7d,
            NVME_FEATURES::NVME_FEATURE_CONTROLLER_METADATA => 0x7e,
            NVME_FEATURES::NVME_FEATURE_NAMESPACE_METADATA => 0x7f,
            NVME_FEATURES::NVME_FEATURE_NVM_SOFTWARE_PROGRESS_MARKER => 0x80,
            NVME_FEATURES::NVME_FEATURE_NVM_HOST_IDENTIFIER => 0x81,
            NVME_FEATURES::NVME_FEATURE_NVM_RESERVATION_NOTIFICATION_MASK => 0x82,
            NVME_FEATURES::NVME_FEATURE_NVM_RESERVATION_PERSISTANCE => 0x83,
            NVME_FEATURES::NVME_FEATURE_NVM_NAMESPACE_WRITE_PROTECTION_CONFIG => 0x84,
            NVME_FEATURES::NVME_FEATURE_ERROR_INJECTION => 0xc0,
            NVME_FEATURES::NVME_FEATURE_CLEAR_FW_UPDATE_HISTORY => 0xc1,
            NVME_FEATURES::NVME_FEATURE_READONLY_WRITETHROUGH_MODE => 0xc2,
            NVME_FEATURES::NVME_FEATURE_CLEAR_PCIE_CORRECTABLE_ERROR_COUNTERS => 0xc3,
            NVME_FEATURES::NVME_FEATURE_ENABLE_IEEE1667_SILO => 0xc4,
            NVME_FEATURES::NVME_FEATURE_PLP_HEALTH_MONITOR => 0xc5,
        }
    }

    /// The entry whose code is `v`, if the table has one.
    pub fn from_value(v: u8) -> (r: Option<NVME_FEATURES>)
        ensures
            r matches Some(c) ==> c.spec_value() == v,
            r is None ==> forall|c: NVME_FEATURES| #[trigger] c.spec_value() != v,
    {
        match v {
            0x01 => Some(NVME_FEATURES::NVME_FEATURE_ARBITRATION),
            0x02 => Some(NVME_FEATURES::NVME_FEATURE_POWER_MANAGEMENT),
            0x03 => Some(NVME_FEATURES::NVME_FEATURE_LBA_RANGE_TYPE),
            0x04 => Some(NVME_FEATURES::NVME_FEATURE_TEMPERATURE_THRESHOLD),
            0x05 => Some(NVME_FEATURES::NVME_FEATURE_ERROR_RECOVERY),
            0x06 => Some(NVME_FEATURES::NVME_FEATURE_VOLATILE_WRITE_CACHE),
            0x07 => Some(NVME_FEATURES::NVME_FEATURE_NUMBER_OF_QUEUES),
            0x08 => Some(NVME_FEATURES::NVME_FEATURE_INTERRUPT_COALESCING),
            0x09 => Some(NVME_FEATURES::NVME_FEATURE_INTERRUPT_VECTOR_CONFIG),
            0x0a => Some(NVME_FEATURES::NVME_FEATURE_WRITE_ATOMICITY),
            0x0b => Some(NVME_FEATURES::NVME_FEATURE_ASYNC_EVENT_CONFIG),
            0x0c => Some(NVME_FEATURES::NVME_FEATURE_AUTONOMOUS_POWER_STATE_TRANSITION),
            0x0d => Some(NVME_FEATURES::NVME_FEATURE_HOST_MEMORY_BUFFER),
            0x0e => Some(NVME_FEATURES::NVME_FEATURE_TIMESTAMP),
            0x0f => Some(NVME_FEATURES::NVME_FEATURE_KEEP_ALIVE),
            0x10 => Some(NVME_FEATURES::NVME_FEATURE_HOST_CONTROLLED_THERMAL_MANAGEMENT),
            0x11 => Some(NVME_FEATURES::NVME_FEATURE_NONOPERATIONAL_POWER_STATE),
            0x12 => Some(NVME_FEATURES::NVME_FEATURE_READ_RECOVERY_LEVEL_CONFIG),
            0x13 => Some(NVME_FEATURES::NVME_FEATURE_PREDICTABLE_LATENCY_MODE_CONFIG),
            0x14 => Some(NVME_FEATURES::NVME_FEATURE_PREDICTABLE_LATENCY_MODE_WINDOW),
            0x15 => Some(NVME_FEATURES::NVME_FEATURE_LBA_STATUS_INFORMATION_REPORT_INTERVAL),
            0x16 => Some(NVME_FEATURES::NVME_FEATURE_HOST_BEHAVIOR_SUPPORT),
            0x17 => Some(NVME_FEATURES::NVME_FEATURE_SANITIZE_CONFIG),
            0x18 => Some(NVME_FEATURES::NVME_FEATURE_ENDURANCE_GROUP_EVENT_CONFIG),
            0x19 => Some(NVME_FEATURES::NVME_FEATURE_IO_COMMAND_SET_PROFILE),
            0x7d => Some(NVME_FEATURES::NVME_FEATURE_ENHANCED_CONTROLLER_METADATA),
            0x7e => Some(NVME_FEATURES::NVME_FEATURE_CONTROLLER_METADATA),
            0x7f => Some(NVME_FEATURES::NVME_FEATURE_NAMESPACE_METADATA),
            0x80 => Some(NVME_FEATURES::NVME_FEATURE_NVM_SOFTWARE_PROGRESS_MARKER),
            0x81 => Some(NVME_FEATURES::NVME_FEATURE_NVM_HOST_IDENTIFIER),
            0x82 => Some(NVME_FEATURES::NVME_FEATURE_NVM_RESERVATION_NOTIFICATION_MASK),
            0x83 => Some(NVME_FEATURES::NVME_FEATURE_NVM_RESERVATION_PERSISTANCE),
            0x84 => Some(NVME_FEATURES::NVME_FEATURE_NVM_NAMESPACE_WRITE_PROTECTION_CONFIG),
            0xc0 => Some(NVME_FEATURES::NVME_FEATURE_ERROR_INJECTION),
            0xc1 => Some(NVME_FEATURES::NVME_FEATURE_CLEAR_FW_UPDATE_HISTORY),
            0xc2 => Some(NVME_FEATURES::NVME_FEATURE_READONLY_WRITETHROUGH_MODE),
            0xc3 => Some(NVME_FEATURES::NVME_FEATURE_CLEAR_PCIE_CORRECTABLE_ERROR_COUNTERS),
            0xc4 => Some(NVME_FEATURES::NVME_FEATURE_ENABLE_IEEE1667_SILO),
            0xc5 => Some(NVME_FEATURES::NVME_FEATURE_PLP_HEALTH_MONITOR),
            _ => None,
        }
    }
}

/// Controller or Namespace Structure (CNS) codes of the Identify command.
#[allow(non_camel_case_types)]
#[derive(Clone, Copy, Debug, PartialEq, Eq, Structural)]
pub enum NVME_IDENTIFY_CNS_CODES {
    NVME_IDENTIFY_CNS_SPECIFIC_NAMESPACE,
    NVME_IDENTIFY_CNS_CONTROLLER,
    NVME_IDENTIFY_CNS_ACTIVE_NAMESPACES,
    NVME_IDENTIFY_CNS_DESCRIPTOR_NAMESPACE,
    NVME_IDENTIFY_CNS_NVM_SET,
    NVME_IDENTIFY_CNS_SPECIFIC_NAMESPACE_IO_COMMAND_SET,
    NVME_IDENTIFY_CNS_SPECIFIC_CONTROLLER_IO_COMMAND_SET,
    NVME_IDENTIFY_CNS_ACTIVE_NAMESPACE_LIST_IO_COMMAND_SET,
    NVME_IDENTIFY_CNS_ALLOCATED_NAMESPACE_LIST,
    NVME_IDENTIFY_CNS_ALLOCATED_NAMESPACE,
    NVME_IDENTIFY_CNS_CONTROLLER_LIST_OF_NSID,
    NVME_IDENTIFY_CNS_CONTROLLER_LIST_OF_NVM_SUBSYSTEM,
    NVME_IDENTIFY_CNS_PRIMARY_CONTROLLER_CAPABILITIES,
    NVME_IDENTIFY_CNS_SECONDARY_CONTROLLER_LIST,
    NVME_IDENTIFY_CNS_NAMESPACE_GRANULARITY_LIST,
    NVME_IDENTIFY_CNS_UUID_LIST,
    NVME_IDENTIFY_CNS_DOMAIN_LIST,
    NVME_IDENTIFY_CNS_ENDURANCE_GROUP_LIST,
    NVME_IDENTIFY_CNS_ALLOCATED_NAMSPACE_LIST_IO_COMMAND_SET,
    NVME_IDENTIFY_CNS_ALLOCATED_NAMESPACE_IO_COMMAND_SET,
    NVME_IDENTIFY_CNS_IO_COMMAND_SET,
}

impl NVME_IDENTIFY_CNS_CODES {
    /// The code as it stands on the wire.
    pub open spec fn spec_value(self) -> u8 {
        match self {
            NVME_IDENTIFY_CNS_CODES::NVME_IDENTIFY_CNS_SPECIFIC_NAMESPACE => 0x00,
            NVME_IDENTIFY_CNS_CODES::NVME_IDENTIFY_CNS_CONTROLLER => 0x01,
            NVME_IDENTIFY_CNS_CODES::NVME_IDENTIFY_CNS_ACTIVE_NAMESPACES => 0x02,
            NVME_IDENTIFY_CNS_CODES::NVME_IDENTIFY_CNS_DESCRIPTOR_NAMESPACE => 0x03,
            NVME_IDENTIFY_CNS_CODES::NVME_IDENTIFY_CNS_NVM_SET => 0x04,
            NVME_IDENTIFY_CNS_CODES::NVME_IDENTIFY_CNS_SPECIFIC_NAMESPACE_IO_COMMAND_SET => 0x05,
            NVME_IDENTIFY_CNS_CODES::NVME_IDENTIFY_CNS_SPECIFIC_CONTROLLER_IO_COMMAND_SET => 0x06,
            NVME_IDENTIFY_CNS_CODES::NVME_IDENTIFY_CNS_ACTIVE_NAMESPACE_LIST_IO_COMMAND_SET => 0x07,
            NVME_IDENTIFY_CNS_CODES::NVME_IDENTIFY_CNS_ALLOCATED_NAMESPACE_LIST => 0x10,
            NVME_IDENTIFY_CNS_CODES::NVME_IDENTIFY_CNS_ALLOCATED_NAMESPACE => 0x11,
            NVME_IDENTIFY_CNS_CODES::NVME_IDENTIFY_CNS_CONTROLLER_LIST_OF_NSID => 0x12,
            NVME_IDENTIFY_CNS_CODES::NVME_IDENTIFY_CNS_CONTROLLER_LIST_OF_NVM_SUBSYSTEM => 0x13,
            NVME_IDENTIFY_CNS_CODES::NVME_IDENTIFY_CNS_PRIMARY_CONTROLLER_CAPABILITIES => 0x14,
            NVME_IDENTIFY_CNS_CODES::NVME_IDENTIFY_CNS_SECONDARY_CONTROLLER_LIST => 0x15,
            NVME_IDENTIFY_CNS_CODES::NVME_IDENTIFY_CNS_NAMESPACE_GRANULARITY_LIST => 0x16,
            NVME_IDENTIFY_CNS_CODES::NVME_IDENTIFY_CNS_UUID_LIST => 0x17,
            NVME_IDENTIFY_CNS_CODES::NVME_IDENTIFY_CNS_DOMAIN_LIST => 0x18,
            NVME_IDENTIFY_CNS_CODES::NVME_IDENTIFY_CNS_ENDURANCE_GROUP_LIST => 0x19,
            NVME_IDENTIFY_CNS_CODES::NVME_IDENTIFY_CNS_ALLOCATED_NAMSPACE_LIST_IO_COMMAND_SET => 0x1a,
            NVME_IDENTIFY_CNS_CODES::NVME_IDENTIFY_CNS_ALLOCATED_NAMESPACE_IO_COMMAND_SET => 0x1b,
            NVME_IDENTIFY_CNS_CODES::NVME_IDENTIFY_CNS_IO_COMMAND_SET => 0x1c,
        }
    }

    #[verifier::when_used_as_spec(spec_value)]
    pub fn value(self) -> (r: u8)
        ensures
            r == self.spec_value(),
    {
        match self {
            NVME_IDENTIFY_CNS_CODES::NVME_IDENTIFY_CNS_SPECIFIC_NAMESPACE => 0x00,
            NVME_IDENTIFY_CNS_CODES::NVME_IDENTIFY_CNS_CONTROLLER => 0x01,
            NVME_IDENTIFY_CNS_CODES::NVME_IDENTIFY_CNS_ACTIVE_NAMESPACES => 0x02,
            NVME_IDENTIFY_CNS_CODES::NVME_IDENTIFY_CNS_DESCRIPTOR_NAMESPACE => 0x03,
            NVME_IDENTIFY_CNS_CODES::NVME_IDENTIFY_CNS_NVM_SET => 0x04,
            NVME_IDENTIFY_CNS_CODES::NVME_IDENTIFY_CNS_SPECIFIC_NAMESPACE_IO_COMMAND_SET => 0x05,
            NVME_IDENTIFY_CNS_CODES::NVME_IDENTIFY_CNS_SPECIFIC_CONTROLLER_IO_COMMAND_SET => 0x06,
            NVME_IDENTIFY_CNS_CODES::NVME_IDENTIFY_CNS_ACTIVE_NAMESPACE_LIST_IO_COMMAND_SET => 0x07,
            NVME_IDENTIFY_CNS_CODES::NVME_IDENTIFY_CNS_ALLOCATED_NAMESPACE_LIST => 0x10,
            NVME_IDENTIFY_CNS_CODES::NVME_IDENTIFY_CNS_ALLOCATED_NAMESPACE => 0x11,
            NVME_IDENTIFY_CNS_CODES::NVME_IDENTIFY_CNS_CONTROLLER_LIST_OF_NSID => 0x12,
            NVME_IDENTIFY_CNS_CODES::NVME_IDENTIFY_CNS_CONTROLLER_LIST_OF_NVM_SUBSYSTEM => 0x13,
            NVME_IDENTIFY_CNS_CODES::NVME_IDENTIFY_CNS_PRIMARY_CONTROLLER_CAPABILITIES => 0x14,
            NVME_IDENTIFY_CNS_CODES::NVME_IDENTIFY_CNS_SECONDARY_CONTROLLER_LIST => 0x15,
            NVME_IDENTIFY_CNS_CODES::NVME_IDENTIFY_CNS_NAMESPACE_GRANULARITY_LIST => 0x16,
            NVME_IDENTIFY_CNS_CODES::NVME_IDENTIFY_CNS_UUID_LIST => 0x17,
            NVME_IDENTIFY_CNS_CODES::NVME_IDENTIFY_CNS_DOMAIN_LIST => 0x18,
            NVME_IDENTIFY_CNS_CODES::NVME_IDENTIFY_CNS_ENDURANCE_GROUP_LIST => 0x19,
            NVME_IDENTIFY_CNS_CODES::NVME_IDENTIFY_CNS_ALLOCATED_NAMSPACE_LIST_IO_COMMAND_SET => 0x1a,
            NVME_IDENTIFY_CNS_CODES::NVME_IDENTIFY_CNS_ALLOCATED_NAMESPACE_IO_COMMAND_SET => 0x1b,
            NVME_IDENTIFY_CNS_CODES::NVME_IDENTIFY_CNS_IO_COMMAND_SET => 0x1c,
        }
    }

    /// The entry whose code is `v`, if the table has one.
    pub fn from_value(v: u8) -> (r: Option<NVME_IDENTIFY_CNS_CODES>)
        ensures
            r matches Some(c) ==> c.spec_value() == v,
            r is None ==> forall|c: NVME_IDENTIFY_CNS_CODES| #[trigger] c.spec_value() != v,
    {
        match v {
            0x00 => Some(NVME_IDENTIFY_CNS_CODES::NVME_IDENTIFY_CNS_SPECIFIC_NAMESPACE),
            0x01 => Some(NVME_IDENTIFY_CNS_CODES::NVME_IDENTIFY_CNS_CONTROLLER),
            0x02 => Some(NVME_IDENTIFY_CNS_CODES::NVME_IDENTIFY_CNS_ACTIVE_NAMESPACES),
            0x03 => Some(NVME_IDENTIFY_CNS_CODES::NVME_IDENTIFY_CNS_DESCRIPTOR_NAMESPACE),
            0x04 => Some(NVME_IDENTIFY_CNS_CODES::NVME_IDENTIFY_CNS_NVM_SET),
            0x05 => Some(NVME_IDENTIFY_CNS_CODES::NVME_IDENTIFY_CNS_SPECIFIC_NAMESPACE_IO_COMMAND_SET),
            0x06 => Some(NVME_IDENTIFY_CNS_CODES::NVME_IDENTIFY_CNS_SPECIFIC_CONTROLLER_IO_COMMAND_SET),
            0x07 => Some(NVME_IDENTIFY_CNS_CODES::NVME_IDENTIFY_CNS_ACTIVE_NAMESPACE_LIST_IO_COMMAND_SET),
            0x10 => Some(NVME_IDENTIFY_CNS_CODES::NVME_IDENTIFY_CNS_ALLOCATED_NAMESPACE_LIST),
            0x11 => Some(NVME_IDENTIFY_CNS_CODES::NVME_IDENTIFY_CNS_ALLOCATED_NAMESPACE),
            0x12 => Some(NVME_IDENTIFY_CNS_CODES::NVME_IDENTIFY_CNS_CONTROLLER_LIST_OF_NSID),
            0x13 => Some(NVME_IDENTIFY_CNS_CODES::NVME_IDENTIFY_CNS_CONTROLLER_LIST_OF_NVM_SUBSYSTEM),
            0x14 => Some(NVME_IDENTIFY_CNS_CODES::NVME_IDENTIFY_CNS_PRIMARY_CONTROLLER_CAPABILITIES),
            0x15 => Some(NVME_IDENTIFY_CNS_CODES::NVME_IDENTIFY_CNS_SECONDARY_CONTROLLER_LIST),
            0x16 => Some(NVME_IDENTIFY_CNS_CODES::NVME_IDENTIFY_CNS_NAMESPACE_GRANULARITY_LIST),
            0x17 => Some(NVME_IDENTIFY_CNS_CODES::NVME_IDENTIFY_CNS_UUID_LIST),
            0x18 => Some(NVME_IDENTIFY_CNS_CODES::NVME_IDENTIFY_CNS_DOMAIN_LIST),
            0x19 => Some(NVME_IDENTIFY_CNS_CODES::NVME_IDENTIFY_CNS_ENDURANCE_GROUP_LIST),
            0x1a => Some(NVME_IDENTIFY_CNS_CODES::NVME_IDENTIFY_CNS_ALLOCATED_NAMSPACE_LIST_IO_COMMAND_SET),
            0x1b => Some(NVME_IDENTIFY_CNS_CODES::NVME_IDENTIFY_CNS_ALLOCATED_NAMESPACE_IO_COMMAND_SET),
            0x1c => Some(NVME_IDENTIFY_CNS_CODES::NVME_IDENTIFY_CNS_IO_COMMAND_SET),
            _ => None,
        }
    }
}

/// Log page identifiers of the Get Log Page command.
#[allow(non_camel_case_types)]
#[derive(Clone, Copy, Debug, PartialEq, Eq, Structural)]
pub enum NVME_LOG_PAGES {
    NVME_LOG_PAGE_ERROR_INFO,
    NVME_LOG_PAGE_HEALTH_INFO,
    NVME_LOG_PAGE_FIRMWARE_SLOT_INFO,
    NVME_LOG_PAGE_CHANGED_NAMESPACE_LIST,
    NVME_LOG_PAGE_COMMAND_EFFECTS,
    NVME_LOG_PAGE_DEVICE_SELF_TEST,
    NVME_LOG_PAGE_TELEMETRY_HOST_INITIATED,
    NVME_LOG_PAGE_TELEMETRY_CTLR_INITIATED,
    NVME_LOG_PAGE_ENDURANCE_GROUP_INFORMATION,
    NVME_LOG_PAGE_PREDICTABLE_LATENCY_NVM_SET,
    NVME_LOG_PAGE_PREDICTABLE_LATENCY_EVENT_AGGREGATE,
    NVME_LOG_PAGE_ASYMMETRIC_NAMESPACE_ACCESS,
    NVME_LOG_PAGE_PERSISTENT_EVENT_LOG,
    NVME_LOG_PAGE_LBA_STATUS_INFORMATION,
    NVME_LOG_PAGE_ENDURANCE_GROUP_EVENT_AGGREGATE,
    NVME_LOG_PAGE_RESERVATION_NOTIFICATION,
    NVME_LOG_PAGE_SANITIZE_STATUS,
    NVME_LOG_PAGE_CHANGED_ZONE_LIST,
}

impl NVME_LOG_PAGES {
    /// The code as it stands on the wire.
    pub open spec fn spec_value(self) -> u8 {
        match self {
            NVME_LOG_PAGES::NVME_LOG_PAGE_ERROR_INFO => 0x01,
            NVME_LOG_PAGES::NVME_LOG_PAGE_HEALTH_INFO => 0x02,
            NVME_LOG_PAGES::NVME_LOG_PAGE_FIRMWARE_SLOT_INFO => 0x03,
            NVME_LOG_PAGES::NVME_LOG_PAGE_CHANGED_NAMESPACE_LIST => 0x04,
            NVME_LOG_PAGES::NVME_LOG_PAGE_COMMAND_EFFECTS => 0x05,
            NVME_LOG_PAGES::NVME_LOG_PAGE_DEVICE_SELF_TEST => 0x06,
            NVME_LOG_PAGES::NVME_LOG_PAGE_TELEMETRY_HOST_INITIATED => 0x07,
            NVME_LOG_PAGES::NVME_LOG_PAGE_TELEMETRY_CTLR_INITIATED => 0x08,
            NVME_LOG_PAGES::NVME_LOG_PAGE_ENDURANCE_GROUP_INFORMATION => 0x09,
            NVME_LOG_PAGES::NVME_LOG_PAGE_PREDICTABLE_LATENCY_NVM_SET => 0x0a,
            NVME_LOG_PAGES::NVME_LOG_PAGE_PREDICTABLE_LATENCY_EVENT_AGGREGATE => 0x0b,
            NVME_LOG_PAGES::NVME_LOG_PAGE_ASYMMETRIC_NAMESPACE_ACCESS => 0x0c,
            NVME_LOG_PAGES::NVME_LOG_PAGE_PERSISTENT_EVENT_LOG => 0x0d,
            NVME_LOG_PAGES::NVME_LOG_PAGE_LBA_STATUS_INFORMATION => 0x0e,
            NVME_LOG_PAGES::NVME_LOG_PAGE_ENDURANCE_GROUP_EVENT_AGGREGATE => 0x0f,
            NVME_LOG_PAGES::NVME_LOG_PAGE_RESERVATION_NOTIFICATION => 0x80,
            NVME_LOG_PAGES::NVME_LOG_PAGE_SANITIZE_STATUS => 0x81,
            NVME_LOG_PAGES::NVME_LOG_PAGE_CHANGED_ZONE_LIST => 0xbf,
        }
    }

    #[verifier::when_used_as_spec(spec_value)]
    pub fn value(self) -> (r: u8)
        ensures
            r == self.spec_value(),
    {
        match self {
            NVME_LOG_PAGES::NVME_LOG_PAGE_ERROR_INFO => 0x01,
            NVME_LOG_PAGES::NVME_LOG_PAGE_HEALTH_INFO => 0x02,
            NVME_LOG_PAGES::NVME_LOG_PAGE_FIRMWARE_SLOT_INFO => 0x03,
            NVME_LOG_PAGES::NVME_LOG_PAGE_CHANGED_NAMESPACE_LIST => 0x04,
            NVME_LOG_PAGES::NVME_LOG_PAGE_COMMAND_EFFECTS => 0x05,
            NVME_LOG_PAGES::NVME_LOG_PAGE_DEVICE_SELF_TEST => 0x06,
            NVME_LOG_PAGES::NVME_LOG_PAGE_TELEMETRY_HOST_INITIATED => 0x07,
            NVME_LOG_PAGES::NVME_LOG_PAGE_TELEMETRY_CTLR_INITIATED => 0x08,
            NVME_LOG_PAGES::NVME_LOG_PAGE_ENDURANCE_GROUP_INFORMATION => 0x09,
            NVME_LOG_PAGES::NVME_LOG_PAGE_PREDICTABLE_LATENCY_NVM_SET => 0x0a,
            NVME_LOG_PAGES::NVME_LOG_PAGE_PREDICTABLE_LATENCY_EVENT_AGGREGATE => 0x0b,
            NVME_LOG_PAGES::NVME_LOG_PAGE_ASYMMETRIC_NAMESPACE_ACCESS => 0x0c,
            NVME_LOG_PAGES::NVME_LOG_PAGE_PERSISTENT_EVENT_LOG => 0x0d,
            NVME_LOG_PAGES::NVME_LOG_PAGE_LBA_STATUS_INFORMATION => 0x0e,
            NVME_LOG_PAGES::NVME_LOG_PAGE_ENDURANCE_GROUP_EVENT_AGGREGATE => 0x0f,
            NVME_LOG_PAGES::NVME_LOG_PAGE_RESERVATION_NOTIFICATION => 0x80,
            NVME_LOG_PAGES::NVME_LOG_PAGE_SANITIZE_STATUS => 0x81,
            NVME_LOG_PAGES::NVME_LOG_PAGE_CHANGED_ZONE_LIST => 0xbf,
        }
    }

    /// The entry whose code is `v`, if the table has one.
    pub fn from_value(v: u8) -> (r: Option<NVME_LOG_PAGES>)
        ensures
            r matches Some(c) ==> c.spec_value() == v,
            r is None ==> forall|c: NVME_LOG_PAGES| #[trigger] c.spec_value() != v,
    {
        match v {
            0x01 => Some(NVME_LOG_PAGES::NVME_LOG_PAGE_ERROR_INFO),
            0x02 => Some(NVME_LOG_PAGES::NVME_LOG_PAGE_HEALTH_INFO),
            0x03 => Some(NVME_LOG_PAGES::NVME_LOG_PAGE_FIRMWARE_SLOT_INFO),
            0x04 => Some(NVME_LOG_PAGES::NVME_LOG_PAGE_CHANGED_NAMESPACE_LIST),
            0x05 => Some(NVME_LOG_PAGES::NVME_LOG_PAGE_COMMAND_EFFECTS),
            0x06 => Some(NVME_LOG_PAGES::NVME_LOG_PAGE_DEVICE_SELF_TEST),
            0x07 => Some(NVME_LOG_PAGES::NVME_LOG_PAGE_TELEMETRY_HOST_INITIATED),
            0x08 => Some(NVME_LOG_PAGES::NVME_LOG_PAGE_TELEMETRY_CTLR_INITIATED),
            0x09 => Some(NVME_LOG_PAGES::NVME_LOG_PAGE_ENDURANCE_GROUP_INFORMATION),
            0x0a => Some(NVME_LOG_PAGES::NVME_LOG_PAGE_PREDICTABLE_LATENCY_NVM_SET),
            0x0b => Some(NVME_LOG_PAGES::NVME_LOG_PAGE_PREDICTABLE_LATENCY_EVENT_AGGREGATE),
            0x0c => Some(NVME_LOG_PAGES::NVME_LOG_PAGE_ASYMMETRIC_NAMESPACE_ACCESS),
            0x0d => Some(NVME_LOG_PAGES::NVME_LOG_PAGE_PERSISTENT_EVENT_LOG),
            0x0e => Some(NVME_LOG_PAGES::NVME_LOG_PAGE_LBA_STATUS_INFORMATION),
            0x0f => Some(NVME_LOG_PAGES::NVME_LOG_PAGE_ENDURANCE_GROUP_EVENT_AGGREGATE),
            0x80 => Some(NVME_LOG_PAGES::NVME_LOG_PAGE_RESERVATION_NOTIFICATION),
            0x81 => Some(NVME_LOG_PAGES::NVME_LOG_PAGE_SANITIZE_STATUS),
            0xbf => Some(NVME_LOG_PAGES::NVME_LOG_PAGE_CHANGED_ZONE_LIST),
            _ => None,
        }
    }
}

/// Select (SEL) values of the Get Features command: which value of the attribute is returned.
#[allow(non_camel_case_types)]
#[derive(Clone, Copy, Debug, PartialEq, Eq, Structural)]
pub enum NVME_FEATURE_VALUE_CODES {
    NVME_FEATURE_VALUE_CURRENT,
    NVME_FEATURE_VALUE_DEFAULT,
    NVME_FEATURE_VALUE_SAVED,
    NVME_FEATURE_VALUE_SUPPORTED_CAPABILITIES,
}

impl NVME_FEATURE_VALUE_CODES {
    /// The code as it stands on the wire.
    pub open spec fn spec_value(self) -> u8 {
        match self {
            NVME_FEATURE_VALUE_CODES::NVME_FEATURE_VALUE_CURRENT => 0x00,
            NVME_FEATURE_VALUE_CODES::NVME_FEATURE_VALUE_DEFAULT => 0x01,
            NVME_FEATURE_VALUE_CODES::NVME_FEATURE_VALUE_SAVED => 0x02,
            NVME_FEATURE_VALUE_CODES::NVME_FEATURE_VALUE_SUPPORTED_CAPABILITIES => 0x03,
        }
    }

    #[verifier::when_used_as_spec(spec_value)]
    pub fn value(self) -> (r: u8)
        ensures
            r == self.spec_value(),
    {
        match self {
            NVME_FEATURE_VALUE_CODES::NVME_FEATURE_VALUE_CURRENT => 0x00,
            NVME_FEATURE_VALUE_CODES::NVME_FEATURE_VALUE_DEFAULT => 0x01,
            NVME_FEATURE_VALUE_CODES::NVME_FEATURE_VALUE_SAVED => 0x02,
            NVME_FEATURE_VALUE_CODES::NVME_FEATURE_VALUE_SUPPORTED_CAPABILITIES => 0x03,
        }
    }

    /// The entry whose code is `v`, if the table has one.
    pub fn from_value(v: u8) -> (r: Option<NVME_FEATURE_VALUE_CODES>)
        ensures
            r matches Some(c) ==> c.spec_value() == v,
            r is None ==> forall|c: NVME_FEATURE_VALUE_CODES| #[trigger] c.spec_value() != v,
    {
        match v {
            0x00 => Some(NVME_FEATURE_VALUE_CODES::NVME_FEATURE_VALUE_CURRENT),
            0x01 => Some(NVME_FEATURE_VALUE_CODES::NVME_FEATURE_VALUE_DEFAULT),
            0x02 => Some(NVME_FEATURE_VALUE_CODES::NVME_FEATURE_VALUE_SAVED),
            0x03 => Some(NVME_FEATURE_VALUE_CODES::NVME_FEATURE_VALUE_SUPPORTED_CAPABILITIES),
            _ => None,
        }
    }
}

} // verus!
