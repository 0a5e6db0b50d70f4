use vstd::prelude::*;

use crate::bitfield::{lemma_low_mask_values, BitField};

verus! {


/// Fields of dword 10 of the Get Features command.
#[derive(Clone, Copy, Debug, PartialEq, Eq, Structural)]
pub enum GetFeaturesCdw10Field {
    /// Feature identifier.
    FID,
    /// Select: which value of the attribute is returned.
    SEL,
    /// Reserved.
    Reserved0,
}

impl GetFeaturesCdw10Field {
    pub open spec fn spec_layout(self) -> BitField {
        match self {
            GetFeaturesCdw10Field::FID => BitField { offset: 0, width: 8 },
            GetFeaturesCdw10Field::SEL => BitField { offset: 8, width: 3 },
            GetFeaturesCdw10Field::Reserved0 => BitField { offset: 11, width: 21 },
        }
    }

    #[verifier::when_used_as_spec(spec_layout)]
    pub fn layout(self) -> (r: BitField)
        ensures
            r == self.spec_layout(),
            r.wf(),
    {
        match self {
            GetFeaturesCdw10Field::FID => BitField { offset: 0, width: 8 },
            GetFeaturesCdw10Field::SEL => BitField { offset: 8, width: 3 },
            GetFeaturesCdw10Field::Reserved0 => BitField { offset: 11, width: 21 },
        }
    }
}


/// Fields of dword 10 of the Set Features command.
#[derive(Clone, Copy, Debug, PartialEq, Eq, Structural)]
pub enum SetFeaturesCdw10Field {
    /// Feature identifier.
    FID,
    /// Reserved.
    Reserved0,
    /// Save the attribute across power states.
    SV,
}

impl SetFeaturesCdw10Field {
    pub open spec fn spec_layout(self) -> BitField {
        match self {
            SetFeaturesCdw10Field::FID => BitField { offset: 0, width: 8 },
            SetFeaturesCdw10Field::Reserved0 => BitField { offset: 8, width: 23 },
            SetFeaturesCdw10Field::SV => BitField { offset: 31, width: 1 },
        }
    }

    #[verifier::when_used_as_spec(spec_layout)]
    pub fn layout(self) -> (r: BitField)
        ensures
            r == self.spec_layout(),
            r.wf(),
    {
        match self {
            SetFeaturesCdw10Field::FID => BitField { offset: 0, width: 8 },
            SetFeaturesCdw10Field::Reserved0 => BitField { offset: 8, width: 23 },
            SetFeaturesCdw10Field::SV => BitField { offset: 31, width: 1 },
        }
    }
}


/// Fields of the feature-specific dword 11 (and of completion dword 0 of Get Features).
#[derive(Clone, Copy, Debug, PartialEq, Eq, Structural)]
pub enum FeatureField {
    /// Arbitration: arbitration burst (AB).
    ArbitrationBurst,
    /// Arbitration: low priority weight (LPW).
    LowPriorityWeight,
    /// Arbitration: medium priority weight (MPW).
    MediumPriorityWeight,
    /// Arbitration: high priority weight (HPW).
    HighPriorityWeight,
    /// Power management: power state (PS).
    PowerState,
    /// LBA range type: number of LBA ranges (NUM).
    LbaRangeCount,
    /// Temperature threshold: threshold in kelvin (TMPTH).
    TemperatureThreshold,
    /// Temperature threshold: threshold temperature select (TMPSEL).
    ThresholdSensor,
    /// Temperature threshold: over or under threshold (THSEL).
    ThresholdType,
    /// Error recovery: time limited error recovery (TLER).
    TimeLimitedErrorRecovery,
    /// Error recovery: deallocated or unwritten logical block error enable (DULBE).
    DeallocatedErrorEnable,
    /// Volatile write cache: enable (WCE).
    VolatileWriteCacheEnable,
    /// Number of queues: I/O submission queues (NSQ).
    SubmissionQueues,
    /// Number of queues: I/O completion queues (NCQ).
    CompletionQueues,
    /// Interrupt coalescing: aggregation threshold (THR).
    AggregationThreshold,
    /// Interrupt coalescing: aggregation time (TIME).
    AggregationTime,
    /// Interrupt vector configuration: interrupt vector (IV).
    InterruptVector,
    /// Interrupt vector configuration: coalescing disabled (CD).
    CoalescingDisabled,
    /// Write atomicity normal: disable normal (DN).
    DisableNormal,
    /// Asynchronous event configuration: SMART / health critical warnings.
    CriticalWarnings,
    /// Asynchronous event configuration: namespace attribute notices.
    NamespaceAttributeNotices,
    /// Asynchronous event configuration: firmware activation notices.
    FirmwareActivationNotices,
    /// Asynchronous event configuration: telemetry log notices.
    TelemetryLogNotices,
    /// Asynchronous event configuration: asymmetric namespace access change notices.
    AnaChangeNotices,
    /// Asynchronous event configuration: predictable latency event aggregate log change notices.
    PredictableLogChangeNotices,
    /// Asynchronous event configuration: LBA status information notices.
    LbaStatusNotices,
    /// Asynchronous event configuration: endurance group event aggregate log change notices.
    EnduranceEventNotices,
    /// Asynchronous event configuration: zone descriptor changed notices.
    ZoneDescriptorNotices,
    /// Autonomous power state transition: enable (APSTE).
    AutonomousPowerStateTransitionEnable,
}

impl FeatureField {
    pub open spec fn spec_layout(self) -> BitField {
        match self {
            FeatureField::ArbitrationBurst => BitField { offset: 0, width: 3 },
            FeatureField::LowPriorityWeight => BitField { offset: 8, width: 8 },
            FeatureField::MediumPriorityWeight => BitField { offset: 16, width: 8 },
            FeatureField::HighPriorityWeight => BitField { offset: 24, width: 8 },
            FeatureField::PowerState => BitField { offset: 0, width: 5 },
            FeatureField::LbaRangeCount => BitField { offset: 0, width: 6 },
            FeatureField::TemperatureThreshold => BitField { offset: 0, width: 16 },
            FeatureField::ThresholdSensor => BitField { offset: 16, width: 4 },
            FeatureField::ThresholdType => BitField { offset: 20, width: 2 },
            FeatureField::TimeLimitedErrorRecovery => BitField { offset: 0, width: 16 },
            FeatureField::DeallocatedErrorEnable => BitField { offset: 16, width: 1 },
            FeatureField::VolatileWriteCacheEnable => BitField { offset: 0, width: 1 },
            FeatureField::SubmissionQueues => BitField { offset: 0, width: 16 },
            FeatureField::CompletionQueues => BitField { offset: 16, width: 16 },
            FeatureField::AggregationThreshold => BitField { offset: 0, width: 8 },
            FeatureField::AggregationTime => BitField { offset: 8, width: 8 },
            FeatureField::InterruptVector => BitField { offset: 0, width: 16 },
            FeatureField::CoalescingDisabled => BitField { offset: 16, width: 1 },
            FeatureField::DisableNormal => BitField { offset: 0, width: 1 },
            FeatureField::CriticalWarnings => BitField { offset: 0, width: 8 },
            FeatureField::NamespaceAttributeNotices => BitField { offset: 8, width: 1 },
            FeatureField::FirmwareActivationNotices => BitField { offset: 9, width: 1 },
            FeatureField::TelemetryLogNotices => BitField { offset: 10, width: 1 },
            FeatureField::AnaChangeNotices => BitField { offset: 11, width: 1 },
            FeatureField::PredictableLogChangeNotices => BitField { offset: 12, width: 1 },
            FeatureField::LbaStatusNotices => BitField { offset: 13, width: 1 },
            FeatureField::EnduranceEventNotices => BitField { offset: 14, width: 1 },
            FeatureField::ZoneDescriptorNotices => BitField { offset: 27, width: 1 },
            FeatureField::AutonomousPowerStateTransitionEnable => BitField { offset: 0, width: 1 },
        }
    }

    #[verifier::when_used_as_spec(spec_layout)]
    pub fn layout(self) -> (r: BitField)
        ensures
            r == self.spec_layout(),
            r.wf(),
    {
        match self {
            FeatureField::ArbitrationBurst => BitField { offset: 0, width: 3 },
            FeatureField::LowPriorityWeight => BitField { offset: 8, width: 8 },
            FeatureField::MediumPriorityWeight => BitField { offset: 16, width: 8 },
            FeatureField::HighPriorityWeight => BitField { offset: 24, width: 8 },
            FeatureField::PowerState => BitField { offset: 0, width: 5 },
            FeatureField::LbaRangeCount => BitField { offset: 0, width: 6 },
            FeatureField::TemperatureThreshold => BitField { offset: 0, width: 16 },
            FeatureField::ThresholdSensor => BitField { offset: 16, width: 4 },
            FeatureField::ThresholdType => BitField { offset: 20, width: 2 },
            FeatureField::TimeLimitedErrorRecovery => BitField { offset: 0, width: 16 },
            FeatureField::DeallocatedErrorEnable => BitField { offset: 16, width: 1 },
            FeatureField::VolatileWriteCacheEnable => BitField { offset: 0, width: 1 },
            FeatureField::SubmissionQueues => BitField { offset: 0, width: 16 },
            FeatureField::CompletionQueues => BitField { offset: 16, width: 16 },
            FeatureField::AggregationThreshold => BitField { offset: 0, width: 8 },
            FeatureField::AggregationTime => BitField { offset: 8, width: 8 },
            FeatureField::InterruptVector => BitField { offset: 0, width: 16 },
            FeatureField::CoalescingDisabled => BitField { offset: 16, width: 1 },
            FeatureField::DisableNormal => BitField { offset: 0, width: 1 },
            FeatureField::CriticalWarnings => BitField { offset: 0, width: 8 },
            FeatureField::NamespaceAttributeNotices => BitField { offset: 8, width: 1 },
            FeatureField::FirmwareActivationNotices => BitField { offset: 9, width: 1 },
            FeatureField::TelemetryLogNotices => BitField { offset: 10, width: 1 },
            FeatureField::AnaChangeNotices => BitField { offset: 11, width: 1 },
            FeatureField::PredictableLogChangeNotices => BitField { offset: 12, width: 1 },
            FeatureField::LbaStatusNotices => BitField { offset: 13, width: 1 },
            FeatureField::EnduranceEventNotices => BitField { offset: 14, width: 1 },
            FeatureField::ZoneDescriptorNotices => BitField { offset: 27, width: 1 },
            FeatureField::AutonomousPowerStateTransitionEnable => BitField { offset: 0, width: 1 },
        }
    }
}


/// The value of a feature, read field by field in the layout its identifier selects.
#[derive(Clone, Copy, Debug, PartialEq, Eq, Structural)]
pub enum FeatureValue {
    Arbitration { ab: u32, lpw: u32, mpw: u32, hpw: u32 },
    PowerManagement { ps: u32 },
    LbaRangeType { num: u32 },
    TemperatureThreshold { tmpth: u32, tmpsel: u32, thsel: u32 },
    ErrorRecovery { tler: u32, dulbe: u32 },
    VolatileWriteCache { wce: u32 },
    NumberOfQueues { nsq: u32, ncq: u32 },
    InterruptCoalescing { thr: u32, time: u32 },
    InterruptVectorConfig { iv: u32, cd: u32 },
    WriteAtomicity { dn: u32 },
    AsyncEventConfig { critical_warnings: u32, namespace_attribute: u32, firmware_activation: u32, telemetry_log: u32, ana_change: u32, predictable_log: u32, lba_status: u32, endurance_event: u32, zone_descriptor: u32 },
    AutonomousPowerStateTransition { apste: u32 },
    HostControlledThermalManagement { tmpth: u32 },
    /// A feature with no field layout here: the raw dword.
    Other { fid: u32, value: u32 },
}

/// The layout of feature `fid` applied to `value`.
pub open spec fn feature_value_of(fid: u32, value: u32) -> FeatureValue {
    match fid {
        0x01 => FeatureValue::Arbitration { ab: FeatureField::ArbitrationBurst.spec_layout().spec_get(value), lpw: FeatureField::LowPriorityWeight.spec_layout().spec_get(value), mpw: FeatureField::MediumPriorityWeight.spec_layout().spec_get(value), hpw: FeatureField::HighPriorityWeight.spec_layout().spec_get(value) },
        0x02 => FeatureValue::PowerManagement { ps: FeatureField::PowerState.spec_layout().spec_get(value) },
        0x03 => FeatureValue::LbaRangeType { num: FeatureField::LbaRangeCount.spec_layout().spec_get(value) },
        0x04 => FeatureValue::TemperatureThreshold { tmpth: FeatureField::TemperatureThreshold.spec_layout().spec_get(value), tmpsel: FeatureField::ThresholdSensor.spec_layout().spec_get(value), thsel: FeatureField::ThresholdType.spec_layout().spec_get(value) },
        0x05 => FeatureValue::ErrorRecovery { tler: FeatureField::TimeLimitedErrorRecovery.spec_layout().spec_get(value), dulbe: FeatureField::DeallocatedErrorEnable.spec_layout().spec_get(value) },
        0x06 => FeatureValue::VolatileWriteCache { wce: FeatureField::VolatileWriteCacheEnable.spec_layout().spec_get(value) },
        0x07 => FeatureValue::NumberOfQueues { nsq: FeatureField::SubmissionQueues.spec_layout().spec_get(value), ncq: FeatureField::CompletionQueues.spec_layout().spec_get(value) },
        0x08 => FeatureValue::InterruptCoalescing { thr: FeatureField::AggregationThreshold.spec_layout().spec_get(value), time: FeatureField::AggregationTime.spec_layout().spec_get(value) },
        0x09 => FeatureValue::InterruptVectorConfig { iv: FeatureField::InterruptVector.spec_layout().spec_get(value), cd: FeatureField::CoalescingDisabled.spec_layout().spec_get(value) },
        0x0a => FeatureValue::WriteAtomicity { dn: FeatureField::DisableNormal.spec_layout().spec_get(value) },
        0x0b => FeatureValue::AsyncEventConfig { critical_warnings: FeatureField::CriticalWarnings.spec_layout().spec_get(value), namespace_attribute: FeatureField::NamespaceAttributeNotices.spec_layout().spec_get(value), firmware_activation: FeatureField::FirmwareActivationNotices.spec_layout().spec_get(value), telemetry_log: FeatureField::TelemetryLogNotices.spec_layout().spec_get(value), ana_change: FeatureField::AnaChangeNotices.spec_layout().spec_get(value), predictable_log: FeatureField::PredictableLogChangeNotices.spec_layout().spec_get(value), lba_status: FeatureField::LbaStatusNotices.spec_layout().spec_get(value), endurance_event: FeatureField::EnduranceEventNotices.spec_layout().spec_get(value), zone_descriptor: FeatureField::ZoneDescriptorNotices.spec_layout().spec_get(value) },
        0x0c => FeatureValue::AutonomousPowerStateTransition { apste: FeatureField::AutonomousPowerStateTransitionEnable.spec_layout().spec_get(value) },
        0x10 => FeatureValue::HostControlledThermalManagement { tmpth: FeatureField::TemperatureThreshold.spec_layout().spec_get(value) },
        _ => FeatureValue::Other { fid, value },
    }
}

/// Decodes a feature dword (a Get Features result or a Set Features dword 11) by
/// the layout of its feature identifier.
pub fn decode_feature(fid: u32, value: u32) -> (r: FeatureValue)
    ensures
        r == feature_value_of(fid, value),
{
    match fid {
        0x01 => FeatureValue::Arbitration { ab: FeatureField::ArbitrationBurst.layout().get(value), lpw: FeatureField::LowPriorityWeight.layout().get(value), mpw: FeatureField::MediumPriorityWeight.layout().get(value), hpw: FeatureField::HighPriorityWeight.layout().get(value) },
        0x02 => FeatureValue::PowerManagement { ps: FeatureField::PowerState.layout().get(value) },
        0x03 => FeatureValue::LbaRangeType { num: FeatureField::LbaRangeCount.layout().get(value) },
        0x04 => FeatureValue::TemperatureThreshold { tmpth: FeatureField::TemperatureThreshold.layout().get(value), tmpsel: FeatureField::ThresholdSensor.layout().get(value), thsel: FeatureField::ThresholdType.layout().get(value) },
        0x05 => FeatureValue::ErrorRecovery { tler: FeatureField::TimeLimitedErrorRecovery.layout().get(value), dulbe: FeatureField::DeallocatedErrorEnable.layout().get(value) },
        0x06 => FeatureValue::VolatileWriteCache { wce: FeatureField::VolatileWriteCacheEnable.layout().get(value) },
        0x07 => FeatureValue::NumberOfQueues { nsq: FeatureField::SubmissionQueues.layout().get(value), ncq: FeatureField::CompletionQueues.layout().get(value) },
        0x08 => FeatureValue::InterruptCoalescing { thr: FeatureField::AggregationThreshold.layout().get(value), time: FeatureField::AggregationTime.layout().get(value) },
        0x09 => FeatureValue::InterruptVectorConfig { iv: FeatureField::InterruptVector.layout().get(value), cd: FeatureField::CoalescingDisabled.layout().get(value) },
        0x0a => FeatureValue::WriteAtomicity { dn: FeatureField::DisableNormal.layout().get(value) },
        0x0b => FeatureValue::AsyncEventConfig { critical_warnings: FeatureField::CriticalWarnings.layout().get(value), namespace_attribute: FeatureField::NamespaceAttributeNotices.layout().get(value), firmware_activation: FeatureField::FirmwareActivationNotices.layout().get(value), telemetry_log: FeatureField::TelemetryLogNotices.layout().get(value), ana_change: FeatureField::AnaChangeNotices.layout().get(value), predictable_log: FeatureField::PredictableLogChangeNotices.layout().get(value), lba_status: FeatureField::LbaStatusNotices.layout().get(value), endurance_event: FeatureField::EnduranceEventNotices.layout().get(value), zone_descriptor: FeatureField::ZoneDescriptorNotices.layout().get(value) },
        0x0c => FeatureValue::AutonomousPowerStateTransition { apste: FeatureField::AutonomousPowerStateTransitionEnable.layout().get(value) },
        0x10 => FeatureValue::HostControlledThermalManagement { tmpth: FeatureField::TemperatureThreshold.layout().get(value) },
        _ => FeatureValue::Other { fid, value },
    }
}

/// Why a feature command could not be encoded.
#[derive(Clone, Copy, Debug, PartialEq, Eq, Structural)]
pub enum FeatureError {
    /// The feature identifier does not fit in its 8-bit field.
    FidOutOfRange,
    /// The select value does not fit in its 3-bit field.
    SelectOutOfRange,
    /// A Volatile Write Cache value other than 0 or 1.
    NotABoolean,
}

/// The feature identifier of Volatile Write Cache.
pub const FID_VOLATILE_WRITE_CACHE: u32 = 0x06;

/// Dword 10 of a Get Features command.
pub open spec fn get_features_cdw10_of(fid: u32, sel: u32) -> u32 {
    GetFeaturesCdw10Field::SEL.spec_layout().spec_set(
        GetFeaturesCdw10Field::FID.spec_layout().spec_set(0, fid),
        sel,
    )
}

/// Dword 10 of a Set Features command that does not ask to save.
pub open spec fn set_features_cdw10_of(fid: u32) -> u32 {
    SetFeaturesCdw10Field::SV.spec_layout().spec_set(
        SetFeaturesCdw10Field::FID.spec_layout().spec_set(0, fid),
        0,
    )
}

/// Dword 11 of a Set Features command: Volatile Write Cache re-encodes its boolean into the
/// WCE bit; every other feature takes the value as it is.
pub open spec fn set_features_cdw11_of(fid: u32, value: u32) -> u32 {
    if fid == FID_VOLATILE_WRITE_CACHE {
        FeatureField::VolatileWriteCacheEnable.spec_layout().spec_set(0, value)
    } else {
        value
    }
}

/// Encodes dword 10 of Get Features from a feature identifier and a select value.
pub fn get_features_cdw10(fid: u32, sel: u32) -> (r: Result<u32, FeatureError>)
    ensures
        fid > 0xff ==> r == Err::<u32, FeatureError>(FeatureError::FidOutOfRange),
        fid <= 0xff && sel > 7 ==> r == Err::<u32, FeatureError>(FeatureError::SelectOutOfRange),
        fid <= 0xff && sel <= 7 ==> r == Ok::<u32, FeatureError>(get_features_cdw10_of(fid, sel)),
{
    proof {
        lemma_low_mask_values();
    }
    if fid > 0xff {
        return Err(FeatureError::FidOutOfRange);
    }
    if sel > 7 {
        return Err(FeatureError::SelectOutOfRange);
    }
    let w = GetFeaturesCdw10Field::FID.layout().set(0, fid);
    Ok(GetFeaturesCdw10Field::SEL.layout().set(w, sel))
}

/// Encodes dwords 10 and 11 of Set Features. The Volatile Write Cache value is a boolean
/// and is re-encoded into its bit; it is never passed through as it came.
pub fn set_features_dwords(fid: u32, value: u32) -> (r: Result<(u32, u32), FeatureError>)
    ensures
        fid > 0xff ==> r == Err::<(u32, u32), FeatureError>(FeatureError::FidOutOfRange),
        fid == FID_VOLATILE_WRITE_CACHE && value > 1 ==> r == Err::<(u32, u32), FeatureError>(
            FeatureError::NotABoolean,
        ),
        fid <= 0xff && !(fid == FID_VOLATILE_WRITE_CACHE && value > 1) ==> r == Ok::<
            (u32, u32),
            FeatureError,
        >((set_features_cdw10_of(fid), set_features_cdw11_of(fid, value))),
{
    proof {
        lemma_low_mask_values();
    }
    if fid > 0xff {
        return Err(FeatureError::FidOutOfRange);
    }
    let w = SetFeaturesCdw10Field::FID.layout().set(0, fid);
    let cdw10 = SetFeaturesCdw10Field::SV.layout().set(w, 0);
    if fid == FID_VOLATILE_WRITE_CACHE {
        if value > 1 {
            return Err(FeatureError::NotABoolean);
        }
        let cdw11 = FeatureField::VolatileWriteCacheEnable.layout().set(0, value);
        Ok((cdw10, cdw11))
    } else {
        Ok((cdw10, value))
    }
}

} // verus!
