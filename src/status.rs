use vstd::prelude::*;

use crate::bitfield::{lemma_low_mask_values, BitField};
use crate::codes::{
    NVME_STATUS_COMMAND_SPECIFIC_CODES, NVME_STATUS_GENERIC_COMMAND_CODES,
    NVME_STATUS_MEDIA_ERROR_CODES,
};

verus! {

/// Fields of the 16-bit completion status word, low bit first.
#[derive(Clone, Copy, Debug, PartialEq, Eq, Structural)]
pub enum StatusField {
    /// Phase tag, 1 bit.
    Phase,
    /// Status code (SC), 8 bits.
    Code,
    /// Status code type (SCT), 3 bits.
    CodeType,
    /// Reserved, 2 bits.
    Reserved,
    /// More information in the error log, 1 bit.
    More,
    /// Do not retry, 1 bit.
    DoNotRetry,
}

impl StatusField {
    pub open spec fn spec_layout(self) -> BitField {
        match self {
            StatusField::Phase => BitField { offset: 0, width: 1 },
            StatusField::Code => BitField { offset: 1, width: 8 },
            StatusField::CodeType => BitField { offset: 9, width: 3 },
            StatusField::Reserved => BitField { offset: 12, width: 2 },
            StatusField::More => BitField { offset: 14, width: 1 },
            StatusField::DoNotRetry => BitField { offset: 15, width: 1 },
        }
    }

    #[verifier::when_used_as_spec(spec_layout)]
    pub fn layout(self) -> (r: BitField)
        ensures
            r == self.spec_layout(),
            r.wf(),
            r.offset + r.width <= 16,
            r.width <= 8,
    {
        proof {
            lemma_low_mask_values();
        }
        match self {
            StatusField::Phase => BitField { offset: 0, width: 1 },
            StatusField::Code => BitField { offset: 1, width: 8 },
            StatusField::CodeType => BitField { offset: 9, width: 3 },
            StatusField::Reserved => BitField { offset: 12, width: 2 },
            StatusField::More => BitField { offset: 14, width: 1 },
            StatusField::DoNotRetry => BitField { offset: 15, width: 1 },
        }
    }
}

/// The completion status word of an NVMe command.
#[allow(non_camel_case_types)]
#[derive(Clone, Copy, Debug, PartialEq, Eq, Structural)]
pub struct NVME_COMMAND_STATUS {
    pub bits: u16,
}

/// What a completion status means, read in the table that its status code type selects.
#[derive(Clone, Copy, Debug, PartialEq, Eq, Structural)]
pub enum StatusMeaning {
    Success,
    Generic(NVME_STATUS_GENERIC_COMMAND_CODES),
    CommandSpecific(NVME_STATUS_COMMAND_SPECIFIC_CODES),
    MediaError(NVME_STATUS_MEDIA_ERROR_CODES),
    VendorSpecific(u8),
    /// A code type with no table, or a code its table does not list.
    Unknown { code_type: u8, code: u8 },
}

impl NVME_COMMAND_STATUS {
    pub open spec fn field(self, f: StatusField) -> u32 {
        f.spec_layout().spec_get(self.bits as u32)
    }

    pub open spec fn spec_sc(self) -> u8 {
        self.field(StatusField::Code) as u8
    }

    pub open spec fn spec_sct(self) -> u8 {
        self.field(StatusField::CodeType) as u8
    }

    /// Success is the generic code type with status code 0.
    pub open spec fn spec_is_success(self) -> bool {
        self.spec_sct() == 0 && self.spec_sc() == 0
    }

    /// The code is listed in the table that its code type selects.
    pub open spec fn spec_in_table(self) -> bool {
        let t = self.spec_sct();
        let c = self.spec_sc();
        ||| t == 0 && c != 0 && exists|g: NVME_STATUS_GENERIC_COMMAND_CODES| #[trigger] g.spec_value() == c
        ||| t == 1 && exists|g: NVME_STATUS_COMMAND_SPECIFIC_CODES| #[trigger] g.spec_value() == c
        ||| t == 2 && exists|g: NVME_STATUS_MEDIA_ERROR_CODES| #[trigger] g.spec_value() == c
        ||| t == 7
    }

    pub fn from_bits(bits: u16) -> (r: Self)
        ensures
            r.bits == bits,
    {
        NVME_COMMAND_STATUS { bits }
    }

    pub fn into_bits(&self) -> (r: u16)
        ensures
            r == self.bits,
    {
        self.bits
    }

    /// Reads one field of the status word.
    pub fn get(&self, f: StatusField) -> (r: u32)
        ensures
            r == self.field(f),
            r <= f.spec_layout().max(),
            r < 256,
    {
        proof {
            lemma_low_mask_values();
        }
        let l = f.layout();
        assert(l.width <= 8);
        assert(l.max() <= 255) by {
            assert(l.width == 1 || l.width == 2 || l.width == 3 || l.width == 8);
        }
        l.get(self.bits as u32)
    }

    /// Phase tag.
    #[allow(non_snake_case)]
    pub fn P(&self) -> (r: u8)
        ensures
            r == self.field(StatusField::Phase),
    {
        let v = self.get(StatusField::Phase);
        v as u8
    }

    /// Status code.
    #[allow(non_snake_case)]
    pub fn SC(&self) -> (r: u8)
        ensures
            r == self.spec_sc(),
            r == self.field(StatusField::Code),
    {
        let v = self.get(StatusField::Code);
        v as u8
    }

    /// Status code type.
    #[allow(non_snake_case)]
    pub fn SCT(&self) -> (r: u8)
        ensures
            r == self.spec_sct(),
            r == self.field(StatusField::CodeType),
            r < 8,
    {
        proof {
            lemma_low_mask_values();
        }
        let v = self.get(StatusField::CodeType);
        v as u8
    }

    /// More information is in the error log.
    #[allow(non_snake_case)]
    pub fn M(&self) -> (r: u8)
        ensures
            r == self.field(StatusField::More),
    {
        let v = self.get(StatusField::More);
        v as u8
    }

    /// The command should not be retried.
    #[allow(non_snake_case)]
    pub fn DNR(&self) -> (r: u8)
        ensures
            r == self.field(StatusField::DoNotRetry),
    {
        let v = self.get(StatusField::DoNotRetry);
        v as u8
    }

    pub fn is_success(&self) -> (r: bool)
        ensures
            r == self.spec_is_success(),
    {
        self.SCT() == 0 && self.SC() == 0
    }

    /// Decodes the status through the code table of its code type.
    pub fn meaning(&self) -> (r: StatusMeaning)
        ensures
            (r is Success) == self.spec_is_success(),
            r matches StatusMeaning::Generic(g) ==> self.spec_sct() == 0 && self.spec_sc() != 0
                && g.spec_value() == self.spec_sc(),
            r matches StatusMeaning::CommandSpecific(g) ==> self.spec_sct() == 1 && g.spec_value()
                == self.spec_sc(),
            r matches StatusMeaning::MediaError(g) ==> self.spec_sct() == 2 && g.spec_value()
                == self.spec_sc(),
            r matches StatusMeaning::VendorSpecific(c) ==> self.spec_sct() == 7 && c
                == self.spec_sc(),
            r matches StatusMeaning::Unknown { code_type, code } ==> code_type == self.spec_sct()
                && code == self.spec_sc() && !self.spec_in_table(),
    {
        let t = self.SCT();
        let c = self.SC();
        if t == 0 {
            if c == 0 {
                return StatusMeaning::Success;
            }
            match NVME_STATUS_GENERIC_COMMAND_CODES::from_value(c) {
                Some(g) => StatusMeaning::Generic(g),
                None => StatusMeaning::Unknown { code_type: t, code: c },
            }
        } else if t == 1 {
            match NVME_STATUS_COMMAND_SPECIFIC_CODES::from_value(c) {
                Some(g) => StatusMeaning::CommandSpecific(g),
                None => StatusMeaning::Unknown { code_type: t, code: c },
            }
        } else if t == 2 {
            match NVME_STATUS_MEDIA_ERROR_CODES::from_value(c) {
                Some(g) => StatusMeaning::MediaError(g),
                None => StatusMeaning::Unknown { code_type: t, code: c },
            }
        } else if t == 7 {
            StatusMeaning::VendorSpecific(c)
        } else {
            StatusMeaning::Unknown { code_type: t, code: c }
        }
    }
}

} // verus!
