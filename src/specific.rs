//! The command-specific dwords 10 to 15 of an NVMe command, as a tagged value per
//! command shape, encoded field by field.
use vstd::prelude::*;

use crate::bitfield::{lemma_low_mask_values, BitField};
use crate::command::{IdentifyCdw10Field, NVME_COMMAND};
use crate::feature::{GetFeaturesCdw10Field, SetFeaturesCdw10Field};

verus! {

/// Fields of dword 11 of the Identify command.
#[derive(Clone, Copy, Debug, PartialEq, Eq, Structural)]
pub enum IdentifyCdw11Field {
    /// CNS specific identifier (NVM set, domain or endurance group).
    CNSID,
    /// Command set identifier.
    CSI,
}

impl IdentifyCdw11Field {
    pub open spec fn spec_layout(self) -> BitField {
        match self {
            IdentifyCdw11Field::CNSID => BitField { offset: 0, width: 16 },
            IdentifyCdw11Field::CSI => BitField { offset: 24, width: 8 },
        }
    }

    #[verifier::when_used_as_spec(spec_layout)]
    pub fn layout(self) -> (r: BitField)
        ensures
            r == self.spec_layout(),
            r.wf(),
    {
        match self {
            IdentifyCdw11Field::CNSID => BitField { offset: 0, width: 16 },
            IdentifyCdw11Field::CSI => BitField { offset: 24, width: 8 },
        }
    }
}

/// Fields of dword 10 of the Get Log Page command.
#[derive(Clone, Copy, Debug, PartialEq, Eq, Structural)]
pub enum GetLogPageCdw10Field {
    /// Log page identifier.
    LID,
    /// Log specific field.
    LSP,
    /// Retain asynchronous event.
    RAE,
    /// Number of dwords, lower half (zero-based).
    NUMDL,
}

impl GetLogPageCdw10Field {
    pub open spec fn spec_layout(self) -> BitField {
        match self {
            GetLogPageCdw10Field::LID => BitField { offset: 0, width: 8 },
            GetLogPageCdw10Field::LSP => BitField { offset: 8, width: 4 },
            GetLogPageCdw10Field::RAE => BitField { offset: 15, width: 1 },
            GetLogPageCdw10Field::NUMDL => BitField { offset: 16, width: 16 },
        }
    }

    #[verifier::when_used_as_spec(spec_layout)]
    pub fn layout(self) -> (r: BitField)
        ensures
            r == self.spec_layout(),
            r.wf(),
    {
        match self {
            GetLogPageCdw10Field::LID => BitField { offset: 0, width: 8 },
            GetLogPageCdw10Field::LSP => BitField { offset: 8, width: 4 },
            GetLogPageCdw10Field::RAE => BitField { offset: 15, width: 1 },
            GetLogPageCdw10Field::NUMDL => BitField { offset: 16, width: 16 },
        }
    }
}

/// Fields of dword 11 of the Get Log Page command.
#[derive(Clone, Copy, Debug, PartialEq, Eq, Structural)]
pub enum GetLogPageCdw11Field {
    /// Number of dwords, upper half.
    NUMDU,
    /// Log specific identifier.
    LSI,
}

impl GetLogPageCdw11Field {
    pub open spec fn spec_layout(self) -> BitField {
        match self {
            GetLogPageCdw11Field::NUMDU => BitField { offset: 0, width: 16 },
            GetLogPageCdw11Field::LSI => BitField { offset: 16, width: 16 },
        }
    }

    #[verifier::when_used_as_spec(spec_layout)]
    pub fn layout(self) -> (r: BitField)
        ensures
            r == self.spec_layout(),
            r.wf(),
    {
        match self {
            GetLogPageCdw11Field::NUMDU => BitField { offset: 0, width: 16 },
            GetLogPageCdw11Field::LSI => BitField { offset: 16, width: 16 },
        }
    }
}

/// Fields of dword 14 of the Get Log Page command.
#[derive(Clone, Copy, Debug, PartialEq, Eq, Structural)]
pub enum GetLogPageCdw14Field {
    /// UUID index.
    UUIDIndex,
    /// Command set identifier.
    CSI,
}

impl GetLogPageCdw14Field {
    pub open spec fn spec_layout(self) -> BitField {
        match self {
            GetLogPageCdw14Field::UUIDIndex => BitField { offset: 0, width: 7 },
            GetLogPageCdw14Field::CSI => BitField { offset: 24, width: 8 },
        }
    }

    #[verifier::when_used_as_spec(spec_layout)]
    pub fn layout(self) -> (r: BitField)
        ensures
            r == self.spec_layout(),
            r.wf(),
    {
        match self {
            GetLogPageCdw14Field::UUIDIndex => BitField { offset: 0, width: 7 },
            GetLogPageCdw14Field::CSI => BitField { offset: 24, width: 8 },
        }
    }
}

/// Fields of dword 12 of the Read and Write commands.
#[derive(Clone, Copy, Debug, PartialEq, Eq, Structural)]
pub enum ReadWriteCdw12Field {
    /// Number of logical blocks (zero-based).
    NLB,
    /// Directive type.
    DTYPE,
    /// Protection information.
    PRINFO,
    /// Force unit access.
    FUA,
    /// Limited retry.
    LR,
}

impl ReadWriteCdw12Field {
    pub open spec fn spec_layout(self) -> BitField {
        match self {
            ReadWriteCdw12Field::NLB => BitField { offset: 0, width: 16 },
            ReadWriteCdw12Field::DTYPE => BitField { offset: 20, width: 4 },
            ReadWriteCdw12Field::PRINFO => BitField { offset: 26, width: 4 },
            ReadWriteCdw12Field::FUA => BitField { offset: 30, width: 1 },
            ReadWriteCdw12Field::LR => BitField { offset: 31, width: 1 },
        }
    }

    #[verifier::when_used_as_spec(spec_layout)]
    pub fn layout(self) -> (r: BitField)
        ensures
            r == self.spec_layout(),
            r.wf(),
    {
        match self {
            ReadWriteCdw12Field::NLB => BitField { offset: 0, width: 16 },
            ReadWriteCdw12Field::DTYPE => BitField { offset: 20, width: 4 },
            ReadWriteCdw12Field::PRINFO => BitField { offset: 26, width: 4 },
            ReadWriteCdw12Field::FUA => BitField { offset: 30, width: 1 },
            ReadWriteCdw12Field::LR => BitField { offset: 31, width: 1 },
        }
    }
}

/// Fields of dword 13 of the Read and Write commands.
#[derive(Clone, Copy, Debug, PartialEq, Eq, Structural)]
pub enum ReadWriteCdw13Field {
    /// Dataset management.
    DSM,
    /// Directive specific value.
    DSPEC,
}

impl ReadWriteCdw13Field {
    pub open spec fn spec_layout(self) -> BitField {
        match self {
            ReadWriteCdw13Field::DSM => BitField { offset: 0, width: 8 },
            ReadWriteCdw13Field::DSPEC => BitField { offset: 16, width: 16 },
        }
    }

    #[verifier::when_used_as_spec(spec_layout)]
    pub fn layout(self) -> (r: BitField)
        ensures
            r == self.spec_layout(),
            r.wf(),
    {
        match self {
            ReadWriteCdw13Field::DSM => BitField { offset: 0, width: 8 },
            ReadWriteCdw13Field::DSPEC => BitField { offset: 16, width: 16 },
        }
    }
}

/// The command-specific part of a command, by shape.
#[derive(Clone, Copy, Debug, PartialEq, Eq, Structural)]
pub enum CommandSpecific {
    /// Dwords as they are.
    General { cdw10: u32, cdw11: u32, cdw12: u32, cdw13: u32, cdw14: u32, cdw15: u32 },
    Identify { cns: u8, cntid: u16, cns_id: u16, csi: u8 },
    GetFeatures { fid: u8, sel: u8, cdw11: u32 },
    SetFeatures { fid: u8, save: bool, cdw11: u32, cdw12: u32, cdw13: u32, cdw14: u32, cdw15: u32 },
    /// `numd` is the zero-based number of dwords to return; `offset` the byte offset in the log.
    GetLogPage { lid: u8, lsp: u8, rae: bool, numd: u32, lsi: u16, offset: u64, uuid_index: u8, csi: u8 },
    /// `nlb` is the zero-based number of logical blocks.
    ReadWrite {
        slba: u64,
        nlb: u16,
        fua: bool,
        limited_retry: bool,
        dtype: u8,
        prinfo: u8,
        dsm: u8,
        dspec: u16,
        elbat: u16,
        elbatm: u16,
    },
}

/// Dwords 10 to 15 of a command.
#[derive(Clone, Copy, Debug, PartialEq, Eq, Structural)]
pub struct SpecificDwords {
    pub cdw10: u32,
    pub cdw11: u32,
    pub cdw12: u32,
    pub cdw13: u32,
    pub cdw14: u32,
    pub cdw15: u32,
}

/// `w` with field `f` set to `v`.
pub open spec fn set_f(f: BitField, w: u32, v: u32) -> u32 {
    f.spec_set(w, v)
}

impl CommandSpecific {
    /// Every value fits in the field it goes to.
    pub open spec fn fits(self) -> bool {
        match self {
            CommandSpecific::GetFeatures { sel, .. } => sel < 8,
            CommandSpecific::GetLogPage { lsp, uuid_index, .. } => lsp < 16 && uuid_index < 128,
            CommandSpecific::ReadWrite { dtype, prinfo, .. } => dtype < 16 && prinfo < 16,
            _ => true,
        }
    }

    /// The dwords that the value encodes to.
    pub open spec fn spec_dwords(self) -> SpecificDwords {
        match self {
            CommandSpecific::General { cdw10, cdw11, cdw12, cdw13, cdw14, cdw15 } => SpecificDwords {
                cdw10,
                cdw11,
                cdw12,
                cdw13,
                cdw14,
                cdw15,
            },
            CommandSpecific::Identify { cns, cntid, cns_id, csi } => SpecificDwords {
                cdw10: set_f(
                    IdentifyCdw10Field::CNTID.spec_layout(),
                    set_f(IdentifyCdw10Field::CNS.spec_layout(), 0, cns as u32),
                    cntid as u32,
                ),
                cdw11: set_f(
                    IdentifyCdw11Field::CSI.spec_layout(),
                    set_f(IdentifyCdw11Field::CNSID.spec_layout(), 0, cns_id as u32),
                    csi as u32,
                ),
                cdw12: 0,
                cdw13: 0,
                cdw14: 0,
                cdw15: 0,
            },
            CommandSpecific::GetFeatures { fid, sel, cdw11 } => SpecificDwords {
                cdw10: set_f(
                    GetFeaturesCdw10Field::SEL.spec_layout(),
                    set_f(GetFeaturesCdw10Field::FID.spec_layout(), 0, fid as u32),
                    sel as u32,
                ),
                cdw11,
                cdw12: 0,
                cdw13: 0,
                cdw14: 0,
                cdw15: 0,
            },
            CommandSpecific::SetFeatures { fid, save, cdw11, cdw12, cdw13, cdw14, cdw15 } => SpecificDwords {
                cdw10: set_f(
                    SetFeaturesCdw10Field::SV.spec_layout(),
                    set_f(SetFeaturesCdw10Field::FID.spec_layout(), 0, fid as u32),
                    if save { 1 } else { 0 },
                ),
                cdw11,
                cdw12,
                cdw13,
                cdw14,
                cdw15,
            },
            CommandSpecific::GetLogPage { lid, lsp, rae, numd, lsi, offset, uuid_index, csi } => SpecificDwords {
                cdw10: set_f(
                    GetLogPageCdw10Field::NUMDL.spec_layout(),
                    set_f(
                        GetLogPageCdw10Field::RAE.spec_layout(),
                        set_f(
                            GetLogPageCdw10Field::LSP.spec_layout(),
                            set_f(GetLogPageCdw10Field::LID.spec_layout(), 0, lid as u32),
                            lsp as u32,
                        ),
                        if rae { 1 } else { 0 },
                    ),
                    numd & 0xffff,
                ),
                cdw11: set_f(
                    GetLogPageCdw11Field::LSI.spec_layout(),
                    set_f(GetLogPageCdw11Field::NUMDU.spec_layout(), 0, numd >> 16),
                    lsi as u32,
                ),
                cdw12: (offset & 0xffff_ffff) as u32,
                cdw13: (offset >> 32) as u32,
                cdw14: set_f(
                    GetLogPageCdw14Field::CSI.spec_layout(),
                    set_f(GetLogPageCdw14Field::UUIDIndex.spec_layout(), 0, uuid_index as u32),
                    csi as u32,
                ),
                cdw15: 0,
            },
            CommandSpecific::ReadWrite {
                slba,
                nlb,
                fua,
                limited_retry,
                dtype,
                prinfo,
                dsm,
                dspec,
                elbat,
                elbatm,
            } => SpecificDwords {
                cdw10: (slba & 0xffff_ffff) as u32,
                cdw11: (slba >> 32) as u32,
                cdw12: set_f(
                    ReadWriteCdw12Field::LR.spec_layout(),
                    set_f(
                        ReadWriteCdw12Field::FUA.spec_layout(),
                        set_f(
                            ReadWriteCdw12Field::PRINFO.spec_layout(),
                            set_f(
                                ReadWriteCdw12Field::DTYPE.spec_layout(),
                                set_f(ReadWriteCdw12Field::NLB.spec_layout(), 0, nlb as u32),
                                dtype as u32,
                            ),
                            prinfo as u32,
                        ),
                        if fua { 1 } else { 0 },
                    ),
                    if limited_retry { 1 } else { 0 },
                ),
                cdw13: set_f(
                    ReadWriteCdw13Field::DSPEC.spec_layout(),
                    set_f(ReadWriteCdw13Field::DSM.spec_layout(), 0, dsm as u32),
                    dspec as u32,
                ),
                cdw14: 0,
                cdw15: (elbat as u32) | ((elbatm as u32) << 16u32),
            },
        }
    }

    /// Encodes the value into dwords 10 to 15; `None` when a value does not fit its field.
    pub fn encode(&self) -> (r: Option<SpecificDwords>)
        ensures
            self.fits() ==> r == Some(self.spec_dwords()),
            !self.fits() ==> r is None,
    {
        proof {
            lemma_low_mask_values();
        }
        match *self {
            CommandSpecific::General { cdw10, cdw11, cdw12, cdw13, cdw14, cdw15 } => Some(
                SpecificDwords { cdw10, cdw11, cdw12, cdw13, cdw14, cdw15 },
            ),
            CommandSpecific::Identify { cns, cntid, cns_id, csi } => {
                let w10 = IdentifyCdw10Field::CNS.layout().set(0, cns as u32);
                let w10 = IdentifyCdw10Field::CNTID.layout().set(w10, cntid as u32);
                let w11 = IdentifyCdw11Field::CNSID.layout().set(0, cns_id as u32);
                let w11 = IdentifyCdw11Field::CSI.layout().set(w11, csi as u32);
                Some(SpecificDwords { cdw10: w10, cdw11: w11, cdw12: 0, cdw13: 0, cdw14: 0, cdw15: 0 })
            },
            CommandSpecific::GetFeatures { fid, sel, cdw11 } => {
                if sel >= 8 {
                    return None;
                }
                let w10 = GetFeaturesCdw10Field::FID.layout().set(0, fid as u32);
                let w10 = GetFeaturesCdw10Field::SEL.layout().set(w10, sel as u32);
                Some(SpecificDwords { cdw10: w10, cdw11, cdw12: 0, cdw13: 0, cdw14: 0, cdw15: 0 })
            },
            CommandSpecific::SetFeatures { fid, save, cdw11, cdw12, cdw13, cdw14, cdw15 } => {
                let w10 = SetFeaturesCdw10Field::FID.layout().set(0, fid as u32);
                let w10 = SetFeaturesCdw10Field::SV.layout().set(
                    w10,
                    if save {
                        1
                    } else {
                        0
                    },
                );
                Some(SpecificDwords { cdw10: w10, cdw11, cdw12, cdw13, cdw14, cdw15 })
            },
            CommandSpecific::GetLogPage { lid, lsp, rae, numd, lsi, offset, uuid_index, csi } => {
                if lsp >= 16 || uuid_index >= 128 {
                    return None;
                }
                let w10 = GetLogPageCdw10Field::LID.layout().set(0, lid as u32);
                let w10 = GetLogPageCdw10Field::LSP.layout().set(w10, lsp as u32);
                let w10 = GetLogPageCdw10Field::RAE.layout().set(
                    w10,
                    if rae {
                        1
                    } else {
                        0
                    },
                );
                let lo = numd & 0xffff;
                let hi = numd >> 16;
                assert(lo <= 0xffff && hi <= 0xffff) by (bit_vector)
                    requires
                        lo == numd & 0xffff,
                        hi == numd >> 16,
                ;
                let w10 = GetLogPageCdw10Field::NUMDL.layout().set(w10, lo);
                let w11 = GetLogPageCdw11Field::NUMDU.layout().set(0, hi);
                let w11 = GetLogPageCdw11Field::LSI.layout().set(w11, lsi as u32);
                let w14 = GetLogPageCdw14Field::UUIDIndex.layout().set(0, uuid_index as u32);
                let w14 = GetLogPageCdw14Field::CSI.layout().set(w14, csi as u32);
                Some(
                    SpecificDwords {
                        cdw10: w10,
                        cdw11: w11,
                        cdw12: (offset & 0xffff_ffff) as u32,
                        cdw13: (offset >> 32) as u32,
                        cdw14: w14,
                        cdw15: 0,
                    },
                )
            },
            CommandSpecific::ReadWrite {
                slba,
                nlb,
                fua,
                limited_retry,
                dtype,
                prinfo,
                dsm,
                dspec,
                elbat,
                elbatm,
            } => {
                if dtype >= 16 || prinfo >= 16 {
                    return None;
                }
                let w12 = ReadWriteCdw12Field::NLB.layout().set(0, nlb as u32);
                let w12 = ReadWriteCdw12Field::DTYPE.layout().set(w12, dtype as u32);
                let w12 = ReadWriteCdw12Field::PRINFO.layout().set(w12, prinfo as u32);
                let w12 = ReadWriteCdw12Field::FUA.layout().set(
                    w12,
                    if fua {
                        1
                    } else {
                        0
                    },
                );
                let w12 = ReadWriteCdw12Field::LR.layout().set(
                    w12,
                    if limited_retry {
                        1
                    } else {
                        0
                    },
                );
                let w13 = ReadWriteCdw13Field::DSM.layout().set(0, dsm as u32);
                let w13 = ReadWriteCdw13Field::DSPEC.layout().set(w13, dspec as u32);
                Some(
                    SpecificDwords {
                        cdw10: (slba & 0xffff_ffff) as u32,
                        cdw11: (slba >> 32) as u32,
                        cdw12: w12,
                        cdw13: w13,
                        cdw14: 0,
                        cdw15: (elbat as u32) | ((elbatm as u32) << 16u32),
                    },
                )
            },
        }
    }
}

/// Writes `vals` into `fields` of a zero word, in order, and reads each back: every field
/// returns its value when the fields are pairwise disjoint and each value fits.
proof fn lemma_chain_read_back(fields: Seq<BitField>, vals: Seq<u32>, k: int)
    requires
        fields.len() == vals.len(),
        0 <= k < fields.len(),
        forall|i: int| 0 <= i < fields.len() ==> (#[trigger] fields[i]).wf(),
        forall|i: int| 0 <= i < fields.len() ==> #[trigger] vals[i] <= fields[i].max(),
        forall|i: int, j: int|
            0 <= i < fields.len() && 0 <= j < fields.len() && i != j ==> (#[trigger] fields[i]).disjoint(
                #[trigger] fields[j],
            ),
    ensures
        fields[k].spec_get(chain(fields, vals)) == vals[k],
    decreases fields.len(),
{
    let n = fields.len() - 1;
    let inner = chain(fields.drop_last(), vals.drop_last());
    if k == n {
        crate::bitfield::lemma_get_set(fields[n], inner, vals[n]);
    } else {
        crate::bitfield::lemma_set_keeps_other(fields[n], fields[k], inner, vals[n]);
        lemma_chain_read_back(fields.drop_last(), vals.drop_last(), k);
    }
}

/// A zero word with `vals` written into `fields`, in order.
pub open spec fn chain(fields: Seq<BitField>, vals: Seq<u32>) -> u32
    decreases fields.len(),
{
    if fields.len() == 0 || vals.len() == 0 {
        0
    } else {
        fields.last().spec_set(chain(fields.drop_last(), vals.drop_last()), vals.last())
    }
}

/// Every field of an encoded Identify, Get Features, Set Features, Get Log Page or
/// Read/Write reads back as the value that was encoded into it.
pub proof fn lemma_specific_fields_read_back(s: CommandSpecific)
    requires
        s.fits(),
    ensures
        ({
            let d = s.spec_dwords();
            match s {
                CommandSpecific::Identify { cns, cntid, cns_id, csi } => {
                    &&& IdentifyCdw10Field::CNS.spec_layout().spec_get(d.cdw10) == cns
                    &&& IdentifyCdw10Field::CNTID.spec_layout().spec_get(d.cdw10) == cntid
                    &&& IdentifyCdw11Field::CNSID.spec_layout().spec_get(d.cdw11) == cns_id
                    &&& IdentifyCdw11Field::CSI.spec_layout().spec_get(d.cdw11) == csi
                },
                CommandSpecific::GetFeatures { fid, sel, cdw11 } => {
                    &&& GetFeaturesCdw10Field::FID.spec_layout().spec_get(d.cdw10) == fid
                    &&& GetFeaturesCdw10Field::SEL.spec_layout().spec_get(d.cdw10) == sel
                    &&& d.cdw11 == cdw11
                },
                CommandSpecific::SetFeatures { fid, save, cdw11, .. } => {
                    &&& SetFeaturesCdw10Field::FID.spec_layout().spec_get(d.cdw10) == fid
                    &&& SetFeaturesCdw10Field::SV.spec_layout().spec_get(d.cdw10) == (if save {
                        1u32
                    } else {
                        0u32
                    })
                    &&& d.cdw11 == cdw11
                },
                CommandSpecific::GetLogPage { lid, lsp, rae, numd, lsi, offset, uuid_index, csi } => {
                    &&& GetLogPageCdw10Field::LID.spec_layout().spec_get(d.cdw10) == lid
                    &&& GetLogPageCdw10Field::LSP.spec_layout().spec_get(d.cdw10) == lsp
                    &&& GetLogPageCdw10Field::RAE.spec_layout().spec_get(d.cdw10) == (if rae {
                        1u32
                    } else {
                        0u32
                    })
                    &&& (GetLogPageCdw10Field::NUMDL.spec_layout().spec_get(d.cdw10) | (
                    GetLogPageCdw11Field::NUMDU.spec_layout().spec_get(d.cdw11) << 16u32)) == numd
                    &&& GetLogPageCdw11Field::LSI.spec_layout().spec_get(d.cdw11) == lsi
                    &&& ((d.cdw12 as u64) | ((d.cdw13 as u64) << 32u64)) == offset
                    &&& GetLogPageCdw14Field::UUIDIndex.spec_layout().spec_get(d.cdw14) == uuid_index
                    &&& GetLogPageCdw14Field::CSI.spec_layout().spec_get(d.cdw14) == csi
                },
                CommandSpecific::ReadWrite { slba, nlb, fua, limited_retry, dtype, prinfo, dsm, dspec, .. } => {
                    &&& ((d.cdw10 as u64) | ((d.cdw11 as u64) << 32u64)) == slba
                    &&& ReadWriteCdw12Field::NLB.spec_layout().spec_get(d.cdw12) == nlb
                    &&& ReadWriteCdw12Field::DTYPE.spec_layout().spec_get(d.cdw12) == dtype
                    &&& ReadWriteCdw12Field::PRINFO.spec_layout().spec_get(d.cdw12) == prinfo
                    &&& ReadWriteCdw12Field::FUA.spec_layout().spec_get(d.cdw12) == (if fua {
                        1u32
                    } else {
                        0u32
                    })
                    &&& ReadWriteCdw12Field::LR.spec_layout().spec_get(d.cdw12) == (if limited_retry {
                        1u32
                    } else {
                        0u32
                    })
                    &&& ReadWriteCdw13Field::DSM.spec_layout().spec_get(d.cdw13) == dsm
                    &&& ReadWriteCdw13Field::DSPEC.spec_layout().spec_get(d.cdw13) == dspec
                },
                _ => true,
            }
        }),
{
    lemma_low_mask_values();
    match s {
        CommandSpecific::Identify { cns, cntid, cns_id, csi } => {
            let f = seq![IdentifyCdw10Field::CNS.spec_layout(), IdentifyCdw10Field::CNTID.spec_layout()];
            let v = seq![cns as u32, cntid as u32];
            lemma_chain2(f[0], f[1], v[0], v[1]);
            lemma_read_back_all(f, v);
            let g = seq![IdentifyCdw11Field::CNSID.spec_layout(), IdentifyCdw11Field::CSI.spec_layout()];
            let w = seq![cns_id as u32, csi as u32];
            lemma_chain2(g[0], g[1], w[0], w[1]);
            lemma_read_back_all(g, w);
        },
        CommandSpecific::GetFeatures { fid, sel, .. } => {
            let f = seq![GetFeaturesCdw10Field::FID.spec_layout(), GetFeaturesCdw10Field::SEL.spec_layout()];
            lemma_chain2(f[0], f[1], fid as u32, sel as u32);
            lemma_read_back_all(f, seq![fid as u32, sel as u32]);
        },
        CommandSpecific::SetFeatures { fid, save, .. } => {
            let f = seq![SetFeaturesCdw10Field::FID.spec_layout(), SetFeaturesCdw10Field::SV.spec_layout()];
            lemma_chain2(f[0], f[1], fid as u32, if save { 1u32 } else { 0u32 });
            lemma_read_back_all(f, seq![fid as u32, if save { 1u32 } else { 0u32 }]);
        },
        CommandSpecific::GetLogPage { lid, lsp, rae, numd, lsi, offset, uuid_index, csi } => {
            let lo = numd & 0xffff;
            let hi = numd >> 16;
            assert(lo <= 0xffff && hi <= 0xffff && (lo | (hi << 16u32)) == numd) by (bit_vector)
                requires
                    lo == numd & 0xffff,
                    hi == numd >> 16,
            ;
            let f = seq![
                GetLogPageCdw10Field::LID.spec_layout(),
                GetLogPageCdw10Field::LSP.spec_layout(),
                GetLogPageCdw10Field::RAE.spec_layout(),
                GetLogPageCdw10Field::NUMDL.spec_layout(),
            ];
            let fv = seq![lid as u32, lsp as u32, if rae { 1u32 } else { 0u32 }, lo];
            lemma_chain4(f, fv);
            lemma_read_back_all(f, fv);
            let g = seq![GetLogPageCdw11Field::NUMDU.spec_layout(), GetLogPageCdw11Field::LSI.spec_layout()];
            lemma_chain2(g[0], g[1], hi, lsi as u32);
            lemma_read_back_all(g, seq![hi, lsi as u32]);
            let h = seq![GetLogPageCdw14Field::UUIDIndex.spec_layout(), GetLogPageCdw14Field::CSI.spec_layout()];
            lemma_chain2(h[0], h[1], uuid_index as u32, csi as u32);
            lemma_read_back_all(h, seq![uuid_index as u32, csi as u32]);
            assert((((offset & 0xffff_ffff) as u32) as u64) | ((((offset >> 32) as u32) as u64) << 32u64)
                == offset) by (bit_vector);
        },
        CommandSpecific::ReadWrite { slba, nlb, fua, limited_retry, dtype, prinfo, dsm, dspec, .. } => {
            let f = seq![
                ReadWriteCdw12Field::NLB.spec_layout(),
                ReadWriteCdw12Field::DTYPE.spec_layout(),
                ReadWriteCdw12Field::PRINFO.spec_layout(),
                ReadWriteCdw12Field::FUA.spec_layout(),
                ReadWriteCdw12Field::LR.spec_layout(),
            ];
            let fv = seq![
                nlb as u32,
                dtype as u32,
                prinfo as u32,
                if fua { 1u32 } else { 0u32 },
                if limited_retry { 1u32 } else { 0u32 },
            ];
            lemma_chain5(f, fv);
            lemma_read_back_all(f, fv);
            let g = seq![ReadWriteCdw13Field::DSM.spec_layout(), ReadWriteCdw13Field::DSPEC.spec_layout()];
            lemma_chain2(g[0], g[1], dsm as u32, dspec as u32);
            lemma_read_back_all(g, seq![dsm as u32, dspec as u32]);
            assert((((slba & 0xffff_ffff) as u32) as u64) | ((((slba >> 32) as u32) as u64) << 32u64)
                == slba) by (bit_vector);
        },
        _ => {},
    }
}


proof fn lemma_chain2(f0: BitField, f1: BitField, v0: u32, v1: u32)
    ensures
        chain(seq![f0, f1], seq![v0, v1]) == f1.spec_set(f0.spec_set(0, v0), v1),
{
    let f = seq![f0, f1];
    let v = seq![v0, v1];
    assert(f.drop_last() =~= seq![f0]);
    assert(v.drop_last() =~= seq![v0]);
    assert(seq![f0].drop_last() =~= Seq::<BitField>::empty());
    assert(seq![v0].drop_last() =~= Seq::<u32>::empty());
    assert(chain(Seq::<BitField>::empty(), Seq::<u32>::empty()) == 0);
    assert(seq![f0].last() == f0 && seq![v0].last() == v0);
    assert(chain(seq![f0], seq![v0]) == f0.spec_set(0, v0));
}

proof fn lemma_chain4(f: Seq<BitField>, v: Seq<u32>)
    requires
        f.len() == 4,
        v.len() == 4,
    ensures
        chain(f, v) == f[3].spec_set(f[2].spec_set(f[1].spec_set(f[0].spec_set(0, v[0]), v[1]), v[2]), v[3]),
{
    lemma_chain2(f[0], f[1], v[0], v[1]);
    assert(f.drop_last().drop_last() =~= seq![f[0], f[1]]);
    assert(v.drop_last().drop_last() =~= seq![v[0], v[1]]);
    assert(chain(f.drop_last(), v.drop_last()) == f[2].spec_set(chain(seq![f[0], f[1]], seq![v[0], v[1]]), v[2]));
}

proof fn lemma_chain5(f: Seq<BitField>, v: Seq<u32>)
    requires
        f.len() == 5,
        v.len() == 5,
    ensures
        chain(f, v) == f[4].spec_set(
            f[3].spec_set(f[2].spec_set(f[1].spec_set(f[0].spec_set(0, v[0]), v[1]), v[2]), v[3]),
            v[4],
        ),
{
    lemma_chain4(f.drop_last(), v.drop_last());
}

/// `lemma_chain_read_back` for every field at once.
proof fn lemma_read_back_all(fields: Seq<BitField>, vals: Seq<u32>)
    requires
        fields.len() == vals.len(),
        forall|i: int| 0 <= i < fields.len() ==> (#[trigger] fields[i]).wf(),
        forall|i: int| 0 <= i < fields.len() ==> #[trigger] vals[i] <= fields[i].max(),
        forall|i: int, j: int|
            0 <= i < fields.len() && 0 <= j < fields.len() && i != j ==> (#[trigger] fields[i]).disjoint(
                #[trigger] fields[j],
            ),
    ensures
        forall|k: int| 0 <= k < fields.len() ==> (#[trigger] fields[k]).spec_get(chain(fields, vals)) == vals[k],
{
    assert forall|k: int| 0 <= k < fields.len() implies (#[trigger] fields[k]).spec_get(chain(fields, vals))
        == vals[k] by {
        lemma_chain_read_back(fields, vals, k);
    }
}

impl NVME_COMMAND {
    /// Puts encoded command-specific dwords into dwords 10 to 15; the rest is kept.
    pub fn set_specific(&mut self, d: SpecificDwords)
        ensures
            *final(self) == (NVME_COMMAND {
                cdw10: d.cdw10,
                cdw11: d.cdw11,
                cdw12: d.cdw12,
                cdw13: d.cdw13,
                cdw14: d.cdw14,
                cdw15: d.cdw15,
                ..*old(self)
            }),
    {
        self.cdw10 = d.cdw10;
        self.cdw11 = d.cdw11;
        self.cdw12 = d.cdw12;
        self.cdw13 = d.cdw13;
        self.cdw14 = d.cdw14;
        self.cdw15 = d.cdw15;
    }
}

} // verus!
