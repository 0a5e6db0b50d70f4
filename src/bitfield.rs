use vstd::prelude::*;

verus! {

/// All ones in the low `width` bits of a 32-bit word.
pub open spec fn low_mask(width: u32) -> u32 {
    if width >= 32 {
        0xffff_ffffu32
    } else {
        ((1u32 << width) - 1) as u32
    }
}

/// The value of the field of `width` bits at bit `offset` of `word`.
pub open spec fn field_get(word: u32, offset: u32, width: u32) -> u32 {
    (word >> offset) & low_mask(width)
}

/// `word` with the field of `width` bits at bit `offset` replaced by `value`.
pub open spec fn field_set(word: u32, offset: u32, width: u32, value: u32) -> u32 {
    (word & !(low_mask(width) << offset)) | ((value & low_mask(width)) << offset)
}

/// Position of a sub-word field inside a 32-bit register or command dword.
#[derive(Clone, Copy, Debug, PartialEq, Eq, Structural)]
pub struct BitField {
    pub offset: u32,
    pub width: u32,
}

impl BitField {
    /// The field lies inside the word and is not empty.
    pub open spec fn wf(self) -> bool {
        1 <= self.width && self.offset + self.width <= 32
    }

    /// Largest value the field can hold.
    pub open spec fn max(self) -> u32 {
        low_mask(self.width)
    }

    pub open spec fn spec_get(self, word: u32) -> u32 {
        field_get(word, self.offset, self.width)
    }

    pub open spec fn spec_set(self, word: u32, value: u32) -> u32 {
        field_set(word, self.offset, self.width, value)
    }

    /// The two fields share no bit.
    pub open spec fn disjoint(self, other: BitField) -> bool {
        self.offset + self.width <= other.offset || other.offset + other.width <= self.offset
    }

    /// Mask of the low `width` bits.
    pub fn mask(&self) -> (r: u32)
        requires
            self.wf(),
        ensures
            r == low_mask(self.width),
    {
        if self.width >= 32 {
            0xffff_ffff
        } else {
            proof {
                lemma_mask_bound(self.width);
            }
            (1u32 << self.width) - 1
        }
    }

    /// Reads the field out of `word`.
    pub fn get(&self, word: u32) -> (r: u32)
        requires
            self.wf(),
        ensures
            r == self.spec_get(word),
            r <= self.max(),
    {
        let m = self.mask();
        let off = self.offset;
        let r = (word >> off) & m;
        assert(((word >> off) & m) <= m) by (bit_vector);
        r
    }

    /// Writes `value` into the field of `word`, leaving every other bit as it was.
    pub fn set(&self, word: u32, value: u32) -> (r: u32)
        requires
            self.wf(),
            value <= self.max(),
        ensures
            r == self.spec_set(word, value),
            self.spec_get(r) == value,
            forall|o: BitField| o.wf() && o.disjoint(*self) ==> #[trigger] o.spec_get(r) == o.spec_get(word),
    {
        let m = self.mask();
        let off = self.offset;
        let r = (word & !(m << off)) | ((value & m) << off);
        proof {
            lemma_get_set(*self, word, value);
            assert forall|o: BitField| o.wf() && o.disjoint(*self) implies #[trigger] o.spec_get(r) == o.spec_get(word) by {
                lemma_set_keeps_other(*self, o, word, value);
            }
        }
        r
    }
}

proof fn lemma_mask_bound(width: u32)
    requires
        1 <= width <= 32,
    ensures
        width < 32 ==> low_mask(width) == ((1u32 << width) - 1) as u32,
        width < 32 ==> 1u32 << width >= 1,
{
    if width < 32 {
        assert(1u32 << width >= 1) by (bit_vector)
            requires
                width < 32,
        ;
    }
}

/// The masks of the field widths that the wire formats use.
pub proof fn lemma_low_mask_values()
    ensures
        low_mask(1) == 1,
        low_mask(2) == 3,
        low_mask(3) == 7,
        low_mask(4) == 15,
        low_mask(5) == 31,
        low_mask(6) == 63,
        low_mask(7) == 127,
        low_mask(8) == 255,
        low_mask(10) == 1023,
        low_mask(12) == 4095,
        low_mask(16) == 65535,
        low_mask(24) == 16777215,
{
    assert(((1u32 << 1u32) - 1) as u32 == 1) by (bit_vector);
    assert(((1u32 << 2u32) - 1) as u32 == 3) by (bit_vector);
    assert(((1u32 << 3u32) - 1) as u32 == 7) by (bit_vector);
    assert(((1u32 << 4u32) - 1) as u32 == 15) by (bit_vector);
    assert(((1u32 << 5u32) - 1) as u32 == 31) by (bit_vector);
    assert(((1u32 << 6u32) - 1) as u32 == 63) by (bit_vector);
    assert(((1u32 << 7u32) - 1) as u32 == 127) by (bit_vector);
    assert(((1u32 << 8u32) - 1) as u32 == 255) by (bit_vector);
    assert(((1u32 << 10u32) - 1) as u32 == 1023) by (bit_vector);
    assert(((1u32 << 12u32) - 1) as u32 == 4095) by (bit_vector);
    assert(((1u32 << 16u32) - 1) as u32 == 65535) by (bit_vector);
    assert(((1u32 << 24u32) - 1) as u32 == 16777215) by (bit_vector);
}

/// Reading a field back after writing it returns what was written.
pub proof fn lemma_get_set(f: BitField, word: u32, value: u32)
    requires
        f.wf(),
        value <= f.max(),
    ensures
        f.spec_get(f.spec_set(word, value)) == value,
{
    let o = f.offset;
    let w = f.width;
    lemma_mask_bound(w);
    if w >= 32 {
        assert(o == 0);
        assert(((word & !(0xffff_ffffu32 << 0u32)) | ((value & 0xffff_ffffu32) << 0u32)) >> 0u32
            & 0xffff_ffffu32 == value) by (bit_vector);
    } else {
        let m = ((1u32 << w) - 1) as u32;
        assert((((word & !(m << o)) | ((value & m) << o)) >> o) & m == value) by (bit_vector)
            requires
                1 <= w < 32,
                o + w <= 32,
                m == ((1u32 << w) - 1) as u32,
                value <= m,
        ;
    }
}

/// Writing a field leaves every field that shares no bit with it unchanged.
pub proof fn lemma_set_keeps_other(f: BitField, g: BitField, word: u32, value: u32)
    requires
        f.wf(),
        g.wf(),
        f.disjoint(g),
    ensures
        g.spec_get(f.spec_set(word, value)) == g.spec_get(word),
{
    let o = f.offset;
    let w = f.width;
    let p = g.offset;
    let v = g.width;
    lemma_mask_bound(w);
    lemma_mask_bound(v);
    if w >= 32 || v >= 32 {
        assert(false);
    } else {
        let m = ((1u32 << w) - 1) as u32;
        let n = ((1u32 << v) - 1) as u32;
        assert((((word & !(m << o)) | ((value & m) << o)) >> p) & n == (word >> p) & n) by (bit_vector)
            requires
                1 <= w < 32,
                1 <= v < 32,
                o + w <= 32,
                p + v <= 32,
                o + w <= p || p + v <= o,
                m == ((1u32 << w) - 1) as u32,
                n == ((1u32 << v) - 1) as u32,
        ;
    }
}

} // verus!
