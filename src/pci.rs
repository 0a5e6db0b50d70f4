//! PCI location of a controller: parsed from the device's location-info text, written
//! back in the same form, and ordered by (segment, bus, device, function).
use vstd::prelude::*;
use vstd::string::{StrSliceExecFns, StringExecFns};

verus! {

/// PCI segment, bus, device and function of a device.
#[derive(Clone, Copy, Debug, PartialEq, Eq, Structural, Default)]
pub struct PciBdf {
    pub segment: i32,
    pub bus: i32,
    pub device: i32,
    pub function: i32,
}

pub open spec fn is_digit(c: char) -> bool {
    '0' <= c && c <= '9'
}

pub open spec fn digit_value(c: char) -> int {
    c as int - '0' as int
}

/// The value of a run of decimal digits, most significant first.
pub open spec fn digits_value(s: Seq<char>) -> int
    decreases s.len(),
{
    if s.len() == 0 {
        0
    } else {
        10 * digits_value(s.drop_last()) + digit_value(s.last())
    }
}

/// Number of consecutive digits of `s` from index `i`.
pub open spec fn digit_run(s: Seq<char>, i: int) -> nat
    decreases s.len() - i,
{
    if 0 <= i < s.len() && is_digit(s[i]) {
        1 + digit_run(s, i + 1)
    } else {
        0
    }
}

/// The integer at `i` starts with a minus sign.
pub open spec fn int_neg(s: Seq<char>, i: int) -> bool {
    0 <= i < s.len() && s[i] == '-'
}

/// Index of the first digit of the integer at `i`, past its sign if it has one.
pub open spec fn int_start(s: Seq<char>, i: int) -> int {
    if 0 <= i < s.len() && (s[i] == '-' || s[i] == '+') {
        i + 1
    } else {
        i
    }
}

/// A decimal integer at index `i`: an optional sign and at least one digit. Its value and
/// the index right after it.
pub open spec fn int_at(s: Seq<char>, i: int) -> Option<(int, int)> {
    let neg = int_neg(s, i);
    let j = int_start(s, i);
    let k = digit_run(s, j);
    if k == 0 {
        None
    } else {
        let v = digits_value(s.subrange(j, j + k));
        Some((
            if neg {
                -v
            } else {
                v
            },
            j + k,
        ))
    }
}

pub open spec fn fits_i32(v: int) -> bool {
    i32::MIN <= v <= i32::MAX
}

/// `lit` stands in `s` at index `i`.
pub open spec fn has_at(s: Seq<char>, i: int, lit: Seq<char>) -> bool {
    0 <= i && i + lit.len() <= s.len() && s.subrange(i, i + lit.len()) == lit
}

pub open spec fn bus_label() -> Seq<char> {
    seq!['P', 'C', 'I', ' ', 'b', 'u', 's', ' ']
}

pub open spec fn device_label() -> Seq<char> {
    seq![',', ' ', 'd', 'e', 'v', 'i', 'c', 'e', ' ']
}

pub open spec fn function_label() -> Seq<char> {
    seq![',', ' ', 'f', 'u', 'n', 'c', 't', 'i', 'o', 'n', ' ']
}

/// The location that a location-info text `"PCI bus B, device D, function F"` names,
/// with segment 0; `None` for any other text or a number that does not fit in 32 bits.
pub open spec fn parse_location(s: Seq<char>) -> Option<PciBdf> {
    if !has_at(s, 0, bus_label()) {
        None
    } else {
        match int_at(s, bus_label().len() as int) {
            None => None,
            Some((b, i)) => if !fits_i32(b) || !has_at(s, i, device_label()) {
                None
            } else {
                match int_at(s, i + device_label().len()) {
                    None => None,
                    Some((d, j)) => if !fits_i32(d) || !has_at(s, j, function_label()) {
                        None
                    } else {
                        match int_at(s, j + function_label().len()) {
                            None => None,
                            Some((f, k)) => if !fits_i32(f) || k != s.len() {
                                None
                            } else {
                                Some(
                                    PciBdf {
                                        segment: 0,
                                        bus: b as i32,
                                        device: d as i32,
                                        function: f as i32,
                                    },
                                )
                            },
                        }
                    },
                }
            },
        }
    }
}

pub open spec fn digit_char(d: nat) -> char {
    ((48 + d) as u8) as char
}

proof fn lemma_digit_char(d: nat)
    requires
        d < 10,
    ensures
        is_digit(digit_char(d)),
        digit_value(digit_char(d)) == d,
{
    assert(digit_char(d) as int == 48 + d);
}

/// Decimal digits of `n`, most significant first, without leading zeros.
pub open spec fn decimal(n: nat) -> Seq<char>
    decreases n,
{
    if n < 10 {
        seq![digit_char(n)]
    } else {
        decimal(n / 10).push(digit_char(n % 10))
    }
}

/// Decimal text of `v`, with a leading `-` when negative.
pub open spec fn signed_decimal(v: int) -> Seq<char> {
    if v < 0 {
        seq!['-'] + decimal((-v) as nat)
    } else {
        decimal(v as nat)
    }
}

/// The location-info text of a location (the segment is not part of it).
pub open spec fn location_text(p: PciBdf) -> Seq<char> {
    bus_label() + signed_decimal(p.bus as int) + device_label() + signed_decimal(p.device as int)
        + function_label() + signed_decimal(p.function as int)
}

/// The location that an optional location-info text names; the zero location when there
/// is no text or it does not parse.
pub open spec fn location_of_info(info: Option<&str>) -> PciBdf {
    match info {
        Some(s) => location_of_text(Some(s@)),
        None => location_of_text(None),
    }
}

/// `location_of_info` of a text given by its characters.
pub open spec fn location_of_text(info: Option<Seq<char>>) -> PciBdf {
    match info {
        Some(s) => match parse_location(s) {
            Some(p) => p,
            None => PciBdf { segment: 0, bus: 0, device: 0, function: 0 },
        },
        None => PciBdf { segment: 0, bus: 0, device: 0, function: 0 },
    }
}

/// Strict order of locations: by segment, then bus, then device, then function.
pub open spec fn location_lt(a: PciBdf, b: PciBdf) -> bool {
    ||| a.segment < b.segment
    ||| a.segment == b.segment && a.bus < b.bus
    ||| a.segment == b.segment && a.bus == b.bus && a.device < b.device
    ||| a.segment == b.segment && a.bus == b.bus && a.device == b.device && a.function < b.function
}

proof fn lemma_decimal_digits(n: nat)
    ensures
        decimal(n).len() >= 1,
        forall|i: int| 0 <= i < decimal(n).len() ==> is_digit(#[trigger] decimal(n)[i]),
        digits_value(decimal(n)) == n,
    decreases n,
{
    let d = decimal(n);
    if n >= 10 {
        lemma_decimal_digits(n / 10);
        lemma_digit_char(n % 10);
        assert(d.drop_last() =~= decimal(n / 10));
        assert(d.last() == digit_char(n % 10));
        assert(digits_value(d) == 10 * digits_value(d.drop_last()) + digit_value(d.last()));
        assert(n == 10 * (n / 10) + n % 10);
    } else {
        lemma_digit_char(n);
        assert(d.drop_last() =~= Seq::<char>::empty());
        assert(digits_value(Seq::<char>::empty()) == 0);
        assert(digits_value(d) == 10 * digits_value(d.drop_last()) + digit_value(d.last()));
    }
}

/// A run of `k` digits at `i`, ended by the end of `s` or by a non-digit, is the digit run at `i`.
proof fn lemma_digit_run(s: Seq<char>, i: int, k: int)
    requires
        0 <= i,
        0 <= k,
        i + k <= s.len(),
        forall|m: int| i <= m < i + k ==> is_digit(#[trigger] s[m]),
        i + k == s.len() || !is_digit(s[i + k]),
    ensures
        digit_run(s, i) == k,
    decreases k,
{
    if k > 0 {
        lemma_digit_run(s, i + 1, k - 1);
    }
}

/// The decimal text of `v`, followed by `rest` that does not start with a digit, reads back as `v`.
proof fn lemma_int_at_decimal(pre: Seq<char>, v: int, rest: Seq<char>)
    requires
        rest.len() == 0 || !is_digit(rest[0]),
    ensures
        int_at(pre + signed_decimal(v) + rest, pre.len() as int) == Some(
            (v, (pre.len() + signed_decimal(v).len()) as int),
        ),
{
    let s = pre + signed_decimal(v) + rest;
    let m: nat = if v < 0 {
        (-v) as nat
    } else {
        v as nat
    };
    let j: int = if v < 0 {
        pre.len() + 1int
    } else {
        pre.len() as int
    };
    lemma_decimal_digits(m);
    let d = decimal(m);
    assert(s.subrange(j, j + d.len()) =~= d);
    assert forall|x: int| j <= x < j + d.len() implies is_digit(#[trigger] s[x]) by {
        assert(s[x] == d[x - j]);
    }
    if j + d.len() < s.len() {
        assert(s[j + d.len()] == rest[0]);
    }
    lemma_digit_run(s, j, d.len() as int);
    if v >= 0 {
        assert(d[0] != '-' && d[0] != '+') by {
            assert(is_digit(d[0]));
        }
        assert(s[pre.len() as int] == d[0]);
    }
}

/// Writing a location as location-info text and parsing it back gives the location,
/// with the segment set to 0.
pub proof fn lemma_location_round_trip(p: PciBdf)
    ensures
        parse_location(location_text(p)) == Some(PciBdf { segment: 0, ..p }),
{
    let b = signed_decimal(p.bus as int);
    let d = signed_decimal(p.device as int);
    let f = signed_decimal(p.function as int);
    let s = location_text(p);
    let p1 = bus_label();
    let p2 = p1 + b + device_label();
    let p3 = p2 + d + function_label();
    assert(s =~= p1 + b + (device_label() + d + function_label() + f));
    lemma_int_at_decimal(p1, p.bus as int, device_label() + d + function_label() + f);
    assert(s =~= p2 + d + (function_label() + f));
    lemma_int_at_decimal(p2, p.device as int, function_label() + f);
    assert(s =~= p3 + f + Seq::<char>::empty());
    lemma_int_at_decimal(p3, p.function as int, Seq::<char>::empty());
    assert(s.subrange(0, 8) =~= bus_label());
    let i = (p1.len() + b.len()) as int;
    assert(s.subrange(i, i + 9) =~= device_label());
    let j = (p2.len() + d.len()) as int;
    assert(s.subrange(j, j + 11) =~= function_label());
}

/// The order of locations is a strict total order: irreflexive, transitive, and any two
/// different locations are ordered one way exactly.
pub proof fn lemma_location_order(a: PciBdf, b: PciBdf, c: PciBdf)
    ensures
        !location_lt(a, a),
        location_lt(a, b) && location_lt(b, c) ==> location_lt(a, c),
        a != b ==> (location_lt(a, b) <==> !location_lt(b, a)),
        a == b ==> !location_lt(a, b) && !location_lt(b, a),
{
}

/// Matches `pat` at char index `i` of `s`.
pub(crate) fn chars_at(s: &str, n: usize, i: usize, pat: &[char]) -> (r: bool)
    requires
        n == s@.len(),
    ensures
        r == has_at(s@, i as int, pat@),
{
    if pat.len() > n || i > n - pat.len() {
        return false;
    }
    let mut k: usize = 0;
    while k < pat.len()
        invariant
            n == s@.len(),
            i + pat@.len() <= n,
            k <= pat@.len(),
            forall|m: int| 0 <= m < k ==> s@[i + m] == pat@[m],
        decreases pat@.len() - k,
    {
        if s.get_char(i + k) != pat[k] {
            assert(s@.subrange(i as int, i + pat@.len())[k as int] != pat@[k as int]);
            return false;
        }
        k = k + 1;
    }
    assert(s@.subrange(i as int, i + pat@.len()) =~= pat@);
    true
}

proof fn lemma_digits_value_grows(s: Seq<char>, k: int)
    requires
        0 <= k <= s.len(),
        forall|m: int| 0 <= m < s.len() ==> is_digit(#[trigger] s[m]),
    ensures
        digits_value(s.subrange(0, k)) <= digits_value(s),
        0 <= digits_value(s.subrange(0, k)),
    decreases s.len(),
{
    if s.len() > 0 {
        if k < s.len() {
            lemma_digits_value_grows(s.drop_last(), k);
            assert(s.drop_last().subrange(0, k) =~= s.subrange(0, k));
        } else {
            assert(s.subrange(0, k) =~= s);
            lemma_digits_value_grows(s.drop_last(), k - 1);
            assert(s.drop_last().subrange(0, k - 1) =~= s.drop_last());
        }
    }
}

/// The decimal integer at `i`, when it is the spec's `int_at` and its magnitude fits in 32 bits
/// plus one (so that `i32::MIN` reads); `None` also when no integer stands there.
pub(crate) fn read_int(s: &str, n: usize, i: usize) -> (r: Option<(i64, usize)>)
    requires
        n == s@.len(),
        i <= n,
    ensures
        r matches Some((v, next)) ==> int_at(s@, i as int) == Some((v as int, next as int)),
        r is None ==> (int_at(s@, i as int) is None || (int_at(s@, i as int) matches Some((v, _))
            && !fits_i32(v))),
{
    let mut j = i;
    let mut neg = false;
    if i < n {
        let c = s.get_char(i);
        if c == '-' {
            neg = true;
            j = i + 1;
        } else if c == '+' {
            j = i + 1;
        }
    }
    let mut v: i64 = 0;
    let mut pos = j;
    while pos < n && is_digit_char(s.get_char(pos))
        invariant
            n == s@.len(),
            i <= n,
            j == int_start(s@, i as int),
            neg == int_neg(s@, i as int),
            j <= pos <= n,
            forall|m: int| j <= m < pos ==> is_digit(#[trigger] s@[m]),
            v == digits_value(s@.subrange(j as int, pos as int)),
            0 <= v <= 0x8000_0000,
        decreases n - pos,
    {
        let d = s.get_char(pos) as u32 - '0' as u32;
        proof {
            let sub = s@.subrange(j as int, pos + 1);
            assert(sub.drop_last() =~= s@.subrange(j as int, pos as int));
        }
        v = v * 10 + d as i64;
        pos = pos + 1;
        if v > 0x8000_0000 {
            proof {
                lemma_run_value_at_least(s@, j as int, pos as int);
                let k = digit_run(s@, j as int);
                assert(digits_value(s@.subrange(j as int, j + k)) > 0x8000_0000);
            }
            return None;
        }
    }
    if pos == j {
        proof {
            lemma_digit_run(s@, j as int, 0);
        }
        return None;
    }
    proof {
        lemma_digit_run(s@, j as int, pos - j);
    }
    let value = if neg {
        -v
    } else {
        v
    };
    Some((value, pos))
}

/// The digit run at `j` reaches past any digits already seen, and its value is no less
/// than theirs.
proof fn lemma_run_value_at_least(s: Seq<char>, j: int, e: int)
    requires
        0 <= j <= e <= s.len(),
        forall|m: int| j <= m < e ==> is_digit(#[trigger] s[m]),
    ensures
        j + digit_run(s, j) >= e,
        digits_value(s.subrange(j, j + digit_run(s, j))) >= digits_value(s.subrange(j, e)),
{
    lemma_full_run(s, j, e);
    let k = digit_run(s, j);
    let full = s.subrange(j, j + k);
    assert forall|m: int| 0 <= m < full.len() implies is_digit(#[trigger] full[m]) by {
        lemma_run_digits(s, j, j + m);
    }
    lemma_digits_value_grows(full, e - j);
    assert(full.subrange(0, e - j) =~= s.subrange(j, e));
}

/// A digit run that has already reached `e` reaches at least `e`.
proof fn lemma_full_run(s: Seq<char>, j: int, e: int)
    requires
        0 <= j <= e <= s.len(),
        forall|m: int| j <= m < e ==> is_digit(#[trigger] s[m]),
    ensures
        j + digit_run(s, j) >= e,
        j + digit_run(s, j) <= s.len(),
    decreases s.len() - j,
{
    if j < s.len() && is_digit(s[j]) {
        lemma_full_run(s, j + 1, if e > j {
            e
        } else {
            j + 1
        });
    } else {
        assert(e == j);
    }
}

/// Every char of a digit run is a digit.
proof fn lemma_run_digits(s: Seq<char>, j: int, m: int)
    requires
        0 <= j <= m < j + digit_run(s, j),
    ensures
        is_digit(s[m]),
    decreases m - j,
{
    if m > j {
        lemma_run_digits(s, j + 1, m);
    }
}

fn is_digit_char(c: char) -> (r: bool)
    ensures
        r == is_digit(c),
{
    '0' <= c && c <= '9'
}

/// The one-character text of a decimal digit.
fn digit_text(d: u64) -> (r: &'static str)
    requires
        d < 10,
    ensures
        r@ == seq![digit_char(d as nat)],
{
    proof {
        reveal_strlit("0");
        reveal_strlit("1");
        reveal_strlit("2");
        reveal_strlit("3");
        reveal_strlit("4");
        reveal_strlit("5");
        reveal_strlit("6");
        reveal_strlit("7");
        reveal_strlit("8");
        reveal_strlit("9");
    }
    match d {
        0 => "0",
        1 => "1",
        2 => "2",
        3 => "3",
        4 => "4",
        5 => "5",
        6 => "6",
        7 => "7",
        8 => "8",
        _ => "9",
    }
}

/// Appends the decimal digits of `n`.
pub fn push_decimal(out: &mut String, n: u64)
    ensures
        final(out)@ == old(out)@ + decimal(n as nat),
    decreases n,
{
    if n >= 10 {
        push_decimal(out, n / 10);
    }
    out.append(digit_text(n % 10));
    assert(final(out)@ =~= old(out)@ + decimal(n as nat));
}

/// Appends the decimal text of `v`, with a leading `-` when negative.
pub fn push_signed_decimal(out: &mut String, v: i32)
    ensures
        final(out)@ == old(out)@ + signed_decimal(v as int),
{
    if v < 0 {
        proof {
            reveal_strlit("-");
        }
        out.append("-");
        let m: u64 = (-(v as i64)) as u64;
        push_decimal(out, m);
        assert(final(out)@ =~= old(out)@ + signed_decimal(v as int));
    } else {
        push_decimal(out, v as u64);
    }
}

impl PciBdf {
    pub fn new(segment: i32, bus: i32, device: i32, function: i32) -> (r: Self)
        ensures
            r == (PciBdf { segment, bus, device, function }),
    {
        PciBdf { segment, bus, device, function }
    }

    /// Parses a location-info text of the form `"PCI bus B, device D, function F"`.
    pub fn parse(location_info: &str) -> (r: Option<Self>)
        ensures
            r == parse_location(location_info@),
    {
        let s = location_info;
        let n = s.unicode_len();
        let bus_pat = ['P', 'C', 'I', ' ', 'b', 'u', 's', ' '];
        let dev_pat = [',', ' ', 'd', 'e', 'v', 'i', 'c', 'e', ' '];
        let fn_pat = [',', ' ', 'f', 'u', 'n', 'c', 't', 'i', 'o', 'n', ' '];
        assert(bus_pat@ =~= bus_label());
        assert(dev_pat@ =~= device_label());
        assert(fn_pat@ =~= function_label());
        if !chars_at(s, n, 0, bus_pat.as_slice()) {
            return None;
        }
        let (b, i) = match read_int(s, n, 8) {
            Some(x) => x,
            None => {
                return None;
            },
        };
        if b < i32::MIN as i64 || b > i32::MAX as i64 {
            return None;
        }
        if !chars_at(s, n, i, dev_pat.as_slice()) {
            return None;
        }
        let (d, j) = match read_int(s, n, i + 9) {
            Some(x) => x,
            None => {
                return None;
            },
        };
        if d < i32::MIN as i64 || d > i32::MAX as i64 {
            return None;
        }
        if !chars_at(s, n, j, fn_pat.as_slice()) {
            return None;
        }
        let (f, k) = match read_int(s, n, j + 11) {
            Some(x) => x,
            None => {
                return None;
            },
        };
        if f < i32::MIN as i64 || f > i32::MAX as i64 || k != n {
            return None;
        }
        Some(PciBdf { segment: 0, bus: b as i32, device: d as i32, function: f as i32 })
    }

    /// The location-info text that names this location.
    pub fn to_location_info(&self) -> (r: String)
        ensures
            r@ == location_text(*self),
    {
        proof {
            reveal_strlit("PCI bus ");
            reveal_strlit(", device ");
            reveal_strlit(", function ");
        }
        let mut out = String::from_str("PCI bus ");
        push_signed_decimal(&mut out, self.bus);
        out.append(", device ");
        push_signed_decimal(&mut out, self.device);
        out.append(", function ");
        push_signed_decimal(&mut out, self.function);
        assert(out@ =~= location_text(*self));
        out
    }

    /// Whether `self` comes strictly before `other` in location order.
    pub fn is_less(&self, other: &PciBdf) -> (r: bool)
        ensures
            r == location_lt(*self, *other),
    {
        if self.segment != other.segment {
            return self.segment < other.segment;
        }
        if self.bus != other.bus {
            return self.bus < other.bus;
        }
        if self.device != other.device {
            return self.device < other.device;
        }
        self.function < other.function
    }

    /// The location of a parsed location-info text, or the zero location when there is
    /// none or it does not parse.
    pub fn from_location_info(location_info: Option<&str>) -> (r: Self)
        ensures
            r == location_of_info(location_info),
    {
        match location_info {
            Some(s) => match PciBdf::parse(s) {
                Some(p) => p,
                None => PciBdf { segment: 0, bus: 0, device: 0, function: 0 },
            },
            None => PciBdf { segment: 0, bus: 0, device: 0, function: 0 },
        }
    }
}

} // verus!
