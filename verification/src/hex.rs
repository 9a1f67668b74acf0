//! The textual hex notation of colors: parsing (as the config reader accepts it)
//! and formatting (as the config writer emits it).
use vstd::prelude::*;
use crate::text::{chars_of, push_char};

verus! {

/// Why a hex color text was refused; the three ways in which reading a
/// base-16 `u32` can fail.
#[derive(Debug, Clone, Copy, PartialEq, Eq, Structural)]
pub enum HexParseError {
    /// Nothing was left after the prefixes were removed.
    Empty,
    /// A character is not a hex digit (or a lone sign stands alone).
    InvalidDigit,
    /// The value does not fit in 32 bits.
    PosOverflow,
}

impl HexParseError {
    /// The text of the error, as the standard integer parser words it.
    pub fn message(&self) -> (r: &'static str)
        ensures
            r@ == match *self {
                HexParseError::Empty => "cannot parse integer from empty string"@,
                HexParseError::InvalidDigit => "invalid digit found in string"@,
                HexParseError::PosOverflow => "number too large to fit in target type"@,
            },
    {
        match self {
            HexParseError::Empty => "cannot parse integer from empty string",
            HexParseError::InvalidDigit => "invalid digit found in string",
            HexParseError::PosOverflow => "number too large to fit in target type",
        }
    }
}

/// ASCII lower-casing of one character; every other character is kept.
pub open spec fn ascii_lower(c: char) -> char {
    if 'A' <= c && c <= 'Z' {
        ((c as u32) + 32) as char
    } else {
        c
    }
}

/// ASCII lower-casing of a text.
pub open spec fn lower_seq(s: Seq<char>) -> Seq<char> {
    s.map_values(|c: char| ascii_lower(c))
}

/// The text with every leading `"0x"` removed.
pub open spec fn trim_0x(s: Seq<char>) -> Seq<char>
    decreases s.len(),
{
    if s.len() >= 2 && s[0] == '0' && s[1] == 'x' {
        trim_0x(s.skip(2))
    } else {
        s
    }
}

/// The text with every leading `'#'` removed.
pub open spec fn trim_hash(s: Seq<char>) -> Seq<char>
    decreases s.len(),
{
    if s.len() >= 1 && s[0] == '#' {
        trim_hash(s.skip(1))
    } else {
        s
    }
}

/// The value of a base-16 digit, in either case.
pub open spec fn hex_digit_value(c: char) -> Option<nat> {
    if '0' <= c && c <= '9' {
        Some(((c as nat) - ('0' as nat)) as nat)
    } else if 'a' <= c && c <= 'f' {
        Some(((c as nat) - ('a' as nat) + 10) as nat)
    } else if 'A' <= c && c <= 'F' {
        Some(((c as nat) - ('A' as nat) + 10) as nat)
    } else {
        None
    }
}

/// Reads the digits from left to right on top of the value `acc` already read:
/// the first character that is no digit gives `InvalidDigit`, the first digit
/// that takes the value past `u32::MAX` gives `PosOverflow`.
pub open spec fn accumulate(digits: Seq<char>, acc: nat) -> Result<u32, HexParseError>
    decreases digits.len(),
{
    if digits.len() == 0 {
        Ok(acc as u32)
    } else {
        match hex_digit_value(digits[0]) {
            None => Err(HexParseError::InvalidDigit),
            Some(d) => if acc * 16 + d > u32::MAX {
                Err(HexParseError::PosOverflow)
            } else {
                accumulate(digits.skip(1), acc * 16 + d)
            },
        }
    }
}

/// Reading a `u32` in base 16 the way `u32::from_str_radix(s, 16)` does:
/// an empty text is `Empty`, a lone `'+'` or `'-'` is `InvalidDigit`,
/// one leading `'+'` is allowed.
pub open spec fn radix16_u32(s: Seq<char>) -> Result<u32, HexParseError> {
    if s.len() == 0 {
        Err(HexParseError::Empty)
    } else if s.len() == 1 && (s[0] == '+' || s[0] == '-') {
        Err(HexParseError::InvalidDigit)
    } else if s[0] == '+' {
        accumulate(s.skip(1), 0)
    } else {
        accumulate(s, 0)
    }
}

/// What a hex color text denotes: lower-cased, stripped of leading `"0x"`s and
/// then of leading `'#'`s, read in base 16.
pub open spec fn spec_parse_hex(s: Seq<char>) -> Result<u32, HexParseError> {
    radix16_u32(trim_hash(trim_0x(lower_seq(s))))
}

/// The upper-case character of a base-16 digit.
pub open spec fn hex_char_upper(d: nat) -> char {
    if d < 10 {
        (('0' as nat) + d) as char
    } else {
        (('A' as nat) + d - 10) as char
    }
}

/// The upper-case base-16 digits of `v`, without leading zeros (`"0"` for zero).
pub open spec fn hex_upper_digits(v: nat) -> Seq<char>
    decreases v,
{
    if v < 16 {
        seq![hex_char_upper(v)]
    } else {
        hex_upper_digits(v / 16).push(hex_char_upper(v % 16))
    }
}

/// The text that a hex color is written as: `'#'` and its upper-case digits.
pub open spec fn spec_format_hex(v: u32) -> Seq<char> {
    seq!['#'] + hex_upper_digits(v as nat)
}

fn lower_char(c: char) -> (r: char)
    ensures
        r == ascii_lower(c),
{
    if 'A' <= c && c <= 'Z' {
        let u: u32 = c as u32;
        let l: u8 = (u + 32) as u8;
        l as char
    } else {
        c
    }
}

fn digit_value(c: char) -> (r: Option<u32>)
    ensures
        match hex_digit_value(c) {
            Some(d) => r == Some(d as u32),
            None => r is None,
        },
{
    if '0' <= c && c <= '9' {
        Some((c as u32) - ('0' as u32))
    } else if 'a' <= c && c <= 'f' {
        Some((c as u32) - ('a' as u32) + 10)
    } else if 'A' <= c && c <= 'F' {
        Some((c as u32) - ('A' as u32) + 10)
    } else {
        None
    }
}


/// Reads a hex color text: `"#071019"`, `"0x071019"`, `"071019"` and the like,
/// in either case. The text is lower-cased, every leading `"0x"` and then every
/// leading `'#'` is removed, and what is left is read as a base-16 `u32`.
///
/// The case folding here is ASCII's; a non-ASCII character never lower-cases to
/// a digit, an `'x'`, a `'#'` or a sign, so full Unicode lower-casing would give
/// the same result.
pub fn parse_hex_color(s: &str) -> (r: Result<u32, HexParseError>)
    ensures
        r == spec_parse_hex(s@),
{
    let v = chars_of(s);
    let ghost l = lower_seq(s@);
    let n = v.len();
    assert(l.skip(0) =~= l);

    let mut i: usize = 0;
    while i < n && i + 1 < n && v[i] == '0' && lower_char(v[i + 1]) == 'x'
        invariant
            i <= n,
            n == v@.len(),
            v@ == s@,
            l == lower_seq(s@),
            trim_0x(l) == trim_0x(l.skip(i as int)),
        decreases n - i,
    {
        assert(l.skip(i as int).skip(2) =~= l.skip(i + 2));
        i = i + 2;
    }
    assert(trim_0x(l) == l.skip(i as int));

    let mut j: usize = i;
    while j < n && v[j] == '#'
        invariant
            i <= j <= n,
            n == v@.len(),
            v@ == s@,
            l == lower_seq(s@),
            trim_hash(trim_0x(l)) == trim_hash(l.skip(j as int)),
        decreases n - j,
    {
        assert(l.skip(j as int).skip(1) =~= l.skip(j + 1));
        j = j + 1;
    }
    let ghost t = l.skip(j as int);
    assert(trim_hash(trim_0x(l)) == t);

    if j == n {
        return Err(HexParseError::Empty);
    }
    let first = lower_char(v[j]);
    if j + 1 == n && (first == '+' || first == '-') {
        return Err(HexParseError::InvalidDigit);
    }
    let mut k: usize = if first == '+' { j + 1 } else { j };
    let ghost digits = l.skip(k as int);
    assert(t.skip(1) =~= l.skip(j + 1));
    assert(t[0] == first);
    assert(spec_parse_hex(s@) == accumulate(digits, 0));
    let mut acc: u32 = 0;
    while k < n
        invariant
            j <= k <= n,
            n == v@.len(),
            v@ == s@,
            l == lower_seq(s@),
            spec_parse_hex(s@) == accumulate(digits, 0),
            accumulate(digits, 0) == accumulate(l.skip(k as int), acc as nat),
        decreases n - k,
    {
        assert(l.skip(k as int).skip(1) =~= l.skip(k + 1));
        assert(l.skip(k as int)[0] == ascii_lower(v@[k as int]));
        match digit_value(lower_char(v[k])) {
            None => {
                return Err(HexParseError::InvalidDigit);
            },
            Some(d) => {
                let w: u64 = (acc as u64) * 16 + (d as u64);
                if w > (u32::MAX as u64) {
                    return Err(HexParseError::PosOverflow);
                }
                acc = w as u32;
            },
        }
        k = k + 1;
    }
    Ok(acc)
}

fn hex_char(d: u32) -> (c: char)
    requires
        d < 16,
    ensures
        c == hex_char_upper(d as nat),
{
    if d < 10 {
        let b: u8 = 48u8 + (d as u8);
        b as char
    } else {
        let b: u8 = 65u8 + ((d - 10) as u8);
        b as char
    }
}

fn push_hex_digits(s: &mut String, v: u32)
    ensures
        final(s)@ == old(s)@ + hex_upper_digits(v as nat),
    decreases v,
{
    if v < 16 {
        push_char(s, hex_char(v));
    } else {
        push_hex_digits(s, v / 16);
        push_char(s, hex_char(v % 16));
        assert(final(s)@ =~= old(s)@ + hex_upper_digits(v as nat));
    }
}

/// Writes a hex color as its config text: `'#'` followed by the upper-case
/// base-16 digits of the value, without leading zeros.
pub fn format_hex_color(v: u32) -> (r: String)
    ensures
        r@ == spec_format_hex(v),
{
    let mut s = String::new();
    push_char(&mut s, '#');
    push_hex_digits(&mut s, v);
    assert(s@ =~= spec_format_hex(v));
    s
}


/// One more digit read on top of the value `w`.
pub open spec fn accumulate_step(w: nat, c: char) -> Result<u32, HexParseError> {
    match hex_digit_value(c) {
        None => Err(HexParseError::InvalidDigit),
        Some(d) => if w * 16 + d > u32::MAX {
            Err(HexParseError::PosOverflow)
        } else {
            Ok((w * 16 + d) as u32)
        },
    }
}

proof fn lemma_accumulate_push(ds: Seq<char>, c: char, acc: nat)
    requires
        acc <= u32::MAX,
    ensures
        accumulate(ds, acc) is Ok ==> accumulate(ds.push(c), acc) == accumulate_step(
            accumulate(ds, acc)->Ok_0 as nat,
            c,
        ),
    decreases ds.len(),
{
    let p = ds.push(c);
    if ds.len() == 0 {
        assert(p.len() == 1 && p[0] == c);
        assert(p.skip(1) =~= Seq::<char>::empty());
        assert(accumulate(ds, acc) == Ok::<u32, HexParseError>(acc as u32));
        if let Some(d) = hex_digit_value(c) {
            if acc * 16 + d <= u32::MAX {
                assert(accumulate(p.skip(1), acc * 16 + d) == Ok::<u32, HexParseError>(
                    (acc * 16 + d) as u32,
                ));
            }
        }
    } else {
        assert(p[0] == ds[0]);
        assert(p.skip(1) =~= ds.skip(1).push(c));
        if let Some(d) = hex_digit_value(ds[0]) {
            if acc * 16 + d <= u32::MAX {
                lemma_accumulate_push(ds.skip(1), c, acc * 16 + d);
            }
        }
    }
}

proof fn lemma_hex_char_value(d: nat)
    requires
        d < 16,
    ensures
        hex_digit_value(ascii_lower(hex_char_upper(d))) == Some(d),
{
}

proof fn lemma_lower_push(s: Seq<char>, c: char)
    ensures
        lower_seq(s.push(c)) == lower_seq(s).push(ascii_lower(c)),
{
    assert(lower_seq(s.push(c)) =~= lower_seq(s).push(ascii_lower(c)));
}

proof fn lemma_digits_are_digits(v: nat)
    ensures
        hex_upper_digits(v).len() >= 1,
        forall|i: int|
            0 <= i < hex_upper_digits(v).len() ==> #[trigger] hex_digit_value(
                ascii_lower(hex_upper_digits(v)[i]),
            ) is Some,
    decreases v,
{
    if v < 16 {
        lemma_hex_char_value(v);
    } else {
        lemma_digits_are_digits(v / 16);
        lemma_hex_char_value(v % 16);
        let p = hex_upper_digits(v / 16);
        assert forall|i: int| 0 <= i < hex_upper_digits(v).len() implies #[trigger] hex_digit_value(
            ascii_lower(hex_upper_digits(v)[i]),
        ) is Some by {
            if i < p.len() {
                assert(hex_upper_digits(v)[i] == p[i]);
            }
        }
    }
}

proof fn lemma_digits_read_back(v: nat)
    requires
        v <= u32::MAX,
    ensures
        accumulate(lower_seq(hex_upper_digits(v)), 0) == Ok::<u32, HexParseError>(v as u32),
    decreases v,
{
    if v < 16 {
        lemma_hex_char_value(v);
        let l = lower_seq(hex_upper_digits(v));
        assert(l.len() == 1 && l[0] == ascii_lower(hex_char_upper(v)));
        assert(l.skip(1) =~= Seq::<char>::empty());
        assert(hex_digit_value(l[0]) == Some(v));
        assert(accumulate(l, 0) == accumulate(l.skip(1), v));
        assert(accumulate(l.skip(1), v) == Ok::<u32, HexParseError>(v as u32));
    } else {
        assert(hex_upper_digits(v) == hex_upper_digits(v / 16).push(hex_char_upper(v % 16)));
        assert((v / 16) * 16 + v % 16 == v);
        lemma_digits_read_back(v / 16);
        lemma_lower_push(hex_upper_digits(v / 16), hex_char_upper(v % 16));
        lemma_accumulate_push(
            lower_seq(hex_upper_digits(v / 16)),
            ascii_lower(hex_char_upper(v % 16)),
            0,
        );
        lemma_hex_char_value(v % 16);
        let w = accumulate(lower_seq(hex_upper_digits(v / 16)), 0)->Ok_0 as nat;
        assert(w == v / 16);
        assert(accumulate_step(w, ascii_lower(hex_char_upper(v % 16))) == Ok::<u32, HexParseError>(
            v as u32,
        ));
    }
}

/// Reading back what was written gives the color that was written: for every
/// `v`, parsing the text that `format_hex_color(v)` returns yields `Ok(v)`.
pub proof fn law_hex_roundtrip(v: u32)
    ensures
        spec_parse_hex(spec_format_hex(v)) == Ok::<u32, HexParseError>(v),
{
    let d = hex_upper_digits(v as nat);
    let f = spec_format_hex(v);
    lemma_digits_are_digits(v as nat);
    lemma_digits_read_back(v as nat);
    let lf = lower_seq(f);
    let ld = lower_seq(d);
    assert(lf =~= seq!['#'] + ld);
    assert(lf[0] == '#');
    assert(trim_0x(lf) == lf);
    assert(lf.skip(1) =~= ld);
    assert(hex_digit_value(ascii_lower(d[0])) is Some);
    assert(ld[0] == ascii_lower(d[0]));
    assert(trim_hash(ld) == ld);
    assert(trim_hash(lf) == ld);
}


/// Every base-16 digit has its positional value: `'0'` to `'9'` are worth 0 to
/// 9, and `'a'` to `'f'` (in either case) 10 to 15; each value below 16 is
/// written with its own digit, in upper case.
pub proof fn law_hex_digit_values()
    ensures
        hex_digit_value('0') == Some(0nat),
        hex_digit_value('1') == Some(1nat),
        hex_digit_value('2') == Some(2nat),
        hex_digit_value('3') == Some(3nat),
        hex_digit_value('4') == Some(4nat),
        hex_digit_value('5') == Some(5nat),
        hex_digit_value('6') == Some(6nat),
        hex_digit_value('7') == Some(7nat),
        hex_digit_value('8') == Some(8nat),
        hex_digit_value('9') == Some(9nat),
        hex_digit_value('a') == Some(10nat),
        hex_digit_value('b') == Some(11nat),
        hex_digit_value('c') == Some(12nat),
        hex_digit_value('d') == Some(13nat),
        hex_digit_value('e') == Some(14nat),
        hex_digit_value('f') == Some(15nat),
        hex_digit_value('A') == Some(10nat),
        hex_digit_value('B') == Some(11nat),
        hex_digit_value('C') == Some(12nat),
        hex_digit_value('D') == Some(13nat),
        hex_digit_value('E') == Some(14nat),
        hex_digit_value('F') == Some(15nat),
        hex_char_upper(0nat) == '0',
        hex_char_upper(1nat) == '1',
        hex_char_upper(2nat) == '2',
        hex_char_upper(3nat) == '3',
        hex_char_upper(4nat) == '4',
        hex_char_upper(5nat) == '5',
        hex_char_upper(6nat) == '6',
        hex_char_upper(7nat) == '7',
        hex_char_upper(8nat) == '8',
        hex_char_upper(9nat) == '9',
        hex_char_upper(10nat) == 'A',
        hex_char_upper(11nat) == 'B',
        hex_char_upper(12nat) == 'C',
        hex_char_upper(13nat) == 'D',
        hex_char_upper(14nat) == 'E',
        hex_char_upper(15nat) == 'F',
{
}

/// Digits are read without regard to case: a character and its ASCII
/// lower-case form are worth the same, or are both no digit.
pub proof fn law_hex_case_insensitive(c: char)
    ensures
        hex_digit_value(ascii_lower(c)) == hex_digit_value(c),
{
}

/// The `'#'` and `"0x"` prefixes are optional: for a text `d` that does not
/// itself start with `"0x"` (in either case), `"#" + d` and `"0x" + d` denote
/// what `d` denotes.
pub proof fn law_hex_prefixes_optional(d: Seq<char>)
    requires
        trim_0x(lower_seq(d)) == lower_seq(d),
    ensures
        spec_parse_hex(seq!['#'] + d) == spec_parse_hex(d),
        spec_parse_hex(seq!['0', 'x'] + d) == spec_parse_hex(d),
        spec_parse_hex(seq!['0', 'X'] + d) == spec_parse_hex(d),
{
    let l = lower_seq(d);
    let h = lower_seq(seq!['#'] + d);
    assert(h =~= seq!['#'] + l);
    assert(trim_0x(h) == h);
    assert(h.skip(1) =~= l);
    assert(trim_hash(h) == trim_hash(l));
    let x = lower_seq(seq!['0', 'x'] + d);
    assert(x =~= seq!['0', 'x'] + l);
    assert(x.skip(2) =~= l);
    assert(trim_0x(x) == trim_0x(l));
    let xx = lower_seq(seq!['0', 'X'] + d);
    assert(xx =~= seq!['0', 'x'] + l);
}

} // verus!
