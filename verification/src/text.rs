//! Text rendering helpers shared by the code generators and error messages.

use heck::{ToLowerCamelCase, ToUpperCamelCase};
use vstd::prelude::*;

verus! {

/// What `heck` makes of a name in lowerCamelCase.
pub uninterp spec fn lower_camel_case(s: Seq<char>) -> Seq<char>;

/// What `heck` makes of a name in UpperCamelCase.
pub uninterp spec fn upper_camel_case(s: Seq<char>) -> Seq<char>;

/// Calls `heck::ToLowerCamelCase::to_lower_camel_case`; the result is the
/// named conversion of the input (a pure function of the characters).
#[verifier::external_body]
pub(crate) fn to_lower_camel(s: &str) -> (r: String)
    ensures
        r@ == lower_camel_case(s@),
{
    s.to_lower_camel_case()
}

/// Calls `heck::ToUpperCamelCase::to_upper_camel_case`; the result is the
/// named conversion of the input (a pure function of the characters).
#[verifier::external_body]
pub(crate) fn to_upper_camel(s: &str) -> (r: String)
    ensures
        r@ == upper_camel_case(s@),
{
    s.to_upper_camel_case()
}

/// Calls `String::push`: appends one character.
#[verifier::external_body]
pub(crate) fn push_char(s: &mut String, c: char)
    ensures
        final(s)@ == old(s)@.push(c),
{
    s.push(c)
}

/// What `<str as Debug>::fmt` writes for a string: the text between double
/// quotes, each character escaped as `char::escape_debug` does.
pub uninterp spec fn debug_str(s: Seq<char>) -> Seq<char>;

/// Printable ASCII other than `"` and `\`: characters that the string
/// `Debug` rendering leaves as they are.
pub open spec fn debug_plain(s: Seq<char>) -> bool {
    forall|i: int| 0 <= i < s.len() ==> ' ' <= #[trigger] s[i] <= '~' && s[i] != '"' && s[i] != '\\'
}

/// Calls `<str as Debug>::fmt` through `format!("{s:?}")`. The result is
/// the named rendering of the characters; where every character is plain
/// printable ASCII, none is escaped and the rendering is the text in quotes.
#[verifier::external_body]
pub(crate) fn debug_quote(s: &str) -> (r: String)
    ensures
        r@ == debug_str(s@),
        debug_plain(s@) ==> r@ == seq!['"'] + s@ + seq!['"'],
{
    format!("{s:?}")
}

/// Whether a character has the Unicode `White_Space` property: tab to
/// carriage return, space, next line, no-break space, ogham space mark, the
/// spaces U+2000 to U+200A, the line and paragraph separators, the narrow
/// no-break space, the medium mathematical space and the ideographic space.
pub open spec fn is_white_space(c: char) -> bool {
    let v = c as u32;
    ||| 0x09 <= v <= 0x0D
    ||| v == 0x20
    ||| v == 0x85
    ||| v == 0xA0
    ||| v == 0x1680
    ||| 0x2000 <= v <= 0x200A
    ||| v == 0x2028
    ||| v == 0x2029
    ||| v == 0x202F
    ||| v == 0x205F
    ||| v == 0x3000
}

/// A text without its leading white space.
pub open spec fn trim_start_whitespace(s: Seq<char>) -> Seq<char>
    decreases s.len(),
{
    if s.len() > 0 && is_white_space(s[0]) {
        trim_start_whitespace(s.drop_first())
    } else {
        s
    }
}

/// A text without its trailing white space.
pub open spec fn trim_end_whitespace(s: Seq<char>) -> Seq<char>
    decreases s.len(),
{
    if s.len() > 0 && is_white_space(s.last()) {
        trim_end_whitespace(s.drop_last())
    } else {
        s
    }
}

/// What `str::trim` leaves of a text: the text without its leading and
/// trailing white space.
pub open spec fn trim_whitespace(s: Seq<char>) -> Seq<char> {
    trim_end_whitespace(trim_start_whitespace(s))
}

/// Calls `str::trim`, which std documents as removing leading and trailing
/// characters with the Unicode `White_Space` property.
#[verifier::external_body]
pub(crate) fn trim(s: &str) -> (r: &str)
    ensures
        r@ == trim_whitespace(s@),
{
    s.trim()
}

/// What `str::to_lowercase` makes of a text: each character's Unicode
/// lowercase mapping.
pub uninterp spec fn lowercase_text(s: Seq<char>) -> Seq<char>;

/// Calls `str::to_lowercase`; the result is the named lowercase mapping of
/// the characters.
#[verifier::external_body]
pub(crate) fn to_lowercase(s: &str) -> (r: String)
    ensures
        r@ == lowercase_text(s@),
{
    s.to_lowercase()
}

/// The ASCII digit for `d < 10`.
pub open spec fn digit_char(d: nat) -> char {
    ((48 + d) as u8) as char
}

/// The lowercase hexadecimal digit for `d < 16`.
pub open spec fn hex_char(d: nat) -> char {
    if d < 10 {
        ((48 + d) as u8) as char
    } else {
        ((87 + d) as u8) as char
    }
}

/// Decimal rendering of a natural number, without leading zeros.
pub open spec fn decimal(v: nat) -> Seq<char>
    decreases v,
{
    if v < 10 {
        seq![digit_char(v)]
    } else {
        decimal(v / 10).push(digit_char(v % 10))
    }
}

/// The last `n` hexadecimal digits of `v`, most significant first.
pub open spec fn hex_digits(v: nat, n: nat) -> Seq<char>
    decreases n,
{
    if n == 0 {
        Seq::empty()
    } else {
        hex_digits(v / 16, (n - 1) as nat).push(hex_char(v % 16))
    }
}

/// `0x` followed by the sixteen lowercase hex digits of `v`.
pub open spec fn hex_u64_text(v: u64) -> Seq<char> {
    seq!['0', 'x'] + hex_digits(v as nat, 16)
}

/// A byte as two lowercase hexadecimal digits.
pub open spec fn hex_byte_text(b: u8) -> Seq<char> {
    seq![hex_char((b / 16) as nat), hex_char((b % 16) as nat)]
}

/// `"true"` or `"false"`.
pub open spec fn bool_text(b: bool) -> Seq<char> {
    if b {
        seq!['t', 'r', 'u', 'e']
    } else {
        seq!['f', 'a', 'l', 's', 'e']
    }
}

fn digit(d: u64) -> (c: char)
    requires
        d < 10,
    ensures
        c == digit_char(d as nat),
{
    ((48 + d) as u8) as char
}

fn hex_digit(d: u64) -> (c: char)
    requires
        d < 16,
    ensures
        c == hex_char(d as nat),
{
    if d < 10 {
        ((48 + d) as u8) as char
    } else {
        ((87 + d) as u8) as char
    }
}

/// Appends the decimal rendering of `v`.
pub fn push_decimal(out: &mut String, v: u64)
    ensures
        final(out)@ == old(out)@ + decimal(v as nat),
    decreases v,
{
    if v >= 10 {
        push_decimal(out, v / 10);
    }
    push_char(out, digit(v % 10));
    proof {
        if v >= 10 {
            assert(decimal(v as nat) == decimal((v / 10) as nat).push(digit_char((v % 10) as nat)));
        }
    }
}

fn push_hex_digits(out: &mut String, v: u64, n: u64)
    ensures
        final(out)@ == old(out)@ + hex_digits(v as nat, n as nat),
    decreases n,
{
    if n > 0 {
        push_hex_digits(out, v / 16, n - 1);
        push_char(out, hex_digit(v % 16));
    } else {
        assert(hex_digits(v as nat, 0) =~= Seq::<char>::empty());
    }
}

/// Appends `0x` and the sixteen lowercase hex digits of `v`.
pub fn push_hex_u64(out: &mut String, v: u64)
    ensures
        final(out)@ == old(out)@ + hex_u64_text(v),
{
    push_char(out, '0');
    push_char(out, 'x');
    push_hex_digits(out, v, 16);
}

/// Appends a byte as two lowercase hexadecimal digits.
pub fn push_hex_byte(out: &mut String, b: u8)
    ensures
        final(out)@ == old(out)@ + hex_byte_text(b),
{
    push_char(out, hex_digit((b / 16) as u64));
    push_char(out, hex_digit((b % 16) as u64));
    assert(final(out)@ =~= old(out)@ + hex_byte_text(b));
}

/// Appends `true` or `false`.
pub fn push_bool(out: &mut String, b: bool)
    ensures
        final(out)@ == old(out)@ + bool_text(b),
{
    if b {
        push_char(out, 't');
        push_char(out, 'r');
        push_char(out, 'u');
        push_char(out, 'e');
    } else {
        push_char(out, 'f');
        push_char(out, 'a');
        push_char(out, 'l');
        push_char(out, 's');
        push_char(out, 'e');
    }
}

/// The number a run of decimal digits reads as.
pub open spec fn digits_value(s: Seq<char>) -> int
    decreases s.len(),
{
    if s.len() == 0 {
        0
    } else {
        digits_value(s.drop_last()) * 10 + (s.last() as int - 48)
    }
}

/// The decimal rendering of a number is made of the digits `0` to `9`,
/// reads back as the number, and starts with a zero only for zero itself.
pub proof fn law_decimal_reads_back(v: nat)
    ensures
        forall|i: int| 0 <= i < decimal(v).len() ==> '0' <= #[trigger] decimal(v)[i] <= '9',
        digits_value(decimal(v)) == v,
        decimal(v).len() > 0,
        decimal(v)[0] == '0' ==> v == 0,
    decreases v,
{
    if v < 10 {
        assert(digit_char(v) as int == 48 + v);
        assert(decimal(v) =~= seq![digit_char(v)]);
        assert(seq![digit_char(v)].drop_last() =~= Seq::<char>::empty());
        assert(digits_value(Seq::<char>::empty()) == 0);
        assert(digits_value(decimal(v)) == digits_value(decimal(v).drop_last()) * 10 + (decimal(v).last() as int - 48));
    } else {
        law_decimal_reads_back(v / 10);
        let d = (v % 10) as nat;
        assert(digit_char(d) as int == 48 + d);
        let s = decimal(v);
        assert(s.drop_last() =~= decimal(v / 10));
        assert(s[0] == decimal(v / 10)[0]);
        assert(v == (v / 10) * 10 + d);
        assert(s.last() == digit_char(d));
        assert(digits_value(s) == digits_value(s.drop_last()) * 10 + (s.last() as int - 48));
    }
}

/// The value of a lowercase hexadecimal digit.
pub open spec fn hex_digit_value(c: char) -> int {
    if '0' <= c <= '9' {
        c as int - 48
    } else {
        c as int - 87
    }
}

/// The number a run of lowercase hexadecimal digits reads as.
pub open spec fn hex_value(s: Seq<char>) -> int
    decreases s.len(),
{
    if s.len() == 0 {
        0
    } else {
        hex_value(s.drop_last()) * 16 + hex_digit_value(s.last())
    }
}

/// Sixteen to the power `n`.
pub open spec fn pow16(n: nat) -> nat
    decreases n,
{
    if n == 0 {
        1
    } else {
        16 * pow16((n - 1) as nat)
    }
}

/// The last `n` hexadecimal digits of a number are `n` lowercase digits
/// (`0` to `9`, `a` to `f`) that read back as the number modulo sixteen to
/// the `n`.
pub proof fn law_hex_digits_read_back(v: nat, n: nat)
    ensures
        hex_digits(v, n).len() == n,
        forall|i: int|
            0 <= i < n ==> ('0' <= #[trigger] hex_digits(v, n)[i] <= '9' || 'a' <= hex_digits(v, n)[i] <= 'f'),
        hex_value(hex_digits(v, n)) == v % pow16(n),
    decreases n,
{
    if n == 0 {
        assert(hex_digits(v, 0) =~= Seq::<char>::empty());
    } else {
        let m = (n - 1) as nat;
        law_hex_digits_read_back(v / 16, m);
        let d = (v % 16) as nat;
        let s = hex_digits(v, n);
        assert(s.drop_last() =~= hex_digits(v / 16, m));
        assert(s.last() == hex_char(d));
        if d < 10 {
            assert(hex_char(d) as int == 48 + d);
        } else {
            assert(hex_char(d) as int == 87 + d);
        }
        assert(hex_digit_value(hex_char(d)) == d);
        assert(hex_value(s) == hex_value(s.drop_last()) * 16 + hex_digit_value(s.last()));
        let p = pow16(m);
        assert(p > 0) by {
            lemma_pow16_positive(m);
        }
        assert(((v / 16) % p) * 16 + v % 16 == v % (16 * p)) by (nonlinear_arith)
            requires
                p > 0,
        ;
    }
}

proof fn lemma_pow16_positive(n: nat)
    ensures
        pow16(n) > 0,
    decreases n,
{
    if n > 0 {
        lemma_pow16_positive((n - 1) as nat);
    }
}

/// `hex_u64_text` is `0x` and sixteen lowercase digits that read back as
/// the number itself.
pub proof fn law_hex_u64_reads_back(v: u64)
    ensures
        hex_u64_text(v).len() == 18,
        hex_u64_text(v).subrange(0, 2) == seq!['0', 'x'],
        hex_value(hex_u64_text(v).subrange(2, 18)) == v,
{
    law_hex_digits_read_back(v as nat, 16);
    assert(hex_u64_text(v).subrange(2, 18) =~= hex_digits(v as nat, 16));
    assert(hex_u64_text(v).subrange(0, 2) =~= seq!['0', 'x']);
    assert(pow16(16) == 0x1_0000_0000_0000_0000) by {
        reveal_with_fuel(pow16, 17);
    }
}

} // verus!
