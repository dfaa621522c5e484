//! The two forms of text that regular expressions check.
use crate::text::is_blank;
use vstd::prelude::*;

verus! {

/// The names that a table can have.
pub const TABLE_NAME_PATTERN: &'static str = r"^[a-zA-Z_][a-zA-Z0-9_]*$";

/// The sizes that a memory limit can have.
pub const MEMORY_LIMIT_PATTERN: &'static str = r"(?i)^\s*[1-9][0-9]*(?:\.[0-9]+)?\s*(?:b|kb|mb|gb|tb|kib|mib|gib|tib)\s*$";

/// An ASCII letter or an underscore.
pub open spec fn is_name_start(c: char) -> bool {
    'a' <= c <= 'z' || 'A' <= c <= 'Z' || c == '_'
}

/// An ASCII letter or digit, or an underscore.
pub open spec fn is_name_char(c: char) -> bool {
    is_name_start(c) || '0' <= c <= '9'
}

/// A letter or an underscore, followed by letters, digits and underscores.
pub open spec fn is_table_name(s: Seq<char>) -> bool {
    &&& s.len() > 0
    &&& is_name_start(s[0])
    &&& forall|i: int| 0 <= i < s.len() ==> is_name_char(#[trigger] s[i])
}

/// ASCII digits, or nothing.
pub open spec fn is_digits(s: Seq<char>) -> bool {
    forall|i: int| 0 <= i < s.len() ==> '0' <= #[trigger] s[i] <= '9'
}

/// A decimal number that does not begin with a zero.
pub open spec fn is_whole_number(s: Seq<char>) -> bool {
    s.len() > 0 && s[0] != '0' && is_digits(s)
}

/// A decimal point and at least one digit, or nothing.
pub open spec fn is_fraction(s: Seq<char>) -> bool {
    s.len() == 0 || (s.len() > 1 && s[0] == '.' && is_digits(s.drop_first()))
}

/// The letter `b` in either case.
pub open spec fn is_b(c: char) -> bool {
    c == 'b' || c == 'B'
}

/// The letter `i` in either case.
pub open spec fn is_i(c: char) -> bool {
    c == 'i' || c == 'I'
}

/// The letter of a unit's prefix in either case. The Kelvin sign is a form of `k`.
pub open spec fn is_magnitude(c: char) -> bool {
    c == 'k' || c == 'K' || c == '\u{212a}' || c == 'm' || c == 'M' || c == 'g' || c == 'G' || c
        == 't' || c == 'T'
}

/// One of `b`, `kb`, `mb`, `gb`, `tb`, `kib`, `mib`, `gib` and `tib`, in either case.
pub open spec fn is_unit(s: Seq<char>) -> bool {
    ||| s.len() == 1 && is_b(s[0])
    ||| s.len() == 2 && is_magnitude(s[0]) && is_b(s[1])
    ||| s.len() == 3 && is_magnitude(s[0]) && is_i(s[1]) && is_b(s[2])
}

/// A size: a number and a unit, with white space before, between and after them.
pub open spec fn is_size(
    s: Seq<char>,
    before: Seq<char>,
    whole: Seq<char>,
    fraction: Seq<char>,
    between: Seq<char>,
    unit: Seq<char>,
    behind: Seq<char>,
) -> bool {
    &&& s == before + whole + fraction + between + unit + behind
    &&& is_blank(before)
    &&& is_whole_number(whole)
    &&& is_fraction(fraction)
    &&& is_blank(between)
    &&& is_unit(unit)
    &&& is_blank(behind)
}

/// A positive size such as `200MB` or `2GiB`.
pub open spec fn is_memory_limit(s: Seq<char>) -> bool {
    exists|
        before: Seq<char>,
        whole: Seq<char>,
        fraction: Seq<char>,
        between: Seq<char>,
        unit: Seq<char>,
        behind: Seq<char>,
    |
        is_size(s, before, whole, fraction, between, unit, behind)
}

/// `regex::Regex::is_match`, on the pattern that `regex::Regex::new` compiles. The
/// contract claims that both patterns of this module compile and which texts they match:
/// `^` and `$` stand for the ends of the text, the classes in brackets are ASCII, `\s` is
/// Unicode's white space, and `(?i)` takes each letter in all forms that simple case
/// folding makes equal.
#[verifier::external_body]
fn regex_is_match(pattern: &str, text: &str) -> (r: Option<bool>)
    requires
        pattern@ == TABLE_NAME_PATTERN@ || pattern@ == MEMORY_LIMIT_PATTERN@,
    ensures
        pattern@ == TABLE_NAME_PATTERN@ ==> r == Some(is_table_name(text@)),
        pattern@ == MEMORY_LIMIT_PATTERN@ ==> r == Some(is_memory_limit(text@)),
{
    match regex::Regex::new(pattern) {
        Ok(compiled) => Some(compiled.is_match(text)),
        Err(_) => None,
    }
}

/// Tells whether the text can be the name of a table.
pub fn table_name(text: &str) -> (r: bool)
    ensures
        r == is_table_name(text@),
{
    match regex_is_match(TABLE_NAME_PATTERN, text) {
        Some(matches) => matches,
        None => false,
    }
}

/// Tells whether the text is a positive size.
pub fn memory_limit(text: &str) -> (r: bool)
    ensures
        r == is_memory_limit(text@),
{
    match regex_is_match(MEMORY_LIMIT_PATTERN, text) {
        Some(matches) => matches,
        None => false,
    }
}

/// A table can have a name of any length in which every character is an ASCII letter, an
/// ASCII digit or an underscore, and the first is no digit, and no other name.
pub proof fn law_table_names_are_identifiers(text: &str, accepted: bool)
    requires
        call_ensures(table_name, (text,), accepted),
    ensures
        accepted <==> {
            &&& text@.len() > 0
            &&& !('0' <= text@[0] <= '9')
            &&& forall|i: int|
                0 <= i < text@.len() ==> 'a' <= #[trigger] text@[i] <= 'z' || 'A' <= text@[i] <= 'Z'
                    || '0' <= text@[i] <= '9' || text@[i] == '_'
        },
{
    let s = text@;
    if s.len() > 0 && !('0' <= s[0] <= '9') && (forall|i: int|
        0 <= i < s.len() ==> 'a' <= #[trigger] s[i] <= 'z' || 'A' <= s[i] <= 'Z' || '0' <= s[i]
            <= '9' || s[i] == '_') {
        assert forall|i: int| 0 <= i < s.len() implies is_name_char(#[trigger] s[i]) by {}
        assert(is_name_char(s[0]));
        assert(is_table_name(s));
    }
    if is_table_name(s) {
        assert forall|i: int| 0 <= i < s.len() implies 'a' <= #[trigger] s[i] <= 'z' || 'A' <= s[i]
            <= 'Z' || '0' <= s[i] <= '9' || s[i] == '_' by {
            assert(is_name_char(s[i]));
        }
    }
}

/// A number that does not begin with a zero, with or without decimals, is a size with each
/// unit, in either case, with any white space before it, between them and behind them.
pub proof fn law_numbers_with_a_unit_are_sizes(
    before: Seq<char>,
    number: Seq<char>,
    decimals: Seq<char>,
    between: Seq<char>,
    magnitude: char,
    behind: Seq<char>,
)
    requires
        is_blank(before),
        is_blank(between),
        is_blank(behind),
        number.len() > 0,
        '1' <= number[0] <= '9',
        forall|i: int| 0 <= i < number.len() ==> '0' <= #[trigger] number[i] <= '9',
        decimals.len() == 0 || decimals.len() > 1 && decimals[0] == '.',
        forall|i: int| 1 <= i < decimals.len() ==> '0' <= #[trigger] decimals[i] <= '9',
        magnitude == 'k' || magnitude == 'K' || magnitude == 'm' || magnitude == 'M' || magnitude
            == 'g' || magnitude == 'G' || magnitude == 't' || magnitude == 'T',
    ensures
        is_memory_limit(before + number + decimals + between + seq!['b'] + behind),
        is_memory_limit(before + number + decimals + between + seq!['B'] + behind),
        is_memory_limit(before + number + decimals + between + seq![magnitude, 'b'] + behind),
        is_memory_limit(before + number + decimals + between + seq![magnitude, 'B'] + behind),
        is_memory_limit(before + number + decimals + between + seq![magnitude, 'i', 'B'] + behind),
        is_memory_limit(before + number + decimals + between + seq![magnitude, 'i', 'b'] + behind),
{
    assert(is_fraction(decimals)) by {
        if decimals.len() > 0 {
            let digits = decimals.drop_first();
            assert forall|i: int| 0 <= i < digits.len() implies '0' <= #[trigger] digits[i]
                <= '9' by {
                assert(digits[i] == decimals[i + 1]);
            }
        }
    }
    let units: Seq<Seq<char>> = seq![
        seq!['b'],
        seq!['B'],
        seq![magnitude, 'b'],
        seq![magnitude, 'B'],
        seq![magnitude, 'i', 'B'],
        seq![magnitude, 'i', 'b'],
    ];
    assert forall|i: int| 0 <= i < 6 implies is_size(
        before + number + decimals + between + #[trigger] units[i] + behind,
        before,
        number,
        decimals,
        between,
        units[i],
        behind,
    ) by {}
    assert(units[0] == seq!['b'] && units[1] == seq!['B']);
    assert(units[2] == seq![magnitude, 'b'] && units[3] == seq![magnitude, 'B']);
    assert(units[4] == seq![magnitude, 'i', 'B'] && units[5] == seq![magnitude, 'i', 'b']);
}

/// Every size holds a number that is not zero and a unit: white space aside it begins with
/// one of the digits from one to nine, and ends with a `b` in either case.
pub proof fn law_sizes_are_positive_and_have_a_unit(text: &str, accepted: bool)
    requires
        call_ensures(memory_limit, (text,), accepted),
        accepted,
    ensures
        exists|i: int, j: int|
            0 <= i < j < text@.len() && '1' <= #[trigger] text@[i] <= '9' && (
            #[trigger] text@[j] == 'b' || text@[j] == 'B') && is_blank(text@.take(i)) && is_blank(
                text@.skip(j + 1),
            ),
{
    let s = text@;
    let (before, whole, fraction, between, unit, behind) = choose|
        before: Seq<char>,
        whole: Seq<char>,
        fraction: Seq<char>,
        between: Seq<char>,
        unit: Seq<char>,
        behind: Seq<char>,
    |
        is_size(s, before, whole, fraction, between, unit, behind);
    let i = before.len() as int;
    let j = s.len() - behind.len() - 1;
    assert(s[i] == whole[0]);
    assert(s[j] == unit.last());
    assert(s.take(i) =~= before);
    assert(s.skip(j + 1) =~= behind);
    assert(0 <= i < j < s.len());
}

} // verus!
