//! Text as a sequence of characters: finding a character, splitting into
//! fields, and reading numbers.

use vstd::prelude::*;
use vstd::string::*;

verus! {

/// The characters of a text.
pub fn chars_of(s: &str) -> (chars: Vec<char>)
    ensures
        chars@ == s@,
{
    let len: usize = s.unicode_len();
    let mut chars: Vec<char> = Vec::new();
    let mut i: usize = 0;
    while i < len
        invariant
            len == s@.len(),
            i <= len,
            chars@ == s@.subrange(0, i as int),
        decreases len - i,
    {
        chars.push(s.get_char(i));
        i += 1;
    }
    chars
}

/// The position of the first `c` in `s` at or after `from`, or the length of
/// `s` if there is none.
pub open spec fn first_index_from(s: Seq<char>, c: char, from: int) -> int
    decreases s.len() - from,
{
    if from < 0 || from >= s.len() {
        s.len() as int
    } else if s[from] == c {
        from
    } else {
        first_index_from(s, c, from + 1)
    }
}

/// The position of the first `c` in `s`, or the length of `s` if there is
/// none.
pub open spec fn first_index(s: Seq<char>, c: char) -> int {
    first_index_from(s, c, 0)
}

/// What `first_index_from` finds: a position that holds `c`, or the end,
/// with no `c` between `from` and it.
pub proof fn lemma_first_index_from(s: Seq<char>, c: char, from: int)
    requires
        0 <= from <= s.len(),
    ensures
        from <= first_index_from(s, c, from) <= s.len(),
        first_index_from(s, c, from) < s.len() ==> s[first_index_from(s, c, from)] == c,
        forall|j: int| from <= j < first_index_from(s, c, from) ==> s[j] != c,
    decreases s.len() - from,
{
    if from < s.len() && s[from] != c {
        lemma_first_index_from(s, c, from + 1);
    }
}

/// Finds the first `c` in `v` at or after `from`.
pub fn find_from(v: &Vec<char>, c: char, from: usize) -> (at: usize)
    requires
        from <= v@.len(),
    ensures
        at == first_index_from(v@, c, from as int),
        from <= at <= v@.len(),
{
    let mut i: usize = from;
    while i < v.len() && v[i] != c
        invariant
            from <= i <= v@.len(),
            first_index_from(v@, c, from as int) == first_index_from(v@, c, i as int),
        decreases v@.len() - i,
    {
        i += 1;
    }
    i
}

/// Copies the characters of `v` from `from` up to `to`.
pub fn copy_range(v: &Vec<char>, from: usize, to: usize) -> (part: Vec<char>)
    requires
        from <= to <= v@.len(),
    ensures
        part@ == v@.subrange(from as int, to as int),
{
    let mut part: Vec<char> = Vec::new();
    let mut i: usize = from;
    while i < to
        invariant
            from <= i <= to <= v@.len(),
            part@ == v@.subrange(from as int, i as int),
        decreases to - i,
    {
        part.push(v[i]);
        i += 1;
    }
    part
}

/// The fields of `s` from `from` on: the stretches between one `sep` and the
/// next. The first field ends at the first `sep`, which never lies before
/// `from`.
pub open spec fn fields_from(s: Seq<char>, sep: char, from: int) -> Seq<Seq<char>>
    decreases s.len() - from,
{
    let end = first_index_from(s, sep, from);
    if from < 0 || from > s.len() || end < from {
        Seq::empty()
    } else if end >= s.len() {
        seq![s.subrange(from, s.len() as int)]
    } else {
        seq![s.subrange(from, end)] + fields_from(s, sep, end + 1)
    }
}

/// The fields of `s`: the stretches before, between and after each `sep`.
/// A text without `sep` is one field, be it empty.
pub open spec fn fields(s: Seq<char>, sep: char) -> Seq<Seq<char>> {
    fields_from(s, sep, 0)
}

/// There is always at least one field.
pub proof fn lemma_fields_nonempty(s: Seq<char>, sep: char, from: int)
    requires
        0 <= from <= s.len(),
    ensures
        fields_from(s, sep, from).len() >= 1,
{
    lemma_first_index_from(s, sep, from);
}

/// The texts that a list of character vectors holds.
pub open spec fn views(parts: Seq<Vec<char>>) -> Seq<Seq<char>> {
    parts.map_values(|part: Vec<char>| part@)
}

/// Splits `v` into its fields.
pub fn split(v: &Vec<char>, sep: char) -> (parts: Vec<Vec<char>>)
    ensures
        views(parts@) == fields(v@, sep),
{
    let mut parts: Vec<Vec<char>> = Vec::new();
    let mut pos: usize = 0;
    loop
        invariant_except_break
            pos <= v@.len(),
            fields(v@, sep) == views(parts@) + fields_from(v@, sep, pos as int),
        ensures
            views(parts@) == fields(v@, sep),
        decreases v@.len() - pos,
    {
        let end: usize = find_from(v, sep, pos);
        let part: Vec<char> = copy_range(v, pos, end);
        parts.push(part);
        if end >= v.len() {
            break;
        }
        pos = end + 1;
    }
    parts
}

/// Whether `c` is a digit to the base `radix`, which is 10 or 16.
pub open spec fn is_digit(c: char, radix: int) -> bool {
    ||| '0' <= c <= '9'
    ||| radix == 16 && ('a' <= c <= 'f' || 'A' <= c <= 'F')
}

/// The number that a digit stands for.
pub open spec fn digit_value(c: char) -> int {
    if '0' <= c <= '9' {
        c as int - '0' as int
    } else if 'a' <= c <= 'f' {
        c as int - 'a' as int + 10
    } else if 'A' <= c <= 'F' {
        c as int - 'A' as int + 10
    } else {
        0
    }
}

/// Whether `s` holds digits to the base `radix` only.
pub open spec fn all_digits(s: Seq<char>, radix: int) -> bool {
    forall|i: int| 0 <= i < s.len() ==> is_digit(#[trigger] s[i], radix)
}

/// The number that the digits `s` spell to the base `radix`.
pub open spec fn number_value(s: Seq<char>, radix: int) -> int
    decreases s.len(),
{
    if s.len() == 0 {
        0
    } else {
        number_value(s.drop_last(), radix) * radix + digit_value(s.last())
    }
}

/// The number that `s` spells to the base `radix`, if `s` is one digit or
/// more, digits only, and the number is at most `limit`.
pub open spec fn bounded_number(s: Seq<char>, radix: int, limit: int) -> Option<int> {
    if s.len() > 0 && all_digits(s, radix) && number_value(s, radix) <= limit {
        Some(number_value(s, radix))
    } else {
        None
    }
}

/// A number is no smaller than the number that any of its leading digits
/// spell.
pub proof fn lemma_number_value_grows(s: Seq<char>, radix: int, k: int)
    requires
        radix >= 1,
        0 <= k <= s.len(),
    ensures
        0 <= number_value(s.subrange(0, k), radix) <= number_value(s, radix),
    decreases s.len() - k,
{
    if k == s.len() {
        assert(s.subrange(0, k) =~= s);
        lemma_number_value_nonnegative(s, radix);
    } else {
        lemma_number_value_grows(s.drop_last(), radix, k);
        assert(s.drop_last().subrange(0, k) =~= s.subrange(0, k));
        let head = number_value(s.drop_last(), radix);
        assert(head * radix >= head) by (nonlinear_arith)
            requires
                head >= 0,
                radix >= 1,
        ;
    }
}

/// The number that digits spell is not negative.
pub proof fn lemma_number_value_nonnegative(s: Seq<char>, radix: int)
    requires
        radix >= 1,
    ensures
        number_value(s, radix) >= 0,
    decreases s.len(),
{
    if s.len() > 0 {
        lemma_number_value_nonnegative(s.drop_last(), radix);
        let head = number_value(s.drop_last(), radix);
        assert(head * radix >= 0) by (nonlinear_arith)
            requires
                head >= 0,
                radix >= 1,
        ;
    }
}

/// The number that the digit `c` stands for, if it is a digit to the base
/// `radix`.
pub fn digit_of(c: char, radix: u32) -> (digit: Option<u32>)
    requires
        radix == 10 || radix == 16,
    ensures
        digit is Some <==> is_digit(c, radix as int),
        digit matches Some(d) ==> d == digit_value(c) && d < radix,
{
    if '0' <= c && c <= '9' {
        Some(c as u32 - '0' as u32)
    } else if radix == 16 && 'a' <= c && c <= 'f' {
        Some(c as u32 - 'a' as u32 + 10)
    } else if radix == 16 && 'A' <= c && c <= 'F' {
        Some(c as u32 - 'A' as u32 + 10)
    } else {
        None
    }
}

/// Reads `v` as a number to the base `radix` that is at most `limit`.
pub fn read_number(v: &Vec<char>, radix: u32, limit: u32) -> (number: Option<u32>)
    requires
        radix == 10 || radix == 16,
        limit <= 0xffff,
    ensures
        number is Some <==> bounded_number(v@, radix as int, limit as int) is Some,
        number matches Some(n) ==> Some(n as int) == bounded_number(
            v@,
            radix as int,
            limit as int,
        ),
{
    if v.len() == 0 {
        return None;
    }
    let mut value: u32 = 0;
    let mut i: usize = 0;
    while i < v.len()
        invariant
            radix == 10 || radix == 16,
            limit <= 0xffff,
            i <= v@.len(),
            all_digits(v@.subrange(0, i as int), radix as int),
            value == number_value(v@.subrange(0, i as int), radix as int),
            value <= limit,
        decreases v@.len() - i,
    {
        let ghost prefix = v@.subrange(0, i as int + 1);
        assert(prefix.drop_last() =~= v@.subrange(0, i as int));
        match digit_of(v[i], radix) {
            Some(digit) => {
                value = value * radix + digit;
                assert(all_digits(prefix, radix as int));
                if value > limit {
                    proof {
                        lemma_number_value_grows(v@, radix as int, i as int + 1);
                    }
                    return None;
                }
            },
            None => { return None; },
        }
        i += 1;
    }
    assert(v@.subrange(0, i as int) =~= v@);
    Some(value)
}

/// The number below 256 that `s` spells in decimal digits, which a plus sign
/// may precede, if it spells one.
pub open spec fn decimal_u8(s: Seq<char>) -> Option<u8> {
    let digits = if s.len() > 0 && s[0] == '+' {
        s.subrange(1, s.len() as int)
    } else {
        s
    };
    match bounded_number(digits, 10, 255) {
        Some(n) => Some(n as u8),
        None => None,
    }
}

/// Reads a number below 256.
pub fn parse_u8(v: &Vec<char>) -> (number: Option<u8>)
    ensures
        number == decimal_u8(v@),
{
    let number: Option<u32> = if v.len() > 0 && v[0] == '+' {
        let digits: Vec<char> = copy_range(v, 1, v.len());
        read_number(&digits, 10, 255)
    } else {
        read_number(v, 10, 255)
    };
    match number {
        Some(n) => Some(n as u8),
        None => None,
    }
}

} // verus!
