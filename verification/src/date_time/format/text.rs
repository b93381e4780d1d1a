//! Decimal numbers as text: what a run of digits stands for, and how a
//! number is written.

use vstd::prelude::*;
use vstd::string::StringExecFns;

verus! {

/// The value of a decimal digit; `None` for any other character.
pub open spec fn spec_digit_value(c: char) -> Option<nat> {
    if c == '0' {
        Some(0)
    } else if c == '1' {
        Some(1)
    } else if c == '2' {
        Some(2)
    } else if c == '3' {
        Some(3)
    } else if c == '4' {
        Some(4)
    } else if c == '5' {
        Some(5)
    } else if c == '6' {
        Some(6)
    } else if c == '7' {
        Some(7)
    } else if c == '8' {
        Some(8)
    } else if c == '9' {
        Some(9)
    } else {
        None
    }
}

/// Whether every character of `s` is a decimal digit.
pub open spec fn all_digits(s: Seq<char>) -> bool {
    forall|i: int| 0 <= i < s.len() ==> spec_digit_value(#[trigger] s[i]) is Some
}

/// The number that the digits `s` write, most significant digit first.
pub open spec fn number(s: Seq<char>) -> nat
    decreases s.len(),
{
    if s.len() == 0 {
        0
    } else {
        match spec_digit_value(s.last()) {
            Some(d) => number(s.drop_last()) * 10 + d,
            None => number(s.drop_last()) * 10,
        }
    }
}

/// The character that writes the digit `d`.
pub open spec fn digit_char(d: nat) -> char {
    if d == 0 {
        '0'
    } else if d == 1 {
        '1'
    } else if d == 2 {
        '2'
    } else if d == 3 {
        '3'
    } else if d == 4 {
        '4'
    } else if d == 5 {
        '5'
    } else if d == 6 {
        '6'
    } else if d == 7 {
        '7'
    } else if d == 8 {
        '8'
    } else {
        '9'
    }
}

/// `n` written with exactly `width` digits: padded with zeros on the left,
/// and cut to its lowest digits where it has more.
pub open spec fn padded(n: nat, width: nat) -> Seq<char>
    decreases width,
{
    if width == 0 {
        Seq::empty()
    } else {
        padded(n / 10, (width - 1) as nat).push(digit_char(n % 10))
    }
}

/// `n` written in decimal without leading zeros.
pub open spec fn decimal(n: nat) -> Seq<char>
    decreases n,
{
    if n < 10 {
        seq![digit_char(n)]
    } else {
        decimal(n / 10).push(digit_char(n % 10))
    }
}

/// `s` without the zeros at its end.
pub open spec fn without_trailing_zeros(s: Seq<char>) -> Seq<char>
    decreases s.len(),
{
    if s.len() > 0 && s.last() == '0' {
        without_trailing_zeros(s.drop_last())
    } else {
        s
    }
}

/// The characters of `s`.
pub fn to_chars(s: &str) -> (r: Vec<char>)
    ensures
        r@ == s@,
{
    let mut out: Vec<char> = Vec::new();
    for c in iter: s.chars()
        invariant
            out@ == iter.seq().take(iter.index()),
            iter.seq() == s@,
    {
        out.push(c);
        assert(iter.seq().take(iter.index() + 1) =~= iter.seq().take(iter.index()).push(c));
    }
    assert(s@.take(s@.len() as int) =~= s@);
    out
}

/// The value of a decimal digit; `None` for any other character.
pub fn digit_value(c: char) -> (r: Option<u8>)
    ensures
        match r {
            Some(d) => spec_digit_value(c) == Some(d as nat) && d < 10,
            None => spec_digit_value(c) is None,
        },
{
    match c {
        '0' => Some(0),
        '1' => Some(1),
        '2' => Some(2),
        '3' => Some(3),
        '4' => Some(4),
        '5' => Some(5),
        '6' => Some(6),
        '7' => Some(7),
        '8' => Some(8),
        '9' => Some(9),
        _ => None,
    }
}

/// A power of ten.
pub open spec fn pow10(exponent: nat) -> nat
    decreases exponent,
{
    if exponent == 0 {
        1
    } else {
        10 * pow10((exponent - 1) as nat)
    }
}

/// A number written with a sign: `-` before the digits of a negative
/// number, nothing before those of any other.
pub open spec fn signed_decimal(n: int) -> Seq<char> {
    if n < 0 {
        seq!['-'] + decimal((-n) as nat)
    } else {
        decimal(n as nat)
    }
}

/// The fraction of a second as text: nothing for zero; otherwise a point
/// and the `width` digits of `value`, without the zeros at their end.
pub open spec fn fraction_text(value: nat, width: nat) -> Seq<char> {
    if value == 0 {
        Seq::empty()
    } else {
        seq!['.'] + without_trailing_zeros(padded(value, width))
    }
}

/// The index of the first `c` in `s`, or the length of `s` where there is
/// none.
pub open spec fn position(s: Seq<char>, c: char) -> int
    decreases s.len(),
{
    if s.len() == 0 {
        0
    } else if s[0] == c {
        0
    } else {
        1 + position(s.drop_first(), c)
    }
}

/// `position` is within the sequence, points at `c` unless it is the
/// length, and no `c` stands before it.
pub proof fn lemma_position(s: Seq<char>, c: char)
    ensures
        0 <= position(s, c) <= s.len(),
        position(s, c) < s.len() ==> s[position(s, c)] == c,
        forall|i: int| 0 <= i < position(s, c) ==> s[i] != c,
    decreases s.len(),
{
    if s.len() > 0 && s[0] != c {
        let rest = s.drop_first();
        lemma_position(rest, c);
        assert forall|i: int| 0 <= i < position(s, c) implies s[i] != c by {
            if i > 0 {
                assert(s[i] == rest[i - 1]);
            }
        }
    }
}

/// A run of digits writes at least what any of its beginnings writes.
pub proof fn lemma_number_grows(s: Seq<char>, k: int)
    requires
        0 <= k <= s.len(),
    ensures
        number(s.take(k)) <= number(s),
    decreases s.len(),
{
    if k < s.len() {
        assert(s.drop_last().take(k) =~= s.take(k));
        lemma_number_grows(s.drop_last(), k);
    } else {
        assert(s.take(k) =~= s);
    }
}

/// A run of `n` digits writes a number below the `n`-th power of ten.
pub proof fn lemma_number_bound(s: Seq<char>)
    ensures
        number(s) < pow10(s.len()),
    decreases s.len(),
{
    if s.len() > 0 {
        lemma_number_bound(s.drop_last());
    }
}

/// The one-character text of a digit.
pub fn digit_str(d: u8) -> (r: &'static str)
    requires
        d < 10,
    ensures
        r@ == seq![digit_char(d as nat)],
{
    proof {
        reveal_strlit("0");
        reveal_strlit("1");
        reveal_strlit("2");
        reveal_strlit("3");
        reveal_strlit("4");
        reveal_strlit("5");
        reveal_strlit("6");
        reveal_strlit("7");
        reveal_strlit("8");
        reveal_strlit("9");
    }
    let r = match d {
        0 => "0",
        1 => "1",
        2 => "2",
        3 => "3",
        4 => "4",
        5 => "5",
        6 => "6",
        7 => "7",
        8 => "8",
        _ => "9",
    };
    assert(r@ =~= seq![digit_char(d as nat)]);
    r
}

/// Appends `n` written with exactly `width` digits.
pub fn push_padded(out: &mut String, n: u64, width: u8)
    ensures
        final(out)@ == old(out)@ + padded(n as nat, width as nat),
    decreases width,
{
    if width > 0 {
        push_padded(out, n / 10, width - 1);
        out.append(digit_str((n % 10) as u8));
        assert(out@ =~= old(out)@ + padded(n as nat, width as nat));
    } else {
        assert(out@ =~= old(out)@ + padded(n as nat, width as nat));
    }
}

/// Appends `n` written in decimal without leading zeros.
pub fn push_decimal(out: &mut String, n: u64)
    ensures
        final(out)@ == old(out)@ + decimal(n as nat),
    decreases n,
{
    if n >= 10 {
        push_decimal(out, n / 10);
    }
    out.append(digit_str((n % 10) as u8));
    assert(out@ =~= old(out)@ + decimal(n as nat));
}

/// Appends the fraction of a second: nothing for zero; otherwise a point
/// and the `width` digits of `value`, without the zeros at their end.
pub fn push_fraction(out: &mut String, value: u32, width: u8)
    ensures
        final(out)@ == old(out)@ + fraction_text(value as nat, width as nat),
{
    if value == 0 {
        assert(out@ =~= old(out)@ + fraction_text(value as nat, width as nat));
    } else {
        let mut digits: u32 = value;
        let mut places: u8 = width;
        while places > 0 && digits % 10 == 0
            invariant
                without_trailing_zeros(padded(value as nat, width as nat))
                    == without_trailing_zeros(padded(digits as nat, places as nat)),
            decreases places,
        {
            assert(padded(digits as nat, places as nat).last() == '0');
            assert(padded(digits as nat, places as nat).drop_last() =~= padded(
                (digits / 10) as nat,
                (places - 1) as nat,
            ));
            digits = digits / 10;
            places = places - 1;
        }
        proof {
            reveal_strlit(".");
            if places > 0 {
                assert(padded(digits as nat, places as nat).last() == digit_char(
                    (digits % 10) as nat,
                ));
            }
        }
        out.append(".");
        push_padded(out, digits as u64, places);
        assert("."@ =~= seq!['.']);
        assert(out@ =~= old(out)@ + fraction_text(value as nat, width as nat));
    }
}

/// The index of the first `c` in `chars` at or after `from`, or the length
/// of `chars` where there is none.
pub fn find_char(chars: &Vec<char>, from: usize, c: char) -> (r: usize)
    requires
        from <= chars.len(),
    ensures
        r == from + position(chars@.skip(from as int), c),
        from <= r <= chars.len(),
{
    let mut i: usize = from;
    proof {
        lemma_position(chars@.skip(from as int), c);
    }
    while i < chars.len()
        invariant
            from <= i <= chars.len(),
            position(chars@.skip(from as int), c) == (i - from) + position(
                chars@.skip(i as int),
                c,
            ),
        decreases chars.len() - i,
    {
        let ghost rest = chars@.skip(i as int);
        assert(rest[0] == chars[i as int]);
        assert(rest.drop_first() =~= chars@.skip(i + 1));
        if chars[i] == c {
            return i;
        }
        i += 1;
    }
    assert(chars@.skip(i as int).len() == 0);
    i
}

/// The number that the characters of `chars` from `from` up to `to` write:
/// `None` unless there is at least one character, each is a digit, and the
/// number fits.
pub fn parse_number(chars: &Vec<char>, from: usize, to: usize) -> (r: Option<u64>)
    requires
        from <= to <= chars.len(),
    ensures
        match r {
            Some(value) => {
                &&& from < to
                &&& all_digits(chars@.subrange(from as int, to as int))
                &&& value == number(chars@.subrange(from as int, to as int))
            },
            None => !{
                &&& from < to
                &&& all_digits(chars@.subrange(from as int, to as int))
                &&& number(chars@.subrange(from as int, to as int)) <= u64::MAX
            },
        },
{
    if from == to {
        return None;
    }
    let ghost whole = chars@.subrange(from as int, to as int);
    let mut value: u64 = 0;
    let mut i: usize = from;
    while i < to
        invariant
            from <= i <= to <= chars.len(),
            whole == chars@.subrange(from as int, to as int),
            all_digits(chars@.subrange(from as int, i as int)),
            value == number(chars@.subrange(from as int, i as int)),
        decreases to - i,
    {
        let ghost before = chars@.subrange(from as int, i as int);
        let ghost upto = chars@.subrange(from as int, i + 1);
        assert(upto.drop_last() =~= before);
        assert(upto.last() == chars[i as int]);
        assert(whole[i - from] == chars[i as int]);
        match digit_value(chars[i]) {
            None => {
                return None;
            },
            Some(d) => {
                if value > (u64::MAX - d as u64) / 10 {
                    proof {
                        assert(whole.take(i + 1 - from) =~= upto);
                        lemma_number_grows(whole, i + 1 - from);
                    }
                    return None;
                }
                value = value * 10 + d as u64;
                assert forall|k: int| 0 <= k < upto.len() implies spec_digit_value(
                    #[trigger] upto[k],
                ) is Some by {
                    if k < upto.len() - 1 {
                        assert(upto[k] == before[k]);
                    }
                }
            },
        }
        i += 1;
    }
    Some(value)
}

/// The nanoseconds that the fraction digits `digits` write: one to nine
/// digits, the first counting tenths of a second.
pub open spec fn fraction_nanos(digits: Seq<char>) -> Option<int> {
    if 1 <= digits.len() <= 9 && all_digits(digits) {
        Some((number(digits) * pow10((9 - digits.len()) as nat)) as int)
    } else {
        None
    }
}

/// Reads the characters of `chars` from `from` up to `to` as the fraction
/// digits of a second.
pub fn parse_fraction(chars: &Vec<char>, from: usize, to: usize) -> (r: Option<u32>)
    requires
        from <= to <= chars.len(),
    ensures
        match r {
            Some(nanos) => fraction_nanos(chars@.subrange(from as int, to as int)) == Some(
                nanos as int,
            ) && nanos < 1_000_000_000,
            None => fraction_nanos(chars@.subrange(from as int, to as int)) is None,
        },
{
    let ghost digits = chars@.subrange(from as int, to as int);
    if to - from > 9 {
        return None;
    }
    match parse_number(chars, from, to) {
        None => {
            proof {
                lemma_number_bound(digits);
                reveal_with_fuel(pow10, 10);
            }
            None
        },
        Some(value) => {
            proof {
                lemma_number_bound(digits);
                reveal_with_fuel(pow10, 10);
            }
            let mut nanos: u64 = value;
            let mut places: usize = to - from;
            while places < 9
                invariant
                    1 <= to - from <= places <= 9,
                    nanos == value * pow10((places - (to - from)) as nat),
                    nanos < pow10(places as nat),
                decreases 9 - places,
            {
                proof {
                    reveal_with_fuel(pow10, 10);
                    assert(pow10((places + 1 - (to - from)) as nat) == 10 * pow10(
                        (places - (to - from)) as nat,
                    ));
                    assert(value * (10 * pow10((places - (to - from)) as nat)) == 10 * (value
                        * pow10((places - (to - from)) as nat))) by (nonlinear_arith);
                }
                nanos = nanos * 10;
                places += 1;
            }
            proof {
                reveal_with_fuel(pow10, 10);
            }
            Some(nanos as u32)
        },
    }
}

/// The number that a field of digits writes: `None` unless the field has at
/// least one character and each is a digit.
pub open spec fn field_value(s: Seq<char>) -> Option<int> {
    if s.len() > 0 && all_digits(s) {
        Some(number(s) as int)
    } else {
        None
    }
}

/// Reads the characters of `chars` from `from` up to `to` as a field of at
/// most nine digits.
pub fn parse_field(chars: &Vec<char>, from: usize, to: usize) -> (r: Option<u32>)
    requires
        from <= to <= chars.len(),
        to - from <= 9,
    ensures
        match r {
            Some(value) => field_value(chars@.subrange(from as int, to as int)) == Some(
                value as int,
            ) && value < pow10((to - from) as nat),
            None => field_value(chars@.subrange(from as int, to as int)) is None,
        },
{
    proof {
        lemma_number_bound(chars@.subrange(from as int, to as int));
        reveal_with_fuel(pow10, 10);
    }
    match parse_number(chars, from, to) {
        Some(value) => Some(value as u32),
        None => None,
    }
}

/// Whether `c` is white space: a blank, a tab, or an end of line or page.
pub open spec fn spec_is_space(c: char) -> bool {
    c == ' ' || c == '\t' || c == '\n' || c == '\r' || c == '\x0B' || c == '\x0C'
}

/// Whether `c` is white space.
#[verifier::when_used_as_spec(spec_is_space)]
pub fn is_space(c: char) -> (r: bool)
    ensures
        r == spec_is_space(c),
{
    c == ' ' || c == '\t' || c == '\n' || c == '\r' || c == '\x0B' || c == '\x0C'
}

/// The number of white space characters that `s` begins with.
pub open spec fn leading_spaces(s: Seq<char>) -> int
    decreases s.len(),
{
    if s.len() > 0 && is_space(s[0]) {
        1 + leading_spaces(s.drop_first())
    } else {
        0
    }
}

/// The number of white space characters that `s` ends with.
pub open spec fn trailing_spaces(s: Seq<char>) -> int
    decreases s.len(),
{
    if s.len() > 0 && is_space(s.last()) {
        1 + trailing_spaces(s.drop_last())
    } else {
        0
    }
}

/// `s` without the white space at its beginning and at its end.
pub open spec fn trimmed(s: Seq<char>) -> Seq<char> {
    let rest = s.skip(leading_spaces(s));
    rest.take(rest.len() - trailing_spaces(rest))
}

/// A copy of `chars` without the white space at its beginning and at its
/// end.
pub fn trim(chars: &Vec<char>) -> (r: Vec<char>)
    ensures
        r@ == trimmed(chars@),
{
    let mut start: usize = 0;
    assert(chars@.skip(0) =~= chars@);
    while start < chars.len() && is_space(chars[start])
        invariant
            start <= chars.len(),
            leading_spaces(chars@) == start + leading_spaces(chars@.skip(start as int)),
        decreases chars.len() - start,
    {
        assert(chars@.skip(start as int).drop_first() =~= chars@.skip(start + 1));
        start += 1;
    }
    let ghost rest = chars@.skip(start as int);
    let mut end: usize = chars.len();
    assert(rest.take(rest.len() as int) =~= rest);
    while end > start && is_space(chars[end - 1])
        invariant
            start <= end <= chars.len(),
            rest == chars@.skip(start as int),
            trailing_spaces(rest) == (chars.len() - end) + trailing_spaces(
                rest.take(end - start),
            ),
        decreases end,
    {
        assert(rest.take(end - start).last() == chars[end - 1]);
        assert(rest.take(end - start).drop_last() =~= rest.take(end - 1 - start));
        end -= 1;
    }
    proof {
        if end > start {
            assert(rest.take(end - start).last() == chars[end - 1]);
        }
        assert(rest[0] == chars[start as int] || rest.len() == 0);
    }
    let r = copy_range(chars, start, end);
    assert(r@ =~= trimmed(chars@));
    r
}

/// A copy of the characters of `chars` from `from` up to `to`.
pub fn copy_range(chars: &Vec<char>, from: usize, to: usize) -> (r: Vec<char>)
    requires
        from <= to <= chars.len(),
    ensures
        r@ == chars@.subrange(from as int, to as int),
{
    let mut out: Vec<char> = Vec::new();
    let mut i: usize = from;
    while i < to
        invariant
            from <= i <= to <= chars.len(),
            out@ == chars@.subrange(from as int, i as int),
        decreases to - i,
    {
        out.push(chars[i]);
        assert(chars@.subrange(from as int, i + 1) =~= chars@.subrange(from as int, i as int).push(
            chars[i as int],
        ));
        i += 1;
    }
    out
}

} // verus!
