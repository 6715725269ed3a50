use vstd::prelude::*;

verus! {

/// `String::push` from std: appends one character.
#[verifier::external_body]
pub(crate) fn push_char(s: &mut String, c: char)
    ensures
        final(s)@ == old(s)@.push(c),
{
    s.push(c)
}

/// Appends `tail` to `s`.
pub(crate) fn push_text(s: &mut String, tail: &str)
    ensures
        final(s)@ == old(s)@ + tail@,
{
    s.append(tail);
}

// ---------------------------------------------------------------------------
// Decimal numbers, as std renders and reads them.
// ---------------------------------------------------------------------------

/// The character of a decimal digit.
pub open spec fn digit_char(d: int) -> char {
    if d == 0 { '0' }
    else if d == 1 { '1' }
    else if d == 2 { '2' }
    else if d == 3 { '3' }
    else if d == 4 { '4' }
    else if d == 5 { '5' }
    else if d == 6 { '6' }
    else if d == 7 { '7' }
    else if d == 8 { '8' }
    else { '9' }
}

/// Decimal digits of a natural number, without leading zeros.
pub open spec fn nat_text(n: nat) -> Seq<char>
    decreases n,
{
    if n < 10 {
        seq![digit_char(n as int)]
    } else {
        nat_text(n / 10).push(digit_char((n % 10) as int))
    }
}

/// Decimal text of an integer, with a leading `-` when it is negative.
pub open spec fn int_text(n: int) -> Seq<char> {
    if n < 0 {
        seq!['-'] + nat_text((-n) as nat)
    } else {
        nat_text(n as nat)
    }
}

fn digit_to_char(d: u64) -> (c: char)
    requires
        d < 10,
    ensures
        c == digit_char(d as int),
{
    if d == 0 { '0' }
    else if d == 1 { '1' }
    else if d == 2 { '2' }
    else if d == 3 { '3' }
    else if d == 4 { '4' }
    else if d == 5 { '5' }
    else if d == 6 { '6' }
    else if d == 7 { '7' }
    else if d == 8 { '8' }
    else { '9' }
}

fn push_nat_text(out: &mut String, n: u64)
    ensures
        final(out)@ == old(out)@ + nat_text(n as nat),
    decreases n,
{
    if n >= 10 {
        push_nat_text(out, n / 10);
    }
    push_char(out, digit_to_char(n % 10));
    assert(n < 10 ==> nat_text(n as nat) == seq![digit_char(n as int)]);
}

/// Appends the decimal text of `n`, as `i64`'s `Display` writes it.
pub(crate) fn push_int_text(out: &mut String, n: i64)
    ensures
        final(out)@ == old(out)@ + int_text(n as int),
{
    if n < 0 {
        push_char(out, '-');
        let mag: u64 = if n == i64::MIN { 9223372036854775808u64 } else { (-n) as u64 };
        push_nat_text(out, mag);
        assert(final(out)@ =~= old(out)@ + int_text(n as int));
    } else {
        push_nat_text(out, n as u64);
    }
}

/// Whether `c` is an ASCII decimal digit.
pub open spec fn is_digit(c: char) -> bool {
    '0' <= c && c <= '9'
}

/// The value of an ASCII decimal digit.
pub open spec fn digit_value(c: char) -> int {
    c as int - '0' as int
}

/// Whether every character of `s` is a decimal digit.
pub open spec fn all_digits(s: Seq<char>) -> bool {
    forall|i: int| 0 <= i < s.len() ==> is_digit(#[trigger] s[i])
}

/// The number that a string of decimal digits denotes.
pub open spec fn digits_value(s: Seq<char>) -> nat
    decreases s.len(),
{
    if s.len() == 0 {
        0
    } else {
        (10 * digits_value(s.drop_last()) + digit_value(s.last())) as nat
    }
}

/// Whether the text starts with a sign that std's integer parser reads.
pub open spec fn has_sign(s: Seq<char>, signed: bool) -> bool {
    s.len() > 0 && (s[0] == '+' || (signed && s[0] == '-'))
}

/// The digits that follow the sign, if there is one.
pub open spec fn unsigned_part(s: Seq<char>, signed: bool) -> Seq<char> {
    if has_sign(s, signed) { s.drop_first() } else { s }
}

/// The integer that std's `str::parse` reads from `s` for an integer type
/// (signed or not), before it checks that the value fits the type: an
/// optional `+` (or `-` for signed types) followed by at least one digit.
pub open spec fn decimal_value(s: Seq<char>, signed: bool) -> Option<int> {
    let body = unsigned_part(s, signed);
    if body.len() > 0 && all_digits(body) {
        if has_sign(s, signed) && s[0] == '-' {
            Some(-(digits_value(body) as int))
        } else {
            Some(digits_value(body) as int)
        }
    } else {
        None
    }
}

/// What `s.parse::<i64>()` gives, as an `Option`.
pub open spec fn parsed_i64(s: Seq<char>) -> Option<i64> {
    match decimal_value(s, true) {
        Some(v) => if i64::MIN <= v <= i64::MAX { Some(v as i64) } else { None },
        None => None,
    }
}

/// What `s.parse::<u16>()` gives, as an `Option`.
pub open spec fn parsed_u16(s: Seq<char>) -> Option<u16> {
    match decimal_value(s, false) {
        Some(v) => if 0 <= v <= u16::MAX { Some(v as u16) } else { None },
        None => None,
    }
}

spec fn capped(v: int) -> int {
    if v < 0x1_0000_0000_0000_0000 { v } else { 0x1_0000_0000_0000_0000 }
}

/// Reads the sign and the digits of `s`; the magnitude is capped at 2^64.
fn scan_decimal(s: &str, signed: bool) -> (r: Option<(bool, u128)>)
    ensures
        r is Some <==> decimal_value(s@, signed) is Some,
        r matches Some((neg, mag)) ==> {
            &&& neg == (has_sign(s@, signed) && s@[0] == '-')
            &&& mag == capped(digits_value(unsigned_part(s@, signed)) as int)
        },
{
    let n = s.unicode_len();
    if n == 0 {
        return None;
    }
    let first = s.get_char(0);
    let sign = first == '+' || (signed && first == '-');
    let neg = signed && first == '-';
    let start: usize = if sign { 1 } else { 0 };
    if start >= n {
        return None;
    }
    let ghost body = unsigned_part(s@, signed);
    assert(body =~= s@.subrange(start as int, n as int));
    let mut acc: u128 = 0;
    let mut i: usize = start;
    while i < n
        invariant
            start <= i <= n,
            n == s@.len(),
            body =~= s@.subrange(start as int, n as int),
            body == unsigned_part(s@, signed),
            start == (if has_sign(s@, signed) { 1int } else { 0int }),
            neg == (has_sign(s@, signed) && s@[0] == '-'),
            all_digits(body.take(i - start)),
            acc == capped(digits_value(body.take(i - start)) as int),
        decreases n - i,
    {
        let c = s.get_char(i);
        if !('0' <= c && c <= '9') {
            assert(body[i - start] == c);
            return None;
        }
        let d: u128 = ((c as u32) - ('0' as u32)) as u128;
        let next = acc * 10 + d;
        acc = if next < 0x1_0000_0000_0000_0000u128 { next } else { 0x1_0000_0000_0000_0000u128 };
        proof {
            let pre = body.take(i - start);
            let post = body.take(i + 1 - start);
            assert(post.drop_last() =~= pre);
            assert(post.last() == c);
            assert(d == digit_value(c));
        }
        i = i + 1;
    }
    assert(body.take(n - start) =~= body);
    Some((neg, acc))
}

/// `s.parse::<i64>().ok()`.
pub fn parse_i64(s: &str) -> (r: Option<i64>)
    ensures
        r == parsed_i64(s@),
{
    match scan_decimal(s, true) {
        None => None,
        Some((neg, mag)) => {
            if neg {
                if mag <= 0x8000_0000_0000_0000u128 {
                    let r: i64 = if mag == 0x8000_0000_0000_0000u128 { i64::MIN } else { -(mag as i64) };
                    Some(r)
                } else {
                    None
                }
            } else {
                if mag <= 0x7fff_ffff_ffff_ffffu128 {
                    Some(mag as i64)
                } else {
                    None
                }
            }
        }
    }
}

/// `s.parse::<u16>().ok()`.
pub fn parse_u16(s: &str) -> (r: Option<u16>)
    ensures
        r == parsed_u16(s@),
{
    match scan_decimal(s, false) {
        None => None,
        Some((_neg, mag)) => {
            if mag <= 0xffffu128 {
                Some(mag as u16)
            } else {
                None
            }
        }
    }
}

} // verus!
