//! Numbers and names as text, and text as numbers.

use vstd::prelude::*;

use crate::text::{from_chars, to_chars};

verus! {

/// The character of a decimal digit.
pub open spec fn digit_char(d: int) -> char {
    if d == 0 {
        '0'
    } else if d == 1 {
        '1'
    } else if d == 2 {
        '2'
    } else if d == 3 {
        '3'
    } else if d == 4 {
        '4'
    } else if d == 5 {
        '5'
    } else if d == 6 {
        '6'
    } else if d == 7 {
        '7'
    } else if d == 8 {
        '8'
    } else {
        '9'
    }
}

/// A natural number in decimal, without leading zeros.
pub open spec fn decimal(n: nat) -> Seq<char>
    decreases n,
{
    if n < 10 {
        seq![digit_char(n as int)]
    } else {
        decimal(n / 10).push(digit_char((n % 10) as int))
    }
}

/// An integer in decimal, with a minus sign before a negative one.
pub open spec fn signed_decimal(i: int) -> Seq<char> {
    if i < 0 {
        seq!['-'] + decimal((-i) as nat)
    } else {
        decimal(i as nat)
    }
}

fn digit(d: u128) -> (r: char)
    requires
        d < 10,
    ensures
        r == digit_char(d as int),
{
    if d == 0 {
        '0'
    } else if d == 1 {
        '1'
    } else if d == 2 {
        '2'
    } else if d == 3 {
        '3'
    } else if d == 4 {
        '4'
    } else if d == 5 {
        '5'
    } else if d == 6 {
        '6'
    } else if d == 7 {
        '7'
    } else if d == 8 {
        '8'
    } else {
        '9'
    }
}

/// Adds the decimal digits of `n` to `out`.
fn push_decimal(n: u128, out: &mut Vec<char>)
    ensures
        final(out)@ == old(out)@ + decimal(n as nat),
    decreases n,
{
    if n >= 10 {
        push_decimal(n / 10, out);
    }
    out.push(digit(n % 10));
    proof {
        if n < 10 {
            assert(old(out)@.push(digit_char(n as int)) =~= old(out)@ + decimal(n as nat));
        } else {
            assert((old(out)@ + decimal((n / 10) as nat)).push(digit_char((n % 10) as int))
                =~= old(out)@ + decimal(n as nat));
        }
    }
}

/// A natural number in decimal.
pub fn unsigned_to_string(n: u64) -> (r: String)
    ensures
        r@ == decimal(n as nat),
{
    let mut chars: Vec<char> = Vec::new();
    push_decimal(n as u128, &mut chars);
    assert(Seq::<char>::empty() + decimal(n as nat) =~= decimal(n as nat));
    from_chars(&chars)
}

/// An integer in decimal.
pub fn signed_to_string(i: i64) -> (r: String)
    ensures
        r@ == signed_decimal(i as int),
{
    let mut chars: Vec<char> = Vec::new();
    let wide = i as i128;
    if wide < 0 {
        chars.push('-');
        push_decimal((-wide) as u128, &mut chars);
    } else {
        push_decimal(wide as u128, &mut chars);
        assert(Seq::<char>::empty() + decimal(i as nat) =~= decimal(i as nat));
    }
    from_chars(&chars)
}

/// A play time as hours and minutes; the seconds of a begun minute are left
/// out.
pub open spec fn play_time(secs: nat) -> Seq<char> {
    decimal(secs / 3600) + " hours "@ + decimal((secs / 60) % 60) + " minutes"@
}

/// A play time, given in seconds, as hours and minutes.
pub fn duration_to_string(secs: u64) -> (r: String)
    ensures
        r@ == play_time(secs as nat),
{
    let mins = secs / 60;
    let hours = mins / 60;
    assert(hours == secs / 3600 && mins - hours * 60 == (secs / 60) % 60) by (nonlinear_arith)
        requires
            mins == secs / 60,
            hours == mins / 60,
    ;
    unsigned_to_string(hours).concat(" hours ").concat(
        unsigned_to_string(mins - hours * 60).as_str(),
    ).concat(" minutes")
}

/// A letter or digit of ASCII.
pub open spec fn is_ascii_alphanumeric(c: char) -> bool {
    ('0' <= c && c <= '9') || ('A' <= c && c <= 'Z') || ('a' <= c && c <= 'z')
}

/// The lower-case form of an ASCII letter; any other character is itself.
pub open spec fn ascii_lower(c: char) -> char {
    if 'A' <= c && c <= 'Z' {
        ((c as u32) + 32) as char
    } else {
        c
    }
}

/// A character with the Unicode property `White_Space`.
pub open spec fn is_white_space(c: char) -> bool {
    let u = c as u32;
    (0x09 <= u && u <= 0x0D) || u == 0x20 || u == 0x85 || u == 0xA0 || u == 0x1680 || (0x2000
        <= u && u <= 0x200A) || u == 0x2028 || u == 0x2029 || u == 0x202F || u == 0x205F || u
        == 0x3000
}

/// A name made fit for a file name: letters and digits of ASCII in lower
/// case, an underscore for each white space, and nothing else.
pub open spec fn path_proof(s: Seq<char>) -> Seq<char>
    decreases s.len(),
{
    if s.len() == 0 {
        Seq::empty()
    } else {
        let head = path_proof(s.drop_last());
        let c = s.last();
        if is_ascii_alphanumeric(c) {
            head.push(ascii_lower(c))
        } else if is_white_space(c) {
            head.push('_')
        } else {
            head
        }
    }
}

/// Makes a name fit for a file name.
pub fn make_path_proof(s: String) -> (r: String)
    ensures
        r@ == path_proof(s@),
{
    let chars = to_chars(s.as_str());
    let mut out: Vec<char> = Vec::new();
    let mut i: usize = 0;
    assert(chars@.take(0) =~= Seq::<char>::empty());
    while i < chars.len()
        invariant
            i <= chars@.len(),
            out@ == path_proof(chars@.take(i as int)),
        decreases chars@.len() - i,
    {
        let c = chars[i];
        let u = c as u32;
        proof {
            assert(chars@.take(i + 1).drop_last() =~= chars@.take(i as int));
        }
        if ('0' <= c && c <= '9') || ('a' <= c && c <= 'z') {
            out.push(c);
        } else if 'A' <= c && c <= 'Z' {
            out.push(((u + 32) as u8) as char);
        } else if (0x09 <= u && u <= 0x0D) || u == 0x20 || u == 0x85 || u == 0xA0 || u == 0x1680
            || (0x2000 <= u && u <= 0x200A) || u == 0x2028 || u == 0x2029 || u == 0x202F || u
            == 0x205F || u == 0x3000 {
            out.push('_');
        }
        i += 1;
    }
    assert(chars@.take(i as int) =~= chars@);
    from_chars(&out)
}

/// The name of the settings file of a new game: a number, drawn by the
/// caller to tell games of one name apart, the name made fit for a file
/// name, and the ending `.toml`.
pub open spec fn game_file(id: u16, name: Seq<char>) -> Seq<char> {
    decimal(id as nat) + path_proof(name) + ".toml"@
}

/// The name of the settings file of a new game.
pub fn game_file_name(id: u16, name: String) -> (r: String)
    ensures
        r@ == game_file(id, name@),
{
    unsigned_to_string(id as u64).concat(make_path_proof(name).as_str()).concat(".toml")
}

/// The value of a decimal digit, if the character is one.
pub open spec fn digit_value(c: char) -> Option<int> {
    if '0' <= c && c <= '9' {
        Some((c as u32 - '0' as u32) as int)
    } else {
        None
    }
}

/// Every character of the text is a decimal digit.
pub open spec fn all_digits(s: Seq<char>) -> bool {
    forall|i: int| 0 <= i < s.len() ==> digit_value(#[trigger] s[i]) is Some
}

/// The number that a text of decimal digits spells; zero for no digit.
pub open spec fn digits_value(s: Seq<char>) -> int
    decreases s.len(),
{
    if s.len() == 0 {
        0
    } else {
        digits_value(s.drop_last()) * 10 + digit_value(s.last()).unwrap()
    }
}

/// The digits of a text that spells a whole number: the text without the
/// sign that may stand at its start.
pub open spec fn unsigned_part(s: Seq<char>) -> Seq<char> {
    if s.len() > 0 && (s[0] == '+' || s[0] == '-') {
        s.skip(1)
    } else {
        s
    }
}

/// The whole number that a text spells: decimal digits, at least one, with
/// or without a sign before them. Nothing for any other text.
pub open spec fn parsed_int(s: Seq<char>) -> Option<int> {
    let digits = unsigned_part(s);
    if digits.len() == 0 || !all_digits(digits) {
        None
    } else if s[0] == '-' {
        Some(-digits_value(digits))
    } else {
        Some(digits_value(digits))
    }
}

/// The number that a text spells, if it spells one and the number fits.
pub open spec fn parsed_isize(s: Seq<char>) -> Option<isize> {
    match parsed_int(s) {
        Some(v) => if isize::MIN <= v && v <= isize::MAX {
            Some(v as isize)
        } else {
            None
        },
        None => None,
    }
}

/// More digits never spell a smaller number.
pub proof fn lemma_digits_grow(s: Seq<char>, i: int)
    requires
        all_digits(s),
        0 <= i <= s.len(),
    ensures
        0 <= digits_value(s.take(i)) <= digits_value(s),
    decreases s.len() - i,
{
    if i == 0 {
        assert(s.take(0) =~= Seq::<char>::empty());
        lemma_digits_grow_from_zero(s);
    } else if i < s.len() {
        lemma_digits_grow(s, i + 1);
        let t = s.take(i + 1);
        assert(t.drop_last() =~= s.take(i));
        assert(digit_value(t.last()) is Some);
        lemma_digits_grow_from_zero(s.take(i));
        assert forall|j: int| 0 <= j < s.take(i).len() implies digit_value(
            #[trigger] s.take(i)[j],
        ) is Some by {
            assert(s.take(i)[j] == s[j]);
        }
    } else {
        assert(s.take(i) =~= s);
        lemma_digits_grow_from_zero(s);
    }
}

/// Digits spell a number that is not negative.
pub proof fn lemma_digits_grow_from_zero(s: Seq<char>)
    requires
        all_digits(s),
    ensures
        0 <= digits_value(s),
    decreases s.len(),
{
    if s.len() > 0 {
        assert forall|j: int| 0 <= j < s.drop_last().len() implies digit_value(
            #[trigger] s.drop_last()[j],
        ) is Some by {
            assert(s.drop_last()[j] == s[j]);
        }
        lemma_digits_grow_from_zero(s.drop_last());
        assert(digit_value(s.last()) is Some);
    }
}

/// Reads a whole number from a text, as `isize::from_str` does: decimal
/// digits, at least one, with or without a sign before them. Nothing where
/// the text is not of that form or the number does not fit.
pub fn parse_isize(s: &str) -> (r: Option<isize>)
    ensures
        r == parsed_isize(s@),
{
    let cs = to_chars(s);
    let n = cs.len();
    if n == 0 {
        return None;
    }
    let negative = cs[0] == '-';
    let start: usize = if cs[0] == '+' || cs[0] == '-' {
        1
    } else {
        0
    };
    let ghost digits = unsigned_part(cs@);
    assert(digits =~= cs@.skip(start as int));
    if start == n {
        return None;
    }
    let limit: u128 = isize::MAX as u128 + 1;
    let mut acc: u128 = 0;
    let mut i: usize = start;
    assert(digits.take(0) =~= Seq::<char>::empty());
    while i < n
        invariant
            start <= i <= n,
            n == cs@.len(),
            cs@ == s@,
            start < n,
            digits == unsigned_part(cs@),
            digits == cs@.skip(start as int),
            negative == (cs@[0] == '-'),
            limit == isize::MAX as u128 + 1,
            acc <= limit,
            all_digits(digits.take(i - start)),
            acc == digits_value(digits.take(i - start)),
        decreases n - i,
    {
        let c = cs[i];
        let ghost t = digits.take(i - start + 1);
        proof {
            assert(t.drop_last() =~= digits.take(i - start));
            assert(t.last() == c);
        }
        if !('0' <= c && c <= '9') {
            proof {
                assert(digits[i - start] == c);
                assert(digit_value(digits[i - start]) is None);
            }
            return None;
        }
        let d = (c as u32 - '0' as u32) as u128;
        proof {
            assert forall|j: int| 0 <= j < t.len() implies digit_value(#[trigger] t[j]) is Some by {
                if j < t.len() - 1 {
                    assert(t[j] == digits.take(i - start)[j]);
                }
            }
        }
        acc = acc * 10 + d;
        if acc > limit {
            let mut k: usize = i + 1;
            while k < n
                invariant
                    i < k <= n,
                    n == cs@.len(),
                    cs@ == s@,
                    start <= i,
                    digits == unsigned_part(cs@),
                    digits == cs@.skip(start as int),
                    negative == (cs@[0] == '-'),
                    limit == isize::MAX as u128 + 1,
                    acc > limit,
                    acc == digits_value(digits.take(i - start + 1)),
                    all_digits(digits.take(k - start)),
                decreases n - k,
            {
                let e = cs[k];
                if !('0' <= e && e <= '9') {
                    proof {
                        assert(digits[k - start] == e);
                        assert(digit_value(digits[k - start]) is None);
                    }
                    return None;
                }
                proof {
                    let u = digits.take(k - start + 1);
                    assert forall|j: int| 0 <= j < u.len() implies digit_value(
                        #[trigger] u[j],
                    ) is Some by {
                        if j < u.len() - 1 {
                            assert(u[j] == digits.take(k - start)[j]);
                        } else {
                            assert(u[j] == e);
                        }
                    }
                }
                k += 1;
            }
            proof {
                assert(digits.take(n - start) =~= digits);
                lemma_digits_grow(digits, i - start + 1);
            }
            return None;
        }
        i += 1;
    }
    proof {
        assert(digits.take(n - start) =~= digits);
    }
    if negative {
        if acc == limit {
            Some(isize::MIN)
        } else {
            Some(-(acc as isize))
        }
    } else if acc == limit {
        None
    } else {
        Some(acc as isize)
    }
}

} // verus!
