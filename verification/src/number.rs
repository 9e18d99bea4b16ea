//! Decimal rendering and parsing of unsigned integers.
use vstd::prelude::*;
use crate::text::push_char;

verus! {

/// The ASCII digit for a value below ten.
pub open spec fn digit_char(d: nat) -> char {
    (48 + d) as char
}

/// Whether a character is an ASCII decimal digit.
pub open spec fn is_digit(c: char) -> bool {
    '0' <= c && c <= '9'
}

/// The value of an ASCII decimal digit.
pub open spec fn digit_value(c: char) -> nat {
    (c as int - 48) as nat
}

/// The shortest decimal rendering of `n`, as `format!("{}", n)` produces it.
pub open spec fn decimal(n: nat) -> Seq<char>
    decreases n,
{
    if n < 10 {
        seq![digit_char(n)]
    } else {
        decimal(n / 10).push(digit_char(n % 10))
    }
}

/// The rendering of `n` padded with zeros to at least two characters, as
/// `format!("{:02}", n)` produces it.
pub open spec fn decimal_pad2(n: nat) -> Seq<char> {
    if n < 10 {
        seq!['0', digit_char(n)]
    } else {
        decimal(n)
    }
}

/// The value of a string of decimal digits.
pub open spec fn digits_value(s: Seq<char>) -> nat
    decreases s.len(),
{
    if s.len() == 0 {
        0
    } else {
        digits_value(s.drop_last()) * 10 + digit_value(s.last())
    }
}

/// Whether every character of `s` is a decimal digit.
pub open spec fn all_digits(s: Seq<char>) -> bool {
    forall|i: int| 0 <= i < s.len() ==> #[trigger] is_digit(s[i])
}

/// The digits that `usize::from_str` reads: the text after one optional
/// leading `+`.
pub open spec fn unsigned_body(s: Seq<char>) -> Seq<char> {
    if s.len() > 0 && s[0] == '+' {
        s.drop_first()
    } else {
        s
    }
}

/// What `s.parse::<usize>()` gives: an optional `+`, then at least one digit,
/// with a value that fits in `usize`.
pub open spec fn parse_usize_spec(s: Seq<char>) -> Option<usize> {
    let body = unsigned_body(s);
    if body.len() > 0 && all_digits(body) && digits_value(body) <= usize::MAX {
        Some(digits_value(body) as usize)
    } else {
        None
    }
}

/// The ASCII digit character of `d`.
pub fn digit_to_char(d: u64) -> (c: char)
    requires
        d < 10,
    ensures
        c == digit_char(d as nat),
{
    let b: u8 = 48 + (d as u8);
    b as char
}

/// Appends the decimal rendering of `n` to `s`.
pub fn push_decimal(s: &mut String, n: u64)
    ensures
        final(s)@ == old(s)@ + decimal(n as nat),
    decreases n,
{
    if n >= 10 {
        push_decimal(s, n / 10);
    }
    let c = digit_to_char(n % 10);
    push_char(s, c);
}

/// The decimal rendering of `n`.
pub fn decimal_string(n: u64) -> (r: String)
    ensures
        r@ == decimal(n as nat),
{
    let mut s = String::new();
    push_decimal(&mut s, n);
    assert(s@ =~= decimal(n as nat));
    s
}

/// Appends the rendering of `n` padded with zeros to two characters.
pub fn push_decimal_pad2(s: &mut String, n: u64)
    ensures
        final(s)@ == old(s)@ + decimal_pad2(n as nat),
{
    if n < 10 {
        push_char(s, '0');
        let c = digit_to_char(n);
        push_char(s, c);
        assert(final(s)@ =~= old(s)@ + decimal_pad2(n as nat)) by {
            assert(decimal_pad2(n as nat) =~= seq!['0', digit_char(n as nat)]);
        }
    } else {
        push_decimal(s, n);
    }
}

/// Parses an unsigned integer the way `str::parse::<usize>` does.
pub fn parse_usize(s: &str) -> (r: Option<usize>)
    ensures
        r == parse_usize_spec(s@),
{
    let cs = crate::text::chars_of(s);
    let mut start: usize = 0;
    if cs.len() > 0 && cs[0] == '+' {
        start = 1;
    }
    let ghost body = unsigned_body(s@);
    assert(body =~= cs@.subrange(start as int, cs@.len() as int));
    if start >= cs.len() {
        return None;
    }
    let mut acc: usize = 0;
    let mut i: usize = start;
    while i < cs.len()
        invariant
            start <= i <= cs.len(),
            cs@ == s@,
            body == unsigned_body(s@),
            body == cs@.subrange(start as int, cs@.len() as int),
            all_digits(body.take(i - start)),
            acc as nat == digits_value(body.take(i - start)),
        decreases cs.len() - i,
    {
        let c = cs[i];
        let ghost prefix = body.take(i - start);
        let ghost next = body.take(i + 1 - start);
        assert(next.drop_last() =~= prefix);
        assert(next.last() == c);
        if !('0' <= c && c <= '9') {
            assert(!all_digits(body)) by {
                assert(body[i - start] == c);
                assert(!is_digit(body[i - start]));
            }
            return None;
        }
        let d: usize = ((c as u32) - 48) as usize;
        assert(d as nat == digit_value(c));
        let m = acc.checked_mul(10);
        match m {
            None => {
                proof {
                    if all_digits(body) {
                        lemma_digits_value_prefix_le(body, i + 1 - start);
                    }
                }
                return None;
            },
            Some(m) => {
                let a = m.checked_add(d);
                match a {
                    None => {
                        proof {
                            if all_digits(body) {
                                lemma_digits_value_prefix_le(body, i + 1 - start);
                            }
                        }
                        return None;
                    },
                    Some(a) => {
                        acc = a;
                    },
                }
            },
        }
        assert(all_digits(next)) by {
            assert forall|j: int| 0 <= j < next.len() implies #[trigger] is_digit(next[j]) by {
                if j < prefix.len() {
                    assert(next[j] == prefix[j]);
                }
            }
        }
        i = i + 1;
    }
    assert(body.take(i - start) =~= body);
    Some(acc)
}

/// The value of a digit string is at least the value of any of its prefixes.
pub proof fn lemma_digits_value_prefix_le(s: Seq<char>, k: int)
    requires
        0 <= k <= s.len(),
        all_digits(s),
    ensures
        digits_value(s.take(k)) <= digits_value(s),
    decreases s.len() - k,
{
    if k < s.len() {
        lemma_digits_value_prefix_le(s, k + 1);
        assert(s.take(k + 1).drop_last() =~= s.take(k));
        assert(is_digit(s[k]));
    } else {
        assert(s.take(k) =~= s);
    }
}

/// Every character of a decimal rendering is a digit, and reading it back
/// gives the number.
pub proof fn lemma_decimal_digits(n: nat)
    ensures
        all_digits(decimal(n)),
        digits_value(decimal(n)) == n,
        decimal(n).len() > 0,
    decreases n,
{
    if n >= 10 {
        lemma_decimal_digits(n / 10);
        let d = decimal(n);
        assert(d.drop_last() =~= decimal(n / 10));
        let r = n % 10;
        assert(((48 + r) as char) as int == 48 + r);
        assert(digit_value(digit_char(r)) == r);
        assert(n == (n / 10) * 10 + r);
        assert(d.last() == digit_char(r));
        assert(d.len() > 0);
        assert(digits_value(d) == digits_value(d.drop_last()) * 10 + digit_value(d.last()));
        assert(digits_value(d) == n);
    } else {
        let d = decimal(n);
        assert(((48 + n) as char) as int == 48 + n);
        assert(d.drop_last() =~= Seq::<char>::empty());
        assert(is_digit(d[0]));
        assert(digits_value(d) == digits_value(d.drop_last()) * 10 + digit_value(d.last()));
        assert(digits_value(d) == n);
        assert forall|i: int| 0 <= i < d.len() implies #[trigger] is_digit(d[i]) by {
            if i < d.len() - 1 {
                assert(d[i] == decimal(n / 10)[i]);
            }
        }
    }
}

/// Parsing the decimal rendering of a number gives the number back.
pub proof fn law_parse_reads_back_decimal(n: usize)
    ensures
        parse_usize_spec(decimal(n as nat)) == Some(n),
{
    lemma_decimal_digits(n as nat);
    let d = decimal(n as nat);
    assert(is_digit(d[0]));
    assert(unsigned_body(d) == d);
}

/// Two numbers with the same decimal rendering are equal.
pub proof fn lemma_decimal_injective(a: nat, b: nat)
    requires
        decimal(a) == decimal(b),
    ensures
        a == b,
{
    lemma_decimal_digits(a);
    lemma_decimal_digits(b);
}

/// The decimal rendering has no leading zero: it starts with `0` only for
/// zero itself, which renders as `0`.
pub proof fn law_decimal_has_no_leading_zero(n: nat)
    ensures
        decimal(n).len() > 0,
        n == 0 ==> decimal(n) == seq!['0'],
        n > 0 ==> decimal(n)[0] != '0',
    decreases n,
{
    lemma_decimal_digits(n);
    if n >= 10 {
        law_decimal_has_no_leading_zero(n / 10);
        assert(decimal(n)[0] == decimal(n / 10)[0]);
    } else if n > 0 {
        assert(decimal(n)[0] == digit_char(n));
        assert((48 + n) as char != '0');
    } else {
        assert(digit_char(0) == '0');
    }
}

/// The two-character rendering has at least two digits and reads back as
/// the number; from ten on it is the plain rendering.
pub proof fn law_pad2_reads_back(n: nat)
    ensures
        decimal_pad2(n).len() >= 2,
        all_digits(decimal_pad2(n)),
        digits_value(decimal_pad2(n)) == n,
        n >= 10 ==> decimal_pad2(n) == decimal(n),
{
    lemma_decimal_digits(n);
    if n >= 10 {
        lemma_decimal_digits(n / 10);
        assert(decimal(n) == decimal(n / 10).push(digit_char(n % 10)));
        assert(decimal(n).len() == decimal(n / 10).len() + 1);
    } else {
        let d = decimal_pad2(n);
        assert(d.drop_last() =~= seq!['0']);
        assert(seq!['0'].drop_last() =~= Seq::<char>::empty());
        assert(digit_value('0') == 0);
        assert(((48 + n) as char) as int == 48 + n);
        assert(digit_value(digit_char(n)) == n);
        let z = seq!['0'];
        assert(z.last() == '0');
        assert(digits_value(z.drop_last()) == 0);
        assert(digits_value(z) == digits_value(z.drop_last()) * 10 + digit_value(z.last()));
        assert(digits_value(seq!['0']) == 0);
        assert(d.last() == digit_char(n));
        assert(digits_value(d) == digits_value(seq!['0']) * 10 + digit_value(digit_char(n)));
    }
}

/// A leading `+` does not change what is read, an empty text is no number,
/// and a text holding any character other than a digit (after the optional
/// `+`) is no number.
pub proof fn law_parse_sign_and_garbage(s: Seq<char>, i: int)
    ensures
        s.len() > 0 && s[0] != '+' ==> parse_usize_spec(seq!['+'] + s) == parse_usize_spec(s),
        parse_usize_spec(Seq::<char>::empty()) is None,
        parse_usize_spec(seq!['+']) is None,
        0 <= i < unsigned_body(s).len() && !is_digit(unsigned_body(s)[i]) ==> parse_usize_spec(s) is None,
{
    assert((seq!['+'] + s).drop_first() =~= s);
    assert(seq!['+'].drop_first() =~= Seq::<char>::empty());
}

} // verus!
