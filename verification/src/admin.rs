//! Who may register the bot's commands: the owner named by its id.

use vstd::prelude::*;
use vstd::string::*;

use crate::text::{decimal, digit_char};

verus! {

/// Whether `c` is an ASCII digit.
pub open spec fn is_digit(c: char) -> bool {
    '0' <= c <= '9'
}

/// The value of the decimal digits `s`.
pub open spec fn digits_value(s: Seq<char>) -> nat
    decreases s.len(),
{
    if s.len() == 0 {
        0
    } else {
        digits_value(s.drop_last()) * 10 + ((s.last() as int) - 48) as nat
    }
}

/// The digits of a number text: what follows an optional leading `+`.
pub open spec fn unsigned_digits(s: Seq<char>) -> Seq<char> {
    if s.len() > 0 && s[0] == '+' {
        s.drop_first()
    } else {
        s
    }
}

/// The `u64` that `s` denotes, as `str::parse::<u64>` reads it: an optional
/// `+` followed by at least one decimal digit and nothing else, of a value
/// that fits in 64 bits.
pub open spec fn parsed_u64(s: Seq<char>) -> Option<u64> {
    let d = unsigned_digits(s);
    if d.len() > 0 && (forall|i: int| 0 <= i < d.len() ==> is_digit(#[trigger] d[i]))
        && digits_value(d) <= u64::MAX {
        Some(digits_value(d) as u64)
    } else {
        None
    }
}

proof fn lemma_digits_value_step(s: Seq<char>, i: int)
    requires
        0 <= i < s.len(),
    ensures
        digits_value(s.take(i + 1)) == digits_value(s.take(i)) * 10 + ((s[i] as int) - 48) as nat,
{
    assert(s.take(i + 1).drop_last() =~= s.take(i));
}

proof fn lemma_digits_value_prefix(s: Seq<char>, i: int)
    requires
        0 <= i <= s.len(),
        forall|k: int| 0 <= k < s.len() ==> is_digit(#[trigger] s[k]),
    ensures
        digits_value(s.take(i)) <= digits_value(s),
    decreases s.len() - i,
{
    if i < s.len() {
        lemma_digits_value_step(s, i);
        lemma_digits_value_prefix(s, i + 1);
    } else {
        assert(s.take(i) =~= s);
    }
}

/// Parses a decimal `u64` as `str::parse::<u64>` does.
pub fn parse_u64(s: &str) -> (res: Option<u64>)
    ensures
        res == parsed_u64(s@),
{
    let n = s.unicode_len();
    let start: usize = if n > 0 && s.get_char(0) == '+' {
        1
    } else {
        0
    };
    let ghost d = unsigned_digits(s@);
    assert(d =~= s@.subrange(start as int, n as int));
    if start == n {
        return None;
    }
    let mut value: u64 = 0;
    let mut i: usize = start;
    assert(d.take(0) =~= Seq::<char>::empty());
    while i < n
        invariant
            n == s@.len(),
            start <= i <= n,
            start < n,
            d == s@.subrange(start as int, n as int),
            d == unsigned_digits(s@),
            value as nat == digits_value(d.take(i - start)),
            forall|k: int| 0 <= k < i - start ==> is_digit(#[trigger] d[k]),
        decreases n - i,
    {
        let c = s.get_char(i);
        assert(c == d[i - start]);
        if !('0' <= c && c <= '9') {
            return None;
        }
        proof {
            lemma_digits_value_step(d, i - start);
        }
        let digit = (c as u32 - 48) as u64;
        match value.checked_mul(10) {
            Some(v) => match v.checked_add(digit) {
                Some(w) => {
                    value = w;
                },
                None => {
                    return parse_overflow(s, start, i);
                },
            },
            None => {
                return parse_overflow(s, start, i);
            },
        }
        i = i + 1;
    }
    assert(d.take(n - start) =~= d);
    Some(value)
}

/// The result of a parse whose prefix of `i - start` digits already
/// overflows: `None`, as the whole text either has a non-digit or a value
/// that is larger still.
fn parse_overflow(s: &str, start: usize, i: usize) -> (res: Option<u64>)
    requires
        start <= i < s@.len(),
        unsigned_digits(s@) == s@.subrange(start as int, s@.len() as int),
        digits_value(unsigned_digits(s@).take(i - start + 1)) > u64::MAX,
    ensures
        res == parsed_u64(s@),
{
    proof {
        let d = unsigned_digits(s@);
        if forall|k: int| 0 <= k < d.len() ==> is_digit(#[trigger] d[k]) {
            lemma_digits_value_prefix(d, i - start + 1);
        }
    }
    None
}

/// Whether the author `author_id` is the owner named by the text `owner_id`
/// (the `OWNER_ID` setting): the text parses as a `u64` equal to the id.
pub fn is_owner(owner_id: &str, author_id: u64) -> (res: bool)
    ensures
        res == (parsed_u64(owner_id@) == Some(author_id)),
{
    match parse_u64(owner_id) {
        Some(id) => id == author_id,
        None => false,
    }
}

proof fn lemma_decimal_digits(n: nat)
    ensures
        decimal(n).len() > 0,
        forall|i: int| 0 <= i < decimal(n).len() ==> is_digit(#[trigger] decimal(n)[i]),
        digits_value(decimal(n)) == n,
        decimal(n)[0] != '+',
    decreases n,
{
    if n < 10 {
        assert(((48 + n) as u32) as char as int == 48 + n);
        assert(decimal(n).drop_last() =~= Seq::<char>::empty());
        assert(digits_value(decimal(n)) == digits_value(Seq::<char>::empty()) * 10 + ((
        decimal(n).last() as int) - 48) as nat);
    } else {
        lemma_decimal_digits(n / 10);
        let d = (n % 10) as int;
        assert(((48 + d) as u32) as char as int == 48 + d);
        assert(decimal(n).drop_last() =~= decimal(n / 10));
        assert(digit_char(d) == decimal(n).last());
        assert((decimal(n).last() as int) - 48 == d);
        assert(digits_value(decimal(n)) == digits_value(decimal(n / 10)) * 10 + d);
        assert((n / 10) * 10 + n % 10 == n);
    }
}

/// A number written in decimal reads back as itself.
pub proof fn lemma_parse_decimal(n: u64)
    ensures
        parsed_u64(decimal(n as nat)) == Some(n),
{
    lemma_decimal_digits(n as nat);
}

/// A leading `+` is read past, and any other character than a digit makes
/// the text no number.
pub proof fn lemma_parse_sign_and_junk(s: Seq<char>, i: int)
    ensures
        s.len() > 0 && s[0] != '+' ==> parsed_u64(seq!['+'] + s) == parsed_u64(s),
        0 <= i < s.len() && !is_digit(s[i]) && !(i == 0 && s[i] == '+') ==> parsed_u64(s) is None,
        parsed_u64(Seq::<char>::empty()) is None,
        parsed_u64(seq!['+']) is None,
{
    if s.len() > 0 && s[0] != '+' {
        assert((seq!['+'] + s).drop_first() =~= s);
    }
    if 0 <= i < s.len() && !is_digit(s[i]) && !(i == 0 && s[i] == '+') {
        let d = unsigned_digits(s);
        if s.len() > 0 && s[0] == '+' {
            assert(d[i - 1] == s[i]);
        } else {
            assert(d[i] == s[i]);
        }
    }
    assert(seq!['+'].drop_first() =~= Seq::<char>::empty());
}

} // verus!
