//! Decimal rendering of integers and the `hh:mm:ss` clock format.

use vstd::prelude::*;
use vstd::string::*;
use vstd::utf8::*;

verus! {

/// The ASCII digit for `d` (`0 <= d < 10`).
pub open spec fn digit_char(d: int) -> char {
    ((48 + d) as u32) as char
}

/// The decimal representation of `n`, without leading zeros.
pub open spec fn decimal(n: nat) -> Seq<char>
    decreases n,
{
    if n < 10 {
        seq![digit_char(n as int)]
    } else {
        decimal(n / 10).push(digit_char((n % 10) as int))
    }
}

/// `n` rendered as with the format `{:02}`: at least two digits, zero padded.
pub open spec fn padded2(n: nat) -> Seq<char> {
    if n < 10 {
        seq!['0'] + decimal(n)
    } else {
        decimal(n)
    }
}

/// The clock text of a duration of `total` seconds: `hh:mm:ss` when the hour
/// part is positive, `mm:ss` otherwise. Seconds and minutes are taken
/// modulo 60; the hour part is the full number of hours.
pub open spec fn clock_text(total: nat) -> Seq<char> {
    let secs = total % 60;
    let mins = (total / 60) % 60;
    let hours = total / 3600;
    if hours > 0 {
        padded2(hours) + seq![':'] + padded2(mins) + seq![':'] + padded2(secs)
    } else {
        padded2(mins) + seq![':'] + padded2(secs)
    }
}

/// The one-character string of the digit `d`.
fn digit_str(d: u64) -> (res: &'static str)
    requires
        d < 10,
    ensures
        res@ == seq![digit_char(d as int)],
{
    proof {
        reveal_strlit("0");
        reveal_strlit("1");
        reveal_strlit("2");
        reveal_strlit("3");
        reveal_strlit("4");
        reveal_strlit("5");
        reveal_strlit("6");
        reveal_strlit("7");
        reveal_strlit("8");
        reveal_strlit("9");
    }
    let s = if d == 0 {
        "0"
    } else if d == 1 {
        "1"
    } else if d == 2 {
        "2"
    } else if d == 3 {
        "3"
    } else if d == 4 {
        "4"
    } else if d == 5 {
        "5"
    } else if d == 6 {
        "6"
    } else if d == 7 {
        "7"
    } else if d == 8 {
        "8"
    } else {
        "9"
    };
    s
}

/// Appends the decimal representation of `n` to `out`.
pub fn push_decimal(out: &mut String, n: u64)
    ensures
        final(out)@ == old(out)@ + decimal(n as nat),
    decreases n,
{
    if n >= 10 {
        push_decimal(out, n / 10);
    }
    out.append(digit_str(n % 10));
}

/// Appends `n` zero padded to two digits, as the format `{:02}` does.
pub fn push_padded2(out: &mut String, n: u64)
    ensures
        final(out)@ == old(out)@ + padded2(n as nat),
{
    proof {
        reveal_strlit("0");
    }
    if n < 10 {
        out.append("0");
    }
    push_decimal(out, n);
}

/// The decimal representation of `n`.
pub fn decimal_string(n: u64) -> (res: String)
    ensures
        res@ == decimal(n as nat),
{
    let mut s = String::new();
    push_decimal(&mut s, n);
    s
}

/// Formats a duration of `secs` seconds as `hh:mm:ss`, or as `mm:ss` when
/// the hour part is zero; the hour part counts all whole hours.
pub fn format_duration(secs: u64) -> (res: String)
    ensures
        res@ == clock_text(secs as nat),
{
    proof {
        reveal_strlit(":");
    }
    let s = secs % 60;
    let mins = (secs / 60) % 60;
    let hours = secs / 3600;
    let mut out = String::new();
    if hours > 0 {
        push_padded2(&mut out, hours);
        out.append(":");
    }
    push_padded2(&mut out, mins);
    out.append(":");
    push_padded2(&mut out, s);
    out
}

/// What `str::to_lowercase` returns for `s`.
pub uninterp spec fn lowercase(s: Seq<char>) -> Seq<char>;

/// The words that `str::split_whitespace` yields for `s`, in order.
pub uninterp spec fn whitespace_words(s: Seq<char>) -> Seq<Seq<char>>;

/// Calls `str::to_lowercase`.
///
/// Trusted: the result is the name `lowercase` of the text; the Unicode
/// lower-case mapping itself is left to the name.
#[verifier::external_body]
pub(crate) fn to_lowercase(s: &str) -> (res: String)
    ensures
        res@ == lowercase(s@),
{
    s.to_lowercase()
}

/// Calls `str::split_whitespace` and collects the words.
///
/// Trusted: the words are the name `whitespace_words` of the text; which
/// characters count as white space is left to the name.
#[verifier::external_body]
pub(crate) fn split_words(s: &str) -> (res: Vec<String>)
    ensures
        res.deep_view() == whitespace_words(s@),
{
    s.split_whitespace().map(String::from).collect()
}

/// Whether a text can be cut to its first `n` bytes: it is no longer, or
/// byte `n` starts a character.
pub open spec fn cuttable(text: Seq<char>, n: nat) -> bool {
    encode_utf8(text).len() <= n || is_char_boundary(encode_utf8(text), n as int)
}

/// The UTF-8 bytes of `text` cut to at most `n` bytes.
pub open spec fn cut_bytes(text: Seq<char>, n: nat) -> Seq<u8> {
    if encode_utf8(text).len() <= n {
        encode_utf8(text)
    } else {
        encode_utf8(text).take(n as int)
    }
}

/// Calls `String::truncate`.
///
/// Trusted: as documented, the string keeps its first `new_len` bytes, and
/// is left as it is when it is not longer; `new_len` must lie on a character
/// boundary (the call panics otherwise).
#[verifier::external_body]
pub(crate) fn truncate_bytes(s: &mut String, new_len: usize)
    requires
        cuttable(old(s)@, new_len as nat),
    ensures
        encode_utf8(final(s)@) == cut_bytes(old(s)@, new_len as nat),
{
    s.truncate(new_len)
}

/// The two digits of `n` (`n < 100`).
proof fn lemma_padded2_digits(n: nat)
    requires
        n < 100,
    ensures
        padded2(n) == seq![digit_char((n / 10) as int), digit_char((n % 10) as int)],
{
    assert(((48 + 0int) as u32) as char == '0');
    if n < 10 {
        assert(decimal(n) =~= seq![digit_char(n as int)]);
        assert(padded2(n) =~= seq!['0', digit_char(n as int)]);
    } else {
        assert(decimal(n / 10) =~= seq![digit_char((n / 10) as int)]);
        assert(decimal(n) =~= seq![digit_char((n / 10) as int), digit_char((n % 10) as int)]);
    }
}

/// The clock text shows the whole hours, the minutes within the hour and
/// the seconds within the minute, each as two digits (for fewer than 100
/// hours), separated by `:`; without whole hours it shows only minutes and
/// seconds.
pub proof fn lemma_clock_fields(total: nat)
    requires
        total < 100 * 3600,
    ensures
        ({
            let h = total / 3600;
            let m = (total / 60) % 60;
            let s = total % 60;
            let mm = seq![digit_char((m / 10) as int), digit_char((m % 10) as int)];
            let ss = seq![digit_char((s / 10) as int), digit_char((s % 10) as int)];
            let hh = seq![digit_char((h / 10) as int), digit_char((h % 10) as int)];
            &&& h == 0 ==> clock_text(total) == mm + seq![':'] + ss
            &&& h > 0 ==> clock_text(total) == hh + seq![':'] + mm + seq![':'] + ss
        }),
{
    lemma_padded2_digits(total / 3600);
    lemma_padded2_digits((total / 60) % 60);
    lemma_padded2_digits(total % 60);
}

/// Each digit character is the ASCII digit of its value.
pub proof fn lemma_digit_char(d: int)
    requires
        0 <= d < 10,
    ensures
        '0' <= digit_char(d) <= '9',
        digit_char(d) as int == 48 + d,
{
    assert(((48 + d) as u32) as char as int == 48 + d);
}

} // verus!
