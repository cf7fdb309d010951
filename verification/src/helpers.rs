//! Conversion between a number of seconds and its compact text form
//! (`"1h1m1s"`), in both directions.

use vstd::prelude::*;
use vstd::std_specs::iter::IteratorSpec;
use vstd::string::*;

verus! {

/// The character that writes the digit `d`.
pub open spec fn digit_char(d: nat) -> char
    recommends
        d < 10,
{
    (48 + d) as char
}

/// Whether `c` is one of `'0'` to `'9'`.
pub open spec fn is_digit(c: char) -> bool {
    48 <= c as int <= 57
}

/// The digit that `c` writes.
pub open spec fn digit_value(c: char) -> nat
    recommends
        is_digit(c),
{
    (c as int - 48) as nat
}

/// The decimal numeral of `n`, without leading zeros.
pub open spec fn decimal(n: nat) -> Seq<char>
    decreases n,
{
    if n < 10 {
        seq![digit_char(n)]
    } else {
        decimal(n / 10).push(digit_char(n % 10))
    }
}

/// The text of one digit.
fn digit_str(d: u8) -> (r: &'static str)
    requires
        d < 10,
    ensures
        r@ == seq![digit_char(d as nat)],
{
    proof {
        reveal_strlit("0");
        reveal_strlit("1");
        reveal_strlit("2");
        reveal_strlit("3");
        reveal_strlit("4");
        reveal_strlit("5");
        reveal_strlit("6");
        reveal_strlit("7");
        reveal_strlit("8");
        reveal_strlit("9");
    }
    let r = match d {
        0 => "0",
        1 => "1",
        2 => "2",
        3 => "3",
        4 => "4",
        5 => "5",
        6 => "6",
        7 => "7",
        8 => "8",
        _ => "9",
    };
    assert(r@ =~= seq![digit_char(d as nat)]);
    r
}

/// Appends the decimal numeral of `n` to `out`.
pub fn push_decimal(out: &mut String, n: u64)
    ensures
        final(out)@ == old(out)@ + decimal(n as nat),
    decreases n,
{
    if n >= 10 {
        push_decimal(out, n / 10);
    }
    let d: u8 = (n % 10) as u8;
    out.append(digit_str(d));
    assert(out@ =~= old(out)@ + decimal(n as nat));
}

/// The compact form of a number of seconds: `"{s}s"` below one minute,
/// `"{m}m{s}s"` below one hour, `"{h}h{m}m{s}s"` from there on. The coarser
/// units, once present, are never suppressed (`"1h0m0s"`).
pub open spec fn format_spec(secs: nat) -> Seq<char> {
    let minutes = secs / 60;
    let hours = minutes / 60;
    if minutes == 0 {
        decimal(secs).push('s')
    } else if hours == 0 {
        decimal(minutes).push('m') + decimal(secs % 60).push('s')
    } else {
        decimal(hours).push('h') + decimal(minutes % 60).push('m') + decimal(secs % 60).push('s')
    }
}

/// The form of a position inside a chapter. Without a start position it is the
/// absolute form alone; with one it is `"<offset>(<absolute>)"`, where the
/// offset is the distance from the start and each side is as terse as it can be.
pub open spec fn format_with_offset_spec(position: nat, start_position: Option<nat>) -> Seq<char> {
    match start_position {
        None => format_spec(position),
        Some(start) => format_spec((position - start) as nat).push('(') + format_spec(
            position,
        ).push(')'),
    }
}

/// What a start position of the machine's width stands for.
pub open spec fn start_as_nat(start_position: Option<u64>) -> Option<nat> {
    match start_position {
        None => None,
        Some(start) => Some(start as nat),
    }
}

/// Appends the compact form of `secs` to `out`.
pub fn push_time(out: &mut String, secs: u64)
    ensures
        final(out)@ == old(out)@ + format_spec(secs as nat),
{
    proof {
        reveal_strlit("h");
        reveal_strlit("m");
        reveal_strlit("s");
    }
    let minutes = secs / 60;
    let hours = minutes / 60;
    if minutes == 0 {
        push_decimal(out, secs);
        out.append("s");
    } else if hours == 0 {
        push_decimal(out, minutes);
        out.append("m");
        push_decimal(out, secs % 60);
        out.append("s");
    } else {
        push_decimal(out, hours);
        out.append("h");
        push_decimal(out, minutes % 60);
        out.append("m");
        push_decimal(out, secs % 60);
        out.append("s");
    }
    assert(out@ =~= old(out)@ + format_spec(secs as nat));
}

/// Produces a string in the format `"xhymzs"`, where `x`, `y`, `z` are the
/// hours, minutes and seconds of `position`; with a `start_position` the
/// offset from it comes first and the absolute position follows in brackets.
pub fn format_position(position: u64, start_position: Option<u64>) -> (text: String)
    requires
        start_position matches Some(start) ==> start <= position,
    ensures
        text@ == format_with_offset_spec(position as nat, start_as_nat(start_position)),
{
    let mut text = String::new();
    match start_position {
        None => {
            push_time(&mut text, position);
        },
        Some(start) => {
            proof {
                reveal_strlit("(");
                reveal_strlit(")");
            }
            push_time(&mut text, position - start);
            text.append("(");
            push_time(&mut text, position);
            text.append(")");
        },
    }
    assert(text@ =~= format_with_offset_spec(position as nat, start_as_nat(start_position)));
    text
}

/// The number that a run of decimal digits writes.
pub open spec fn decimal_value(digits: Seq<char>) -> nat
    decreases digits.len(),
{
    if digits.len() == 0 {
        0
    } else {
        decimal_value(digits.drop_last()) * 10 + digit_value(digits.last())
    }
}

/// How many digits `s` begins with.
pub open spec fn leading_digits(s: Seq<char>) -> nat
    decreases s.len(),
{
    if s.len() > 0 && is_digit(s[0]) {
        1 + leading_digits(s.drop_first())
    } else {
        0
    }
}

/// Reads one optional field, digits followed by the letter `unit`, from the
/// front of `s`: its value and what follows it. Where `s` does not begin with
/// such a field the value is zero and nothing is consumed.
pub open spec fn take_field(s: Seq<char>, unit: char) -> (nat, Seq<char>) {
    let k = leading_digits(s) as int;
    if k >= 1 && k < s.len() && s[k] == unit {
        (decimal_value(s.take(k)), s.skip(k + 1))
    } else {
        (0, s)
    }
}

/// The seconds that a position string stands for. The string is an optional
/// hours field, an optional minutes field and an optional seconds field, in
/// this order and with nothing else around them. A string of another shape has
/// no value, and neither has one whose total is zero or beyond 64 bits.
pub open spec fn parse_spec(s: Seq<char>) -> Option<nat> {
    let (hours, after_hours) = take_field(s, 'h');
    let (minutes, after_minutes) = take_field(after_hours, 'm');
    let (seconds, rest) = take_field(after_minutes, 's');
    let total = hours * 3600 + minutes * 60 + seconds;
    if rest.len() == 0 && 0 < total <= u64::MAX {
        Some(total)
    } else {
        None
    }
}

/// The characters that a position string may hold.
pub open spec fn is_position_char(c: char) -> bool {
    is_digit(c) || c == 'h' || c == 'm' || c == 's'
}

/// `v`, or 2^64 where `v` is beyond 64 bits.
spec fn capped(v: nat) -> nat {
    if v > u64::MAX {
        (u64::MAX + 1) as nat
    } else {
        v
    }
}

proof fn lemma_leading_digits(s: Seq<char>)
    ensures
        leading_digits(s) <= s.len(),
        forall|i: int| 0 <= i < leading_digits(s) ==> is_digit(#[trigger] s[i]),
        leading_digits(s) < s.len() ==> !is_digit(s[leading_digits(s) as int]),
    decreases s.len(),
{
    if s.len() > 0 && is_digit(s[0]) {
        let t = s.drop_first();
        lemma_leading_digits(t);
        assert forall|i: int| 0 <= i < leading_digits(s) implies is_digit(#[trigger] s[i]) by {
            if i > 0 {
                assert(s[i] == t[i - 1]);
            }
        }
        if leading_digits(s) < s.len() {
            assert(s[leading_digits(s) as int] == t[leading_digits(t) as int]);
        }
    }
}

/// A run of digits followed by something else has exactly that many leading
/// digits.
proof fn lemma_leading_digits_of_run(s: Seq<char>, k: int)
    requires
        0 <= k <= s.len(),
        forall|i: int| 0 <= i < k ==> is_digit(#[trigger] s[i]),
        k < s.len() ==> !is_digit(s[k]),
    ensures
        leading_digits(s) == k,
    decreases k,
{
    if k > 0 {
        let t = s.drop_first();
        assert forall|i: int| 0 <= i < k - 1 implies is_digit(#[trigger] t[i]) by {
            assert(t[i] == s[i + 1]);
        }
        lemma_leading_digits_of_run(t, k - 1);
    }
}

/// What `take_field` consumes holds position characters only.
proof fn lemma_take_field_consumes(s: Seq<char>, unit: char)
    requires
        is_position_char(unit),
    ensures
        take_field(s, unit).1.len() <= s.len(),
        take_field(s, unit).1 == s.skip(s.len() - take_field(s, unit).1.len()),
        forall|i: int|
            0 <= i < s.len() - take_field(s, unit).1.len() ==> is_position_char(#[trigger] s[i]),
{
    lemma_leading_digits(s);
    let k = leading_digits(s) as int;
    if k >= 1 && k < s.len() && s[k] == unit {
    } else {
        assert(s.skip(0) =~= s);
    }
}

/// A position string with a character other than a digit, `h`, `m` or `s`
/// has no value.
pub proof fn lemma_parse_rejects_other_chars(s: Seq<char>, i: int)
    requires
        0 <= i < s.len(),
        !is_position_char(s[i]),
    ensures
        parse_spec(s) is None,
{
    let (hours, r1) = take_field(s, 'h');
    let (minutes, r2) = take_field(r1, 'm');
    let (seconds, r3) = take_field(r2, 's');
    lemma_take_field_consumes(s, 'h');
    lemma_take_field_consumes(r1, 'm');
    lemma_take_field_consumes(r2, 's');
    let c1 = s.len() - r1.len();
    let c2 = r1.len() - r2.len();
    let c3 = r2.len() - r3.len();
    if r3.len() == 0 {
        if i < c1 {
            assert(is_position_char(s[i]));
        } else if i < c1 + c2 {
            assert(r1[i - c1] == s[i]);
            assert(is_position_char(r1[i - c1]));
        } else {
            assert(r1[i - c1] == s[i]);
            assert(r2[i - c1 - c2] == r1[i - c1]);
            assert(is_position_char(r2[i - c1 - c2]));
        }
    }
}

/// Whether `bytes` holds the characters of `s`, all of them ASCII.
spec fn ascii_bytes_of(bytes: Seq<u8>, s: Seq<char>) -> bool {
    &&& bytes.len() == s.len()
    &&& forall|i: int| 0 <= i < s.len() ==> (#[trigger] s[i]) as int == bytes[i] as int
}

/// Reads the field with the letter `unit` at `start`: the value it writes,
/// capped at 2^64, and the index behind it.
fn read_field(bytes: &[u8], start: usize, unit: u8, Ghost(s): Ghost<Seq<char>>) -> (r: (
    u128,
    usize,
))
    requires
        ascii_bytes_of(bytes@, s),
        start <= bytes@.len(),
        !is_digit(unit as char),
        unit < 128,
    ensures
        start <= r.1 <= bytes@.len(),
        take_field(s.skip(start as int), unit as char).1 == s.skip(r.1 as int),
        r.0 == capped(take_field(s.skip(start as int), unit as char).0),
{
    let n = bytes.len();
    let ghost tail = s.skip(start as int);
    let mut i = start;
    let mut acc: u128 = 0;
    while i < n && 48 <= bytes[i] && bytes[i] <= 57
        invariant
            ascii_bytes_of(bytes@, s),
            n == bytes@.len(),
            tail == s.skip(start as int),
            start <= i <= n,
            forall|j: int| 0 <= j < i - start ==> is_digit(#[trigger] tail[j]),
            acc == capped(decimal_value(tail.take(i - start))),
        decreases n - i,
    {
        let d = (bytes[i] - 48) as u128;
        proof {
            let before = tail.take(i - start);
            let after = tail.take(i - start + 1);
            assert(after.drop_last() =~= before);
            assert(after.last() == s[i as int]);
            assert(digit_value(s[i as int]) == d);
            assert(decimal_value(after) == decimal_value(before) * 10 + d);
        }
        acc = acc * 10 + d;
        if acc > 0xffff_ffff_ffff_ffff {
            acc = 0x1_0000_0000_0000_0000;
        }
        i = i + 1;
    }
    proof {
        let k = i - start;
        if k < tail.len() {
            assert(tail[k] == s[i as int]);
        }
        lemma_leading_digits_of_run(tail, k);
    }
    if i > start && i < n && bytes[i] == unit {
        proof {
            assert(tail[i - start] == s[i as int]);
            assert(tail.skip(i - start + 1) =~= s.skip(i + 1));
        }
        (acc, i + 1)
    } else {
        proof {
            if i > start && i < n {
                assert(tail[i - start] == s[i as int]);
            }
        }
        (0, start)
    }
}

/// Tries to turn a string in the format `"xhymzs"`, where `x`, `y`, `z` are
/// amounts of hours, minutes and seconds, into seconds. Each field is
/// optional; a string of another shape gives `None`, and so does a total of
/// zero or one beyond 64 bits.
pub fn try_into_seconds(input: &str) -> (seconds: Option<u64>)
    ensures
        match seconds {
            Some(total) => parse_spec(input@) == Some(total as nat),
            None => parse_spec(input@) is None,
        },
{
    broadcast use is_ascii_spec_bytes;

    if !input.is_ascii() {
        proof {
            let i = choose|i: int|
                0 <= i < input@.len() && !('\0' <= #[trigger] input@[i] <= '\u{7f}');
            lemma_parse_rejects_other_chars(input@, i);
        }
        return None;
    }
    let bytes = input.as_bytes();
    assert(ascii_bytes_of(bytes@, input@));
    let (hours, after_hours) = read_field(bytes, 0, 104, Ghost(input@));
    let (minutes, after_minutes) = read_field(bytes, after_hours, 109, Ghost(input@));
    let (secs, end) = read_field(bytes, after_minutes, 115, Ghost(input@));
    proof {
        assert(input@.skip(0) =~= input@);
        assert(104u8 as char == 'h');
        assert(109u8 as char == 'm');
        assert(115u8 as char == 's');
    }
    let total: u128 = hours * 3600 + minutes * 60 + secs;
    if end == bytes.len() && 0 < total && total <= 0xffff_ffff_ffff_ffff {
        Some(total as u64)
    } else {
        None
    }
}

/// A decimal numeral is a non-empty run of digits that writes its number.
pub proof fn lemma_decimal_value(n: nat)
    ensures
        decimal(n).len() >= 1,
        forall|i: int| 0 <= i < decimal(n).len() ==> is_digit(#[trigger] decimal(n)[i]),
        decimal_value(decimal(n)) == n,
    decreases n,
{
    if n < 10 {
        assert(decimal(n).drop_last() =~= Seq::<char>::empty());
        assert(decimal_value(decimal(n).drop_last()) == 0);
    } else {
        lemma_decimal_value(n / 10);
        assert(decimal(n).drop_last() =~= decimal(n / 10));
    }
}

/// A field with the letter asked for is read whole.
proof fn lemma_take_field_reads(digits: Seq<char>, unit: char, rest: Seq<char>)
    requires
        digits.len() >= 1,
        forall|i: int| 0 <= i < digits.len() ==> is_digit(#[trigger] digits[i]),
        !is_digit(unit),
    ensures
        take_field(digits.push(unit) + rest, unit) == (decimal_value(digits), rest),
{
    let s = digits.push(unit) + rest;
    let k = digits.len() as int;
    assert forall|i: int| 0 <= i < k implies is_digit(#[trigger] s[i]) by {
        assert(s[i] == digits[i]);
    }
    assert(s[k] == unit);
    lemma_leading_digits_of_run(s, k);
    assert(s.take(k) =~= digits);
    assert(s.skip(k + 1) =~= rest);
}

/// A field with another letter is left where it is.
proof fn lemma_take_field_skips(digits: Seq<char>, other: char, rest: Seq<char>, unit: char)
    requires
        forall|i: int| 0 <= i < digits.len() ==> is_digit(#[trigger] digits[i]),
        !is_digit(other),
        other != unit,
    ensures
        take_field(digits.push(other) + rest, unit) == (0nat, digits.push(other) + rest),
{
    let s = digits.push(other) + rest;
    let k = digits.len() as int;
    assert forall|i: int| 0 <= i < k implies is_digit(#[trigger] s[i]) by {
        assert(s[i] == digits[i]);
    }
    assert(s[k] == other);
    lemma_leading_digits_of_run(s, k);
}

/// Parsing undoes formatting: the compact form of a positive number of
/// seconds that fits in 64 bits parses back to that number.
pub proof fn lemma_parse_format_roundtrip(secs: nat)
    requires
        0 < secs <= u64::MAX,
    ensures
        parse_spec(format_spec(secs)) == Some(secs),
{
    let minutes = secs / 60;
    let hours = minutes / 60;
    let empty = Seq::<char>::empty();
    let s_digits = decimal(secs % 60);
    let s_field = s_digits.push('s');
    lemma_decimal_value(secs % 60);
    assert(take_field(empty, 's') == (0nat, empty));
    if minutes == 0 {
        assert(secs % 60 == secs);
        assert(format_spec(secs) =~= s_field + empty);
        lemma_take_field_skips(s_digits, 's', empty, 'h');
        lemma_take_field_skips(s_digits, 's', empty, 'm');
        lemma_take_field_reads(s_digits, 's', empty);
    } else if hours == 0 {
        let m_digits = decimal(minutes);
        lemma_decimal_value(minutes);
        assert(format_spec(secs) =~= m_digits.push('m') + s_field);
        lemma_take_field_skips(m_digits, 'm', s_field, 'h');
        lemma_take_field_reads(m_digits, 'm', s_field);
        assert(s_field =~= s_field + empty);
        lemma_take_field_reads(s_digits, 's', empty);
    } else {
        let h_digits = decimal(hours);
        let m_digits = decimal(minutes % 60);
        lemma_decimal_value(hours);
        lemma_decimal_value(minutes % 60);
        let tail = m_digits.push('m') + s_field;
        assert(format_spec(secs) =~= h_digits.push('h') + tail);
        lemma_take_field_reads(h_digits, 'h', tail);
        lemma_take_field_reads(m_digits, 'm', s_field);
        assert(s_field =~= s_field + empty);
        lemma_take_field_reads(s_digits, 's', empty);
    }
}

/// The characters of `text`, one by one.
pub fn chars_of(text: &str) -> (chars: Vec<char>)
    ensures
        chars@ == text@,
{
    broadcast use {axiom_spec_iter, next_postcondition};

    let mut chars: Vec<char> = Vec::new();
    let mut rest = text.chars();
    loop
        invariant
            chars@ + rest.remaining() == text@,
        decreases text@.len() - chars@.len(),
    {
        let ghost before = rest.remaining();
        match rest.next() {
            Some(c) => {
                chars.push(c);
                assert(chars@ + rest.remaining() =~= text@) by {
                    assert(before =~= seq![c] + before.drop_first());
                }
            },
            None => {
                assert(chars@ =~= chars@ + rest.remaining());
                return chars;
            },
        }
    }
}

} // verus!
