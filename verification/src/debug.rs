//! The records of the debug log: a timestamp of seconds and milliseconds since the Unix
//! epoch, then the message.
use vstd::prelude::*;

verus! {

/// The character of the decimal digit `d`.
pub open spec fn digit_char(d: nat) -> char {
    (d + 48) as char
}

/// The decimal numeral of `n`, without leading zeros.
pub open spec fn decimal(n: nat) -> Seq<char>
    decreases n,
{
    if n < 10 {
        seq![digit_char(n)]
    } else {
        decimal(n / 10).push(digit_char(n % 10))
    }
}

/// `n` as three decimal digits, zeros in front.
pub open spec fn three_digits(n: nat) -> Seq<char> {
    seq![digit_char(n / 100), digit_char((n / 10) % 10), digit_char(n % 10)]
}

/// The timestamp of a log record: the seconds, a full stop and the milliseconds in three
/// digits.
pub open spec fn timestamp_text(secs: nat, millis: nat) -> Seq<char> {
    decimal(secs) + seq!['.'] + three_digits(millis)
}

/// The record that `line` becomes in the debug log: the timestamp in brackets, a space,
/// the line and a line feed.
pub open spec fn log_record(secs: nat, millis: nat, line: Seq<char>) -> Seq<char> {
    seq!['['] + timestamp_text(secs, millis) + seq![']', ' '] + line + seq!['\n']
}

/// Whether `c` is a decimal digit.
pub open spec fn is_digit(c: char) -> bool {
    '0' <= c && c <= '9'
}

/// The number that a string of decimal digits spells.
pub open spec fn digits_value(t: Seq<char>) -> int
    decreases t.len(),
{
    if t.len() == 0 {
        0
    } else {
        digits_value(t.drop_last()) * 10 + (t.last() as int - 48)
    }
}

/// The clock reading, in milliseconds, that a timestamp text spells: the digits before the
/// full stop count seconds, the three after it milliseconds.
pub open spec fn timestamp_reading(t: Seq<char>) -> int {
    digits_value(t.take(t.len() - 4)) * 1000 + digits_value(t.skip(t.len() - 3))
}

proof fn lemma_digit_char(d: nat)
    requires
        d < 10,
    ensures
        digit_char(d) as int == d + 48,
        is_digit(digit_char(d)),
{
}

/// The decimal numeral of `n` is made of digits and spells `n`.
pub proof fn lemma_decimal(n: nat)
    ensures
        digits_value(decimal(n)) == n,
        decimal(n).len() >= 1,
        forall|i: int| 0 <= i < decimal(n).len() ==> is_digit(#[trigger] decimal(n)[i]),
    decreases n,
{
    lemma_digit_char(n % 10);
    if n >= 10 {
        lemma_decimal(n / 10);
        let s = decimal(n);
        assert(s.drop_last() =~= decimal(n / 10));
        assert(s.last() == digit_char(n % 10));
        assert(digits_value(s) == digits_value(decimal(n / 10)) * 10 + (s.last() as int - 48));
        assert(n == (n / 10) * 10 + n % 10);
        assert forall|i: int| 0 <= i < s.len() implies is_digit(#[trigger] s[i]) by {
            if i < s.len() - 1 {
                assert(s[i] == decimal(n / 10)[i]);
            }
        }
    } else {
        let s = decimal(n);
        assert(s.drop_last() =~= Seq::<char>::empty());
        assert(digits_value(s) == digits_value(s.drop_last()) * 10 + (s.last() as int - 48));
    }
}

/// Law: a timestamp is digits, a full stop, then exactly three digits, and it spells the
/// clock reading it was made from, in milliseconds since the Unix epoch.
pub proof fn lemma_timestamp_spells_reading(secs: nat, millis: nat)
    requires
        millis < 1000,
    ensures
        ({
            let t = timestamp_text(secs, millis);
            &&& t.len() >= 5
            &&& t[t.len() - 4] == '.'
            &&& forall|i: int| 0 <= i < t.len() && i != t.len() - 4 ==> is_digit(#[trigger] t[i])
            &&& timestamp_reading(t) == secs * 1000 + millis
        }),
{
    let t = timestamp_text(secs, millis);
    let d = decimal(secs);
    let f = three_digits(millis);
    lemma_decimal(secs);
    lemma_digit_char(millis / 100);
    lemma_digit_char((millis / 10) % 10);
    lemma_digit_char(millis % 10);
    assert(t.take(t.len() - 4) =~= d);
    assert(t.skip(t.len() - 3) =~= f);
    assert(f.drop_last().drop_last().drop_last() =~= Seq::<char>::empty());
    assert(f.drop_last().drop_last() =~= seq![f[0]]);
    assert(f.drop_last() =~= seq![f[0], f[1]]);
    let a = millis / 100;
    let b = (millis / 10) % 10;
    let c = millis % 10;
    assert(f[0] as int - 48 == a && f[1] as int - 48 == b && f[2] as int - 48 == c);
    assert(digits_value(seq![f[0]]) == a) by {
        let z = seq![f[0]];
        assert(z.drop_last() =~= Seq::<char>::empty());
        assert(digits_value(z.drop_last()) == 0);
        assert(z.last() == f[0]);
        assert(digits_value(z) == digits_value(z.drop_last()) * 10 + (z.last() as int - 48));
    }
    assert(digits_value(seq![f[0], f[1]]) == a * 10 + b) by {
        assert(seq![f[0], f[1]].drop_last() =~= seq![f[0]]);
    }
    assert(digits_value(f) == (millis / 100 * 10 + (millis / 10) % 10) * 10 + millis % 10);
    assert((millis / 100 * 10 + (millis / 10) % 10) * 10 + millis % 10 == millis) by (nonlinear_arith)
        requires
            millis < 1000,
    ;
    assert forall|i: int| 0 <= i < t.len() && i != t.len() - 4 implies is_digit(#[trigger] t[i]) by {
        if i < d.len() {
            assert(t[i] == d[i]);
        }
    }
}

/// Law: timestamps follow the clock. A later clock reading, in milliseconds since the Unix
/// epoch, gives a timestamp that spells an equal or larger number.
pub proof fn lemma_timestamps_ordered(t1: nat, t2: nat)
    requires
        t1 <= t2,
    ensures
        timestamp_reading(timestamp_text(t1 / 1000, t1 % 1000)) <= timestamp_reading(
            timestamp_text(t2 / 1000, t2 % 1000),
        ),
        timestamp_reading(timestamp_text(t1 / 1000, t1 % 1000)) == t1,
{
    lemma_timestamp_spells_reading(t1 / 1000, t1 % 1000);
    lemma_timestamp_spells_reading(t2 / 1000, t2 % 1000);
}

/// Law: a log record is '[', the timestamp, "] ", the whole line as given, and one line
/// feed: its length is that of the timestamp and the line plus four, and the line stands
/// in it unchanged, line feeds and all.
pub proof fn lemma_log_record_layout(secs: nat, millis: nat, line: Seq<char>)
    ensures
        ({
            let r = log_record(secs, millis, line);
            let ts = timestamp_text(secs, millis);
            let n = ts.len() as int;
            &&& r.len() == ts.len() + line.len() + 4
            &&& r[0] == '['
            &&& r.subrange(1, n + 1) == ts
            &&& r[n + 1] == ']'
            &&& r[n + 2] == ' '
            &&& r.subrange(n + 3, n + 3 + line.len()) == line
            &&& r.last() == '\n'
        }),
{
    let r = log_record(secs, millis, line);
    let ts = timestamp_text(secs, millis);
    let n = ts.len() as int;
    assert(r.subrange(1, n + 1) =~= ts);
    assert(r.subrange(n + 3, n + 3 + line.len()) =~= line);
}

fn digit(d: u64) -> (c: char)
    requires
        d < 10,
    ensures
        c == digit_char(d as nat),
{
    let b: u8 = 48u8 + (d as u8);
    b as char
}

fn push_decimal(s: &mut String, n: u64)
    ensures
        final(s)@ == old(s)@ + decimal(n as nat),
    decreases n,
{
    if n >= 10 {
        push_decimal(s, n / 10);
        s.push(digit(n % 10));
        assert(old(s)@ + decimal(n as nat) =~= old(s)@ + decimal((n / 10) as nat) + seq![
            digit_char((n % 10) as nat),
        ]);
    } else {
        s.push(digit(n));
        assert(old(s)@ + decimal(n as nat) =~= old(s)@.push(digit_char(n as nat)));
    }
}

fn push_timestamp(s: &mut String, secs: u64, millis: u32)
    requires
        millis < 1000,
    ensures
        final(s)@ == old(s)@ + timestamp_text(secs as nat, millis as nat),
{
    push_decimal(s, secs);
    s.push('.');
    let m = millis as u64;
    s.push(digit(m / 100));
    s.push(digit((m / 10) % 10));
    s.push(digit(m % 10));
    assert(final(s)@ =~= old(s)@ + timestamp_text(secs as nat, millis as nat));
}

/// The timestamp of a log record made `secs` seconds and `millis` milliseconds after
/// the Unix epoch.
pub fn iso_ts(secs: u64, millis: u32) -> (r: String)
    requires
        millis < 1000,
    ensures
        r@ == timestamp_text(secs as nat, millis as nat),
{
    let mut r = String::new();
    push_timestamp(&mut r, secs, millis);
    assert(r@ =~= timestamp_text(secs as nat, millis as nat));
    r
}

/// The record that `line` becomes in the debug log when it is written `secs` seconds and
/// `millis` milliseconds after the Unix epoch.
pub fn write_line(secs: u64, millis: u32, line: &str) -> (r: String)
    requires
        millis < 1000,
    ensures
        r@ == log_record(secs as nat, millis as nat, line@),
        r@.len() == timestamp_text(secs as nat, millis as nat).len() + line@.len() + 4,
        r@.subrange(
            timestamp_text(secs as nat, millis as nat).len() as int + 3,
            timestamp_text(secs as nat, millis as nat).len() as int + 3 + line@.len(),
        ) == line@,
        r@.last() == '\n',
{
    let mut r = String::new();
    r.push('[');
    push_timestamp(&mut r, secs, millis);
    r.push(']');
    r.push(' ');
    r.append(line);
    r.push('\n');
    assert(r@ =~= log_record(secs as nat, millis as nat, line@));
    proof {
        lemma_log_record_layout(secs as nat, millis as nat, line@);
    }
    r
}

} // verus!
