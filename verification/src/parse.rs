//! The line protocol of the backend: a line of its standard output that
//! begins with the literal prefix `PORT:` followed by an unsigned 16-bit
//! decimal integer (with optional whitespace around the number) announces the
//! TCP port the backend is listening on. Every other line is free-form
//! diagnostic text.

use vstd::prelude::*;

verus! {

/// The bytes of the literal prefix `PORT:`.
pub open spec fn port_prefix() -> Seq<u8> {
    seq![80u8, 79u8, 82u8, 84u8, 58u8]
}

/// Whether a byte is ASCII whitespace (space, tab, line feed, vertical tab,
/// form feed, carriage return).
pub open spec fn is_space(b: u8) -> bool {
    b == 32 || b == 9 || b == 10 || b == 11 || b == 12 || b == 13
}

/// Whether every byte of `s` is whitespace.
pub open spec fn all_spaces(s: Seq<u8>) -> bool {
    forall|i: int| 0 <= i < s.len() ==> is_space(s[i])
}

/// Whether a byte is an ASCII decimal digit.
pub open spec fn is_digit(b: u8) -> bool {
    48 <= b && b <= 57
}

/// Whether every byte of `s` is a decimal digit.
pub open spec fn all_digits(s: Seq<u8>) -> bool {
    forall|i: int| 0 <= i < s.len() ==> is_digit(s[i])
}

/// The value of a digit string read as a decimal number.
pub open spec fn digits_val(s: Seq<u8>) -> int
    decreases s.len(),
{
    if s.len() == 0 {
        0
    } else {
        digits_val(s.drop_last()) * 10 + s.last() - 48
    }
}

/// `s` without its leading whitespace.
pub open spec fn trim_start(s: Seq<u8>) -> Seq<u8>
    decreases s.len(),
{
    if s.len() > 0 && is_space(s[0]) {
        trim_start(s.subrange(1, s.len() as int))
    } else {
        s
    }
}

/// `s` without its trailing whitespace.
pub open spec fn trim_end(s: Seq<u8>) -> Seq<u8>
    decreases s.len(),
{
    if s.len() > 0 && is_space(s.last()) {
        trim_end(s.drop_last())
    } else {
        s
    }
}

/// `s` without leading and trailing whitespace.
pub open spec fn trim_spaces(s: Seq<u8>) -> Seq<u8> {
    trim_end(trim_start(s))
}

/// The digit part of a trimmed number: an optional leading `+` sign is
/// dropped, as the standard integer parser accepts one.
pub open spec fn digits_part(s: Seq<u8>) -> Seq<u8> {
    if s.len() > 0 && s[0] == 43 {
        s.subrange(1, s.len() as int)
    } else {
        s
    }
}

/// What parsing `s` as an unsigned 16-bit decimal integer yields: the value
/// when, after an optional `+` sign, `s` is one or more digits whose value
/// fits in 16 bits, and nothing otherwise.
pub open spec fn parse_u16(s: Seq<u8>) -> Option<u16> {
    let d = digits_part(s);
    if d.len() > 0 && all_digits(d) && digits_val(d) <= 65535 {
        Some(digits_val(d) as u16)
    } else {
        None
    }
}

/// Whether `s` begins with the literal prefix `PORT:`.
pub open spec fn has_prefix(s: Seq<u8>) -> bool {
    s.len() >= 5 && s.subrange(0, 5) == port_prefix()
}

/// The port a line announces: for a line `PORT:<number>` the number parsed as
/// an unsigned 16-bit integer with optional surrounding whitespace, and
/// nothing for every other line, a malformed number included.
pub open spec fn port_of_line(s: Seq<u8>) -> Option<u16> {
    if has_prefix(s) {
        parse_u16(trim_spaces(s.subrange(5, s.len() as int)))
    } else {
        None
    }
}

/// Whether a byte is ASCII whitespace.
pub fn space(b: u8) -> (r: bool)
    ensures
        r == is_space(b),
{
    b == 32 || b == 9 || b == 10 || b == 11 || b == 12 || b == 13
}

/// Whether a line begins with the literal prefix `PORT:`.
pub fn has_port_prefix(line: &[u8]) -> (r: bool)
    ensures
        r == has_prefix(line@),
{
    if line.len() < 5 {
        return false;
    }
    let r = line[0] == 80 && line[1] == 79 && line[2] == 82 && line[3] == 84 && line[4] == 58;
    proof {
        let pre = line@.subrange(0, 5);
        assert(pre[0] == line@[0] && pre[1] == line@[1] && pre[2] == line@[2] && pre[3] == line@[3]
            && pre[4] == line@[4]);
        assert(port_prefix()[0] == 80u8 && port_prefix()[1] == 79u8 && port_prefix()[2] == 82u8
            && port_prefix()[3] == 84u8 && port_prefix()[4] == 58u8);
        if r {
            assert(pre =~= port_prefix());
        }
    }
    r
}

/// Dropping whitespace bytes from the front of `s` one by one does not change
/// what trimming it yields.
proof fn lemma_trim_start_skip(s: Seq<u8>, k: int)
    requires
        0 <= k <= s.len(),
        forall|i: int| 0 <= i < k ==> is_space(s[i]),
    ensures
        trim_start(s) == trim_start(s.subrange(k, s.len() as int)),
    decreases k,
{
    if k > 0 {
        assert(is_space(s[0]));
        let t = s.subrange(1, s.len() as int);
        assert forall|i: int| 0 <= i < k - 1 implies is_space(t[i]) by {
            assert(t[i] == s[i + 1]);
        }
        lemma_trim_start_skip(t, k - 1);
        assert(t.subrange(k - 1, t.len() as int) =~= s.subrange(k, s.len() as int));
    } else {
        assert(s.subrange(0, s.len() as int) =~= s);
    }
}

/// Dropping whitespace bytes from the back of `s` one by one does not change
/// what trimming it yields.
proof fn lemma_trim_end_skip(s: Seq<u8>, k: int)
    requires
        0 <= k <= s.len(),
        forall|i: int| s.len() - k <= i < s.len() ==> is_space(s[i]),
    ensures
        trim_end(s) == trim_end(s.subrange(0, s.len() - k)),
    decreases k,
{
    if k > 0 {
        assert(is_space(s.last()));
        let t = s.drop_last();
        assert forall|i: int| t.len() - (k - 1) <= i < t.len() implies is_space(t[i]) by {
            assert(t[i] == s[i]);
        }
        lemma_trim_end_skip(t, k - 1);
        assert(t.subrange(0, t.len() - (k - 1)) =~= s.subrange(0, s.len() - k));
    } else {
        assert(s.subrange(0, s.len() as int) =~= s);
    }
}

/// Appending one digit multiplies the value by ten and adds the digit.
proof fn lemma_digits_val_push(s: Seq<u8>, b: u8)
    ensures
        digits_val(s.push(b)) == digits_val(s) * 10 + b - 48,
{
    assert(s.push(b).drop_last() =~= s);
    assert(s.push(b).last() == b);
}

/// The decimal digit string of `n`, without sign or leading zeros.
pub open spec fn decimal(n: nat) -> Seq<u8>
    decreases n,
{
    if n < 10 {
        seq![(48 + n) as u8]
    } else {
        decimal(n / 10).push((48 + n % 10) as u8)
    }
}

/// The decimal digit string of a number is non-empty, holds digits only, and
/// reads back as that number.
pub proof fn lemma_decimal_correct(n: nat)
    ensures
        decimal(n).len() >= 1,
        all_digits(decimal(n)),
        digits_val(decimal(n)) == n,
    decreases n,
{
    let d = decimal(n);
    if n < 10 {
        assert(d.drop_last() =~= Seq::<u8>::empty());
        assert(d.last() == (48 + n) as u8);
        assert(digits_val(d) == digits_val(Seq::<u8>::empty()) * 10 + (48 + n) - 48);
    } else {
        lemma_decimal_correct(n / 10);
        let prev = decimal(n / 10);
        let last = (48 + n % 10) as u8;
        lemma_digits_val_push(prev, last);
        assert(digits_val(d) == digits_val(prev) * 10 + last - 48);
        assert((n / 10) * 10 + n % 10 == n) by (nonlinear_arith);
        assert forall|i: int| 0 <= i < d.len() implies is_digit(d[i]) by {
            if i < prev.len() {
                assert(d[i] == prev[i]);
            } else {
                assert(d[i] == last);
            }
        }
    }
}

/// Law: every well-formed port announcement is parsed to its port. A line
/// made of the prefix `PORT:`, any whitespace, the decimal digits of a
/// 16-bit number, and any whitespace announces exactly that number.
pub proof fn lemma_well_formed_line_parses(p: u16, ws1: Seq<u8>, ws2: Seq<u8>)
    requires
        all_spaces(ws1),
        all_spaces(ws2),
    ensures
        port_of_line(port_prefix() + ws1 + decimal(p as nat) + ws2) == Some(p),
{
    let d = decimal(p as nat);
    lemma_decimal_correct(p as nat);
    let line = port_prefix() + ws1 + d + ws2;
    assert(line.len() == 5 + ws1.len() + d.len() + ws2.len());
    assert forall|i: int| 0 <= i < line.len() implies line[i] == (if i < 5 {
        port_prefix()[i]
    } else if i < 5 + ws1.len() {
        ws1[i - 5]
    } else if i < 5 + ws1.len() + d.len() {
        d[i - 5 - ws1.len()]
    } else {
        ws2[i - 5 - ws1.len() - d.len()]
    }) by {
        assert(line == (port_prefix() + ws1 + d) + ws2);
    }
    assert(line.subrange(0, 5) =~= port_prefix());
    assert(has_prefix(line));

    let rest = line.subrange(5, line.len() as int);
    assert forall|i: int| 0 <= i < ws1.len() implies is_space(rest[i]) by {
        assert(rest[i] == line[i + 5]);
    }
    lemma_trim_start_skip(rest, ws1.len() as int);
    let tail = rest.subrange(ws1.len() as int, rest.len() as int);
    assert(tail =~= d + ws2);
    assert(is_digit(d[0]));
    assert(!is_space((d + ws2)[0]));
    assert(trim_start(rest) == d + ws2);
    assert forall|i: int| d.len() <= i < (d + ws2).len() implies is_space((d + ws2)[i]) by {
        assert((d + ws2)[i] == ws2[i - d.len()]);
    }
    lemma_trim_end_skip(d + ws2, ws2.len() as int);
    assert((d + ws2).subrange(0, d.len() as int) =~= d);
    assert(is_digit(d[d.len() - 1]));
    assert(!is_space(d.last()));
    assert(trim_end(d + ws2) == d);
    assert(trim_spaces(rest) == d);

    assert(is_digit(d[0]));
    assert(d[0] != 43);
    assert(digits_part(d) == d);
    assert(digits_val(d) == p as int);
    assert(parse_u16(d) == Some(p));
}

/// Parses a line of backend output according to the port-announcement
/// protocol: for `PORT:<number>` with an in-range decimal number and optional
/// whitespace around it, the announced port; for every other line, including
/// one whose number is malformed or out of 16-bit range, nothing.
#[verifier::loop_isolation(false)]
pub fn parse_port_line(line: &[u8]) -> (r: Option<u16>)
    ensures
        r == port_of_line(line@),
{
    if !has_port_prefix(line) {
        return None;
    }
    let n = line.len();
    let ghost rest = line@.subrange(5, n as int);

    let mut i: usize = 5;
    while i < n && space(line[i])
        invariant
            5 <= i <= n,
            forall|k: int| 5 <= k < i ==> is_space(line@[k]),
        decreases n - i,
    {
        i += 1;
    }
    let mut j: usize = n;
    while j > i && space(line[j - 1])
        invariant
            i <= j <= n,
            forall|k: int| j <= k < n ==> is_space(line@[k]),
        decreases j,
    {
        j -= 1;
    }
    let ghost trimmed = line@.subrange(i as int, j as int);
    proof {
        assert forall|k: int| 0 <= k < i - 5 implies is_space(rest[k]) by {
            assert(rest[k] == line@[k + 5]);
        }
        lemma_trim_start_skip(rest, i - 5);
        assert(rest.subrange(i - 5, rest.len() as int) =~= line@.subrange(i as int, n as int));
        let tail = line@.subrange(i as int, n as int);
        assert(trim_start(rest) == tail);
        assert forall|k: int| tail.len() - (n - j) <= k < tail.len() implies is_space(tail[k]) by {
            assert(tail[k] == line@[k + i]);
        }
        lemma_trim_end_skip(tail, n - j);
        assert(tail.subrange(0, tail.len() - (n - j)) =~= trimmed);
        assert(trim_spaces(rest) == trimmed);
    }

    let mut k = i;
    if k < j && line[k] == 43 {
        k += 1;
    }
    let ghost d = line@.subrange(k as int, j as int);
    proof {
        assert(digits_part(trimmed) =~= d);
    }
    if k == j {
        return None;
    }

    let mut acc: u32 = 0;
    let mut over = false;
    let mut m = k;
    while m < j
        invariant
            k <= m <= j,
            forall|t: int| 0 <= t < m - k ==> is_digit(d[t]),
            !over ==> acc == digits_val(d.subrange(0, m - k)) && acc <= 65535,
            over ==> digits_val(d.subrange(0, m - k)) > 65535,
        decreases j - m,
    {
        let b = line[m];
        if b < 48 || b > 57 {
            proof {
                assert(d[m - k] == line@[m as int]);
                assert(!is_digit(d[m - k]));
            }
            return None;
        }
        proof {
            assert(d.subrange(0, m - k).push(d[m - k]) =~= d.subrange(0, m + 1 - k));
            lemma_digits_val_push(d.subrange(0, m - k), d[m - k]);
            assert(d[m - k] == b);
        }
        if !over {
            acc = acc * 10 + (b - 48) as u32;
            if acc > 65535 {
                over = true;
            }
        }
        m += 1;
    }
    proof {
        assert(d.subrange(0, d.len() as int) =~= d);
    }
    if over {
        None
    } else {
        Some(acc as u16)
    }
}

} // verus!
