//! The readiness announcement protocol.
//!
//! The worker announces its bound port with a single standard-output line of
//! the form `PORT:<number>`, the number optionally surrounded by whitespace.
//! Every other line is ordinary diagnostic chatter and is ignored, as is a
//! `PORT:` line whose remainder is not a number in `0 ..= 65535`.

use vstd::prelude::*;

use crate::text::has_prefix;

verus! {

/// The characters stripped from either end of the announced number.
pub open spec fn is_space(c: char) -> bool {
    c == ' ' || c == '\t' || c == '\r' || c == '\n'
}

/// A decimal digit.
pub open spec fn is_digit(c: char) -> bool {
    48 <= c as u32 && c as u32 <= 57
}

/// The numeric value of a decimal digit.
pub open spec fn digit_val(c: char) -> int {
    c as u32 - 48
}

/// Every character of `s` is a decimal digit.
pub open spec fn all_digits(s: Seq<char>) -> bool {
    forall|i: int| 0 <= i < s.len() ==> is_digit(#[trigger] s[i])
}

/// The value of a digit string read in base ten.
pub open spec fn dec_val(s: Seq<char>) -> int
    decreases s.len(),
{
    if s.len() == 0 {
        0
    } else {
        dec_val(s.drop_last()) * 10 + digit_val(s.last())
    }
}

/// `s` with its leading whitespace removed.
pub open spec fn trim_front(s: Seq<char>) -> Seq<char>
    decreases s.len(),
{
    if s.len() > 0 && is_space(s.first()) {
        trim_front(s.drop_first())
    } else {
        s
    }
}

/// `s` with its trailing whitespace removed.
pub open spec fn trim_back(s: Seq<char>) -> Seq<char>
    decreases s.len(),
{
    if s.len() > 0 && is_space(s.last()) {
        trim_back(s.drop_last())
    } else {
        s
    }
}

/// `s` with whitespace removed from both ends.
pub open spec fn trimmed(s: Seq<char>) -> Seq<char> {
    trim_back(trim_front(s))
}

/// The payload of a line: what follows the `PORT:` prefix, trimmed.
pub open spec fn payload_of(s: Seq<char>) -> Seq<char> {
    trimmed(s.subrange(5, s.len() as int))
}

/// The line announces a port: it starts with `PORT:` and the rest, trimmed,
/// is a nonempty digit string whose value fits a sixteen-bit port number.
pub open spec fn is_port_line(s: Seq<char>) -> bool {
    &&& has_prefix(s, "PORT:"@)
    &&& payload_of(s).len() > 0
    &&& all_digits(payload_of(s))
    &&& dec_val(payload_of(s)) <= 65535
}

/// The port a readiness line announces.
pub open spec fn port_of_line(s: Seq<char>) -> u16 {
    dec_val(payload_of(s)) as u16
}

proof fn lemma_trim_front_is_subrange(s: Seq<char>, k: int)
    requires
        0 <= k <= s.len(),
        forall|j: int| 0 <= j < k ==> is_space(#[trigger] s[j]),
        k == s.len() || !is_space(s[k]),
    ensures
        trim_front(s) == s.subrange(k, s.len() as int),
    decreases k,
{
    if k == 0 {
        if s.len() > 0 && is_space(s.first()) {
            assert(false);
        }
        assert(trim_front(s) == s);
        assert(s.subrange(0, s.len() as int) =~= s);
    } else {
        assert(is_space(s.first()));
        let t = s.drop_first();
        assert(forall|j: int| 0 <= j < k - 1 ==> is_space(#[trigger] t[j]));
        assert(k - 1 == t.len() || !is_space(t[k - 1]));
        lemma_trim_front_is_subrange(t, k - 1);
        assert(t.subrange(k - 1, t.len() as int) =~= s.subrange(k, s.len() as int));
    }
}

proof fn lemma_trim_back_is_subrange(s: Seq<char>, k: int)
    requires
        0 <= k <= s.len(),
        forall|j: int| k <= j < s.len() ==> is_space(#[trigger] s[j]),
        k == 0 || !is_space(s[k - 1]),
    ensures
        trim_back(s) == s.subrange(0, k),
    decreases s.len() - k,
{
    if k == s.len() {
        if s.len() > 0 && is_space(s.last()) {
            assert(false);
        }
        assert(trim_back(s) == s);
        assert(s.subrange(0, s.len() as int) =~= s);
    } else {
        assert(is_space(s.last()));
        let t = s.drop_last();
        lemma_trim_back_is_subrange(t, k);
        assert(t.subrange(0, k) =~= s.subrange(0, k));
    }
}

/// Extending a digit string to the right can only grow its value.
proof fn lemma_dec_val_prefix_le(s: Seq<char>, k: int)
    requires
        0 <= k <= s.len(),
        all_digits(s),
    ensures
        dec_val(s.subrange(0, k)) <= dec_val(s),
        dec_val(s) >= 0,
    decreases s.len() - k,
{
    if k == s.len() {
        assert(s.subrange(0, k) =~= s);
        lemma_dec_val_nonneg(s);
    } else {
        let t = s.subrange(0, k + 1);
        assert(t.drop_last() =~= s.subrange(0, k));
        lemma_dec_val_nonneg(s.subrange(0, k));
        assert(dec_val(t) == dec_val(s.subrange(0, k)) * 10 + digit_val(t.last()));
        lemma_dec_val_prefix_le(s, k + 1);
    }
}

proof fn lemma_dec_val_nonneg(s: Seq<char>)
    requires
        all_digits(s),
    ensures
        dec_val(s) >= 0,
    decreases s.len(),
{
    if s.len() > 0 {
        assert(all_digits(s.drop_last()));
        lemma_dec_val_nonneg(s.drop_last());
    }
}

fn is_space_char(c: char) -> (r: bool)
    ensures
        r == is_space(c),
{
    c == ' ' || c == '\t' || c == '\r' || c == '\n'
}

/// Parse one line of worker output. Returns the announced port when the line
/// is a readiness line, and nothing otherwise; a malformed remainder is never
/// an error, only an ignored line.
pub fn parse_port_line(line: &str) -> (r: Option<u16>)
    ensures
        r == (if is_port_line(line@) {
            Some(port_of_line(line@))
        } else {
            None::<u16>
        }),
{
    proof {
        reveal_strlit("PORT:");
    }
    let n = line.unicode_len();
    if n < 5 {
        return None;
    }
    if !crate::text::range_eq(line, 0, 5, "PORT:") {
        return None;
    }
    let ghost rest = line@.subrange(5, n as int);

    // strip leading whitespace of the remainder
    let mut lo: usize = 5;
    while lo < n && is_space_char(line.get_char(lo))
        invariant
            5 <= lo <= n,
            n == line@.len(),
            forall|j: int| 5 <= j < lo ==> is_space(#[trigger] line@[j]),
        decreases n - lo,
    {
        lo = lo + 1;
    }
    // strip trailing whitespace
    let mut hi: usize = n;
    while hi > lo && is_space_char(line.get_char(hi - 1))
        invariant
            lo <= hi <= n,
            n == line@.len(),
            forall|j: int| hi <= j < n ==> is_space(#[trigger] line@[j]),
        decreases hi,
    {
        hi = hi - 1;
    }

    proof {
        assert(forall|j: int| 0 <= j < lo - 5 ==> is_space(#[trigger] rest[j]));
        assert(lo - 5 == rest.len() || !is_space(rest[lo - 5]));
        lemma_trim_front_is_subrange(rest, lo - 5);
        let front = rest.subrange(lo - 5, rest.len() as int);
        assert(front =~= line@.subrange(lo as int, n as int));
        if hi == lo {
            assert(forall|j: int| 0 <= j < front.len() ==> is_space(#[trigger] front[j]));
            lemma_trim_back_is_subrange(front, 0);
        } else {
            assert(forall|j: int| hi - lo <= j < front.len() ==> is_space(#[trigger] front[j]));
            assert(!is_space(front[hi - lo - 1]));
            lemma_trim_back_is_subrange(front, hi - lo);
        }
        assert(front.subrange(0, hi - lo) =~= line@.subrange(lo as int, hi as int));
        assert(payload_of(line@) == line@.subrange(lo as int, hi as int));
    }
    let ghost payload = line@.subrange(lo as int, hi as int);

    if lo == hi {
        // empty remainder: not an announcement
        return None;
    }

    // parse the digit string
    let mut acc: u32 = 0;
    let mut i: usize = lo;
    while i < hi
        invariant
            lo < hi <= n,
            lo <= i <= hi,
            n == line@.len(),
            has_prefix(line@, "PORT:"@),
            payload == line@.subrange(lo as int, hi as int),
            payload_of(line@) == payload,
            all_digits(line@.subrange(lo as int, i as int)),
            acc == dec_val(line@.subrange(lo as int, i as int)),
            acc <= 65535,
        decreases hi - i,
    {
        let c = line.get_char(i);
        let cv = c as u32;
        if cv < 48 || cv > 57 {
            proof {
                assert(payload.len() == hi - lo);
                assert(payload[i - lo] == line@[i as int]);
                assert(!is_digit(payload[i - lo]));
                assert(!all_digits(payload));
            }
            return None;
        }
        proof {
            let pre = line@.subrange(lo as int, i as int);
            let ext = line@.subrange(lo as int, i + 1);
            assert(ext.drop_last() =~= pre);
            assert(ext.last() == line@[i as int]);
            assert(is_digit(line@[i as int]));
            assert(dec_val(ext) == dec_val(pre) * 10 + digit_val(ext.last()));
            assert forall|j: int| 0 <= j < ext.len() implies is_digit(#[trigger] ext[j]) by {
                if j < ext.len() - 1 {
                    assert(ext[j] == pre[j]);
                }
            }
        }
        acc = acc * 10 + (cv - 48);
        i = i + 1;
        if acc > 65535 {
            // too large for a port, whatever follows
            proof {
                let pre = line@.subrange(lo as int, i as int);
                assert(acc == dec_val(pre));
                assert(pre =~= payload.subrange(0, i - lo));
                if all_digits(payload) {
                    lemma_dec_val_prefix_le(payload, i - lo);
                    assert(dec_val(payload) >= dec_val(pre));
                }
                assert(!is_port_line(line@));
            }
            return None;
        }
    }
    proof {
        assert(line@.subrange(lo as int, i as int) =~= payload);
        assert(is_port_line(line@));
    }
    Some(acc as u16)
}

} // verus!
