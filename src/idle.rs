//! Idle time: the arithmetic on the platforms' raw readings, and the
//! reading on platforms that cannot measure it.
use vstd::prelude::*;
use vstd::slice::slice_subrange;
use vstd::string::StringSliceAdditionalSpecFns;
use crate::settings::{parse_u64_bytes, parsed_u64};

verus! {

/// Idle seconds where the platform offers no measure: never AFK.
pub fn get_idle_seconds() -> (r: u64)
    ensures
        r == 0,
{
    0
}

/// Milliseconds from `since` to `now` on a 32-bit millisecond counter that
/// wraps around.
pub open spec fn ticks_between(since: u32, now: u32) -> int {
    if now >= since {
        now - since
    } else {
        now + 0x1_0000_0000 - since
    }
}

/// Whole idle seconds from the system tick count `now_ms` and the tick count
/// `last_input_ms` of the last user input, both in milliseconds.
pub fn idle_seconds_from_ticks(now_ms: u32, last_input_ms: u32) -> (r: u64)
    ensures
        r == ticks_between(last_input_ms, now_ms) / 1000,
{
    let idle_ms = now_ms.wrapping_sub(last_input_ms);
    (idle_ms / 1000) as u64
}

/// The bytes of `HIDIdleTime`, the ioreg property that holds the time since
/// the last input, in nanoseconds.
pub open spec fn idle_key() -> Seq<u8> {
    seq![72u8, 73u8, 68u8, 73u8, 100u8, 108u8, 101u8, 84u8, 105u8, 109u8, 101u8]
}

pub open spec fn occurs_at(t: Seq<u8>, i: int, k: Seq<u8>) -> bool {
    0 <= i && i + k.len() <= t.len() && t.subrange(i, i + k.len()) == k
}

pub open spec fn occurs_in(t: Seq<u8>, k: Seq<u8>) -> bool {
    exists|i: int| occurs_at(t, i, k)
}

/// Where the text after the last `=` among the first `j` bytes of `line`
/// starts; 0 where there is none.
pub open spec fn value_start(line: Seq<u8>, j: int) -> int
    decreases j,
{
    if j <= 0 || j > line.len() {
        0
    } else if line[j - 1] == 61 {
        j
    } else {
        value_start(line, j - 1)
    }
}

/// One-byte whitespace: tab, line feed, vertical tab, form feed, carriage
/// return, space.
pub open spec fn is_space(b: u8) -> bool {
    b == 32 || (9 <= b <= 13)
}

/// Two-byte UTF-8 whitespace: U+0085 and U+00A0.
pub open spec fn is_space2(a: u8, b: u8) -> bool {
    a == 0xC2 && (b == 0x85 || b == 0xA0)
}

/// Three-byte UTF-8 whitespace: U+1680, U+2000 to U+200A, U+2028, U+2029,
/// U+202F, U+205F and U+3000.
pub open spec fn is_space3(a: u8, b: u8, c: u8) -> bool {
    ||| (a == 0xE1 && b == 0x9A && c == 0x80)
    ||| (a == 0xE2 && b == 0x80 && ((0x80 <= c <= 0x8A) || c == 0xA8 || c == 0xA9 || c == 0xAF))
    ||| (a == 0xE2 && b == 0x81 && c == 0x9F)
    ||| (a == 0xE3 && b == 0x80 && c == 0x80)
}

/// Length in bytes of the whitespace character (Unicode `White_Space`) that
/// the UTF-8 text `s` starts with; 0 where it starts with none.
pub open spec fn leading_space_len(s: Seq<u8>) -> nat {
    if s.len() >= 1 && is_space(s[0]) {
        1
    } else if s.len() >= 2 && is_space2(s[0], s[1]) {
        2
    } else if s.len() >= 3 && is_space3(s[0], s[1], s[2]) {
        3
    } else {
        0
    }
}

/// Length in bytes of the whitespace character that the UTF-8 text `s` ends
/// with; 0 where it ends with none.
pub open spec fn trailing_space_len(s: Seq<u8>) -> nat {
    let n = s.len() as int;
    if n >= 1 && is_space(s[n - 1]) {
        1
    } else if n >= 2 && is_space2(s[n - 2], s[n - 1]) {
        2
    } else if n >= 3 && is_space3(s[n - 3], s[n - 2], s[n - 1]) {
        3
    } else {
        0
    }
}

/// `s` without its leading whitespace.
pub open spec fn trim_start(s: Seq<u8>) -> Seq<u8>
    decreases s.len(),
{
    let k = leading_space_len(s);
    if 0 < k <= s.len() {
        trim_start(s.subrange(k as int, s.len() as int))
    } else {
        s
    }
}

/// `s` without its trailing whitespace.
pub open spec fn trim_end(s: Seq<u8>) -> Seq<u8>
    decreases s.len(),
{
    let k = trailing_space_len(s);
    if 0 < k <= s.len() {
        trim_end(s.subrange(0, s.len() - k))
    } else {
        s
    }
}

/// The idle nanoseconds that one ioreg line reports: the line holds the key,
/// and the text after its last `=`, without surrounding whitespace,
/// is a decimal `u64`.
pub open spec fn line_idle_ns(line: Seq<u8>) -> Option<u64> {
    if occurs_in(line, idle_key()) {
        parsed_u64(trim_end(trim_start(line.subrange(value_start(line, line.len() as int), line.len() as int))))
    } else {
        None
    }
}

/// Length of the line that starts at `p`, up to the next line feed.
pub open spec fn line_len(t: Seq<u8>, p: int) -> nat
    decreases t.len() - p,
{
    if p < 0 || p >= t.len() || t[p] == 10 {
        0
    } else {
        1 + line_len(t, p + 1)
    }
}

proof fn lemma_line_len_bound(t: Seq<u8>, p: int)
    requires
        0 <= p <= t.len(),
    ensures
        p + line_len(t, p) <= t.len(),
    decreases t.len() - p,
{
    if p < t.len() && t[p] != 10 {
        lemma_line_len_bound(t, p + 1);
    }
}

/// The first idle reading among the lines of `t` from position `p` on.
pub open spec fn idle_ns_from(t: Seq<u8>, p: int) -> Option<u64>
    decreases t.len() - p,
{
    if p < 0 || p >= t.len() {
        None
    } else {
        match line_idle_ns(t.subrange(p, p + line_len(t, p))) {
            Some(n) => Some(n),
            None => if p + line_len(t, p) + 1 < t.len() {
                idle_ns_from(t, p + line_len(t, p) + 1)
            } else {
                None
            },
        }
    }
}

pub open spec fn ioreg_idle_seconds(t: Seq<u8>) -> u64 {
    match idle_ns_from(t, 0) {
        Some(n) => n / 1_000_000_000,
        None => 0,
    }
}

fn occurs_at_exec(t: &[u8], i: usize, k: &[u8]) -> (r: bool)
    ensures
        r == occurs_at(t@, i as int, k@),
{
    if i > t.len() || k.len() > t.len() - i {
        return false;
    }
    let mut j: usize = 0;
    while j < k.len()
        invariant
            i + k.len() <= t.len(),
            j <= k.len(),
            t@.subrange(i as int, i + j) =~= k@.subrange(0, j as int),
        decreases k.len() - j,
    {
        if t[i + j] != k[j] {
            assert(t@.subrange(i as int, i + k.len())[j as int] == t@[i + j]);
            return false;
        }
        assert(t@.subrange(i as int, i + j + 1) =~= t@.subrange(i as int, i + j).push(t@[i + j]));
        assert(k@.subrange(0, j + 1) =~= k@.subrange(0, j as int).push(k@[j as int]));
        j = j + 1;
    }
    assert(k@.subrange(0, k.len() as int) =~= k@);
    true
}

fn occurs_in_exec(t: &[u8], k: &[u8]) -> (r: bool)
    ensures
        r == occurs_in(t@, k@),
{
    if k.len() > t.len() {
        return false;
    }
    let last = t.len() - k.len();
    let mut i: usize = 0;
    while i < last
        invariant
            i <= last == t@.len() - k@.len(),
            forall|m: int| 0 <= m < i ==> !occurs_at(t@, m, k@),
        decreases last - i,
    {
        if occurs_at_exec(t, i, k) {
            return true;
        }
        i = i + 1;
    }
    if occurs_at_exec(t, last, k) {
        return true;
    }
    assert forall|m: int| !occurs_at(t@, m, k@) by {
        if 0 <= m < i {
            assert(!occurs_at(t@, m, k@));
        }
    }
    false
}

fn line_idle_ns_exec(line: &[u8]) -> (r: Option<u64>)
    ensures
        r == line_idle_ns(line@),
{
    let key: [u8; 11] = [72u8, 73u8, 68u8, 73u8, 100u8, 108u8, 101u8, 84u8, 105u8, 109u8, 101u8];
    assert(key@ =~= idle_key());
    if !occurs_in_exec(line, key.as_slice()) {
        return None;
    }
    let n = line.len();
    let mut j: usize = n;
    while j > 0 && line[j - 1] != 61u8
        invariant
            j <= n == line@.len(),
            value_start(line@, n as int) == value_start(line@, j as int),
        decreases j,
    {
        j = j - 1;
    }
    let ghost v = line@.subrange(j as int, n as int);
    let mut lo: usize = j;
    let mut k = leading_space_len_exec(line, lo, n);
    while k > 0
        invariant
            j <= lo <= n == line@.len(),
            v == line@.subrange(j as int, n as int),
            k == leading_space_len(line@.subrange(lo as int, n as int)),
            k <= n - lo,
            trim_start(v) == trim_start(line@.subrange(lo as int, n as int)),
        decreases n - lo,
    {
        assert(line@.subrange(lo as int, n as int).subrange(k as int, n - lo) =~= line@.subrange(
            lo + k,
            n as int,
        ));
        lo = lo + k;
        k = leading_space_len_exec(line, lo, n);
    }
    let ghost u = line@.subrange(lo as int, n as int);
    assert(trim_start(v) == u);
    let mut hi: usize = n;
    let mut k = trailing_space_len_exec(line, lo, hi);
    while k > 0
        invariant
            lo <= hi <= n == line@.len(),
            u == line@.subrange(lo as int, n as int),
            k == trailing_space_len(line@.subrange(lo as int, hi as int)),
            k <= hi - lo,
            trim_end(u) == trim_end(line@.subrange(lo as int, hi as int)),
        decreases hi,
    {
        assert(line@.subrange(lo as int, hi as int).subrange(0, hi - lo - k) =~= line@.subrange(
            lo as int,
            hi - k,
        ));
        hi = hi - k;
        k = trailing_space_len_exec(line, lo, hi);
    }
    parse_u64_bytes(slice_subrange(line, lo, hi))
}

fn is_space3_exec(a: u8, b: u8, c: u8) -> (r: bool)
    ensures
        r == is_space3(a, b, c),
{
    (a == 0xE1u8 && b == 0x9Au8 && c == 0x80u8) || (a == 0xE2u8 && b == 0x80u8 && ((0x80u8 <= c
        && c <= 0x8Au8) || c == 0xA8u8 || c == 0xA9u8 || c == 0xAFu8)) || (a == 0xE2u8 && b
        == 0x81u8 && c == 0x9Fu8) || (a == 0xE3u8 && b == 0x80u8 && c == 0x80u8)
}

fn leading_space_len_exec(t: &[u8], lo: usize, hi: usize) -> (k: usize)
    requires
        lo <= hi <= t@.len(),
    ensures
        k == leading_space_len(t@.subrange(lo as int, hi as int)),
        k <= hi - lo,
{
    let ghost s = t@.subrange(lo as int, hi as int);
    let n = hi - lo;
    if n >= 1 && (t[lo] == 32u8 || (9u8 <= t[lo] && t[lo] <= 13u8)) {
        assert(s[0] == t@[lo as int]);
        1
    } else if n >= 2 && t[lo] == 0xC2u8 && (t[lo + 1] == 0x85u8 || t[lo + 1] == 0xA0u8) {
        assert(s[0] == t@[lo as int] && s[1] == t@[lo + 1]);
        2
    } else if n >= 3 && is_space3_exec(t[lo], t[lo + 1], t[lo + 2]) {
        assert(s[0] == t@[lo as int] && s[1] == t@[lo + 1] && s[2] == t@[lo + 2]);
        3
    } else {
        if n >= 1 {
            assert(s[0] == t@[lo as int]);
        }
        if n >= 2 {
            assert(s[1] == t@[lo + 1]);
        }
        if n >= 3 {
            assert(s[2] == t@[lo + 2]);
        }
        0
    }
}

fn trailing_space_len_exec(t: &[u8], lo: usize, hi: usize) -> (k: usize)
    requires
        lo <= hi <= t@.len(),
    ensures
        k == trailing_space_len(t@.subrange(lo as int, hi as int)),
        k <= hi - lo,
{
    let ghost s = t@.subrange(lo as int, hi as int);
    let ghost m = s.len() as int;
    let n = hi - lo;
    if n >= 1 {
        assert(s[m - 1] == t@[hi - 1]);
    }
    if n >= 2 {
        assert(s[m - 2] == t@[hi - 2]);
    }
    if n >= 3 {
        assert(s[m - 3] == t@[hi - 3]);
    }
    if n >= 1 && (t[hi - 1] == 32u8 || (9u8 <= t[hi - 1] && t[hi - 1] <= 13u8)) {
        1
    } else if n >= 2 && t[hi - 2] == 0xC2u8 && (t[hi - 1] == 0x85u8 || t[hi - 1] == 0xA0u8) {
        2
    } else if n >= 3 && is_space3_exec(t[hi - 3], t[hi - 2], t[hi - 1]) {
        3
    } else {
        0
    }
}

/// Idle seconds from the output of `ioreg -c IOHIDSystem`: the first line
/// that reports the idle time decides, in whole seconds; 0 where no line does.
pub fn idle_seconds_from_ioreg(out: &str) -> (r: u64)
    ensures
        r == ioreg_idle_seconds(out.spec_bytes()),
{
    let t = out.as_bytes();
    let n = t.len();
    let mut p: usize = 0;
    while p < n
        invariant
            n == t@.len(),
            t@ == out.spec_bytes(),
            p <= n,
            idle_ns_from(t@, 0) == idle_ns_from(t@, p as int),
        decreases n - p,
    {
        let mut e: usize = p;
        while e < n && t[e] != 10u8
            invariant
                p <= e <= n == t@.len(),
                p + line_len(t@, p as int) == e + line_len(t@, e as int),
            decreases n - e,
        {
            e = e + 1;
        }
        proof {
            lemma_line_len_bound(t@, p as int);
            assert(line_len(t@, e as int) == 0);
            assert(line_len(t@, p as int) == e - p);
        }
        match line_idle_ns_exec(slice_subrange(t, p, e)) {
            Some(ns) => {
                assert(idle_ns_from(t@, p as int) == Some(ns));
                return ns / 1_000_000_000;
            },
            None => {},
        }
        if e >= n {
            return 0;
        }
        p = e + 1;
    }
    0
}

} // verus!
