//! Reading of plain-text system reports: lines, whitespace-separated fields
//! and decimal integers, as Rust's `str::lines`, `str::split_whitespace`,
//! `str::trim_start` and the integer `FromStr` implementations define them.

use vstd::prelude::*;
use vstd::string::*;

verus! {

// ---------------------------------------------------------------------------
// Specification
// ---------------------------------------------------------------------------

/// Unicode `White_Space`.
pub open spec fn is_ws(c: char) -> bool {
    let u = c as u32;
    u == 0x20 || (0x09 <= u && u <= 0x0d) || u == 0x85 || u == 0xa0 || u == 0x1680 || (0x2000 <= u && u <= 0x200a)
        || u == 0x2028 || u == 0x2029 || u == 0x202f || u == 0x205f || u == 0x3000
}

/// Fields of `s` after the current field `cur`: maximal runs of
/// non-whitespace characters.
pub open spec fn fields_from(s: Seq<char>, cur: Seq<char>) -> Seq<Seq<char>>
    decreases s.len(),
{
    if s.len() == 0 {
        if cur.len() > 0 { seq![cur] } else { seq![] }
    } else if is_ws(s[0]) {
        (if cur.len() > 0 { seq![cur] } else { seq![] }) + fields_from(s.drop_first(), seq![])
    } else {
        fields_from(s.drop_first(), cur.push(s[0]))
    }
}

/// Whitespace-separated fields of `s`.
pub open spec fn fields(s: Seq<char>) -> Seq<Seq<char>> {
    fields_from(s, seq![])
}

/// A line without the carriage return of its `\r\n` ending.
pub open spec fn strip_cr(l: Seq<char>) -> Seq<char> {
    if l.len() > 0 && l.last() == '\r' { l.drop_last() } else { l }
}

/// Lines of `s` after the current line `cur`.
pub open spec fn lines_from(s: Seq<char>, cur: Seq<char>) -> Seq<Seq<char>>
    decreases s.len(),
{
    if s.len() == 0 {
        if cur.len() > 0 { seq![cur] } else { seq![] }
    } else if s[0] == '\n' {
        seq![strip_cr(cur)] + lines_from(s.drop_first(), seq![])
    } else {
        lines_from(s.drop_first(), cur.push(s[0]))
    }
}

/// Lines of `s`, split at `\n` or `\r\n`; a final line ending is optional.
pub open spec fn lines(s: Seq<char>) -> Seq<Seq<char>> {
    lines_from(s, seq![])
}

/// `s` without its leading whitespace.
pub open spec fn trim_start(s: Seq<char>) -> Seq<char>
    decreases s.len(),
{
    if s.len() > 0 && is_ws(s[0]) { trim_start(s.drop_first()) } else { s }
}

/// `s` without its trailing whitespace.
pub open spec fn trim_end(s: Seq<char>) -> Seq<char>
    decreases s.len(),
{
    if s.len() > 0 && is_ws(s.last()) { trim_end(s.drop_last()) } else { s }
}

/// `s` without leading and trailing whitespace (`str::trim`).
pub open spec fn trim(s: Seq<char>) -> Seq<char> {
    trim_end(trim_start(s))
}

/// `s` without its trailing dots.
pub open spec fn trim_end_dots(s: Seq<char>) -> Seq<char>
    decreases s.len(),
{
    if s.len() > 0 && s.last() == '.' { trim_end_dots(s.drop_last()) } else { s }
}

/// `s` begins with `p`.
pub open spec fn starts_with(s: Seq<char>, p: Seq<char>) -> bool {
    p.len() <= s.len() && s.take(p.len() as int) == p
}

/// `p` occurs in `s`.
pub open spec fn contains(s: Seq<char>, p: Seq<char>) -> bool {
    exists|i: int| 0 <= i && i + p.len() <= s.len() && #[trigger] s.subrange(i, i + p.len()) == p
}

pub open spec fn is_digit(c: char) -> bool {
    '0' <= c && c <= '9'
}

pub open spec fn all_digits(s: Seq<char>) -> bool {
    forall|i: int| 0 <= i < s.len() ==> is_digit(#[trigger] s[i])
}

/// Value of a run of decimal digits.
pub open spec fn digits_value(s: Seq<char>) -> int
    decreases s.len(),
{
    if s.len() == 0 { 0 } else { digits_value(s.drop_last()) * 10 + ((s.last() as int) - ('0' as int)) }
}

/// `i32::from_str`: an optional `+` or `-` followed by one or more decimal
/// digits, whose value fits.
pub open spec fn spec_parse_i32(s: Seq<char>) -> Option<i32> {
    let signed = s.len() > 0 && (s[0] == '-' || s[0] == '+');
    let body = if signed { s.drop_first() } else { s };
    let v = if s.len() > 0 && s[0] == '-' { -digits_value(body) } else { digits_value(body) };
    if body.len() > 0 && all_digits(body) && i32::MIN <= v && v <= i32::MAX {
        Some(v as i32)
    } else {
        None
    }
}

/// `u64::from_str`: an optional `+` followed by one or more decimal digits,
/// whose value fits.
pub open spec fn spec_parse_u64(s: Seq<char>) -> Option<u64> {
    let body = if s.len() > 0 && s[0] == '+' { s.drop_first() } else { s };
    if body.len() > 0 && all_digits(body) && digits_value(body) <= u64::MAX {
        Some(digits_value(body) as u64)
    } else {
        None
    }
}

// ---------------------------------------------------------------------------
// Lemmas
// ---------------------------------------------------------------------------

/// A run of digits is worth at least any of its prefixes.
pub proof fn lemma_digits_value_prefix(s: Seq<char>, k: int)
    requires
        all_digits(s),
        0 <= k <= s.len(),
    ensures
        digits_value(s.take(k)) <= digits_value(s),
        0 <= digits_value(s.take(k)),
    decreases s.len(),
{
    if k < s.len() {
        let p = s.drop_last();
        assert(all_digits(p)) by {
            assert forall|i: int| 0 <= i < p.len() implies is_digit(#[trigger] p[i]) by {
                assert(p[i] == s[i]);
            }
        }
        lemma_digits_value_prefix(p, k);
        assert(p.take(k) =~= s.take(k));
        lemma_digits_value_prefix(p, p.len() as int);
        assert(p.take(p.len() as int) =~= p);
        assert(is_digit(s[s.len() - 1]));
    } else {
        assert(s.take(k) =~= s);
        if s.len() > 0 {
            let p = s.drop_last();
            assert(all_digits(p)) by {
                assert forall|i: int| 0 <= i < p.len() implies is_digit(#[trigger] p[i]) by {
                    assert(p[i] == s[i]);
                }
            }
            lemma_digits_value_prefix(p, p.len() as int);
            assert(p.take(p.len() as int) =~= p);
            assert(is_digit(s[s.len() - 1]));
        }
    }
}

// ---------------------------------------------------------------------------
// Executable
// ---------------------------------------------------------------------------

/// Characters of `s`.
pub fn chars_of(s: &str) -> (r: Vec<char>)
    ensures
        r@ == s@,
{
    let n = s.unicode_len();
    let mut out: Vec<char> = Vec::new();
    let mut i: usize = 0;
    while i < n
        invariant
            n == s@.len(),
            i <= n,
            out@ == s@.take(i as int),
        decreases n - i,
    {
        let c = s.get_char(i);
        out.push(c);
        proof {
            assert(s@.take(i as int + 1) =~= s@.take(i as int).push(c));
        }
        i = i + 1;
    }
    proof {
        assert(s@.take(n as int) =~= s@);
    }
    out
}

/// Whether `c` is Unicode whitespace.
pub fn is_whitespace(c: char) -> (r: bool)
    ensures
        r == is_ws(c),
{
    let u = c as u32;
    u == 0x20 || (0x09 <= u && u <= 0x0d) || u == 0x85 || u == 0xa0 || u == 0x1680 || (0x2000 <= u && u <= 0x200a)
        || u == 0x2028 || u == 0x2029 || u == 0x202f || u == 0x205f || u == 0x3000
}

/// A copy of `v`.
fn copy_chars(v: &Vec<char>) -> (r: Vec<char>)
    ensures
        r@ == v@,
{
    let mut out: Vec<char> = Vec::new();
    let mut i: usize = 0;
    while i < v.len()
        invariant
            i <= v@.len(),
            out@ == v@.take(i as int),
        decreases v@.len() - i,
    {
        out.push(v[i]);
        proof {
            assert(v@.take(i as int + 1) =~= v@.take(i as int).push(v@[i as int]));
        }
        i = i + 1;
    }
    proof {
        assert(v@.take(v@.len() as int) =~= v@);
    }
    out
}

/// Whitespace-separated fields of `s`.
pub fn split_fields(s: &Vec<char>) -> (r: Vec<Vec<char>>)
    ensures
        r@.len() == fields(s@).len(),
        forall|i: int| 0 <= i < r@.len() ==> (#[trigger] r@[i])@ == fields(s@)[i],
{
    let mut out: Vec<Vec<char>> = Vec::new();
    let ghost out_view: Seq<Seq<char>> = seq![];
    let mut cur: Vec<char> = Vec::new();
    let mut i: usize = 0;
    proof {
        assert(s@.skip(0) =~= s@);
    }
    while i < s.len()
        invariant
            i <= s@.len(),
            out@.len() == out_view.len(),
            forall|j: int| 0 <= j < out@.len() ==> (#[trigger] out@[j])@ == out_view[j],
            out_view + fields_from(s@.skip(i as int), cur@) == fields(s@),
        decreases s@.len() - i,
    {
        let c = s[i];
        proof {
            assert(s@.skip(i as int).drop_first() =~= s@.skip(i as int + 1));
            assert(s@.skip(i as int)[0] == c);
        }
        if is_whitespace(c) {
            if cur.len() > 0 {
                let done = copy_chars(&cur);
                proof {
                    assert(out_view + seq![cur@] + fields_from(s@.skip(i as int + 1), seq![]) =~= fields(s@));
                    out_view = out_view.push(cur@);
                }
                out.push(done);
            } else {
                proof {
                    assert(out_view + fields_from(s@.skip(i as int + 1), seq![]) =~= fields(s@));
                }
            }
            cur = Vec::new();
        } else {
            cur.push(c);
        }
        i = i + 1;
    }
    proof {
        assert(s@.skip(i as int).len() == 0);
    }
    if cur.len() > 0 {
        proof {
            assert(out_view + seq![cur@] =~= fields(s@));
            out_view = out_view.push(cur@);
        }
        out.push(cur);
    } else {
        proof {
            assert(out_view =~= fields(s@));
        }
    }
    out
}

/// Lines of `s`.
pub fn split_lines(s: &Vec<char>) -> (r: Vec<Vec<char>>)
    ensures
        r@.len() == lines(s@).len(),
        forall|i: int| 0 <= i < r@.len() ==> (#[trigger] r@[i])@ == lines(s@)[i],
{
    let mut out: Vec<Vec<char>> = Vec::new();
    let ghost out_view: Seq<Seq<char>> = seq![];
    let mut cur: Vec<char> = Vec::new();
    let mut i: usize = 0;
    proof {
        assert(s@.skip(0) =~= s@);
    }
    while i < s.len()
        invariant
            i <= s@.len(),
            out@.len() == out_view.len(),
            forall|j: int| 0 <= j < out@.len() ==> (#[trigger] out@[j])@ == out_view[j],
            out_view + lines_from(s@.skip(i as int), cur@) == lines(s@),
        decreases s@.len() - i,
    {
        let c = s[i];
        proof {
            assert(s@.skip(i as int).drop_first() =~= s@.skip(i as int + 1));
            assert(s@.skip(i as int)[0] == c);
        }
        if c == '\n' {
            let n = cur.len();
            if n > 0 && cur[n - 1] == '\r' {
                cur.pop();
            }
            proof {
                assert(out_view + seq![cur@] + lines_from(s@.skip(i as int + 1), seq![]) =~= lines(s@));
                out_view = out_view.push(cur@);
            }
            out.push(cur);
            cur = Vec::new();
        } else {
            cur.push(c);
        }
        i = i + 1;
    }
    proof {
        assert(s@.skip(i as int).len() == 0);
    }
    if cur.len() > 0 {
        proof {
            assert(out_view + seq![cur@] =~= lines(s@));
            out_view = out_view.push(cur@);
        }
        out.push(cur);
    } else {
        proof {
            assert(out_view =~= lines(s@));
        }
    }
    out
}

/// `s` without its leading whitespace.
pub fn trim_start_chars(s: &Vec<char>) -> (r: Vec<char>)
    ensures
        r@ == trim_start(s@),
{
    let mut i: usize = 0;
    proof {
        assert(s@.skip(0) =~= s@);
    }
    while i < s.len() && is_whitespace(s[i])
        invariant
            i <= s@.len(),
            trim_start(s@.skip(i as int)) == trim_start(s@),
        decreases s@.len() - i,
    {
        proof {
            assert(s@.skip(i as int).drop_first() =~= s@.skip(i as int + 1));
        }
        i = i + 1;
    }
    let mut out: Vec<char> = Vec::new();
    let mut j: usize = i;
    while j < s.len()
        invariant
            i <= j <= s@.len(),
            out@ == s@.subrange(i as int, j as int),
        decreases s@.len() - j,
    {
        out.push(s[j]);
        proof {
            assert(s@.subrange(i as int, j as int + 1) =~= s@.subrange(i as int, j as int).push(s@[j as int]));
        }
        j = j + 1;
    }
    proof {
        assert(s@.subrange(i as int, s@.len() as int) =~= s@.skip(i as int));
    }
    out
}

/// `s` without its trailing dots.
pub fn trim_end_dots_chars(s: &Vec<char>) -> (r: Vec<char>)
    ensures
        r@ == trim_end_dots(s@),
{
    let mut out = copy_chars(s);
    while out.len() > 0 && out[out.len() - 1] == '.'
        invariant
            trim_end_dots(out@) == trim_end_dots(s@),
        decreases out@.len(),
    {
        out.pop();
    }
    out
}

/// Whether `s` begins with `p`.
pub fn starts_with_chars(s: &Vec<char>, p: &str) -> (r: bool)
    ensures
        r == starts_with(s@, p@),
{
    let pc = chars_of(p);
    if pc.len() > s.len() {
        return false;
    }
    let mut i: usize = 0;
    while i < pc.len()
        invariant
            pc@ == p@,
            pc@.len() <= s@.len(),
            i <= pc@.len(),
            s@.take(i as int) == pc@.take(i as int),
        decreases pc@.len() - i,
    {
        if s[i] != pc[i] {
            proof {
                assert(s@.take(pc@.len() as int)[i as int] != pc@[i as int]);
            }
            return false;
        }
        proof {
            assert(s@.take(i as int + 1) =~= s@.take(i as int).push(s@[i as int]));
            assert(pc@.take(i as int + 1) =~= pc@.take(i as int).push(pc@[i as int]));
        }
        i = i + 1;
    }
    proof {
        assert(pc@.take(pc@.len() as int) =~= pc@);
    }
    true
}

/// Whether `p` occurs in `s` at position `i`.
fn occurs_at(s: &Vec<char>, p: &Vec<char>, i: usize) -> (r: bool)
    requires
        i + p@.len() <= s@.len(),
    ensures
        r == (s@.subrange(i as int, i + p@.len()) == p@),
{
    let n = s.len();
    let mut k: usize = 0;
    while k < p.len()
        invariant
            n == s@.len(),
            i + p@.len() <= s@.len(),
            k <= p@.len(),
            forall|m: int| 0 <= m < k ==> s@[i + m] == p@[m],
        decreases p@.len() - k,
    {
        if s[i + k] != p[k] {
            proof {
                assert(s@.subrange(i as int, i + p@.len())[k as int] != p@[k as int]);
            }
            return false;
        }
        k = k + 1;
    }
    proof {
        assert(s@.subrange(i as int, i + p@.len()) =~= p@);
    }
    true
}

/// Whether `p` occurs in `s`.
pub fn contains_chars(s: &Vec<char>, p: &str) -> (r: bool)
    ensures
        r == contains(s@, p@),
{
    let pc = chars_of(p);
    if pc.len() > s.len() {
        return false;
    }
    if pc.len() == 0 {
        proof {
            assert(s@.subrange(0int, 0int + p@.len()) =~= p@);
        }
        return true;
    }
    let n = s.len();
    let last = n - pc.len();
    let mut i: usize = 0;
    while i < last + 1
        invariant
            pc@ == p@,
            pc@.len() >= 1,
            n == s@.len(),
            last == s@.len() - pc@.len(),
            i <= last + 1,
            forall|j: int| 0 <= j < i ==> #[trigger] s@.subrange(j, j + pc@.len()) != pc@,
        decreases last + 1 - i,
    {
        if occurs_at(s, &pc, i) {
            return true;
        }
        i = i + 1;
    }
    proof {
        assert forall|j: int| 0 <= j && j + p@.len() <= s@.len() implies #[trigger] s@.subrange(j, j + p@.len()) != p@ by {
            assert(j <= last);
        }
    }
    false
}

/// `i32::from_str` on the characters of `s`.
pub fn parse_i32(s: &Vec<char>) -> (r: Option<i32>)
    ensures
        r == spec_parse_i32(s@),
{
    let n = s.len();
    if n == 0 {
        return None;
    }
    let mut start: usize = 0;
    let mut neg = false;
    if s[0] == '-' {
        neg = true;
        start = 1;
    } else if s[0] == '+' {
        start = 1;
    }
    let ghost body = if start == 1 { s@.drop_first() } else { s@ };
    proof {
        assert(s@.subrange(start as int, n as int) =~= body);
    }
    if start == n {
        return None;
    }
    let mut acc: i64 = 0;
    let mut i: usize = start;
    proof {
        assert(s@.subrange(start as int, start as int) =~= Seq::<char>::empty());
    }
    while i < n
        invariant
            n == s@.len(),
            n > 0,
            start <= i <= n,
            body == (if s@[0] == '-' || s@[0] == '+' { s@.drop_first() } else { s@ }),
            neg == (s@[0] == '-'),
            body == s@.subrange(start as int, n as int),
            acc == digits_value(s@.subrange(start as int, i as int)),
            0 <= acc <= 2147483648,
            all_digits(s@.subrange(start as int, i as int)),
        decreases n - i,
    {
        let c = s[i];
        if !('0' <= c && c <= '9') {
            proof {
                assert(body[i - start] == c);
                assert(!is_digit(body[i - start]));
                assert(!all_digits(body));
            }
            return None;
        }
        let d = (c as u32 - '0' as u32) as i64;
        proof {
            let pre = s@.subrange(start as int, i as int + 1);
            assert(pre.drop_last() =~= s@.subrange(start as int, i as int));
            assert(pre.last() == c);
            assert(digits_value(pre) == digits_value(pre.drop_last()) * 10 + ((c as int) - ('0' as int)));
            assert(d == (c as int) - ('0' as int));
            assert(all_digits(pre)) by {
                assert forall|m: int| 0 <= m < pre.len() implies is_digit(#[trigger] pre[m]) by {
                    if m < pre.len() - 1 {
                        assert(pre[m] == s@.subrange(start as int, i as int)[m]);
                    }
                }
            }
        }
        acc = acc * 10 + d;
        if acc > 2147483648 {
            proof {
                let pre = s@.subrange(start as int, i as int + 1);
                assert(acc == digits_value(pre));
                if all_digits(body) {
                    assert(body.take(pre.len() as int) =~= pre);
                    lemma_digits_value_prefix(body, pre.len() as int);
                    assert(digits_value(body) >= acc);
                }
            }
            return None;
        }
        i = i + 1;
    }
    let v: i64 = if neg { -acc } else { acc };
    proof {
        assert(s@.subrange(start as int, n as int) =~= body);
    }
    if v > 2147483647 {
        return None;
    }
    Some(v as i32)
}

/// `u64::from_str` on the characters of `s`.
pub fn parse_u64(s: &Vec<char>) -> (r: Option<u64>)
    ensures
        r == spec_parse_u64(s@),
{
    let n = s.len();
    if n == 0 {
        return None;
    }
    let start: usize = if s[0] == '+' { 1 } else { 0 };
    let ghost body = if start == 1 { s@.drop_first() } else { s@ };
    proof {
        assert(s@.subrange(start as int, n as int) =~= body);
    }
    if start == n {
        return None;
    }
    let mut acc: u128 = 0;
    let mut i: usize = start;
    proof {
        assert(s@.subrange(start as int, start as int) =~= Seq::<char>::empty());
    }
    while i < n
        invariant
            n == s@.len(),
            n > 0,
            start <= i <= n,
            body == (if s@[0] == '+' { s@.drop_first() } else { s@ }),
            body == s@.subrange(start as int, n as int),
            acc == digits_value(s@.subrange(start as int, i as int)),
            acc <= u64::MAX,
            all_digits(s@.subrange(start as int, i as int)),
        decreases n - i,
    {
        let c = s[i];
        if !('0' <= c && c <= '9') {
            proof {
                assert(body[i - start] == c);
                assert(!is_digit(body[i - start]));
                assert(!all_digits(body));
            }
            return None;
        }
        let d = (c as u32 - '0' as u32) as u128;
        proof {
            let pre = s@.subrange(start as int, i as int + 1);
            assert(pre.drop_last() =~= s@.subrange(start as int, i as int));
            assert(pre.last() == c);
            assert(digits_value(pre) == digits_value(pre.drop_last()) * 10 + ((c as int) - ('0' as int)));
            assert(d == (c as int) - ('0' as int));
            assert(all_digits(pre)) by {
                assert forall|m: int| 0 <= m < pre.len() implies is_digit(#[trigger] pre[m]) by {
                    if m < pre.len() - 1 {
                        assert(pre[m] == s@.subrange(start as int, i as int)[m]);
                    }
                }
            }
        }
        acc = acc * 10 + d;
        if acc > 18446744073709551615 {
            proof {
                let pre = s@.subrange(start as int, i as int + 1);
                assert(acc == digits_value(pre));
                if all_digits(body) {
                    assert(body.take(pre.len() as int) =~= pre);
                    lemma_digits_value_prefix(body, pre.len() as int);
                    assert(digits_value(body) >= acc);
                }
            }
            return None;
        }
        i = i + 1;
    }
    Some(acc as u64)
}


/// `s` without leading and trailing whitespace.
pub fn trim_str(s: &str) -> (r: String)
    ensures
        r@ == trim(s@),
{
    let n = s.unicode_len();
    let mut i: usize = 0;
    proof {
        assert(s@.skip(0) =~= s@);
    }
    while i < n && is_whitespace(s.get_char(i))
        invariant
            n == s@.len(),
            i <= n,
            trim_start(s@.skip(i as int)) == trim_start(s@),
        decreases n - i,
    {
        proof {
            assert(s@.skip(i as int).drop_first() =~= s@.skip(i as int + 1));
        }
        i = i + 1;
    }
    proof {
        if i < n {
            assert(s@.skip(i as int)[0] == s@[i as int]);
        }
        assert(trim_start(s@) == s@.skip(i as int));
    }
    let mut j: usize = n;
    proof {
        assert(s@.skip(i as int).take((n - i) as int) =~= s@.skip(i as int));
    }
    while j > i && is_whitespace(s.get_char(j - 1))
        invariant
            n == s@.len(),
            i <= j <= n,
            trim_end(s@.skip(i as int).take((j - i) as int)) == trim(s@),
        decreases j,
    {
        proof {
            let t = s@.skip(i as int).take((j - i) as int);
            assert(t.last() == s@[j - 1]);
            assert(t.drop_last() =~= s@.skip(i as int).take((j - 1 - i) as int));
        }
        j = j - 1;
    }
    let r = String::from_str(s.substring_char(i, j));
    proof {
        let t = s@.skip(i as int).take((j - i) as int);
        if j > i {
            assert(t.last() == s@[j - 1]);
        }
        assert(s@.subrange(i as int, j as int) =~= t);
    }
    r
}

} // verus!
