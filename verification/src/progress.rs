//! Progress monitor: parses the raw line feed of the external fetch tool
//! into absolute progress positions, in hundredths of a percent.

use vstd::prelude::*;
use vstd::string::*;

verus! {

/// The whitespace characters the tolerant split recognizes.
pub open spec fn sp_is_space(c: char) -> bool {
    c == ' ' || c == '\t' || c == '\n' || c == '\r' || c == '\x0c'
}

fn is_space(c: char) -> (r: bool)
    ensures
        r == sp_is_space(c),
{
    c == ' ' || c == '\t' || c == '\n' || c == '\r' || c == '\x0c'
}

/// Whether the text holds nothing but whitespace.
pub open spec fn sp_is_blank(s: Seq<char>) -> bool {
    forall|i: int| 0 <= i < s.len() ==> sp_is_space(#[trigger] s[i])
}

/// Whether the text holds nothing but whitespace — an empty or blank tool
/// output carries no document at all.
pub fn is_blank(s: &str) -> (r: bool)
    ensures
        r == sp_is_blank(s@),
{
    let n = s.unicode_len();
    let mut i: usize = 0;
    while i < n
        invariant
            n == s@.len(),
            i <= n,
            forall|j: int| 0 <= j < i ==> sp_is_space(#[trigger] s@[j]),
        decreases n - i,
    {
        if !is_space(s.get_char(i)) {
            return false;
        }
        i = i + 1;
    }
    true
}

/// Whitespace split with an explicit accumulator for the token being read.
pub open spec fn sp_split_acc(s: Seq<char>, cur: Seq<char>) -> Seq<Seq<char>>
    decreases s.len(),
{
    if s.len() == 0 {
        if cur.len() == 0 {
            Seq::empty()
        } else {
            seq![cur]
        }
    } else if sp_is_space(s[0]) {
        if cur.len() == 0 {
            sp_split_acc(s.drop_first(), Seq::empty())
        } else {
            seq![cur] + sp_split_acc(s.drop_first(), Seq::empty())
        }
    } else {
        sp_split_acc(s.drop_first(), cur.push(s[0]))
    }
}

/// The whitespace-separated tokens of `s`, in order, each nonempty.
pub open spec fn sp_split_ws(s: Seq<char>) -> Seq<Seq<char>> {
    sp_split_acc(s, Seq::empty())
}

/// Splits a line at whitespace into its tokens.
pub fn split_ws(s: &str) -> (r: Vec<String>)
    ensures
        r.deep_view() == sp_split_ws(s@),
{
    let n = s.unicode_len();
    let mut out: Vec<String> = Vec::new();
    let mut cur: String = String::new();
    let mut i: usize = 0;
    proof {
        assert(s@.skip(0) =~= s@);
        assert(out.deep_view() + sp_split_acc(s@, cur@) =~~= sp_split_ws(s@));
    }
    while i < n
        invariant
            n == s@.len(),
            i <= n,
            sp_split_ws(s@) == out.deep_view() + sp_split_acc(s@.skip(i as int), cur@),
        decreases n - i,
    {
        proof {
            assert(s@.skip(i as int).drop_first() =~= s@.skip(i as int + 1));
            assert(s@.skip(i as int)[0] == s@[i as int]);
        }
        let c = s.get_char(i);
        if is_space(c) {
            if cur.unicode_len() > 0 {
                let ghost out_old = out.deep_view();
                let ghost cur_v = cur@;
                out.push(cur);
                cur = String::new();
                proof {
                    assert(sp_split_acc(s@.skip(i as int), cur_v)
                        == seq![cur_v] + sp_split_acc(s@.skip(i as int + 1), Seq::empty()));
                    assert(out.deep_view() =~~= out_old.push(cur_v));
                    assert(out_old + (seq![cur_v] + sp_split_acc(s@.skip(i as int + 1), Seq::empty()))
                        =~~= out.deep_view() + sp_split_acc(s@.skip(i as int + 1), cur@));
                }
            } else {
                proof {
                    assert(cur@ =~= Seq::<char>::empty());
                    assert(sp_split_acc(s@.skip(i as int), cur@)
                        == sp_split_acc(s@.skip(i as int + 1), Seq::empty()));
                }
            }
        } else {
            let ghost cur_old = cur@;
            cur.append(s.substring_char(i, i + 1));
            proof {
                assert(s@.subrange(i as int, i as int + 1) =~= seq![s@[i as int]]);
                assert(cur@ =~= cur_old.push(s@[i as int]));
            }
        }
        i = i + 1;
    }
    proof {
        assert(s@.skip(n as int) =~= Seq::<char>::empty());
    }
    if cur.unicode_len() > 0 {
        let ghost out_old = out.deep_view();
        let ghost cur_v = cur@;
        out.push(cur);
        proof {
            assert(out.deep_view() =~~= out_old.push(cur_v));
            assert(out.deep_view() =~~= out_old + seq![cur_v]);
        }
    } else {
        proof {
            assert(out.deep_view() + Seq::<Seq<char>>::empty() =~~= out.deep_view());
        }
    }
    out
}

/// `s` with every trailing percent sign removed.
pub open spec fn sp_strip_percent(s: Seq<char>) -> Seq<char>
    decreases s.len(),
{
    if s.len() > 0 && s.last() == '%' {
        sp_strip_percent(s.drop_last())
    } else {
        s
    }
}

/// Strips all trailing percent signs.
fn strip_percent<'a>(s: &'a str) -> (r: &'a str)
    ensures
        r@ == sp_strip_percent(s@),
{
    let n = s.unicode_len();
    let mut end: usize = n;
    proof {
        assert(s@.take(n as int) =~= s@);
    }
    while end > 0 && s.get_char(end - 1) == '%'
        invariant
            n == s@.len(),
            end <= n,
            sp_strip_percent(s@) == sp_strip_percent(s@.take(end as int)),
        decreases end,
    {
        proof {
            assert(s@.take(end as int).last() == s@[end - 1]);
            assert(s@.take(end as int).drop_last() =~= s@.take(end as int - 1));
        }
        end = end - 1;
    }
    proof {
        assert(s@.take(n as int) =~= s@);
        if end > 0 {
            assert(s@.take(end as int).last() == s@[end - 1]);
        }
    }
    s.substring_char(0, end)
}

/// Decimal digits, by code point.
pub open spec fn sp_is_digit(c: char) -> bool {
    48 <= c as u32 && c as u32 <= 57
}

/// The numeric value of one digit character.
pub open spec fn sp_digit_val(c: char) -> int {
    c as u32 - 48
}

fn is_digit(c: char) -> (r: bool)
    ensures
        r == sp_is_digit(c),
{
    let u = c as u32;
    48 <= u && u <= 57
}

pub open spec fn sp_all_digits(s: Seq<char>) -> bool {
    forall|i: int| 0 <= i < s.len() ==> sp_is_digit(#[trigger] s[i])
}

/// The value of a digit string read in base ten.
pub open spec fn sp_digits_val(s: Seq<char>) -> int
    decreases s.len(),
{
    if s.len() == 0 {
        0
    } else {
        sp_digits_val(s.drop_last()) * 10 + sp_digit_val(s.last())
    }
}

/// Powers of ten.
pub open spec fn sp_pow10(n: nat) -> int
    decreases n,
{
    if n == 0 {
        1
    } else {
        10 * sp_pow10((n - 1) as nat)
    }
}

proof fn lemma_digits_val_bound(s: Seq<char>)
    requires
        sp_all_digits(s),
    ensures
        0 <= sp_digits_val(s) < sp_pow10(s.len()),
    decreases s.len(),
{
    if s.len() > 0 {
        assert(sp_all_digits(s.drop_last()));
        lemma_digits_val_bound(s.drop_last());
        assert(0 <= sp_digit_val(s.last()) <= 9);
    }
}

/// The index of the first `.` in `s`, or `s.len()` when there is none.
pub open spec fn sp_dot_pos(s: Seq<char>) -> int
    decreases s.len(),
{
    if s.len() == 0 {
        0
    } else if s[0] == '.' {
        0
    } else {
        1 + sp_dot_pos(s.drop_first())
    }
}

proof fn lemma_dot_pos_range(s: Seq<char>)
    ensures
        0 <= sp_dot_pos(s) <= s.len(),
    decreases s.len(),
{
    if s.len() > 0 && s[0] != '.' {
        lemma_dot_pos_range(s.drop_first());
    }
}

/// The integer-part digits of a decimal numeral: everything before the
/// first dot.
pub open spec fn sp_int_part(s: Seq<char>) -> Seq<char> {
    s.take(sp_dot_pos(s))
}

/// The fraction digits: everything after the first dot.
pub open spec fn sp_frac_part(s: Seq<char>) -> Seq<char> {
    if sp_dot_pos(s) < s.len() {
        s.skip(sp_dot_pos(s) + 1)
    } else {
        Seq::empty()
    }
}

/// A decimal numeral: digits, at most one dot, and at least one digit.
pub open spec fn sp_valid_decimal(s: Seq<char>) -> bool {
    &&& sp_all_digits(sp_int_part(s))
    &&& sp_all_digits(sp_frac_part(s))
    &&& sp_int_part(s).len() + sp_frac_part(s).len() >= 1
}

/// The numeral's value in hundredths, truncated past the second fraction
/// digit.
pub open spec fn sp_decimal_hundredths(s: Seq<char>) -> int {
    sp_digits_val(sp_int_part(s)) * 100 + sp_frac_hundredths(sp_frac_part(s))
}

pub open spec fn sp_frac_hundredths(fp: Seq<char>) -> int {
    if fp.len() == 0 {
        0
    } else if fp.len() == 1 {
        sp_digit_val(fp[0]) * 10
    } else {
        sp_digit_val(fp[0]) * 10 + sp_digit_val(fp[1])
    }
}

/// Integer-part digit strings longer than this are rejected rather than
/// overflowed.
pub open spec fn sp_int_digits_max() -> int {
    17
}

/// What one percent token yields: the value in hundredths for a decimal
/// numeral whose integer part is short enough to fit, nothing otherwise.
pub open spec fn sp_parse_token(t: Seq<char>) -> Option<u64> {
    let u = sp_strip_percent(t);
    if sp_valid_decimal(u) && sp_int_part(u).len() <= sp_int_digits_max() {
        Some(sp_decimal_hundredths(u) as u64)
    } else {
        None
    }
}

/// What a whole line yields: exactly two whitespace-separated fields, the
/// second a percent token.
pub open spec fn sp_parse_progress(l: Seq<char>) -> Option<u64> {
    let toks = sp_split_ws(l);
    if toks.len() != 2 {
        None
    } else {
        sp_parse_token(toks[1])
    }
}

/// Parses one percent token stripped of trailing percent signs.
fn parse_token(t: &str) -> (r: Option<u64>)
    ensures
        r == sp_parse_token(t@),
{
    let u = strip_percent(t);
    let n = u.unicode_len();
    proof {
        lemma_dot_pos_range(u@);
    }

    // Find the first dot, if any.
    let mut d: usize = 0;
    proof {
        assert(u@.skip(0) =~= u@);
    }
    while d < n && u.get_char(d) != '.'
        invariant
            n == u@.len(),
            d <= n,
            sp_dot_pos(u@) == d + sp_dot_pos(u@.skip(d as int)),
        decreases n - d,
    {
        proof {
            assert(u@.skip(d as int)[0] == u@[d as int]);
            assert(u@.skip(d as int).drop_first() =~= u@.skip(d as int + 1));
        }
        d = d + 1;
    }
    proof {
        if d < n {
            assert(u@.skip(d as int)[0] == u@[d as int]);
        } else {
            assert(u@.skip(d as int) =~= Seq::<char>::empty());
        }
        assert(sp_dot_pos(u@) == d);
        assert(sp_int_part(u@) =~= u@.take(d as int));
        if d < n {
            assert(sp_frac_part(u@) =~= u@.skip(d as int + 1));
        }
    }

    // Check that everything outside the dot is a digit.
    let mut j: usize = 0;
    while j < d
        invariant
            u@ == sp_strip_percent(t@),
            n == u@.len(),
            d <= n,
            j <= d,
            d == sp_dot_pos(u@),
            sp_int_part(u@) == u@.take(d as int),
            forall|k: int| 0 <= k < j ==> sp_is_digit(#[trigger] u@[k]),
        decreases d - j,
    {
        if !is_digit(u.get_char(j)) {
            proof {
                assert(sp_int_part(u@)[j as int] == u@[j as int]);
            }
            return None;
        }
        j = j + 1;
    }
    let frac_len: usize = if d < n {
        n - (d + 1)
    } else {
        0
    };
    let mut j2: usize = 0;
    while j2 < frac_len
        invariant
            u@ == sp_strip_percent(t@),
            n == u@.len(),
            d <= n,
            d < n || frac_len == 0,
            frac_len as int == if d < n { n - d - 1 } else { 0 },
            j2 <= frac_len,
            d == sp_dot_pos(u@),
            sp_int_part(u@) == u@.take(d as int),
            d < n ==> sp_frac_part(u@) == u@.skip(d as int + 1),
            d >= n ==> sp_frac_part(u@) == Seq::<char>::empty(),
            forall|k: int| 0 <= k < j2 ==> sp_is_digit(#[trigger] u@[d + 1 + k]),
        decreases frac_len - j2,
    {
        if !is_digit(u.get_char(d + 1 + j2)) {
            proof {
                assert(sp_frac_part(u@)[j2 as int] == u@[d + 1 + j2]);
            }
            return None;
        }
        j2 = j2 + 1;
    }
    proof {
        assert forall|k: int| 0 <= k < sp_int_part(u@).len()
            implies sp_is_digit(#[trigger] sp_int_part(u@)[k]) by {
            assert(sp_int_part(u@)[k] == u@[k]);
        }
        assert forall|k: int| 0 <= k < sp_frac_part(u@).len()
            implies sp_is_digit(#[trigger] sp_frac_part(u@)[k]) by {
            assert(sp_frac_part(u@)[k] == u@[d + 1 + k]);
        }
    }
    if d == 0 && frac_len == 0 {
        // No digit at all.
        return None;
    }
    if d > 17 {
        return None;
    }

    // Accumulate the integer part.
    let ghost ip = sp_int_part(u@);
    let mut ipv: u64 = 0;
    let mut j3: usize = 0;
    proof {
        assert(ip.take(0) =~= Seq::<char>::empty());
        reveal_with_fuel(sp_pow10, 19);
    }
    while j3 < d
        invariant
            n == u@.len(),
            d <= n,
            d <= 17,
            j3 <= d,
            ip == u@.take(d as int),
            ip == sp_int_part(u@),
            sp_all_digits(ip),
            ipv == sp_digits_val(ip.take(j3 as int)),
            ipv < sp_pow10(j3 as nat),
            sp_pow10(17) == 100000000000000000,
        decreases d - j3,
    {
        let c = u.get_char(j3);
        proof {
            assert(ip[j3 as int] == u@[j3 as int]);
            assert(ip.take(j3 as int + 1).drop_last() =~= ip.take(j3 as int));
            assert(ip.take(j3 as int + 1).last() == ip[j3 as int]);
            lemma_pow10_increases(j3 as nat, 16);
            assert(sp_pow10(j3 as nat + 1) == 10 * sp_pow10(j3 as nat));
        }
        let dv: u64 = (c as u32 as u64) - 48;
        proof {
            assert(dv == sp_digit_val(c));
        }
        ipv = ipv * 10 + dv;
        j3 = j3 + 1;
    }
    proof {
        assert(ip.take(d as int) =~= ip);
        lemma_pow10_increases(d as nat, 17);
        lemma_digits_val_bound(ip);
    }

    // Read up to two fraction digits.
    let f1: u64 = if frac_len >= 1 {
        let c = u.get_char(d + 1);
        proof {
            assert(sp_frac_part(u@)[0] == u@[d + 1]);
        }
        (c as u32 as u64) - 48
    } else {
        0
    };
    let f2: u64 = if frac_len >= 2 {
        let c = u.get_char(d + 2);
        proof {
            assert(sp_frac_part(u@)[1] == u@[d + 2]);
        }
        (c as u32 as u64) - 48
    } else {
        0
    };
    proof {
        assert(f1 * 10 + f2 == sp_frac_hundredths(sp_frac_part(u@)));
    }
    Some(ipv * 100 + f1 * 10 + f2)
}

proof fn lemma_pow10_increases(a: nat, b: nat)
    ensures
        a <= b ==> sp_pow10(a) <= sp_pow10(b),
    decreases b,
{
    if a < b {
        lemma_pow10_increases(a, (b - 1) as nat);
        assert(sp_pow10(b) == 10 * sp_pow10((b - 1) as nat));
        assert(sp_pow10((b - 1) as nat) >= 1) by {
            lemma_pow10_positive((b - 1) as nat);
        }
    }
}

proof fn lemma_pow10_positive(n: nat)
    ensures
        sp_pow10(n) >= 1,
    decreases n,
{
    if n > 0 {
        lemma_pow10_positive((n - 1) as nat);
    }
}

/// Parses one raw feed line in the shape `"[download] 45.2%"`: exactly two
/// whitespace-separated fields, the second read as a decimal percentage,
/// yielding its value in hundredths of a percent. Lines of any other shape
/// yield nothing.
pub fn parse_progress(line: &str) -> (r: Option<u64>)
    ensures
        r == sp_parse_progress(line@),
{
    let toks = split_ws(line);
    if toks.len() != 2 {
        proof {
            assert(toks.deep_view().len() == toks.len());
        }
        return None;
    }
    proof {
        assert(toks.deep_view()[1] == toks[1]@);
    }
    parse_token(toks[1].as_str())
}

/// The fixed marker that opens every recognized progress line.
pub open spec fn sp_marker() -> Seq<char> {
    "[download]"@
}

/// Current progress of one transfer, as an absolute position in hundredths
/// of a percent.
pub struct ProgressState {
    pub percent_hundredths: u64,
}

/// A line is recognized when it opens with the progress marker and its
/// percent field parses.
pub open spec fn sp_recognized(l: Seq<char>) -> bool {
    &&& sp_marker().len() <= l.len()
    &&& l.subrange(0, sp_marker().len() as int) == sp_marker()
    &&& sp_parse_progress(l) is Some
}

/// The progress state after one raw line: a recognized line sets the
/// absolute position; any other line leaves the state unchanged.
pub open spec fn sp_after_line(st: ProgressState, l: Seq<char>) -> ProgressState {
    if sp_recognized(l) {
        ProgressState { percent_hundredths: sp_parse_progress(l)->0 }
    } else {
        st
    }
}

/// Consumes the raw line feed of the transfer and keeps the latest parsed
/// position; unparseable lines are log noise and are ignored.
pub struct Monitor {
    pub state: ProgressState,
}

impl Monitor {
    pub fn new() -> (r: Monitor)
        ensures
            r.state.percent_hundredths == 0,
    {
        Monitor { state: ProgressState { percent_hundredths: 0 } }
    }

    /// Feeds one raw line: updates the position if and only if the line is
    /// recognized.
    pub fn on_line(&mut self, line: &str)
        ensures
            final(self).state == sp_after_line(old(self).state, line@),
    {
        if crate::strutil::str_starts_with(line, "[download]") {
            match parse_progress(line) {
                Some(v) => {
                    self.state.percent_hundredths = v;
                },
                None => {},
            }
        }
    }
}

/// Law: feeding the same line twice is idempotent — the position is set
/// absolutely, never accumulated.
pub proof fn lemma_on_line_idempotent(st: ProgressState, l: Seq<char>)
    ensures
        sp_after_line(sp_after_line(st, l), l) == sp_after_line(st, l),
{
}

} // verus!
