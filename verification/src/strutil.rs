//! Small verified helpers over `&str` and `String`.

use vstd::prelude::*;
use vstd::string::*;

verus! {

/// The characters a sanitized filename may keep: ASCII alphanumerics and
/// the dot.
pub open spec fn sp_allowed_char(c: char) -> bool {
    ||| 48 <= c as u32 && c as u32 <= 57
    ||| 65 <= c as u32 && c as u32 <= 90
    ||| 97 <= c as u32 && c as u32 <= 122
    ||| c == '.'
}

/// `s` with every character that is not allowed removed, in order.
pub open spec fn sp_sanitize(s: Seq<char>) -> Seq<char>
    decreases s.len(),
{
    if s.len() == 0 {
        Seq::empty()
    } else if sp_allowed_char(s[0]) {
        seq![s[0]] + sp_sanitize(s.drop_first())
    } else {
        sp_sanitize(s.drop_first())
    }
}

fn allowed_char(c: char) -> (r: bool)
    ensures
        r == sp_allowed_char(c),
{
    let u = c as u32;
    (48 <= u && u <= 57) || (65 <= u && u <= 90) || (97 <= u && u <= 122) || c == '.'
}

/// Strips from a title every character but ASCII alphanumerics and dots,
/// so the result is safe as a filename stem.
pub fn sanitize_filename(filename: &str) -> (r: String)
    ensures
        r@ == sp_sanitize(filename@),
{
    let n = filename.unicode_len();
    let mut out = String::new();
    let mut i: usize = 0;
    proof {
        assert(filename@.skip(0) =~= filename@);
    }
    while i < n
        invariant
            n == filename@.len(),
            i <= n,
            sp_sanitize(filename@) == out@ + sp_sanitize(filename@.skip(i as int)),
        decreases n - i,
    {
        proof {
            assert(filename@.skip(i as int)[0] == filename@[i as int]);
            assert(filename@.skip(i as int).drop_first() =~= filename@.skip(i as int + 1));
        }
        let c = filename.get_char(i);
        if allowed_char(c) {
            let ghost out_old = out@;
            out.append(filename.substring_char(i, i + 1));
            proof {
                assert(filename@.subrange(i as int, i as int + 1) =~= seq![filename@[i as int]]);
                assert((out_old + seq![filename@[i as int]]) + sp_sanitize(filename@.skip(i as int + 1))
                    =~= out_old + (seq![filename@[i as int]] + sp_sanitize(filename@.skip(i as int + 1))));
            }
        }
        i = i + 1;
    }
    proof {
        assert(filename@.skip(n as int) =~= Seq::<char>::empty());
        assert(out@ + Seq::<char>::empty() =~= out@);
    }
    out
}

/// Character-for-character equality of two string slices.
pub fn str_eq(a: &str, b: &str) -> (r: bool)
    ensures
        r == (a@ == b@),
{
    let alen = a.unicode_len();
    let blen = b.unicode_len();
    if alen != blen {
        return false;
    }
    let mut i: usize = 0;
    while i < alen
        invariant
            alen == a@.len(),
            blen == b@.len(),
            alen == blen,
            i <= alen,
            forall|j: int| 0 <= j < i ==> a@[j] == b@[j],
        decreases alen - i,
    {
        if a.get_char(i) != b.get_char(i) {
            return false;
        }
        i = i + 1;
    }
    proof {
        assert(a@ =~= b@);
    }
    true
}

/// Whether `s` begins with `prefix`, stated over the character sequences.
pub fn str_starts_with(s: &str, prefix: &str) -> (r: bool)
    ensures
        r == (prefix@.len() <= s@.len() && s@.subrange(0, prefix@.len() as int) == prefix@),
{
    let slen = s.unicode_len();
    let plen = prefix.unicode_len();
    if plen > slen {
        return false;
    }
    let head = s.substring_char(0, plen);
    str_eq(head, prefix)
}

} // verus!
