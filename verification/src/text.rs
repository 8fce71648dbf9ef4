//! Text helpers on `&str` / `String` with character-level specifications.

use vstd::prelude::*;

verus! {

/// The characters of Unicode's `White_Space` property, which `str::trim` removes.
pub open spec fn is_unicode_whitespace(c: char) -> bool {
    let u = c as u32;
    ||| 0x09 <= u <= 0x0D
    ||| u == 0x20
    ||| u == 0x85
    ||| u == 0xA0
    ||| u == 0x1680
    ||| 0x2000 <= u <= 0x200A
    ||| u == 0x2028
    ||| u == 0x2029
    ||| u == 0x202F
    ||| u == 0x205F
    ||| u == 0x3000
}

/// `s` with its leading whitespace removed.
pub open spec fn trim_start_spec(s: Seq<char>) -> Seq<char>
    decreases s.len(),
{
    if s.len() > 0 && is_unicode_whitespace(s[0]) {
        trim_start_spec(s.drop_first())
    } else {
        s
    }
}

/// `s` with its trailing whitespace removed.
pub open spec fn trim_end_spec(s: Seq<char>) -> Seq<char>
    decreases s.len(),
{
    if s.len() > 0 && is_unicode_whitespace(s.last()) {
        trim_end_spec(s.drop_last())
    } else {
        s
    }
}

/// `s` with leading and trailing whitespace removed, as `str::trim` does.
pub open spec fn trim_spec(s: Seq<char>) -> Seq<char> {
    trim_end_spec(trim_start_spec(s))
}

pub open spec fn ascii_lower_char(c: char) -> char {
    if 'A' <= c <= 'Z' {
        ((c as u32) + 32) as char
    } else {
        c
    }
}

/// `s` with ASCII upper-case letters mapped to lower case, as `str::to_ascii_lowercase` does.
pub open spec fn ascii_lower_spec(s: Seq<char>) -> Seq<char> {
    s.map_values(|c: char| ascii_lower_char(c))
}

proof fn lemma_trim_start_suffix(s: Seq<char>, i: int)
    requires
        0 <= i <= s.len(),
        forall|k: int| 0 <= k < i ==> is_unicode_whitespace(#[trigger] s[k]),
    ensures
        trim_start_spec(s) == trim_start_spec(s.subrange(i, s.len() as int)),
    decreases i,
{
    if i > 0 {
        assert(s.drop_first().subrange(i - 1, s.drop_first().len() as int) =~= s.subrange(
            i,
            s.len() as int,
        ));
        lemma_trim_start_suffix(s.drop_first(), i - 1);
    } else {
        assert(s.subrange(0, s.len() as int) =~= s);
    }
}

proof fn lemma_trim_end_prefix(s: Seq<char>, j: int)
    requires
        0 <= j <= s.len(),
        forall|k: int| j <= k < s.len() ==> is_unicode_whitespace(#[trigger] s[k]),
    ensures
        trim_end_spec(s) == trim_end_spec(s.subrange(0, j)),
    decreases s.len() - j,
{
    if j < s.len() {
        assert(s.drop_last().subrange(0, j) =~= s.subrange(0, j));
        lemma_trim_end_prefix(s.drop_last(), j);
    } else {
        assert(s.subrange(0, j) =~= s);
    }
}

/// Index of the first character of `s` that is not whitespace (or `s.len()`).
fn first_non_whitespace(s: &str, len: usize) -> (i: usize)
    requires
        len == s@.len(),
    ensures
        i <= len,
        forall|k: int| 0 <= k < i ==> is_unicode_whitespace(#[trigger] s@[k]),
        i < len ==> !is_unicode_whitespace(s@[i as int]),
{
    let mut i: usize = 0;
    while i < len
        invariant
            i <= len,
            len == s@.len(),
            forall|k: int| 0 <= k < i ==> is_unicode_whitespace(#[trigger] s@[k]),
        decreases len - i,
    {
        let c = s.get_char(i);
        if !is_whitespace_char(c) {
            return i;
        }
        i = i + 1;
    }
    i
}

/// Whether `c` has Unicode's `White_Space` property.
pub fn is_whitespace_char(c: char) -> (b: bool)
    ensures
        b == is_unicode_whitespace(c),
{
    let u: u32 = c as u32;
    (0x09 <= u && u <= 0x0D) || u == 0x20 || u == 0x85 || u == 0xA0 || u == 0x1680 || (0x2000
        <= u && u <= 0x200A) || u == 0x2028 || u == 0x2029 || u == 0x202F || u == 0x205F || u
        == 0x3000
}

/// `s` without leading and trailing whitespace.
pub fn trim(s: &str) -> (r: String)
    ensures
        r@ == trim_spec(s@),
{
    let len = s.unicode_len();
    let start = first_non_whitespace(s, len);
    let mut end: usize = len;
    while end > start
        invariant
            start <= end <= len,
            len == s@.len(),
            start < len ==> !is_unicode_whitespace(s@[start as int]),
            forall|k: int| end <= k < len ==> is_unicode_whitespace(#[trigger] s@[k]),
        ensures
            start <= end <= len,
            forall|k: int| end <= k < len ==> is_unicode_whitespace(#[trigger] s@[k]),
            end > start ==> !is_unicode_whitespace(s@[end - 1]),
        decreases end,
    {
        let c = s.get_char(end - 1);
        if !is_whitespace_char(c) {
            break;
        }
        end = end - 1;
    }
    let piece = s.substring_char(start, end);
    proof {
        lemma_trim_start_suffix(s@, start as int);
        let rest = s@.subrange(start as int, len as int);
        if start < len {
            assert(rest[0] == s@[start as int]);
            assert(trim_start_spec(rest) == rest);
            assert forall|k: int| end - start <= k < rest.len() implies is_unicode_whitespace(
                #[trigger] rest[k],
            ) by {
                assert(rest[k] == s@[k + start]);
            }
            lemma_trim_end_prefix(rest, end - start);
            assert(rest.subrange(0, end - start) =~= s@.subrange(start as int, end as int));
            if end > start {
                assert(!is_unicode_whitespace(s@[end - 1]));
            }
            assert(trim_end_spec(s@.subrange(start as int, end as int)) == s@.subrange(
                start as int,
                end as int,
            )) by {
                let p = s@.subrange(start as int, end as int);
                if p.len() > 0 {
                    assert(p.last() == s@[end - 1]);
                }
            }
        } else {
            assert(rest.len() == 0);
            assert(trim_start_spec(rest) == rest);
            assert(trim_end_spec(rest) == rest);
            assert(end == start);
            assert(s@.subrange(start as int, end as int) =~= rest);
        }
    }
    String::from_str(piece)
}

/// Whether the characters of `a` and `b` are the same.
pub fn str_eq(a: &str, b: &str) -> (r: bool)
    ensures
        r == (a@ == b@),
{
    let la = a.unicode_len();
    let lb = b.unicode_len();
    if la != lb {
        return false;
    }
    let mut i: usize = 0;
    while i < la
        invariant
            i <= la,
            la == a@.len(),
            lb == b@.len(),
            la == lb,
            forall|k: int| 0 <= k < i ==> a@[k] == b@[k],
        decreases la - i,
    {
        if a.get_char(i) != b.get_char(i) {
            return false;
        }
        i = i + 1;
    }
    assert(a@ =~= b@);
    true
}

/// Whether `a` and `b` are equal once ASCII letters are folded to lower case.
pub fn str_eq_ignore_ascii_case(a: &str, b: &str) -> (r: bool)
    ensures
        r == (ascii_lower_spec(a@) == ascii_lower_spec(b@)),
{
    let la = a.unicode_len();
    let lb = b.unicode_len();
    if la != lb {
        proof {
            assert(ascii_lower_spec(a@).len() != ascii_lower_spec(b@).len());
        }
        return false;
    }
    let mut i: usize = 0;
    while i < la
        invariant
            i <= la,
            la == a@.len(),
            lb == b@.len(),
            la == lb,
            forall|k: int| 0 <= k < i ==> ascii_lower_char(a@[k]) == ascii_lower_char(b@[k]),
        decreases la - i,
    {
        let ca = lower_char(a.get_char(i));
        let cb = lower_char(b.get_char(i));
        if ca != cb {
            proof {
                assert(ascii_lower_spec(a@)[i as int] != ascii_lower_spec(b@)[i as int]);
            }
            return false;
        }
        i = i + 1;
    }
    assert(ascii_lower_spec(a@) =~= ascii_lower_spec(b@));
    true
}

fn lower_char(c: char) -> (r: char)
    ensures
        r == ascii_lower_char(c),
{
    if 'A' <= c && c <= 'Z' {
        let u: u32 = (c as u32) + 32;
        assert(0x61 <= u <= 0x7A);
        char_from_ascii(u)
    } else {
        c
    }
}

/// The ASCII character with code `u`.
fn char_from_ascii(u: u32) -> (c: char)
    requires
        u < 128,
    ensures
        c == u as char,
{
    let b: u8 = u as u8;
    b as char
}

/// If `s` starts with `prefix`, the rest of `s`.
pub fn strip_prefix(s: &str, prefix: &str) -> (r: Option<String>)
    ensures
        match r {
            Some(rest) => s@.len() >= prefix@.len() && s@.subrange(0, prefix@.len() as int)
                == prefix@ && rest@ == s@.subrange(prefix@.len() as int, s@.len() as int),
            None => !(s@.len() >= prefix@.len() && s@.subrange(0, prefix@.len() as int)
                == prefix@),
        },
{
    let ls = s.unicode_len();
    let lp = prefix.unicode_len();
    if ls < lp {
        return None;
    }
    let mut i: usize = 0;
    while i < lp
        invariant
            i <= lp <= ls,
            ls == s@.len(),
            lp == prefix@.len(),
            forall|k: int| 0 <= k < i ==> s@[k] == prefix@[k],
        decreases lp - i,
    {
        if s.get_char(i) != prefix.get_char(i) {
            proof {
                assert(s@.subrange(0, lp as int)[i as int] != prefix@[i as int]);
            }
            return None;
        }
        i = i + 1;
    }
    assert(s@.subrange(0, lp as int) =~= prefix@);
    let rest = s.substring_char(lp, ls);
    Some(String::from_str(rest))
}

/// A copy of an optional string.
pub fn clone_opt_string(s: &Option<String>) -> (r: Option<String>)
    ensures
        r == *s,
{
    match s {
        Some(v) => Some(v.clone()),
        None => None,
    }
}

} // verus!
