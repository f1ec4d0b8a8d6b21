//! Text helpers shared by the classifier and the record store: comparing
//! strings, cutting a string after its last separator, and joining path
//! components.

use vstd::prelude::*;
use vstd::std_specs::iter::IteratorSpec;
use vstd::string::StringSliceAdditionalSpecFns;
use vstd::utf8::encode_utf8_decode_utf8;

verus! {

/// Position of the last occurrence of `c` in `s`, or `-1` where `c` does not
/// occur in `s`.
pub open spec fn last_position(s: Seq<char>, c: char) -> int
    decreases s.len(),
{
    if s.len() == 0 {
        -1
    } else if s.last() == c {
        s.len() - 1
    } else {
        last_position(s.drop_last(), c)
    }
}

/// The part of `s` behind the last occurrence of `c`; `None` where `c` does
/// not occur in `s`.
pub open spec fn after_last(s: Seq<char>, c: char) -> Option<Seq<char>> {
    let p = last_position(s, c);
    if p < 0 {
        None
    } else {
        Some(s.subrange(p + 1, s.len() as int))
    }
}

/// The path that results from appending the component `name` to `base`.
///
/// A component that starts with the separator replaces `base`. Otherwise one
/// separator is put between the two, unless `base` is empty or already ends
/// with one.
pub open spec fn joined(base: Seq<char>, name: Seq<char>) -> Seq<char> {
    if name.len() > 0 && name[0] == '/' {
        name
    } else if base.len() == 0 || base.last() == '/' {
        base + name
    } else {
        base + seq!['/'] + name
    }
}

/// `last_position` is the index of an occurrence, nothing behind it is an
/// occurrence, and it is `-1` exactly where there is no occurrence.
pub proof fn lemma_last_position(s: Seq<char>, c: char)
    ensures
        -1 <= last_position(s, c) < s.len(),
        last_position(s, c) >= 0 ==> s[last_position(s, c)] == c,
        forall|j: int| last_position(s, c) < j < s.len() ==> s[j] != c,
        last_position(s, c) == -1 <==> !s.contains(c),
    decreases s.len(),
{
    if s.len() > 0 && s.last() != c {
        let t = s.drop_last();
        lemma_last_position(t, c);
        assert forall|j: int| last_position(s, c) < j < s.len() implies s[j] != c by {
            if j < t.len() {
                assert(t[j] == s[j]);
            }
        }
        if t.contains(c) {
            let k = choose|k: int| 0 <= k < t.len() && t[k] == c;
            assert(s[k] == c);
        }
        if s.contains(c) {
            let k = choose|k: int| 0 <= k < s.len() && s[k] == c;
            assert(t[k] == c);
        }
    } else if s.len() > 0 {
        assert(s[s.len() - 1] == c);
    }
}

/// What stands behind the last occurrence of `c` holds no `c`.
pub proof fn lemma_after_last_is_free(s: Seq<char>, c: char)
    ensures
        after_last(s, c) matches Some(t) ==> !t.contains(c),
        after_last(s, c) is None <==> !s.contains(c),
{
    lemma_last_position(s, c);
    if let Some(t) = after_last(s, c) {
        let p = last_position(s, c);
        if t.contains(c) {
            let k = choose|k: int| 0 <= k < t.len() && t[k] == c;
            assert(s[p + 1 + k] == c);
        }
    }
}

/// Whether two strings hold the same characters.
pub fn same_text(a: &str, b: &str) -> (r: bool)
    ensures
        r == (a@ == b@),
{
    let x = a.as_bytes();
    let y = b.as_bytes();
    if x.len() != y.len() {
        return false;
    }
    let mut i: usize = 0;
    while i < x.len()
        invariant
            i <= x.len(),
            x.len() == y.len(),
            x@ == a.spec_bytes(),
            y@ == b.spec_bytes(),
            forall|j: int| 0 <= j < i ==> x@[j] == y@[j],
        decreases x.len() - i,
    {
        if x[i] != y[i] {
            return false;
        }
        i = i + 1;
    }
    proof {
        assert(x@ =~= y@);
        encode_utf8_decode_utf8(a@);
        encode_utf8_decode_utf8(b@);
    }
    true
}

/// Index of the last occurrence of `c` in `s`, counted in characters.
pub fn find_last(s: &str, c: char) -> (r: Option<usize>)
    ensures
        match r {
            Some(p) => p as int == last_position(s@, c),
            None => last_position(s@, c) == -1,
        },
{
    let n: usize = s.unicode_len();
    let mut found: Option<usize> = None;
    let mut i: usize = 0;
    for ch in it: s.chars()
        invariant
            n == s@.len(),
            i == it.index(),
            it.seq() == s@,
            match found {
                Some(p) => p as int == last_position(s@.take(i as int), c),
                None => last_position(s@.take(i as int), c) == -1,
            },
    {
        assert(s@.take(i + 1).drop_last() == s@.take(i as int));
        if ch == c {
            found = Some(i);
        }
        i = i + 1;
    }
    assert(s@.take(i as int) == s@);
    found
}

/// The part of `s` behind its last `c`, where there is one.
pub fn text_after_last<'a>(s: &'a str, c: char) -> (r: Option<&'a str>)
    ensures
        match r {
            Some(t) => after_last(s@, c) == Some(t@),
            None => after_last(s@, c) is None,
        },
{
    proof {
        lemma_last_position(s@, c);
    }
    match find_last(s, c) {
        Some(p) => {
            let n: usize = s.unicode_len();
            Some(s.substring_char(p + 1, n))
        },
        None => None,
    }
}

/// Appends the path component `name` to `base`.
pub fn join_path(base: &str, name: &str) -> (r: String)
    ensures
        r@ == joined(base@, name@),
{
    let name_len: usize = name.unicode_len();
    if name_len > 0 && name.get_char(0) == '/' {
        return String::from_str(name);
    }
    let base_len: usize = base.unicode_len();
    let mut out = String::from_str(base);
    if base_len > 0 && base.get_char(base_len - 1) != '/' {
        proof {
            reveal_strlit("/");
        }
        out.append("/");
        assert("/"@ =~= seq!['/']);
    }
    out.append(name);
    out
}

} // verus!
