use vstd::prelude::*;

verus! {

/// `String::push` from std: appends one character at the end.
#[verifier::external_body]
fn push_char(s: &mut String, c: char)
    ensures
        final(s)@ == old(s)@.push(c),
{
    s.push(c);
}

/// The characters of a string slice, in order.
pub fn chars_of(s: &str) -> (out: Vec<char>)
    ensures
        out@ == s@,
{
    let mut out: Vec<char> = Vec::new();
    for c in it: s.chars()
        invariant
            out@ == it.seq().take(it.index() as int),
            it.seq() == s@,
    {
        out.push(c);
    }
    out
}

/// A string made of the given characters, in order.
pub fn string_from_chars(v: &[char]) -> (out: String)
    ensures
        out@ == v@,
{
    let mut out = String::new();
    let mut i: usize = 0;
    while i < v.len()
        invariant
            i <= v@.len(),
            out@ == v@.take(i as int),
        decreases v@.len() - i,
    {
        push_char(&mut out, v[i]);
        assert(v@.take(i as int).push(v@[i as int]) =~= v@.take(i + 1));
        i = i + 1;
    }
    assert(v@.take(v@.len() as int) =~= v@);
    out
}


/// Unicode `White_Space`, the set that `char::is_whitespace` and `str::trim` use.
pub open spec fn is_whitespace(c: char) -> bool {
    let u = c as u32;
    ||| 0x09 <= u <= 0x0d
    ||| u == 0x20
    ||| u == 0x85
    ||| u == 0xa0
    ||| u == 0x1680
    ||| 0x2000 <= u <= 0x200a
    ||| u == 0x2028
    ||| u == 0x2029
    ||| u == 0x202f
    ||| u == 0x205f
    ||| u == 0x3000
}

pub fn is_whitespace_char(c: char) -> (b: bool)
    ensures
        b == is_whitespace(c),
{
    let u = c as u32;
    (0x09 <= u && u <= 0x0d) || u == 0x20 || u == 0x85 || u == 0xa0 || u == 0x1680 || (0x2000
        <= u && u <= 0x200a) || u == 0x2028 || u == 0x2029 || u == 0x202f || u == 0x205f || u
        == 0x3000
}

/// `s` without its leading whitespace.
pub open spec fn trim_start_spec(s: Seq<char>) -> Seq<char>
    decreases s.len(),
{
    if s.len() > 0 && is_whitespace(s[0]) {
        trim_start_spec(s.drop_first())
    } else {
        s
    }
}

/// `s` without its trailing whitespace.
pub open spec fn trim_end_spec(s: Seq<char>) -> Seq<char>
    decreases s.len(),
{
    if s.len() > 0 && is_whitespace(s.last()) {
        trim_end_spec(s.drop_last())
    } else {
        s
    }
}

/// `s` without leading and trailing whitespace, as `str::trim` gives it.
pub open spec fn trim_spec(s: Seq<char>) -> Seq<char> {
    trim_end_spec(trim_start_spec(s))
}

/// A text that holds nothing but whitespace (or nothing at all).
pub open spec fn is_blank(s: Seq<char>) -> bool {
    trim_spec(s).len() == 0
}

proof fn lemma_trim_start_skip(s: Seq<char>, i: int)
    requires
        0 <= i <= s.len(),
        forall|k: int| 0 <= k < i ==> is_whitespace(#[trigger] s[k]),
    ensures
        trim_start_spec(s) == trim_start_spec(s.skip(i)),
    decreases i,
{
    if i > 0 {
        assert(s.skip(1) =~= s.drop_first());
        lemma_trim_start_skip(s.drop_first(), i - 1);
        assert(s.drop_first().skip(i - 1) =~= s.skip(i));
    } else {
        assert(s.skip(0) =~= s);
    }
}

proof fn lemma_trim_end_take(s: Seq<char>, j: int)
    requires
        0 <= j <= s.len(),
        forall|k: int| j <= k < s.len() ==> is_whitespace(#[trigger] s[k]),
    ensures
        trim_end_spec(s) == trim_end_spec(s.take(j)),
    decreases s.len() - j,
{
    if j < s.len() {
        assert(s.drop_last().take(j) =~= s.take(j));
        lemma_trim_end_take(s.drop_last(), j);
    } else {
        assert(s.take(j) =~= s);
    }
}

/// Index of the first non-whitespace character at or after `from` (or the length).
fn skip_whitespace(v: &Vec<char>) -> (i: usize)
    ensures
        i <= v@.len(),
        forall|k: int| 0 <= k < i ==> is_whitespace(#[trigger] v@[k]),
        i < v@.len() ==> !is_whitespace(v@[i as int]),
{
    let mut i: usize = 0;
    while i < v.len() && is_whitespace_char(v[i])
        invariant
            i <= v@.len(),
            forall|k: int| 0 <= k < i ==> is_whitespace(#[trigger] v@[k]),
        decreases v@.len() - i,
    {
        i = i + 1;
    }
    i
}

/// `s` with leading and trailing whitespace removed (`str::trim`).
pub fn trim(s: &str) -> (out: String)
    ensures
        out@ == trim_spec(s@),
{
    let v = chars_of(s);
    let i = skip_whitespace(&v);
    let mut j: usize = v.len();
    while j > i && is_whitespace_char(v[j - 1])
        invariant
            i <= j <= v@.len(),
            forall|k: int| j <= k < v@.len() ==> is_whitespace(#[trigger] v@[k]),
        decreases j,
    {
        j = j - 1;
    }
    proof {
        lemma_trim_start_skip(v@, i as int);
        let t = v@.skip(i as int);
        if i < v@.len() {
            assert(t[0] == v@[i as int]);
        }
        assert(trim_start_spec(t) == t);
        assert forall|k: int| j - i <= k < t.len() implies is_whitespace(#[trigger] t[k]) by {
            assert(t[k] == v@[k + i]);
        }
        lemma_trim_end_take(t, j - i);
        let u = t.take(j - i);
        if j > i {
            assert(u.last() == v@[j - 1]);
        }
        assert(trim_end_spec(u) == u);
        assert(u =~= v@.subrange(i as int, j as int));
    }
    string_from_chars(vstd::slice::slice_subrange(v.as_slice(), i, j))
}

/// Whether `s` is empty once trimmed.
pub fn is_blank_str(s: &str) -> (b: bool)
    ensures
        b == is_blank(s@),
{
    let t = trim(s);
    t.as_str().is_empty()
}

/// `s` starts with `p`.
pub open spec fn has_prefix(s: Seq<char>, p: Seq<char>) -> bool {
    p.len() <= s.len() && s.take(p.len() as int) =~= p
}

pub fn starts_with(s: &[char], p: &[char]) -> (b: bool)
    ensures
        b == has_prefix(s@, p@),
{
    if p.len() > s.len() {
        return false;
    }
    let mut k: usize = 0;
    while k < p.len()
        invariant
            p@.len() <= s@.len(),
            k <= p@.len(),
            forall|m: int| 0 <= m < k ==> s@[m] == p@[m],
        decreases p@.len() - k,
    {
        if s[k] != p[k] {
            assert(s@.take(p@.len() as int)[k as int] != p@[k as int]);
            return false;
        }
        k = k + 1;
    }
    assert(s@.take(p@.len() as int) =~= p@);
    true
}

/// `s` with every leading copy of `p` removed (`str::trim_start_matches` with a
/// non-empty pattern).
pub open spec fn strip_prefixes(s: Seq<char>, p: Seq<char>) -> Seq<char>
    recommends
        p.len() > 0,
    decreases s.len(),
{
    if p.len() > 0 && has_prefix(s, p) {
        strip_prefixes(s.skip(p.len() as int), p)
    } else {
        s
    }
}

pub fn trim_start_matches(s: &str, p: &str) -> (out: String)
    requires
        p@.len() > 0,
    ensures
        out@ == strip_prefixes(s@, p@),
{
    let v = chars_of(s);
    let pv = chars_of(p);
    let mut i: usize = 0;
    assert(v@.skip(0) =~= v@);
    while i <= v.len() && starts_with(vstd::slice::slice_subrange(v.as_slice(), i, v.len()), pv.as_slice())
        invariant
            i <= v@.len(),
            pv@ == p@,
            pv@.len() > 0,
            strip_prefixes(v@, p@) == strip_prefixes(v@.skip(i as int), p@),
        decreases v@.len() - i,
    {
        let ghost rest = v@.skip(i as int);
        assert(v@.subrange(i as int, v@.len() as int) =~= rest);
        assert(rest.skip(pv@.len() as int) =~= v@.skip(i + pv@.len()));
        i = i + pv.len();
    }
    proof {
        assert(v@.subrange(i as int, v@.len() as int) =~= v@.skip(i as int));
    }
    string_from_chars(vstd::slice::slice_subrange(v.as_slice(), i, v.len()))
}


/// What `str::to_lowercase` makes of a text.
pub uninterp spec fn lowercase(s: Seq<char>) -> Seq<char>;

/// std's `str::to_lowercase`. Each character is replaced by its lowercase mapping,
/// which `char::to_lowercase` documents as one or more characters, so the result is
/// empty exactly when the text is.
#[verifier::external_body]
pub(crate) fn to_lowercase(s: &str) -> (out: String)
    ensures
        out@ == lowercase(s@),
        out@.len() == 0 <==> s@.len() == 0,
{
    s.to_lowercase()
}

} // verus!
