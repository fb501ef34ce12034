use vstd::prelude::*;
use crate::util::ids::{is_uuid_text, new_uuid_text};
use crate::util::text::{chars_of, string_from_chars};

verus! {

/// Index of the last `c` in `s`.
pub open spec fn last_index_of(s: Seq<char>, c: char) -> Option<int>
    decreases s.len(),
{
    if s.len() == 0 {
        None
    } else if s.last() == c {
        Some(s.len() - 1)
    } else {
        last_index_of(s.drop_last(), c)
    }
}

/// What follows the last `c` in `s`, or all of `s` when there is none
/// (`s.split(c).last()`).
pub open spec fn after_last(s: Seq<char>, c: char) -> Seq<char> {
    match last_index_of(s, c) {
        Some(i) => s.skip(i + 1),
        None => s,
    }
}

/// What comes before the last `c` in `s`, or all of `s` when there is none
/// (`s.rsplit_once(c)` without its second half).
pub open spec fn before_last(s: Seq<char>, c: char) -> Seq<char> {
    match last_index_of(s, c) {
        Some(i) => s.take(i),
        None => s,
    }
}

proof fn lemma_last_index_of(s: Seq<char>, c: char)
    ensures
        match last_index_of(s, c) {
            Some(i) => 0 <= i < s.len() && s[i] == c && forall|k: int| i < k < s.len() ==> s[k] != c,
            None => forall|k: int| 0 <= k < s.len() ==> s[k] != c,
        },
    decreases s.len(),
{
    if s.len() > 0 && s.last() != c {
        lemma_last_index_of(s.drop_last(), c);
        assert forall|k: int| 0 <= k < s.len() - 1 implies s[k] == s.drop_last()[k] by {}
    }
}

proof fn lemma_last_index_of_exact(s: Seq<char>, c: char, i: int)
    requires
        0 <= i < s.len(),
        s[i] == c,
        forall|k: int| i < k < s.len() ==> s[k] != c,
    ensures
        last_index_of(s, c) == Some(i),
    decreases s.len(),
{
    if s.last() != c {
        lemma_last_index_of_exact(s.drop_last(), c, i);
    }
}

proof fn lemma_last_index_of_none(s: Seq<char>, c: char)
    requires
        forall|k: int| 0 <= k < s.len() ==> s[k] != c,
    ensures
        last_index_of(s, c) is None,
    decreases s.len(),
{
    if s.len() > 0 {
        lemma_last_index_of_none(s.drop_last(), c);
    }
}

fn find_last(v: &Vec<char>, c: char) -> (r: Option<usize>)
    ensures
        match r {
            Some(i) => last_index_of(v@, c) == Some(i as int),
            None => last_index_of(v@, c) is None,
        },
{
    let mut j: usize = v.len();
    while j > 0
        invariant
            j <= v@.len(),
            forall|k: int| j <= k < v@.len() ==> v@[k] != c,
        decreases j,
    {
        if v[j - 1] == c {
            proof {
                lemma_last_index_of_exact(v@, c, j - 1);
            }
            return Some(j - 1);
        }
        j = j - 1;
    }
    proof {
        lemma_last_index_of_none(v@, c);
    }
    None
}

/// `s.split(c).last()`.
pub fn text_after_last(s: &str, c: char) -> (out: String)
    ensures
        out@ == after_last(s@, c),
{
    let v = chars_of(s);
    match find_last(&v, c) {
        Some(i) => {
            proof {
                lemma_last_index_of(v@, c);
            }
            string_from_chars(vstd::slice::slice_subrange(v.as_slice(), i + 1, v.len()))
        },
        None => s.to_owned(),
    }
}

/// `s.rsplit_once(c).map(|(base, _)| base).unwrap_or(s)`.
pub fn text_before_last(s: &str, c: char) -> (out: String)
    ensures
        out@ == before_last(s@, c),
{
    let v = chars_of(s);
    match find_last(&v, c) {
        Some(i) => {
            proof {
                lemma_last_index_of(v@, c);
            }
            string_from_chars(vstd::slice::slice_subrange(v.as_slice(), 0, i))
        },
        None => s.to_owned(),
    }
}

/// The name an upload is filed under when the form gave none: `upload-<uuid>`.
pub fn upload_file_name(provided: Option<String>) -> (name: String)
    ensures
        match provided {
            Some(f) => name == f,
            None => exists|code: Seq<char>| is_uuid_text(code) && name@ == "upload-"@ + code,
        },
{
    match provided {
        Some(f) => f,
        None => {
            let code = new_uuid_text();
            let mut name = "upload-".to_owned();
            name.append(code.as_str());
            name
        },
    }
}

/// Where an upload named `filename` is stored: `./data/<base>_<code>.<extension>`,
/// `code` being a fresh UUID, `base` what precedes the last `.` and `extension` what
/// follows it (the whole name serves as both when it has no `.`).
pub open spec fn stored_path_for(filename: Seq<char>, code: Seq<char>) -> Seq<char> {
    "./data/"@ + before_last(filename, '.') + "_"@ + code + "."@ + after_last(filename, '.')
}

pub fn stored_file_path(filename: &str) -> (path: String)
    ensures
        exists|code: Seq<char>| is_uuid_text(code) && path@ == stored_path_for(filename@, code),
{
    let extension = text_after_last(filename, '.');
    let base_name = text_before_last(filename, '.');
    let unique_code = new_uuid_text();
    let mut path = "./data/".to_owned();
    path.append(base_name.as_str());
    path.append("_");
    path.append(unique_code.as_str());
    path.append(".");
    path.append(extension.as_str());
    assert(path@ == stored_path_for(filename@, unique_code@));
    path
}

/// The name a stored file is offered under for download: what follows its last `/`.
pub fn download_file_name(url_file: &str) -> (name: String)
    ensures
        name@ == after_last(url_file@, '/'),
{
    text_after_last(url_file, '/')
}

proof fn lemma_after_last_free(s: Seq<char>, c: char)
    ensures
        forall|k: int| 0 <= k < after_last(s, c).len() ==> after_last(s, c)[k] != c,
{
    lemma_last_index_of(s, c);
    match last_index_of(s, c) {
        Some(i) => {
            assert forall|k: int| 0 <= k < after_last(s, c).len() implies after_last(s, c)[k]
                != c by {
                assert(after_last(s, c)[k] == s[i + 1 + k]);
            }
        },
        None => {},
    }
}

/// A stored upload keeps the extension of the file that was sent (what follows the
/// last `.` of its name), whatever code was drawn, and it lies under `./data/`.
pub proof fn lemma_stored_path_keeps_extension(filename: Seq<char>, code: Seq<char>)
    requires
        is_uuid_text(code),
    ensures
        after_last(stored_path_for(filename, code), '.') == after_last(filename, '.'),
        stored_path_for(filename, code).take(7) == "./data/"@,
{
    reveal_strlit("./data/");
    reveal_strlit("_");
    reveal_strlit(".");
    let ext = after_last(filename, '.');
    let p = stored_path_for(filename, code);
    let head = "./data/"@ + before_last(filename, '.') + "_"@ + code;
    assert(p == head + "."@ + ext);
    lemma_after_last_free(filename, '.');
    let dot = head.len() as int;
    assert(p[dot] == '.');
    assert forall|k: int| dot < k < p.len() implies p[k] != '.' by {
        assert(p[k] == ext[k - dot - 1]);
    }
    lemma_last_index_of_exact(p, '.', dot);
    assert(p.skip(dot + 1) =~= ext);
    assert(p.take(7) =~= "./data/"@);
}

} // verus!
