//! Which file of the `public/` directory answers a request for the web
//! front end, and with which content type.
use crate::json::same_text;
use crate::text::{chars_of, has_infix, occurs_at, string_of};
use vstd::prelude::*;
use vstd::string::*;

verus! {

/// `s` without the `/` characters it starts with (`trim_start_matches('/')`).
pub open spec fn trim_slashes(s: Seq<char>) -> Seq<char>
    decreases s.len(),
{
    if s.len() > 0 && s[0] == '/' {
        trim_slashes(s.drop_first())
    } else {
        s
    }
}

/// `s` with every `..` taken out, scanning from the left as
/// `str::replace("..", "")` does.
pub open spec fn without_dot_pairs(s: Seq<char>) -> Seq<char>
    decreases s.len(),
{
    if s.len() >= 2 && s[0] == '.' && s[1] == '.' {
        without_dot_pairs(s.skip(2))
    } else if s.len() == 0 {
        s
    } else {
        seq![s[0]] + without_dot_pairs(s.drop_first())
    }
}

/// The request path as a path below `public/`: leading slashes trimmed and
/// every `..` taken out.
pub open spec fn clean_path_spec(path: Seq<char>) -> Seq<char> {
    without_dot_pairs(trim_slashes(path))
}

/// The text after the last `.` of `s` (all of `s` when it has none), as
/// `s.rsplit('.').next()` gives it.
pub open spec fn extension(s: Seq<char>) -> Seq<char>
    decreases s.len(),
{
    if s.len() == 0 || s.last() == '.' {
        Seq::empty()
    } else {
        extension(s.drop_last()).push(s.last())
    }
}

/// The content type a file is served with, by its extension.
pub open spec fn mime_for(ext: Seq<char>) -> Seq<char> {
    if ext == "html"@ {
        "text/html"@
    } else if ext == "js"@ {
        "application/javascript"@
    } else if ext == "wasm"@ {
        "application/wasm"@
    } else if ext == "css"@ {
        "text/css"@
    } else {
        "application/octet-stream"@
    }
}

/// A file of the front end to answer with.
pub struct StaticFile {
    /// The file's path, below `public/`.
    pub path: String,
    /// Its content type.
    pub mime: &'static str,
}

/// No two dots stand next to each other.
pub open spec fn no_dot_pair(s: Seq<char>) -> bool {
    forall|i: int| 0 <= i < s.len() - 1 ==> !(s[i] == '.' && #[trigger] s[i + 1] == '.')
}

proof fn lemma_first_kept(s: Seq<char>)
    requires
        s.len() > 0,
        s[0] != '.',
    ensures
        without_dot_pairs(s).len() > 0,
        without_dot_pairs(s)[0] == s[0],
{
}

proof fn lemma_no_dot_pair(s: Seq<char>)
    ensures
        no_dot_pair(without_dot_pairs(s)),
    decreases s.len(),
{
    if s.len() >= 2 && s[0] == '.' && s[1] == '.' {
        lemma_no_dot_pair(s.skip(2));
    } else if s.len() == 0 {
    } else {
        let rest = s.drop_first();
        lemma_no_dot_pair(rest);
        let r = without_dot_pairs(s);
        let rr = without_dot_pairs(rest);
        assert(r =~= seq![s[0]] + rr);
        if s[0] == '.' && rest.len() > 0 {
            assert(rest[0] != '.');
            lemma_first_kept(rest);
        }
        assert forall|i: int| 0 <= i < r.len() - 1 implies !(r[i] == '.' && #[trigger] r[i + 1] == '.') by {
            if i > 0 {
                let k = i - 1;
                assert(r[i] == rr[k]);
                assert(r[i + 1] == rr[k + 1]);
                assert(!(rr[k] == '.' && rr[k + 1] == '.'));
            } else if s[0] == '.' {
                assert(r[1] == rr[0]);
            }
        }
    }
}

/// The path a request is served from never climbs out of `public/`: once
/// cleaned, it holds no `..`.
pub proof fn law_clean_path_stays_inside(path: Seq<char>)
    ensures
        !has_infix(clean_path_spec(path), ".."@),
{
    let r = clean_path_spec(path);
    lemma_no_dot_pair(trim_slashes(path));
    reveal_strlit("..");
    assert forall|i: int| !occurs_at(r, ".."@, i) by {
        if occurs_at(r, ".."@, i) {
            assert(r.subrange(i, i + 2)[0] == '.');
            assert(r.subrange(i, i + 2)[1] == '.');
            assert(r[i] == '.' && r[i + 1] == '.');
        }
    }
}

/// Cleans a request path: leading slashes trimmed, every `..` taken out.
pub fn clean_path(path: &str) -> (r: String)
    ensures
        r@ == clean_path_spec(path@),
{
    let a = chars_of(path);
    let mut i: usize = 0;
    assert(a@.skip(0) =~= a@);
    while i < a.len() && a[i] == '/'
        invariant
            a@ == path@,
            i <= a.len(),
            trim_slashes(a@) == trim_slashes(a@.skip(i as int)),
        decreases a.len() - i,
    {
        assert(a@.skip(i as int).drop_first() =~= a@.skip(i + 1));
        i = i + 1;
    }
    assert(trim_slashes(a@.skip(i as int)) == a@.skip(i as int));
    let mut out: Vec<char> = Vec::new();
    let mut j: usize = i;
    while j < a.len()
        invariant
            a@ == path@,
            i <= j <= a.len(),
            clean_path_spec(path@) == out@ + without_dot_pairs(a@.skip(j as int)),
        decreases a.len() - j,
    {
        let ghost t = a@.skip(j as int);
        if j + 1 < a.len() && a[j] == '.' && a[j + 1] == '.' {
            assert(t.skip(2) =~= a@.skip(j + 2));
            j = j + 2;
        } else {
            assert(t.drop_first() =~= a@.skip(j + 1));
            let ghost before = out@;
            out.push(a[j]);
            assert(out@ + without_dot_pairs(a@.skip(j + 1)) =~= before + (seq![t[0]] + without_dot_pairs(t.drop_first())));
            j = j + 1;
        }
    }
    assert(a@.skip(j as int) =~= Seq::<char>::empty());
    assert(out@ =~= out@ + without_dot_pairs(a@.skip(j as int)));
    string_of(out.as_slice())
}

proof fn lemma_extension(s: Seq<char>, i: int)
    requires
        0 <= i <= s.len(),
        i == 0 || s[i - 1] == '.',
        forall|k: int| i <= k < s.len() ==> s[k] != '.',
    ensures
        extension(s) == s.skip(i),
    decreases s.len(),
{
    if s.len() == i {
        assert(s.skip(i) =~= Seq::<char>::empty());
    } else {
        lemma_extension(s.drop_last(), i);
        assert(s.skip(i) =~= s.drop_last().skip(i).push(s.last()));
    }
}

/// The text after the last `.` of `s`, or all of `s`.
fn extension_of(s: &str) -> (r: String)
    ensures
        r@ == extension(s@),
{
    let a = chars_of(s);
    let mut i: usize = a.len();
    while i > 0 && a[i - 1] != '.'
        invariant
            a@ == s@,
            i <= a.len(),
            forall|k: int| i <= k < a.len() ==> a@[k] != '.',
        decreases i,
    {
        i = i - 1;
    }
    proof {
        lemma_extension(a@, i as int);
    }
    let mut out: Vec<char> = Vec::new();
    let mut j: usize = i;
    while j < a.len()
        invariant
            a@ == s@,
            i <= j <= a.len(),
            out@ == a@.subrange(i as int, j as int),
        decreases a.len() - j,
    {
        out.push(a[j]);
        assert(out@ =~= a@.subrange(i as int, j + 1));
        j = j + 1;
    }
    assert(out@ =~= a@.skip(i as int));
    string_of(out.as_slice())
}

/// The content type of a file, by its extension.
pub fn mime_type(file_path: &str) -> (r: &'static str)
    ensures
        r@ == mime_for(extension(file_path@)),
{
    let ext = extension_of(file_path);
    let e = ext.as_str();
    if same_text(e, "html") {
        "text/html"
    } else if same_text(e, "js") {
        "application/javascript"
    } else if same_text(e, "wasm") {
        "application/wasm"
    } else if same_text(e, "css") {
        "text/css"
    } else {
        "application/octet-stream"
    }
}

/// The file that answers a request for `path`: the cleaned path below
/// `public/`, with the content type of its extension; none (the front end's
/// `index.html` answers) when nothing is left of the path once cleaned.
pub fn static_file(path: &str) -> (r: Option<StaticFile>)
    ensures
        match r {
            Some(f) => clean_path_spec(path@).len() > 0 && f.path@ == "public/"@ + clean_path_spec(path@)
                && f.mime@ == mime_for(extension("public/"@ + clean_path_spec(path@))),
            None => clean_path_spec(path@).len() == 0,
        },
{
    let clean = clean_path(path);
    proof {
        law_clean_path_stays_inside(path@);
    }
    if clean.as_str().is_empty() || crate::text::contains(clean.as_str(), "..") {
        return None;
    }
    let mut file = "public/".to_owned();
    file.append(clean.as_str());
    let mime = mime_type(file.as_str());
    Some(StaticFile { path: file, mime })
}

} // verus!
