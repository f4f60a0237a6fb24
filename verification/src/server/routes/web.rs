//! Naming of the embedded web assets and their content types.

use vstd::prelude::*;
use vstd::string::StrSliceExecFns;
use crate::text::{owned, push_str, str_eq};

verus! {

/// What follows the last `.` of `s`, or all of `s` when it has none
/// (what `rsplit('.').next()` gives).
pub open spec fn last_segment(s: Seq<char>) -> Seq<char>
    decreases s.len(),
{
    if s.len() == 0 {
        s
    } else if s.last() == '.' {
        Seq::empty()
    } else {
        last_segment(s.drop_last()).push(s.last())
    }
}

/// The content type served for an extension.
pub open spec fn content_type_for(ext: Seq<char>) -> Seq<char> {
    if ext == "css"@ {
        "text/css; charset=utf-8"@
    } else if ext == "html"@ {
        "text/html; charset=utf-8"@
    } else if ext == "ico"@ {
        "image/x-icon"@
    } else if ext == "js"@ || ext == "mjs"@ {
        "application/javascript"@
    } else if ext == "json"@ {
        "application/json"@
    } else if ext == "png"@ {
        "image/png"@
    } else if ext == "svg"@ {
        "image/svg+xml"@
    } else if ext == "txt"@ {
        "text/plain; charset=utf-8"@
    } else if ext == "wasm"@ {
        "application/wasm"@
    } else if ext == "woff2"@ {
        "font/woff2"@
    } else {
        "application/octet-stream"@
    }
}

proof fn lemma_last_segment_split(s: Seq<char>, j: int)
    requires
        0 <= j <= s.len(),
        forall|k: int| j <= k < s.len() ==> s[k] != '.',
    ensures
        last_segment(s) == last_segment(s.take(j)) + s.subrange(j, s.len() as int),
    decreases s.len() - j,
{
    if j == s.len() {
        assert(s.take(j) =~= s);
        assert(s.subrange(j, s.len() as int) =~= Seq::<char>::empty());
        assert(last_segment(s.take(j)) + Seq::<char>::empty() =~= last_segment(s.take(j)));
    } else {
        let t = s.drop_last();
        lemma_last_segment_split(t, j);
        assert(t.take(j) =~= s.take(j));
        assert(s.subrange(j, s.len() as int) =~= t.subrange(j, t.len() as int).push(s.last()));
        assert(last_segment(s) == last_segment(t).push(s.last()));
        assert((last_segment(s.take(j)) + t.subrange(j, t.len() as int)).push(s.last())
            =~= last_segment(s.take(j)) + s.subrange(j, s.len() as int));
    }
}

/// The extension of a path is what follows its last `.`: a suffix of the
/// path with no `.` in it, right after a `.` when the path has one, and the
/// whole path when it has none.
pub proof fn lemma_extension_after_last_dot(s: Seq<char>)
    ensures
        last_segment(s).len() <= s.len(),
        last_segment(s) == s.subrange(s.len() - last_segment(s).len(), s.len() as int),
        forall|i: int| 0 <= i < last_segment(s).len() ==> #[trigger] last_segment(s)[i] != '.',
        last_segment(s).len() < s.len() ==> s[s.len() - last_segment(s).len() - 1] == '.',
        (forall|i: int| 0 <= i < s.len() ==> #[trigger] s[i] != '.') ==> last_segment(s) == s,
    decreases s.len(),
{
    if s.len() > 0 {
        let t = s.drop_last();
        lemma_extension_after_last_dot(t);
        if s.last() == '.' {
            assert(s.subrange(s.len() as int, s.len() as int) =~= Seq::<char>::empty());
        } else {
            let e = last_segment(s);
            let et = last_segment(t);
            assert(e == et.push(s.last()));
            assert(e =~= s.subrange(s.len() - e.len(), s.len() as int)) by {
                assert(et =~= t.subrange(t.len() - et.len(), t.len() as int));
            }
            assert forall|i: int| 0 <= i < e.len() implies #[trigger] e[i] != '.' by {
                if i < et.len() {
                    assert(e[i] == et[i]);
                }
            }
            if e.len() < s.len() {
                assert(s[s.len() - e.len() - 1] == t[t.len() - et.len() - 1]);
            }
            if forall|i: int| 0 <= i < s.len() ==> #[trigger] s[i] != '.' {
                assert forall|i: int| 0 <= i < t.len() implies #[trigger] t[i] != '.' by {
                    assert(t[i] == s[i]);
                }
                assert(e =~= s);
            }
        }
    }
}

/// The media type of each known extension; every other extension is
/// served as `application/octet-stream`.
pub proof fn lemma_known_content_types(ext: Seq<char>)
    ensures
        content_type_for("css"@) == "text/css; charset=utf-8"@,
        content_type_for("html"@) == "text/html; charset=utf-8"@,
        content_type_for("ico"@) == "image/x-icon"@,
        content_type_for("js"@) == "application/javascript"@,
        content_type_for("mjs"@) == "application/javascript"@,
        content_type_for("json"@) == "application/json"@,
        content_type_for("png"@) == "image/png"@,
        content_type_for("svg"@) == "image/svg+xml"@,
        content_type_for("txt"@) == "text/plain; charset=utf-8"@,
        content_type_for("wasm"@) == "application/wasm"@,
        content_type_for("woff2"@) == "font/woff2"@,
        (ext != "css"@ && ext != "html"@ && ext != "ico"@ && ext != "js"@ && ext != "mjs"@ && ext != "json"@
            && ext != "png"@ && ext != "svg"@ && ext != "txt"@ && ext != "wasm"@ && ext != "woff2"@)
            ==> content_type_for(ext) == "application/octet-stream"@,
{
    reveal_strlit("css");
    reveal_strlit("html");
    reveal_strlit("ico");
    reveal_strlit("js");
    reveal_strlit("mjs");
    reveal_strlit("json");
    reveal_strlit("png");
    reveal_strlit("svg");
    reveal_strlit("txt");
    reveal_strlit("wasm");
    reveal_strlit("woff2");
    assert("html"@[0] != "css"@[0]);
    assert("ico"@[0] != "css"@[0] && "ico"@[0] != "html"@[0]);
    assert("js"@.len() != "css"@.len() && "js"@[0] != "html"@[0] && "js"@[0] != "ico"@[0]);
    assert("mjs"@[0] != "css"@[0] && "mjs"@[0] != "html"@[0] && "mjs"@[0] != "ico"@[0] && "mjs"@[0] != "js"@[0]);
    assert("json"@[0] != "css"@[0] && "json"@[0] != "html"@[0] && "json"@[0] != "ico"@[0]
        && "json"@.len() != "js"@.len() && "json"@[0] != "mjs"@[0]);
    assert("png"@[0] != "css"@[0] && "png"@[0] != "html"@[0] && "png"@[0] != "ico"@[0] && "png"@[0] != "js"@[0]
        && "png"@[0] != "mjs"@[0] && "png"@[0] != "json"@[0]);
    assert("svg"@[0] != "css"@[0] && "svg"@[0] != "html"@[0] && "svg"@[0] != "ico"@[0] && "svg"@[0] != "js"@[0]
        && "svg"@[0] != "mjs"@[0] && "svg"@[0] != "json"@[0] && "svg"@[0] != "png"@[0]);
    assert("txt"@[0] != "css"@[0] && "txt"@[0] != "html"@[0] && "txt"@[0] != "ico"@[0] && "txt"@[0] != "js"@[0]
        && "txt"@[0] != "mjs"@[0] && "txt"@[0] != "json"@[0] && "txt"@[0] != "png"@[0] && "txt"@[0] != "svg"@[0]);
    assert("wasm"@[0] != "css"@[0] && "wasm"@[0] != "html"@[0] && "wasm"@[0] != "ico"@[0] && "wasm"@[0] != "js"@[0]
        && "wasm"@[0] != "mjs"@[0] && "wasm"@[0] != "json"@[0] && "wasm"@[0] != "png"@[0] && "wasm"@[0] != "svg"@[0]
        && "wasm"@[0] != "txt"@[0]);
    assert("woff2"@[0] != "css"@[0] && "woff2"@[0] != "html"@[0] && "woff2"@[0] != "ico"@[0] && "woff2"@[0] != "js"@[0]
        && "woff2"@[0] != "mjs"@[0] && "woff2"@[0] != "json"@[0] && "woff2"@[0] != "png"@[0] && "woff2"@[0] != "svg"@[0]
        && "woff2"@[0] != "txt"@[0] && "woff2"@.len() != "wasm"@.len());
}

/// The extension `content_type` looks at.
pub fn extension(path: &str) -> (e: &str)
    ensures
        e@ == last_segment(path@),
{
    let n = path.unicode_len();
    let mut j: usize = n;
    while j > 0 && path.get_char(j - 1) != '.'
        invariant
            n == path@.len(),
            j <= n,
            forall|k: int| j <= k < n ==> path@[k] != '.',
        decreases j,
    {
        j = j - 1;
    }
    proof {
        lemma_last_segment_split(path@, j as int);
        if j == 0 {
            assert(path@.take(0) =~= Seq::<char>::empty());
        } else {
            let p = path@.take(j as int);
            assert(p.last() == '.');
        }
        assert(Seq::<char>::empty() + path@.subrange(j as int, n as int) =~= path@.subrange(j as int, n as int));
    }
    path.substring_char(j, n)
}

/// The content type an asset is served with, by its extension.
pub fn content_type(path: &str) -> (r: &'static str)
    ensures
        r@ == content_type_for(last_segment(path@)),
{
    let ext = extension(path);
    if str_eq(ext, "css") {
        "text/css; charset=utf-8"
    } else if str_eq(ext, "html") {
        "text/html; charset=utf-8"
    } else if str_eq(ext, "ico") {
        "image/x-icon"
    } else if str_eq(ext, "js") || str_eq(ext, "mjs") {
        "application/javascript"
    } else if str_eq(ext, "json") {
        "application/json"
    } else if str_eq(ext, "png") {
        "image/png"
    } else if str_eq(ext, "svg") {
        "image/svg+xml"
    } else if str_eq(ext, "txt") {
        "text/plain; charset=utf-8"
    } else if str_eq(ext, "wasm") {
        "application/wasm"
    } else if str_eq(ext, "woff2") {
        "font/woff2"
    } else {
        "application/octet-stream"
    }
}

/// `s` without its leading `/` characters (`trim_start_matches('/')`).
pub open spec fn trim_leading_slashes(s: Seq<char>) -> Seq<char>
    decreases s.len(),
{
    if s.len() > 0 && s[0] == '/' {
        trim_leading_slashes(s.drop_first())
    } else {
        s
    }
}

proof fn lemma_trim_skip(s: Seq<char>, i: int)
    requires
        0 <= i <= s.len(),
        forall|k: int| 0 <= k < i ==> s[k] == '/',
    ensures
        trim_leading_slashes(s) == trim_leading_slashes(s.skip(i)),
    decreases i,
{
    if i > 0 {
        assert(s.drop_first().skip(i - 1) =~= s.skip(i));
        lemma_trim_skip(s.drop_first(), i - 1);
    } else {
        assert(s.skip(0) =~= s);
    }
}

/// Trimming removes exactly the leading slashes: the result is a suffix of
/// `s` that does not start with `/`, and everything before it is `/`.
pub proof fn lemma_trim_removes_leading_slashes(s: Seq<char>)
    ensures
        trim_leading_slashes(s).len() <= s.len(),
        trim_leading_slashes(s) == s.subrange(s.len() - trim_leading_slashes(s).len(), s.len() as int),
        trim_leading_slashes(s).len() > 0 ==> trim_leading_slashes(s)[0] != '/',
        forall|i: int| 0 <= i < s.len() - trim_leading_slashes(s).len() ==> #[trigger] s[i] == '/',
    decreases s.len(),
{
    if s.len() > 0 && s[0] == '/' {
        let t = s.drop_first();
        lemma_trim_removes_leading_slashes(t);
        let r = trim_leading_slashes(s);
        assert(r == trim_leading_slashes(t));
        assert(r =~= s.subrange(s.len() - r.len(), s.len() as int)) by {
            assert(r =~= t.subrange(t.len() - r.len(), t.len() as int));
        }
        assert forall|i: int| 0 <= i < s.len() - r.len() implies #[trigger] s[i] == '/' by {
            if i > 0 {
                assert(s[i] == t[i - 1]);
            }
        }
    } else {
        assert(s.subrange(0, s.len() as int) =~= s);
    }
}

/// The asset a request path names: the path without its leading slashes.
pub fn asset_path(uri_path: &str) -> (p: &str)
    ensures
        p@ == trim_leading_slashes(uri_path@),
{
    let n = uri_path.unicode_len();
    let mut i: usize = 0;
    while i < n && uri_path.get_char(i) == '/'
        invariant
            n == uri_path@.len(),
            i <= n,
            forall|k: int| 0 <= k < i ==> uri_path@[k] == '/',
        decreases n - i,
    {
        i = i + 1;
    }
    proof {
        lemma_trim_skip(uri_path@, i as int);
        assert(uri_path@.skip(i as int) =~= uri_path@.subrange(i as int, n as int));
    }
    uri_path.substring_char(i, n)
}

/// The body of the 500 response for an embedded asset that is missing.
pub fn missing_asset_message(path: &str) -> (m: String)
    ensures
        m@ == "embedded asset `"@ + path@ + "` not found"@,
{
    let mut m = owned("embedded asset `");
    push_str(&mut m, path);
    push_str(&mut m, "` not found");
    m
}

/// The asset served at `/`.
pub const INDEX_ASSET: &'static str = "index.html";

} // verus!
