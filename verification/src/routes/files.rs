use vstd::prelude::*;

use crate::auth::{spec_check, verify_api_key, AuthError, HeaderLookup};
use crate::number::{decimal_digits, decimal_string};
use crate::text::{chars_equal_str, chars_of, string_from_chars};

verus! {

/// Lets a file request through only when its key check succeeds.
pub fn check_auth(secret: &Option<String>, header: &HeaderLookup) -> (r: Result<(), AuthError>)
    ensures
        r == spec_check(*secret, *header),
{
    if !verify_api_key(secret, header)? {
        return Err(AuthError::Unauthorized);
    }
    Ok(())
}

/// What follows the last `.` of `s`; all of `s` when it has no `.`.
pub open spec fn last_segment(s: Seq<char>) -> Seq<char>
    decreases s.len(),
{
    if s.len() == 0 {
        s
    } else if s.last() == '.' {
        Seq::empty()
    } else {
        last_segment(s.drop_last()).push(s.last())
    }
}

/// The content type served for a file extension.
pub open spec fn spec_mime_for_extension(ext: Seq<char>) -> Seq<char> {
    if ext == "png"@ {
        "image/png"@
    } else if ext == "jpg"@ || ext == "jpeg"@ {
        "image/jpeg"@
    } else if ext == "gif"@ {
        "image/gif"@
    } else if ext == "pdf"@ {
        "application/pdf"@
    } else if ext == "txt"@ {
        "text/plain"@
    } else if ext == "json"@ {
        "application/json"@
    } else if ext == "html"@ {
        "text/html"@
    } else if ext == "css"@ {
        "text/css"@
    } else if ext == "js"@ {
        "application/javascript"@
    } else {
        "application/octet-stream"@
    }
}

/// The extension of a path: what follows its last `.` (the whole path when it has none).
pub fn extension(path: &str) -> (ext: Vec<char>)
    ensures
        ext@ == last_segment(path@),
{
    let v = chars_of(path);
    let n: usize = v.len();
    let mut i: usize = n;
    assert(v@.take(n as int) =~= v@);
    assert(v@.subrange(n as int, n as int) =~= Seq::<char>::empty());
    while i > 0 && v[i - 1] != '.'
        invariant
            v@ == path@,
            n == v@.len(),
            i <= n,
            last_segment(v@) == last_segment(v@.take(i as int)) + v@.subrange(i as int, n as int),
        decreases i,
    {
        let ghost t = v@.take(i as int);
        assert(t.drop_last() =~= v@.take(i - 1));
        assert(last_segment(t) == last_segment(v@.take(i - 1)).push(v@[i - 1]));
        assert(last_segment(v@.take(i - 1)).push(v@[i - 1]) + v@.subrange(i as int, n as int)
            =~= last_segment(v@.take(i - 1)) + v@.subrange(i - 1, n as int));
        i = i - 1;
    }
    if i > 0 {
        assert(v@.take(i as int).last() == '.');
    } else {
        assert(v@.take(0) =~= Seq::<char>::empty());
    }
    let mut ext: Vec<char> = Vec::new();
    let mut j: usize = i;
    while j < n
        invariant
            v@ == path@,
            n == v@.len(),
            i <= j <= n,
            ext@ == v@.subrange(i as int, j as int),
        decreases n - j,
    {
        ext.push(v[j]);
        j = j + 1;
    }
    ext
}

/// The content type served for `path`, chosen by its extension.
pub fn mime_type_for_path(path: &str) -> (mime: &'static str)
    ensures
        mime@ == spec_mime_for_extension(last_segment(path@)),
{
    let ext = extension(path);
    if chars_equal_str(&ext, "png") {
        "image/png"
    } else if chars_equal_str(&ext, "jpg") || chars_equal_str(&ext, "jpeg") {
        "image/jpeg"
    } else if chars_equal_str(&ext, "gif") {
        "image/gif"
    } else if chars_equal_str(&ext, "pdf") {
        "application/pdf"
    } else if chars_equal_str(&ext, "txt") {
        "text/plain"
    } else if chars_equal_str(&ext, "json") {
        "application/json"
    } else if chars_equal_str(&ext, "html") {
        "text/html"
    } else if chars_equal_str(&ext, "css") {
        "text/css"
    } else if chars_equal_str(&ext, "js") {
        "application/javascript"
    } else {
        "application/octet-stream"
    }
}

/// The answer for a path that holds no file: its text and its status, 404.
pub fn missing_file() -> (answer: (&'static str, u16))
    ensures
        answer.0@ == "File not found"@,
        answer.1 == 404,
{
    ("File not found", 404)
}

/// The `Content-Length` header value for a body of `len` bytes.
pub fn content_length(len: usize) -> (value: String)
    ensures
        value@ == decimal_digits(len as nat),
{
    decimal_string(len as u64)
}


/// The last segment of `s` followed by more characters without `.` is that segment extended.
proof fn lemma_last_segment_append(s: Seq<char>, e: Seq<char>)
    requires
        forall|i: int| 0 <= i < e.len() ==> e[i] != '.',
    ensures
        last_segment(s + e) == last_segment(s) + e,
    decreases e.len(),
{
    if e.len() == 0 {
        assert(s + e =~= s);
        assert(last_segment(s) + e =~= last_segment(s));
    } else {
        let e0 = e.drop_last();
        lemma_last_segment_append(s, e0);
        assert((s + e).drop_last() =~= s + e0);
        assert((s + e).last() == e.last());
        assert(last_segment(s) + e =~= (last_segment(s) + e0).push(e.last()));
    }
}

/// Law: a path that ends with `.` and an extension without `.` is served with the content
/// type of that extension, whatever comes before.
pub proof fn law_type_follows_extension(prefix: Seq<char>, ext: Seq<char>)
    requires
        forall|i: int| 0 <= i < ext.len() ==> ext[i] != '.',
    ensures
        spec_mime_for_extension(last_segment(prefix + seq!['.'] + ext)) == spec_mime_for_extension(ext),
{
    let p = prefix + seq!['.'];
    assert(last_segment(p) =~= Seq::<char>::empty()) by {
        assert(p.last() == '.');
    }
    lemma_last_segment_append(p, ext);
    assert(Seq::<char>::empty() + ext =~= ext);
}


/// Law: the content types form a closed table: `png` is served as `image/png`, `jpg` and
/// `jpeg` as `image/jpeg`, `gif` as `image/gif`, `pdf` as `application/pdf`, `txt` as
/// `text/plain`, `json` as `application/json`, `html` as `text/html`, `css` as `text/css`,
/// `js` as `application/javascript`, and every other extension as
/// `application/octet-stream`.
pub proof fn law_content_type_table(path: Seq<char>)
    ensures
        ({
            let ext = last_segment(path);
            let mime = spec_mime_for_extension(ext);
            &&& ext == "png"@ ==> mime == "image/png"@
            &&& ext == "jpg"@ ==> mime == "image/jpeg"@
            &&& ext == "jpeg"@ ==> mime == "image/jpeg"@
            &&& ext == "gif"@ ==> mime == "image/gif"@
            &&& ext == "pdf"@ ==> mime == "application/pdf"@
            &&& ext == "txt"@ ==> mime == "text/plain"@
            &&& ext == "json"@ ==> mime == "application/json"@
            &&& ext == "html"@ ==> mime == "text/html"@
            &&& ext == "css"@ ==> mime == "text/css"@
            &&& ext == "js"@ ==> mime == "application/javascript"@
            &&& (ext != "png"@ && ext != "jpg"@ && ext != "jpeg"@ && ext != "gif"@ && ext != "pdf"@
                && ext != "txt"@ && ext != "json"@ && ext != "html"@ && ext != "css"@ && ext != "js"@)
                ==> mime == "application/octet-stream"@
        }),
{
    reveal_strlit("png");
    reveal_strlit("jpg");
    reveal_strlit("jpeg");
    reveal_strlit("gif");
    reveal_strlit("pdf");
    reveal_strlit("txt");
    reveal_strlit("json");
    reveal_strlit("html");
    reveal_strlit("css");
    reveal_strlit("js");
    assert("png"@.len() == 3 && "png"@[0] == 'p' && "png"@[1] == 'n');
    assert("jpg"@.len() == 3 && "jpg"@[0] == 'j' && "jpg"@[1] == 'p');
    assert("jpeg"@.len() == 4 && "jpeg"@[0] == 'j' && "jpeg"@[1] == 'p');
    assert("gif"@.len() == 3 && "gif"@[0] == 'g');
    assert("pdf"@.len() == 3 && "pdf"@[0] == 'p' && "pdf"@[1] == 'd');
    assert("txt"@.len() == 3 && "txt"@[0] == 't');
    assert("json"@.len() == 4 && "json"@[0] == 'j' && "json"@[1] == 's');
    assert("html"@.len() == 4 && "html"@[0] == 'h');
    assert("css"@.len() == 3 && "css"@[0] == 'c');
    assert("js"@.len() == 2 && "js"@[0] == 'j');
}

/// Law: the extension that chooses the content type is the part of the path after its last
/// `.`: it holds no `.`, the path ends with it, and the path either is that part alone or has
/// a `.` just before it.
pub proof fn law_extension_is_last_part(path: Seq<char>)
    ensures
        ({
            let ext = last_segment(path);
            &&& forall|i: int| 0 <= i < ext.len() ==> ext[i] != '.'
            &&& ext.len() <= path.len()
            &&& path.subrange(path.len() - ext.len(), path.len() as int) == ext
            &&& ext.len() == path.len() || path[path.len() - ext.len() - 1] == '.'
        }),
    decreases path.len(),
{
    if path.len() > 0 && path.last() != '.' {
        let p = path.drop_last();
        law_extension_is_last_part(p);
        let e = last_segment(p);
        assert(last_segment(path) == e.push(path.last()));
        assert(path.subrange(path.len() - e.len() - 1, path.len() as int) =~= e.push(path.last())) by {
            assert(p.subrange(p.len() - e.len(), p.len() as int) == e);
        }
        if e.len() < p.len() {
            assert(path[path.len() - e.len() - 2] == p[p.len() - e.len() - 1]);
        }
    }
}

} // verus!
