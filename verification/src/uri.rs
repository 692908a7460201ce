//! Building the server location: the installation path is composed with an
//! unambiguous separator, rendered as a `urn` URI, and parsed into the
//! handle the host consumes.

use vstd::prelude::*;
use vstd::string::StrSliceExecFns;
use vstd::string::StringExecFns;

verus! {

/// Declares `url::Url` so that the parsed server location can be carried to
/// the host. The value is opaque: contracts speak of the URI text instead.
#[verifier::external_type_specification]
#[verifier::external_body]
pub struct ExUrl(url::Url);

/// Whether `url::Url::parse` accepts the given text. The outcome depends on
/// the characters alone.
pub uninterp spec fn uri_parses(s: Seq<char>) -> bool;

/// Relies on `url::Url::parse`: it reads nothing but its input, and a
/// failure rendered through the error's `Display` names the cause.
#[verifier::external_body]
pub(crate) fn parse_url(text: &String) -> (r: Result<url::Url, String>)
    ensures
        r is Ok <==> uri_parses(text@),
{
    match url::Url::parse(text.as_str()) {
        Ok(u) => Ok(u),
        Err(e) => Err(e.to_string()),
    }
}

/// The executable's file name on each platform.
pub open spec fn spec_exe_name(windows: bool) -> Seq<char> {
    if windows {
        ("gopls.exe")@
    } else {
        ("gopls")@
    }
}

/// The executable name for the host's platform.
pub fn exe_name(windows: bool) -> (r: &'static str)
    ensures
        r@ == spec_exe_name(windows),
{
    if windows {
        "gopls.exe"
    } else {
        "gopls"
    }
}

/// A directory extended by one path segment, with exactly one separator
/// between them.
pub open spec fn spec_joined(dir: Seq<char>, name: Seq<char>) -> Seq<char> {
    if dir.len() > 0 && dir[dir.len() - 1] == '/' {
        dir + name
    } else {
        dir + ("/")@ + name
    }
}

/// Appends one path segment to a directory.
pub fn join_path_segment(dir: &String, name: &str) -> (r: String)
    ensures
        r@ == spec_joined(dir@, name@),
{
    let mut r = dir.clone();
    let n: usize = dir.as_str().unicode_len();
    if n > 0 && dir.as_str().get_char(n - 1) == '/' {
        r.append(name);
    } else {
        r.append("/");
        r.append(name);
    }
    r
}

/// The URI text over a path: the fixed `urn` scheme, then the path itself.
pub fn build_uri_text(path: &String) -> (r: String)
    ensures
        r@ == ("urn:")@ + path@,
{
    let mut r = String::from_str("urn:");
    r.append(path.as_str());
    r
}

/// Composing the URI never truncates the final path segment: the text of
/// the `urn` URI over a joined path always ends with the segment that was
/// appended.
pub proof fn lemma_uri_keeps_final_segment(dir: Seq<char>, name: Seq<char>)
    ensures
        ({
            let t = ("urn:")@ + spec_joined(dir, name);
            t.len() >= name.len() && t.subrange(t.len() - name.len(), t.len() as int) =~= name
        }),
{
    let t = ("urn:")@ + spec_joined(dir, name);
    if dir.len() > 0 && dir[dir.len() - 1] == '/' {
        let p = ("urn:")@ + dir;
        assert(t =~= p + name);
        assert(t.subrange(t.len() - name.len(), t.len() as int) =~= name);
    } else {
        let p = ("urn:")@ + dir + ("/")@;
        assert(t =~= p + name);
        assert(t.subrange(t.len() - name.len(), t.len() as int) =~= name);
    }
}

} // verus!
