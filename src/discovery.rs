//! Finding the compositor's socket from the output of its discovery command.
use vstd::prelude::*;
use vstd::utf8::{decode_utf8, valid_utf8};

verus! {

/// Whether `c` is white space: the Unicode `White_Space` property.
pub open spec fn is_white(c: char) -> bool {
    ('\u{9}' <= c && c <= '\u{d}') || c == ' ' || c == '\u{85}' || c == '\u{a0}' || c
        == '\u{1680}' || ('\u{2000}' <= c && c <= '\u{200a}') || c == '\u{2028}' || c
        == '\u{2029}' || c == '\u{202f}' || c == '\u{205f}' || c == '\u{3000}'
}

/// Whether every character of `s` is white space.
pub open spec fn all_white(s: Seq<char>) -> bool {
    forall|k: int| 0 <= k < s.len() ==> is_white(#[trigger] s[k])
}

/// Whether `t` is `s` without its leading and trailing white space: the part of `s`
/// that runs from its first to its last character that is not white space.
pub open spec fn is_trim_of(t: Seq<char>, s: Seq<char>) -> bool {
    exists|i: int, j: int|
        {
            &&& 0 <= i <= j <= s.len()
            &&& t == s.subrange(i, j)
            &&& forall|k: int| 0 <= k < i ==> is_white(#[trigger] s[k])
            &&& forall|k: int| j <= k < s.len() ==> is_white(#[trigger] s[k])
            &&& i < j ==> !is_white(s[i]) && !is_white(s[j - 1])
        }
}

/// Relies on `String::from_utf8`: it succeeds exactly on valid UTF-8, with the text
/// that the bytes encode.
#[verifier::external_body]
fn text_from_utf8(b: Vec<u8>) -> (r: Option<String>)
    ensures
        match r {
            Some(s) => valid_utf8(b@) && s@ == decode_utf8(b@),
            None => !valid_utf8(b@),
        },
{
    String::from_utf8(b).ok()
}

/// Relies on `str::trim`: the text without leading and trailing characters of the
/// Unicode `White_Space` property.
#[verifier::external_body]
fn trim_text(s: &String) -> (r: String)
    ensures
        is_trim_of(r@, s@),
{
    s.trim().to_string()
}

proof fn lemma_trim_empty(t: Seq<char>, s: Seq<char>)
    requires
        is_trim_of(t, s),
    ensures
        t.len() == 0 <==> all_white(s),
{
    let (i, j) = choose|i: int, j: int|
        {
            &&& 0 <= i <= j <= s.len()
            &&& t == s.subrange(i, j)
            &&& forall|k: int| 0 <= k < i ==> is_white(#[trigger] s[k])
            &&& forall|k: int| j <= k < s.len() ==> is_white(#[trigger] s[k])
            &&& i < j ==> !is_white(s[i]) && !is_white(s[j - 1])
        };
    if t.len() == 0 {
        assert forall|k: int| 0 <= k < s.len() implies is_white(#[trigger] s[k]) by {
            if k >= i {
                assert(k >= j);
            }
        }
    } else {
        assert(!is_white(s[i]));
    }
}

/// Why the socket could not be found.
#[derive(Clone, Copy, Debug, PartialEq, Eq, Structural)]
pub enum DiscoveryError {
    /// The discovery command did not exit successfully.
    CommandFailed,
    /// Its output was not UTF-8.
    NotUtf8,
    /// Its output was empty once trimmed.
    EmptyPath,
}

/// Accepts an already trimmed socket path, unless it is empty.
pub fn check_socket_path(path: String) -> (r: Result<String, DiscoveryError>)
    ensures
        path@.len() == 0 <==> r is Err,
        r matches Ok(p) ==> p@ == path@,
        r matches Err(e) ==> e == DiscoveryError::EmptyPath,
{
    if path.as_str().is_empty() {
        Err(DiscoveryError::EmptyPath)
    } else {
        Ok(path)
    }
}

/// The socket path in the output of the discovery command, given whether the
/// command exited successfully and what it wrote to its standard output.
pub fn socket_path_from_output(exit_ok: bool, stdout: Vec<u8>) -> (r: Result<
    String,
    DiscoveryError,
>)
    ensures
        !exit_ok ==> r == Err::<String, DiscoveryError>(DiscoveryError::CommandFailed),
        exit_ok && !valid_utf8(stdout@) ==> r == Err::<String, DiscoveryError>(
            DiscoveryError::NotUtf8,
        ),
        exit_ok && valid_utf8(stdout@) && all_white(decode_utf8(stdout@)) ==> r == Err::<
            String,
            DiscoveryError,
        >(DiscoveryError::EmptyPath),
        exit_ok && valid_utf8(stdout@) && !all_white(decode_utf8(stdout@)) ==> (r matches Ok(p)
            && is_trim_of(p@, decode_utf8(stdout@))),
{
    if !exit_ok {
        return Err(DiscoveryError::CommandFailed);
    }
    let ghost bytes = stdout@;
    match text_from_utf8(stdout) {
        Some(text) => {
            let path = trim_text(&text);
            proof {
                lemma_trim_empty(path@, text@);
            }
            check_socket_path(path)
        },
        None => Err(DiscoveryError::NotUtf8),
    }
}

} // verus!
