//! The path resolver: from a remote reference and a workspace root to the
//! local clone destination.

use vstd::prelude::*;

use crate::config::Circumstances;
use crate::error::JagoError;
use crate::text::{find_char_from, find_from, rfind, rfind_char};
use crate::url_parse::{parse_url, url_parts_of};

verus! {

/// The three characters `://` stand in `s` at position `i`.
pub open spec fn scheme_sep_at(s: Seq<char>, i: int) -> bool {
    &&& 0 <= i
    &&& i + 3 <= s.len()
    &&& s[i] == ':'
    &&& s[i + 1] == '/'
    &&& s[i + 2] == '/'
}

/// `s` holds `://` somewhere, as a standard-form URL does.
pub open spec fn has_scheme_sep(s: Seq<char>) -> bool {
    exists|i: int| scheme_sep_at(s, i)
}

/// `s` is an SCP-shorthand remote: it holds no `://`, but holds an `@`
/// with a `:` somewhere after it.
pub open spec fn is_scp_shorthand(s: Seq<char>) -> bool {
    &&& !has_scheme_sep(s)
    &&& find_from(s, '@', 0) >= 0
    &&& find_from(s, ':', find_from(s, '@', 0) + 1) >= 0
}

/// The SCP-shorthand remote `user@host:path` rewritten as the pseudo-URL
/// `ssh://user@host/path`: the first `:` after the `@` becomes `/`.
pub open spec fn scp_rewritten(s: Seq<char>) -> Seq<char>
    recommends
        is_scp_shorthand(s),
{
    let k = find_from(s, ':', find_from(s, '@', 0) + 1);
    "ssh://"@ + s.take(k) + "/"@ + s.skip(k + 1)
}

/// What is handed to the URL parser: SCP shorthand is first rewritten to
/// its pseudo-URL form; anything else is parsed as it stands.
pub open spec fn candidate_of(remote: Seq<char>) -> Seq<char> {
    if is_scp_shorthand(remote) {
        scp_rewritten(remote)
    } else {
        remote
    }
}

/// `p` without its leading `/`, if it has one.
pub open spec fn strip_slash(p: Seq<char>) -> Seq<char> {
    if p.len() > 0 && p[0] == '/' {
        p.skip(1)
    } else {
        p
    }
}

/// `p` with any trailing extension on its last segment removed: cut at the
/// last `.`, provided it falls inside the last `/`-separated segment and is
/// not that segment's first character.
pub open spec fn strip_ext(p: Seq<char>) -> Seq<char> {
    let d = rfind(p, '.');
    let sl = rfind(p, '/');
    if d >= 0 && d > sl + 1 {
        p.take(d)
    } else {
        p
    }
}

/// `base` and `seg` joined with a `/` separator; an empty side contributes
/// nothing.
pub open spec fn join(base: Seq<char>, seg: Seq<char>) -> Seq<char> {
    if seg.len() == 0 {
        base
    } else if base.len() == 0 {
        seg
    } else {
        base + "/"@ + seg
    }
}

/// The destination for a parsed remote: `root/host/path`, with the path's
/// leading `/` dropped and any trailing extension on its last segment
/// removed.
pub open spec fn dest_of(root: Seq<char>, host: Seq<char>, path: Seq<char>) -> Seq<char> {
    join(join(root, host), strip_ext(strip_slash(path)))
}

/// Everything resolution promises: which variant comes back, and, on
/// success, exactly which destination.
pub open spec fn resolve_post(root: Seq<char>, remote: Seq<char>, r: Result<
    String,
    JagoError,
>) -> bool {
    match url_parts_of(candidate_of(remote)) {
        None => r matches Err(JagoError::Parse(_)),
        Some(parts) => match parts.0 {
            None => r matches Err(JagoError::InvalidRemote),
            Some(h) => r matches Ok(dest) && dest@ == dest_of(root, h, parts.1),
        },
    }
}

/// Whether `s` holds the three characters `://` anywhere.
fn contains_scheme_sep(s: &str) -> (r: bool)
    ensures
        r == has_scheme_sep(s@),
{
    let n = s.unicode_len();
    if n < 3 {
        return false;
    }
    let mut i: usize = 0;
    while i <= n - 3
        invariant
            i <= n - 2,
            n == s@.len(),
            3 <= n,
            forall|j: int| 0 <= j < i ==> !scheme_sep_at(s@, j),
        decreases n - i,
    {
        if s.get_char(i) == ':' && s.get_char(i + 1) == '/' && s.get_char(i + 2) == '/' {
            assert(scheme_sep_at(s@, i as int));
            return true;
        }
        i = i + 1;
    }
    false
}

/// The string handed to the URL parser: SCP shorthand rewritten to its
/// `ssh://` pseudo-URL form, anything else unchanged.
fn normalize_remote(remote: &str) -> (r: String)
    ensures
        r@ == candidate_of(remote@),
{
    let n = remote.unicode_len();
    if contains_scheme_sep(remote) {
        return remote.to_owned();
    }
    match find_char_from(remote, '@', 0) {
        None => remote.to_owned(),
        Some(a) => match find_char_from(remote, ':', a + 1) {
            None => remote.to_owned(),
            Some(k) => {
                let mut out = String::from_str("ssh://");
                out.append(remote.substring_char(0, k));
                out.append("/");
                out.append(remote.substring_char(k + 1, n));
                proof {
                    assert(remote@.subrange(0, k as int) =~= remote@.take(k as int));
                    assert(remote@.subrange(k as int + 1, n as int) =~= remote@.skip(
                        k as int + 1,
                    ));
                }
                out
            },
        },
    }
}

/// `base` and `seg` joined with a `/` separator.
fn join_segment(base: String, seg: &str) -> (r: String)
    ensures
        r@ == join(base@, seg@),
{
    if seg.is_empty() {
        base
    } else if base.as_str().is_empty() {
        seg.to_owned()
    } else {
        base.concat("/").concat(seg)
    }
}

/// `root/host/path` with the path's leading `/` dropped and any trailing
/// extension on its last segment removed.
fn build_destination(root: &str, host: &str, path: &str) -> (r: String)
    ensures
        r@ == dest_of(root@, host@, path@),
{
    let n = path.unicode_len();
    let rel: &str = if n > 0 && path.get_char(0) == '/' {
        let t = path.substring_char(1, n);
        proof {
            assert(path@.subrange(1, n as int) =~= path@.skip(1));
        }
        t
    } else {
        path
    };
    let stripped: &str = match rfind_char(rel, '.') {
        None => rel,
        Some(d) => {
            let cut = match rfind_char(rel, '/') {
                Some(sl) => d > sl + 1,
                None => d > 0,
            };
            if cut {
                let t = rel.substring_char(0, d);
                proof {
                    assert(rel@.subrange(0, d as int) =~= rel@.take(d as int));
                }
                t
            } else {
                rel
            }
        },
    };
    let under_host = join_segment(root.to_owned(), host);
    join_segment(under_host, stripped)
}

/// Resolve a remote reference against a workspace root: the destination is
/// `root/host/path` (extension on the last segment removed) when the
/// reference, in standard URL form or in SCP shorthand, names a host; a
/// reference that no supported dialect can parse fails with the parser's
/// error, and one that parses without a host fails with
/// [`JagoError::InvalidRemote`].  No filesystem is touched.
pub fn resolve(root: &str, remote: &str) -> (r: Result<String, JagoError>)
    ensures
        resolve_post(root@, remote@, r),
{
    let candidate = normalize_remote(remote);
    match parse_url(candidate.as_str()) {
        Err(e) => Err(JagoError::from(e)),
        Ok(parts) => match parts.host {
            None => Err(JagoError::InvalidRemote),
            Some(h) => Ok(build_destination(root, h.as_str(), parts.path.as_str())),
        },
    }
}

/// Resolve a remote reference against the configured workspace root.
pub fn get_destination_dir(circumstances: Circumstances, remote: &str) -> (r: Result<
    String,
    JagoError,
>)
    ensures
        resolve_post(circumstances.repository_directory@, remote@, r),
{
    resolve(circumstances.repository_directory.as_str(), remote)
}

/// A standard-form remote — one holding `://` — is handed to the parser as
/// it stands: the SCP rewrite never touches it, so [`resolve`]'s contract
/// reads `root/host/path` directly off the remote's own parse.
pub proof fn lemma_standard_form_not_rewritten(remote: Seq<char>)
    requires
        has_scheme_sep(remote),
    ensures
        candidate_of(remote) == remote,
{
}

/// Rewriting SCP shorthand yields a string that holds `://`, so it is in
/// turn parsed as it stands.
pub proof fn lemma_rewritten_is_standard_form(remote: Seq<char>)
    requires
        is_scp_shorthand(remote),
    ensures
        has_scheme_sep(scp_rewritten(remote)),
        candidate_of(scp_rewritten(remote)) == scp_rewritten(remote),
{
    reveal_strlit("ssh://");
    let t = scp_rewritten(remote);
    assert(t[3] == ':' && t[4] == '/' && t[5] == '/');
    assert(scheme_sep_at(t, 3));
}

/// An SCP-shorthand remote resolves exactly as the equivalent standard-form
/// remote — its `ssh://user@host/path` rewriting — does: the same success
/// or failure, the same error kind, and the same destination.
pub proof fn lemma_scp_resolves_like_standard_form(
    root: Seq<char>,
    remote: Seq<char>,
    r1: Result<String, JagoError>,
    r2: Result<String, JagoError>,
)
    requires
        is_scp_shorthand(remote),
        resolve_post(root, remote, r1),
        resolve_post(root, scp_rewritten(remote), r2),
    ensures
        r1 is Ok <==> r2 is Ok,
        r1 matches Ok(d1) ==> r2 matches Ok(d2) && d1@ == d2@,
        r1 matches Err(e1) ==> r2 matches Err(e2) && (e1 is InvalidRemote
            <==> e2 is InvalidRemote),
{
    lemma_rewritten_is_standard_form(remote);
    lemma_resolve_deterministic(root, scp_rewritten(remote), r1, r2);
}

/// Resolution is deterministic: any two results that [`resolve`]'s contract
/// allows for the same root and remote agree — the same success or failure,
/// the same error kind, and the same destination.
pub proof fn lemma_resolve_deterministic(
    root: Seq<char>,
    remote: Seq<char>,
    r1: Result<String, JagoError>,
    r2: Result<String, JagoError>,
)
    requires
        resolve_post(root, remote, r1),
        resolve_post(root, remote, r2),
    ensures
        r1 is Ok <==> r2 is Ok,
        r1 matches Ok(d1) ==> r2 matches Ok(d2) && d1@ == d2@,
        r1 matches Err(e1) ==> r2 matches Err(e2) && (e1 is InvalidRemote
            <==> e2 is InvalidRemote),
{
    match url_parts_of(candidate_of(remote)) {
        None => {
            assert(r1 matches Err(JagoError::Parse(_)));
            assert(r2 matches Err(JagoError::Parse(_)));
        },
        Some(parts) => match parts.0 {
            None => {
                assert(r1 matches Err(JagoError::InvalidRemote));
                assert(r2 matches Err(JagoError::InvalidRemote));
            },
            Some(h) => {
                assert(r1 matches Ok(d1) && d1@ == dest_of(root, h, parts.1));
                assert(r2 matches Ok(d2) && d2@ == dest_of(root, h, parts.1));
            },
        },
    }
}

} // verus!
