//! RemoteLocator: turns a remote repository address — an HTTPS URL or an
//! SSH shorthand such as `git@host:group/proj.git` — into a canonical
//! `(host, project path)` pair.
//!
//! An SSH shorthand is first rewritten to a URI (`ssh://` prefixed, the
//! first `:` after the host replaced by `/`); the address is then parsed
//! as an absolute URI by the `url` crate. The host must be present; the
//! URI path is kept as parsed, except that exactly one leading `/` and
//! exactly one trailing `.git` are stripped.

use vstd::prelude::*;

use crate::bytes::{
    append_bytes, copy_range, ends_with, find_byte, has_prefix, has_suffix,
    lemma_find_byte_at, lemma_find_byte_spec, scan_byte,
};
use crate::bytes::{
    B_AT, B_COLON, B_DASH, B_DOT, B_LOW_A, B_LOW_G, B_LOW_H, B_LOW_I, B_LOW_P, B_LOW_S, B_LOW_T,
    B_LOW_Z, B_NINE, B_SLASH, B_TILDE, B_UNDER, B_UP_A, B_UP_Z, B_ZERO,
};

verus! {


// ---------------------------------------------------------------------------
// Byte classes for "plain" addresses: a restricted alphabet on which URI
// parsing is guaranteed to be purely syntactic (no percent-encoding, no case
// folding, no dot-segment or numeric-host normalization).
// ---------------------------------------------------------------------------

/// Lowercase ASCII letter.
pub open spec fn is_lower_alpha(b: u8) -> bool {
    B_LOW_A <= b <= B_LOW_Z
}

/// ASCII letter of either case.
pub open spec fn is_alpha(b: u8) -> bool {
    is_lower_alpha(b) || (B_UP_A <= b <= B_UP_Z)
}

/// ASCII digit.
pub open spec fn is_digit(b: u8) -> bool {
    B_ZERO <= b <= B_NINE
}

/// Bytes of a plain host name: lowercase letters, digits, `.` and `-`.
pub open spec fn is_plain_host_byte(b: u8) -> bool {
    is_lower_alpha(b) || is_digit(b) || b == B_DOT || b == B_DASH
}

/// Bytes of a plain user name before `@`.
pub open spec fn is_plain_user_byte(b: u8) -> bool {
    is_lower_alpha(b) || is_digit(b) || b == B_DOT || b == B_DASH || b == B_UNDER
}

/// Bytes of a plain path segment.
pub open spec fn is_plain_segment_byte(b: u8) -> bool {
    is_alpha(b) || is_digit(b) || b == B_DOT || b == B_UNDER || b == B_TILDE || b == B_DASH
}

/// A label of `h` begins at `i`: at the start, or right after a dot.
pub open spec fn is_label_start(h: Seq<u8>, i: int) -> bool {
    0 <= i < h.len() && (i == 0 || h[i - 1] == B_DOT)
}

/// A plain host: dot-separated labels that begin with a lowercase letter,
/// continue with lowercase letters, digits and hyphens, do not end in a
/// hyphen, and do not carry `--` as their third and fourth bytes (the
/// ACE-prefix shape) — the labels a URL parser passes through verbatim.
/// A label's leading letter also keeps the last label from ever looking
/// like a number.
pub open spec fn is_plain_host(h: Seq<u8>) -> bool {
    &&& h.len() > 0
    &&& (forall|i: int| 0 <= i < h.len() ==> is_plain_host_byte(h[i]))
    &&& (forall|i: int| #[trigger] is_label_start(h, i) ==> is_lower_alpha(h[i]))
    &&& (forall|i: int|
        0 <= i < h.len() && (i + 1 == h.len() || h[i + 1] == B_DOT) ==> #[trigger] h[i] != B_DASH
            && h[i] != B_DOT)
    &&& (forall|i: int| #[trigger] is_label_start(h, i) && i + 3 < h.len() ==> !(h[i + 2]
        == B_DASH && h[i + 3] == B_DASH))
}

/// A plain user name: nonempty, all plain user bytes.
pub open spec fn is_plain_user(u: Seq<u8>) -> bool {
    u.len() > 0 && (forall|i: int| 0 <= i < u.len() ==> is_plain_user_byte(u[i]))
}

/// A plain relative path: nonempty `/`-separated segments of plain segment
/// bytes, no segment empty and none starting with `.` (so in particular no
/// `.` or `..` segments, which a URL parser would fold away).
pub open spec fn is_plain_project_path(p: Seq<u8>) -> bool {
    &&& p.len() > 0
    &&& (forall|i: int| 0 <= i < p.len() ==> is_plain_segment_byte(p[i]) || p[i] == B_SLASH)
    &&& (forall|i: int| 0 <= i < p.len() && #[trigger] p[i] == B_SLASH ==> i > 0 && p[i - 1] != B_SLASH)
    &&& (forall|i: int| 0 <= i < p.len() && #[trigger] p[i] == B_DOT ==> i > 0 && p[i - 1] != B_SLASH)
    &&& p[p.len() - 1] != B_SLASH
}

// ---------------------------------------------------------------------------
// Plain hierarchical URLs and their syntactic host/path decomposition.
// ---------------------------------------------------------------------------

/// The bytes of `https://`.
pub open spec fn https_scheme() -> Seq<u8> {
    seq![B_LOW_H, B_LOW_T, B_LOW_T, B_LOW_P, B_LOW_S, B_COLON, B_SLASH, B_SLASH]
}

/// The bytes of `ssh://`.
pub open spec fn ssh_scheme() -> Seq<u8> {
    seq![B_LOW_S, B_LOW_S, B_LOW_H, B_COLON, B_SLASH, B_SLASH]
}

/// The bytes of `.git`.
pub open spec fn dot_git() -> Seq<u8> {
    seq![B_DOT, B_LOW_G, B_LOW_I, B_LOW_T]
}

/// `host/relative-path` with a plain host before the first `/` and a plain
/// path after it.
pub open spec fn is_plain_host_path(t: Seq<u8>) -> bool {
    let sl = find_byte(t, B_SLASH);
    &&& 1 <= sl
    &&& is_plain_host(t.take(sl))
    &&& is_plain_project_path(t.skip(sl + 1))
}

/// `https://host/path` over the plain alphabet, without user info.
pub open spec fn is_plain_https_url(a: Seq<u8>) -> bool {
    &&& has_prefix(a, https_scheme())
    &&& is_plain_host_path(a.skip(https_scheme().len() as int))
}

/// `ssh://user@host/path` over the plain alphabet.
pub open spec fn is_plain_ssh_url(a: Seq<u8>) -> bool {
    &&& has_prefix(a, ssh_scheme())
    &&& {
        let rest = a.skip(ssh_scheme().len() as int);
        let at = find_byte(rest, B_AT);
        &&& 1 <= at
        &&& (forall|i: int| 0 <= i < at ==> is_plain_user_byte(rest[i]))
        &&& is_plain_host_path(rest.skip(at + 1))
    }
}

/// A plain hierarchical URL of either scheme.
pub open spec fn is_plain_hier_url(a: Seq<u8>) -> bool {
    is_plain_https_url(a) || is_plain_ssh_url(a)
}

/// The `host/path` tail of a plain hierarchical URL, after the scheme and
/// any user info.
pub open spec fn hier_tail(a: Seq<u8>) -> Seq<u8> {
    if is_plain_https_url(a) {
        a.skip(https_scheme().len() as int)
    } else {
        let rest = a.skip(ssh_scheme().len() as int);
        rest.skip(find_byte(rest, B_AT) + 1)
    }
}

/// The host of a plain hierarchical URL: the tail up to the first `/`.
pub open spec fn hier_host(a: Seq<u8>) -> Seq<u8> {
    hier_tail(a).take(find_byte(hier_tail(a), B_SLASH))
}

/// The URI path of a plain hierarchical URL: the tail from the first `/`
/// on, leading `/` included.
pub open spec fn hier_path(a: Seq<u8>) -> Seq<u8> {
    hier_tail(a).skip(find_byte(hier_tail(a), B_SLASH))
}

// ---------------------------------------------------------------------------
// SSH shorthand detection and rewriting.
// ---------------------------------------------------------------------------

/// An address is SSH shorthand (`user@host:path`) when a `@` occurs before
/// the first `:`. An URL never has this shape: its first `:` ends the
/// scheme, before any user info.
pub open spec fn is_ssh_shorthand(a: Seq<u8>) -> bool {
    let at = find_byte(a, B_AT);
    let col = find_byte(a, B_COLON);
    0 <= at && 0 <= col && at < col
}

/// The address handed to the URI parser: SSH shorthand is prefixed with
/// `ssh://` and its first `:` (the one after the host) becomes `/`; any
/// other address is parsed as it stands.
pub open spec fn ssh_rewritten(a: Seq<u8>) -> Seq<u8> {
    if is_ssh_shorthand(a) {
        ssh_scheme() + a.update(find_byte(a, B_COLON), B_SLASH)
    } else {
        a
    }
}

/// Rewrites an SSH shorthand address to its `ssh://` URI form.
pub fn rewrite_ssh_shorthand(addr: &[u8]) -> (r: Vec<u8>)
    ensures
        r@ == ssh_rewritten(addr@),
{
    let at = scan_byte(addr, B_AT);
    let col = scan_byte(addr, B_COLON);
    match (at, col) {
        (Some(a), Some(c)) => {
            if a < c {
                let mut out: Vec<u8> = Vec::new();
                let scheme: [u8; 6] = [B_LOW_S, B_LOW_S, B_LOW_H, B_COLON, B_SLASH, B_SLASH];
                append_bytes(&mut out, &scheme);
                append_bytes(&mut out, addr);
                proof {
                    lemma_find_byte_spec(addr@, B_COLON);
                }
                let out_len = out.len();
                assert(6 + c < out_len);
                out.set(6 + c, B_SLASH);
                proof {
                    assert(out@ =~= ssh_scheme() + addr@.update(c as int, B_SLASH));
                }
                out
            } else {
                let r = vstd::slice::slice_to_vec(addr);
                r
            }
        }
        _ => {
            let r = vstd::slice::slice_to_vec(addr);
            r
        }
    }
}

// ---------------------------------------------------------------------------
// The URI parser, trusted at its call alone.
// ---------------------------------------------------------------------------

/// The host and path that absolute-URI parsing gives to an address, or
/// `None` when the address does not parse as an absolute URI with a host.
/// The result is a function of the address bytes alone.
pub uninterp spec fn url_host_path(addr: Seq<u8>) -> Option<(Seq<u8>, Seq<u8>)>;

/// Relies on `url::Url::parse`, read through `Url::host_str` and
/// `Url::path`: parsing is a function of the address bytes alone; and on
/// a plain hierarchical URL it returns the authority's host and the path
/// verbatim. Every plain host label begins with a lowercase letter,
/// continues with lowercase letters, digits and hyphens, neither ends in
/// a hyphen nor carries `--` as its third and fourth bytes, so each label
/// takes the domain normalizer's ASCII fast path unchanged and the last
/// label never looks numeric; the plain path segments hold no
/// percent-encodable byte and no dot segment, so the path state copies
/// them as written. Bytes that are not UTF-8 parse as a failure (every
/// plain hierarchical URL is ASCII).
#[verifier::external_body]
fn parse_absolute_url(addr: &[u8]) -> (r: Option<(Vec<u8>, Vec<u8>)>)
    ensures
        (match r {
            Some(hp) => url_host_path(addr@) == Some((hp.0@, hp.1@)) && (is_plain_hier_url(addr@)
                ==> hp.0@ == hier_host(addr@) && hp.1@ == hier_path(addr@)),
            None => url_host_path(addr@) is None && !is_plain_hier_url(addr@),
        }),
{
    let s = match core::str::from_utf8(addr) {
        Ok(s) => s,
        Err(_) => return None,
    };
    match url::Url::parse(s) {
        Ok(u) => {
            let host = match u.host_str() {
                Some(h) => h.as_bytes().to_vec(),
                None => return None,
            };
            Some((host, u.path().as_bytes().to_vec()))
        }
        Err(_) => None,
    }
}

// ---------------------------------------------------------------------------
// Stripping the URI path down to the project path.
// ---------------------------------------------------------------------------

/// The path with one leading `/` removed, if present.
pub open spec fn strip_leading_slash(p: Seq<u8>) -> Seq<u8> {
    if p.len() > 0 && p[0] == B_SLASH {
        p.skip(1)
    } else {
        p
    }
}

/// The path with one trailing `.git` removed, if present.
pub open spec fn strip_dot_git(p: Seq<u8>) -> Seq<u8> {
    if has_suffix(p, dot_git()) {
        p.take(p.len() - 4)
    } else {
        p
    }
}

/// The project path a URI path yields: one leading `/` stripped, then one
/// trailing `.git`; the internal structure is untouched.
pub open spec fn project_of_url_path(p: Seq<u8>) -> Seq<u8> {
    strip_dot_git(strip_leading_slash(p))
}

/// Strips one leading `/` and one trailing `.git` from a URI path.
fn strip_url_path(p: &[u8]) -> (r: Vec<u8>)
    ensures
        r@ == project_of_url_path(p@),
{
    let n = p.len();
    let start: usize = if n > 0 && p[0] == B_SLASH {
        1
    } else {
        0
    };
    let stripped = vstd::slice::slice_subrange(p, start, n);
    assert(stripped@ == strip_leading_slash(p@));
    let git: [u8; 4] = [B_DOT, B_LOW_G, B_LOW_I, B_LOW_T];
    let m = stripped.len();
    if ends_with(stripped, &git) {
        assert(git@ =~= dot_git());
        copy_range(stripped, 0, m - 4)
    } else {
        assert(git@ =~= dot_git());
        copy_range(stripped, 0, m)
    }
}

// ---------------------------------------------------------------------------
// The parsed remote.
// ---------------------------------------------------------------------------

/// Failure of RemoteLocator: the address does not parse as an absolute URI,
/// or it has no host.
#[derive(Debug, PartialEq, Eq, Structural)]
pub enum RemoteError {
    ErrMalformedRemote,
}

/// A remote address reduced to its canonical parts. `host` is never empty;
/// `project_path` has no leading `/` and no trailing `.git`.
pub struct ParsedRemote {
    pub host: Vec<u8>,
    pub project_path: Vec<u8>,
    pub original_address: Vec<u8>,
}

impl ParsedRemote {
    /// Invariant: the host is nonempty.
    pub open spec fn wf(self) -> bool {
        self.host@.len() > 0
    }
}

/// What parsing an address yields: the host and project path, or `None`
/// when the (rewritten) address has no parse or no host.
pub open spec fn parse_remote_spec(a: Seq<u8>) -> Option<(Seq<u8>, Seq<u8>)> {
    match url_host_path(ssh_rewritten(a)) {
        Some(hp) => if hp.0.len() == 0 {
            None
        } else {
            Some((hp.0, project_of_url_path(hp.1)))
        },
        None => None,
    }
}

/// Parses a remote address into host and project path. SSH shorthand is
/// rewritten to `ssh://` URI form first; the host must be present; the
/// project path loses one leading `/` and one trailing `.git`. On a plain
/// hierarchical address (either form), host and project are exactly the
/// written parts.
pub fn parse_remote(addr: &[u8]) -> (r: Result<ParsedRemote, RemoteError>)
    ensures
        (r matches Ok(pr) ==> parse_remote_spec(addr@) == Some((pr.host@, pr.project_path@))
            && pr.original_address@ == addr@ && pr.wf()),
        r is Err <==> parse_remote_spec(addr@) is None,
        is_plain_hier_url(ssh_rewritten(addr@)) ==> (r matches Ok(pr)
            && pr.host@ == hier_host(ssh_rewritten(addr@))
            && pr.project_path@ == project_of_url_path(hier_path(ssh_rewritten(addr@)))),
{
    let rewritten = rewrite_ssh_shorthand(addr);
    proof {
        if is_plain_hier_url(rewritten@) {
            lemma_plain_hier_host_nonempty(rewritten@);
        }
    }
    match parse_absolute_url(rewritten.as_slice()) {
        Some((host, path)) => {
            if host.len() == 0 {
                Err(RemoteError::ErrMalformedRemote)
            } else {
                let project_path = strip_url_path(path.as_slice());
                let original_address = vstd::slice::slice_to_vec(addr);
                Ok(ParsedRemote { host, project_path, original_address })
            }
        }
        None => Err(RemoteError::ErrMalformedRemote),
    }
}

/// A plain hierarchical URL has a nonempty host.
pub proof fn lemma_plain_hier_host_nonempty(a: Seq<u8>)
    requires
        is_plain_hier_url(a),
    ensures
        hier_host(a).len() > 0,
{
    let t = hier_tail(a);
    lemma_find_byte_spec(t, B_SLASH);
}

// ---------------------------------------------------------------------------
// The two canonical address forms and what the locator makes of them.
// ---------------------------------------------------------------------------

/// The HTTPS address `https://<host>/<project>.git`.
pub open spec fn https_git_addr(h: Seq<u8>, p: Seq<u8>) -> Seq<u8> {
    https_scheme() + h + seq![B_SLASH] + p + dot_git()
}

/// The SSH shorthand address `<user>@<host>:<project>.git`.
pub open spec fn ssh_git_addr(u: Seq<u8>, h: Seq<u8>, p: Seq<u8>) -> Seq<u8> {
    u + seq![B_AT] + h + seq![B_COLON] + p + dot_git()
}

/// A plain project path stays plain when `.git` is appended, and stripping
/// the URI path `/<p>.git` gives back exactly `p`.
proof fn lemma_project_with_git(p: Seq<u8>)
    requires
        is_plain_project_path(p),
    ensures
        is_plain_project_path(p + dot_git()),
        project_of_url_path(seq![B_SLASH] + (p + dot_git())) == p,
{
    let q = p + dot_git();
    assert(q.len() == p.len() + 4);
    assert forall|i: int| 0 <= i < q.len() implies is_plain_segment_byte(#[trigger] q[i])
        || q[i] == B_SLASH by {
        if i < p.len() {
            assert(q[i] == p[i]);
        } else {
            assert(q[i] == dot_git()[i - p.len()]);
        }
    }
    assert forall|i: int| 0 <= i < q.len() && #[trigger] q[i] == B_SLASH implies i > 0
        && q[i - 1] != B_SLASH by {
        assert(q[i] == if i < p.len() { p[i] } else { dot_git()[i - p.len()] });
        assert(i < p.len());
        if i > 0 {
            assert(q[i - 1] == p[i - 1]);
        }
    }
    assert forall|i: int| 0 <= i < q.len() && #[trigger] q[i] == B_DOT implies i > 0
        && q[i - 1] != B_SLASH by {
        if i < p.len() {
            if i > 0 {
                assert(q[i - 1] == p[i - 1]);
            }
        } else if i == p.len() {
            assert(q[i - 1] == p[p.len() - 1]);
        } else {
            assert(q[i] == dot_git()[i - p.len()]);
        }
    }
    assert(q[q.len() - 1] == dot_git()[3]);
    assert(is_plain_project_path(q));

    let u = seq![B_SLASH] + q;
    assert(u[0] == B_SLASH);
    assert(strip_leading_slash(u) =~= q);
    assert(q.skip(q.len() - 4) =~= dot_git());
    assert(has_suffix(q, dot_git()));
    assert(strip_dot_git(q) =~= p);
    assert(project_of_url_path(u) == strip_dot_git(strip_leading_slash(u)));
    assert(strip_dot_git(strip_leading_slash(u)) == strip_dot_git(q));
}

/// `<host>/<rel>` splits at the first `/` into exactly the host and `rel`.
proof fn lemma_host_path_concat(h: Seq<u8>, rel: Seq<u8>)
    requires
        is_plain_host(h),
        is_plain_project_path(rel),
    ensures
        find_byte(h + seq![B_SLASH] + rel, B_SLASH) == h.len(),
        is_plain_host_path(h + seq![B_SLASH] + rel),
        (h + seq![B_SLASH] + rel).take(h.len() as int) == h,
        (h + seq![B_SLASH] + rel).skip(h.len() as int) == seq![B_SLASH] + rel,
{
    let t = h + seq![B_SLASH] + rel;
    assert(t[h.len() as int] == B_SLASH);
    assert forall|i: int| 0 <= i < h.len() implies #[trigger] t[i] != B_SLASH by {
        assert(t[i] == h[i]);
        assert(is_plain_host_byte(h[i]));
    }
    lemma_find_byte_at(t, B_SLASH, h.len() as int);
    assert(t.take(h.len() as int) =~= h);
    assert(t.skip(h.len() as int) =~= seq![B_SLASH] + rel);
    assert(t.skip(h.len() + 1 as int) =~= rel);
}

/// RemoteLocator on the HTTPS form: for every plain host `h` and plain
/// project path `p`, the address `https://h/p.git` is no SSH shorthand, is
/// a plain hierarchical URL, and decomposes into host `h` and project `p`.
/// Together with the contract of `parse_remote`, this says that the locator
/// returns exactly `host == h` and `project_path == p` on such addresses.
pub proof fn lemma_https_address_parts(h: Seq<u8>, p: Seq<u8>)
    requires
        is_plain_host(h),
        is_plain_project_path(p),
    ensures
        !is_ssh_shorthand(https_git_addr(h, p)),
        ssh_rewritten(https_git_addr(h, p)) == https_git_addr(h, p),
        is_plain_hier_url(https_git_addr(h, p)),
        hier_host(https_git_addr(h, p)) == h,
        project_of_url_path(hier_path(https_git_addr(h, p))) == p,
{
    let a = https_git_addr(h, p);
    lemma_project_with_git(p);
    let rel = p + dot_git();
    let t = h + seq![B_SLASH] + rel;
    assert(a.len() == 8 + h.len() + 1 + p.len() + 4);

    // The first `:` of the address ends the scheme, and no `@` stands
    // before it, so the address is no SSH shorthand.
    assert(a[5] == B_COLON);
    assert(a[0] == B_LOW_H && a[1] == B_LOW_T && a[2] == B_LOW_T && a[3] == B_LOW_P
        && a[4] == B_LOW_S);
    assert forall|i: int| 0 <= i < 5 implies #[trigger] a[i] != B_COLON by {}
    lemma_find_byte_at(a, B_COLON, 5);
    lemma_find_byte_spec(a, B_AT);
    if is_ssh_shorthand(a) {
        let at = find_byte(a, B_AT);
        assert(0 <= at < 5);
        assert(a[at] == B_AT);
    }
    assert(!is_ssh_shorthand(a));

    // The scheme is `https://` and the tail splits at the first `/`.
    assert(a.take(8) =~= https_scheme());
    assert(has_prefix(a, https_scheme()));
    assert(a.skip(8) =~= t);
    lemma_host_path_concat(h, rel);
    assert(is_plain_https_url(a));
    assert(hier_host(a) == t.take(h.len() as int));
    assert(hier_path(a) == t.skip(h.len() as int));
    assert(hier_path(a) == seq![B_SLASH] + rel);
}

/// The SSH shorthand and the HTTPS address built from the same parts lead
/// the locator to the same host and the same project path.
pub proof fn lemma_shorthand_matches_https(u: Seq<u8>, h: Seq<u8>, p: Seq<u8>)
    requires
        is_plain_user(u),
        is_plain_host(h),
        is_plain_project_path(p),
    ensures
        hier_host(ssh_rewritten(ssh_git_addr(u, h, p))) == hier_host(
            ssh_rewritten(https_git_addr(h, p)),
        ),
        project_of_url_path(hier_path(ssh_rewritten(ssh_git_addr(u, h, p))))
            == project_of_url_path(hier_path(ssh_rewritten(https_git_addr(h, p)))),
{
    lemma_https_address_parts(h, p);
    lemma_ssh_shorthand_address_parts(u, h, p);
}

/// RemoteLocator on the SSH shorthand form: for every plain user `u`, host
/// `h` and project path `p`, the address `u@h:p.git` is SSH shorthand, its
/// rewriting is the plain hierarchical URL `ssh://u@h/p.git`, and that URL
/// decomposes into host `h` and project `p` — the same parts as the HTTPS
/// form of `lemma_https_address_parts`. Together with the contract of
/// `parse_remote`, this says that the locator treats `u@h:p.git` and
/// `https://h/p.git` alike.
#[verifier::rlimit(60)]
pub proof fn lemma_ssh_shorthand_address_parts(u: Seq<u8>, h: Seq<u8>, p: Seq<u8>)
    requires
        is_plain_user(u),
        is_plain_host(h),
        is_plain_project_path(p),
    ensures
        is_ssh_shorthand(ssh_git_addr(u, h, p)),
        ssh_rewritten(ssh_git_addr(u, h, p)) == ssh_scheme() + u + seq![B_AT] + h + seq![B_SLASH]
            + p + dot_git(),
        is_plain_hier_url(ssh_rewritten(ssh_git_addr(u, h, p))),
        hier_host(ssh_rewritten(ssh_git_addr(u, h, p))) == h,
        project_of_url_path(hier_path(ssh_rewritten(ssh_git_addr(u, h, p)))) == p,
{
    let a = ssh_git_addr(u, h, p);
    lemma_project_with_git(p);
    let rel = p + dot_git();
    assert(a.len() == u.len() + 1 + h.len() + 1 + p.len() + 4);

    // The first `@` ends the user, the first `:` follows the host.
    let atk = u.len() as int;
    let colk = u.len() + 1 + h.len() as int;
    assert(a[atk] == B_AT);
    assert forall|i: int| 0 <= i < atk implies #[trigger] a[i] != B_AT by {
        assert(a[i] == u[i]);
        assert(is_plain_user_byte(u[i]));
    }
    lemma_find_byte_at(a, B_AT, atk);
    assert(a[colk] == B_COLON);
    assert forall|i: int| 0 <= i < colk implies #[trigger] a[i] != B_COLON by {
        if i < u.len() {
            assert(a[i] == u[i]);
            assert(is_plain_user_byte(u[i]));
        } else if i == u.len() {
            assert(a[i] == B_AT);
        } else {
            assert(a[i] == h[i - u.len() - 1]);
            assert(is_plain_host_byte(h[i - u.len() - 1]));
        }
    }
    lemma_find_byte_at(a, B_COLON, colk);
    assert(is_ssh_shorthand(a));

    // Rewriting turns the `:` into `/` under an `ssh://` prefix.
    let b = ssh_scheme() + u + seq![B_AT] + h + seq![B_SLASH] + p + dot_git();
    assert(ssh_rewritten(a) == ssh_scheme() + a.update(colk, B_SLASH));
    assert(ssh_rewritten(a) =~= b);

    // The rewritten address is a plain `ssh://user@host/path` URL.
    assert(b.take(6) =~= ssh_scheme());
    assert(has_prefix(b, ssh_scheme()));
    let rest = b.skip(6);
    assert(rest =~= u + seq![B_AT] + h + seq![B_SLASH] + rel);
    assert(rest[atk] == B_AT);
    assert forall|i: int| 0 <= i < atk implies #[trigger] rest[i] != B_AT by {
        assert(rest[i] == u[i]);
        assert(is_plain_user_byte(u[i]));
    }
    lemma_find_byte_at(rest, B_AT, atk);
    assert forall|i: int| 0 <= i < atk implies is_plain_user_byte(#[trigger] rest[i]) by {
        assert(rest[i] == u[i]);
    }
    let t = h + seq![B_SLASH] + rel;
    assert(rest.skip(atk + 1) =~= t);
    lemma_host_path_concat(h, rel);
    assert(is_plain_ssh_url(b));

    // `b` is no https URL (its first byte differs), so the tail, host and
    // path are those of the ssh form.
    if is_plain_https_url(b) {
        assert(b.take(8)[0] == https_scheme()[0]);
        assert(b[0] == B_LOW_S);
    }
    assert(!is_plain_https_url(b));
    assert(hier_tail(b) == t);
    assert(hier_host(b) == t.take(h.len() as int));
    assert(hier_path(b) == seq![B_SLASH] + rel);
}

} // verus!
