//! The static file-serving handler.
//!
//! `Static` holds a root directory and decides, per request, whether to serve
//! the file at `root/.path`, serve `root/.path/index.html`, redirect to the
//! slash-terminated form of the path, or decline in favour of a later
//! handler.
//!
//! The decision is a pure function of the request and of a [`FsProbe`]: the
//! host performs the filesystem lookups and reads, records their results in
//! the probe, and the handler never touches the filesystem itself. The host
//! must fill the probe for exactly the paths that [`Static::candidate_path`]
//! and [`Static::index_path`] return.

use vstd::prelude::*;

use crate::favicon::Favicon;
use crate::outcome::HandlerOutcome;
use crate::outcome::OutcomeView;
use crate::outcome::ResponseView;
use crate::outcome::ServedResponse;
use crate::outcome::opt_bytes_view;
use crate::paths::append_bytes;
use crate::paths::candidate_path_of;
use crate::paths::index_path_of;
use crate::paths::spec_candidate;
use crate::paths::spec_index;

verus! {

/// The static file-serving handler: a root directory, fixed at construction,
/// never touched afterwards.
#[derive(Debug, Clone, PartialEq, Eq)]
pub struct Static {
    /// The directory requests are resolved against. May be relative or
    /// absolute; empty means the current directory.
    pub root_path: Vec<u8>,
}

impl View for Static {
    type V = Seq<u8>;

    open spec fn view(&self) -> Seq<u8> {
        self.root_path@
    }
}

/// The per-request input: the request's URL path, when the host could
/// extract one, and the pre-mount-stripping original URL, when a mounting
/// collaborator recorded one. Both are untrusted bytes.
#[derive(Debug, Clone, PartialEq, Eq)]
pub struct StaticRequest {
    /// The URL path component of the request; `None` when the host could not
    /// extract a URL at all.
    pub path: Option<Vec<u8>>,
    /// The full path before any mount prefix was stripped, used only to
    /// build redirect targets; `None` when no mounting collaborator is
    /// present.
    pub original_url: Option<Vec<u8>>,
}

/// The mathematical value of a [`StaticRequest`].
pub struct StaticRequestView {
    pub path: Option<Seq<u8>>,
    pub original_url: Option<Seq<u8>>,
}

impl View for StaticRequest {
    type V = StaticRequestView;

    open spec fn view(&self) -> StaticRequestView {
        StaticRequestView {
            path: opt_bytes_view(self.path),
            original_url: opt_bytes_view(self.original_url),
        }
    }
}

/// What the host found on disk for one request, all lookups made against the
/// same filesystem snapshot.
#[derive(Debug, Clone, PartialEq, Eq)]
pub struct FsProbe {
    /// The bytes of the file at the candidate path `root/.path`, or `None`
    /// when that path is not a readable regular file (absent, a directory,
    /// unreadable).
    pub candidate: Option<Vec<u8>>,
    /// Whether a stat of `root/.path/index.html` reports a regular file.
    pub index_is_file: bool,
    /// The bytes of `root/.path/index.html`, or `None` when reading it
    /// failed. Consulted only when the request path ends in `/`; the host
    /// need not read the index file otherwise.
    pub index: Option<Vec<u8>>,
}

/// The mathematical value of an [`FsProbe`].
pub struct FsProbeView {
    pub candidate: Option<Seq<u8>>,
    pub index_is_file: bool,
    pub index: Option<Seq<u8>>,
}

impl View for FsProbe {
    type V = FsProbeView;

    open spec fn view(&self) -> FsProbeView {
        FsProbeView {
            candidate: opt_bytes_view(self.candidate),
            index_is_file: self.index_is_file,
            index: opt_bytes_view(self.index),
        }
    }
}

/// The bytes of the literal `Redirecting to `.
pub open spec fn redirect_prefix_bytes() -> Seq<u8> {
    seq![
        'R' as u8,
        'e' as u8,
        'd' as u8,
        'i' as u8,
        'r' as u8,
        'e' as u8,
        'c' as u8,
        't' as u8,
        'i' as u8,
        'n' as u8,
        'g' as u8,
        ' ' as u8,
        't' as u8,
        'o' as u8,
        ' ' as u8,
    ]
}

/// Where a slash-adding redirect points: the original URL when the mounting
/// collaborator supplied one, otherwise the request path itself, with `/`
/// appended.
pub open spec fn spec_redirect_target(path: Seq<u8>, original_url: Option<Seq<u8>>) -> Seq<u8> {
    (match original_url {
        Some(o) => o,
        None => path,
    }) + seq!['/' as u8]
}

/// The informational body sent with a redirect: `Redirecting to <target>`.
pub open spec fn spec_redirect_body(target: Seq<u8>) -> Seq<u8> {
    redirect_prefix_bytes() + target
}

/// A plain 200 response carrying `body` and no headers of this policy's own.
pub open spec fn ok_response(body: Seq<u8>) -> ResponseView {
    ResponseView { status: 200, location: None, cache_control: None, body }
}

/// A 303 "See Other" response: `Location` set to `target`, body
/// `Redirecting to <target>`.
pub open spec fn redirect_response(target: Seq<u8>) -> ResponseView {
    ResponseView {
        status: 303,
        location: Some(target),
        cache_control: None,
        body: spec_redirect_body(target),
    }
}

/// The whole resolution and fallback policy, as a function of the request
/// and of what the host found on disk:
///
/// - no extractable URL: decline;
/// - the candidate `root/.path` is a readable file: serve its bytes;
/// - otherwise, no regular file at `root/.path/index.html`: decline;
/// - the index file exists and the path already ends in `/` (directory-style
///   request): serve the index bytes, declining if the read failed;
/// - the index file exists but the path does not end in `/` (this includes
///   the empty path): redirect to the slash-terminated path so that relative
///   links in the served page resolve correctly.
pub open spec fn spec_static_handle(req: StaticRequestView, probe: FsProbeView) -> OutcomeView {
    match req.path {
        None => OutcomeView::Decline,
        Some(p) => match probe.candidate {
            Some(bytes) => OutcomeView::Terminate(ok_response(bytes)),
            None => if !probe.index_is_file {
                OutcomeView::Decline
            } else if p.len() > 0 && p.last() == '/' as u8 {
                match probe.index {
                    Some(bytes) => OutcomeView::Terminate(ok_response(bytes)),
                    None => OutcomeView::Decline,
                }
            } else {
                OutcomeView::Terminate(
                    redirect_response(spec_redirect_target(p, req.original_url)),
                )
            },
        },
    }
}

/// The bytes `Redirecting to ` as a fresh vector.
fn make_redirect_prefix() -> (r: Vec<u8>)
    ensures
        r@ == redirect_prefix_bytes(),
{
    let mut v: Vec<u8> = Vec::new();
    v.push('R' as u8);
    v.push('e' as u8);
    v.push('d' as u8);
    v.push('i' as u8);
    v.push('r' as u8);
    v.push('e' as u8);
    v.push('c' as u8);
    v.push('t' as u8);
    v.push('i' as u8);
    v.push('n' as u8);
    v.push('g' as u8);
    v.push(' ' as u8);
    v.push('t' as u8);
    v.push('o' as u8);
    v.push(' ' as u8);
    proof {
        assert(v@ =~= redirect_prefix_bytes());
    }
    v
}

impl Static {
    /// Create a new `Static` with a given root path.
    ///
    /// The path may be relative or absolute; an empty path means the current
    /// directory. No filesystem access or validation happens here: a root
    /// that does not exist simply makes every request decline.
    pub fn new(root_path: Vec<u8>) -> (r: Static)
        ensures
            r@ == root_path@,
    {
        Static { root_path }
    }

    /// Create the companion [`Favicon`] handler for a given asset path.
    pub fn favicon(favicon_path: Vec<u8>) -> (r: Favicon)
        ensures
            r@ == favicon_path@,
    {
        Favicon { favicon_path }
    }

    /// The file the host must try to serve first: `root/.path`.
    pub fn candidate_path(&self, path: &Vec<u8>) -> (r: Vec<u8>)
        ensures
            r@ == spec_candidate(self@, path@),
    {
        candidate_path_of(&self.root_path, path)
    }

    /// The file the host must stat (and, for directory-style paths, read)
    /// second: `root/.path/index.html`.
    pub fn index_path(&self, path: &Vec<u8>) -> (r: Vec<u8>)
        ensures
            r@ == spec_index(self@, path@),
    {
        index_path_of(&self.root_path, path)
    }

    /// Decide one request. The outcome is exactly
    /// [`spec_static_handle`] applied to the request and the probe; on any
    /// failure the handler declines rather than write an error response, so
    /// a later handler in the chain can still answer.
    pub fn handle(&self, req: StaticRequest, probe: FsProbe) -> (r: HandlerOutcome)
        ensures
            r@ == spec_static_handle(req@, probe@),
    {
        let StaticRequest { path, original_url } = req;
        let path = match path {
            None => {
                return HandlerOutcome::Decline;
            },
            Some(p) => p,
        };
        match probe.candidate {
            Some(bytes) => {
                return HandlerOutcome::Terminate(
                    ServedResponse { status: 200, location: None, cache_control: None, body: bytes },
                );
            },
            None => {},
        }
        if !probe.index_is_file {
            return HandlerOutcome::Decline;
        }
        let n = path.len();
        if n > 0 && path[n - 1] == '/' as u8 {
            match probe.index {
                Some(bytes) => HandlerOutcome::Terminate(
                    ServedResponse { status: 200, location: None, cache_control: None, body: bytes },
                ),
                None => HandlerOutcome::Decline,
            }
        } else {
            let ghost target_spec = spec_redirect_target(path@, opt_bytes_view(original_url));
            let mut target = match original_url {
                Some(o) => o,
                None => path,
            };
            target.push('/' as u8);
            proof {
                assert(target@ =~= target_spec);
            }
            let body = append_bytes(make_redirect_prefix(), &target);
            HandlerOutcome::Terminate(
                ServedResponse { status: 303, location: Some(target), cache_control: None, body },
            )
        }
    }
}

/// Law: whenever the candidate `root/.path` is a readable regular file (the
/// host's probe carries its bytes), the handler terminates the chain with a
/// 200 response whose body is exactly those bytes.
pub proof fn lemma_file_is_served(req: StaticRequestView, probe: FsProbeView, p: Seq<u8>, bytes: Seq<u8>)
    requires
        req.path == Some(p),
        probe.candidate == Some(bytes),
    ensures
        spec_static_handle(req, probe) == OutcomeView::Terminate(ok_response(bytes)),
{
}

/// Law: for a request path ending in `/` whose candidate is not itself a
/// file but whose `index.html` is a readable regular file, the handler
/// terminates with a 200 response whose body is the index file's bytes.
pub proof fn lemma_index_served_for_directory_path(
    req: StaticRequestView,
    probe: FsProbeView,
    p: Seq<u8>,
    bytes: Seq<u8>,
)
    requires
        req.path == Some(p),
        p.len() > 0,
        p.last() == '/' as u8,
        probe.candidate is None,
        probe.index_is_file,
        probe.index == Some(bytes),
    ensures
        spec_static_handle(req, probe) == OutcomeView::Terminate(ok_response(bytes)),
{
}

/// Law: for a request path not ending in `/` whose candidate is not itself a
/// file but whose `index.html` exists as a regular file, the handler
/// terminates with a 303 redirect whose `Location` is the path (or the
/// original URL, when one is present) with `/` appended. The empty path
/// counts as not ending in `/` and so redirects to `/`.
pub proof fn lemma_redirects_without_trailing_slash(
    req: StaticRequestView,
    probe: FsProbeView,
    p: Seq<u8>,
)
    requires
        req.path == Some(p),
        !(p.len() > 0 && p.last() == '/' as u8),
        probe.candidate is None,
        probe.index_is_file,
    ensures
        spec_static_handle(req, probe) == OutcomeView::Terminate(
            redirect_response(spec_redirect_target(p, req.original_url)),
        ),
        spec_static_handle(req, probe)->Terminate_0.location == Some(
            spec_redirect_target(p, req.original_url),
        ),
        spec_static_handle(req, probe)->Terminate_0.status == 303,
{
}

/// Law: when neither the candidate nor its `index.html` matches a regular
/// file, the handler declines; `Decline` carries no response, so nothing was
/// written for a later handler to trip over.
pub proof fn lemma_declines_without_match(req: StaticRequestView, probe: FsProbeView, p: Seq<u8>)
    requires
        req.path == Some(p),
        probe.candidate is None,
        !probe.index_is_file,
    ensures
        spec_static_handle(req, probe) == OutcomeView::Decline,
{
}

/// Law: a request the host could extract no URL from is declined outright.
pub proof fn lemma_declines_without_url(req: StaticRequestView, probe: FsProbeView)
    requires
        req.path is None,
    ensures
        spec_static_handle(req, probe) == OutcomeView::Decline,
{
}

/// Law: the handler is idempotent. Two invocations against the same
/// filesystem state (the same probe) and an identical request yield
/// identical outcomes and identical response bytes: `Static::handle`
/// guarantees that each result equals `spec_static_handle` of its inputs,
/// and that is a function of the inputs alone.
pub proof fn lemma_handle_deterministic(
    req: StaticRequestView,
    probe: FsProbeView,
    r1: OutcomeView,
    r2: OutcomeView,
)
    requires
        r1 == spec_static_handle(req, probe),
        r2 == spec_static_handle(req, probe),
    ensures
        r1 == r2,
{
}

} // verus!

