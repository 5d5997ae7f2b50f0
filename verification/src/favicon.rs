//! The fixed-asset ("favicon") handler.
//!
//! `Favicon` holds one asset path, fixed at construction. It answers only
//! requests whose target is an origin-form path ending in the literal
//! segment `favicon`; everything else is declined. On a match it serves the
//! asset's bytes with a day-long `Cache-Control` directive, declining when
//! the asset cannot be read so a later handler (say, a 404 handler) can
//! answer instead.

use vstd::prelude::*;

use crate::outcome::HandlerOutcome;
use crate::outcome::OutcomeView;
use crate::outcome::ResponseView;
use crate::outcome::ServedResponse;
use crate::outcome::opt_bytes_view;
use crate::paths::ends_with;
use crate::paths::spec_ends_with;

verus! {

/// The bytes of the literal `/favicon`: the suffix a request target must end
/// in, anchored at the end of the string, for the handler to answer.
pub open spec fn favicon_suffix_bytes() -> Seq<u8> {
    seq![
        '/' as u8,
        'f' as u8,
        'a' as u8,
        'v' as u8,
        'i' as u8,
        'c' as u8,
        'o' as u8,
        'n' as u8,
    ]
}

/// The bytes of the literal `max-age=86400`: one day of cache validity.
pub open spec fn cache_control_bytes() -> Seq<u8> {
    seq![
        'm' as u8,
        'a' as u8,
        'x' as u8,
        '-' as u8,
        'a' as u8,
        'g' as u8,
        'e' as u8,
        '=' as u8,
        '8' as u8,
        '6' as u8,
        '4' as u8,
        '0' as u8,
        '0' as u8,
    ]
}

/// A 200 response carrying the asset's bytes and the day-long
/// `Cache-Control` directive.
pub open spec fn favicon_response(body: Seq<u8>) -> ResponseView {
    ResponseView {
        status: 200,
        location: None,
        cache_control: Some(cache_control_bytes()),
        body,
    }
}

/// The whole favicon policy, as a function of the request target and of what
/// the host read from the configured asset path:
///
/// - no origin-form target: decline;
/// - the target does not end in `/favicon`: decline;
/// - the target matches and the asset's bytes could be read: serve them with
///   the cache directive;
/// - the target matches but the asset could not be read: decline.
pub open spec fn spec_favicon_handle(
    target: Option<Seq<u8>>,
    asset: Option<Seq<u8>>,
) -> OutcomeView {
    match target {
        None => OutcomeView::Decline,
        Some(t) => if spec_ends_with(t, favicon_suffix_bytes()) {
            match asset {
                Some(bytes) => OutcomeView::Terminate(favicon_response(bytes)),
                None => OutcomeView::Decline,
            }
        } else {
            OutcomeView::Decline
        },
    }
}

/// The fixed-asset handler: one asset path, fixed at construction.
#[derive(Debug, Clone, PartialEq, Eq)]
pub struct Favicon {
    /// The file served on a matching request.
    pub favicon_path: Vec<u8>,
}

impl View for Favicon {
    type V = Seq<u8>;

    open spec fn view(&self) -> Seq<u8> {
        self.favicon_path@
    }
}

/// The bytes `/favicon` as a fresh vector.
fn make_favicon_suffix() -> (r: Vec<u8>)
    ensures
        r@ == favicon_suffix_bytes(),
{
    let mut v: Vec<u8> = Vec::new();
    v.push('/' as u8);
    v.push('f' as u8);
    v.push('a' as u8);
    v.push('v' as u8);
    v.push('i' as u8);
    v.push('c' as u8);
    v.push('o' as u8);
    v.push('n' as u8);
    proof {
        assert(v@ =~= favicon_suffix_bytes());
    }
    v
}

/// The bytes `max-age=86400` as a fresh vector.
fn make_cache_control() -> (r: Vec<u8>)
    ensures
        r@ == cache_control_bytes(),
{
    let mut v: Vec<u8> = Vec::new();
    v.push('m' as u8);
    v.push('a' as u8);
    v.push('x' as u8);
    v.push('-' as u8);
    v.push('a' as u8);
    v.push('g' as u8);
    v.push('e' as u8);
    v.push('=' as u8);
    v.push('8' as u8);
    v.push('6' as u8);
    v.push('4' as u8);
    v.push('0' as u8);
    v.push('0' as u8);
    proof {
        assert(v@ =~= cache_control_bytes());
    }
    v
}

impl Favicon {
    /// Whether a request target is one this handler answers: it ends in the
    /// literal segment `/favicon`. This is the test the host may run before
    /// bothering to read the asset from disk.
    pub fn is_favicon_path(&self, target: &Vec<u8>) -> (r: bool)
        ensures
            r == spec_ends_with(target@, favicon_suffix_bytes()),
    {
        let suffix = make_favicon_suffix();
        ends_with(target, &suffix)
    }

    /// Decide one request. `target` is the request's path when its target is
    /// in origin form, `None` for any other request-target form; `asset` is
    /// the bytes of the configured asset file, `None` when reading it
    /// failed. The outcome is exactly [`spec_favicon_handle`] applied to
    /// both.
    pub fn handle(&self, target: Option<Vec<u8>>, asset: Option<Vec<u8>>) -> (r: HandlerOutcome)
        ensures
            r@ == spec_favicon_handle(opt_bytes_view(target), opt_bytes_view(asset)),
    {
        let t = match target {
            None => {
                return HandlerOutcome::Decline;
            },
            Some(t) => t,
        };
        let suffix = make_favicon_suffix();
        if !ends_with(&t, &suffix) {
            return HandlerOutcome::Decline;
        }
        match asset {
            Some(bytes) => {
                let cache_control = make_cache_control();
                HandlerOutcome::Terminate(
                    ServedResponse {
                        status: 200,
                        location: None,
                        cache_control: Some(cache_control),
                        body: bytes,
                    },
                )
            },
            None => HandlerOutcome::Decline,
        }
    }
}

/// Law: for any origin-form target ending in the literal segment `favicon`,
/// when the configured asset is readable the handler terminates with a 200
/// response carrying the asset's bytes and `Cache-Control: max-age=86400`.
pub proof fn lemma_favicon_serves(t: Seq<u8>, bytes: Seq<u8>)
    requires
        spec_ends_with(t, favicon_suffix_bytes()),
    ensures
        spec_favicon_handle(Some(t), Some(bytes)) == OutcomeView::Terminate(
            favicon_response(bytes),
        ),
        favicon_response(bytes).cache_control == Some(cache_control_bytes()),
{
}

/// Law: any other target — non-origin-form, or not ending in `/favicon` —
/// is declined, whatever is on disk.
pub proof fn lemma_favicon_declines_other_targets(
    target: Option<Seq<u8>>,
    asset: Option<Seq<u8>>,
)
    requires
        match target {
            Some(t) => !spec_ends_with(t, favicon_suffix_bytes()),
            None => true,
        },
    ensures
        spec_favicon_handle(target, asset) == OutcomeView::Decline,
{
}

/// Law: a matching target whose asset cannot be read is declined, leaving
/// the response for a later handler.
pub proof fn lemma_favicon_declines_unreadable_asset(t: Seq<u8>)
    requires
        spec_ends_with(t, favicon_suffix_bytes()),
    ensures
        spec_favicon_handle(Some(t), None) == OutcomeView::Decline,
{
}

/// Law: the favicon handler is idempotent, exactly as the static handler
/// is: each outcome of `Favicon::handle` equals `spec_favicon_handle` of
/// its inputs, a function of those inputs alone.
pub proof fn lemma_favicon_deterministic(
    target: Option<Seq<u8>>,
    asset: Option<Seq<u8>>,
    r1: OutcomeView,
    r2: OutcomeView,
)
    requires
        r1 == spec_favicon_handle(target, asset),
        r2 == spec_favicon_handle(target, asset),
    ensures
        r1 == r2,
{
}

} // verus!
