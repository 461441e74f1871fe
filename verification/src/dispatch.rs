//! Route dispatch: the two inbound operations, the request-size ceiling, and
//! the plan of the two outbound POSTs made for one accepted inbound request.

use vstd::prelude::*;
use crate::targets::{BackendTargets, Endpoint, url_chars, url_for};

verus! {

/// Ceiling on the inbound body size; larger bodies are rejected before any
/// outbound call is attempted.
pub const MAX_BODY_BYTES: usize = 16384;

/// Client-error status returned for a body over the ceiling.
pub const STATUS_PAYLOAD_TOO_LARGE: u16 = 413;

/// The inbound path selector: each inbound operation mirrors its own path
/// onto both backends and never the other one.
#[derive(Clone, Copy, Debug, PartialEq, Eq, Structural)]
pub enum RoutePath {
    /// The `/post_data` operation.
    Data,
    /// The `/post_error` operation.
    Error,
}

/// The path text mirrored onto the backends for each inbound operation.
pub open spec fn path_chars(p: RoutePath) -> Seq<char> {
    match p {
        RoutePath::Data => "/post_data"@,
        RoutePath::Error => "/post_error"@,
    }
}

impl RoutePath {
    /// The path, as it stands both on the inbound route and in the outbound
    /// URLs.
    pub fn path_str(&self) -> (r: &'static str)
        ensures
            r@ == path_chars(*self),
    {
        match self {
            RoutePath::Data => "/post_data",
            RoutePath::Error => "/post_error",
        }
    }
}

/// One outbound POST yet to be performed: a full URL and the body to carry.
pub struct OutboundPost {
    pub url: String,
    pub body: Vec<u8>,
}

/// The two outbound POSTs for one accepted inbound request. Exactly one per
/// backend; both are to be issued concurrently and both awaited.
pub struct DispatchPlan {
    pub stable: OutboundPost,
    pub dev: OutboundPost,
}

/// Whether a plan is exactly the dual dispatch owed for the given inbound
/// request: one POST per backend, each to that backend's URL at the
/// request's own path, each carrying the identical body.
pub open spec fn plan_matches(plan: DispatchPlan, path: RoutePath, body: Seq<u8>, targets: BackendTargets) -> bool {
    &&& plan.stable.url@ == url_chars(targets.stable, path_chars(path))
    &&& plan.dev.url@ == url_chars(targets.dev, path_chars(path))
    &&& plan.stable.body@ == body
    &&& plan.dev.body@ == body
}

/// Copies the body bytes so that each backend receives the full, unmutated
/// body even though it is consumed twice.
fn duplicate_body(body: &Vec<u8>) -> (r: Vec<u8>)
    ensures
        r@ == body@,
{
    let mut out: Vec<u8> = Vec::new();
    let mut i: usize = 0;
    while i < body.len()
        invariant
            i <= body@.len(),
            out@ =~= body@.subrange(0, i as int),
        decreases body@.len() - i,
    {
        out.push(body[i]);
        i = i + 1;
    }
    proof {
        assert(out@ =~= body@);
    }
    out
}

/// Turns one inbound request into its dual-dispatch plan, or rejects it.
///
/// A body within the ceiling is always accepted, and the plan is exactly the
/// two outbound POSTs owed for it; a body over the ceiling is rejected with
/// the client-error status, and no outbound request comes to exist.
pub fn plan_dispatch(path: RoutePath, body: Vec<u8>, targets: &BackendTargets) -> (r: Result<
    DispatchPlan,
    u16,
>)
    ensures
        r is Ok <==> body@.len() <= MAX_BODY_BYTES,
        (r matches Ok(plan) ==> plan_matches(plan, path, body@, *targets)),
        (r matches Err(code) ==> code == STATUS_PAYLOAD_TOO_LARGE),
{
    if body.len() > MAX_BODY_BYTES {
        return Err(STATUS_PAYLOAD_TOO_LARGE);
    }
    let path_text = path.path_str();
    let body_for_dev = duplicate_body(&body);
    let stable = OutboundPost { url: url_for(&targets.stable, path_text), body };
    let dev = OutboundPost { url: url_for(&targets.dev, path_text), body: body_for_dev };
    Ok(DispatchPlan { stable, dev })
}

/// The two inbound operations never share an outbound URL: for any endpoint,
/// the URL built for the `/post_data` operation differs from the URL built
/// for the `/post_error` operation, so a body replayed through one route is
/// never forwarded to the other route's path.
pub proof fn lemma_routes_never_cross(e: Endpoint)
    ensures
        url_chars(e, path_chars(RoutePath::Data)) != url_chars(e, path_chars(RoutePath::Error)),
{
    reveal_strlit("/post_data");
    reveal_strlit("/post_error");
    assert(url_chars(e, path_chars(RoutePath::Data)).len() != url_chars(
        e,
        path_chars(RoutePath::Error),
    ).len());
}

} // verus!
