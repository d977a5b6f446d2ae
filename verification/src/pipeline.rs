//! The order in which the layers stand around the transport.

use vstd::prelude::*;

verus! {

/// The number of times the transient-retry layer sends a request again.
pub const TRANSIENT_RETRIES: u32 = 5;

/// One layer of the client.
#[derive(Clone, Copy, Debug, PartialEq, Eq, Structural)]
pub enum Layer {
    /// Puts the credential and the anti-forgery token on the request.
    Auth,
    /// Holds requests back while the rate budget is used up.
    RateLimit,
    /// Backs off and retries after network failures and server errors.
    TransientRetry,
}

/// The layers from the caller's side to the transport's.
pub open spec fn layer_order() -> Seq<Layer> {
    seq![Layer::Auth, Layer::RateLimit, Layer::TransientRetry]
}

/// The layers in the order in which a request passes through them; the
/// transport stands behind the last one.
pub fn layers() -> (r: Vec<Layer>)
    ensures
        r@ == layer_order(),
{
    let mut r: Vec<Layer> = Vec::new();
    r.push(Layer::Auth);
    r.push(Layer::RateLimit);
    r.push(Layer::TransientRetry);
    r
}

} // verus!
