//! The airline participant (compact protocol): it refuses empty or
//! unreadable requests, and refuses valid ones at random, a third of the time.

use vstd::prelude::*;

use crate::commons::commons::ExternalResponse;
use rand::distributions::Distribution;

verus! {

/// A number drawn uniformly from `low..high` with `rand`'s thread-local
/// generator (`rand::thread_rng` sampled through `Uniform::from(low..high)`).
/// `Uniform::new` panics unless `low < high`. Claimed: the number lies in
/// `[low, high)`, as `Uniform`'s documentation for a half-open range states.
/// Which number comes out is left open.
#[verifier::external_body]
fn roll(low: i32, high: i32) -> (r: i32)
    requires
        low < high,
    ensures
        low <= r < high,
{
    rand::distributions::Uniform::from(low..high).sample(&mut rand::thread_rng())
}

/// The airline's answer for one request line, given the draw: a draw below 4
/// or an empty line is refused; otherwise the request is accepted when it
/// reads as a payment.
pub fn airline_reply(draw: i32, request_empty: bool, request_valid: bool) -> (r: ExternalResponse)
    ensures
        r == airline_reply_spec(draw, request_empty, request_valid),
{
    if draw < 4 || request_empty {
        ExternalResponse::NACK
    } else if request_valid {
        ExternalResponse::ACK
    } else {
        ExternalResponse::NACK
    }
}

/// The airline's answer for one request line, drawing at random.
pub fn airline_answer(request_empty: bool, request_valid: bool) -> (r: ExternalResponse)
    ensures
        exists|draw: i32| 1 <= draw < 10 && r == airline_reply_spec(draw, request_empty, request_valid),
{
    let draw = roll(1, 10);
    airline_reply(draw, request_empty, request_valid)
}

/// The answer `airline_reply` gives.
pub open spec fn airline_reply_spec(draw: i32, request_empty: bool, request_valid: bool) -> ExternalResponse {
    if draw < 4 || request_empty || !request_valid {
        ExternalResponse::NACK
    } else {
        ExternalResponse::ACK
    }
}

/// An empty or unreadable request is never accepted, whatever the draw.
pub proof fn law_bad_request_refused(draw: i32, request_empty: bool, request_valid: bool)
    requires
        request_empty || !request_valid,
    ensures
        airline_reply_spec(draw, request_empty, request_valid) == ExternalResponse::NACK,
{
}

} // verus!
