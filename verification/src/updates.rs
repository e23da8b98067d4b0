//! The buffer of frames that a subscription has received and not yet handed
//! out.

use urbit_http_api::Subscription;
use vstd::prelude::*;

verus! {

/// A subscription of the ship's API: a queue of frames, oldest first.
#[verifier::external_type_specification]
#[verifier::external_body]
pub struct ExSubscription(Subscription);

/// The frames that a subscription holds, in the order in which they came.
pub uninterp spec fn pending(updates: Subscription) -> Seq<Seq<char>>;

/// Calls `Subscription::pop_message`. Trusted: an empty subscription yields
/// nothing and stays as it is; any other loses its oldest frame, which is
/// handed back.
#[verifier::external_body]
pub(crate) fn pop_frame(updates: &mut Subscription) -> (frame: Option<String>)
    ensures
        pending(*old(updates)).len() == 0 ==> frame is None && pending(*final(updates)) == pending(
            *old(updates),
        ),
        pending(*old(updates)).len() > 0 ==> frame is Some && frame.unwrap()@ == pending(
            *old(updates),
        )[0] && pending(*final(updates)) == pending(*old(updates)).skip(1),
{
    updates.pop_message()
}

/// Takes every frame out of a subscription, oldest first.
pub fn drain(updates: &mut Subscription) -> (frames: Vec<String>)
    ensures
        pending(*final(updates)).len() == 0,
        frames.deep_view() == pending(*old(updates)),
{
    let mut frames: Vec<String> = Vec::new();
    loop
        invariant
            frames@.len() + pending(*updates).len() == pending(*old(updates)).len(),
            forall|i: int|
                0 <= i < frames@.len() ==> #[trigger] frames@[i]@ == pending(*old(updates))[i],
            forall|i: int|
                0 <= i < pending(*updates).len() ==> #[trigger] pending(*updates)[i] == pending(
                    *old(updates),
                )[frames@.len() + i],
        ensures
            pending(*updates).len() == 0,
        decreases pending(*updates).len(),
    {
        match pop_frame(updates) {
            Some(frame) => {
                frames.push(frame);
            },
            None => {
                break ;
            },
        }
    }
    assert(frames.deep_view() =~= pending(*old(updates)));
    frames
}

} // verus!
