//! What holds of every call of the validator service, whatever the cache
//! holds and whatever the ledger answers.

use crate::cache::{CacheCommandView, CacheReplyView, CachedEntitlementView};
use crate::entitlement::EntitlementView;
use crate::error::{BlockchainErrorView, ValidatorErrorView};
use crate::service::{
    failure, next, settle, started, unresolved, CallView, EffectView, EventView, Operation,
    Pending, ReplyView, StatusCode, StepView,
};
use vstd::prelude::*;

verus! {

/// The first step of every call goes on with a well-formed call, if it
/// goes on at all.
pub proof fn law_first_step_is_well_formed(
    operation: Operation,
    entitlement_id: Seq<char>,
    signature: Seq<char>,
    message: Seq<char>,
    now: u64,
    admitted: bool,
)
    ensures
        started(operation, entitlement_id, signature, message, now, admitted).well_formed(),
        !admitted ==> started(operation, entitlement_id, signature, message, now, admitted)
            == failure(StatusCode::ResourceExhausted, ValidatorErrorView::RateLimitExceeded),
{
}

/// Whatever comes of an effect, a well-formed call goes on well formed.
pub proof fn law_calls_stay_well_formed(call: CallView, event: EventView, ttl: u64)
    requires
        call.well_formed(),
    ensures
        next(call, event, ttl).well_formed(),
{
}

/// What a step grants, if anything: the entitlement that a validation
/// reports valid, that the ledger is asked to consume from, or that a
/// consumption has succeeded on.
pub open spec fn granted(call: CallView, step: StepView) -> Option<EntitlementView> {
    match step {
        StepView::Done(ReplyView::Validation { valid, error, entitlement }) => if valid {
            entitlement
        } else {
            None
        },
        StepView::Done(ReplyView::Consumption { success, error, remaining_quota }) => if success {
            match call.resolved {
                Some(copy) => Some(copy.entitlement),
                None => None,
            }
        } else {
            None
        },
        StepView::Perform(EffectView::Consume { entitlement_id, amount }, after) => match after.resolved {
            Some(copy) => Some(copy.entitlement),
            None => None,
        },
        _ => None,
    }
}

/// Whether a step grants anything: reports valid, asks the ledger to
/// consume, or reports a consumption done.
pub open spec fn grants(step: StepView) -> bool {
    match step {
        StepView::Done(ReplyView::Validation { valid, error, entitlement }) => valid,
        StepView::Done(ReplyView::Consumption { success, error, remaining_quota }) => success,
        StepView::Perform(EffectView::Consume { entitlement_id, amount }, after) => true,
        _ => false,
    }
}

/// An entitlement that is switched off, or whose time is up at the time of
/// the call, is never reported valid and never consumed from, whether it
/// came from the cache or from the ledger: every step that grants anything
/// grants it on an entitlement that is active and not expired, and an
/// unusable copy or record ends the call ungranted.
pub proof fn law_unusable_is_never_served(call: CallView, event: EventView, ttl: u64)
    requires
        call.well_formed(),
    ensures
        grants(next(call, event, ttl)) ==> granted(call, next(call, event, ttl)) is Some
            && granted(call, next(call, event, ttl))->0.usable_at(call.now as int),
        call.pending is Cached ==> (event matches EventView::Cache(CacheReplyView::Hit(copy))
            ==> !copy.entitlement.usable_at(call.now as int) ==> next(call, event, ttl)
            == unresolved(call.operation)),
        call.pending is Record ==> (event matches EventView::Ledger(Ok(entitlement))
            ==> !entitlement.usable_at(call.now as int) ==> next(call, event, ttl) == unresolved(
            call.operation,
        )),
        !grants(unresolved(call.operation)),
{
}

/// The copy that an effect writes to the cache, if it writes one.
pub open spec fn copy_written(effect: EffectView) -> Option<CachedEntitlementView> {
    match effect {
        EffectView::Cache(CacheCommandView::SetEx { key, value, seconds }) => Some(value),
        _ => None,
    }
}

/// The write to the cache that a step asks for, if it asks for one.
pub open spec fn written(step: StepView) -> Option<CachedEntitlementView> {
    match step {
        StepView::Perform(effect, after) => copy_written(effect),
        _ => None,
    }
}

/// A consumption that does not fit in the quota is turned down as
/// `QuotaExceeded` and leaves ledger and cache as they were. The ledger is
/// asked to consume only the amount of the request, and only where it
/// fits. The cache is written to only twice: with the ledger's own record
/// after a miss, unchanged, and with the consumed copy once the ledger has
/// confirmed, which never counts more used than granted. Nothing is ever
/// removed from the cache.
pub proof fn law_excess_is_turned_down_untouched(
    call: CallView,
    event: EventView,
    ttl: u64,
    amount: u64,
)
    requires
        call.well_formed(),
        call.operation == (Operation::Consume { amount }),
    ensures
        call.pending is Cached ==> (event matches EventView::Cache(CacheReplyView::Hit(copy))
            ==> copy.entitlement.usable_at(call.now as int) && !copy.entitlement.fits(
            amount as int,
        ) ==> next(call, event, ttl) == failure(
            StatusCode::Internal,
            ValidatorErrorView::QuotaExceeded,
        )),
        call.pending is Populated && event is Cache ==> (call.resolved matches Some(copy)
            ==> !copy.entitlement.fits(amount as int) ==> next(call, event, ttl) == failure(
            StatusCode::Internal,
            ValidatorErrorView::QuotaExceeded,
        )),
        next(call, event, ttl) matches StepView::Perform(
            EffectView::Consume { entitlement_id, amount: asked },
            after,
        ) ==> asked == amount && entitlement_id == call.entitlement_id && after.resolved is Some
            && after.resolved->0.entitlement.fits(amount as int),
        written(next(call, event, ttl)) matches Some(value) ==> {
            ||| call.pending is Record && event == EventView::Ledger(
                Ok::<EntitlementView, BlockchainErrorView>(value.entitlement),
            )
            ||| call.pending is Settled && event == EventView::Consumption(None)
                && call.resolved is Some && value == call.resolved->0.consumed(amount as int)
                && value.entitlement.quota_used == call.resolved->0.entitlement.quota_used
                + amount && value.entitlement.quota_used <= value.entitlement.quota_requests
        },
        !(next(call, event, ttl) matches StepView::Perform(
            EffectView::Cache(CacheCommandView::Del { key }),
            after,
        )),
        !grants(failure(StatusCode::Internal, ValidatorErrorView::QuotaExceeded)),
        written(failure(StatusCode::Internal, ValidatorErrorView::QuotaExceeded)) is None,
{
}

/// The cache follows the ledger and never runs ahead of it. Whatever a
/// call asks for, a step writes to the cache only in two places: the
/// ledger's own record, unchanged, once the ledger has delivered it after a
/// miss, and the consumed copy once the ledger has confirmed the
/// consumption. A ledger that fails or times out is followed by no write.
pub proof fn law_cache_follows_the_ledger(call: CallView, event: EventView, ttl: u64)
    requires
        call.well_formed(),
    ensures
        written(next(call, event, ttl)) matches Some(value) ==> {
            ||| call.pending is Record && event == EventView::Ledger(
                Ok::<EntitlementView, BlockchainErrorView>(value.entitlement),
            ) && value == CachedEntitlementView::of(value.entitlement)
            ||| call.pending is Settled && event == EventView::Consumption(None)
                && call.operation is Consume && call.resolved is Some && value
                == call.resolved->0.consumed(call.operation->amount as int)
        },
        event matches EventView::Ledger(Err(fault)) ==> next(call, event, ttl) is Done,
        event matches EventView::Consumption(Some(fault)) ==> next(call, event, ttl) is Done,
{
}

/// A consumption that succeeds reports what is left of the quota after it:
/// what was granted, less what was used before, less the amount.
pub proof fn law_success_reports_what_is_left(call: CallView, event: EventView, ttl: u64)
    requires
        call.well_formed(),
    ensures
        next(call, event, ttl) matches StepView::Done(
            ReplyView::Consumption { success, error, remaining_quota },
        ) ==> success ==> call.operation is Consume && call.resolved is Some && remaining_quota
            == call.resolved->0.entitlement.quota_requests
            - call.resolved->0.entitlement.quota_used - call.operation->amount,
{
}

/// Consumptions taken in turn never overdraw a quota: where a second
/// consumption is decided on the copy that the first one left, it goes to
/// the ledger only if both amounts together fit in what was granted.
pub proof fn law_consumptions_in_turn_stay_within_quota(
    second: CallView,
    copy: CachedEntitlementView,
    first_amount: u64,
    second_amount: u64,
)
    requires
        copy.entitlement.fits(first_amount as int),
        second.operation == (Operation::Consume { amount: second_amount }),
    ensures
        settle(second, copy.consumed(first_amount as int)) is Perform
            <==> copy.entitlement.quota_used + first_amount + second_amount
            <= copy.entitlement.quota_requests,
{
}

/// Consumptions under way at the same time do not see each other. Two
/// calls that were decided on one copy both go to the ledger where each
/// amount fits by itself, whether or not the two fit together. So the
/// service by itself does not keep concurrent consumptions of one
/// entitlement within its quota: whoever runs it has to let only one of
/// them be under way at a time, or the ledger has to refuse the excess.
pub proof fn law_consumptions_under_way_do_not_see_each_other(
    first: CallView,
    second: CallView,
    copy: CachedEntitlementView,
    first_amount: u64,
    second_amount: u64,
)
    requires
        first.operation == (Operation::Consume { amount: first_amount }),
        second.operation == (Operation::Consume { amount: second_amount }),
        copy.entitlement.fits(first_amount as int),
        copy.entitlement.fits(second_amount as int),
    ensures
        settle(first, copy) is Perform,
        settle(second, copy) is Perform,
{
}

/// How many steps a call may still take before it ends.
pub open spec fn steps_left(pending: Pending) -> nat {
    match pending {
        Pending::Owner => 5,
        Pending::Cached => 4,
        Pending::Record => 3,
        Pending::Populated => 2,
        Pending::Settled => 1,
        Pending::Refreshed => 0,
    }
}

/// Every call ends: each step that goes on leaves fewer steps to take, so
/// no call asks for more than six things to be done.
pub proof fn law_calls_end(call: CallView, event: EventView, ttl: u64)
    ensures
        next(call, event, ttl) matches StepView::Perform(effect, after) ==> steps_left(
            after.pending,
        ) < steps_left(call.pending),
{
}

/// What a call asks for from `step` on, one effect after another, where
/// `events` says what comes of each. Where the events run out before the
/// call ends, the effect that waits for the next one is the last.
pub open spec fn effects_of(step: StepView, events: Seq<EventView>, ttl: u64) -> Seq<EffectView>
    decreases events.len(),
{
    match step {
        StepView::Done(reply) => Seq::empty(),
        StepView::Perform(effect, call) => if events.len() == 0 {
            seq![effect]
        } else {
            seq![effect] + effects_of(next(call, events.first(), ttl), events.drop_first(), ttl)
        },
    }
}

/// The reply with which a call ends from `step` on, where `events` says
/// what comes of each effect, or `None` where the events run out first.
pub open spec fn reply_of(step: StepView, events: Seq<EventView>, ttl: u64) -> Option<ReplyView>
    decreases events.len(),
{
    match step {
        StepView::Done(reply) => Some(reply),
        StepView::Perform(effect, call) => if events.len() == 0 {
            None
        } else {
            reply_of(next(call, events.first(), ttl), events.drop_first(), ttl)
        },
    }
}

/// Whatever an event delivers of an entitlement, from the cache or from
/// the ledger, is unusable at `now`.
pub open spec fn delivers_nothing_usable(event: EventView, now: u64) -> bool {
    match event {
        EventView::Cache(CacheReplyView::Hit(copy)) => !copy.entitlement.usable_at(now as int),
        EventView::Ledger(Ok(entitlement)) => !entitlement.usable_at(now as int),
        _ => true,
    }
}

/// Whatever an event delivers of an entitlement, from the cache or from
/// the ledger, has no room for `amount` more.
pub open spec fn delivers_no_room(event: EventView, amount: u64) -> bool {
    match event {
        EventView::Cache(CacheReplyView::Hit(copy)) => !copy.entitlement.fits(amount as int),
        EventView::Ledger(Ok(entitlement)) => !entitlement.fits(amount as int),
        _ => true,
    }
}

/// A copy is the ledger's own record as one of `events` delivered it, with
/// nothing added and nothing counted.
pub open spec fn as_delivered(events: Seq<EventView>, copy: CachedEntitlementView) -> bool {
    &&& copy == CachedEntitlementView::of(copy.entitlement)
    &&& exists|i: int|
        0 <= i < events.len() && #[trigger] events[i] == EventView::Ledger(
            Ok::<EntitlementView, BlockchainErrorView>(copy.entitlement),
        )
}

/// A step of a call that has resolved nothing usable so far.
spec fn unserved(step: StepView, now: u64) -> bool {
    match step {
        StepView::Done(reply) => !grants(step),
        StepView::Perform(effect, call) => {
            &&& !(effect is Consume)
            &&& call.now == now
            &&& call.well_formed()
            &&& (call.pending is Owner || call.pending is Cached || call.pending is Record)
        },
    }
}

proof fn lemma_unserved_run(step: StepView, events: Seq<EventView>, ttl: u64, now: u64)
    requires
        unserved(step, now),
        forall|i: int| 0 <= i < events.len() ==> delivers_nothing_usable(#[trigger] events[i], now),
    ensures
        forall|k: int|
            0 <= k < effects_of(step, events, ttl).len() ==> !(#[trigger] effects_of(
                step,
                events,
                ttl,
            )[k] is Consume),
        reply_of(step, events, ttl) matches Some(reply) ==> !grants(StepView::Done(reply)),
    decreases events.len(),
{
    match step {
        StepView::Done(reply) => {},
        StepView::Perform(effect, call) => {
            if events.len() > 0 {
                let after = next(call, events.first(), ttl);
                let rest = events.drop_first();
                assert(delivers_nothing_usable(events[0], now));
                assert(unserved(after, now));
                assert forall|i: int| 0 <= i < rest.len() implies delivers_nothing_usable(
                    #[trigger] rest[i],
                    now,
                ) by {
                    assert(rest[i] == events[i + 1]);
                }
                lemma_unserved_run(after, rest, ttl, now);
                let tail = effects_of(after, rest, ttl);
                assert forall|k: int| 0 <= k < effects_of(step, events, ttl).len() implies !(
                #[trigger] effects_of(step, events, ttl)[k] is Consume) by {
                    if k > 0 {
                        assert(effects_of(step, events, ttl)[k] == tail[k - 1]);
                    }
                }
            }
        },
    }
}

/// An entitlement that is switched off, or whose time is up at the time of
/// the call, is never served, whatever the cache holds and whatever the
/// ledger answers. Where nothing that the cache or the ledger delivers in
/// the course of a call is usable, the call never asks the ledger to
/// consume, and never ends with a validation that says valid or with a
/// consumption that says done.
pub proof fn law_unusable_entitlements_are_never_served(
    operation: Operation,
    entitlement_id: Seq<char>,
    signature: Seq<char>,
    message: Seq<char>,
    now: u64,
    admitted: bool,
    events: Seq<EventView>,
    ttl: u64,
)
    requires
        forall|i: int| 0 <= i < events.len() ==> delivers_nothing_usable(#[trigger] events[i], now),
    ensures
        ({
            let start = started(operation, entitlement_id, signature, message, now, admitted);
            &&& forall|k: int|
                0 <= k < effects_of(start, events, ttl).len() ==> !(#[trigger] effects_of(
                    start,
                    events,
                    ttl,
                )[k] is Consume)
            &&& reply_of(start, events, ttl) matches Some(reply) ==> !grants(
                StepView::Done(reply),
            )
        }),
{
    let start = started(operation, entitlement_id, signature, message, now, admitted);
    lemma_unserved_run(start, events, ttl, now);
}

/// A step of a consumption that has found no room for its amount so far:
/// it has not gone to the ledger to consume, and what it writes to the
/// cache is the ledger's record as `prior` delivered it.
spec fn held_back(step: StepView, prior: Seq<EventView>, amount: u64) -> bool {
    match step {
        StepView::Done(reply) => !grants(step),
        StepView::Perform(effect, call) => {
            &&& !(effect is Consume)
            &&& (copy_written(effect) matches Some(copy) ==> as_delivered(prior, copy))
            &&& call.operation == (Operation::Consume { amount })
            &&& call.well_formed()
            &&& match call.pending {
                Pending::Owner | Pending::Cached | Pending::Record => true,
                Pending::Populated => call.resolved matches Some(copy)
                    && !copy.entitlement.fits(amount as int),
                _ => false,
            }
        },
    }
}

proof fn lemma_as_delivered_grows(
    prior: Seq<EventView>,
    later: Seq<EventView>,
    copy: CachedEntitlementView,
)
    requires
        as_delivered(prior, copy),
    ensures
        as_delivered(prior + later, copy),
{
    let i = choose|i: int|
        0 <= i < prior.len() && #[trigger] prior[i] == EventView::Ledger(
            Ok::<EntitlementView, BlockchainErrorView>(copy.entitlement),
        );
    assert((prior + later)[i] == prior[i]);
}

proof fn lemma_held_back_run(
    step: StepView,
    prior: Seq<EventView>,
    events: Seq<EventView>,
    ttl: u64,
    amount: u64,
)
    requires
        held_back(step, prior, amount),
        forall|i: int| 0 <= i < events.len() ==> delivers_no_room(#[trigger] events[i], amount),
    ensures
        forall|k: int|
            0 <= k < effects_of(step, events, ttl).len() ==> !(#[trigger] effects_of(
                step,
                events,
                ttl,
            )[k] is Consume),
        forall|k: int|
            0 <= k < effects_of(step, events, ttl).len() ==> (copy_written(
                #[trigger] effects_of(step, events, ttl)[k],
            ) matches Some(copy) ==> as_delivered(prior + events, copy)),
        reply_of(step, events, ttl) matches Some(reply) ==> !grants(StepView::Done(reply)),
    decreases events.len(),
{
    match step {
        StepView::Done(reply) => {},
        StepView::Perform(effect, call) => {
            if copy_written(effect) is Some {
                lemma_as_delivered_grows(prior, events, copy_written(effect)->0);
            }
            if events.len() > 0 {
                let event = events.first();
                let after = next(call, event, ttl);
                let rest = events.drop_first();
                let seen = prior.push(event);
                assert(delivers_no_room(events[0], amount));
                assert(held_back(after, seen, amount)) by {
                    if written(after) is Some {
                        assert(seen[prior.len() as int] == event);
                    }
                }
                assert forall|i: int| 0 <= i < rest.len() implies delivers_no_room(
                    #[trigger] rest[i],
                    amount,
                ) by {
                    assert(rest[i] == events[i + 1]);
                }
                lemma_held_back_run(after, seen, rest, ttl, amount);
                assert(seen + rest =~= prior + events);
                let tail = effects_of(after, rest, ttl);
                let all = effects_of(step, events, ttl);
                assert forall|k: int| 0 <= k < all.len() implies !(#[trigger] all[k] is Consume) by {
                    if k > 0 {
                        assert(all[k] == tail[k - 1]);
                    }
                }
                assert forall|k: int| 0 <= k < all.len() implies (copy_written(
                    #[trigger] all[k],
                ) matches Some(copy) ==> as_delivered(prior + events, copy)) by {
                    if k > 0 {
                        assert(all[k] == tail[k - 1]);
                    }
                }
            } else {
                assert(prior + events =~= prior);
            }
        },
    }
}

/// A consumption for which there is no room leaves ledger and cache as
/// they were, whatever the cache holds and whatever the ledger answers.
/// Where nothing that the cache or the ledger delivers in the course of
/// the call has room for the amount, the call never asks the ledger to
/// consume, never ends with a consumption that says done, and writes
/// nothing to the cache but the ledger's own record as it was delivered.
pub proof fn law_consumption_without_room_touches_nothing(
    amount: u64,
    entitlement_id: Seq<char>,
    signature: Seq<char>,
    message: Seq<char>,
    now: u64,
    admitted: bool,
    events: Seq<EventView>,
    ttl: u64,
)
    requires
        forall|i: int| 0 <= i < events.len() ==> delivers_no_room(#[trigger] events[i], amount),
    ensures
        ({
            let start = started(
                Operation::Consume { amount },
                entitlement_id,
                signature,
                message,
                now,
                admitted,
            );
            &&& forall|k: int|
                0 <= k < effects_of(start, events, ttl).len() ==> !(#[trigger] effects_of(
                    start,
                    events,
                    ttl,
                )[k] is Consume)
            &&& forall|k: int|
                0 <= k < effects_of(start, events, ttl).len() ==> (copy_written(
                    #[trigger] effects_of(start, events, ttl)[k],
                ) matches Some(copy) ==> as_delivered(events, copy))
            &&& reply_of(start, events, ttl) matches Some(reply) ==> !grants(
                StepView::Done(reply),
            )
        }),
{
    let start = started(
        Operation::Consume { amount },
        entitlement_id,
        signature,
        message,
        now,
        admitted,
    );
    lemma_held_back_run(start, Seq::empty(), events, ttl, amount);
    assert(Seq::<EventView>::empty() + events =~= events);
}

} // verus!
