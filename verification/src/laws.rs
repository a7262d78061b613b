//! What holds of the session over whole runs of responses and over pairs
//! of subscription changes.

use vstd::prelude::*;
use crate::models::{ChannelModel, EventData, PendingEvent, Trade, WsMessageType, WsResponse, WsResponseData};
use crate::session::{
    acknowledges, active_after, admits, buffered, events_of, progress_after, refuses, without,
    Phase, Progress, RequestKind, CONFIRMATION_LIMIT,
};

verus! {

/// The events of a run of responses, in order of arrival.
pub open spec fn events_of_all(responses: Seq<WsResponse>) -> Seq<PendingEvent>
    decreases responses.len(),
{
    if responses.len() == 0 {
        Seq::empty()
    } else {
        events_of_all(responses.drop_last()) + events_of(responses.last())
    }
}

/// The progress of a change over `len` channels after a run of responses.
pub open spec fn progress_after_all(
    kind: RequestKind,
    len: nat,
    progress: Progress,
    responses: Seq<WsResponse>,
) -> Progress
    decreases responses.len(),
{
    if responses.len() == 0 {
        progress
    } else {
        progress_after(
            kind,
            len,
            progress_after_all(kind, len, progress, responses.drop_last()),
            responses.last().kind,
        )
    }
}

/// The events that a run of responses adds to the buffer while a change is
/// under way.
pub open spec fn buffered_all(
    kind: RequestKind,
    len: nat,
    progress: Progress,
    responses: Seq<WsResponse>,
) -> Seq<PendingEvent>
    decreases responses.len(),
{
    if responses.len() == 0 {
        Seq::empty()
    } else {
        buffered_all(kind, len, progress, responses.drop_last()) + buffered(
            kind,
            progress_after_all(kind, len, progress, responses.drop_last()),
            responses.last(),
        )
    }
}

/// A response is neither a pong nor the acknowledgement of a change of
/// this kind.
pub open spec fn is_other(kind: RequestKind, response: WsResponse) -> bool {
    response.kind != WsMessageType::Pong && !acknowledges(kind, response.kind)
}

/// A pong carries no event, is not counted while an acknowledgement is
/// awaited, and changes nothing in the progress of a change.
pub proof fn pong_is_never_queued(kind: RequestKind, len: nat, progress: Progress, response: WsResponse)
    requires
        response.kind == WsMessageType::Pong,
    ensures
        events_of(response) == Seq::<PendingEvent>::empty(),
        buffered(kind, progress, response) == Seq::<PendingEvent>::empty(),
        progress_after(kind, len, progress, response.kind) == progress,
{
}

/// The events of a run of responses are those of the run without its
/// pongs: however many pongs arrive, none shows in what is queued.
pub proof fn pongs_leave_no_trace(responses: Seq<WsResponse>)
    ensures
        events_of_all(responses) == events_of_all(
            responses.filter(|r: WsResponse| r.kind != WsMessageType::Pong),
        ),
    decreases responses.len(),
{
    reveal(Seq::filter);
    let keep = |r: WsResponse| r.kind != WsMessageType::Pong;
    if responses.len() > 0 {
        let front = responses.drop_last();
        let last = responses.last();
        pongs_leave_no_trace(front);
        if keep(last) {
            assert(responses.filter(keep) == front.filter(keep).push(last));
            assert(front.filter(keep).push(last).drop_last() =~= front.filter(keep));
        } else {
            assert(responses.filter(keep) == front.filter(keep));
            assert(events_of_all(front) + events_of(last) =~= events_of_all(front));
        }
    }
}

/// A list of trades yields one event per trade, in the order of the list,
/// each with the instrument of the response.
pub proof fn trade_list_events(response: WsResponse, trades: Vec<Trade>)
    requires
        response.kind != WsMessageType::Pong,
        response.data == Some(WsResponseData::Trades(trades)),
    ensures
        events_of(response).len() == trades@.len(),
        forall|i: int|
            0 <= i < trades@.len() ==> #[trigger] events_of(response)[i] == (
                response.market,
                EventData::Trade(trades@[i]),
            ),
{
}

/// While an acknowledgement is awaited, a run of responses that are
/// neither pongs nor that acknowledgement is counted one by one, and all
/// their events are queued in order. At the limit the change ends as
/// missing its confirmation.
pub proof fn unacknowledged_run(
    kind: RequestKind,
    len: nat,
    index: usize,
    responses: Seq<WsResponse>,
)
    requires
        responses.len() <= CONFIRMATION_LIMIT,
        forall|i: int| 0 <= i < responses.len() ==> is_other(kind, #[trigger] responses[i]),
    ensures
        progress_after_all(kind, len, Progress { index, phase: Phase::Waiting(0) }, responses) == (
        if responses.len() < CONFIRMATION_LIMIT {
            Progress { index, phase: Phase::Waiting(responses.len() as usize) }
        } else {
            Progress { index, phase: Phase::Missing }
        }),
        buffered_all(kind, len, Progress { index, phase: Phase::Waiting(0) }, responses)
            == events_of_all(responses),
    decreases responses.len(),
{
    if responses.len() > 0 {
        let front = responses.drop_last();
        assert forall|i: int| 0 <= i < front.len() implies is_other(kind, #[trigger] front[i]) by {
            assert(front[i] == responses[i]);
        }
        unacknowledged_run(kind, len, index, front);
        assert(is_other(kind, responses[responses.len() - 1]));
    }
}

/// After the limit of responses that are neither pongs nor the awaited
/// acknowledgement, the change misses its confirmation, and the events of
/// all those responses are queued in their order.
pub proof fn missing_confirmation(
    kind: RequestKind,
    len: nat,
    index: usize,
    responses: Seq<WsResponse>,
)
    requires
        responses.len() == CONFIRMATION_LIMIT,
        forall|i: int| 0 <= i < responses.len() ==> is_other(kind, #[trigger] responses[i]),
    ensures
        progress_after_all(kind, len, Progress { index, phase: Phase::Waiting(0) }, responses)
            == (Progress { index, phase: Phase::Missing }),
        buffered_all(kind, len, Progress { index, phase: Phase::Waiting(0) }, responses)
            == events_of_all(responses),
{
    unacknowledged_run(kind, len, index, responses);
}

/// A batch whose first channel needs a login that the session lacks adds
/// nothing to the active set.
pub proof fn refused_at_once(authenticated: bool, active: Seq<ChannelModel>, batch: Seq<ChannelModel>, k: int)
    requires
        refuses(authenticated, batch, 0),
        admits(authenticated, batch, k),
    ensures
        k == 0,
        active + batch.take(k) == active,
{
    if k > 0 {
        assert(authenticated || !batch[0].requires_authentication());
    }
    assert(active + batch.take(0) =~= active);
}

/// A channel is active after a confirmed unsubscription exactly if it was
/// active before and is not in the batch.
pub proof fn unsubscribed_channels_leave(active: Seq<ChannelModel>, batch: Seq<ChannelModel>, c: ChannelModel)
    ensures
        without(active, batch).contains(c) <==> active.contains(c) && !batch.contains(c),
{
    let keep = |x: ChannelModel| !batch.contains(x);
    if without(active, batch).contains(c) {
        let i = choose|i: int| 0 <= i < without(active, batch).len() && without(active, batch)[i] == c;
        active.lemma_filter_pred(keep, i);
        active.lemma_filter_contains_rev(keep, c);
    }
    if active.contains(c) && !batch.contains(c) {
        let i = choose|i: int| 0 <= i < active.len() && active[i] == c;
        active.lemma_filter_contains(keep, i);
    }
}

/// A confirmed subscription to channels that were not active, followed by
/// a confirmed unsubscription from the same channels, gives back the
/// active set as it was.
pub proof fn subscribe_then_unsubscribe(active: Seq<ChannelModel>, batch: Seq<ChannelModel>)
    requires
        forall|i: int| 0 <= i < active.len() ==> !batch.contains(#[trigger] active[i]),
    ensures
        without(active + batch, batch) == active,
    decreases batch.len(),
{
    let keep = |x: ChannelModel| !batch.contains(x);
    Seq::filter_distributes_over_add(active, batch, keep);
    kept_whole(active, keep);
    assert forall|i: int| 0 <= i < batch.len() implies !keep(#[trigger] batch[i]) by {
        assert(batch.contains(batch[i]));
    }
    dropped_whole(batch, keep);
    assert(active + Seq::<ChannelModel>::empty() =~= active);
}

proof fn kept_whole(s: Seq<ChannelModel>, keep: spec_fn(ChannelModel) -> bool)
    requires
        forall|i: int| 0 <= i < s.len() ==> keep(#[trigger] s[i]),
    ensures
        s.filter(keep) == s,
    decreases s.len(),
{
    reveal(Seq::filter);
    if s.len() > 0 {
        let front = s.drop_last();
        assert forall|i: int| 0 <= i < front.len() implies keep(#[trigger] front[i]) by {
            assert(front[i] == s[i]);
        }
        kept_whole(front, keep);
        assert(keep(s[s.len() - 1]));
        assert(front.push(s.last()) =~= s);
    }
}

proof fn dropped_whole(s: Seq<ChannelModel>, keep: spec_fn(ChannelModel) -> bool)
    requires
        forall|i: int| 0 <= i < s.len() ==> !keep(#[trigger] s[i]),
    ensures
        s.filter(keep) == Seq::<ChannelModel>::empty(),
    decreases s.len(),
{
    reveal(Seq::filter);
    if s.len() > 0 {
        let front = s.drop_last();
        assert forall|i: int| 0 <= i < front.len() implies !keep(#[trigger] front[i]) by {
            assert(front[i] == s[i]);
        }
        dropped_whole(front, keep);
        assert(!keep(s[s.len() - 1]));
    }
}

/// Removing every active channel leaves none, so a confirmed
/// unsubscription from the whole active set ends as one that clears it.
pub proof fn unsubscribing_everything_empties(active: Seq<ChannelModel>)
    ensures
        without(active, active) == Seq::<ChannelModel>::empty(),
{
    let keep = |x: ChannelModel| !active.contains(x);
    assert forall|i: int| 0 <= i < active.len() implies !keep(#[trigger] active[i]) by {
        assert(active.contains(active[i]));
    }
    dropped_whole(active, keep);
}

/// A confirmed subscription to distinct channels, none of them active,
/// leaves an active set without duplicates if it had none.
pub proof fn subscription_keeps_distinct(active: Seq<ChannelModel>, batch: Seq<ChannelModel>)
    requires
        active.no_duplicates(),
        batch.no_duplicates(),
        forall|i: int| 0 <= i < batch.len() ==> !active.contains(#[trigger] batch[i]),
    ensures
        (active + batch).no_duplicates(),
{
    let all = active + batch;
    assert forall|i: int, j: int| 0 <= i < all.len() && 0 <= j < all.len() && i != j implies all[i]
        != all[j] by {
        if i < active.len() && j >= active.len() {
            assert(all[j] == batch[j - active.len()]);
            assert(active.contains(active[i]));
        } else if j < active.len() && i >= active.len() {
            assert(all[i] == batch[i - active.len()]);
            assert(active.contains(active[j]));
        } else if i >= active.len() {
            assert(all[i] == batch[i - active.len()]);
            assert(all[j] == batch[j - active.len()]);
        }
    }
}

/// `part` is found within `whole` at the rising positions `at`.
pub open spec fn embeds(part: Seq<ChannelModel>, whole: Seq<ChannelModel>, at: Seq<int>) -> bool {
    &&& at.len() == part.len()
    &&& forall|i: int|
        0 <= i < at.len() ==> 0 <= #[trigger] at[i] < whole.len() && whole[at[i]] == part[i]
    &&& forall|i: int, j: int| 0 <= i < j < at.len() ==> #[trigger] at[i] < #[trigger] at[j]
}

/// A confirmed unsubscription keeps the order of the channels that stay,
/// and leaves an active set without duplicates if it had none.
pub proof fn unsubscription_keeps_order(active: Seq<ChannelModel>, batch: Seq<ChannelModel>)
    ensures
        exists|at: Seq<int>| embeds(without(active, batch), active, at),
        active.no_duplicates() ==> without(active, batch).no_duplicates(),
    decreases active.len(),
{
    reveal(Seq::filter);
    let keep = |x: ChannelModel| !batch.contains(x);
    if active.len() == 0 {
        assert(embeds(without(active, batch), active, Seq::<int>::empty()));
    } else {
        let front = active.drop_last();
        unsubscription_keeps_order(front, batch);
        let before = choose|at: Seq<int>| embeds(without(front, batch), front, at);
        let at = if keep(active.last()) {
            before.push(active.len() - 1)
        } else {
            before
        };
        assert forall|i: int| 0 <= i < at.len() implies 0 <= #[trigger] at[i] < active.len() && active[at[i]] == without(active, batch)[i] by {
            if i < before.len() {
                assert(front[before[i]] == active[before[i]]);
            }
        }
        assert forall|i: int, j: int| 0 <= i < j < at.len() implies #[trigger] at[i] < #[trigger] at[j] by {
            if j < before.len() {
            } else {
                assert(before[i] < front.len());
            }
        }
        assert(embeds(without(active, batch), active, at));
        if active.no_duplicates() {
            assert forall|i: int, j: int| 0 <= i < front.len() && 0 <= j < front.len() && i != j implies front[i] != front[j] by {
                assert(front[i] == active[i] && front[j] == active[j]);
            }
            let kept = without(active, batch);
            assert forall|i: int, j: int| 0 <= i < kept.len() && 0 <= j < kept.len() && i != j implies kept[i] != kept[j] by {
                if i < j {
                    assert(at[i] < at[j]);
                } else {
                    assert(at[j] < at[i]);
                }
                assert(active[at[i]] == kept[i] && active[at[j]] == kept[j]);
            }
        }
    }
}

/// A subscription change that the exchange acknowledged as a whole.
pub ghost enum Change {
    Subscribed(Seq<ChannelModel>),
    Unsubscribed(Seq<ChannelModel>),
}

/// The active set after a run of acknowledged changes: a subscription
/// appends its batch, an unsubscription removes its batch.
pub open spec fn after_changes(active: Seq<ChannelModel>, changes: Seq<Change>) -> Seq<ChannelModel>
    decreases changes.len(),
{
    if changes.len() == 0 {
        active
    } else {
        let before = after_changes(active, changes.drop_last());
        match changes.last() {
            Change::Subscribed(batch) => before + batch,
            Change::Unsubscribed(batch) => without(before, batch),
        }
    }
}

/// Every subscription of the run asks for distinct channels, none of which
/// is active when it is made.
pub open spec fn disciplined(active: Seq<ChannelModel>, changes: Seq<Change>) -> bool
    decreases changes.len(),
{
    changes.len() > 0 ==> {
        &&& disciplined(active, changes.drop_last())
        &&& match changes.last() {
            Change::Subscribed(batch) => {
                &&& batch.no_duplicates()
                &&& forall|i: int|
                    0 <= i < batch.len() ==> !after_changes(active, changes.drop_last()).contains(
                        #[trigger] batch[i],
                    )
            },
            Change::Unsubscribed(_) => true,
        }
    }
}

/// The channel was active before the run or subscribed in it, and no later
/// change of the run unsubscribed it.
pub open spec fn acknowledged(active: Seq<ChannelModel>, changes: Seq<Change>, c: ChannelModel) -> bool
    decreases changes.len(),
{
    if changes.len() == 0 {
        active.contains(c)
    } else {
        match changes.last() {
            Change::Subscribed(batch) => batch.contains(c) || acknowledged(
                active,
                changes.drop_last(),
                c,
            ),
            Change::Unsubscribed(batch) => !batch.contains(c) && acknowledged(
                active,
                changes.drop_last(),
                c,
            ),
        }
    }
}

/// After any run of acknowledged changes, the active channels are exactly
/// those that were subscribed and not unsubscribed since.
pub proof fn active_set_is_what_was_acknowledged(
    active: Seq<ChannelModel>,
    changes: Seq<Change>,
    c: ChannelModel,
)
    ensures
        after_changes(active, changes).contains(c) <==> acknowledged(active, changes, c),
    decreases changes.len(),
{
    if changes.len() > 0 {
        let before = after_changes(active, changes.drop_last());
        active_set_is_what_was_acknowledged(active, changes.drop_last(), c);
        match changes.last() {
            Change::Subscribed(batch) => {
                let all = before + batch;
                if all.contains(c) {
                    let i = choose|i: int| 0 <= i < all.len() && all[i] == c;
                    if i < before.len() {
                        assert(before[i] == c);
                    } else {
                        assert(batch[i - before.len()] == c);
                    }
                }
                if before.contains(c) {
                    let i = choose|i: int| 0 <= i < before.len() && before[i] == c;
                    assert(all[i] == c);
                }
                if batch.contains(c) {
                    let i = choose|i: int| 0 <= i < batch.len() && batch[i] == c;
                    assert(all[before.len() + i] == c);
                }
            },
            Change::Unsubscribed(batch) => {
                unsubscribed_channels_leave(before, batch, c);
            },
        }
    }
}

/// A run of acknowledged changes in which every subscription asks for
/// distinct channels that are not active leaves no channel twice in the
/// active set.
pub proof fn active_set_stays_distinct(active: Seq<ChannelModel>, changes: Seq<Change>)
    requires
        active.no_duplicates(),
        disciplined(active, changes),
    ensures
        after_changes(active, changes).no_duplicates(),
    decreases changes.len(),
{
    if changes.len() > 0 {
        let before = after_changes(active, changes.drop_last());
        active_set_stays_distinct(active, changes.drop_last());
        match changes.last() {
            Change::Subscribed(batch) => {
                subscription_keeps_distinct(before, batch);
            },
            Change::Unsubscribed(batch) => {
                unsubscription_keeps_order(before, batch);
            },
        }
    }
}

/// Only the confirmation of a whole unsubscription changes the active set:
/// no step of a subscription does, and no step that does not confirm.
pub proof fn active_set_changes_on_confirmation_only(
    kind: RequestKind,
    batch: Seq<ChannelModel>,
    before: Progress,
    after: Progress,
    active: Seq<ChannelModel>,
)
    requires
        kind == RequestKind::Subscribe || !(after.phase is Confirmed),
    ensures
        active_after(kind, batch, before, after, active) == active,
{
}

} // verus!
