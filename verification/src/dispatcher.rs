use vstd::prelude::*;

use crate::channel::IntentChannel;
use crate::correlation::CorrelationId;

verus! {

/// One rate-limited network submission, ready for the embedding to hand to
/// its network layer: the intent kind this dispatcher was built for, the
/// correlation id that keys the undo unit, and the payload of the last push
/// that won the throttle window.
#[derive(Debug)]
#[verifier::ext_equal]
pub struct Submission<T> {
    pub kind: u64,
    pub id: CorrelationId,
    pub payload: T,
}

/// An editor can be in only one action at a time; the action can be
/// confirmed or aborted.
///
/// The dispatcher owns the correlation-id lifecycle of one gesture kind and
/// the intent channel its consumer drains. The producer side (`push_intent`,
/// `confirm`, `cancel`, `release`) never blocks and never talks to the
/// network itself: `cancel` and `release` return the id whose intents the
/// embedding must ask the network layer to undo, and the consumer side calls
/// `poll_submission` with the current time to learn what to submit.
///
/// `tag` distinguishes this dispatcher's ids from every other dispatcher's;
/// `next_serial` is the serial the next minted id will carry; `id` is the
/// outstanding correlation id, `None` while no gesture is in progress.
#[derive(Debug)]
#[verifier::ext_equal]
pub struct EditorAction<T> {
    pub tag: u64,
    pub next_serial: u64,
    pub id: Option<CorrelationId>,
    pub intent_kind: u64,
    pub channel: IntentChannel<T>,
}

impl<T> EditorAction<T> {
    /// Well-formedness: the outstanding id and any id sitting in the channel
    /// were minted by this dispatcher, no minted id is reused, and while a
    /// gesture is outstanding the pending message carries its id and no
    /// other.
    pub open spec fn wf(self) -> bool {
        &&& (self.id matches Some(c) ==> c.tag == self.tag && c.serial < self.next_serial)
        &&& (self.channel.pending matches Some(Some((c, _))) ==> {
            &&& c.tag == self.tag
            &&& c.serial < self.next_serial
            &&& (self.id matches Some(live) ==> live == c)
        })
    }

    /// The id a push in this state carries: the outstanding id, or the id a
    /// fresh mint would produce.
    pub open spec fn spec_active_id(self) -> CorrelationId {
        match self.id {
            Some(c) => c,
            None => CorrelationId { tag: self.tag, serial: self.next_serial },
        }
    }

    pub open spec fn spec_new(intent_kind: u64, tag: u64, throttle_interval: u64) -> Self {
        EditorAction {
            tag,
            next_serial: 0,
            id: None,
            intent_kind,
            channel: IntentChannel::spec_new(throttle_interval),
        }
    }

    /// A dispatcher for one gesture kind: idle, with no id minted yet, and
    /// submissions spaced at least `throttle_interval` milliseconds apart.
    /// The embedding spawns the consumer that polls it for the dispatcher's
    /// whole lifetime.
    pub fn new(intent_kind: u64, tag: u64, throttle_interval: u64) -> (dispatcher: Self)
        ensures
            dispatcher == Self::spec_new(intent_kind, tag, throttle_interval),
            dispatcher.wf(),
    {
        EditorAction {
            tag,
            next_serial: 0,
            id: None,
            intent_kind,
            channel: IntentChannel::new(throttle_interval),
        }
    }

    pub open spec fn spec_push(self, value: T) -> Self {
        let c = self.spec_active_id();
        EditorAction {
            id: Some(c),
            next_serial: if self.id is Some {
                self.next_serial
            } else {
                (self.next_serial + 1) as u64
            },
            channel: self.channel.spec_send(Some((c, value))),
            ..self
        }
    }

    /// One local edit tick: mints a correlation id if none is outstanding
    /// and overwrites the pending message with `(id, value)`. Never blocks;
    /// the network submission happens later, from the consumer side.
    pub fn push_intent(&mut self, value: T)
        requires
            old(self).id is None ==> old(self).next_serial < u64::MAX,
        ensures
            *final(self) == old(self).spec_push(value),
            final(self).id == Some(old(self).spec_active_id()),
            old(self).wf() ==> final(self).wf(),
    {
        if self.id.is_none() {
            self.id = Some(CorrelationId { tag: self.tag, serial: self.next_serial });
            self.next_serial = self.next_serial + 1;
        }
        let c = self.id.unwrap();
        self.channel.send(Some((c, value)));
    }

    pub open spec fn spec_confirm(self) -> Self {
        EditorAction { id: None, channel: self.channel.spec_send(None), ..self }
    }

    /// Accept the last submitted value of the gesture as final: the
    /// outstanding id is cleared without any cancellation, and the pending
    /// slot is reset so nothing stale is submitted under the finished id.
    pub fn confirm(&mut self)
        ensures
            *final(self) == old(self).spec_confirm(),
            old(self).wf() ==> final(self).wf(),
    {
        self.id = None;
        self.channel.send(None);
    }

    pub open spec fn spec_cancel(self) -> (Self, Option<CorrelationId>) {
        match self.id {
            Some(c) => (
                EditorAction { id: None, channel: self.channel.spec_send(None), ..self },
                Some(c),
            ),
            None => (self, None),
        }
    }

    /// Abandon the gesture: if an id is outstanding it is treated as
    /// resolved, the pending slot is reset, and the id is returned so the
    /// embedding can fire the undo request for exactly that unit. Idle
    /// dispatchers return `None` and are left untouched.
    pub fn cancel(&mut self) -> (undo: Option<CorrelationId>)
        ensures
            (*final(self), undo) == old(self).spec_cancel(),
            old(self).wf() ==> final(self).wf(),
    {
        match self.id {
            Some(c) => {
                self.id = None;
                self.channel.send(None);
                Some(c)
            },
            None => None,
        }
    }

    /// The teardown step, guaranteed by the embedding on every exit path: a
    /// gesture neither confirmed nor cancelled behaves exactly as `cancel`,
    /// so an abandoned gesture never leaves a half-applied, un-undoable
    /// edit, while a confirmed one triggers no undo.
    pub fn release(&mut self) -> (undo: Option<CorrelationId>)
        ensures
            (*final(self), undo) == old(self).spec_cancel(),
            old(self).wf() ==> final(self).wf(),
    {
        self.cancel()
    }

    pub open spec fn spec_poll(self, now: u64) -> (Self, Option<Submission<T>>) {
        let accepted = self.channel.spec_accept(now);
        let stepped = EditorAction { channel: accepted.0, ..self };
        match accepted.1 {
            Some(Some((c, v))) => (
                stepped,
                Some(Submission { kind: self.intent_kind, id: c, payload: v }),
            ),
            _ => (stepped, None),
        }
    }

    /// One consumer step at time `now`: accepts the pending message if the
    /// throttle window has closed, and turns it into the submission to hand
    /// to the network layer. Reset messages and polls inside the window
    /// yield `None`.
    pub fn poll_submission(&mut self, now: u64) -> (submission: Option<Submission<T>>)
        ensures
            (*final(self), submission) == old(self).spec_poll(now),
            old(self).wf() ==> final(self).wf(),
    {
        match self.channel.accept(now) {
            Some(Some((c, v))) => Some(Submission { kind: self.intent_kind, id: c, payload: v }),
            _ => None,
        }
    }
}

/// The state after a burst of pushes, oldest first.
pub open spec fn spec_push_all<T>(dispatcher: EditorAction<T>, values: Seq<T>) -> EditorAction<T>
    decreases values.len(),
{
    if values.len() == 0 {
        dispatcher
    } else {
        spec_push_all(dispatcher, values.drop_last()).spec_push(values.last())
    }
}

/// What a burst leaves behind: the throttle clock is untouched, the first
/// push of the burst fixed the id, and the pending slot holds the last value
/// of the burst under that id.
pub proof fn lemma_push_all_state<T>(dispatcher: EditorAction<T>, values: Seq<T>)
    ensures
        spec_push_all(dispatcher, values).tag == dispatcher.tag,
        spec_push_all(dispatcher, values).intent_kind == dispatcher.intent_kind,
        spec_push_all(dispatcher, values).channel.interval == dispatcher.channel.interval,
        spec_push_all(dispatcher, values).channel.last_emit == dispatcher.channel.last_emit,
        values.len() > 0 ==> spec_push_all(dispatcher, values).id == Some(
            dispatcher.spec_active_id(),
        ),
        values.len() > 0 ==> spec_push_all(dispatcher, values).channel.pending == Some(
            Some((dispatcher.spec_active_id(), values.last())),
        ),
    decreases values.len(),
{
    if values.len() > 0 {
        lemma_push_all_state(dispatcher, values.drop_last());
    }
}

/// Inside a throttle window no poll delivers anything, whatever is pending
/// and however much of it arrived since the window opened.
pub proof fn lemma_no_submission_inside_window<T>(dispatcher: EditorAction<T>, now: u64)
    requires
        !dispatcher.channel.spec_ready(now),
    ensures
        dispatcher.spec_poll(now) == (dispatcher, None::<Submission<T>>),
{
    assert(dispatcher.spec_poll(now).0 =~= dispatcher);
}

/// Coalescing: however many pushes land within one throttle window, the poll
/// that closes the window delivers exactly one submission, it carries the
/// value of the last push under the burst's one id, and every further poll
/// inside the next window delivers nothing.
pub proof fn lemma_coalescing<T>(dispatcher: EditorAction<T>, values: Seq<T>, now: u64)
    requires
        values.len() > 0,
        dispatcher.channel.spec_ready(now),
    ensures
        ({
            let burst = spec_push_all(dispatcher, values);
            let polled = burst.spec_poll(now);
            &&& polled.1 == Some(
                Submission {
                    kind: dispatcher.intent_kind,
                    id: dispatcher.spec_active_id(),
                    payload: values.last(),
                },
            )
            &&& polled.0.channel.pending is None
            &&& forall|later: u64|
                later < now + dispatcher.channel.interval ==> #[trigger] polled.0.spec_poll(later)
                    == (polled.0, None::<Submission<T>>)
        }),
{
    lemma_push_all_state(dispatcher, values);
    let burst = spec_push_all(dispatcher, values);
    let polled = burst.spec_poll(now);
    assert(burst.channel.spec_ready(now));
    assert(polled.0.channel.pending is None);
    assert forall|later: u64| later < now + dispatcher.channel.interval implies #[trigger] polled
        .0.spec_poll(later) == (polled.0, None::<Submission<T>>) by {
        assert(!polled.0.channel.spec_ready(later));
        assert(polled.0.spec_poll(later).0 =~= polled.0);
    }
}

/// Correlation stability: every push of a burst sits in the channel under
/// the id the first push fixed, and a push after a confirm mints a strictly
/// different id, so the old unit can never be amended again.
pub proof fn lemma_correlation_stability<T>(
    dispatcher: EditorAction<T>,
    values: Seq<T>,
    next_value: T,
)
    requires
        dispatcher.wf(),
        dispatcher.next_serial < u64::MAX,
        values.len() > 0,
    ensures
        forall|i: int|
            0 < i <= values.len() ==> spec_push_all(dispatcher, #[trigger] values.take(i)).id
                == Some(dispatcher.spec_active_id()),
        forall|i: int|
            0 < i <= values.len() ==> spec_push_all(
                dispatcher,
                #[trigger] values.take(i),
            ).channel.pending == Some(Some((dispatcher.spec_active_id(), values[i - 1]))),
        spec_push_all(dispatcher, values).spec_confirm().spec_push(next_value).id != Some(
            dispatcher.spec_active_id(),
        ),
{
    assert forall|i: int| 0 < i <= values.len() implies spec_push_all(
        dispatcher,
        #[trigger] values.take(i),
    ).id == Some(dispatcher.spec_active_id()) && spec_push_all(
        dispatcher,
        values.take(i),
    ).channel.pending == Some(Some((dispatcher.spec_active_id(), values[i - 1]))) by {
        lemma_push_all_state(dispatcher, values.take(i));
        assert(values.take(i).last() == values[i - 1]);
    }
    lemma_push_all_state(dispatcher, values);
    let burst = spec_push_all(dispatcher, values);
    let reused = burst.spec_confirm().spec_push(next_value);
    assert(reused.id == Some(
        CorrelationId { tag: burst.tag, serial: burst.next_serial },
    ));
    lemma_push_all_next_serial(dispatcher, values);
}

/// A burst advances the serial counter past the id it pushed under.
proof fn lemma_push_all_next_serial<T>(dispatcher: EditorAction<T>, values: Seq<T>)
    requires
        dispatcher.wf(),
        dispatcher.next_serial < u64::MAX,
    ensures
        spec_push_all(dispatcher, values).wf(),
        spec_push_all(dispatcher, values).next_serial >= dispatcher.next_serial,
        values.len() > 0 ==> dispatcher.spec_active_id().serial < spec_push_all(
            dispatcher,
            values,
        ).next_serial,
    decreases values.len(),
{
    if values.len() > 0 {
        lemma_push_all_next_serial(dispatcher, values.drop_last());
        lemma_push_all_state(dispatcher, values.drop_last());
    }
}

/// While an id is outstanding, every submission the consumer accepts carries
/// exactly that id.
pub proof fn lemma_submission_carries_live_id<T>(dispatcher: EditorAction<T>, now: u64)
    requires
        dispatcher.wf(),
        dispatcher.id is Some,
    ensures
        dispatcher.spec_poll(now).1 matches Some(submission) ==> Some(submission.id)
            == dispatcher.id,
{
}

/// Confirm is terminal-clean: after a confirm, the teardown path (or an
/// explicit cancel) requests no undo and changes nothing.
pub proof fn lemma_confirm_then_release_clean<T>(dispatcher: EditorAction<T>)
    ensures
        dispatcher.spec_confirm().spec_cancel() == (
            dispatcher.spec_confirm(),
            None::<CorrelationId>,
        ),
{
}

/// Cancel and drop-abort agree: with an outstanding id, one abort — whether
/// an explicit cancel or the teardown path, both of which step by
/// `spec_cancel` — requests exactly one undo, for that id, and any second
/// abort requests none.
pub proof fn lemma_abort_exactly_once<T>(dispatcher: EditorAction<T>)
    requires
        dispatcher.id is Some,
    ensures
        dispatcher.spec_cancel().1 == dispatcher.id,
        dispatcher.spec_cancel().0.spec_cancel().1 == None::<CorrelationId>,
{
}

} // verus!
