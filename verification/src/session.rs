//! The session object: a standing access grant with an owned,
//! run-at-most-once teardown callback, an explicit close sequence, a one-time
//! `closed` notification, and a fixed version attribute.

use vstd::prelude::*;
use crate::transport::{BusEvent, CallError, Transport, closed_signal_count, teardown_count};

verus! {

/// A standing access grant (for example an open screen cast). Owned by the
/// backend that created it; registered under a caller-assigned identity in
/// the transport layer; closed exactly once through the three-step sequence
/// of [`Session::close`].
pub struct Session<F> where F: FnOnce() {
    close_cb: Option<F>,
}

/// The observable actions of one close sequence on the object at identity
/// `id`: the `closed` signal first, then the removal from the object server,
/// then — only when the session still owned its teardown callback — one
/// teardown run. The signal always comes strictly before the removal, so
/// subscribers can still address the object at the moment of notification.
pub open spec fn close_events(had_callback: bool, id: u64) -> Seq<BusEvent> {
    if had_callback {
        seq![BusEvent::ClosedSignal(id), BusEvent::Removed(id), BusEvent::TeardownRan(id)]
    } else {
        seq![BusEvent::ClosedSignal(id), BusEvent::Removed(id)]
    }
}

impl<F> Session<F> where F: FnOnce() {
    /// The teardown callback the session still owns, if it has not run yet.
    pub closed spec fn callback(&self) -> Option<F> {
        self.close_cb
    }

    /// A fresh session in its open state, owning its teardown callback.
    pub fn new(cb: F) -> (s: Session<F>)
        ensures
            s.callback() == Some(cb),
    {
        Session { close_cb: Some(cb) }
    }

    /// The read-only version attribute of the session interface.
    pub fn version(&self) -> (v: u32)
        ensures
            v == 1u32,
    {
        1
    }

    /// The close sequence, as one logical operation: emit the `closed` signal,
    /// unregister the session at `id`, then — if the teardown callback is
    /// still present — remove and invoke it exactly once. A close that finds
    /// the callback already consumed repeats only the first two steps. Errors
    /// of the first two steps are absorbed by the transport model and never
    /// keep the callback from running; the caller sees no error at all.
    pub fn close(&mut self, bus: &mut Transport, id: u64)
        requires
            old(bus).wf(),
            old(self).callback() matches Some(cb) ==> call_requires(cb, ()),
        ensures
            final(bus).wf(),
            final(self).callback() is None,
            final(bus).events() == old(bus).events() + close_events(
                old(self).callback() is Some,
                id,
            ),
            !final(bus).is_registered(id),
            forall|j: u64| j != id ==> (final(bus).is_registered(j) <==> old(bus).is_registered(j)),
            old(self).callback() matches Some(cb) ==> call_ensures(cb, (), ()),
    {
        let ghost had_callback = self.callback() is Some;
        bus.emit_closed(id);
        bus.unregister(id);
        let ghost mid = *bus;
        proof {
            assert forall|j: u64| j != id implies (mid.is_registered(j) <==> old(
                bus,
            ).is_registered(j)) by {}
        }
        if let Some(cb) = self.close_cb.take() {
            cb();
            bus.record_teardown(id);
        }
        proof {
            assert(bus.registered_ids() == mid.registered_ids());
            assert(bus.is_registered(id) == mid.is_registered(id));
            assert forall|j: u64| j != id implies (bus.is_registered(j) <==> old(
                bus,
            ).is_registered(j)) by {
                assert(bus.is_registered(j) == mid.is_registered(j));
            }
            assert(bus.events() =~= old(bus).events() + close_events(had_callback, id));
        }
    }

    /// A bus call of `close` addressed to identity `id`: dispatched to the
    /// session only while it is registered, a no-op with an "object not
    /// found" error afterwards. A dispatched close performs the full
    /// [`Session::close`] sequence and reports no error to the caller.
    pub fn handle_close(&mut self, bus: &mut Transport, id: u64) -> (r: Result<(), CallError>)
        requires
            old(bus).wf(),
            old(self).callback() matches Some(cb) ==> call_requires(cb, ()),
        ensures
            final(bus).wf(),
            r is Ok <==> old(bus).is_registered(id),
            r is Ok ==> final(self).callback() is None
                && final(bus).events() == old(bus).events() + close_events(
                old(self).callback() is Some,
                id,
            )
                && !final(bus).is_registered(id)
                && (forall|j: u64|
                j != id ==> (final(bus).is_registered(j) <==> old(bus).is_registered(j)))
                && (old(self).callback() matches Some(cb) ==> call_ensures(cb, (), ())),
            r is Err ==> r == Err::<(), CallError>(CallError::UnknownObject)
                && final(self).callback() == old(self).callback()
                && final(bus).events() == old(bus).events()
                && final(bus).registered_ids() == old(bus).registered_ids(),
    {
        match bus.route(id) {
            Ok(()) => {
                self.close(bus, id);
                Ok(())
            },
            Err(e) => Err(e),
        }
    }

    /// A bus read of the `version` attribute addressed to identity `id`: the
    /// constant 1 while the session is registered, an "object not found"
    /// error once it has been unregistered.
    pub fn handle_version(&self, bus: &Transport, id: u64) -> (r: Result<u32, CallError>)
        ensures
            bus.is_registered(id) ==> r == Ok::<u32, CallError>(1u32),
            !bus.is_registered(id) ==> r == Err::<u32, CallError>(CallError::UnknownObject),
    {
        match bus.route(id) {
            Ok(()) => Ok(self.version()),
            Err(e) => Err(e),
        }
    }
}

/// Counting a push: one event appended to a history raises the teardown count
/// for `id` by one exactly when it is `TeardownRan(id)`.
proof fn lemma_teardown_count_push(s: Seq<BusEvent>, e: BusEvent, id: u64)
    ensures
        teardown_count(s.push(e), id) == teardown_count(s, id) + (if e == BusEvent::TeardownRan(id)
            {
            1nat
        } else {
            0nat
        }),
{
    assert(s.push(e).drop_last() =~= s);
    assert(s.push(e).last() == e);
}

/// Counting a push: one event appended to a history raises the closed-signal
/// count for `id` by one exactly when it is `ClosedSignal(id)`.
proof fn lemma_closed_signal_count_push(s: Seq<BusEvent>, e: BusEvent, id: u64)
    ensures
        closed_signal_count(s.push(e), id) == closed_signal_count(s, id) + (if e
            == BusEvent::ClosedSignal(id) {
            1nat
        } else {
            0nat
        }),
{
    assert(s.push(e).drop_last() =~= s);
    assert(s.push(e).last() == e);
}

/// One close of a session that still owns its teardown callback: the history
/// grows by exactly one `closed` signal for `id`, then the removal, then
/// exactly one teardown run — the signal strictly before the object
/// disappears, the callback invoked exactly once.
pub proof fn lemma_close_once(pre: Seq<BusEvent>, id: u64)
    ensures
        pre + close_events(true, id) == pre.push(BusEvent::ClosedSignal(id)).push(
            BusEvent::Removed(id),
        ).push(BusEvent::TeardownRan(id)),
        closed_signal_count(pre + close_events(true, id), id) == closed_signal_count(pre, id) + 1,
        teardown_count(pre + close_events(true, id), id) == teardown_count(pre, id) + 1,
{
    let stepped = pre.push(BusEvent::ClosedSignal(id)).push(BusEvent::Removed(id)).push(
        BusEvent::TeardownRan(id),
    );
    assert(pre + close_events(true, id) =~= stepped);
    lemma_closed_signal_count_push(pre, BusEvent::ClosedSignal(id), id);
    lemma_closed_signal_count_push(
        pre.push(BusEvent::ClosedSignal(id)),
        BusEvent::Removed(id),
        id,
    );
    lemma_closed_signal_count_push(
        pre.push(BusEvent::ClosedSignal(id)).push(BusEvent::Removed(id)),
        BusEvent::TeardownRan(id),
        id,
    );
    lemma_teardown_count_push(pre, BusEvent::ClosedSignal(id), id);
    lemma_teardown_count_push(pre.push(BusEvent::ClosedSignal(id)), BusEvent::Removed(id), id);
    lemma_teardown_count_push(
        pre.push(BusEvent::ClosedSignal(id)).push(BusEvent::Removed(id)),
        BusEvent::TeardownRan(id),
        id,
    );
}

/// A close that finds the teardown callback already consumed never runs it
/// again: the teardown count for `id` does not change.
pub proof fn lemma_close_again_no_teardown(pre: Seq<BusEvent>, id: u64)
    ensures
        pre + close_events(false, id) == pre.push(BusEvent::ClosedSignal(id)).push(
            BusEvent::Removed(id),
        ),
        teardown_count(pre + close_events(false, id), id) == teardown_count(pre, id),
{
    assert(pre + close_events(false, id) =~= pre.push(BusEvent::ClosedSignal(id)).push(
        BusEvent::Removed(id),
    ));
    lemma_teardown_count_push(pre, BusEvent::ClosedSignal(id), id);
    lemma_teardown_count_push(pre.push(BusEvent::ClosedSignal(id)), BusEvent::Removed(id), id);
}

/// Idempotence of the run-once callback: a first close followed by any second
/// close of the same session runs the teardown exactly once in total.
pub proof fn lemma_two_closes_one_teardown(pre: Seq<BusEvent>, id: u64)
    ensures
        teardown_count(pre + close_events(true, id) + close_events(false, id), id)
            == teardown_count(pre, id) + 1,
{
    lemma_close_once(pre, id);
    lemma_close_again_no_teardown(pre + close_events(true, id), id);
}

} // verus!
