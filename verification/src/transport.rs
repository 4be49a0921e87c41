//! Model of the transport layer (the message bus's object server): which
//! caller-assigned object identities are currently registered, and the ordered
//! history of observable actions — signals emitted, objects removed, teardown
//! callbacks run. The lifecycle contracts of the session objects are stated
//! over this model, and the program around the library performs each logged
//! action against the real bus in the same order.

use vstd::prelude::*;

verus! {

/// One observable action of the transport layer.
#[derive(Clone, Copy, PartialEq, Eq, Debug)]
pub enum BusEvent {
    /// The `closed` signal was emitted for the object with this identity.
    ClosedSignal(u64),
    /// The object with this identity was unregistered from the object server.
    Removed(u64),
    /// The teardown callback owned by the session with this identity ran.
    TeardownRan(u64),
}

/// The error a caller sees when addressing an object identity that the
/// transport no longer serves ("object not found").
#[derive(Clone, Copy, PartialEq, Eq, Debug)]
pub enum CallError {
    UnknownObject,
}

/// The object server: registered identities plus the history of observable
/// actions, oldest first.
pub struct Transport {
    registered: Vec<u64>,
    log: Vec<BusEvent>,
}

/// How many times the teardown callback of the session with identity `id`
/// ran, according to the history `s`.
pub open spec fn teardown_count(s: Seq<BusEvent>, id: u64) -> nat
    decreases s.len(),
{
    if s.len() == 0 {
        0
    } else {
        teardown_count(s.drop_last(), id) + (if s.last() == BusEvent::TeardownRan(id) {
            1nat
        } else {
            0nat
        })
    }
}

/// How many times the `closed` signal was emitted for identity `id`,
/// according to the history `s`.
pub open spec fn closed_signal_count(s: Seq<BusEvent>, id: u64) -> nat
    decreases s.len(),
{
    if s.len() == 0 {
        0
    } else {
        closed_signal_count(s.drop_last(), id) + (if s.last() == BusEvent::ClosedSignal(id) {
            1nat
        } else {
            0nat
        })
    }
}

impl Transport {
    /// The identities currently registered.
    pub closed spec fn registered_ids(&self) -> Seq<u64> {
        self.registered@
    }

    /// Whether a call addressed to `id` still reaches an object.
    pub open spec fn is_registered(&self, id: u64) -> bool {
        self.registered_ids().contains(id)
    }

    /// The history of observable actions, oldest first.
    pub closed spec fn events(&self) -> Seq<BusEvent> {
        self.log@
    }

    /// Each identity is registered at most once.
    pub open spec fn wf(&self) -> bool {
        forall|i: int, j: int|
            0 <= i < j < self.registered_ids().len() ==> self.registered_ids()[i]
                != self.registered_ids()[j]
    }

    /// A fresh object server: nothing registered, nothing happened yet.
    pub fn new() -> (t: Transport)
        ensures
            t.wf(),
            t.events() == Seq::<BusEvent>::empty(),
            forall|id: u64| !t.is_registered(id),
    {
        Transport { registered: Vec::new(), log: Vec::new() }
    }

    /// Register an object under a caller-assigned identity.
    pub fn register(&mut self, id: u64)
        requires
            old(self).wf(),
            !old(self).is_registered(id),
        ensures
            final(self).wf(),
            final(self).events() == old(self).events(),
            forall|j: u64| final(self).is_registered(j) <==> (old(self).is_registered(j) || j == id),
    {
        self.registered.push(id);
        proof {
            assert forall|j: u64| self.is_registered(j) <==> (old(self).is_registered(j) || j
                == id) by {
                if old(self).is_registered(j) {
                    let k = choose|k: int|
                        0 <= k < old(self).registered_ids().len() && old(self).registered_ids()[k]
                            == j;
                    assert(self.registered_ids()[k] == j);
                }
                if j == id {
                    assert(self.registered_ids().last() == id);
                }
            }
        }
    }

    /// Whether the transport dispatches a call addressed to `id`: only
    /// registered identities are reachable, any other call fails with an
    /// "object not found" error.
    pub fn route(&self, id: u64) -> (r: Result<(), CallError>)
        ensures
            r is Ok <==> self.is_registered(id),
            r is Err ==> r == Err::<(), CallError>(CallError::UnknownObject),
    {
        let n = self.registered.len();
        let mut i: usize = 0;
        while i < n
            invariant
                n == self.registered_ids().len(),
                0 <= i <= n,
                forall|k: int| 0 <= k < i ==> self.registered_ids()[k] != id,
            decreases n - i,
        {
            if self.registered[i] == id {
                return Ok(());
            }
            i += 1;
        }
        Err(CallError::UnknownObject)
    }

    /// Emit the `closed` signal for identity `id` to any subscribers.
    pub fn emit_closed(&mut self, id: u64)
        ensures
            final(self).registered_ids() == old(self).registered_ids(),
            final(self).events() == old(self).events().push(BusEvent::ClosedSignal(id)),
    {
        self.log.push(BusEvent::ClosedSignal(id));
    }

    /// Unregister the object at identity `id`: all further calls addressed to
    /// it fail with an "object not found" error. Removing an identity that is
    /// not registered changes nothing but the history — the caller of the
    /// close sequence never sees such an error.
    pub fn unregister(&mut self, id: u64)
        requires
            old(self).wf(),
        ensures
            final(self).wf(),
            !final(self).is_registered(id),
            forall|j: u64|
                j != id ==> (final(self).is_registered(j) <==> old(self).is_registered(j)),
            final(self).events() == old(self).events().push(BusEvent::Removed(id)),
    {
        let n = self.registered.len();
        let mut i: usize = 0;
        while i < n
            invariant
                old(self).wf(),
                n == self.registered_ids().len(),
                0 <= i <= n,
                self.registered_ids() == old(self).registered_ids(),
                self.events() == old(self).events(),
                forall|k: int| 0 <= k < i ==> self.registered_ids()[k] != id,
            decreases n - i,
        {
            if self.registered[i] == id {
                let _removed: u64 = self.registered.remove(i);
                proof {
                    let pre = old(self).registered_ids();
                    let post = self.registered_ids();
                    assert(pre[i as int] == id);
                    assert(post =~= pre.subrange(0, i as int) + pre.subrange(
                        i as int + 1,
                        pre.len() as int,
                    ));
                    assert forall|k: int| 0 <= k < i implies post[k] == pre[k] by {}
                    assert forall|k: int| i <= k < post.len() implies post[k] == pre[k + 1] by {}
                    assert forall|a: int, b: int|
                        0 <= a < b < post.len() implies post[a] != post[b] by {
                        let pa: int = if a < i { a } else { a + 1 };
                        let pb: int = if b < i { b } else { b + 1 };
                        assert(post[a] == pre[pa]);
                        assert(post[b] == pre[pb]);
                        assert(0 <= pa < pb < pre.len());
                        assert(old(self).registered_ids()[pa] != old(self).registered_ids()[pb]);
                    }
                    assert(!post.contains(id)) by {
                        if post.contains(id) {
                            let k = choose|k: int| 0 <= k < post.len() && post[k] == id;
                            if k < i {
                                assert(pre[k] == id);
                                assert(old(self).registered_ids()[k] != old(
                                    self,
                                ).registered_ids()[i as int]);
                            } else {
                                assert(pre[k + 1] == id);
                                assert(old(self).registered_ids()[i as int] != old(
                                    self,
                                ).registered_ids()[k + 1]);
                            }
                        }
                    }
                    assert forall|j: u64| j != id implies (post.contains(j) <==> pre.contains(
                        j,
                    )) by {
                        if pre.contains(j) {
                            let k = choose|k: int| 0 <= k < pre.len() && pre[k] == j;
                            if k < i {
                                assert(post[k] == j);
                            } else {
                                assert(k != i);
                                assert(post[k - 1] == j);
                            }
                            assert(post.contains(j));
                        }
                        if post.contains(j) {
                            let k = choose|k: int| 0 <= k < post.len() && post[k] == j;
                            if k < i {
                                assert(pre[k] == j);
                            } else {
                                assert(pre[k + 1] == j);
                            }
                            assert(pre.contains(j));
                        }
                    }
                }
                self.log.push(BusEvent::Removed(id));
                return ;
            }
            i += 1;
        }
        proof {
            if self.is_registered(id) {
                let k = choose|k: int|
                    0 <= k < self.registered_ids().len() && self.registered_ids()[k] == id;
            }
        }
        self.log.push(BusEvent::Removed(id));
    }

    /// Record that a session's teardown callback ran. Only the close sequence
    /// appends this event, right after it invoked the callback.
    pub(crate) fn record_teardown(&mut self, id: u64)
        ensures
            final(self).registered_ids() == old(self).registered_ids(),
            final(self).events() == old(self).events().push(BusEvent::TeardownRan(id)),
    {
        self.log.push(BusEvent::TeardownRan(id));
    }

    /// The history of observable actions, for a caller outside the proofs.
    pub fn event_log(&self) -> (r: &Vec<BusEvent>)
        ensures
            r@ == self.events(),
    {
        &self.log
    }

    /// Whether a call addressed to `id` would still reach an object.
    pub fn reachable(&self, id: u64) -> (r: bool)
        ensures
            r == self.is_registered(id),
    {
        self.route(id).is_ok()
    }
}

} // verus!
