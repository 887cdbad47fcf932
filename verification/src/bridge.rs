//! The hook state machine.
//!
//! The native engine invokes the hook callback synchronously, once per
//! row-level write, on the thread that issued the write. The callback's only
//! decisions — does this write deliver a notification, and must the hook be
//! torn down — are pure functions of the bridge's state and the raw event,
//! and they live here, verified. [`WatchBridge`] is the executable model of
//! one watched connection: the hook slot, the liveness of the consumer's
//! receiving end, and the queue of sent but not yet received notifications.

use vstd::prelude::*;

use crate::notify::NotificationView;
use crate::notify::UpdateNotification;
use crate::notify::spec_decode_operation;
use crate::notify::decode_operation;

verus! {

/// What the hook callback must do with the hook slot after attempting a
/// delivery: keep the registration, or unregister it because the consumer
/// is gone.
#[derive(Debug, Clone, Copy, PartialEq, Eq, Structural)]
pub enum HookAction {
    Retain,
    Unregister,
}

/// The teardown decision of the hook callback: the hook stays registered
/// exactly as long as deliveries succeed. A failed delivery means the
/// receiving end is gone, and the hook must be unregistered so later writes
/// stop invoking a callback nobody observes.
pub fn action_after_send(delivered: bool) -> (a: HookAction)
    ensures
        a == (if delivered {
            HookAction::Retain
        } else {
            HookAction::Unregister
        }),
{
    if delivered {
        HookAction::Retain
    } else {
        HookAction::Unregister
    }
}

/// One raw hook invocation as the engine reports it: the operation code and
/// the identifying tuple of the affected row.
#[verifier::ext_equal]
pub ghost struct WriteEvent {
    pub op_code: i32,
    pub database: Seq<char>,
    pub table: Seq<char>,
    pub row_id: i64,
}

/// The mathematical state of one watched connection: whether the hook is
/// registered, whether the consumer still holds the receiving end, and the
/// notifications sent but not yet received, in send order.
#[verifier::ext_equal]
pub ghost struct BridgeView {
    pub hook_registered: bool,
    pub receiver_alive: bool,
    pub pending: Seq<NotificationView>,
}

/// The notification a known write event decodes to.
pub open spec fn spec_event_notification(e: WriteEvent) -> NotificationView {
    NotificationView {
        operation: spec_decode_operation(e.op_code)->Some_0,
        database: e.database,
        table: e.table,
        row_id: e.row_id,
    }
}

/// The state just after a watch is registered: hook installed, consumer
/// live, nothing pending.
pub open spec fn spec_watched() -> BridgeView {
    BridgeView { hook_registered: true, receiver_alive: true, pending: Seq::empty() }
}

/// How one row-level write moves the bridge: an unregistered hook sees
/// nothing; an unknown operation code is a non-event; a known write with a
/// live consumer appends exactly one notification; a known write after the
/// consumer is gone delivers nothing and unregisters the hook.
pub open spec fn spec_write(s: BridgeView, e: WriteEvent) -> BridgeView {
    if !s.hook_registered {
        s
    } else {
        match spec_decode_operation(e.op_code) {
            Some(op) => {
                if s.receiver_alive {
                    BridgeView {
                        hook_registered: s.hook_registered,
                        receiver_alive: s.receiver_alive,
                        pending: s.pending.push(spec_event_notification(e)),
                    }
                } else {
                    BridgeView {
                        hook_registered: false,
                        receiver_alive: s.receiver_alive,
                        pending: s.pending,
                    }
                }
            },
            None => s,
        }
    }
}

/// The consumer drops its receiving end: queued notifications become
/// unobservable, but the hook slot itself is untouched — the bridge only
/// learns of the drop at the next write.
pub open spec fn spec_drop_receiver(s: BridgeView) -> BridgeView {
    BridgeView { hook_registered: s.hook_registered, receiver_alive: false, pending: Seq::empty() }
}

/// Explicit teardown: the hook is unregistered at once; what was already
/// sent stays receivable.
pub open spec fn spec_disable(s: BridgeView) -> BridgeView {
    BridgeView {
        hook_registered: false,
        receiver_alive: s.receiver_alive,
        pending: s.pending,
    }
}

/// The state after a whole sequence of writes, first event first.
pub open spec fn spec_run(s: BridgeView, events: Seq<WriteEvent>) -> BridgeView
    decreases events.len(),
{
    if events.len() == 0 {
        s
    } else {
        spec_run(spec_write(s, events[0]), events.drop_first())
    }
}

/// Whether every event in a sequence carries one of the three known
/// operation codes.
pub open spec fn all_ops_known(events: Seq<WriteEvent>) -> bool {
    forall|i: int| 0 <= i < events.len() ==> spec_decode_operation(events[i].op_code) is Some
}

/// The notifications a sequence of known writes decodes to, in write order.
pub open spec fn spec_notifications_of(events: Seq<WriteEvent>) -> Seq<NotificationView> {
    events.map_values(|e: WriteEvent| spec_event_notification(e))
}

/// The executable model of one watched connection. Its view is the
/// [`BridgeView`] the spec functions above move.
pub struct WatchBridge {
    hook_registered: bool,
    receiver_alive: bool,
    queue: Vec<UpdateNotification>,
}

impl View for WatchBridge {
    type V = BridgeView;

    closed spec fn view(&self) -> BridgeView {
        BridgeView {
            hook_registered: self.hook_registered,
            receiver_alive: self.receiver_alive,
            pending: self.queue@.map_values(|n: UpdateNotification| n@),
        }
    }
}

impl WatchBridge {
    /// Registers the watch: from here until teardown every row-level write
    /// moves the bridge by [`spec_write`].
    pub fn watch() -> (b: WatchBridge)
        ensures
            b@ == spec_watched(),
    {
        let b = WatchBridge { hook_registered: true, receiver_alive: true, queue: Vec::new() };
        proof {
            assert(b@ =~= spec_watched());
        }
        b
    }

    /// Whether the hook is still registered with the engine.
    pub fn is_hook_registered(&self) -> (r: bool)
        ensures
            r == self@.hook_registered,
    {
        self.hook_registered
    }

    /// Whether the consumer still holds the receiving end.
    pub fn is_receiver_alive(&self) -> (r: bool)
        ensures
            r == self@.receiver_alive,
    {
        self.receiver_alive
    }

    /// How many notifications were sent but not yet received.
    pub fn pending_count(&self) -> (n: usize)
        ensures
            n == self@.pending.len(),
    {
        self.queue.len()
    }

    /// One row-level write on the watched connection, with the raw arguments
    /// the engine hands to the hook callback.
    pub fn write(&mut self, op_code: i32, database: String, table: String, row_id: i64)
        ensures
            final(self)@ == spec_write(
                old(self)@,
                WriteEvent { op_code, database: database@, table: table@, row_id },
            ),
    {
        if !self.hook_registered {
            return ;
        }
        match decode_operation(op_code) {
            Some(operation) => {
                if self.receiver_alive {
                    let n = UpdateNotification { operation, database, table, row_id };
                    let ghost nv = n@;
                    self.queue.push(n);
                    proof {
                        assert(self.queue@.map_values(|x: UpdateNotification| x@) =~= old(
                            self,
                        ).queue@.map_values(|x: UpdateNotification| x@).push(nv));
                        assert(self@ =~= spec_write(
                            old(self)@,
                            WriteEvent { op_code, database: database@, table: table@, row_id },
                        ));
                    }
                } else {
                    self.hook_registered = false;
                }
            },
            None => {},
        }
    }

    /// The consumer drops its receiving end. The hook stays registered: the
    /// bridge learns of the drop only at the next write.
    pub fn drop_receiver(&mut self)
        ensures
            final(self)@ == spec_drop_receiver(old(self)@),
    {
        self.receiver_alive = false;
        self.queue = Vec::new();
        proof {
            assert(self@ =~= spec_drop_receiver(old(self)@));
        }
    }

    /// Explicit teardown: unregisters the hook at once, independent of any
    /// further writes. Calling it again is a no-op.
    pub fn disable(&mut self)
        ensures
            final(self)@ == spec_disable(old(self)@),
    {
        self.hook_registered = false;
    }

    /// The consumer receives the next notification, if one is pending:
    /// always the oldest one, so notifications come out in write order.
    pub fn recv(&mut self) -> (r: Option<UpdateNotification>)
        ensures
            old(self)@.pending.len() == 0 ==> r is None && final(self)@ == old(self)@,
            old(self)@.pending.len() > 0 ==> {
                &&& r matches Some(n) && n@ == old(self)@.pending[0]
                &&& final(self)@ == (BridgeView {
                    hook_registered: old(self)@.hook_registered,
                    receiver_alive: old(self)@.receiver_alive,
                    pending: old(self)@.pending.drop_first(),
                })
            },
    {
        if self.queue.len() == 0 {
            None
        } else {
            let n = self.queue.remove(0);
            proof {
                assert(self.queue@.map_values(|x: UpdateNotification| x@) =~= old(
                    self,
                ).queue@.map_values(|x: UpdateNotification| x@).drop_first());
            }
            Some(n)
        }
    }
}

/// Law: on a live watch, a sequence of known writes delivers exactly one
/// notification per write, appended in write order, with the operation,
/// database, table and row identifier of each write; the hook stays
/// registered throughout.
pub proof fn lemma_in_order_delivery(s: BridgeView, events: Seq<WriteEvent>)
    requires
        s.hook_registered,
        s.receiver_alive,
        all_ops_known(events),
    ensures
        spec_run(s, events) == (BridgeView {
            hook_registered: true,
            receiver_alive: true,
            pending: s.pending + spec_notifications_of(events),
        }),
    decreases events.len(),
{
    if events.len() == 0 {
        assert(s.pending + spec_notifications_of(events) =~= s.pending);
        assert(spec_run(s, events) =~= BridgeView {
            hook_registered: true,
            receiver_alive: true,
            pending: s.pending + spec_notifications_of(events),
        });
    } else {
        let s1 = spec_write(s, events[0]);
        lemma_in_order_delivery(s1, events.drop_first());
        assert(s1.pending + spec_notifications_of(events.drop_first()) =~= s.pending
            + spec_notifications_of(events));
    }
}

/// Law: a write carrying an unknown operation code is a non-event — it adds
/// no notification, changes no state, and every later delivery is exactly
/// what it would have been without that write.
pub proof fn lemma_unknown_op_ignored(s: BridgeView, e: WriteEvent, rest: Seq<WriteEvent>)
    requires
        spec_decode_operation(e.op_code) is None,
    ensures
        spec_write(s, e) == s,
        spec_run(s, seq![e] + rest) == spec_run(s, rest),
{
    let events = seq![e] + rest;
    assert(events[0] == e);
    assert(events.drop_first() =~= rest);
}

/// Law: once the receiver is gone, the next known write delivers nothing
/// and unregisters the hook as its side effect.
pub proof fn lemma_receiver_gone_self_disables(s: BridgeView, e: WriteEvent)
    requires
        s.hook_registered,
        !s.receiver_alive,
        spec_decode_operation(e.op_code) is Some,
    ensures
        spec_write(s, e).pending == s.pending,
        !spec_write(s, e).hook_registered,
{
}

/// Law: an unregistered hook is inert — no sequence of writes, whatever it
/// holds, changes the bridge's state or delivers anything.
pub proof fn lemma_unregistered_inert(s: BridgeView, events: Seq<WriteEvent>)
    requires
        !s.hook_registered,
    ensures
        spec_run(s, events) == s,
    decreases events.len(),
{
    if events.len() > 0 {
        lemma_unregistered_inert(s, events.drop_first());
    }
}

/// Law: `disable` stops delivery at once — no further write is needed and
/// none has any effect — and a second `disable` is a no-op.
pub proof fn lemma_disable_stops_delivery(s: BridgeView, events: Seq<WriteEvent>)
    ensures
        spec_disable(spec_disable(s)) == spec_disable(s),
        spec_run(spec_disable(s), events) == spec_disable(s),
{
    lemma_unregistered_inert(spec_disable(s), events);
}

/// Law: a known write with a live consumer delivers exactly one
/// notification, and its row identifier is exactly the one the engine
/// reported — for an update, the row's identifier after the update, per the
/// engine's own contract.
pub proof fn lemma_delivered_row_id(s: BridgeView, e: WriteEvent)
    requires
        s.hook_registered,
        s.receiver_alive,
        spec_decode_operation(e.op_code) is Some,
    ensures
        spec_write(s, e).pending.len() == s.pending.len() + 1,
        spec_write(s, e).pending.last().row_id == e.row_id,
{
}

} // verus!
