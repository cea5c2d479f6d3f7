//! Virtual input sessions ("contexts").
//!
//! A session owns a bounded event queue, a strictly increasing serial
//! counter, a logical context configuration and a notification target.  Event
//! admission evicts the oldest events once the queue is full; retrieval comes
//! in three flavors: destructive FIFO (drain), non-destructive FIFO (peek)
//! and destructive lookup by serial (fetch).

use vstd::prelude::*;

use crate::codec::{spec_encode, Orientation, Packet};
use crate::descriptors::{
    default_logical_context, logical_context_wf, WtiLogicalContext, WtiLogicalContextV,
    CXS_DISABLED,
};
use crate::notify::{message_offset, Notification, WindowMessage};

verus! {

/// Why an engine operation did not happen.
#[derive(Clone, Copy, Debug, PartialEq, Eq, Structural)]
pub enum PsmError {
    /// The addressed session is unknown.
    LookupFailure,
    /// The session exists but event delivery is disabled.
    SessionDisabled,
    /// The session has no valid notification target.
    NoTarget,
}

/// One virtual input session.
#[derive(Debug)]
pub struct Context {
    /// Process-unique identifier, assigned at creation, never reused.
    pub handle: usize,
    /// Event delivery and notifications are suppressed when false.
    pub enabled: bool,
    /// Addressee of asynchronous notifications; zero when not set.
    pub target: usize,
    /// The session's configuration.
    pub logical_context: WtiLogicalContext,
    /// Queued events, oldest first.
    pub packets: Vec<Packet>,
    /// Upper bound on the queue length; a value below one acts as one.
    pub queue_size: usize,
    /// Serial counter; the last assigned serial number.
    pub serial: u32,
    /// The clock reading at session creation, in milliseconds; event
    /// timestamps are measured from it.
    pub created_ms: u32,
}

/// Mathematical value of a session.
pub struct ContextV {
    /// Session identifier.
    pub handle: usize,
    /// Whether event delivery is enabled.
    pub enabled: bool,
    /// Notification addressee; zero when not set.
    pub target: usize,
    /// Session configuration.
    pub logical_context: WtiLogicalContextV,
    /// Queued events, oldest first.
    pub packets: Seq<Packet>,
    /// Configured queue capacity.
    pub queue_size: usize,
    /// Last assigned serial number.
    pub serial: u32,
    /// The clock reading at session creation.
    pub created_ms: u32,
}

impl View for Context {
    type V = ContextV;

    open spec fn view(&self) -> ContextV {
        ContextV {
            handle: self.handle,
            enabled: self.enabled,
            target: self.target,
            logical_context: self.logical_context@,
            packets: self.packets@,
            queue_size: self.queue_size,
            serial: self.serial,
            created_ms: self.created_ms,
        }
    }
}

/// A session is well formed when its configuration is, the queued serials are
/// strictly increasing, and no queued serial exceeds the session counter.
pub open spec fn context_wf(v: ContextV) -> bool {
    &&& logical_context_wf(v.logical_context)
    &&& v.queue_size <= u32::MAX
    &&& forall|i: int, j: int|
        0 <= i < j < v.packets.len() ==> v.packets[i].serial < v.packets[j].serial
    &&& forall|i: int| 0 <= i < v.packets.len() ==> #[trigger] v.packets[i].serial <= v.serial
}

/// The capacity the queue actually honors: the configured size, but never
/// less than one.
pub open spec fn effective_capacity(v: ContextV) -> nat {
    if v.queue_size >= 1 {
        v.queue_size as nat
    } else {
        1nat
    }
}

/// Milliseconds elapsed since the session was created, by the given clock
/// reading; a clock that moved backwards reads as no time passed.
pub open spec fn elapsed_ms(v: ContextV, now_ms: u32) -> u32 {
    if now_ms >= v.created_ms {
        (now_ms - v.created_ms) as u32
    } else {
        0
    }
}

/// The event as it enters the queue: stamped with the session handle, the
/// next serial, the elapsed time, and the fixed altitude normalization.
pub open spec fn stamped_packet(v: ContextV, p: Packet, now_ms: u32) -> Packet {
    Packet {
        context: v.handle as u32,
        serial: (v.serial + 1) as u32,
        time: elapsed_ms(v, now_ms),
        orientation: Orientation { altitude: 900, ..p.orientation },
        ..p
    }
}

/// How many of the oldest events admission evicts to fit one more.
pub open spec fn drop_count(v: ContextV) -> nat {
    if v.packets.len() + 1 > effective_capacity(v) {
        (v.packets.len() + 1 - effective_capacity(v)) as nat
    } else {
        0nat
    }
}

/// Which error, if any, stops event admission on this session.
pub open spec fn send_packet_err(v: ContextV) -> Option<PsmError> {
    if !v.enabled {
        Some(PsmError::SessionDisabled)
    } else if v.target == 0 {
        Some(PsmError::NoTarget)
    } else {
        None
    }
}

/// The session after successful admission of `p`: the counter advanced, the
/// stamped event appended, and the oldest events beyond capacity evicted.
pub open spec fn send_packet_result(v: ContextV, p: Packet, now_ms: u32) -> ContextV {
    ContextV {
        serial: (v.serial + 1) as u32,
        packets: (v.packets + seq![stamped_packet(v, p, now_ms)]).skip(drop_count(v) as int),
        ..v
    }
}

/// The packet-available message produced by successful admission, carrying
/// the new serial and the session handle.
pub open spec fn packet_notification(v: ContextV) -> Notification {
    Notification {
        target: v.target,
        message: (v.logical_context.msg_base + message_offset(WindowMessage::Packet)) as u32,
        wparam: ((v.serial + 1) as u32) as usize,
        lparam: v.handle as isize,
    }
}

/// The proximity message of a session: the session handle and whether the
/// stylus entered or left.
pub open spec fn proximity_notification(v: ContextV, value: bool) -> Notification {
    Notification {
        target: v.target,
        message: (v.logical_context.msg_base + message_offset(WindowMessage::Proximity)) as u32,
        wparam: v.handle,
        lparam: if value {
            0x00010001
        } else {
            0
        },
    }
}

/// The context-updated message of a session: the session handle and its
/// disabled status word.
pub open spec fn context_update_notification(v: ContextV) -> Notification {
    Notification {
        target: v.target,
        message: (v.logical_context.msg_base + message_offset(WindowMessage::CtxUpdate)) as u32,
        wparam: v.handle,
        lparam: if v.enabled {
            CXS_DISABLED as isize
        } else {
            0
        },
    }
}

/// The information-changed message of a session: the device category word.
pub open spec fn info_change_notification(v: ContextV) -> Notification {
    Notification {
        target: v.target,
        message: (v.logical_context.msg_base + message_offset(WindowMessage::InfoChange)) as u32,
        wparam: 0,
        lparam: 0x10004,
    }
}

/// How many events a retrieval request for `max` events yields.
pub open spec fn take_count(v: ContextV, max: usize) -> nat {
    if max as nat <= v.packets.len() {
        max as nat
    } else {
        v.packets.len()
    }
}

/// What peeking `max` events returns: the oldest events in order, each
/// encoded under the session's selected-field mask, the queue untouched.
pub open spec fn peek_result(v: ContextV, max: usize) -> Seq<Seq<u8>> {
    Seq::new(take_count(v, max), |i: int| spec_encode(v.packets[i], v.logical_context.packet_data))
}

/// Index of the first queued event whose serial is at least `serial`; all
/// events before it are discarded by a fetch.
pub open spec fn first_at_least(s: Seq<Packet>, serial: u32) -> nat
    decreases s.len(),
{
    if s.len() == 0 {
        0nat
    } else if s.first().serial < serial {
        1 + first_at_least(s.drop_first(), serial)
    } else {
        0nat
    }
}

/// The queue after a fetch discarded every event older than `serial`.
pub open spec fn discard_below(s: Seq<Packet>, serial: u32) -> Seq<Packet> {
    s.skip(first_at_least(s, serial) as int)
}

/// Whether a fetch for `serial` finds its event: after the discard the queue
/// starts with the requested serial.
pub open spec fn fetch_found(s: Seq<Packet>, serial: u32) -> bool {
    discard_below(s, serial).len() > 0 && discard_below(s, serial)[0].serial == serial
}

/// The discard never skips past the end of the queue.
pub proof fn lemma_first_at_least_le_len(s: Seq<Packet>, serial: u32)
    ensures
        first_at_least(s, serial) <= s.len(),
    decreases s.len(),
{
    if s.len() > 0 && s.first().serial < serial {
        lemma_first_at_least_le_len(s.drop_first(), serial);
    }
}

/// The session after a whole run of successful admissions, each given as
/// the event and the clock reading of one call, in call order.
pub open spec fn enqueue_run(v: ContextV, inputs: Seq<(Packet, u32)>) -> ContextV
    decreases inputs.len(),
{
    if inputs.len() == 0 {
        v
    } else {
        enqueue_run(
            send_packet_result(v, inputs.first().0, inputs.first().1),
            inputs.drop_first(),
        )
    }
}

/// Law: over any sequence of admissions on one session the observed serials
/// are exactly consecutive — the event of call `k` carries the serial the
/// session started with plus `k` plus one, so the serials are strictly
/// increasing with no gaps and no repeats, and admission never disables the
/// session or loses its target.
pub proof fn lemma_enqueue_serials(v: ContextV, inputs: Seq<(Packet, u32)>)
    requires
        send_packet_err(v) is None,
        v.serial + inputs.len() <= u32::MAX,
    ensures
        enqueue_run(v, inputs).serial == v.serial + inputs.len(),
        send_packet_err(enqueue_run(v, inputs)) is None,
        forall|k: int|
            0 <= k < inputs.len() ==> #[trigger] stamped_packet(
                enqueue_run(v, inputs.take(k)),
                inputs[k].0,
                inputs[k].1,
            ).serial == v.serial + k + 1,
    decreases inputs.len(),
{
    if inputs.len() > 0 {
        let v1 = send_packet_result(v, inputs.first().0, inputs.first().1);
        let rest = inputs.drop_first();
        lemma_enqueue_serials(v1, rest);
        assert forall|k: int|
            0 <= k < inputs.len() implies #[trigger] stamped_packet(
            enqueue_run(v, inputs.take(k)),
            inputs[k].0,
            inputs[k].1,
        ).serial == v.serial + k + 1 by {
            if k == 0 {
                assert(inputs.take(0) =~= Seq::<(Packet, u32)>::empty());
            } else {
                let t = inputs.take(k);
                assert(t.first() == inputs.first());
                assert(t.drop_first() =~= rest.take(k - 1));
                assert(enqueue_run(v, t) == enqueue_run(v1, rest.take(k - 1)));
                assert(rest[k - 1] == inputs[k]);
                assert(stamped_packet(enqueue_run(v1, rest.take(k - 1)), rest[k - 1].0, rest[k
                    - 1].1).serial == v1.serial + k);
            }
        }
    }
}

/// Law: a drain never returns an event that a later drain returns again —
/// what the first drain removed is gone, and the queued serials are strictly
/// increasing, so the two batches share no serial.
pub proof fn lemma_drain_drain_disjoint(v: ContextV, m1: usize, m2: usize)
    requires
        context_wf(v),
    ensures
        ({
            let k1 = take_count(v, m1) as int;
            let rest = v.packets.skip(k1);
            forall|a: int, b: int|
                0 <= a < k1 && 0 <= b < rest.len() ==> #[trigger] v.packets[a].serial
                    != #[trigger] rest[b].serial
        }),
{
    let k1 = take_count(v, m1) as int;
    let rest = v.packets.skip(k1);
    assert forall|a: int, b: int|
        0 <= a < k1 && 0 <= b < rest.len() implies #[trigger] v.packets[a].serial
        != #[trigger] rest[b].serial by {
        assert(rest[b] == v.packets[b + k1]);
        assert(v.packets[a].serial < v.packets[b + k1].serial);
    }
}

/// Law: a peek leaves the queue untouched, so peeking twice in a row from
/// the same state observes the same events in the same order.
pub proof fn lemma_peek_peek_same(v1: ContextV, v2: ContextV, max: usize)
    requires
        v2 == v1,
    ensures
        peek_result(v1, max) == peek_result(v2, max),
{
}

/// Law: after any admission the queue holds at most the effective capacity,
/// the newest event sits at the back, and the events that survive are
/// exactly the youngest ones — the oldest were evicted.
pub proof fn lemma_enqueue_capacity(v: ContextV, p: Packet, now_ms: u32)
    requires
        context_wf(v),
        v.serial < u32::MAX,
    ensures
        send_packet_result(v, p, now_ms).packets.len() <= effective_capacity(v),
        send_packet_result(v, p, now_ms).packets.len() == (if v.packets.len() + 1
            <= effective_capacity(v) {
            v.packets.len() + 1
        } else {
            effective_capacity(v)
        }),
        send_packet_result(v, p, now_ms).packets.last() == stamped_packet(v, p, now_ms),
        forall|i: int|
            0 <= i < send_packet_result(v, p, now_ms).packets.len()
                ==> #[trigger] send_packet_result(v, p, now_ms).packets[i] == (v.packets + seq![
                stamped_packet(v, p, now_ms),
            ])[i + drop_count(v)],
{
    let all = v.packets + seq![stamped_packet(v, p, now_ms)];
    let res = send_packet_result(v, p, now_ms).packets;
    assert(res == all.skip(drop_count(v) as int));
    assert(res.last() == all[all.len() - 1]);
}

/// The queue holds a consecutive block of serials ending at the session
/// counter: position `i` carries the counter minus the queue length plus
/// `i` plus one.  This holds of a fresh session and every admission keeps
/// it, so it names exactly the queues reachable by admissions alone.
pub open spec fn consecutive_serials(v: ContextV) -> bool {
    forall|i: int|
        0 <= i < v.packets.len() ==> #[trigger] v.packets[i].serial == v.serial
            - v.packets.len() + i + 1
}

/// One admission on a consecutive queue within capacity: the block stays
/// consecutive, ends at the advanced counter, and grows by one until the
/// capacity caps it.
pub proof fn lemma_send_packet_result_consecutive(v: ContextV, p: Packet, now_ms: u32)
    requires
        consecutive_serials(v),
        v.serial < u32::MAX,
        v.packets.len() <= effective_capacity(v),
    ensures
        consecutive_serials(send_packet_result(v, p, now_ms)),
        send_packet_result(v, p, now_ms).serial == v.serial + 1,
        send_packet_result(v, p, now_ms).queue_size == v.queue_size,
        send_packet_err(send_packet_result(v, p, now_ms)) == send_packet_err(v),
        send_packet_result(v, p, now_ms).packets.len() == (if v.packets.len() + 1
            <= effective_capacity(v) {
            v.packets.len() + 1
        } else {
            effective_capacity(v)
        }),
{
    let all = v.packets + seq![stamped_packet(v, p, now_ms)];
    let r = send_packet_result(v, p, now_ms);
    let d = drop_count(v) as int;
    assert(r.packets == all.skip(d));
    assert forall|i: int| 0 <= i < r.packets.len() implies #[trigger] r.packets[i].serial
        == r.serial - r.packets.len() + i + 1 by {
        assert(r.packets[i] == all[i + d]);
        if i + d < v.packets.len() {
            assert(all[i + d] == v.packets[i + d]);
        } else {
            assert(all[i + d] == stamped_packet(v, p, now_ms));
        }
    }
}

/// Law: after any run of admissions the queue never exceeds the effective
/// capacity, and the events that survive are exactly the youngest — the
/// queue is the consecutive block of the last serials, capped at the
/// capacity, so the oldest excess events are the ones that were evicted.
pub proof fn lemma_enqueue_run_capacity(v: ContextV, inputs: Seq<(Packet, u32)>)
    requires
        consecutive_serials(v),
        v.serial + inputs.len() <= u32::MAX,
        v.packets.len() <= effective_capacity(v),
    ensures
        consecutive_serials(enqueue_run(v, inputs)),
        enqueue_run(v, inputs).serial == v.serial + inputs.len(),
        enqueue_run(v, inputs).queue_size == v.queue_size,
        enqueue_run(v, inputs).packets.len() == (if v.packets.len() + inputs.len()
            <= effective_capacity(v) {
            v.packets.len() + inputs.len()
        } else {
            effective_capacity(v)
        }),
        enqueue_run(v, inputs).packets.len() <= effective_capacity(v),
    decreases inputs.len(),
{
    if inputs.len() > 0 {
        lemma_send_packet_result_consecutive(v, inputs.first().0, inputs.first().1);
        lemma_enqueue_run_capacity(
            send_packet_result(v, inputs.first().0, inputs.first().1),
            inputs.drop_first(),
        );
    }
}

/// Law: fetching serial `s` from a queue holding exactly the serials
/// `s - 2, s - 1, s, s + 1` discards the two older events, finds the event
/// for `s`, and leaves only the event for `s + 1` behind.
pub proof fn lemma_fetch_by_serial(v: ContextV, s: u32, e1: Packet, e2: Packet, e3: Packet, e4: Packet)
    requires
        context_wf(v),
        v.packets == seq![e1, e2, e3, e4],
        2 <= s < u32::MAX,
        e1.serial == s - 2,
        e2.serial == s - 1,
        e3.serial == s,
        e4.serial == s + 1,
    ensures
        fetch_found(v.packets, s),
        discard_below(v.packets, s) == seq![e3, e4],
        discard_below(v.packets, s)[0] == e3,
        discard_below(v.packets, s).skip(1) == seq![e4],
{
    let q = v.packets;
    let q1 = seq![e2, e3, e4];
    let q2 = seq![e3, e4];
    assert(q.first() == e1);
    assert(q.drop_first() =~= q1);
    assert(q1.drop_first() =~= q2);
    assert(first_at_least(q2, s) == 0);
    assert(first_at_least(q1, s) == 1);
    assert(first_at_least(q, s) == 2);
    assert(discard_below(q, s) =~= q2);
    assert(discard_below(q, s).skip(1) =~= seq![e4]);
}

impl Context {
    /// A fresh session: stock configuration, no target, an empty queue, the
    /// default queue capacity, the serial counter at zero, and the creation
    /// clock at the given reading.
    pub fn new(handle: usize, enabled: bool, created_ms: u32) -> (r: Context)
        ensures
            r@ == (ContextV {
                handle,
                enabled,
                target: 0,
                logical_context: default_logical_context(),
                packets: Seq::<Packet>::empty(),
                queue_size: 1024,
                serial: 0,
                created_ms,
            }),
            context_wf(r@),
    {
        let r = Context {
            handle,
            enabled,
            target: 0,
            logical_context: WtiLogicalContext::psm_default(),
            packets: Vec::new(),
            queue_size: 1024,
            serial: 0,
            created_ms,
        };
        r
    }

    /// Admits one event: refuses when the session is disabled or has no
    /// target; otherwise stamps the event with the next serial and the
    /// elapsed time, evicts the oldest events down to capacity, appends it,
    /// and yields the packet-available notification.
    #[verifier::loop_isolation(false)]
    pub fn send_packet(&mut self, packet: Packet, now_ms: u32) -> (r: Result<
        Notification,
        PsmError,
    >)
        requires
            context_wf(old(self)@),
            send_packet_err(old(self)@) is None ==> old(self)@.serial < u32::MAX,
        ensures
            context_wf(final(self)@),
            send_packet_err(old(self)@) matches Some(e) ==> final(self)@ == old(self)@ && r
                == Err::<Notification, PsmError>(e),
            send_packet_err(old(self)@) is None ==> final(self)@ == send_packet_result(
                old(self)@,
                packet,
                now_ms,
            ) && r == Ok::<Notification, PsmError>(packet_notification(old(self)@)),
    {
        if !self.enabled {
            return Err(PsmError::SessionDisabled);
        }
        if self.target == 0 {
            return Err(PsmError::NoTarget);
        }
        self.serial = self.serial + 1;
        let mut p = packet;
        p.context = #[verifier::truncate] (self.handle as u32);
        p.serial = self.serial;
        p.orientation.altitude = 900;
        p.time = if now_ms >= self.created_ms {
            now_ms - self.created_ms
        } else {
            0
        };
        proof {
            assert(p == stamped_packet(old(self)@, packet, now_ms));
        }
        let cap: usize = if self.queue_size >= 1 {
            self.queue_size
        } else {
            1
        };
        let drop: usize = if self.packets.len() >= cap {
            self.packets.len() - cap + 1
        } else {
            0
        };
        proof {
            assert(drop == drop_count(old(self)@));
            assert(drop <= self.packets@.len());
        }
        let ghost q0 = self.packets@;
        let ghost mid = ContextV { serial: self.serial, ..old(self)@ };
        proof {
            assert(q0.skip(0) =~= q0);
            assert(self@ == (ContextV { packets: q0.skip(0), ..mid }));
        }
        let mut i: usize = 0;
        while i < drop
            invariant
                i <= drop,
                self@ == (ContextV { packets: q0.skip(i as int), ..mid }),
            decreases drop - i,
        {
            self.packets.remove(0);
            proof {
                assert(q0.skip(i as int).drop_first() =~= q0.skip(i + 1));
            }
            i = i + 1;
        }
        self.packets.push(p);
        proof {
            assert(self.packets@ =~= (q0 + seq![p]).skip(drop as int));
            let res = self.packets@;
            let all = q0 + seq![p];
            assert forall|a: int, b: int| 0 <= a < b < res.len() implies res[a].serial
                < res[b].serial by {
                assert(res[a] == all[a + drop]);
                assert(res[b] == all[b + drop]);
                if b + drop < q0.len() {
                    assert(all[a + drop] == q0[a + drop]);
                    assert(all[b + drop] == q0[b + drop]);
                } else {
                    assert(all[b + drop] == p);
                    assert(all[a + drop] == q0[a + drop]);
                    assert(q0[a + drop].serial <= old(self)@.serial);
                }
            }
            assert forall|a: int| 0 <= a < res.len() implies #[trigger] res[a].serial
                <= self.serial by {
                assert(res[a] == all[a + drop]);
                if a + drop < q0.len() {
                    assert(all[a + drop] == q0[a + drop]);
                    assert(q0[a + drop].serial <= old(self)@.serial);
                } else {
                    assert(all[a + drop] == p);
                }
            }
        }
        let note = Notification {
            target: self.target,
            message: WindowMessage::Packet.value(self.logical_context.msg_base),
            wparam: self.serial as usize,
            lparam: #[verifier::truncate] (self.handle as isize),
        };
        Ok(note)
    }

    /// Destructively removes up to `max` oldest events, each encoded under
    /// the session's selected-field mask, oldest first.
    #[verifier::loop_isolation(false)]
    pub fn drain(&mut self, max: usize) -> (r: Vec<Vec<u8>>)
        requires
            context_wf(old(self)@),
        ensures
            context_wf(final(self)@),
            r@.len() == take_count(old(self)@, max),
            forall|i: int|
                0 <= i < r@.len() ==> #[trigger] r@[i]@ == spec_encode(
                    old(self)@.packets[i],
                    old(self)@.logical_context.packet_data,
                ),
            final(self)@ == (ContextV {
                packets: old(self)@.packets.skip(take_count(old(self)@, max) as int),
                ..old(self)@
            }),
    {
        let ghost q0 = self.packets@;
        proof {
            assert(q0.skip(0) =~= q0);
            assert(self@ == (ContextV { packets: q0.skip(0), ..old(self)@ }));
        }
        let mut r: Vec<Vec<u8>> = Vec::new();
        let mut i: usize = 0;
        while i < max && self.packets.len() > 0
            invariant
                i as nat == r@.len(),
                i as nat <= take_count(old(self)@, max),
                self@ == (ContextV { packets: q0.skip(i as int), ..old(self)@ }),
                forall|k: int|
                    0 <= k < i ==> #[trigger] r@[k]@ == spec_encode(
                        q0[k],
                        old(self)@.logical_context.packet_data,
                    ),
            decreases max - i,
        {
            let p = self.packets.remove(0);
            proof {
                assert(p == q0[i as int]);
                assert(q0.skip(i as int).drop_first() =~= q0.skip(i + 1));
            }
            let encoded = p.encode(self.logical_context.packet_data);
            r.push(encoded);
            i = i + 1;
        }
        proof {
            assert(i as nat == take_count(old(self)@, max));
            assert forall|a: int, b: int|
                0 <= a < b < self.packets@.len() implies self.packets@[a].serial
                < self.packets@[b].serial by {
                assert(self.packets@[a] == q0[a + i]);
                assert(self.packets@[b] == q0[b + i]);
            }
            assert forall|a: int| 0 <= a < self.packets@.len() implies #[trigger] self.packets@[
                a
            ].serial <= self.serial by {
                assert(self.packets@[a] == q0[a + i]);
            }
        }
        r
    }

    /// Returns up to `max` oldest events, each encoded under the session's
    /// selected-field mask, oldest first, without removing anything.
    #[verifier::loop_isolation(false)]
    pub fn peek(&self, max: usize) -> (r: Vec<Vec<u8>>)
        requires
            context_wf(self@),
        ensures
            r@.len() == peek_result(self@, max).len(),
            forall|i: int|
                0 <= i < r@.len() ==> #[trigger] r@[i]@ == peek_result(self@, max)[i],
    {
        let mut r: Vec<Vec<u8>> = Vec::new();
        let mut i: usize = 0;
        while i < max && i < self.packets.len()
            invariant
                i as nat == r@.len(),
                i as nat <= take_count(self@, max),
                forall|k: int|
                    0 <= k < i ==> #[trigger] r@[k]@ == spec_encode(
                        self@.packets[k],
                        self@.logical_context.packet_data,
                    ),
            decreases max - i,
        {
            let encoded = self.packets[i].encode(self.logical_context.packet_data);
            r.push(encoded);
            i = i + 1;
        }
        proof {
            assert(r@.len() == take_count(self@, max));
        }
        r
    }

    /// Empties the queue without reporting any event.
    pub fn flush(&mut self)
        ensures
            final(self)@ == (ContextV { packets: Seq::<Packet>::empty(), ..old(self)@ }),
            context_wf(old(self)@) ==> context_wf(final(self)@),
    {
        self.packets.clear();
    }

    /// Destructively looks one event up by serial: discards every older
    /// event, and on an exact match encodes it, removes it too, and returns
    /// the encoding; without a match the queue keeps only the younger events.
    #[verifier::loop_isolation(false)]
    pub fn fetch(&mut self, serial: u32) -> (r: Option<Vec<u8>>)
        requires
            context_wf(old(self)@),
        ensures
            context_wf(final(self)@),
            fetch_found(old(self)@.packets, serial) ==> (r matches Some(b) && b@ == spec_encode(
                discard_below(old(self)@.packets, serial)[0],
                old(self)@.logical_context.packet_data,
            ) && final(self)@ == (ContextV {
                packets: discard_below(old(self)@.packets, serial).skip(1),
                ..old(self)@
            })),
            !fetch_found(old(self)@.packets, serial) ==> r is None && final(self)@ == (ContextV {
                packets: discard_below(old(self)@.packets, serial),
                ..old(self)@
            }),
    {
        let ghost q0 = self.packets@;
        let n0: usize = self.packets.len();
        proof {
            lemma_first_at_least_le_len(q0, serial);
            assert(q0.len() == n0);
            assert(q0.skip(0) =~= q0);
            assert(self@ == (ContextV { packets: q0.skip(0), ..old(self)@ }));
        }
        let ghost fa = first_at_least(q0, serial);
        let mut i: usize = 0;
        while self.packets.len() > 0 && self.packets[0].serial < serial
            invariant
                i as nat <= fa,
                self@ == (ContextV { packets: q0.skip(i as int), ..old(self)@ }),
                fa == i + first_at_least(self.packets@, serial),
            decreases self.packets@.len(),
        {
            proof {
                let rest = self.packets@.drop_first();
                assert(first_at_least(self.packets@, serial) == 1 + first_at_least(rest, serial));
                assert((i as nat) < fa && fa <= n0);
            }
            self.packets.remove(0);
            proof {
                assert(q0.skip(i as int).drop_first() =~= q0.skip(i + 1));
            }
            i = i + 1;
        }
        proof {
            assert(first_at_least(self.packets@, serial) == 0);
            assert(i as nat == fa);
            assert(self.packets@ == discard_below(q0, serial));
        }
        let found = self.packets.len() > 0 && self.packets[0].serial == serial;
        proof {
            assert(found == fetch_found(q0, serial));
        }
        if found {
            let p = self.packets.remove(0);
            proof {
                assert(p == discard_below(q0, serial)[0]);
                assert(self.packets@ =~= discard_below(q0, serial).skip(1));
            }
            let encoded = p.encode(self.logical_context.packet_data);
            proof {
                let res = self.packets@;
                assert forall|a: int, b: int| 0 <= a < b < res.len() implies res[a].serial
                    < res[b].serial by {
                    assert(res[a] == q0[a + fa + 1]);
                    assert(res[b] == q0[b + fa + 1]);
                }
                assert forall|a: int| 0 <= a < res.len() implies #[trigger] res[a].serial
                    <= self.serial by {
                    assert(res[a] == q0[a + fa + 1]);
                }
            }
            Some(encoded)
        } else {
            proof {
                let res = self.packets@;
                assert forall|a: int, b: int| 0 <= a < b < res.len() implies res[a].serial
                    < res[b].serial by {
                    assert(res[a] == q0[a + fa]);
                    assert(res[b] == q0[b + fa]);
                }
                assert forall|a: int| 0 <= a < res.len() implies #[trigger] res[a].serial
                    <= self.serial by {
                    assert(res[a] == q0[a + fa]);
                }
            }
            None
        }
    }

    /// The proximity message for this session: refused when the session is
    /// disabled or has no target; the payload encodes entering or leaving.
    pub fn proximity(&self, value: bool) -> (r: Result<Notification, PsmError>)
        requires
            context_wf(self@),
        ensures
            !self@.enabled ==> r == Err::<Notification, PsmError>(PsmError::SessionDisabled),
            self@.enabled && self@.target == 0 ==> r == Err::<Notification, PsmError>(
                PsmError::NoTarget,
            ),
            self@.enabled && self@.target != 0 ==> r == Ok::<Notification, PsmError>(
                proximity_notification(self@, value),
            ),
    {
        if !self.enabled {
            return Err(PsmError::SessionDisabled);
        }
        if self.target == 0 {
            return Err(PsmError::NoTarget);
        }
        Ok(
            Notification {
                target: self.target,
                message: WindowMessage::Proximity.value(self.logical_context.msg_base),
                wparam: self.handle,
                lparam: if value {
                    0x00010001
                } else {
                    0
                },
            },
        )
    }

    /// The context-updated message for this session: refused without a
    /// target; the payload names the session and its disabled status.
    pub fn context_update(&self) -> (r: Result<Notification, PsmError>)
        requires
            context_wf(self@),
        ensures
            self@.target == 0 ==> r == Err::<Notification, PsmError>(PsmError::NoTarget),
            self@.target != 0 ==> r == Ok::<Notification, PsmError>(
                context_update_notification(self@),
            ),
    {
        if self.target == 0 {
            return Err(PsmError::NoTarget);
        }
        Ok(
            Notification {
                target: self.target,
                message: WindowMessage::CtxUpdate.value(self.logical_context.msg_base),
                wparam: self.handle,
                lparam: if self.enabled {
                    CXS_DISABLED as isize
                } else {
                    0
                },
            },
        )
    }

    /// The information-changed message for this session: refused without a
    /// target; the payload names the device category that changed.
    pub fn info_update(&self) -> (r: Result<Notification, PsmError>)
        requires
            context_wf(self@),
        ensures
            self@.target == 0 ==> r == Err::<Notification, PsmError>(PsmError::NoTarget),
            self@.target != 0 ==> r == Ok::<Notification, PsmError>(
                info_change_notification(self@),
            ),
    {
        if self.target == 0 {
            return Err(PsmError::NoTarget);
        }
        Ok(
            Notification {
                target: self.target,
                message: WindowMessage::InfoChange.value(self.logical_context.msg_base),
                wparam: 0,
                lparam: 0x10004,
            },
        )
    }
}

} // verus!
