use vstd::prelude::*;
use std::collections::VecDeque;
use crate::other::Other;
use crate::model::{PduType, pdu_type_value};

verus! {

/// A bounded FIFO queue for one edge of the pipeline. When it is full, a new item pushes
/// out the oldest unread one, which is counted as rejected.
pub struct DropOldestQueue<T> {
    items: VecDeque<T>,
    capacity: usize,
    rejected_count: u64,
}

impl<T> DropOldestQueue<T> {
    /// The queued items, oldest first.
    pub closed spec fn contents(&self) -> Seq<T> {
        self.items@
    }

    pub closed spec fn max_len(&self) -> nat {
        self.capacity as nat
    }

    pub closed spec fn rejected(&self) -> nat {
        self.rejected_count as nat
    }

    /// The capacity is positive and never exceeded.
    pub closed spec fn wf(&self) -> bool {
        0 < self.capacity && self.items@.len() <= self.capacity
    }

    pub fn new(capacity: usize) -> (r: DropOldestQueue<T>)
        requires
            capacity > 0,
        ensures
            r.wf(),
            r.contents() == Seq::<T>::empty(),
            r.max_len() == capacity,
            r.rejected() == 0,
    {
        DropOldestQueue { items: VecDeque::new(), capacity, rejected_count: 0 }
    }

    /// Appends `item`; when the queue is full the oldest item is dropped and counted.
    /// The length never exceeds the capacity and the rejected count never decreases.
    pub fn push(&mut self, item: T)
        requires
            old(self).wf(),
        ensures
            final(self).wf(),
            final(self).contents().len() <= final(self).max_len(),
            final(self).max_len() == old(self).max_len(),
            final(self).rejected() >= old(self).rejected(),
            old(self).contents().len() < old(self).max_len() ==> {
                &&& final(self).contents() == old(self).contents().push(item)
                &&& final(self).rejected() == old(self).rejected()
            },
            old(self).contents().len() == old(self).max_len() ==> {
                &&& final(self).contents() == old(self).contents().drop_first().push(item)
                &&& final(self).rejected() == if old(self).rejected() < u64::MAX {
                    old(self).rejected() + 1
                } else {
                    old(self).rejected()
                }
            },
    {
        if self.items.len() == self.capacity {
            let _ = self.items.pop_front();
            self.rejected_count = self.rejected_count.saturating_add(1);
        }
        self.items.push_back(item);
    }

    /// Takes the oldest item, if any.
    pub fn pop(&mut self) -> (r: Option<T>)
        requires
            old(self).wf(),
        ensures
            final(self).wf(),
            final(self).max_len() == old(self).max_len(),
            final(self).rejected() == old(self).rejected(),
            old(self).contents().len() == 0 ==> r is None && final(self).contents() == old(
                self,
            ).contents(),
            old(self).contents().len() > 0 ==> r == Some(old(self).contents()[0])
                && final(self).contents() == old(self).contents().drop_first(),
    {
        self.items.pop_front()
    }

    pub fn len(&self) -> (r: usize)
        ensures
            r == self.contents().len(),
    {
        self.items.len()
    }

    pub fn capacity(&self) -> (r: usize)
        ensures
            r == self.max_len(),
    {
        self.capacity
    }

    pub fn rejected_count(&self) -> (r: u64)
        ensures
            r == self.rejected(),
    {
        self.rejected_count
    }
}

/// Life cycle of a translation task.
#[derive(Clone, Copy, Debug, PartialEq, Eq, Structural)]
pub enum TaskState {
    Idle,
    Running,
    Draining,
    Stopped,
}

/// What a translation task learns from the outside.
#[derive(Clone, Copy, Debug, PartialEq, Eq, Structural)]
pub enum TaskEvent {
    Start,
    Quit,
    ChannelClosed,
    InputEmpty,
}

pub open spec fn next_task_state(state: TaskState, event: TaskEvent) -> TaskState {
    match (state, event) {
        (TaskState::Idle, TaskEvent::Start) => TaskState::Running,
        (TaskState::Idle, TaskEvent::Quit) => TaskState::Draining,
        (TaskState::Idle, TaskEvent::ChannelClosed) => TaskState::Draining,
        (TaskState::Running, TaskEvent::Quit) => TaskState::Draining,
        (TaskState::Running, TaskEvent::ChannelClosed) => TaskState::Draining,
        (TaskState::Draining, TaskEvent::InputEmpty) => TaskState::Stopped,
        _ => state,
    }
}

impl TaskState {
    /// The state after `event`: a start command enters Running, Quit or a closed channel
    /// enters Draining, an empty input queue while Draining enters Stopped.
    pub fn next(self, event: TaskEvent) -> (r: TaskState)
        ensures
            r == next_task_state(self, event),
    {
        match (self, event) {
            (TaskState::Idle, TaskEvent::Start) => TaskState::Running,
            (TaskState::Idle, TaskEvent::Quit) => TaskState::Draining,
            (TaskState::Idle, TaskEvent::ChannelClosed) => TaskState::Draining,
            (TaskState::Running, TaskEvent::Quit) => TaskState::Draining,
            (TaskState::Running, TaskEvent::ChannelClosed) => TaskState::Draining,
            (TaskState::Draining, TaskEvent::InputEmpty) => TaskState::Stopped,
            _ => self,
        }
    }
}

/// Once stopped, a task stays stopped.
pub proof fn lemma_stopped_is_final(event: TaskEvent)
    ensures
        next_task_state(TaskState::Stopped, event) == TaskState::Stopped,
{
}

/// From every state, a Quit followed by an empty input queue stops the task.
pub proof fn lemma_quit_then_drain_stops(state: TaskState)
    ensures
        next_task_state(next_task_state(state, TaskEvent::Quit), TaskEvent::InputEmpty)
            == TaskState::Stopped,
{
}

/// What to do after a task has terminated unexpectedly.
#[derive(Clone, Copy, Debug, PartialEq, Eq, Structural)]
pub enum RestartAction {
    Restart { delay_ms: u64 },
    Shutdown,
}

/// A failed task is restarted up to three times, after 100 ms, 400 ms and 1.6 s; after
/// that the whole gateway shuts down.
pub open spec fn restart_action_for(failures: u32) -> RestartAction {
    if failures == 0 {
        RestartAction::Restart { delay_ms: 100 }
    } else if failures == 1 {
        RestartAction::Restart { delay_ms: 400 }
    } else if failures == 2 {
        RestartAction::Restart { delay_ms: 1600 }
    } else {
        RestartAction::Shutdown
    }
}

/// Decides on a restart, given how many restarts have been made already.
pub fn restart_action(failures: u32) -> (r: RestartAction)
    ensures
        r == restart_action_for(failures),
{
    if failures == 0 {
        RestartAction::Restart { delay_ms: 100 }
    } else if failures == 1 {
        RestartAction::Restart { delay_ms: 400 }
    } else if failures == 2 {
        RestartAction::Restart { delay_ms: 1600 }
    } else {
        RestartAction::Shutdown
    }
}

/// How the encoder treats a PDU of a type that it cannot translate.
#[derive(Clone, Copy, Debug, PartialEq, Eq, Structural)]
pub enum UnknownPduPolicy {
    Passthrough,
    Drop,
}

/// Number of distinct PDU type values.
pub const PDU_TYPE_VALUES: usize = 256;

/// How many entries of `s` are not zero.
pub open spec fn nonzero_count(s: Seq<u64>) -> nat
    decreases s.len(),
{
    if s.len() == 0 {
        0
    } else {
        nonzero_count(s.drop_last()) + if s.last() != 0 {
            1nat
        } else {
            0nat
        }
    }
}

pub proof fn lemma_nonzero_count_bound(s: Seq<u64>)
    ensures
        nonzero_count(s) <= s.len(),
    decreases s.len(),
{
    if s.len() > 0 {
        lemma_nonzero_count_bound(s.drop_last());
    }
}

/// Counters of a translation task: PDUs handled, keyed by the raw value of their type tag,
/// and PDUs rejected.
#[derive(Clone, Debug, PartialEq, Eq)]
pub struct CodecStats {
    pub received_count: Vec<u64>,
    pub encoded_count: u64,
    pub rejected_count: u64,
}

impl CodecStats {
    /// The count for each raw type value.
    pub open spec fn received_counts(&self) -> Seq<u64> {
        self.received_count@
    }

    /// There is one count for every raw type value.
    pub open spec fn wf(&self) -> bool {
        self.received_count@.len() == PDU_TYPE_VALUES
    }

    pub fn new() -> (r: CodecStats)
        ensures
            r.wf(),
            r.received_counts() == Seq::new(PDU_TYPE_VALUES as nat, |i: int| 0u64),
            r.encoded_count == 0,
            r.rejected_count == 0,
    {
        let mut received_count: Vec<u64> = Vec::new();
        let mut i: usize = 0;
        while i < PDU_TYPE_VALUES
            invariant
                i <= PDU_TYPE_VALUES,
                received_count@ == Seq::new(i as nat, |k: int| 0u64),
            decreases PDU_TYPE_VALUES - i,
        {
            received_count.push(0);
            assert(received_count@ =~= Seq::new((i + 1) as nat, |k: int| 0u64));
            i = i + 1;
        }
        CodecStats { received_count, encoded_count: 0, rejected_count: 0 }
    }

    /// Counts one PDU of type `t` handled; the counters saturate.
    pub fn record_encoded(&mut self, t: PduType)
        requires
            old(self).wf(),
        ensures
            final(self).wf(),
            final(self).received_counts() == old(self).received_counts().update(
                pdu_type_value(t) as int,
                if old(self).received_counts()[pdu_type_value(t) as int] < u64::MAX {
                    (old(self).received_counts()[pdu_type_value(t) as int] + 1) as u64
                } else {
                    u64::MAX
                },
            ),
            final(self).encoded_count == if old(self).encoded_count < u64::MAX {
                old(self).encoded_count + 1
            } else {
                old(self).encoded_count as int
            },
            final(self).rejected_count == old(self).rejected_count,
    {
        let i = t.to_u8() as usize;
        let c = self.received_count[i];
        self.received_count.set(i, c.saturating_add(1));
        self.encoded_count = self.encoded_count.saturating_add(1);
    }

    /// The number of PDUs of type `t` handled.
    pub fn received_count(&self, t: PduType) -> (r: u64)
        requires
            self.wf(),
        ensures
            r == self.received_counts()[pdu_type_value(t) as int],
    {
        self.received_count[t.to_u8() as usize]
    }

    /// The number of distinct PDU types handled.
    pub fn pdu_types_seen(&self) -> (r: usize)
        requires
            self.wf(),
        ensures
            r == nonzero_count(self.received_counts()),
    {
        let ghost v = self.received_count@;
        let mut n: usize = 0;
        let mut i: usize = 0;
        while i < self.received_count.len()
            invariant
                i <= v.len(),
                v == self.received_count@,
                n == nonzero_count(v.take(i as int)),
            decreases v.len() - i,
        {
            proof {
                assert(v.take(i + 1).drop_last() =~= v.take(i as int));
                lemma_nonzero_count_bound(v.take(i as int));
            }
            if self.received_count[i] != 0 {
                n = n + 1;
            }
            i = i + 1;
        }
        assert(v.take(v.len() as int) =~= v);
        n
    }
}

/// Forwards an unsupported PDU unchanged under `Passthrough`; under `Drop` emits nothing
/// and counts a rejection.
pub fn handle_unknown_pdu(policy: UnknownPduPolicy, pdu: Other, stats: &mut CodecStats) -> (r:
    Option<Other>)
    ensures
        policy == UnknownPduPolicy::Passthrough ==> r == Some(pdu) && *final(stats) == *old(stats),
        policy == UnknownPduPolicy::Drop ==> r is None && final(stats).encoded_count == old(
            stats,
        ).encoded_count && final(stats).rejected_count == if old(stats).rejected_count < u64::MAX {
            old(stats).rejected_count + 1
        } else {
            old(stats).rejected_count as int
        },
{
    match policy {
        UnknownPduPolicy::Passthrough => Some(pdu),
        UnknownPduPolicy::Drop => {
            stats.rejected_count = stats.rejected_count.saturating_add(1);
            None
        },
    }
}

/// Counters of one UDP socket.
#[derive(Clone, Copy, Debug, PartialEq, Eq, Structural)]
pub struct SocketStats {
    pub packets_received: u64,
    pub bytes_received: u64,
}

impl SocketStats {
    /// Counts one received datagram of `bytes` octets; the counters saturate.
    pub fn received_packet(&mut self, bytes: u64)
        ensures
            final(self).packets_received == if old(self).packets_received < u64::MAX {
                old(self).packets_received + 1
            } else {
                old(self).packets_received as int
            },
            final(self).bytes_received == if old(self).bytes_received + bytes <= u64::MAX {
                old(self).bytes_received + bytes
            } else {
                u64::MAX as int
            },
    {
        self.packets_received = self.packets_received.saturating_add(1);
        self.bytes_received = self.bytes_received.saturating_add(bytes);
    }
}

/// A statistics event, one kind per stage of the pipeline.
#[derive(Clone, Debug, PartialEq, Eq)]
pub enum SseStat {
    DisSocket(SocketStats),
    CdisSocket(SocketStats),
    Encoder(CodecStats),
    Decoder(CodecStats),
}

impl SseStat {
    /// The name of the server-sent event that carries this statistic.
    pub fn event_name(&self) -> (r: &'static str)
        ensures
            r@ == match *self {
                SseStat::DisSocket(_) => "dis_socket"@,
                SseStat::CdisSocket(_) => "cdis_socket"@,
                SseStat::Encoder(_) => "encoder"@,
                SseStat::Decoder(_) => "decoder"@,
            },
    {
        proof {
            reveal_strlit("dis_socket");
            reveal_strlit("cdis_socket");
            reveal_strlit("encoder");
            reveal_strlit("decoder");
        }
        match self {
            SseStat::DisSocket(_) => "dis_socket",
            SseStat::CdisSocket(_) => "cdis_socket",
            SseStat::Encoder(_) => "encoder",
            SseStat::Decoder(_) => "decoder",
        }
    }
}

} // verus!
