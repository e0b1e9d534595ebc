//! The bounded queue that carries topic notifications from the write path to
//! the single consumer that updates the recency list, and that consumer's
//! decisions.

use vstd::prelude::*;

verus! {

/// How many notifications may wait in the queue.
pub const PIPELINE_CAPACITY: usize = 100;

/// A notification was dropped because the queue was full.
#[derive(Debug, Clone, Copy, PartialEq, Eq, Structural)]
pub struct PipelineSaturated {
    pub topic_id: u128,
}

/// A bounded first-in first-out queue of topic identifiers that never blocks
/// the producer: what does not fit is dropped and counted.
pub struct UpdatePipeline {
    queue: Vec<u128>,
    capacity: usize,
    dropped: u64,
}

impl View for UpdatePipeline {
    type V = Seq<u128>;

    /// The waiting notifications, oldest first.
    closed spec fn view(&self) -> Seq<u128> {
        self.queue@
    }
}

impl UpdatePipeline {
    pub closed spec fn cap(&self) -> nat {
        self.capacity as nat
    }

    pub closed spec fn dropped_count(&self) -> nat {
        self.dropped as nat
    }

    pub open spec fn wf(&self) -> bool {
        self@.len() <= self.cap()
    }

    /// An empty queue that holds at most `capacity` notifications.
    pub fn new(capacity: usize) -> (r: UpdatePipeline)
        ensures
            r.wf(),
            r@ == Seq::<u128>::empty(),
            r.cap() == capacity,
            r.dropped_count() == 0,
    {
        UpdatePipeline { queue: Vec::new(), capacity, dropped: 0 }
    }

    /// An empty queue with the standard capacity.
    pub fn with_default_capacity() -> (r: UpdatePipeline)
        ensures
            r.wf(),
            r@ == Seq::<u128>::empty(),
            r.cap() == PIPELINE_CAPACITY,
            r.dropped_count() == 0,
    {
        UpdatePipeline::new(PIPELINE_CAPACITY)
    }

    pub fn capacity(&self) -> (r: usize)
        ensures
            r == self.cap(),
    {
        self.capacity
    }

    /// How many notifications were dropped so far (stays at the largest `u64`
    /// once it gets there).
    pub fn dropped(&self) -> (r: u64)
        ensures
            r == self.dropped_count(),
    {
        self.dropped
    }

    /// How many notifications wait.
    pub fn pending(&self) -> (r: usize)
        ensures
            r == self@.len(),
    {
        self.queue.len()
    }

    /// Enqueues `topic_id` if there is room; otherwise drops it, counts the
    /// drop and reports saturation. Never blocks.
    pub fn notify(&mut self, topic_id: u128) -> (r: Result<(), PipelineSaturated>)
        requires
            old(self).wf(),
        ensures
            final(self).wf(),
            final(self).cap() == old(self).cap(),
            old(self)@.len() < old(self).cap() ==> {
                &&& r is Ok
                &&& final(self)@ == old(self)@.push(topic_id)
                &&& final(self).dropped_count() == old(self).dropped_count()
            },
            old(self)@.len() >= old(self).cap() ==> {
                &&& r == Err::<(), PipelineSaturated>(PipelineSaturated { topic_id })
                &&& final(self)@ == old(self)@
                &&& final(self).dropped_count() == if old(self).dropped_count() < u64::MAX {
                    old(self).dropped_count() + 1
                } else {
                    old(self).dropped_count()
                }
            },
    {
        if self.queue.len() < self.capacity {
            self.queue.push(topic_id);
            Ok(())
        } else {
            if self.dropped < u64::MAX {
                self.dropped = self.dropped + 1;
            }
            Err(PipelineSaturated { topic_id })
        }
    }

    /// Takes the oldest waiting notification, if any.
    pub fn next(&mut self) -> (r: Option<u128>)
        requires
            old(self).wf(),
        ensures
            final(self).wf(),
            final(self).cap() == old(self).cap(),
            final(self).dropped_count() == old(self).dropped_count(),
            old(self)@.len() == 0 ==> r is None && final(self)@ == old(self)@,
            old(self)@.len() > 0 ==> r == Some(old(self)@[0]) && final(self)@ == old(self)@.drop_first(),
    {
        if self.queue.len() == 0 {
            None
        } else {
            Some(self.queue.remove(0))
        }
    }
}

/// Where the single consumer stands.
#[derive(Debug, Clone, Copy, PartialEq, Eq, Structural)]
pub enum ConsumerState {
    /// Waiting for the next notification.
    Idle,
    /// Applying one promotion.
    Promoting(u128),
    /// The queue was closed and drained.
    Finished,
}

/// What happened since the consumer's last decision.
#[derive(Debug, Clone, Copy, PartialEq, Eq, Structural)]
pub enum ConsumerEvent {
    /// The queue handed out a notification.
    Received(u128),
    /// The queue is closed and empty.
    Closed,
    /// The promotion in flight was applied.
    Promoted,
    /// The promotion in flight failed.
    PromotionFailed,
}

/// What the consumer does next.
#[derive(Debug, Clone, Copy, PartialEq, Eq, Structural)]
pub enum ConsumerAction {
    /// Promote this topic in the recency tracker.
    Promote(u128),
    /// Record that the promotion of this topic failed, and let it go.
    Discard(u128),
    /// Wait for the next notification.
    Wait,
    /// Stop consuming.
    Stop,
}

/// The consumer's transition: one promotion in flight at most, failures
/// discarded without retry, termination only once the queue is closed.
pub open spec fn consumer_step(s: ConsumerState, e: ConsumerEvent) -> (ConsumerState, ConsumerAction) {
    match (s, e) {
        (ConsumerState::Idle, ConsumerEvent::Received(t)) => (ConsumerState::Promoting(t), ConsumerAction::Promote(t)),
        (ConsumerState::Idle, ConsumerEvent::Closed) => (ConsumerState::Finished, ConsumerAction::Stop),
        (ConsumerState::Promoting(_), ConsumerEvent::Promoted) => (ConsumerState::Idle, ConsumerAction::Wait),
        (ConsumerState::Promoting(t), ConsumerEvent::PromotionFailed) => (ConsumerState::Idle, ConsumerAction::Discard(t)),
        (ConsumerState::Finished, _) => (ConsumerState::Finished, ConsumerAction::Stop),
        (ConsumerState::Promoting(t), _) => (ConsumerState::Promoting(t), ConsumerAction::Wait),
        (ConsumerState::Idle, _) => (ConsumerState::Idle, ConsumerAction::Wait),
    }
}

impl ConsumerState {
    /// The state the consumer starts in.
    pub fn start() -> (r: ConsumerState)
        ensures
            r == ConsumerState::Idle,
    {
        ConsumerState::Idle
    }

    /// Decides the next state and action after `event`.
    pub fn step(self, event: ConsumerEvent) -> (r: (ConsumerState, ConsumerAction))
        ensures
            r == consumer_step(self, event),
    {
        match (self, event) {
            (ConsumerState::Idle, ConsumerEvent::Received(t)) => (ConsumerState::Promoting(t), ConsumerAction::Promote(t)),
            (ConsumerState::Idle, ConsumerEvent::Closed) => (ConsumerState::Finished, ConsumerAction::Stop),
            (ConsumerState::Promoting(_), ConsumerEvent::Promoted) => (ConsumerState::Idle, ConsumerAction::Wait),
            (ConsumerState::Promoting(t), ConsumerEvent::PromotionFailed) => (ConsumerState::Idle, ConsumerAction::Discard(t)),
            (ConsumerState::Finished, _) => (ConsumerState::Finished, ConsumerAction::Stop),
            (ConsumerState::Promoting(t), _) => (ConsumerState::Promoting(t), ConsumerAction::Wait),
            (ConsumerState::Idle, _) => (ConsumerState::Idle, ConsumerAction::Wait),
        }
    }

    pub fn is_finished(&self) -> (r: bool)
        ensures
            r == (*self == ConsumerState::Finished),
    {
        match self {
            ConsumerState::Finished => true,
            _ => false,
        }
    }
}

} // verus!
