//! Task-change events and the hub that fans them out to connected sessions.
//!
//! The hub is a bounded broadcast channel: publishing never waits, every
//! subscriber gets its own copy of each event published after it subscribed,
//! and a subscriber that falls behind loses the oldest events it has not read.
use vstd::prelude::*;

use crate::ids::Oid;
use crate::task_model::{Task, TaskStatus};

verus! {

#[verifier::external_type_specification]
#[verifier::external_body]
#[verifier::reject_recursive_types(T)]
pub struct ExBroadcastSender<T>(tokio::sync::broadcast::Sender<T>);

#[verifier::external_type_specification]
#[verifier::external_body]
#[verifier::reject_recursive_types(T)]
pub struct ExBroadcastReceiver<T>(tokio::sync::broadcast::Receiver<T>);

/// Which fields of a task an update set.
#[derive(Clone, Copy, Debug, PartialEq, Eq, Structural)]
pub struct UpdatedFields {
    pub title: bool,
    pub description: bool,
    pub status: bool,
    pub priority: bool,
    pub assignee_id: bool,
}

/// What an update changed, so that subscribers can tell a status transition
/// from other edits.
#[derive(Clone, Copy, Debug)]
pub struct TaskChanges {
    pub status_changed: bool,
    pub previous_status: Option<TaskStatus>,
    pub updated_fields: UpdatedFields,
}

/// A change of task state, as subscribers receive it.
#[derive(Clone, Debug)]
pub enum TaskEvent {
    Created { task: Task },
    Updated { task: Task, changes: TaskChanges },
    Deleted { task_id: Oid, project_id: Oid },
}

/// The name under which each kind of event is sent.
pub open spec fn event_type_of(e: TaskEvent) -> Seq<char> {
    match e {
        TaskEvent::Created { .. } => "TASK_CREATED"@,
        TaskEvent::Updated { .. } => "TASK_UPDATED"@,
        TaskEvent::Deleted { .. } => "TASK_DELETED"@,
    }
}

impl TaskEvent {
    /// The name under which this event is sent.
    pub fn event_type(&self) -> (r: String)
        ensures
            r@ == event_type_of(*self),
    {
        match self {
            TaskEvent::Created { .. } => String::from_str("TASK_CREATED"),
            TaskEvent::Updated { .. } => String::from_str("TASK_UPDATED"),
            TaskEvent::Deleted { .. } => String::from_str("TASK_DELETED"),
        }
    }
}

/// Relies on tokio's `broadcast::channel`, which panics only for a capacity of
/// zero or above `usize::MAX / 2`. The receiver it also makes is dropped.
#[verifier::external_body]
fn broadcast_channel(capacity: usize) -> tokio::sync::broadcast::Sender<TaskEvent>
    requires
        0 < capacity <= usize::MAX / 2,
{
    tokio::sync::broadcast::channel(capacity).0
}

/// Relies on tokio's `Sender::subscribe`: the receiver sees the events sent
/// after this call. (It panics only with `usize::MAX / 4` live receivers,
/// more than memory can hold.)
#[verifier::external_body]
fn broadcast_subscribe(
    tx: &tokio::sync::broadcast::Sender<TaskEvent>,
) -> tokio::sync::broadcast::Receiver<TaskEvent> {
    tx.subscribe()
}

/// Relies on tokio's `Sender::send`: it never waits; it fails only when no
/// receiver is subscribed, and then the event is dropped.
#[verifier::external_body]
fn broadcast_send(tx: &tokio::sync::broadcast::Sender<TaskEvent>, event: TaskEvent) -> Option<
    usize,
> {
    match tx.send(event) {
        Ok(n) => Some(n),
        Err(_) => None,
    }
}

/// Relies on tokio's `Sender::clone`: another handle on the same channel.
#[verifier::external_body]
fn broadcast_sender_clone(
    tx: &tokio::sync::broadcast::Sender<TaskEvent>,
) -> tokio::sync::broadcast::Sender<TaskEvent> {
    tx.clone()
}

/// The process-wide publish/subscribe hub of task events. It is built once and
/// handed to each service and session. Each handle records, as `log`, the
/// events published through it.
pub struct NotificationHub {
    tx: tokio::sync::broadcast::Sender<TaskEvent>,
    sent: Ghost<Seq<TaskEvent>>,
}

impl NotificationHub {
    /// The events published through this handle, oldest first.
    pub closed spec fn log(&self) -> Seq<TaskEvent> {
        self.sent@
    }

    /// A hub that keeps at most about `capacity` unread events per subscriber.
    pub fn new(capacity: usize) -> (r: NotificationHub)
        requires
            0 < capacity <= usize::MAX / 2,
        ensures
            r.log() == Seq::<TaskEvent>::empty(),
    {
        NotificationHub { tx: broadcast_channel(capacity), sent: Ghost(Seq::empty()) }
    }

    /// Another handle on the same hub, with nothing published through it yet.
    pub fn share(&self) -> (r: NotificationHub)
        ensures
            r.log() == Seq::<TaskEvent>::empty(),
    {
        NotificationHub { tx: broadcast_sender_clone(&self.tx), sent: Ghost(Seq::empty()) }
    }

    /// A new subscription, which receives the events published from now on.
    pub fn subscribe(&self) -> tokio::sync::broadcast::Receiver<TaskEvent> {
        broadcast_subscribe(&self.tx)
    }

    /// Publishes `event` without waiting and without failing: with no
    /// subscriber the event is dropped. Returns how many subscribers it
    /// reached.
    pub fn publish(&mut self, event: TaskEvent) -> (r: usize)
        ensures
            final(self).log() == old(self).log().push(event),
    {
        let ghost e = event;
        let n = match broadcast_send(&self.tx, event) {
            Some(n) => n,
            None => 0,
        };
        self.sent = Ghost(self.sent@.push(e));
        n
    }
}

} // verus!
