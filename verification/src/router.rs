use vstd::prelude::*;

use crate::sink::sender_send;
use crossbeam::channel::Sender;
use std::collections::HashMap;

verus! {

broadcast use vstd::std_specs::hash::group_hash_axioms;

/// What became of one routing attempt.
#[derive(Clone, Copy, Debug, PartialEq, Eq, Structural)]
pub enum RouteStatus {
    /// A sink is registered under the id and the payload was enqueued.
    Delivered,
    /// No sink is registered under the id; the payload was discarded.
    NoRecipient,
    /// A sink is registered but its consumer is gone; the payload was
    /// discarded.
    SinkClosed,
}

/// One of the two router maps: at most one sink per correlation id.
#[verifier::reject_recursive_types(T)]
pub struct SenderHash<T> {
    data: HashMap<i32, Sender<T>>,
}

impl<T> View for SenderHash<T> {
    type V = Map<i32, Sender<T>>;

    closed spec fn view(&self) -> Map<i32, Sender<T>> {
        self.data@
    }
}

impl<T> SenderHash<T> {
    /// An empty router map.
    pub fn new() -> (r: SenderHash<T>)
        ensures
            r@ == Map::<i32, Sender<T>>::empty(),
    {
        SenderHash { data: HashMap::new() }
    }

    /// Register `sender` under `id`; a sink already there comes back and is
    /// from then on orphaned.
    pub fn insert(&mut self, id: i32, sender: Sender<T>) -> (prior: Option<Sender<T>>)
        ensures
            final (self)@ == old(self)@.insert(id, sender),
            prior matches Some(p) ==> old(self)@.contains_key(id) && p == old(self)@[id],
            prior is None ==> !old(self)@.contains_key(id),
    {
        self.data.insert(id, sender)
    }

    /// Drop the registration under `id`, handing back its sink if there was
    /// one.
    pub fn remove(&mut self, id: i32) -> (prior: Option<Sender<T>>)
        ensures
            final (self)@ == old(self)@.remove(id),
            prior matches Some(p) ==> old(self)@.contains_key(id) && p == old(self)@[id],
            prior is None ==> !old(self)@.contains_key(id),
    {
        self.data.remove(&id)
    }

    /// Whether a sink is registered under `id`.
    pub fn contains(&self, id: i32) -> (r: bool)
        ensures
            r == self@.contains_key(id),
    {
        self.data.contains_key(&id)
    }

    /// Drop every registration; every sink goes with them, so each
    /// consumer observes the end of its stream.
    pub fn clear(&mut self)
        ensures
            final (self)@ == Map::<i32, Sender<T>>::empty(),
    {
        self.data.clear()
    }

    /// Hand `message` to the sink registered under `id`; with none, or with
    /// a closed one, the message is discarded and the status says so. The
    /// registrations themselves never change.
    pub fn send(&self, id: i32, message: T) -> (r: RouteStatus)
        ensures
            r is NoRecipient <==> !self@.contains_key(id),
    {
        match self.data.get(&id) {
            Some(sender) => {
                match sender_send(sender, message) {
                    Ok(()) => RouteStatus::Delivered,
                    Err(_) => RouteStatus::SinkClosed,
                }
            },
            None => RouteStatus::NoRecipient,
        }
    }

}

} // verus!
