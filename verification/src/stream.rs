//! The broadcaster of a streamed resource: every open connection subscribes
//! with a channel, and what is sent goes to each of them.

use std::sync::mpsc::{Receiver, Sender};
use vstd::prelude::*;

verus! {

/// The sending half of a channel of the standard library.
#[verifier::external_type_specification]
#[verifier::external_body]
#[verifier::reject_recursive_types(T)]
pub struct ExSender<T>(Sender<T>);

/// The receiving half of a channel of the standard library.
#[verifier::external_type_specification]
#[verifier::external_body]
#[verifier::reject_recursive_types(T)]
pub struct ExReceiver<T>(Receiver<T>);

/// `std::sync::mpsc::channel`: a new channel, as its two halves. Nothing is
/// claimed of them.
#[verifier::external_body]
fn open_channel() -> (r: (Sender<String>, Receiver<String>)) {
    std::sync::mpsc::channel()
}

/// `Sender::send` with a copy of `data`: whether the channel took the message.
/// It does not when the receiving half is gone, which nothing here can
/// foresee: nothing is claimed of the result.
#[verifier::external_body]
fn deliver(listener: &Sender<String>, data: &str) -> (delivered: bool) {
    listener.send(String::from(data)).is_ok()
}

/// The items of `items[..upto]` whose flag in `keep` is set, in their order.
pub open spec fn kept<T>(items: Seq<T>, keep: Seq<bool>, upto: int) -> Seq<T>
    decreases upto,
{
    if upto <= 0 || upto > items.len() || upto > keep.len() {
        Seq::empty()
    } else if keep[upto - 1] {
        kept(items, keep, upto - 1).push(items[upto - 1])
    } else {
        kept(items, keep, upto - 1)
    }
}

/// `kept` holds no more items than it chose from.
pub proof fn lemma_kept_len<T>(items: Seq<T>, keep: Seq<bool>, upto: int)
    ensures
        kept(items, keep, upto).len() <= if upto < 0 {
            0
        } else {
            upto
        },
    decreases upto,
{
    if 0 < upto && upto <= items.len() && upto <= keep.len() {
        lemma_kept_len(items, keep, upto - 1);
    }
}

/// Where every flag is set, or none is, `kept` holds everything, or nothing.
pub proof fn lemma_kept_all_or_none<T>(items: Seq<T>, keep: Seq<bool>, upto: int)
    requires
        0 <= upto <= items.len(),
        upto <= keep.len(),
    ensures
        (forall|i: int| 0 <= i < upto ==> keep[i]) ==> kept(items, keep, upto) == items.take(upto),
        (forall|i: int| 0 <= i < upto ==> !keep[i]) ==> kept(items, keep, upto) == Seq::<T>::empty(),
    decreases upto,
{
    if upto > 0 {
        lemma_kept_all_or_none(items, keep, upto - 1);
        if forall|i: int| 0 <= i < upto ==> keep[i] {
            assert(items.take(upto - 1).push(items[upto - 1]) =~= items.take(upto));
        }
    } else {
        assert(items.take(0) =~= Seq::<T>::empty());
    }
}

/// Drops from `items` every item whose flag in `keep` is not set. The others
/// stay, in their order.
pub fn prune<T>(items: Vec<T>, keep: &Vec<bool>) -> (r: Vec<T>)
    requires
        keep@.len() == items@.len(),
    ensures
        r@ == kept(items@, keep@, items@.len() as int),
{
    let ghost all = items@;
    let mut out: Vec<T> = Vec::new();
    let mut i: usize = 0;
    for item in it: items
        invariant
            it.seq() == all,
            keep@.len() == all.len(),
            i == it.index(),
            out@ == kept(all, keep@, i as int),
    {
        assert(i < keep.len());
        if keep[i] {
            out.push(item);
        }
        i += 1;
    }
    out
}

/// The subscribers of a streamed resource.
pub struct Broadcaster {
    listeners: Vec<Sender<String>>,
}

impl View for Broadcaster {
    type V = Seq<Sender<String>>;

    /// The channels of the subscribers, the earliest first.
    closed spec fn view(&self) -> Seq<Sender<String>> {
        self.listeners@
    }
}

impl Broadcaster {
    /// A broadcaster without subscribers.
    pub fn new() -> (r: Broadcaster)
        ensures
            r@.len() == 0,
    {
        Broadcaster { listeners: Vec::new() }
    }

    /// Registers a new subscriber and hands out the receiving half of its
    /// channel. The call does not wait.
    pub fn subscribe(&mut self) -> (r: Receiver<String>)
        ensures
            final(self)@.len() == old(self)@.len() + 1,
            final(self)@.take(old(self)@.len() as int) == old(self)@,
    {
        let (tx, rx) = open_channel();
        self.listeners.push(tx);
        assert(self@.take(old(self)@.len() as int) =~= old(self)@);
        rx
    }

    /// Sends `data` to every subscriber, then drops the subscribers that did
    /// not take it. The result says, for each subscriber of before the call,
    /// whether it took the message.
    pub fn send(&mut self, data: &str) -> (delivered: Vec<bool>)
        ensures
            delivered@.len() == old(self)@.len(),
            final(self)@ == kept(old(self)@, delivered@, old(self)@.len() as int),
            final(self)@.len() <= old(self)@.len(),
    {
        let mut delivered: Vec<bool> = Vec::new();
        let mut i: usize = 0;
        while i < self.listeners.len()
            invariant
                i <= self.listeners.len(),
                delivered@.len() == i,
                self.listeners == old(self).listeners,
            decreases self.listeners.len() - i,
        {
            let ok = deliver(&self.listeners[i], data);
            delivered.push(ok);
            i += 1;
        }
        let mut listeners: Vec<Sender<String>> = Vec::new();
        core::mem::swap(&mut self.listeners, &mut listeners);
        self.listeners = prune(listeners, &delivered);
        proof {
            lemma_kept_len(old(self)@, delivered@, old(self)@.len() as int);
        }
        delivered
    }

    /// Drops every subscriber, which closes each of their channels.
    pub fn close(&mut self)
        ensures
            final(self)@.len() == 0,
    {
        self.listeners.clear();
    }

    /// The number of subscribers.
    pub fn count(&self) -> (r: usize)
        ensures
            r == self@.len(),
    {
        self.listeners.len()
    }
}

} // verus!
