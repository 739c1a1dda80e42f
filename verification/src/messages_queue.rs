//! The chat lines that are on the screen.

use std::collections::VecDeque;
use vstd::prelude::*;
use vstd::std_specs::cmp::PartialEqSpecImpl;
use crate::models::GigaChatMessage;

verus! {

/// What is left of `shown` when a message is about to come in: where the
/// queue holds one message less than its capacity, the oldest one goes. With
/// the newest message last, that is the first; else it is the last.
pub open spec fn after_eviction(
    shown: Seq<GigaChatMessage>,
    capacity: usize,
    sort_asc: bool,
) -> Seq<GigaChatMessage> {
    if shown.len() != capacity - 1 || shown.len() == 0 {
        shown
    } else if sort_asc {
        shown.remove(0)
    } else {
        shown.drop_last()
    }
}

/// The messages after `message` came in: it stands on the side of the newest.
pub open spec fn after_push(
    shown: Seq<GigaChatMessage>,
    capacity: usize,
    sort_asc: bool,
    message: GigaChatMessage,
) -> Seq<GigaChatMessage> {
    let kept = after_eviction(shown, capacity, sort_asc);
    if sort_asc {
        kept.push(message)
    } else {
        seq![message] + kept
    }
}

/// The last messages of a chat, at most as many as fit, with the newest last
/// (`sort_asc`) or first.
#[derive(Debug)]
pub struct MessagesQueue {
    capacity: usize,
    sort_asc: bool,
    data: VecDeque<GigaChatMessage>,
}

impl View for MessagesQueue {
    type V = Seq<GigaChatMessage>;

    closed spec fn view(&self) -> Seq<GigaChatMessage> {
        self.data@
    }
}

impl MessagesQueue {
    /// How many messages the queue was made for.
    pub closed spec fn spec_capacity(&self) -> usize {
        self.capacity
    }

    /// Whether the newest message is the last.
    pub closed spec fn spec_sort_asc(&self) -> bool {
        self.sort_asc
    }

    /// An empty queue with the newest message first.
    pub fn new(capacity: usize) -> (queue: Self)
        ensures
            queue@ == Seq::<GigaChatMessage>::empty(),
            queue.spec_capacity() == capacity,
            !queue.spec_sort_asc(),
    {
        Self { capacity, sort_asc: false, data: VecDeque::with_capacity(capacity) }
    }

    /// How many messages the queue was made for.
    #[verifier::when_used_as_spec(spec_capacity)]
    pub fn capacity(&self) -> (capacity: usize)
        ensures
            capacity == self.spec_capacity(),
    {
        self.capacity
    }

    /// Whether the newest message is the last.
    #[verifier::when_used_as_spec(spec_sort_asc)]
    pub fn sort_asc(&self) -> (sort_asc: bool)
        ensures
            sort_asc == self.spec_sort_asc(),
    {
        self.sort_asc
    }

    /// How many messages the queue holds.
    pub fn len(&self) -> (count: usize)
        ensures
            count == self@.len(),
    {
        self.data.len()
    }

    /// The message at `index`, counted from the first.
    pub fn get(&self, index: usize) -> (message: Option<&GigaChatMessage>)
        ensures
            match message {
                Some(m) => index < self@.len() && *m == self@[index as int],
                None => index >= self@.len(),
            },
    {
        if index < self.data.len() {
            Some(&self.data[index])
        } else {
            None
        }
    }

    /// Takes a message in, on the side of the newest. Where the queue holds
    /// one message less than its capacity, the oldest message leaves first.
    pub fn push(&mut self, message: GigaChatMessage)
        requires
            old(self).spec_capacity() >= 1,
        ensures
            final(self)@ == after_push(
                old(self)@,
                old(self).spec_capacity(),
                old(self).spec_sort_asc(),
                message,
            ),
            final(self).spec_capacity() == old(self).spec_capacity(),
            final(self).spec_sort_asc() == old(self).spec_sort_asc(),
    {
        if self.data.len() == self.capacity - 1 {
            if self.sort_asc {
                self.data.remove(0);
            } else {
                let ghost before = self.data@;
                self.data.pop_back();
                assert(before.len() > 0 ==> self.data@ =~= before.drop_last());
            }
        }
        if self.sort_asc {
            self.data.push_back(message);
        } else {
            self.data.push_front(message);
        }
    }

    /// Sets on which side the newest message stands, and turns the queue
    /// round, whether the side changed or not.
    pub fn set_sort(&mut self, sort_asc: bool)
        ensures
            final(self)@ == old(self)@.reverse(),
            final(self).spec_sort_asc() == sort_asc,
            final(self).spec_capacity() == old(self).spec_capacity(),
    {
        self.sort_asc = sort_asc;
        let ghost before = self.data@;
        let mut turned: VecDeque<GigaChatMessage> = VecDeque::new();
        while self.data.len() > 0
            invariant
                self.data@.len() <= before.len(),
                self.data@ == before.take(self.data@.len() as int),
                turned@ == before.skip(self.data@.len() as int).reverse(),
                self.capacity == old(self).capacity,
                self.sort_asc == sort_asc,
            decreases self.data@.len(),
        {
            let ghost k = self.data@.len() - 1;
            let message = self.data.pop_back().unwrap();
            proof {
                assert(self.data@ =~= before.take(k));
                assert(turned@.push(message) =~= before.skip(k).reverse());
            }
            turned.push_back(message);
        }
        assert(before.skip(0) =~= before);
        self.data = turned;
    }
}

/// Whether two lists hold messages with the same identifiers in the same
/// order.
pub open spec fn same_messages(a: Seq<GigaChatMessage>, b: Seq<GigaChatMessage>) -> bool {
    &&& a.len() == b.len()
    &&& forall|i: int| 0 <= i < a.len() ==> (#[trigger] a[i]).message_id@ == b[i].message_id@
}

impl PartialEq for MessagesQueue {
    /// Two queues are equal when they show the same messages in the same
    /// order, whatever their capacity and their side of the newest.
    fn eq(&self, other: &Self) -> (equal: bool) {
        let n = self.data.len();
        if other.data.len() != n {
            return false;
        }
        let mut i: usize = 0;
        while i < n
            invariant
                i <= n,
                n == self.data@.len(),
                n == other.data@.len(),
                forall|j: int|
                    0 <= j < i ==> (#[trigger] self.data@[j]).message_id@
                        == other.data@[j].message_id@,
            decreases n - i,
        {
            if self.data[i].message_id != other.data[i].message_id {
                return false;
            }
            i += 1;
        }
        true
    }
}

impl PartialEqSpecImpl for MessagesQueue {
    open spec fn obeys_eq_spec() -> bool {
        true
    }

    open spec fn eq_spec(&self, other: &Self) -> bool {
        same_messages(self@, other@)
    }
}

impl Default for MessagesQueue {
    /// A queue for ten messages.
    fn default() -> (queue: Self)
        ensures
            queue@ == Seq::<GigaChatMessage>::empty(),
            queue.spec_capacity() == 10,
            !queue.spec_sort_asc(),
    {
        Self::new(10)
    }
}

} // verus!
