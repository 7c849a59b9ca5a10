use crate::protocol::strings_view;
use vstd::prelude::*;

verus! {

/// One subscriber's queue of frames not yet taken.
struct Subscriber {
    active: bool,
    pending: Vec<String>,
}

/// A fan-out hub for inbound frames: every subscriber that is attached when a
/// frame is published receives it once, in publish order.
pub struct EventBus {
    subs: Vec<Subscriber>,
}

/// A subscriber's pending frames, or `None` once it is released.
pub open spec fn queue_view(active: bool, pending: Seq<String>) -> Option<Seq<Seq<char>>> {
    if active {
        Some(strings_view(pending))
    } else {
        None
    }
}

impl View for EventBus {
    type V = Seq<Option<Seq<Seq<char>>>>;

    closed spec fn view(&self) -> Seq<Option<Seq<Seq<char>>>> {
        self.subs@.map_values(|s: Subscriber| queue_view(s.active, s.pending@))
    }
}

/// The queues after `text` is published: appended to each attached queue.
pub open spec fn published(
    q: Seq<Option<Seq<Seq<char>>>>,
    text: Seq<char>,
) -> Seq<Option<Seq<Seq<char>>>> {
    q.map_values(
        |o: Option<Seq<Seq<char>>>|
            match o {
                Some(p) => Some(p.push(text)),
                None => None,
            },
    )
}

impl EventBus {
    pub fn new() -> (r: EventBus)
        ensures
            r@ == Seq::<Option<Seq<Seq<char>>>>::empty(),
    {
        let r = EventBus { subs: Vec::new() };
        assert(r@ =~= Seq::<Option<Seq<Seq<char>>>>::empty());
        r
    }

    /// Attaches a new subscriber; returns its handle.
    pub fn subscribe(&mut self) -> (r: usize)
        requires
            old(self)@.len() < usize::MAX,
        ensures
            r == old(self)@.len(),
            final(self)@ == old(self)@.push(Some(Seq::empty())),
    {
        let r = self.subs.len();
        self.subs.push(Subscriber { active: true, pending: Vec::new() });
        proof {
            assert(strings_view(Seq::<String>::empty()) =~= Seq::<Seq<char>>::empty());
            assert(self@ =~= old(self)@.push(Some(Seq::empty())));
        }
        r
    }

    /// Releases a subscriber: it receives nothing more, and what it had not
    /// taken is dropped.
    pub fn unsubscribe(&mut self, id: usize)
        requires
            id < old(self)@.len(),
        ensures
            final(self)@ == old(self)@.update(id as int, None),
    {
        self.subs[id].active = false;
        self.subs[id].pending = Vec::new();
        assert(self@ =~= old(self)@.update(id as int, None));
    }

    /// Hands `text` to every attached subscriber.
    pub fn publish(&mut self, text: &str)
        ensures
            final(self)@ == published(old(self)@, text@),
    {
        let n = self.subs.len();
        let mut i: usize = 0;
        while i < n
            invariant
                n == self.subs@.len(),
                n == old(self).subs@.len(),
                i <= n,
                forall|j: int|
                    0 <= j < i ==> queue_view((#[trigger] self.subs@[j]).active, self.subs@[j].pending@)
                        == published(old(self)@, text@)[j],
                forall|j: int| i <= j < n ==> #[trigger] self.subs@[j] == old(self).subs@[j],
            decreases n - i,
        {
            if self.subs[i].active {
                self.subs[i].pending.push(text.to_string());
                proof {
                    assert(strings_view(self.subs@[i as int].pending@) =~= strings_view(
                        old(self).subs@[i as int].pending@,
                    ).push(text@));
                }
            }
            i = i + 1;
        }
        assert(self@ =~= published(old(self)@, text@));
    }

    /// The frames a subscriber has not taken yet, oldest first; its queue is
    /// then empty. A released subscriber gets none.
    pub fn take(&mut self, id: usize) -> (r: Vec<String>)
        requires
            id < old(self)@.len(),
        ensures
            old(self)@[id as int] matches Some(p) ==> strings_view(r@) == p
                && final(self)@ == old(self)@.update(id as int, Some(Seq::empty())),
            old(self)@[id as int] is None ==> r@.len() == 0 && final(self)@ == old(self)@,
    {
        let mut out: Vec<String> = Vec::new();
        if self.subs[id].active {
            std::mem::swap(&mut out, &mut self.subs[id].pending);
        }
        proof {
            assert(strings_view(Seq::<String>::empty()) =~= Seq::<Seq<char>>::empty());
            if old(self)@[id as int] is None {
                assert(self@ =~= old(self)@);
            } else {
                assert(self@ =~= old(self)@.update(id as int, Some(Seq::empty())));
            }
        }
        out
    }

    pub fn subscriber_count(&self) -> (r: usize)
        ensures
            r == self@.len(),
    {
        self.subs.len()
    }
}

} // verus!
