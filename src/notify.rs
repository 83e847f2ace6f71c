use vstd::prelude::*;
use crate::timer::TickEvent;

verus! {

/// The pending notifications of every subscriber, indexed by the id handed
/// out when it subscribed.
pub type Inboxes = Seq<Seq<TickEvent>>;

/// Every inbox after one notification: each holds the event at its end.
pub open spec fn delivered(q: Inboxes, e: TickEvent) -> Inboxes {
    Seq::new(q.len(), |i: int| q[i].push(e))
}

/// Every inbox after a run of notifications, first to last.
pub open spec fn delivered_all(q: Inboxes, es: Seq<TickEvent>) -> Inboxes
    decreases es.len(),
{
    if es.len() == 0 {
        q
    } else {
        delivered(delivered_all(q, es.drop_last()), es.last())
    }
}

/// The inboxes after one more subscriber joins: it starts with nothing.
pub open spec fn joined(q: Inboxes) -> Inboxes {
    q.push(Seq::empty())
}

/// Across a run of notifications every inbox grows by exactly that run, in
/// order, and no inbox is added or lost.
pub proof fn lemma_delivered_all(q: Inboxes, es: Seq<TickEvent>)
    ensures
        delivered_all(q, es).len() == q.len(),
        forall|i: int| 0 <= i < q.len() ==> #[trigger] delivered_all(q, es)[i] == q[i] + es,
    decreases es.len(),
{
    if es.len() > 0 {
        lemma_delivered_all(q, es.drop_last());
        assert forall|i: int| 0 <= i < q.len() implies #[trigger] delivered_all(q, es)[i] == q[i]
            + es by {
            assert(es.drop_last().push(es.last()) =~= es);
            assert((q[i] + es.drop_last()).push(es.last()) =~= q[i] + es);
        }
    }
}

/// Subscribers registered before an emission all receive its event, after what
/// they already had and before what comes later; a subscriber registered
/// after it never receives it: its inbox holds exactly the later events.
pub proof fn lemma_delivery_follows_registration(
    q: Inboxes,
    e: TickEvent,
    later: Seq<TickEvent>,
)
    ensures
        ({
            let after = delivered_all(joined(delivered(q, e)), later);
            &&& after.len() == q.len() + 1
            &&& forall|i: int| 0 <= i < q.len() ==> #[trigger] after[i] == q[i].push(e) + later
            &&& after[q.len() as int] == later
        }),
{
    let j = joined(delivered(q, e));
    lemma_delivered_all(j, later);
    assert(j[q.len() as int] + later =~= later);
}

/// An observer list. Each subscriber has an inbox; an emission puts the event
/// into every inbox present at that moment, and the subscriber takes its
/// events out, in the order they were emitted, on the turn it redraws on.
pub struct Subscribers {
    inboxes: Vec<Vec<TickEvent>>,
}

impl View for Subscribers {
    type V = Inboxes;

    closed spec fn view(&self) -> Inboxes {
        Seq::new(self.inboxes@.len(), |i: int| self.inboxes@[i]@)
    }
}

impl Subscribers {
    /// No subscribers yet.
    pub fn new() -> (r: Subscribers)
        ensures
            r@ == Seq::<Seq<TickEvent>>::empty(),
    {
        let r = Subscribers { inboxes: Vec::new() };
        assert(r@ =~= Seq::<Seq<TickEvent>>::empty());
        r
    }

    /// How many subscribers have registered.
    pub fn len(&self) -> (n: usize)
        ensures
            n == self@.len(),
    {
        self.inboxes.len()
    }

    /// Registers one more subscriber, with an empty inbox, and returns its id.
    pub fn subscribe(&mut self) -> (id: usize)
        ensures
            id == old(self)@.len(),
            final(self)@ == joined(old(self)@),
    {
        let id = self.inboxes.len();
        self.inboxes.push(Vec::new());
        assert(self@ =~= joined(old(self)@));
        id
    }

    /// Hands the event to every current subscriber.
    pub fn emit(&mut self, e: TickEvent)
        ensures
            final(self)@ == delivered(old(self)@, e),
    {
        let n = self.inboxes.len();
        let mut i: usize = 0;
        while i < n
            invariant
                n == old(self)@.len(),
                self.inboxes@.len() == n,
                0 <= i <= n,
                forall|j: int| 0 <= j < i ==> self.inboxes@[j]@ == old(self)@[j].push(e),
                forall|j: int| i <= j < n ==> self.inboxes@[j]@ == old(self)@[j],
            decreases n - i,
        {
            self.inboxes[i].push(e);
            i = i + 1;
        }
        assert(self@ =~= delivered(old(self)@, e));
    }

    /// Takes out, in emission order, the events waiting for one subscriber,
    /// leaving its inbox empty.
    pub fn take(&mut self, id: usize) -> (es: Vec<TickEvent>)
        requires
            id < old(self)@.len(),
        ensures
            es@ == old(self)@[id as int],
            final(self)@ == old(self)@.update(id as int, Seq::empty()),
    {
        let mut es: Vec<TickEvent> = Vec::new();
        std::mem::swap(&mut self.inboxes[id], &mut es);
        assert(self@ =~= old(self)@.update(id as int, Seq::empty()));
        es
    }
}

} // verus!
