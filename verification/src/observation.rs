//! A host-local observation plane: publishing a fact records it under a
//! fresh identity and offers it to the current subscribers; what each
//! subscriber answers is collected into a delivery report and never changes
//! the producer's result.
use vstd::prelude::*;

use crate::text::{decimal, push_decimal};

verus! {

/// The identity of one published observation.
#[derive(Clone, Copy, Debug, PartialEq, Eq, Structural, Hash, PartialOrd, Ord)]
pub struct ObservationId(u64);

impl View for ObservationId {
    type V = u64;

    closed spec fn view(&self) -> u64 {
        self.0
    }
}

impl ObservationId {
    /// The number behind the identity.
    pub fn value(self) -> (v: u64)
        ensures
            v == self@,
    {
        self.0
    }

    /// The identity as text: `observation-` and the number.
    pub fn describe(self) -> (s: String)
        ensures
            s@ == "observation-"@ + decimal(self@ as nat),
    {
        let mut s = String::from_str("observation-");
        push_decimal(&mut s, self.0);
        s
    }
}

/// The identity of one subscriber.
#[derive(Clone, Copy, Debug, PartialEq, Eq, Structural, Hash, PartialOrd, Ord)]
pub struct SubscriberId(u64);

impl View for SubscriberId {
    type V = u64;

    closed spec fn view(&self) -> u64 {
        self.0
    }
}

impl SubscriberId {
    /// The number behind the identity.
    pub fn value(self) -> (v: u64)
        ensures
            v == self@,
    {
        self.0
    }

    /// The identity as text: `subscriber-` and the number.
    pub fn describe(self) -> (s: String)
        ensures
            s@ == "subscriber-"@ + decimal(self@ as nat),
    {
        let mut s = String::from_str("subscriber-");
        push_decimal(&mut s, self.0);
        s
    }
}

/// The plain content of an observation.
pub struct ObservationView {
    pub id: u64,
    pub producer: Seq<char>,
    pub topic: Seq<char>,
    pub payload: Seq<u8>,
    pub causation: Option<Seq<char>>,
    pub correlation: Option<Seq<char>>,
}

/// The text of an optional string.
pub open spec fn opt_text(o: Option<String>) -> Option<Seq<char>> {
    match o {
        Some(s) => Some(s@),
        None => None,
    }
}

/// One published fact.
#[derive(Debug)]
pub struct Observation {
    id: ObservationId,
    producer: String,
    topic: String,
    payload: Vec<u8>,
    causation: Option<String>,
    correlation: Option<String>,
}

impl View for Observation {
    type V = ObservationView;

    closed spec fn view(&self) -> ObservationView {
        ObservationView {
            id: self.id.0,
            producer: self.producer@,
            topic: self.topic@,
            payload: self.payload@,
            causation: opt_text(self.causation),
            correlation: opt_text(self.correlation),
        }
    }
}

fn clone_text(o: &Option<String>) -> (c: Option<String>)
    ensures
        opt_text(c) == opt_text(*o),
{
    match o {
        Some(s) => Some(s.clone()),
        None => None,
    }
}

fn clone_outcome(o: &Result<(), String>) -> (c: Result<(), String>)
    ensures
        c == *o,
{
    match o {
        Ok(u) => Ok(*u),
        Err(m) => Err(m.clone()),
    }
}

fn copy_bytes(b: &[u8]) -> (c: Vec<u8>)
    ensures
        c@ == b@,
{
    let mut c: Vec<u8> = Vec::new();
    c.extend_from_slice(b);
    assert(c@ =~= b@);
    c
}

impl Clone for Observation {
    fn clone(&self) -> (c: Self)
        ensures
            c@ == self@,
    {
        Observation {
            id: self.id,
            producer: self.producer.clone(),
            topic: self.topic.clone(),
            payload: copy_bytes(self.payload.as_slice()),
            causation: clone_text(&self.causation),
            correlation: clone_text(&self.correlation),
        }
    }
}

impl Observation {
    /// The observation's identity.
    pub fn id(&self) -> (id: ObservationId)
        ensures
            id@ == self@.id,
    {
        self.id
    }

    /// The principal that produced it.
    pub fn producer(&self) -> (s: &str)
        ensures
            s@ == self@.producer,
    {
        self.producer.as_str()
    }

    /// Its topic.
    pub fn topic(&self) -> (s: &str)
        ensures
            s@ == self@.topic,
    {
        self.topic.as_str()
    }

    /// Its payload.
    pub fn payload(&self) -> (p: &[u8])
        ensures
            p@ == self@.payload,
    {
        self.payload.as_slice()
    }

    /// The invocation that caused it, if any.
    pub fn causation(&self) -> (c: Option<&str>)
        ensures
            match c {
                Some(s) => self@.causation == Some(s@),
                None => self@.causation is None,
            },
    {
        match &self.causation {
            Some(s) => Some(s.as_str()),
            None => None,
        }
    }

    /// Its correlation, if any.
    pub fn correlation(&self) -> (c: Option<&str>)
        ensures
            match c {
                Some(s) => self@.correlation == Some(s@),
                None => self@.correlation is None,
            },
    {
        match &self.correlation {
            Some(s) => Some(s.as_str()),
            None => None,
        }
    }
}

/// An observation before it is published and given its identity.
#[derive(Debug)]
pub struct ObservationDraft {
    producer: String,
    topic: String,
    payload: Vec<u8>,
    causation: Option<String>,
    correlation: Option<String>,
}

impl ObservationDraft {
    /// The producer of the draft.
    pub closed spec fn producer_view(&self) -> Seq<char> {
        self.producer@
    }

    /// The topic of the draft.
    pub closed spec fn topic_view(&self) -> Seq<char> {
        self.topic@
    }

    /// The payload of the draft.
    pub closed spec fn payload_view(&self) -> Seq<u8> {
        self.payload@
    }

    /// The causation of the draft.
    pub closed spec fn causation_view(&self) -> Option<Seq<char>> {
        opt_text(self.causation)
    }

    /// The correlation of the draft.
    pub closed spec fn correlation_view(&self) -> Option<Seq<char>> {
        opt_text(self.correlation)
    }

    /// A draft without causation or correlation.
    pub fn new(producer: String, topic: String, payload: &[u8]) -> (d: Self)
        ensures
            d.producer_view() == producer@,
            d.topic_view() == topic@,
            d.payload_view() == payload@,
            d.causation_view() is None,
            d.correlation_view() is None,
    {
        ObservationDraft {
            producer,
            topic,
            payload: copy_bytes(payload),
            causation: None,
            correlation: None,
        }
    }

    /// The draft, caused by `causation`.
    pub fn with_causation(self, causation: String) -> (d: Self)
        ensures
            d.causation_view() == Some(causation@),
            d.producer_view() == self.producer_view(),
            d.topic_view() == self.topic_view(),
            d.payload_view() == self.payload_view(),
            d.correlation_view() == self.correlation_view(),
    {
        ObservationDraft { causation: Some(causation), ..self }
    }

    /// The draft, correlated by `correlation`.
    pub fn with_correlation(self, correlation: String) -> (d: Self)
        ensures
            d.correlation_view() == Some(correlation@),
            d.producer_view() == self.producer_view(),
            d.topic_view() == self.topic_view(),
            d.payload_view() == self.payload_view(),
            d.causation_view() == self.causation_view(),
    {
        ObservationDraft { correlation: Some(correlation), ..self }
    }
}

/// What one subscriber answered when it failed.
#[derive(Clone, Debug, PartialEq, Eq)]
pub struct ObservationFailure {
    subscriber: SubscriberId,
    message: String,
}

impl ObservationFailure {
    /// The failure as plain values.
    pub closed spec fn view_pair(&self) -> (u64, Seq<char>) {
        (self.subscriber.0, self.message@)
    }

    /// The subscriber that failed.
    pub fn subscriber(&self) -> (s: SubscriberId)
        ensures
            s@ == self.view_pair().0,
    {
        self.subscriber
    }

    /// What it reported.
    pub fn message(&self) -> (m: &str)
        ensures
            m@ == self.view_pair().1,
    {
        self.message.as_str()
    }
}

/// The number of `Ok` answers among `outcomes`.
pub open spec fn delivered_count(outcomes: Seq<Result<(), String>>) -> nat
    decreases outcomes.len(),
{
    if outcomes.len() == 0 {
        0
    } else {
        delivered_count(outcomes.drop_last()) + if outcomes.last() is Ok {
            1nat
        } else {
            0nat
        }
    }
}

/// The failures among `outcomes`, in order, each with its subscriber.
pub open spec fn failures_of(subscribers: Seq<SubscriberId>, outcomes: Seq<Result<(), String>>) -> Seq<(u64, Seq<char>)>
    decreases outcomes.len(),
{
    if outcomes.len() == 0 {
        seq![]
    } else {
        let before = failures_of(subscribers, outcomes.drop_last());
        match outcomes.last() {
            Ok(()) => before,
            Err(m) => before.push((subscribers[outcomes.len() - 1]@, m@)),
        }
    }
}

/// The report of one publication: how many subscribers took the
/// observation, and which failed with what.
#[derive(Clone, Debug, PartialEq, Eq)]
pub struct ObservationDelivery {
    delivered: usize,
    failures: Vec<ObservationFailure>,
}

impl ObservationDelivery {
    /// The failures as plain values, in order.
    pub closed spec fn failures_view(&self) -> Seq<(u64, Seq<char>)> {
        self.failures@.map_values(|f: ObservationFailure| f.view_pair())
    }

    /// The number of subscribers that took the observation.
    pub closed spec fn delivered_view(&self) -> nat {
        self.delivered as nat
    }

    /// A report of nothing delivered and nothing failed.
    pub fn new() -> (d: Self)
        ensures
            d.delivered_view() == 0,
            d.failures_view() == Seq::<(u64, Seq<char>)>::empty(),
    {
        let d = ObservationDelivery { delivered: 0, failures: Vec::new() };
        assert(d.failures_view() =~= Seq::<(u64, Seq<char>)>::empty());
        d
    }

    /// Counts what one subscriber answered.
    pub fn record(&mut self, subscriber: SubscriberId, outcome: Result<(), String>)
        requires
            old(self).delivered_view() < usize::MAX,
        ensures
            outcome is Ok ==> final(self).delivered_view() == old(self).delivered_view() + 1
                && final(self).failures_view() == old(self).failures_view(),
            outcome matches Err(m) ==> final(self).delivered_view() == old(self).delivered_view()
                && final(self).failures_view() == old(self).failures_view().push((subscriber@, m@)),
    {
        match outcome {
            Ok(()) => {
                self.delivered = self.delivered + 1;
            },
            Err(message) => {
                let ghost before = self.failures@;
                self.failures.push(ObservationFailure { subscriber, message });
                assert(self.failures_view() =~= before.map_values(|f: ObservationFailure| f.view_pair()).push(
                    (subscriber@, message@),
                ));
            },
        }
    }

    /// The report of one publication to `subscribers`, given what each
    /// answered, in the same order.
    pub fn collect(subscribers: &Vec<SubscriberId>, outcomes: Vec<Result<(), String>>) -> (d: Self)
        requires
            outcomes@.len() == subscribers@.len(),
        ensures
            d.delivered_view() == delivered_count(outcomes@),
            d.failures_view() == failures_of(subscribers@, outcomes@),
            d.delivered_view() + d.failures_view().len() == subscribers@.len(),
    {
        let mut d = ObservationDelivery::new();
        let mut i: usize = 0;
        let mut rest = outcomes;
        let ghost all = rest@;
        let mut taken: Vec<Result<(), String>> = Vec::new();
        while i < subscribers.len()
            invariant
                all.len() == subscribers@.len(),
                i <= subscribers@.len(),
                taken@ == all.subrange(0, i as int),
                rest@ == all.subrange(i as int, all.len() as int),
                d.delivered_view() == delivered_count(taken@),
                d.failures_view() == failures_of(subscribers@, taken@),
                d.delivered_view() + d.failures_view().len() == i,
            decreases subscribers.len() - i,
        {
            let outcome = rest.remove(0);
            let ghost before = taken@;
            proof {
                lemma_counted(subscribers@, before);
            }
            d.record(subscribers[i], clone_outcome(&outcome));
            taken.push(outcome);
            proof {
                assert(taken@.drop_last() =~= before);
            }
            i += 1;
            assert(taken@ =~= all.subrange(0, i as int));
            assert(rest@ =~= all.subrange(i as int, all.len() as int));
        }
        d
    }

    /// The number of subscribers that took the observation.
    pub fn delivered(&self) -> (n: usize)
        ensures
            n == self.delivered_view(),
    {
        self.delivered
    }

    /// The failures, in order.
    pub fn failures(&self) -> (f: &[ObservationFailure])
        ensures
            f@.map_values(|x: ObservationFailure| x.view_pair()) == self.failures_view(),
    {
        self.failures.as_slice()
    }

    /// Whether no subscriber failed.
    pub fn is_successful(&self) -> (b: bool)
        ensures
            b == (self.failures_view().len() == 0),
    {
        self.failures.len() == 0
    }
}

/// Whether a sequence of numbers rises strictly.
pub open spec fn rising(s: Seq<u64>) -> bool {
    forall|i: int, j: int| 0 <= i < j < s.len() ==> s[i] < s[j]
}

/// Minimal host-local observation plane. It has no provider resolution or
/// command path: publishing records a fact under a fresh identity and
/// offers it to the current subscribers, in the order they subscribed.
#[derive(Debug)]
pub struct ObservationBus {
    subscribers: Vec<SubscriberId>,
    history: Vec<Observation>,
    next_subscriber: u64,
}

/// Whether subscribers `v` rise strictly and were all handed out by a bus
/// that has issued `issued` identities.
pub open spec fn subscribers_consistent(v: Seq<u64>, issued: u64) -> bool {
    &&& rising(v)
    &&& forall|i: int| 0 <= i < v.len() ==> 1 <= #[trigger] v[i] <= issued
}

/// Whether the observation at each position `i` of `h` has identity `i + 1`.
pub open spec fn numbered(h: Seq<ObservationView>) -> bool {
    forall|i: int| 0 <= i < h.len() ==> (#[trigger] h[i]).id == i + 1
}

impl ObservationBus {
    /// The current subscribers, in the order they subscribed.
    pub closed spec fn subscriber_view(&self) -> Seq<u64> {
        self.subscribers@.map_values(|s: SubscriberId| s@)
    }

    /// Everything published so far, in order.
    pub closed spec fn history_view(&self) -> Seq<ObservationView> {
        self.history@.map_values(|o: Observation| o@)
    }

    /// How many subscriber identities were handed out.
    pub closed spec fn issued_subscribers(&self) -> u64 {
        self.next_subscriber
    }

    /// The bus is consistent: subscribers rise strictly and were all handed
    /// out, and the observation at position `i` has identity `i + 1`.
    #[verifier::type_invariant]
    closed spec fn wf(self) -> bool {
        &&& subscribers_consistent(self.subscriber_view(), self.next_subscriber)
        &&& numbered(self.history_view())
    }

    /// A bus with no subscribers and nothing published.
    pub fn new() -> (b: Self)
        ensures
            b.subscriber_view() == Seq::<u64>::empty(),
            b.history_view() == Seq::<ObservationView>::empty(),
            b.issued_subscribers() == 0,
    {
        let subscribers: Vec<SubscriberId> = Vec::new();
        let history: Vec<Observation> = Vec::new();
        assert(subscribers@.map_values(|s: SubscriberId| s@) =~= Seq::<u64>::empty());
        assert(history@.map_values(|o: Observation| o@) =~= Seq::<ObservationView>::empty());
        ObservationBus { subscribers, history, next_subscriber: 0 }
    }

    /// Adds a subscriber under a fresh identity, one above the last handed
    /// out.
    pub fn subscribe(&mut self) -> (id: SubscriberId)
        requires
            old(self).issued_subscribers() < u64::MAX,
        ensures
            id@ == old(self).issued_subscribers() + 1,
            final(self).issued_subscribers() == id@,
            final(self).subscriber_view() == old(self).subscriber_view().push(id@),
            !old(self).subscriber_view().contains(id@),
            rising(final(self).subscriber_view()),
            final(self).history_view() == old(self).history_view(),
    {
        proof {
            use_type_invariant(&*self);
        }
        let ghost before = self.subscriber_view();
        let id = SubscriberId(self.next_subscriber + 1);
        proof {
            assert forall|i: int| 0 <= i < before.len() implies #[trigger] before[i] != id@ by {}
        }
        let mut subscribers: Vec<SubscriberId> = Vec::new();
        std::mem::swap(&mut subscribers, &mut self.subscribers);
        assert(self.subscriber_view() =~= Seq::<u64>::empty());
        subscribers.push(id);
        let ghost after = subscribers@.map_values(|s: SubscriberId| s@);
        assert(after =~= before.push(id@));
        self.next_subscriber = id.0;
        self.subscribers = subscribers;
        id
    }

    fn position(&self, subscriber: SubscriberId) -> (k: Option<usize>)
        ensures
            match k {
                Some(k) => k < self.subscriber_view().len() && self.subscriber_view()[k as int] == subscriber@,
                None => !self.subscriber_view().contains(subscriber@),
            },
    {
        let mut k: usize = 0;
        while k < self.subscribers.len()
            invariant
                k <= self.subscribers@.len(),
                forall|j: int| 0 <= j < k ==> (#[trigger] self.subscribers@[j])@ != subscriber@,
            decreases self.subscribers.len() - k,
        {
            if self.subscribers[k].0 == subscriber.0 {
                return Some(k);
            }
            k += 1;
        }
        proof {
            if self.subscriber_view().contains(subscriber@) {
                let j = choose|j: int|
                    0 <= j < self.subscriber_view().len() && self.subscriber_view()[j] == subscriber@;
                assert(self.subscribers@[j]@ == subscriber@);
            }
        }
        None
    }

    /// Removes a subscriber; whether it was subscribed.
    pub fn unsubscribe(&mut self, subscriber: SubscriberId) -> (removed: bool)
        ensures
            removed == old(self).subscriber_view().contains(subscriber@),
            removed ==> exists|k: int|
                0 <= k < old(self).subscriber_view().len() && old(self).subscriber_view()[k]
                    == subscriber@ && final(self).subscriber_view() == old(
                    self,
                ).subscriber_view().remove(k),
            !removed ==> final(self).subscriber_view() == old(self).subscriber_view(),
            !final(self).subscriber_view().contains(subscriber@),
            final(self).subscriber_view().len() == old(self).subscriber_view().len() - (if removed {
                1int
            } else {
                0int
            }),
            rising(final(self).subscriber_view()),
            final(self).history_view() == old(self).history_view(),
            final(self).issued_subscribers() == old(self).issued_subscribers(),
    {
        proof {
            use_type_invariant(&*self);
        }
        match self.position(subscriber) {
            Some(k) => {
                let ghost bv = self.subscriber_view();
                let mut subscribers: Vec<SubscriberId> = Vec::new();
                std::mem::swap(&mut subscribers, &mut self.subscribers);
                assert(self.subscriber_view() =~= Seq::<u64>::empty());
                subscribers.remove(k);
                let ghost sv = subscribers@.map_values(|s: SubscriberId| s@);
                proof {
                    assert(sv =~= bv.remove(k as int));
                    assert forall|i: int, j: int| 0 <= i < j < sv.len() implies sv[i] < sv[j] by {
                        let bi = if i < k { i } else { i + 1 };
                        let bj = if j < k { j } else { j + 1 };
                        assert(sv[i] == bv[bi]);
                        assert(sv[j] == bv[bj]);
                    }
                    assert forall|i: int| 0 <= i < sv.len() implies 1 <= #[trigger] sv[i]
                        <= self.next_subscriber by {
                        let bi = if i < k { i } else { i + 1 };
                        assert(sv[i] == bv[bi]);
                    }
                    assert forall|i: int| 0 <= i < sv.len() implies #[trigger] sv[i]
                        != subscriber@ by {
                        let bi = if i < k { i } else { i + 1 };
                        assert(sv[i] == bv[bi]);
                        assert(bv[k as int] == subscriber@);
                    }
                }
                self.subscribers = subscribers;
                true
            },
            None => false,
        }
    }

    /// The number of current subscribers.
    pub fn subscriber_count(&self) -> (n: usize)
        ensures
            n == self.subscriber_view().len(),
    {
        self.subscribers.len()
    }

    /// Records `draft` under the next identity and returns the observation
    /// with the subscribers to offer it to, in the order they subscribed.
    /// What they answer is collected by [`ObservationDelivery::collect`]
    /// and changes nothing here.
    pub fn publish(&mut self, draft: ObservationDraft) -> (r: (Observation, Vec<SubscriberId>))
        requires
            old(self).history_view().len() < u64::MAX,
        ensures
            r.0@ == (ObservationView {
                id: (old(self).history_view().len() + 1) as u64,
                producer: draft.producer_view(),
                topic: draft.topic_view(),
                payload: draft.payload_view(),
                causation: draft.causation_view(),
                correlation: draft.correlation_view(),
            }),
            final(self).history_view() == old(self).history_view().push(r.0@),
            r.1@.map_values(|s: SubscriberId| s@) == old(self).subscriber_view(),
            rising(r.1@.map_values(|s: SubscriberId| s@)),
            final(self).subscriber_view() == old(self).subscriber_view(),
            final(self).issued_subscribers() == old(self).issued_subscribers(),
    {
        proof {
            use_type_invariant(&*self);
        }
        let ghost before = self.history_view();
        let count = self.history.len();
        assert(count == before.len());
        let id = ObservationId((count as u64) + 1);
        let observation = Observation {
            id,
            producer: draft.producer,
            topic: draft.topic,
            payload: draft.payload,
            causation: draft.causation,
            correlation: draft.correlation,
        };
        let mut history: Vec<Observation> = Vec::new();
        std::mem::swap(&mut history, &mut self.history);
        assert(self.history_view() =~= Seq::<ObservationView>::empty());
        history.push(observation.clone());
        let ghost after = history@.map_values(|o: Observation| o@);
        assert(after =~= before.push(observation@));
        self.history = history;
        let subscribers = self.current_subscribers();
        (observation, subscribers)
    }

    /// The current subscribers, in the order they subscribed.
    pub fn current_subscribers(&self) -> (v: Vec<SubscriberId>)
        ensures
            v@.map_values(|s: SubscriberId| s@) == self.subscriber_view(),
    {
        let mut v: Vec<SubscriberId> = Vec::new();
        let mut i: usize = 0;
        while i < self.subscribers.len()
            invariant
                i <= self.subscribers@.len(),
                v@ == self.subscribers@.subrange(0, i as int),
            decreases self.subscribers.len() - i,
        {
            v.push(self.subscribers[i]);
            i += 1;
            assert(v@ =~= self.subscribers@.subrange(0, i as int));
        }
        assert(v@ =~= self.subscribers@);
        v
    }

    /// Everything published so far, in order; the observation at position
    /// `i` has identity `i + 1`.
    pub fn history(&self) -> (h: Vec<Observation>)
        ensures
            h@.map_values(|o: Observation| o@) == self.history_view(),
            forall|i: int| 0 <= i < h@.len() ==> (#[trigger] h@[i])@.id == i + 1,
    {
        proof {
            use_type_invariant(self);
        }
        let mut h: Vec<Observation> = Vec::new();
        let mut i: usize = 0;
        while i < self.history.len()
            invariant
                i <= self.history@.len(),
                h@.len() == i,
                forall|j: int| 0 <= j < i ==> (#[trigger] h@[j])@ == self.history@[j]@,
            decreases self.history.len() - i,
        {
            h.push(self.history[i].clone());
            i += 1;
        }
        assert(h@.map_values(|o: Observation| o@) =~= self.history_view());
        proof {
            assert forall|i: int| 0 <= i < h@.len() implies (#[trigger] h@[i])@.id == i + 1 by {
                assert(self.history_view()[i] == h@[i]@);
            }
        }
        h
    }
}

proof fn lemma_counted(subscribers: Seq<SubscriberId>, outcomes: Seq<Result<(), String>>)
    ensures
        delivered_count(outcomes) + failures_of(subscribers, outcomes).len() == outcomes.len(),
    decreases outcomes.len(),
{
    if outcomes.len() > 0 {
        lemma_counted(subscribers, outcomes.drop_last());
    }
}

} // verus!
