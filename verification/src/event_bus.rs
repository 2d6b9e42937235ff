//! Cross-subsystem effects flow through explicit event records: a
//! subscriber registers interest in an event type, `emit` enqueues one
//! delivery record per matching subscription, and the owner of the bus
//! drains the queue and applies the payloads.

use vstd::prelude::*;

verus! {

#[derive(Clone, Debug)]
pub enum EventType {
    Damage,
    Heal,
    Custom(String),
}

#[derive(Clone, Debug)]
pub enum EventPayload {
    Damage { amount: u32 },
    Heal { amount: u32 },
    Custom(String),
}

/// Two event types address the same subscribers.
pub open spec fn et_eq(a: EventType, b: EventType) -> bool {
    match a {
        EventType::Damage => b is Damage,
        EventType::Heal => b is Heal,
        EventType::Custom(x) => b matches EventType::Custom(y) && x@ == y@,
    }
}

/// How many registered subscriptions match `et`, among the first `n`.
pub open spec fn sub_count_prefix(subs: Seq<EventType>, et: EventType, n: int) -> int
    decreases n,
{
    if n <= 0 {
        0
    } else {
        sub_count_prefix(subs, et, n - 1) + if et_eq(subs[n - 1], et) {
            1int
        } else {
            0int
        }
    }
}

/// How many registered subscriptions match `et`.
pub open spec fn sub_count(subs: Seq<EventType>, et: EventType) -> int {
    sub_count_prefix(subs, et, subs.len() as int)
}

pub proof fn lemma_sub_count_prefix_nonneg(subs: Seq<EventType>, et: EventType, n: int)
    ensures
        sub_count_prefix(subs, et, n) >= 0,
    decreases n,
{
    if n > 0 {
        lemma_sub_count_prefix_nonneg(subs, et, n - 1);
    }
}

pub struct EventBus {
    pub subscriptions: Vec<EventType>,
    pub queue: Vec<(EventType, EventPayload)>,
}

/// An exact copy of an event type.
fn dup_event(e: &EventType) -> (r: EventType)
    ensures
        r == *e,
{
    match e {
        EventType::Damage => EventType::Damage,
        EventType::Heal => EventType::Heal,
        EventType::Custom(s) => EventType::Custom(s.clone()),
    }
}

/// An exact copy of a payload.
fn dup_payload(p: &EventPayload) -> (r: EventPayload)
    ensures
        r == *p,
{
    match p {
        EventPayload::Damage { amount } => EventPayload::Damage { amount: *amount },
        EventPayload::Heal { amount } => EventPayload::Heal { amount: *amount },
        EventPayload::Custom(s) => EventPayload::Custom(s.clone()),
    }
}

/// Whether two event types address the same subscribers.
fn matches_type(a: &EventType, b: &EventType) -> (r: bool)
    ensures
        r == et_eq(*a, *b),
{
    match (a, b) {
        (EventType::Damage, EventType::Damage) => true,
        (EventType::Heal, EventType::Heal) => true,
        (EventType::Custom(x), EventType::Custom(y)) => x.eq(y),
        _ => false,
    }
}

impl EventBus {
    pub fn new() -> (r: EventBus)
        ensures
            r.subscriptions@.len() == 0,
            r.queue@.len() == 0,
    {
        EventBus { subscriptions: Vec::new(), queue: Vec::new() }
    }

    /// Register one more subscriber for `event`; each subscription receives
    /// its own delivery record on every later matching `emit`.
    pub fn subscribe(&mut self, event: EventType)
        ensures
            final(self).subscriptions@ == old(self).subscriptions@.push(event),
            final(self).queue@ == old(self).queue@,
    {
        self.subscriptions.push(event);
    }

    /// Deliver `payload` to every subscription matching `event`: one record
    /// per matching subscription is appended to the queue, for the bus's
    /// owner to drain and apply.
    pub fn emit(&mut self, event: &EventType, payload: &EventPayload)
        ensures
            final(self).subscriptions@ == old(self).subscriptions@,
            final(self).queue@ == old(self).queue@ + Seq::new(
                sub_count(old(self).subscriptions@, *event) as nat,
                |k: int| (*event, *payload),
            ),
    {
        let ghost subs = self.subscriptions@;
        let ghost q0 = self.queue@;
        proof {
            lemma_sub_count_prefix_nonneg(subs, *event, 0);
        }
        let mut j: usize = 0;
        while j < self.subscriptions.len()
            invariant
                subs == self.subscriptions@,
                0 <= j <= subs.len(),
                sub_count_prefix(subs, *event, j as int) >= 0,
                self.queue@ == q0 + Seq::new(
                    sub_count_prefix(subs, *event, j as int) as nat,
                    |k: int| (*event, *payload),
                ),
            decreases subs.len() - j,
        {
            proof {
                lemma_sub_count_prefix_nonneg(subs, *event, j + 1);
            }
            let sub = &self.subscriptions[j];
            if matches_type(sub, event) {
                let e = dup_event(event);
                let p = dup_payload(payload);
                self.queue.push((e, p));
                proof {
                    assert(self.queue@ =~= q0 + Seq::new(
                        sub_count_prefix(subs, *event, j + 1) as nat,
                        |k: int| (*event, *payload),
                    ));
                }
            } else {
                proof {
                    assert(self.queue@ =~= q0 + Seq::new(
                        sub_count_prefix(subs, *event, j + 1) as nat,
                        |k: int| (*event, *payload),
                    ));
                }
            }
            j = j + 1;
        }
    }

    /// Hand over everything delivered so far and empty the queue.
    pub fn take_events(&mut self) -> (r: Vec<(EventType, EventPayload)>)
        ensures
            r@ == old(self).queue@,
            final(self).queue@.len() == 0,
            final(self).subscriptions@ == old(self).subscriptions@,
    {
        let mut out: Vec<(EventType, EventPayload)> = Vec::new();
        core::mem::swap(&mut out, &mut self.queue);
        out
    }
}

} // verus!
