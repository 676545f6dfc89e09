//! Reference in-process loyalty store: a process-local mapping from member id
//! to that member's loyalty ledger.

use vstd::prelude::*;
use std::collections::HashMap;

use crate::domain::Loyalty;
use crate::domain::LoyaltyEvent;
use crate::domain::sum_deltas;
use crate::domain::lemma_sum_deltas_push;
use crate::domain::lemma_prefix_sums_nonneg_push;
use crate::ports::database::Error;

verus! {

broadcast use vstd::std_specs::hash::group_hash_axioms;

/// What the store holds for one member, as the contracts see it: the point
/// total and the ledger of events.
pub ghost struct LedgerModel {
    pub points: u32,
    pub events: Seq<LoyaltyEvent>,
}

impl LedgerModel {
    /// The point total is the signed sum of the event deltas, and no prefix
    /// of the ledger sums to a negative total.
    pub open spec fn wf(self) -> bool {
        &&& self.points == sum_deltas(self.events)
        &&& crate::domain::prefix_sums_nonneg(self.events)
    }
}

/// In-process store of every member's loyalty ledger.
#[derive(Debug)]
pub struct MemoryDatabase {
    loyalties: HashMap<u128, Loyalty>,
}

impl MemoryDatabase {
    /// The stored ledgers, one per member id that has one.
    pub closed spec fn loyalties(self) -> Map<u128, LedgerModel> {
        self.loyalties@.map_values(
            |l: Loyalty| LedgerModel { points: l.points, events: l.events@ },
        )
    }

    /// Every stored ledger belongs to the member it is keyed under and is
    /// well-formed.
    pub closed spec fn wf(self) -> bool {
        forall|k: u128| #[trigger]
            self.loyalties@.dom().contains(k) ==> self.loyalties@[k].member_id == k
                && self.loyalties@[k].wf()
    }

    /// The point total the store holds for a member; zero when it holds no
    /// ledger for them.
    pub open spec fn spec_points(self, member_id: u128) -> u32 {
        if self.loyalties().dom().contains(member_id) {
            self.loyalties()[member_id].points
        } else {
            0
        }
    }

    /// The events the store holds for a member, in insertion order; empty
    /// when it holds no ledger for them.
    pub open spec fn spec_events(self, member_id: u128) -> Seq<LoyaltyEvent> {
        if self.loyalties().dom().contains(member_id) {
            self.loyalties()[member_id].events
        } else {
            Seq::empty()
        }
    }

    /// What a read hands back for a member: a detached copy of that member's
    /// ledger, fresh and empty when the store holds none.
    pub open spec fn read_result(self, member_id: u128, l: Loyalty) -> bool {
        &&& l.member_id == member_id
        &&& l.points == self.spec_points(member_id)
        &&& l.events@ == self.spec_events(member_id)
    }

    /// Current loyalty data of a member. A member without a ledger yields a
    /// fresh one with zero points: a read never fails with "not found".
    pub fn get_loyalty_points(&self, member_id: u128) -> (r: Result<Loyalty, Error>)
        requires
            self.wf(),
        ensures
            r is Ok,
            r matches Ok(l) ==> self.read_result(member_id, l) && l.wf(),
    {
        let loyalty = match self.loyalties.get(&member_id) {
            Some(l) => l.clone(),
            None => Loyalty::new(member_id),
        };
        Ok(loyalty)
    }

    /// Atomically append one event to a member's ledger.
    ///
    /// The new total is the current total plus the event's delta, in signed
    /// arithmetic. A delta that would drive the total below zero is rejected
    /// with `NegativePointsTotal` and the store is left unchanged; otherwise
    /// the event is appended at the tail and the total updated, and the
    /// returned ledger reflects the post-append state.
    pub fn register_loyalty_event(&mut self, member_id: u128, event: LoyaltyEvent) -> (r: Result<
        Loyalty,
        Error,
    >)
        requires
            old(self).wf(),
            old(self).spec_points(member_id) + event.delta_points <= u32::MAX,
        ensures
            final(self).wf(),
            r is Ok <==> old(self).spec_points(member_id) + event.delta_points >= 0,
            r matches Ok(l) ==> {
                &&& l.member_id == member_id
                &&& l.points == old(self).spec_points(member_id) + event.delta_points
                &&& l.events@ == old(self).spec_events(member_id).push(event)
                &&& l.wf()
                &&& final(self).loyalties() == old(self).loyalties().insert(
                    member_id,
                    LedgerModel { points: l.points, events: l.events@ },
                )
            },
            r matches Err(e) ==> {
                &&& *final(self) == *old(self)
                &&& e matches Error::NegativePointsTotal { current_points, delta_points }
                    && current_points == old(self).spec_points(member_id) && delta_points
                    == event.delta_points
            },
    {
        let mut loyalty = match self.loyalties.get(&member_id) {
            Some(l) => l.clone(),
            None => Loyalty::new(member_id),
        };
        let new_points: i64 = loyalty.points as i64 + event.delta_points as i64;
        // Return an error if this would make the number of loyalty points negative
        if new_points < 0 {
            return Err(
                Error::NegativePointsTotal {
                    current_points: loyalty.points,
                    delta_points: event.delta_points,
                },
            );
        }
        proof {
            lemma_sum_deltas_push(loyalty.events@, event);
            lemma_prefix_sums_nonneg_push(loyalty.events@, event);
        }
        loyalty.points = new_points as u32;
        loyalty.events.push(event);
        let result = loyalty.clone();
        self.loyalties.insert(member_id, loyalty);
        proof {
            assert(self.loyalties() =~= old(self).loyalties().insert(
                member_id,
                LedgerModel { points: result.points, events: result.events@ },
            ));
        }
        Ok(result)
    }
}

impl Default for MemoryDatabase {
    /// A store holding no ledger for any member.
    fn default() -> (db: Self)
        ensures
            db.loyalties() == Map::<u128, LedgerModel>::empty(),
            db.wf(),
    {
        let db = MemoryDatabase { loyalties: HashMap::new() };
        proof {
            assert(db.loyalties() =~= Map::<u128, LedgerModel>::empty());
        }
        db
    }
}

/// In a well-formed store, every member's ledger obeys the ledger laws: the
/// stored point total is the signed sum of the stored events' deltas, and no
/// prefix of the stored events sums to a negative total.
pub proof fn lemma_store_ledger_laws(db: MemoryDatabase, member_id: u128)
    requires
        db.wf(),
    ensures
        db.spec_points(member_id) == sum_deltas(db.spec_events(member_id)),
        crate::domain::prefix_sums_nonneg(db.spec_events(member_id)),
{
    if !db.loyalties().dom().contains(member_id) {
        assert forall|i: int| 0 <= i <= db.spec_events(member_id).len() implies sum_deltas(
            #[trigger] db.spec_events(member_id).take(i),
        ) >= 0 by {
            assert(db.spec_events(member_id).take(i) =~= Seq::<LoyaltyEvent>::empty());
        }
    }
}

/// Idempotent reads: two reads of the same member with no write in between
/// hand back equal loyalty data.
pub proof fn lemma_idempotent_reads(db: MemoryDatabase, member_id: u128, a: Loyalty, b: Loyalty)
    requires
        db.read_result(member_id, a),
        db.read_result(member_id, b),
    ensures
        a.member_id == b.member_id,
        a.points == b.points,
        a.events@ == b.events@,
{
}

/// Erased lock-poisoning error.
///
/// A host that shares the store across tasks behind a mutual-exclusion
/// primitive must not let its guard types cross the port boundary; it keeps
/// the string representation of the failure instead.
#[derive(Debug)]
pub struct ErasedPoisonError {
    description: String,
}

impl ErasedPoisonError {
    /// The erased description of the failure.
    pub closed spec fn spec_description(self) -> Seq<char> {
        self.description@
    }

    pub fn new(description: String) -> (e: Self)
        ensures
            e.spec_description() == description@,
    {
        ErasedPoisonError { description }
    }

    pub fn message(&self) -> (m: &str)
        ensures
            m@ == self.spec_description(),
    {
        self.description.as_str()
    }
}

} // verus!
