//! Core domain values: members, tiers, loyalty ledgers and loyalty events.

use vstd::prelude::*;

verus! {

/// A member of the loyalty program, assembled per request.
pub struct Member {
    /// Unique identifier for the `Member` (a UUID carried as its 128-bit
    /// value). This is also used by other services.
    pub member_id: u128,
    /// Number of continuous months of membership.
    ///
    /// This is `None` if the person is not an active member anymore.
    membership_months: Option<u32>,
    /// Number of accrued loyalty points.
    loyalty_points: u32,
}

/// Tier of a member, derived from the continuous months of membership.
#[derive(Debug, PartialEq, Eq, Structural, Clone, Copy)]
pub enum Tier {
    NoTier,
    Basic,
    Silver,
    Gold,
    Platinum,
}

/// The tier a member with the given continuous months of membership holds:
/// `None` months means no membership; then each of the first three years of
/// membership is one tier, and everything beyond is the highest.
pub open spec fn spec_tier(membership_months: Option<u32>) -> Tier {
    match membership_months {
        Option::None => Tier::NoTier,
        Option::Some(m) => if m <= 11 {
            Tier::Basic
        } else if m <= 23 {
            Tier::Silver
        } else if m <= 35 {
            Tier::Gold
        } else {
            Tier::Platinum
        },
    }
}

/// Points earned per whole currency unit of a purchase, by tier.
pub open spec fn spec_ratio(tier: Tier) -> i32 {
    match tier {
        Tier::NoTier => 0,
        Tier::Basic => 10,
        Tier::Silver => 12,
        Tier::Gold => 15,
        Tier::Platinum => 20,
    }
}

impl Member {
    pub fn new(member_id: u128, membership_months: Option<u32>, loyalty_points: u32) -> (m: Self)
        ensures
            m.id() == member_id,
            m.membership_months() == membership_months,
            m.loyalty_points() == loyalty_points,
    {
        Self { member_id, membership_months, loyalty_points }
    }

    /// Unique identifier of the member.
    pub closed spec fn id(self) -> u128 {
        self.member_id
    }

    /// Continuous months of membership, absent for inactive members.
    pub closed spec fn membership_months(self) -> Option<u32> {
        self.membership_months
    }

    /// Current loyalty point total the member was built with.
    pub closed spec fn loyalty_points(self) -> u32 {
        self.loyalty_points
    }

    /// The member's tier, total over every membership state.
    pub fn tier(&self) -> (t: Tier)
        ensures
            t == spec_tier(self.membership_months()),
    {
        match self.membership_months {
            // Non-members
            Option::None => Tier::NoTier,
            // First year of continuous membership
            Option::Some(m) => if m <= 11 {
                Tier::Basic
            } else if m <= 23 {
                // Second year of continuous membership
                Tier::Silver
            } else if m <= 35 {
                // Third year of continuous membership
                Tier::Gold
            } else {
                // Fourth year and more
                Tier::Platinum
            },
        }
    }
}

impl Tier {
    pub fn ratio(&self) -> (r: i32)
        ensures
            r == spec_ratio(*self),
    {
        match self {
            Tier::NoTier => 0,
            Tier::Basic => 10,
            Tier::Silver => 12,
            Tier::Gold => 15,
            Tier::Platinum => 20,
        }
    }
}

/// Tier totality: every value of `membership_months`, absent included, is
/// classified, and exactly as the tier table says.
pub proof fn lemma_tier_totality(membership_months: Option<u32>)
    ensures
        membership_months is None ==> spec_tier(membership_months) == Tier::NoTier,
        forall|m: u32|
            membership_months == Some(m) ==> spec_tier(membership_months) == (if m <= 11 {
                Tier::Basic
            } else if m <= 23 {
                Tier::Silver
            } else if m <= 35 {
                Tier::Gold
            } else {
                Tier::Platinum
            }),
{
}

/// Details for a loyalty event.
#[derive(Debug)]
pub struct LoyaltyEvent {
    /// Identifier of the event (a UUID carried as its 128-bit value).
    pub event_id: u128,
    /// Difference in points.
    ///
    /// A positive number adds points to the current total. A negative number
    /// removes from it.
    pub delta_points: i32,
    /// Message explaining the reason for this event.
    ///
    /// Since the reasons could evolve over time, we log this as a string
    /// instead of an enum.
    pub reason: String,
}

impl Clone for LoyaltyEvent {
    /// A clone is equal to the original, fields included.
    fn clone(&self) -> (res: Self)
        ensures
            res == *self,
    {
        LoyaltyEvent {
            event_id: self.event_id,
            delta_points: self.delta_points,
            reason: self.reason.clone(),
        }
    }
}

/// Loyalty data about a member.
#[derive(Debug)]
pub struct Loyalty {
    /// Identifier of the member (a UUID carried as its 128-bit value).
    pub member_id: u128,
    /// Current amount of loyalty points.
    pub points: u32,
    /// Loyalty events for the user.
    pub events: Vec<LoyaltyEvent>,
}

/// Signed sum of the `delta_points` of a sequence of events.
pub open spec fn sum_deltas(events: Seq<LoyaltyEvent>) -> int
    decreases events.len(),
{
    if events.len() == 0 {
        0
    } else {
        sum_deltas(events.drop_last()) + events.last().delta_points
    }
}

/// Every prefix of the ledger sums to a non-negative total: no accepted
/// event ever drove the running total below zero.
pub open spec fn prefix_sums_nonneg(events: Seq<LoyaltyEvent>) -> bool {
    forall|i: int| 0 <= i <= events.len() ==> #[trigger] sum_deltas(events.take(i)) >= 0
}

impl Loyalty {
    /// A well-formed ledger: the point total is exactly the signed sum of the
    /// event deltas, and no prefix of the ledger sums to a negative total.
    pub open spec fn wf(self) -> bool {
        &&& self.points == sum_deltas(self.events@)
        &&& prefix_sums_nonneg(self.events@)
    }

    /// A fresh, empty ledger with zero points.
    pub fn new(member_id: u128) -> (l: Self)
        ensures
            l.member_id == member_id,
            l.points == 0,
            l.events@ =~= Seq::<LoyaltyEvent>::empty(),
            l.wf(),
    {
        let l = Self { member_id, points: 0, events: Vec::new() };
        proof {
            assert(l.events@.take(0) =~= Seq::<LoyaltyEvent>::empty());
        }
        l
    }
}

impl Clone for Loyalty {
    /// A clone carries the same member, the same point total and the same
    /// event ledger as the original.
    fn clone(&self) -> (res: Self)
        ensures
            res.member_id == self.member_id,
            res.points == self.points,
            res.events@ == self.events@,
    {
        let events = self.events.clone();
        proof {
            assert(events@ =~= self.events@);
        }
        Loyalty { member_id: self.member_id, points: self.points, events }
    }
}

/// Sum law: on a well-formed ledger, the point total equals the signed sum of
/// the events' deltas.
pub proof fn lemma_sum_law(l: Loyalty)
    requires
        l.wf(),
    ensures
        l.points == sum_deltas(l.events@),
{
}

/// Appending one event adds its delta to the signed sum of the ledger.
pub proof fn lemma_sum_deltas_push(events: Seq<LoyaltyEvent>, e: LoyaltyEvent)
    ensures
        sum_deltas(events.push(e)) == sum_deltas(events) + e.delta_points,
{
    assert(events.push(e).drop_last() =~= events);
}

/// Appending one event whose delta keeps the total non-negative keeps every
/// prefix sum of the ledger non-negative.
pub proof fn lemma_prefix_sums_nonneg_push(events: Seq<LoyaltyEvent>, e: LoyaltyEvent)
    requires
        prefix_sums_nonneg(events),
        sum_deltas(events) + e.delta_points >= 0,
    ensures
        prefix_sums_nonneg(events.push(e)),
{
    assert forall|i: int| 0 <= i <= events.push(e).len() implies #[trigger] sum_deltas(
        events.push(e).take(i),
    ) >= 0 by {
        if i <= events.len() {
            assert(events.push(e).take(i) =~= events.take(i));
        } else {
            assert(events.push(e).take(i) =~= events.push(e));
            lemma_sum_deltas_push(events, e);
        }
    }
}

/// Non-negativity: on a well-formed ledger, the running total after each
/// accepted event (the sum of each prefix of the ledger) is non-negative.
pub proof fn lemma_running_total_nonneg(l: Loyalty, i: int)
    requires
        l.wf(),
        0 <= i <= l.events@.len(),
    ensures
        sum_deltas(l.events@.take(i)) >= 0,
{
}

} // verus!
