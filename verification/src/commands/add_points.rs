//! The AddPoints command: classify the member, price the event, and append
//! it to the member's ledger.

use vstd::prelude::*;
use vstd::string::StringExecFns;

use crate::adapters::memory::LedgerModel;
use crate::decimal::dec_str;
use crate::decimal::u32_to_decimal;
use crate::domain::LoyaltyEvent;
use crate::domain::Member;
use crate::domain::Tier;
use crate::domain::spec_ratio;
use crate::domain::spec_tier;
use crate::ports::member::UtcDate;

use super::DomainLogic;
use super::Error;

verus! {

/// A request to add points to one member's ledger.
pub struct AddPointsRequest {
    pub member_id: u128,
    pub event: AddPointsEvent,
}

/// The business event the points are added for.
pub enum AddPointsEvent {
    /// The member continues their membership for another month.
    MembershipRenewed,
    /// The member makes a purchase in a physical store. The amount is the
    /// purchase's worth in whole currency units, truncated toward zero.
    InStorePurchase { purchase_amount: i32 },
    /// The member makes a purchase online. The amount is the purchase's
    /// worth in whole currency units, truncated toward zero.
    OnlinePurchase { purchase_amount: i32 },
    /// Manually adding points, e.g. for support.
    Manual { loyalty_points: u32, reason: Option<String> },
}

impl AddPointsEvent {
    /// The reason string recorded for this event: a fixed text per event
    /// kind, or the supplied text of a manual addition when it is present.
    pub open spec fn spec_reason(self) -> Seq<char> {
        match self {
            AddPointsEvent::MembershipRenewed => "Membership renewed"@,
            AddPointsEvent::InStorePurchase { .. } => "In-store purchase"@,
            AddPointsEvent::OnlinePurchase { .. } => "Online purchase"@,
            AddPointsEvent::Manual { reason, .. } => match reason {
                Option::Some(r) => r@,
                Option::None => "Manual addition"@,
            },
        }
    }

    pub fn reason(&self) -> (r: String)
        ensures
            r@ == self.spec_reason(),
    {
        match self {
            AddPointsEvent::MembershipRenewed => String::from_str("Membership renewed"),
            AddPointsEvent::InStorePurchase { .. } => String::from_str("In-store purchase"),
            AddPointsEvent::OnlinePurchase { .. } => String::from_str("Online purchase"),
            AddPointsEvent::Manual { reason, .. } => match reason {
                Some(r) => r.clone(),
                None => String::from_str("Manual addition"),
            },
        }
    }
}

/// The transition the command performed.
#[derive(Debug, PartialEq, Eq, Structural)]
pub struct AddPointsResponse {
    pub member_id: u128,
    pub tier: Tier,
    /// Previous number of loyalty points.
    pub old_loyalty_points: u32,
    /// New number of loyalty points.
    pub new_loyalty_points: u32,
}

/// How many points the event is worth for a member of the given tier:
/// a fixed amount for a renewal, the truncated purchase amount times the
/// tier's ratio for a purchase, and the supplied amount for a manual
/// addition.
pub open spec fn spec_delta(tier: Tier, event: AddPointsEvent) -> int {
    match event {
        AddPointsEvent::MembershipRenewed => 290,
        AddPointsEvent::InStorePurchase { purchase_amount } => purchase_amount * spec_ratio(tier),
        AddPointsEvent::OnlinePurchase { purchase_amount } => purchase_amount * spec_ratio(tier),
        AddPointsEvent::Manual { loyalty_points, .. } => loyalty_points as int,
    }
}

/// The whole months between `since` and `now`, counted on calendar
/// components only: years apart, times twelve, plus the difference of the
/// month numbers counted from `since` to `now`.
pub open spec fn spec_months_between(since: UtcDate, now: UtcDate) -> int {
    (now.year - since.year) * 12 + since.month - now.month
}

/// The message of the `InvalidState` error raised when the month arithmetic
/// comes out negative.
pub open spec fn invalid_state_message(months_past: nat) -> Seq<char> {
    "start date is "@ + dec_str(months_past) + " month(s) in the past"@
}

fn build_invalid_state_message(months_past: u32) -> (s: String)
    ensures
        s@ == invalid_state_message(months_past as nat),
{
    let mut s = String::from_str("start date is ");
    let digits = u32_to_decimal(months_past);
    s.append(digits.as_str());
    s.append(" month(s) in the past");
    proof {
        assert(s@ =~= invalid_state_message(months_past as nat));
    }
    s
}

/// Months since the provided date.
pub fn months_since(date: UtcDate, now: UtcDate) -> (r: Result<u32, Error>)
    requires
        date.wf(),
        now.wf(),
    ensures
        spec_months_between(date, now) >= 0 ==> (r matches Ok(m) && m == spec_months_between(
            date,
            now,
        )),
        spec_months_between(date, now) < 0 ==> (r matches Err(e) && (e
            matches Error::InvalidState(msg) && msg@ == invalid_state_message(
            (-spec_months_between(date, now)) as nat,
        ))),
{
    let months: i32 = (now.year - date.year) * 12 + date.month as i32 - now.month as i32;

    if months < 0 {
        return Err(Error::InvalidState(build_invalid_state_message((-months) as u32)));
    }

    Ok(months as u32)
}

const MEMBERSHIP_RENEWED_POINTS: i32 = 290;

/// Relies on uuid's `Uuid::new_v4`: a freshly generated random UUID, carried
/// as its 128-bit value. Nothing can be promised of a random identifier.
#[verifier::external_body]
fn fresh_event_id() -> u128 {
    uuid::Uuid::new_v4().as_u128()
}

/// Build the loyalty event for the given tier and business event: a fresh
/// event id, the delta the pricing rule assigns, and the reason string.
pub fn create_event(tier: &Tier, input: &AddPointsEvent) -> (e: LoyaltyEvent)
    requires
        i32::MIN <= spec_delta(*tier, *input) <= i32::MAX,
    ensures
        e.delta_points == spec_delta(*tier, *input),
        e.reason@ == input.spec_reason(),
{
    let delta_points: i32 = match input {
        AddPointsEvent::MembershipRenewed => MEMBERSHIP_RENEWED_POINTS,
        AddPointsEvent::InStorePurchase { purchase_amount } => *purchase_amount * tier.ratio(),
        AddPointsEvent::OnlinePurchase { purchase_amount } => *purchase_amount * tier.ratio(),
        AddPointsEvent::Manual { loyalty_points, .. } => *loyalty_points as i32,
    };

    LoyaltyEvent { event_id: fresh_event_id(), delta_points, reason: input.reason() }
}

/// The directory data admits the month arithmetic: an inactive member
/// always does; an active one only when the months come out non-negative.
pub open spec fn months_in_range(dm: crate::ports::member::Member, now: UtcDate) -> bool {
    dm.active_member ==> spec_months_between(dm.membership_since, now) >= 0
}

/// The membership months the handler derives from the directory data:
/// absent for an inactive member. Meaningful when `months_in_range` holds.
pub open spec fn spec_months_opt(dm: crate::ports::member::Member, now: UtcDate) -> Option<u32> {
    if dm.active_member {
        Option::Some(spec_months_between(dm.membership_since, now) as u32)
    } else {
        Option::None
    }
}

/// The tier the handler derives from the directory data.
pub open spec fn spec_tier_of(dm: crate::ports::member::Member, now: UtcDate) -> Tier {
    spec_tier(spec_months_opt(dm, now))
}

impl DomainLogic {
    /// Handle one AddPoints request, given the directory's record for the
    /// member and the current UTC time.
    ///
    /// On success exactly one event is appended to the member's ledger; on
    /// any error path the store is unchanged.
    pub fn call(
        &mut self,
        req: AddPointsRequest,
        directory_member: crate::ports::member::Member,
        now: UtcDate,
    ) -> (r: Result<AddPointsResponse, Error>)
        requires
            old(self).db().wf(),
            directory_member.membership_since.wf(),
            now.wf(),
            months_in_range(directory_member, now) ==> {
                let tier = spec_tier_of(directory_member, now);
                &&& i32::MIN <= spec_delta(tier, req.event) <= i32::MAX
                &&& old(self).db().spec_points(directory_member.member_id) + spec_delta(
                    tier,
                    req.event,
                ) <= u32::MAX
            },
        ensures
            final(self).db().wf(),
            !months_in_range(directory_member, now) ==> {
                &&& final(self).db() == old(self).db()
                &&& r matches Err(Error::InvalidState(msg)) && msg@ == invalid_state_message(
                    (-spec_months_between(directory_member.membership_since, now)) as nat,
                )
            },
            months_in_range(directory_member, now) ==> {
                let id = directory_member.member_id;
                let tier = spec_tier_of(directory_member, now);
                let delta = spec_delta(tier, req.event);
                let old_points = old(self).db().spec_points(id);
                &&& old_points + delta < 0 ==> {
                    &&& final(self).db() == old(self).db()
                    &&& r matches Err(Error::Database(
                        crate::ports::database::Error::NegativePointsTotal {
                            current_points,
                            delta_points,
                        },
                    )) && current_points == old_points && delta_points == delta
                }
                &&& old_points + delta >= 0 ==> (r matches Ok(resp) && {
                    &&& resp.member_id == id
                    &&& resp.tier == tier
                    &&& resp.old_loyalty_points == old_points
                    &&& resp.new_loyalty_points == old_points + delta
                    &&& final(self).db().spec_points(id) == old_points + delta
                    &&& final(self).db().spec_events(id).drop_last() == old(self).db().spec_events(
                        id,
                    )
                    &&& final(self).db().spec_events(id).len() == old(self).db().spec_events(
                        id,
                    ).len() + 1
                    &&& final(self).db().spec_events(id).last().delta_points == delta
                    &&& final(self).db().spec_events(id).last().reason@ == req.event.spec_reason()
                    &&& final(self).db().loyalties().remove(id) == old(self).db().loyalties().remove(
                        id,
                    )
                })
            },
    {
        // Fetch the loyalty data the handler bases its response on
        let loyalty = match self.database.get_loyalty_points(directory_member.member_id) {
            Ok(l) => l,
            Err(e) => {
                return Err(Error::Database(e));
            },
        };

        // Create a Member object
        let membership_months: Option<u32> = if directory_member.active_member {
            match months_since(directory_member.membership_since, now) {
                Ok(m) => Some(m),
                Err(e) => {
                    return Err(e);
                },
            }
        } else {
            None
        };
        let member = Member::new(directory_member.member_id, membership_months, loyalty.points);

        // Create and store the new loyalty event
        let tier = member.tier();
        let event = create_event(&tier, &req.event);
        let updated_loyalty = match self.database.register_loyalty_event(
            directory_member.member_id,
            event,
        ) {
            Ok(l) => l,
            Err(e) => {
                return Err(Error::Database(e));
            },
        };

        proof {
            let id = directory_member.member_id;
            assert(updated_loyalty.events@.drop_last() =~= old(self).db().spec_events(id));
            assert(self.db().loyalties().remove(id) =~= old(self).db().loyalties().remove(id));
        }

        // Return the response
        Ok(
            AddPointsResponse {
                member_id: directory_member.member_id,
                tier,
                old_loyalty_points: loyalty.points,
                new_loyalty_points: updated_loyalty.points,
            },
        )
    }
}

} // verus!
