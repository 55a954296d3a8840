//! Agents driven by the bridge: their id, name and safe-zone numbering.
use crate::ids::{is_v4_uuid, new_uuid, PlanId, SafeZoneId};
use vstd::prelude::*;
use vstd::string::StrSliceExecFns;

verus! {

/// The value of a decimal digit, as `char::to_digit(10)` reads it.
pub open spec fn spec_decimal_digit(c: char) -> Option<u32> {
    if '0' <= c && c <= '9' {
        Some((c as u32 - '0' as u32) as u32)
    } else {
        None
    }
}

/// The value of `c` as a decimal digit, if it is one (`'0'` to `'9'`).
pub fn decimal_digit(c: char) -> (digit: Option<u32>)
    ensures
        digit == spec_decimal_digit(c),
        digit is Some <==> '0' <= c <= '9',
        digit matches Some(d) ==> d <= 9 && d + ('0' as u32) == c as u32,
{
    if '0' <= c && c <= '9' {
        Some(c as u32 - '0' as u32)
    } else {
        None
    }
}

/// An agent's id is the decimal digit its name ends with, or 0 when the name
/// is empty or ends with something else.
pub open spec fn spec_agent_id(name: Seq<char>) -> i32 {
    if name.len() > 0 && spec_decimal_digit(name.last()) is Some {
        spec_decimal_digit(name.last())->0 as i32
    } else {
        0
    }
}

pub fn agent_id_from_name(name: &str) -> (id: i32)
    ensures
        id == spec_agent_id(name@),
        0 <= id <= 9,
        name@.len() > 0 && '0' <= name@.last() <= '9' ==> id + ('0' as u32) == name@.last() as u32,
        !(name@.len() > 0 && '0' <= name@.last() <= '9') ==> id == 0,
{
    let len = name.unicode_len();
    if len == 0 {
        return 0;
    }
    match decimal_digit(name.get_char(len - 1)) {
        Some(d) => d as i32,
        None => 0,
    }
}

/// A decimal digit character is read as the number it writes: the digit
/// added to `'0'` gives the character back, so distinct digits read as
/// distinct numbers; any other character is not a digit.
pub proof fn lemma_decimal_digit_inverse(c: char)
    ensures
        spec_decimal_digit(c) is Some <==> '0' <= c <= '9',
        spec_decimal_digit(c) matches Some(d) ==> d <= 9 && d + ('0' as u32) == c as u32,
{
}

/// An agent whose name ends in a digit has that digit as its id; any other
/// name gives id 0.
pub proof fn lemma_agent_id_is_trailing_digit(name: Seq<char>)
    ensures
        name.len() > 0 && '0' <= name.last() <= '9' ==> spec_agent_id(name) + ('0' as u32)
            == name.last() as u32,
        !(name.len() > 0 && '0' <= name.last() <= '9') ==> spec_agent_id(name) == 0,
{
}

/// An agent of the bridge.
#[derive(Clone, Debug)]
pub struct Nav2Agent {
    pub id: i32,
    pub name: String,
    pub localized: bool,
    /// The id of the last safe zone issued for this agent.
    pub last_safe_zone_id: Option<SafeZoneId>,
}

/// Whether `next` is the safe zone id issued after `last`: the same plan
/// with the next version, or, for an agent without one yet, version 1 of
/// plan version 0 of a new random session.
pub open spec fn is_next_safe_zone_id(last: Option<SafeZoneId>, next: SafeZoneId) -> bool {
    match last {
        Some(z) => next == SafeZoneId { safe_zone_version: (z.safe_zone_version + 1) as u64, ..z },
        None => {
            &&& next.plan_id.plan_version == 0
            &&& is_v4_uuid(next.plan_id.destination_session)
            &&& next.safe_zone_version == 1
        },
    }
}

impl Nav2Agent {
    /// A new, not yet localized agent; its id comes from its name.
    pub fn new(name: String) -> (agent: Self)
        ensures
            agent.id == spec_agent_id(name@),
            agent.name == name,
            !agent.localized,
            agent.last_safe_zone_id is None,
    {
        let id = agent_id_from_name(name.as_str());
        Nav2Agent { id, name, localized: false, last_safe_zone_id: None }
    }

    /// Issues the id of the agent's next safe zone and records it as the last one.
    pub fn next_safe_zone_id(&mut self) -> (id: SafeZoneId)
        requires
            old(self).last_safe_zone_id matches Some(z) ==> z.safe_zone_version < u64::MAX,
        ensures
            is_next_safe_zone_id(old(self).last_safe_zone_id, id),
            final(self).last_safe_zone_id == Some(id),
            final(self).id == old(self).id,
            final(self).name == old(self).name,
            final(self).localized == old(self).localized,
    {
        let last = match self.last_safe_zone_id {
            Some(z) => z,
            None => SafeZoneId { plan_id: PlanId::new_session(), safe_zone_version: 0 },
        };
        let id = SafeZoneId { safe_zone_version: last.safe_zone_version + 1, ..last };
        self.last_safe_zone_id = Some(id);
        id
    }
}

/// Safe zones issued one after the other for an agent belong to one plan
/// and count up by one (the version cannot pass `u64::MAX`).
pub proof fn lemma_safe_zone_ids_count_up(
    first: Option<SafeZoneId>,
    second: SafeZoneId,
    third: SafeZoneId,
)
    requires
        is_next_safe_zone_id(first, second),
        is_next_safe_zone_id(Some(second), third),
        second.safe_zone_version < u64::MAX,
    ensures
        third.plan_id == second.plan_id,
        third.safe_zone_version == second.safe_zone_version + 1,
        first is None ==> third.safe_zone_version == 2,
{
}

} // verus!
