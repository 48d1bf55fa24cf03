//! Wire-payload bounds for in-game `GameAction` bodies.
//!
//! The engine validates action *legality*, but a client controls the *size* of
//! the lists and strings inside a `GameAction`, and those reach clone-heavy
//! reducers before legality is fully resolved. This guard rejects adversarial
//! multi-thousand-entry payloads up front.
//!
//! The caps are deliberately generous, far above any realistic game state, so
//! they never reject legitimate play; they only block payloads engineered to
//! force large allocations or clones.

use vstd::prelude::*;
use vstd::utf8::encode_utf8;

use crate::decimal::{decimal, push_decimal};
use crate::types::GameAction;

verus! {

/// Max number of entries accepted in any single client-supplied action list
/// (targets, attackers, blockers, selections, reorder permutations, pile
/// partitions, distributions, ...).
pub const MAX_ACTION_LIST_LEN: usize = 10000;

/// Max length, in bytes, of a free-form choice string on the wire (a chosen
/// option, named card or mode label).
pub const MAX_CHOICE_LEN: usize = 256;

/// The message that rejects the list `field` of `len` entries.
pub open spec fn list_bound_message(field: Seq<char>, len: nat) -> Seq<char> {
    field + " has "@ + decimal(len) + " entries; at most "@ + decimal(
        MAX_ACTION_LIST_LEN as nat,
    ) + " allowed"@
}

/// The message that rejects a choice string of `len` bytes.
pub open spec fn choice_bound_message(len: nat) -> Seq<char> {
    "ChooseOption.choice is "@ + decimal(len) + " bytes; at most "@ + decimal(
        MAX_CHOICE_LEN as nat,
    ) + " allowed"@
}

/// The verdict on one list: over the cap, it is rejected with its message.
pub open spec fn list_verdict(field: Seq<char>, len: nat) -> Result<(), Seq<char>> {
    if len > MAX_ACTION_LIST_LEN {
        Err(list_bound_message(field, len))
    } else {
        Ok(())
    }
}

/// The length in bytes of a string's UTF-8 encoding.
pub open spec fn utf8_len(s: Seq<char>) -> nat {
    encode_utf8(s).len()
}

/// Every string of the action has a byte length that a `usize` can count,
/// as holds of every string in memory.
pub open spec fn byte_lengths_fit(action: GameAction) -> bool {
    match action {
        GameAction::ChooseOption { choice } => utf8_len(choice@) <= usize::MAX,
        _ => true,
    }
}

/// The verdict of the guard on an action: the first list over the cap, in the
/// order the guard checks them, or an over-long choice string, is reported;
/// anything else is accepted.
pub open spec fn payload_verdict(action: GameAction) -> Result<(), Seq<char>> {
    match action {
        GameAction::CastSpell { targets, .. } => list_verdict(
            "CastSpell.targets"@,
            targets.len() as nat,
        ),
        GameAction::CastSpellWithPaymentMode { targets, .. } => list_verdict(
            "CastSpell.targets"@,
            targets.len() as nat,
        ),
        GameAction::SelectTargets { targets } => list_verdict(
            "SelectTargets.targets"@,
            targets.len() as nat,
        ),
        GameAction::DeclareAttackers { attacks } => list_verdict(
            "DeclareAttackers.attacks"@,
            attacks.len() as nat,
        ),
        GameAction::DeclareBlockers { assignments } => list_verdict(
            "DeclareBlockers.assignments"@,
            assignments.len() as nat,
        ),
        GameAction::AssignCombatDamage { assignments, .. } => list_verdict(
            "AssignCombatDamage.assignments"@,
            assignments.len() as nat,
        ),
        GameAction::ReorderHand { order } => list_verdict(
            "ReorderHand.order"@,
            order.len() as nat,
        ),
        GameAction::OrderTriggers { order } => list_verdict(
            "OrderTriggers.order"@,
            order.len() as nat,
        ),
        GameAction::SelectCards { cards } => list_verdict(
            "SelectCards.cards"@,
            cards.len() as nat,
        ),
        GameAction::SelectCoinFlips { keep_indices } => list_verdict(
            "SelectCoinFlips.keep_indices"@,
            keep_indices.len() as nat,
        ),
        GameAction::SelectModes { indices } => list_verdict(
            "SelectModes.indices"@,
            indices.len() as nat,
        ),
        GameAction::ChooseOutsideGameCards { selections } => list_verdict(
            "ChooseOutsideGameCards.selections"@,
            selections.len() as nat,
        ),
        GameAction::ChooseCounterMoveDistribution { selections } => list_verdict(
            "ChooseCounterMoveDistribution.selections"@,
            selections.len() as nat,
        ),
        GameAction::CrewVehicle { creature_ids, .. } => list_verdict(
            "CrewVehicle.creature_ids"@,
            creature_ids.len() as nat,
        ),
        GameAction::SaddleMount { creature_ids, .. } => list_verdict(
            "SaddleMount.creature_ids"@,
            creature_ids.len() as nat,
        ),
        GameAction::SubmitSideboard { main, sideboard } => {
            if main.len() > MAX_ACTION_LIST_LEN {
                list_verdict("SubmitSideboard.main"@, main.len() as nat)
            } else {
                list_verdict("SubmitSideboard.sideboard"@, sideboard.len() as nat)
            }
        },
        GameAction::SubmitPilePartition { pile_a, .. } => list_verdict(
            "SubmitPilePartition.pile_a"@,
            pile_a.len() as nat,
        ),
        GameAction::SetPhaseStops { stops } => list_verdict(
            "SetPhaseStops.stops"@,
            stops.len() as nat,
        ),
        GameAction::DistributeAmong { distribution, .. } => list_verdict(
            "DistributeAmong.distribution"@,
            distribution.len() as nat,
        ),
        GameAction::RetargetSpell { new_targets, .. } => list_verdict(
            "RetargetSpell.new_targets"@,
            new_targets.len() as nat,
        ),
        GameAction::ChooseOption { choice } => {
            if utf8_len(choice@) > MAX_CHOICE_LEN {
                Err(choice_bound_message(utf8_len(choice@)))
            } else {
                Ok(())
            }
        },
        _ => Ok(()),
    }
}

/// A guard result as a value of the model: the error string by its characters.
pub open spec fn verdict_of(r: Result<(), String>) -> Result<(), Seq<char>> {
    match r {
        Ok(()) => Ok(()),
        Err(m) => Err(m@),
    }
}

/// Checks one client-supplied list of `len` entries, named `field` in the
/// error message.
pub fn bound_list(field: &str, len: usize) -> (r: Result<(), String>)
    ensures
        verdict_of(r) == list_verdict(field@, len as nat),
{
    if len > MAX_ACTION_LIST_LEN {
        let mut message = String::from_str(field);
        message.append(" has ");
        push_decimal(&mut message, len);
        message.append(" entries; at most ");
        push_decimal(&mut message, MAX_ACTION_LIST_LEN);
        message.append(" allowed");
        return Err(message);
    }
    Ok(())
}

/// Checks a free-form choice string against `MAX_CHOICE_LEN` bytes.
fn bound_choice(choice: &String) -> (r: Result<(), String>)
    requires
        utf8_len(choice@) <= usize::MAX,
    ensures
        verdict_of(r) == (if utf8_len(choice@) > MAX_CHOICE_LEN {
            Err(choice_bound_message(utf8_len(choice@)))
        } else {
            Ok(())
        }),
{
    let len = choice.as_str().len();
    if len > MAX_CHOICE_LEN {
        let mut message = String::from_str("ChooseOption.choice is ");
        push_decimal(&mut message, len);
        message.append(" bytes; at most ");
        push_decimal(&mut message, MAX_CHOICE_LEN);
        message.append(" allowed");
        return Err(message);
    }
    Ok(())
}

/// Validates client-supplied `GameAction` payload sizes before engine dispatch.
/// Variants carrying only bounded scalars (object ids, indices, booleans) need
/// no bound and are accepted.
pub fn guard_game_action_payload(action: &GameAction) -> (r: Result<(), String>)
    requires
        byte_lengths_fit(*action),
    ensures
        verdict_of(r) == payload_verdict(*action),
{
    match action {
        GameAction::CastSpell { targets, .. } => bound_list("CastSpell.targets", targets.len()),
        GameAction::CastSpellWithPaymentMode { targets, .. } => bound_list(
            "CastSpell.targets",
            targets.len(),
        ),
        GameAction::SelectTargets { targets } => bound_list(
            "SelectTargets.targets",
            targets.len(),
        ),
        GameAction::DeclareAttackers { attacks } => bound_list(
            "DeclareAttackers.attacks",
            attacks.len(),
        ),
        GameAction::DeclareBlockers { assignments } => bound_list(
            "DeclareBlockers.assignments",
            assignments.len(),
        ),
        GameAction::AssignCombatDamage { assignments, .. } => bound_list(
            "AssignCombatDamage.assignments",
            assignments.len(),
        ),
        GameAction::ReorderHand { order } => bound_list("ReorderHand.order", order.len()),
        GameAction::OrderTriggers { order } => bound_list("OrderTriggers.order", order.len()),
        GameAction::SelectCards { cards } => bound_list("SelectCards.cards", cards.len()),
        GameAction::SelectCoinFlips { keep_indices } => bound_list(
            "SelectCoinFlips.keep_indices",
            keep_indices.len(),
        ),
        GameAction::SelectModes { indices } => bound_list("SelectModes.indices", indices.len()),
        GameAction::ChooseOutsideGameCards { selections } => bound_list(
            "ChooseOutsideGameCards.selections",
            selections.len(),
        ),
        GameAction::ChooseCounterMoveDistribution { selections } => bound_list(
            "ChooseCounterMoveDistribution.selections",
            selections.len(),
        ),
        GameAction::CrewVehicle { creature_ids, .. } => bound_list(
            "CrewVehicle.creature_ids",
            creature_ids.len(),
        ),
        GameAction::SaddleMount { creature_ids, .. } => bound_list(
            "SaddleMount.creature_ids",
            creature_ids.len(),
        ),
        GameAction::SubmitSideboard { main, sideboard } => {
            let main_verdict = bound_list("SubmitSideboard.main", main.len());
            if main_verdict.is_err() {
                return main_verdict;
            }
            bound_list("SubmitSideboard.sideboard", sideboard.len())
        },
        GameAction::SubmitPilePartition { pile_a, .. } => bound_list(
            "SubmitPilePartition.pile_a",
            pile_a.len(),
        ),
        GameAction::SetPhaseStops { stops } => bound_list("SetPhaseStops.stops", stops.len()),
        GameAction::DistributeAmong { distribution, .. } => bound_list(
            "DistributeAmong.distribution",
            distribution.len(),
        ),
        GameAction::RetargetSpell { new_targets, .. } => bound_list(
            "RetargetSpell.new_targets",
            new_targets.len(),
        ),
        GameAction::ChooseOption { choice } => bound_choice(choice),
        _ => Ok(()),
    }
}

} // verus!
