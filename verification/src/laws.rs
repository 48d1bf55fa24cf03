//! What holds of the guard's verdict on every action.

use vstd::prelude::*;

use crate::game_action_payload_guard::{
    choice_bound_message, list_bound_message, payload_verdict, utf8_len, MAX_ACTION_LIST_LEN, MAX_CHOICE_LEN,
};
use crate::types::GameAction;

verus! {

/// The number of entries of each client-supplied list of an action.
pub open spec fn client_list_lens(action: GameAction) -> Seq<nat> {
    match action {
        GameAction::CastSpell { targets, .. } => seq![targets.len() as nat],
        GameAction::CastSpellWithPaymentMode { targets, .. } => seq![targets.len() as nat],
        GameAction::SelectTargets { targets } => seq![targets.len() as nat],
        GameAction::DeclareAttackers { attacks } => seq![attacks.len() as nat],
        GameAction::DeclareBlockers { assignments } => seq![assignments.len() as nat],
        GameAction::AssignCombatDamage { assignments, .. } => seq![assignments.len() as nat],
        GameAction::ReorderHand { order } => seq![order.len() as nat],
        GameAction::OrderTriggers { order } => seq![order.len() as nat],
        GameAction::SelectCards { cards } => seq![cards.len() as nat],
        GameAction::SelectCoinFlips { keep_indices } => seq![keep_indices.len() as nat],
        GameAction::SelectModes { indices } => seq![indices.len() as nat],
        GameAction::ChooseOutsideGameCards { selections } => seq![selections.len() as nat],
        GameAction::ChooseCounterMoveDistribution { selections } => seq![
            selections.len() as nat,
        ],
        GameAction::CrewVehicle { creature_ids, .. } => seq![creature_ids.len() as nat],
        GameAction::SaddleMount { creature_ids, .. } => seq![creature_ids.len() as nat],
        GameAction::SubmitSideboard { main, sideboard } => seq![
            main.len() as nat,
            sideboard.len() as nat,
        ],
        GameAction::SubmitPilePartition { pile_a, .. } => seq![pile_a.len() as nat],
        GameAction::SetPhaseStops { stops } => seq![stops.len() as nat],
        GameAction::DistributeAmong { distribution, .. } => seq![distribution.len() as nat],
        GameAction::RetargetSpell { new_targets, .. } => seq![new_targets.len() as nat],
        _ => Seq::empty(),
    }
}

/// The byte length of an action's free-form choice string; 0 where it has none.
pub open spec fn choice_bytes(action: GameAction) -> nat {
    match action {
        GameAction::ChooseOption { choice } => utf8_len(choice@),
        _ => 0,
    }
}

/// Every client-supplied list of the action is within `MAX_ACTION_LIST_LEN`
/// entries, and its choice string within `MAX_CHOICE_LEN` bytes.
pub open spec fn within_caps(action: GameAction) -> bool {
    &&& forall|i: int|
        0 <= i < client_list_lens(action).len() ==> #[trigger] client_list_lens(action)[i]
            <= MAX_ACTION_LIST_LEN
    &&& choice_bytes(action) <= MAX_CHOICE_LEN
}

/// An action is accepted exactly when all of its client-supplied lists and
/// strings are within their caps: a list within the cap is never the reason
/// for a rejection, and every list over it is.
pub proof fn lemma_accepted_iff_within_caps(action: GameAction)
    ensures
        payload_verdict(action) is Ok <==> within_caps(action),
{
    let lens = client_list_lens(action);
    if payload_verdict(action) is Ok {
        assert forall|i: int| 0 <= i < lens.len() implies #[trigger] lens[i]
            <= MAX_ACTION_LIST_LEN by {
            if lens.len() == 2 {
                assert(action is SubmitSideboard);
            }
        }
    }
    if within_caps(action) {
        if lens.len() == 1 {
            assert(lens[0] <= MAX_ACTION_LIST_LEN);
        } else if lens.len() == 2 {
            assert(lens[0] <= MAX_ACTION_LIST_LEN);
            assert(lens[1] <= MAX_ACTION_LIST_LEN);
        }
    }
}

/// A rejection reports one offender: a list over the cap, with its own count
/// of entries, or an over-long choice string, with its own byte length.
pub proof fn lemma_rejection_reports_an_offender(action: GameAction)
    requires
        payload_verdict(action) is Err,
    ensures
        (exists|field: Seq<char>, i: int|
            0 <= i < client_list_lens(action).len() && client_list_lens(action)[i]
                > MAX_ACTION_LIST_LEN && payload_verdict(action)->Err_0
                == #[trigger] list_bound_message(field, client_list_lens(action)[i])) || (choice_bytes(action) > MAX_CHOICE_LEN && payload_verdict(action)->Err_0
            == choice_bound_message(choice_bytes(action))),
{
    let lens = client_list_lens(action);
    match action {
        GameAction::SubmitSideboard { main, .. } => {
            if main.len() > MAX_ACTION_LIST_LEN {
                assert(lens[0] > MAX_ACTION_LIST_LEN && payload_verdict(action)->Err_0
                    == list_bound_message("SubmitSideboard.main"@, lens[0]));
            } else {
                assert(lens[1] > MAX_ACTION_LIST_LEN && payload_verdict(action)->Err_0
                    == list_bound_message("SubmitSideboard.sideboard"@, lens[1]));
            }
        },
        GameAction::ChooseOption { .. } => {},
        _ => {
            assert(lens.len() == 1);
            assert(lens[0] > MAX_ACTION_LIST_LEN);
        },
    }
}

/// Actions that carry only bounded scalars (no list, no free-form string) are
/// always accepted.
pub proof fn lemma_scalar_only_actions_accepted(action: GameAction)
    requires
        client_list_lens(action).len() == 0,
        !(action is ChooseOption),
    ensures
        payload_verdict(action) is Ok,
{
    lemma_accepted_iff_within_caps(action);
}

/// Shrinking the lists and the choice string of an accepted action keeps it
/// accepted.
pub proof fn lemma_fewer_entries_stay_accepted(bigger: GameAction, smaller: GameAction)
    requires
        payload_verdict(bigger) is Ok,
        client_list_lens(smaller).len() <= client_list_lens(bigger).len(),
        forall|i: int|
            0 <= i < client_list_lens(smaller).len() ==> #[trigger] client_list_lens(smaller)[i]
                <= client_list_lens(bigger)[i],
        choice_bytes(smaller) <= choice_bytes(bigger),
    ensures
        payload_verdict(smaller) is Ok,
{
    lemma_accepted_iff_within_caps(bigger);
    lemma_accepted_iff_within_caps(smaller);
    assert forall|i: int| 0 <= i < client_list_lens(smaller).len() implies #[trigger] client_list_lens(
        smaller,
    )[i] <= MAX_ACTION_LIST_LEN by {
        assert(client_list_lens(bigger)[i] <= MAX_ACTION_LIST_LEN);
    }
}

} // verus!
