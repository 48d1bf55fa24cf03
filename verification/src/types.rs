//! The client-supplied game actions, as the payload guard sees them.
//!
//! Each variant carries its client-controlled lists and strings as plain
//! values: object ids, indices, amounts, card names. Variants that carry only
//! bounded scalars keep those scalars.

use vstd::prelude::*;

verus! {

/// The id of a game object (card, token, spell on the stack).
#[derive(Clone, Copy, Debug, PartialEq, Eq, Hash)]
pub struct ObjectId(pub u64);

/// An action a client asks the game engine to perform.
#[derive(Clone, Debug, PartialEq, Eq)]
#[allow(inconsistent_fields)]
pub enum GameAction {
    /// Pass priority.
    PassPriority,
    /// Cast a spell, choosing its targets.
    CastSpell { object_id: ObjectId, card_id: u64, targets: Vec<ObjectId> },
    /// Cast a spell with an explicit payment mode, choosing its targets.
    CastSpellWithPaymentMode { object_id: ObjectId, card_id: u64, targets: Vec<ObjectId> },
    /// Choose targets for a pending spell or ability.
    SelectTargets { targets: Vec<ObjectId> },
    /// Declare attackers: each entry is an attacker and what it attacks.
    DeclareAttackers { attacks: Vec<(ObjectId, ObjectId)> },
    /// Declare blockers: each entry is a blocker and the attacker it blocks.
    DeclareBlockers { assignments: Vec<(ObjectId, ObjectId)> },
    /// Assign an attacker's combat damage: each entry is a recipient and an amount.
    AssignCombatDamage { attacker: ObjectId, assignments: Vec<(ObjectId, u32)> },
    /// Reorder the hand.
    ReorderHand { order: Vec<ObjectId> },
    /// Order simultaneous triggers, by index.
    OrderTriggers { order: Vec<usize> },
    /// Select cards for a pending choice.
    SelectCards { cards: Vec<ObjectId> },
    /// Select which coin flips to keep, by index.
    SelectCoinFlips { keep_indices: Vec<usize> },
    /// Select the modes of a modal spell, by index.
    SelectModes { indices: Vec<usize> },
    /// Choose cards from outside the game, by name.
    ChooseOutsideGameCards { selections: Vec<String> },
    /// Distribute counters to move: each entry is an object and a count.
    ChooseCounterMoveDistribution { selections: Vec<(ObjectId, u32)> },
    /// Crew a vehicle with the given creatures.
    CrewVehicle { vehicle_id: ObjectId, creature_ids: Vec<ObjectId> },
    /// Saddle a mount with the given creatures.
    SaddleMount { mount_id: ObjectId, creature_ids: Vec<ObjectId> },
    /// Submit a deck between games: main deck and sideboard, by card name.
    SubmitSideboard { main: Vec<String>, sideboard: Vec<String> },
    /// Split objects into two piles by naming the first pile.
    SubmitPilePartition { pile_a: Vec<ObjectId>, source: ObjectId },
    /// Set the phases at which the client wants to stop, by phase index.
    SetPhaseStops { stops: Vec<u8> },
    /// Distribute an amount among objects: each entry is an object and its share.
    DistributeAmong { source: ObjectId, distribution: Vec<(ObjectId, u32)> },
    /// Choose new targets for a spell.
    RetargetSpell { spell: ObjectId, new_targets: Vec<ObjectId> },
    /// Choose a named option (an option label, a card name, a mode label).
    ChooseOption { choice: String },
    /// Accept or decline an optional effect.
    DecideOptionalEffect { accept: bool },
    /// Choose a source of damage.
    ChooseDamageSource { source: ObjectId },
    /// Activate an ability of an object.
    ActivateAbility { source_id: ObjectId, ability_index: usize },
}

} // verus!
