//! A sketched status-effect taxonomy: each effect pairs a malus with a
//! bonus, and effects are collected per turn. These are deliberately bare
//! data declarations — no creature operation, trigger, or resolution rule
//! consumes them; they only fix the vocabulary for a future combat
//! extension.

use vstd::prelude::*;

verus! {

/// A penalty a creature can suffer for a turn.
pub enum Malus {
    /// One fewer damage die on the next roll.
    LoseADie,
    /// An immediate loss of the given number of health points.
    LoseHealth(u32),
    /// The next roll deals half damage.
    HalfDamage,
}

/// The elements that elemental damage can carry.
pub enum Elements {
    Fire,
    Poison,
    Ice,
    Electricity,
}

/// A reward a creature can earn for a turn.
pub enum Bonus {
    /// The next roll deals double damage.
    DoubleDamage,
    /// The next roll carries damage of the given element.
    ElementalDamage(Elements),
    /// One extra damage die on the next roll.
    ExtraDie,
    /// An extra pick from the effect pool.
    ExtraEffectChoice,
}

/// A status effect: a malus paired with a bonus.
pub struct Effect {
    pub malus: Malus,
    pub bonus: Bonus,
}

/// The effects in play, split by the turn they apply to.
pub struct Effects {
    pub this_turns_effects: Vec<Effect>,
    pub next_turns_effects: Vec<Effect>,
}

} // verus!
