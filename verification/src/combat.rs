//! One attack round: the damage die, the broadcast application of freshly
//! rolled hits to every creature on the field, and the tag lookup that
//! presentation elements use to find their creature each frame.

use vstd::prelude::*;

use crate::creature::{
    damaged, lemma_tag_eq_iff_token_eq, Creature, CreatureTag,
};

verus! {

/// The damage die: a roll in 1..=7 derived from a raw uniform sample.
pub open spec fn roll_from_sample(raw: u32) -> int {
    raw as int % 7 + 1
}

/// Computes the damage roll from a raw uniform sample.
pub fn damage_roll_from_sample(raw: u32) -> (roll: u32)
    ensures
        roll == roll_from_sample(raw),
        1 <= roll <= 7,
{
    raw % 7 + 1
}

/// Draws a fresh damage roll; it always lands in 1..=7.
pub fn damage_roll() -> (roll: u32)
    ensures
        1 <= roll <= 7,
{
    let raw: u32 = rand::random::<u32>();
    damage_roll_from_sample(raw)
}

/// The post-attack wiggle period in milliseconds derived from a raw
/// uniform sample: the sample (reduced to under a second) is clamped
/// below at a fifth of a second, and fifty milliseconds are added.
pub open spec fn reroll_wiggle_period_ms(raw: u32) -> int {
    (if raw as int % 1000 < 200 {
        200int
    } else {
        raw as int % 1000
    }) + 50
}

/// Computes the post-attack wiggle period from a raw uniform sample.
/// Always lands in [250, 1049] milliseconds.
pub fn reroll_wiggle_from_sample(raw: u32) -> (period_ms: u32)
    ensures
        period_ms == reroll_wiggle_period_ms(raw),
        250 <= period_ms <= 1049,
{
    let millis: u32 = raw % 1000;
    let clamped: u32 = if millis < 200 {
        200
    } else {
        millis
    };
    clamped + 50
}

/// Relates a creature before an attack round to its state afterwards:
/// name, identity and maximum health are untouched; health dropped by
/// some roll of the damage die; and the wiggle period was re-sampled.
pub open spec fn attacked(before: Creature, after: Creature) -> bool {
    &&& after.spec_name() == before.spec_name()
    &&& after.spec_tag() == before.spec_tag()
    &&& after.spec_max_health() == before.spec_max_health()
    &&& exists|roll: u32|
        1 <= roll <= 7 && after.spec_health() == damaged(before.spec_health(), roll)
    &&& 250 <= after.spec_wiggle_period_ms() <= 1049
    &&& (before.wf() ==> after.wf())
}

/// One press of the attack button, broadcast to the whole field: every
/// creature takes a freshly rolled hit and has its wiggle period
/// re-sampled.
pub fn attack_all(creatures: &mut Vec<Creature>)
    ensures
        final(creatures)@.len() == old(creatures)@.len(),
        forall|i: int|
            0 <= i < old(creatures)@.len() ==> attacked(
                old(creatures)@[i],
                #[trigger] final(creatures)@[i],
            ),
{
    let ghost orig = creatures@;
    let n: usize = creatures.len();
    let mut idx: usize = 0;
    while idx < n
        invariant
            n == orig.len(),
            creatures@.len() == n,
            idx <= n,
            forall|i: int| 0 <= i < idx ==> attacked(orig[i], #[trigger] creatures@[i]),
            forall|i: int| idx <= i < n ==> #[trigger] creatures@[i] == orig[i],
        decreases n - idx,
    {
        let roll: u32 = damage_roll();
        let raw: u32 = rand::random::<u32>();
        let period_ms: u32 = reroll_wiggle_from_sample(raw);
        let creature = &mut creatures[idx];
        creature.set_wiggle_period(period_ms);
        creature.take_damage(roll);
        proof {
            assert(creatures@[idx as int].spec_health() == damaged(
                orig[idx as int].spec_health(),
                roll,
            ));
            assert(attacked(orig[idx as int], creatures@[idx as int]));
        }
        idx += 1;
    }
}

/// One press of the simpler attack button: a single damage roll is
/// broadcast, every creature on the field taking the same hit. Wiggle
/// periods are untouched.
pub fn attack_all_with_roll(creatures: &mut Vec<Creature>, roll: u32)
    ensures
        final(creatures)@.len() == old(creatures)@.len(),
        forall|i: int|
            0 <= i < old(creatures)@.len() ==> {
                let before = old(creatures)@[i];
                let after = #[trigger] final(creatures)@[i];
                &&& after.spec_health() == damaged(before.spec_health(), roll)
                &&& after.spec_name() == before.spec_name()
                &&& after.spec_tag() == before.spec_tag()
                &&& after.spec_max_health() == before.spec_max_health()
                &&& after.spec_wiggle_period_ms() == before.spec_wiggle_period_ms()
                &&& (before.wf() ==> after.wf())
            },
{
    let ghost orig = creatures@;
    let n: usize = creatures.len();
    let mut idx: usize = 0;
    while idx < n
        invariant
            n == orig.len(),
            creatures@.len() == n,
            idx <= n,
            forall|i: int|
                0 <= i < idx ==> {
                    let before = orig[i];
                    let after = #[trigger] creatures@[i];
                    &&& after.spec_health() == damaged(before.spec_health(), roll)
                    &&& after.spec_name() == before.spec_name()
                    &&& after.spec_tag() == before.spec_tag()
                    &&& after.spec_max_health() == before.spec_max_health()
                    &&& after.spec_wiggle_period_ms() == before.spec_wiggle_period_ms()
                    &&& (before.wf() ==> after.wf())
                },
            forall|i: int| idx <= i < n ==> #[trigger] creatures@[i] == orig[i],
        decreases n - idx,
    {
        let creature = &mut creatures[idx];
        creature.take_damage(roll);
        idx += 1;
    }
}

/// Finds the first creature whose derived tag equals `tag`: the per-frame
/// resolution a presentation element performs with its stored tag. Returns
/// the creature's index, or `None` exactly when no creature on the field
/// carries the tag's identity token.
pub fn find_by_tag(creatures: &Vec<Creature>, tag: CreatureTag) -> (found: Option<usize>)
    ensures
        match found {
            Some(i) => {
                &&& i < creatures@.len()
                &&& creatures@[i as int].spec_tag() == tag.spec_token()
                &&& forall|j: int|
                    0 <= j < i ==> #[trigger] creatures@[j].spec_tag() != tag.spec_token()
            },
            None => forall|j: int|
                0 <= j < creatures@.len() ==> #[trigger] creatures@[j].spec_tag()
                    != tag.spec_token(),
        },
{
    let n: usize = creatures.len();
    let mut idx: usize = 0;
    while idx < n
        invariant
            n == creatures@.len(),
            idx <= n,
            forall|j: int| 0 <= j < idx ==> #[trigger] creatures@[j].spec_tag() != tag.spec_token(),
        decreases n - idx,
    {
        let candidate: CreatureTag = creatures[idx].get_creature_tag();
        proof {
            lemma_tag_eq_iff_token_eq(candidate, tag);
        }
        if candidate == tag {
            return Some(idx);
        }
        idx += 1;
    }
    None
}

} // verus!
