//! The combat participant: a creature with a clamped health pool, an
//! immutable display name, an identity token for correlation with
//! presentation elements, and an idle-animation timing parameter.

use vstd::prelude::*;

verus! {

/// Saturating damage: health drops by `damage`, stopping at zero.
pub open spec fn damaged(health: u32, damage: u32) -> u32 {
    if health <= damage {
        0
    } else {
        (health - damage) as u32
    }
}

/// The creation-time wiggle period in milliseconds derived from a raw
/// uniform sample: the sample (reduced to under a second) is clamped below
/// at half a second, and a fifth of a second is added.
pub open spec fn spawn_wiggle_period_ms(raw: u32) -> int {
    (if raw as int % 1000 < 500 {
        500int
    } else {
        raw as int % 1000
    }) + 200
}

/// Computes the creation-time wiggle period from a raw uniform sample.
/// Always lands in [700, 1199] milliseconds.
pub fn wiggle_period_from_sample(raw: u32) -> (period_ms: u32)
    ensures
        period_ms == spawn_wiggle_period_ms(raw),
        700 <= period_ms <= 1199,
{
    let millis: u32 = raw % 1000;
    let clamped: u32 = if millis < 500 {
        500
    } else {
        millis
    };
    clamped + 200
}

/// A copyable identity token correlating a creature with the presentation
/// elements (sprite, health bar, text plaque) that display it. Two tags
/// compare equal exactly when they wrap the same identity token.
#[derive(Clone, Copy, Debug, PartialEq, Eq, Structural)]
pub struct CreatureTag {
    tag: u128,
}

impl CreatureTag {
    /// The identity token the tag wraps.
    pub closed spec fn spec_token(&self) -> u128 {
        self.tag
    }
}

/// Tag equality mirrors identity: two tags are equal exactly when the
/// identity tokens they wrap are equal.
pub proof fn lemma_tag_eq_iff_token_eq(t1: CreatureTag, t2: CreatureTag)
    ensures
        (t1 == t2) <==> t1.spec_token() == t2.spec_token(),
{
}

/// Tags correlate creatures by identity: tags derived from the same
/// creature (at any two times, since the identity token never changes)
/// are equal, and tags derived from creatures with distinct identity
/// tokens are never equal.
pub proof fn lemma_tag_correlation(t1: CreatureTag, t2: CreatureTag, c1: Creature, c2: Creature)
    requires
        t1.spec_token() == c1.spec_tag(),
        t2.spec_token() == c2.spec_tag(),
    ensures
        (t1 == t2) <==> c1.spec_tag() == c2.spec_tag(),
{
    lemma_tag_eq_iff_token_eq(t1, t2);
}

/// Damage application is saturating subtraction: the new health is
/// `max(0, health - damage)`; it never underflows and never exceeds the
/// old health.
pub proof fn lemma_damage_saturates(health: u32, damage: u32)
    ensures
        damaged(health, damage) == vstd::math::max(0, health as int - damage as int),
        damaged(health, damage) <= health,
{
}

/// Relies on `rand::random`: draws a value from the thread-local generator
/// through the `Standard` distribution. Nothing can be promised of a
/// random draw, so nothing more is stated.
pub assume_specification<T>[ rand::random::<T> ]() -> (r: T)
    where
        rand::distributions::Standard: rand::distributions::Distribution<T>,
;

/// Relies on `uuid::Uuid::new_v4` for a fresh random version-4 identifier,
/// handed back as its 128-bit value. The draw is random, so nothing is
/// promised of it.
#[verifier::external_body]
fn fresh_tag() -> u128 {
    uuid::Uuid::new_v4().as_u128()
}

/// A combat participant.
///
/// Invariant ([`Creature::wf`]): health never exceeds the maximum, and the
/// maximum is positive. The identity token and the name are fixed at
/// creation; only health and the wiggle period ever change.
pub struct Creature {
    health: u32,
    max_health: u32,
    name: String,
    tag: u128,
    wiggle_period_ms: u32,
}

impl Creature {
    /// Current health points.
    pub closed spec fn spec_health(&self) -> u32 {
        self.health
    }

    /// The health ceiling fixed at creation.
    pub closed spec fn spec_max_health(&self) -> u32 {
        self.max_health
    }

    /// The display name, fixed at creation.
    pub closed spec fn spec_name(&self) -> Seq<char> {
        self.name@
    }

    /// The identity token, fixed at creation.
    pub closed spec fn spec_tag(&self) -> u128 {
        self.tag
    }

    /// The idle-animation period, in milliseconds.
    pub closed spec fn spec_wiggle_period_ms(&self) -> u32 {
        self.wiggle_period_ms
    }

    /// Well-formedness: health is clamped to the positive maximum.
    pub open spec fn wf(&self) -> bool {
        &&& self.spec_health() <= self.spec_max_health()
        &&& self.spec_max_health() >= 1
    }

    /// Creates a creature named `name` at full health (100 of 100), with a
    /// fresh identity token and a freshly sampled wiggle period. The
    /// wiggle period always lands in [700, 1199] milliseconds: the raw
    /// sample is clamped below at half a second and a fifth of a second
    /// is added.
    pub fn new(name: String) -> (creature: Creature)
        ensures
            creature.wf(),
            creature.spec_health() == 100,
            creature.spec_max_health() == 100,
            creature.spec_name() == name@,
            700 <= creature.spec_wiggle_period_ms() <= 1199,
    {
        let raw: u32 = rand::random::<u32>();
        Creature {
            health: 100,
            max_health: 100,
            name,
            tag: fresh_tag(),
            wiggle_period_ms: wiggle_period_from_sample(raw),
        }
    }

    /// The creature's correlation tag: a pure function of its identity
    /// token, so every derivation over the creature's lifetime yields an
    /// equal tag.
    pub fn get_creature_tag(&self) -> (tag: CreatureTag)
        ensures
            tag.spec_token() == self.spec_tag(),
    {
        CreatureTag { tag: self.tag }
    }

    /// The health bar's fill: `100 * health / max_health`, an integer
    /// percentage that well-formedness keeps within [0, 100].
    pub fn health_percentage(&self) -> (percent: u32)
        requires
            self.wf(),
        ensures
            percent == 100 * self.spec_health() / (self.spec_max_health() as int),
            percent <= 100,
    {
        proof {
            let h = self.spec_health() as int;
            let m = self.spec_max_health() as int;
            assert(100 * h / m <= 100) by (nonlinear_arith)
                requires
                    0 <= h <= m,
                    m >= 1,
            ;
        }
        (self.health as u64 * 100 / (self.max_health as u64)) as u32
    }

    /// Applies `damage_points` of damage: health saturates at zero rather
    /// than wrapping. Nothing else about the creature changes.
    pub fn take_damage(&mut self, damage_points: u32)
        ensures
            final(self).spec_health() == damaged(old(self).spec_health(), damage_points),
            final(self).spec_max_health() == old(self).spec_max_health(),
            final(self).spec_name() == old(self).spec_name(),
            final(self).spec_tag() == old(self).spec_tag(),
            final(self).spec_wiggle_period_ms() == old(self).spec_wiggle_period_ms(),
            old(self).wf() ==> final(self).wf(),
    {
        if self.health <= damage_points {
            self.health = 0
        } else {
            self.health -= damage_points
        }
    }

    /// True exactly when the creature's health has reached zero.
    pub fn is_dead(&self) -> (dead: bool)
        ensures
            dead == (self.spec_health() == 0),
    {
        self.health == 0
    }

    /// Current health points.
    pub fn get_health(&self) -> (health: u32)
        ensures
            health == self.spec_health(),
    {
        self.health
    }

    /// The health ceiling fixed at creation.
    pub fn get_max_health(&self) -> (max_health: u32)
        ensures
            max_health == self.spec_max_health(),
    {
        self.max_health
    }

    /// The display name.
    pub fn get_name(&self) -> (name: &str)
        ensures
            name@ == self.spec_name(),
    {
        self.name.as_str()
    }

    /// The idle-animation period, in milliseconds.
    pub fn get_wiggle_period(&self) -> (period_ms: u32)
        ensures
            period_ms == self.spec_wiggle_period_ms(),
    {
        self.wiggle_period_ms
    }

    /// Overwrites the idle-animation period; everything else is untouched.
    pub fn set_wiggle_period(&mut self, new_wiggle_period_ms: u32)
        ensures
            final(self).spec_wiggle_period_ms() == new_wiggle_period_ms,
            final(self).spec_health() == old(self).spec_health(),
            final(self).spec_max_health() == old(self).spec_max_health(),
            final(self).spec_name() == old(self).spec_name(),
            final(self).spec_tag() == old(self).spec_tag(),
            old(self).wf() ==> final(self).wf(),
    {
        self.wiggle_period_ms = new_wiggle_period_ms
    }
}

} // verus!
