//! Power-ups: what each kind does to a tick, and when it runs out.

use crate::text::{decimal, push_decimal};
use vstd::prelude::*;
use vstd::string::*;

verus! {

/// How long a score multiplier lasts, in milliseconds.
pub const SCORE_MULTIPLIER_MILLIS: u64 = 30_000;

/// How long invulnerability lasts, in milliseconds.
pub const INVULNERABILITY_MILLIS: u64 = 20_000;

/// The kind of power-up that a food item carries.
#[derive(Debug, Clone, Copy, PartialEq, Eq, Structural)]
pub enum PowerType {
    /// Plain food.
    NoPower,
    ScoreMultiplier(u16),
    Invulnerability,
}

/// The part of the simulation that a power-up may read and change.
#[derive(Debug, Clone, Copy, PartialEq, Eq, Structural)]
pub struct TickContext {
    /// The cumulative score.
    pub score: u16,
    /// Whether food was picked up on this tick.
    pub scored: bool,
    /// Whether the snake is alive.
    pub is_alive: bool,
}

/// The time from `added_at` to `now`, in milliseconds; zero where the clock
/// reads earlier than `added_at`.
pub open spec fn elapsed_spec(added_at: u64, now: u64) -> nat {
    if now >= added_at {
        (now - added_at) as nat
    } else {
        0
    }
}

/// A power-up with the given lifetime has outlived it: more time has passed
/// since `added_at` than the lifetime allows. One without a lifetime stays.
pub open spec fn outlived(lifetime: Option<u64>, added_at: u64, now: u64) -> bool {
    match lifetime {
        Some(millis) => elapsed_spec(added_at, now) > millis,
        None => false,
    }
}

/// The score of a tick on which food was picked up, with the pickup's one
/// point taken back and `factor` points given in its place: `score - 1 +
/// factor`, or the nearest score that a `u16` holds.
pub open spec fn multiplied_score(score: u16, factor: u16) -> u16 {
    let exact: int = score - 1 + factor;
    if exact < 0 {
        0
    } else if exact > u16::MAX {
        u16::MAX
    } else {
        exact as u16
    }
}

/// The time from `added_at` to `now`.
pub fn elapsed(added_at: u64, now: u64) -> (millis: u64)
    ensures
        millis == elapsed_spec(added_at, now),
{
    if now >= added_at {
        now - added_at
    } else {
        0
    }
}

/// What every kind of power-up can do: act when it is picked up, on each tick
/// while it is active and when it is taken away, and tell when it has run
/// out. Each kind says for itself what it does at each of these moments.
pub trait PowerUp {
    /// The context after the power-up was picked up.
    spec fn activated(&self, context: TickContext) -> TickContext;

    /// The context after the power-up has acted on one tick.
    spec fn updated(&self, context: TickContext) -> TickContext;

    /// The context after the power-up was taken away.
    spec fn deactivated(&self, context: TickContext) -> TickContext;

    /// How long the power-up lasts, in milliseconds.
    spec fn lifetime(&self) -> Option<u64>;

    /// Runs once, when the food that carries the power-up is eaten.
    fn on_activation(&self, context: &mut TickContext)
        ensures
            *final(context) == self.activated(*old(context)),
    ;

    /// Runs once on every tick on which the power-up is active.
    fn on_update(&self, context: &mut TickContext)
        ensures
            *final(context) == self.updated(*old(context)),
    ;

    /// Runs once, when the power-up is taken away.
    fn on_deactivation(&self, context: &mut TickContext)
        ensures
            *final(context) == self.deactivated(*old(context)),
    ;

    /// Whether the power-up, active since `added_at`, has run out at `now`.
    fn should_remove(&self, added_at: u64, now: u64) -> (remove: bool)
        ensures
            remove == outlived(self.lifetime(), added_at, now),
    ;

    /// What the game shows of the power-up while it is active.
    spec fn label_spec(&self) -> Seq<char>;

    /// What the game shows of the power-up while it is active.
    fn label(&self) -> (text: String)
        ensures
            text@ == self.label_spec(),
    ;
}

/// Replaces the point of a pickup by a number of points of its own.
#[derive(Debug, Clone, Copy)]
pub struct ScoreMultiplier {
    pub mult_by: u16,
}

impl PowerUp for ScoreMultiplier {
    open spec fn activated(&self, context: TickContext) -> TickContext {
        context
    }

    open spec fn updated(&self, context: TickContext) -> TickContext {
        if context.scored {
            TickContext { score: multiplied_score(context.score, self.mult_by), ..context }
        } else {
            context
        }
    }

    open spec fn deactivated(&self, context: TickContext) -> TickContext {
        context
    }

    open spec fn lifetime(&self) -> Option<u64> {
        Some(SCORE_MULTIPLIER_MILLIS)
    }

    fn on_activation(&self, _context: &mut TickContext) {
    }

    fn on_update(&self, context: &mut TickContext) {
        if context.scored {
            let raised: u32 = context.score as u32 + self.mult_by as u32;

            context.score = if raised == 0 {
                0
            } else if raised - 1 > u16::MAX as u32 {
                u16::MAX
            } else {
                (raised - 1) as u16
            };
        }
    }

    fn on_deactivation(&self, _context: &mut TickContext) {
    }

    fn should_remove(&self, added_at: u64, now: u64) -> (remove: bool) {
        elapsed(added_at, now) > SCORE_MULTIPLIER_MILLIS
    }

    open spec fn label_spec(&self) -> Seq<char> {
        "Score x"@ + decimal(self.mult_by as nat)
    }

    fn label(&self) -> (text: String) {
        let mut text = String::from_str("Score x");
        push_decimal(&mut text, self.mult_by);
        text
    }
}

/// Keeps the snake alive whatever it runs into.
#[derive(Debug, Clone, Copy)]
pub struct Invulnerability {}

impl PowerUp for Invulnerability {
    open spec fn activated(&self, context: TickContext) -> TickContext {
        context
    }

    open spec fn updated(&self, context: TickContext) -> TickContext {
        TickContext { is_alive: true, ..context }
    }

    open spec fn deactivated(&self, context: TickContext) -> TickContext {
        context
    }

    open spec fn lifetime(&self) -> Option<u64> {
        Some(INVULNERABILITY_MILLIS)
    }

    fn on_activation(&self, _context: &mut TickContext) {
    }

    fn on_update(&self, context: &mut TickContext) {
        context.is_alive = true;
    }

    fn on_deactivation(&self, _context: &mut TickContext) {
    }

    fn should_remove(&self, added_at: u64, now: u64) -> (remove: bool) {
        elapsed(added_at, now) > INVULNERABILITY_MILLIS
    }

    open spec fn label_spec(&self) -> Seq<char> {
        "Invulnerable!!!"@
    }

    fn label(&self) -> (text: String) {
        String::from_str("Invulnerable!!!")
    }
}

/// A kind of power-up acts as the power-up of that kind does. Plain food
/// does nothing and never runs out.
impl PowerUp for PowerType {
    open spec fn activated(&self, context: TickContext) -> TickContext {
        match *self {
            PowerType::NoPower => context,
            PowerType::ScoreMultiplier(mult_by) => (ScoreMultiplier { mult_by }).activated(context),
            PowerType::Invulnerability => (Invulnerability {  }).activated(context),
        }
    }

    open spec fn updated(&self, context: TickContext) -> TickContext {
        match *self {
            PowerType::NoPower => context,
            PowerType::ScoreMultiplier(mult_by) => (ScoreMultiplier { mult_by }).updated(context),
            PowerType::Invulnerability => (Invulnerability {  }).updated(context),
        }
    }

    open spec fn deactivated(&self, context: TickContext) -> TickContext {
        match *self {
            PowerType::NoPower => context,
            PowerType::ScoreMultiplier(mult_by) => (ScoreMultiplier { mult_by }).deactivated(
                context,
            ),
            PowerType::Invulnerability => (Invulnerability {  }).deactivated(context),
        }
    }

    open spec fn lifetime(&self) -> Option<u64> {
        match *self {
            PowerType::NoPower => None,
            PowerType::ScoreMultiplier(mult_by) => (ScoreMultiplier { mult_by }).lifetime(),
            PowerType::Invulnerability => (Invulnerability {  }).lifetime(),
        }
    }

    fn on_activation(&self, context: &mut TickContext) {
        match *self {
            PowerType::NoPower => {},
            PowerType::ScoreMultiplier(mult_by) => (ScoreMultiplier { mult_by }).on_activation(
                context,
            ),
            PowerType::Invulnerability => (Invulnerability {  }).on_activation(context),
        }
    }

    fn on_update(&self, context: &mut TickContext) {
        match *self {
            PowerType::NoPower => {},
            PowerType::ScoreMultiplier(mult_by) => (ScoreMultiplier { mult_by }).on_update(context),
            PowerType::Invulnerability => (Invulnerability {  }).on_update(context),
        }
    }

    fn on_deactivation(&self, context: &mut TickContext) {
        match *self {
            PowerType::NoPower => {},
            PowerType::ScoreMultiplier(mult_by) => (ScoreMultiplier { mult_by }).on_deactivation(
                context,
            ),
            PowerType::Invulnerability => (Invulnerability {  }).on_deactivation(context),
        }
    }

    fn should_remove(&self, added_at: u64, now: u64) -> (remove: bool) {
        match *self {
            PowerType::NoPower => false,
            PowerType::ScoreMultiplier(mult_by) => (ScoreMultiplier { mult_by }).should_remove(
                added_at,
                now,
            ),
            PowerType::Invulnerability => (Invulnerability {  }).should_remove(added_at, now),
        }
    }

    open spec fn label_spec(&self) -> Seq<char> {
        match *self {
            PowerType::NoPower => Seq::empty(),
            PowerType::ScoreMultiplier(mult_by) => (ScoreMultiplier { mult_by }).label_spec(),
            PowerType::Invulnerability => (Invulnerability {  }).label_spec(),
        }
    }

    fn label(&self) -> (text: String) {
        match *self {
            PowerType::NoPower => String::new(),
            PowerType::ScoreMultiplier(mult_by) => (ScoreMultiplier { mult_by }).label(),
            PowerType::Invulnerability => (Invulnerability {  }).label(),
        }
    }
}

/// A power-up in effect, with the time at which it was picked up.
#[derive(Debug, Clone, Copy, PartialEq, Eq, Structural)]
pub struct ActivePowerUp {
    pub power: PowerType,
    pub added_at: u64,
}

/// The context after one active power-up has had its tick at `now`: it acts,
/// and where it has run out by then, it is taken away, which runs its
/// deactivation.
pub open spec fn after_power_up(active: ActivePowerUp, context: TickContext, now: u64) -> TickContext {
    let acted = active.power.updated(context);
    if outlived(active.power.lifetime(), active.added_at, now) {
        active.power.deactivated(acted)
    } else {
        acted
    }
}

/// The context after each of the active power-ups, from the oldest on, has
/// had its tick at `now`.
pub open spec fn after_power_ups(active: Seq<ActivePowerUp>, context: TickContext, now: u64) -> TickContext
    decreases active.len(),
{
    if active.len() == 0 {
        context
    } else {
        after_power_up(active.last(), after_power_ups(active.drop_last(), context, now), now)
    }
}

/// The power-ups that go on after the tick at `now`: those that have not run
/// out, in their order.
pub open spec fn still_active(active: Seq<ActivePowerUp>, now: u64) -> Seq<ActivePowerUp> {
    active.filter(|a: ActivePowerUp| !outlived(a.power.lifetime(), a.added_at, now))
}

/// Gives every active power-up its tick at `now`, the oldest first, and drops
/// those that have run out. A power-up that has run out acts on this tick
/// still; its deactivation runs right after it has acted, before the next
/// power-up has its turn.
pub fn run_power_ups(active: &mut Vec<ActivePowerUp>, context: &mut TickContext, now: u64)
    ensures
        *final(context) == after_power_ups(old(active)@, *old(context), now),
        final(active)@ == still_active(old(active)@, now),
{
    let ghost keeps = |a: ActivePowerUp| !outlived(a.power.lifetime(), a.added_at, now);
    let ghost before = *context;
    let mut kept: Vec<ActivePowerUp> = Vec::new();
    let mut i: usize = 0;
    assert(active@.take(0) =~= Seq::empty());
    assert(active@.take(0).filter(keeps) =~= Seq::empty()) by {
        reveal(Seq::filter);
    }
    while i < active.len()
        invariant
            i <= active@.len(),
            active@ == old(active)@,
            keeps == |a: ActivePowerUp| !outlived(a.power.lifetime(), a.added_at, now),
            *context == after_power_ups(active@.take(i as int), before, now),
            kept@ == active@.take(i as int).filter(keeps),
        decreases active@.len() - i,
    {
        let power_up = active[i];
        proof {
            let upto = active@.take(i + 1);
            assert(upto.drop_last() =~= active@.take(i as int));
            assert(upto.last() == power_up);
            reveal(Seq::filter);
        }
        power_up.power.on_update(context);

        if power_up.power.should_remove(power_up.added_at, now) {
            power_up.power.on_deactivation(context);
        } else {
            kept.push(power_up);
        }
        i += 1;
    }
    assert(active@.take(i as int) =~= active@);
    *active = kept;
}

/// No power-up takes the snake's life, and invulnerability gives it back:
/// after the active power-ups have had their tick, the snake is alive if and
/// only if it was alive before or one of them is an invulnerability.
pub proof fn lemma_invulnerability_overrides_death(
    active: Seq<ActivePowerUp>,
    context: TickContext,
    now: u64,
)
    ensures
        after_power_ups(active, context, now).is_alive <==> context.is_alive || exists|i: int|
            0 <= i < active.len() && (#[trigger] active[i]).power == PowerType::Invulnerability,
    decreases active.len(),
{
    if active.len() > 0 {
        let earlier = active.drop_last();
        lemma_invulnerability_overrides_death(earlier, context, now);
        if exists|i: int|
            0 <= i < earlier.len() && (#[trigger] earlier[i]).power == PowerType::Invulnerability {
            let i = choose|i: int|
                0 <= i < earlier.len() && (#[trigger] earlier[i]).power
                    == PowerType::Invulnerability;
            assert(active[i].power == PowerType::Invulnerability);
        }
        if exists|i: int|
            0 <= i < active.len() && (#[trigger] active[i]).power == PowerType::Invulnerability {
            let i = choose|i: int|
                0 <= i < active.len() && (#[trigger] active[i]).power
                    == PowerType::Invulnerability;
            if i < earlier.len() {
                assert(earlier[i].power == PowerType::Invulnerability);
            }
        }
    }
}

/// A power-up goes on after the tick at `now` if and only if it was active
/// and no more time than its lifetime has passed since it was picked up.
pub proof fn lemma_still_active(active: Seq<ActivePowerUp>, now: u64, power_up: ActivePowerUp)
    ensures
        still_active(active, now).contains(power_up) <==> active.contains(power_up) && !outlived(
            power_up.power.lifetime(),
            power_up.added_at,
            now,
        ),
{
    let keeps = |a: ActivePowerUp| !outlived(a.power.lifetime(), a.added_at, now);
    let kept = active.filter(keeps);
    if kept.contains(power_up) {
        let i = choose|i: int| 0 <= i < kept.len() && kept[i] == power_up;
        active.lemma_filter_pred(keeps, i);
        active.lemma_filter_contains_rev(keeps, power_up);
    }
    if active.contains(power_up) && keeps(power_up) {
        let i = choose|i: int| 0 <= i < active.len() && active[i] == power_up;
        active.lemma_filter_contains(keeps, i);
    }
}

/// A score multiplier lasts thirty seconds and an invulnerability twenty: each
/// is kept on a tick up to that long after its pickup, and dropped on a later
/// one.
pub proof fn lemma_lifetimes(added_at: u64, now: u64, factor: u16)
    requires
        added_at <= now,
    ensures
        outlived(PowerType::ScoreMultiplier(factor).lifetime(), added_at, now) <==> now - added_at
            > 30_000,
        outlived(PowerType::Invulnerability.lifetime(), added_at, now) <==> now - added_at
            > 20_000,
        !outlived(PowerType::NoPower.lifetime(), added_at, now),
{
}

/// On a tick with a pickup, a score multiplier turns the pickup's one point
/// into `factor` points, as long as the score fits a `u16`. On a tick without
/// a pickup it leaves the score alone.
pub proof fn lemma_multiplier_replaces_point(context: TickContext, factor: u16)
    ensures
        context.scored && 0 <= context.score - 1 + factor <= u16::MAX
            ==> PowerType::ScoreMultiplier(factor).updated(context).score == context.score - 1
            + factor,
        !context.scored ==> PowerType::ScoreMultiplier(factor).updated(context) == context,
        PowerType::ScoreMultiplier(factor).updated(context).is_alive == context.is_alive,
        PowerType::ScoreMultiplier(factor).updated(context).scored == context.scored,
{
}

} // verus!
