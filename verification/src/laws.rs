use vstd::prelude::*;

use crate::effects::{game_over_checked, Effect};
use crate::state::{EventPoolModel, StateModel};

verus! {

/// Reversing an effect that adds an amount (to the year, a player counter or an NPC's
/// relationship) after applying it gives back the state as it was; the event pool is
/// left as it was by both.
pub proof fn unapply_undoes_apply(
    e: Effect,
    s: StateModel,
    p: EventPoolModel,
    region_id: Option<usize>,
)
    requires
        s.in_range(),
        e.is_reversible(),
        e.can_apply(s, p, region_id),
    ensures
        e.can_unapply(e.applied_to(s, p, region_id).0),
        e.unapplied_to(e.applied_to(s, p, region_id).0) == s,
        e.applied_to(s, p, region_id).1 == p,
{
    let t = e.applied_to(s, p, region_id).0;
    match e {
        Effect::NPCRelationship(id, change) => {
            assert(t.npcs[id as int].relationship == s.npcs[id as int].relationship + change);
            assert(e.unapplied_to(t).npcs =~= s.npcs);
        },
        _ => {},
    }
}

/// Once the game is over it stays over: no effect applied or reversed, and no
/// end-of-game check, starts it again.
pub proof fn game_over_is_final(
    e: Effect,
    s: StateModel,
    p: EventPoolModel,
    region_id: Option<usize>,
    authoritarian_is_ally: bool,
    outlook_below_zero: bool,
)
    requires
        s.game_over,
    ensures
        e.applied_to(s, p, region_id).0.game_over,
        e.unapplied_to(s).game_over,
        game_over_checked(s, authoritarian_is_ally, outlook_below_zero).game_over,
{
}

/// Effects that cannot be reversed, `SetProjectStatus` aside, leave the state as it is
/// when reversed.
pub proof fn irreversible_effects_unapply_to_nothing(e: Effect, s: StateModel)
    requires
        !e.is_reversible(),
        !(e is SetProjectStatus),
    ensures
        e.can_unapply(s),
        e.unapplied_to(s) == s,
{
}

/// An auto-click has no impact on the state or the event pool.
pub proof fn auto_click_has_no_impact(
    target: usize,
    s: StateModel,
    p: EventPoolModel,
    region_id: Option<usize>,
)
    ensures
        Effect::AutoClick(target).can_apply(s, p, region_id),
        Effect::AutoClick(target).applied_to(s, p, region_id) == (s, p),
        Effect::AutoClick(target).unapplied_to(s) == s,
{
}

} // verus!
