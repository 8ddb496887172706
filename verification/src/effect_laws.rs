use vstd::prelude::*;

use crate::effects::{game_over_checked, Effect, Flag, PlayerVariable, Request};
use crate::state::{Event, EventPoolModel, Project, StateModel, Status, NPC};

verus! {

/// The end-of-game check sets `game_over` when the Authoritarian is not an ally and the
/// outlook is below zero, keeps it when it was already set, and touches nothing else.
pub proof fn game_over_check_decides_on_ally_and_outlook(
    s: StateModel,
    authoritarian_is_ally: bool,
    outlook_below_zero: bool,
)
    ensures
        game_over_checked(s, authoritarian_is_ally, outlook_below_zero) == (StateModel {
            game_over: s.game_over || (!authoritarian_is_ally && outlook_below_zero),
            ..s
        }),
{
}

/// `GameOver` always applies, ends the game and changes nothing else; reversing it
/// changes nothing.
pub proof fn game_over_effect_ends_the_game(s: StateModel, p: EventPoolModel, r: Option<usize>)
    ensures
        Effect::GameOver.can_apply(s, p, r),
        Effect::GameOver.applied_to(s, p, r) == (StateModel { game_over: true, ..s }, p),
        Effect::GameOver.can_unapply(s),
        Effect::GameOver.unapplied_to(s) == s,
{
}

/// The year moves forward by the whole part of the change, which counts as zero when
/// negative and as `usize::MAX` beyond it; reversing moves it back by as much.
pub proof fn year_moves_by_whole_part(w: i128, s: StateModel, p: EventPoolModel, r: Option<usize>)
    ensures
        ({
            let e = Effect::WorldYear(w);
            let v = if w < 0 {
                0
            } else if w > usize::MAX {
                usize::MAX as int
            } else {
                w as int
            };
            &&& e.can_apply(s, p, r) <==> s.year + v <= usize::MAX
            &&& e.can_unapply(s) <==> s.year - v >= 0
            &&& 0 <= w <= usize::MAX ==> e.applied_to(s, p, r) == (
                StateModel { year: s.year + w, ..s },
                p,
            )
            &&& w < 0 ==> e.applied_to(s, p, r) == (s, p) && e.unapplied_to(s) == s
            &&& w > usize::MAX ==> e.applied_to(s, p, r) == (
                StateModel { year: s.year + usize::MAX, ..s },
                p,
            )
            &&& 0 <= w <= usize::MAX ==> e.unapplied_to(s) == StateModel { year: s.year - w, ..s }
        }),
{
}

/// Political capital moves by the whole part of the change, saturated to `isize`, for
/// either sign; reversing moves it back by as much. Nothing else changes.
pub proof fn political_capital_moves_by_whole_part(
    w: i128,
    s: StateModel,
    p: EventPoolModel,
    r: Option<usize>,
)
    ensures
        ({
            let e = Effect::PlayerVariable(PlayerVariable::PoliticalCapital, w);
            let v = if w < isize::MIN {
                isize::MIN as int
            } else if w > isize::MAX {
                isize::MAX as int
            } else {
                w as int
            };
            &&& isize::MIN <= w <= isize::MAX ==> v == w
            &&& e.can_apply(s, p, r) <==> isize::MIN <= s.political_capital + v <= isize::MAX
            &&& e.can_unapply(s) <==> isize::MIN <= s.political_capital - v <= isize::MAX
            &&& e.applied_to(s, p, r) == (
                StateModel { political_capital: s.political_capital + v, ..s },
                p,
            )
            &&& e.unapplied_to(s) == StateModel { political_capital: s.political_capital - v, ..s }
        }),
{
}

/// Research points move by the whole part of the change, saturated to `isize`, for
/// either sign; reversing moves them back by as much. Nothing else changes.
pub proof fn research_points_move_by_whole_part(
    w: i128,
    s: StateModel,
    p: EventPoolModel,
    r: Option<usize>,
)
    ensures
        ({
            let e = Effect::PlayerVariable(PlayerVariable::ResearchPoints, w);
            let v = if w < isize::MIN {
                isize::MIN as int
            } else if w > isize::MAX {
                isize::MAX as int
            } else {
                w as int
            };
            &&& isize::MIN <= w <= isize::MAX ==> v == w
            &&& e.can_apply(s, p, r) <==> isize::MIN <= s.research_points + v <= isize::MAX
            &&& e.can_unapply(s) <==> isize::MIN <= s.research_points - v <= isize::MAX
            &&& e.applied_to(s, p, r) == (
                StateModel { research_points: s.research_points + v, ..s },
                p,
            )
            &&& e.unapplied_to(s) == StateModel { research_points: s.research_points - v, ..s }
        }),
{
}

/// Malthusian points grow by the whole part of the change, which counts as zero when
/// negative and as `usize::MAX` beyond it; reversing takes as much away.
pub proof fn malthusian_points_move_by_whole_part(
    w: i128,
    s: StateModel,
    p: EventPoolModel,
    r: Option<usize>,
)
    ensures
        ({
            let e = Effect::PlayerVariable(PlayerVariable::MalthusianPoints, w);
            let v = if w < 0 {
                0
            } else if w > usize::MAX {
                usize::MAX as int
            } else {
                w as int
            };
            &&& e.can_apply(s, p, r) <==> 0 <= s.malthusian_points + v <= usize::MAX
            &&& e.can_unapply(s) <==> 0 <= s.malthusian_points - v <= usize::MAX
            &&& e.applied_to(s, p, r) == (
                StateModel { malthusian_points: s.malthusian_points + v, ..s },
                p,
            )
            &&& e.unapplied_to(s) == StateModel { malthusian_points: s.malthusian_points - v, ..s }
        }),
{
}

/// HES points grow by the whole part of the change, which counts as zero when negative
/// and as `usize::MAX` beyond it; reversing takes as much away.
pub proof fn hes_points_move_by_whole_part(
    w: i128,
    s: StateModel,
    p: EventPoolModel,
    r: Option<usize>,
)
    ensures
        ({
            let e = Effect::PlayerVariable(PlayerVariable::HESPoints, w);
            let v = if w < 0 {
                0
            } else if w > usize::MAX {
                usize::MAX as int
            } else {
                w as int
            };
            &&& e.can_apply(s, p, r) <==> 0 <= s.hes_points + v <= usize::MAX
            &&& e.can_unapply(s) <==> 0 <= s.hes_points - v <= usize::MAX
            &&& e.applied_to(s, p, r) == (StateModel { hes_points: s.hes_points + v, ..s }, p)
            &&& e.unapplied_to(s) == StateModel { hes_points: s.hes_points - v, ..s }
        }),
{
}

/// FALC points grow by the whole part of the change, which counts as zero when negative
/// and as `usize::MAX` beyond it; reversing takes as much away.
pub proof fn falc_points_move_by_whole_part(
    w: i128,
    s: StateModel,
    p: EventPoolModel,
    r: Option<usize>,
)
    ensures
        ({
            let e = Effect::PlayerVariable(PlayerVariable::FALCPoints, w);
            let v = if w < 0 {
                0
            } else if w > usize::MAX {
                usize::MAX as int
            } else {
                w as int
            };
            &&& e.can_apply(s, p, r) <==> 0 <= s.falc_points + v <= usize::MAX
            &&& e.can_unapply(s) <==> 0 <= s.falc_points - v <= usize::MAX
            &&& e.applied_to(s, p, r) == (StateModel { falc_points: s.falc_points + v, ..s }, p)
            &&& e.unapplied_to(s) == StateModel { falc_points: s.falc_points - v, ..s }
        }),
{
}

/// An NPC's relationship moves by the change, for every sign of it, and back by as much
/// when reversed; the NPC stays locked or unlocked, and no other NPC or part of the
/// state changes.
pub proof fn npc_relationship_moves_by_change(
    id: usize,
    c: isize,
    s: StateModel,
    p: EventPoolModel,
    r: Option<usize>,
)
    ensures
        ({
            let e = Effect::NPCRelationship(id, c);
            let (t, q) = e.applied_to(s, p, r);
            let u = e.unapplied_to(s);
            &&& e.can_apply(s, p, r) <==> (id < s.npcs.len() && isize::MIN
                <= s.npcs[id as int].relationship + c <= isize::MAX)
            &&& e.can_unapply(s) <==> (id < s.npcs.len() && isize::MIN
                <= s.npcs[id as int].relationship - c <= isize::MAX)
            &&& e.can_apply(s, p, r) ==> {
                &&& q == p
                &&& t == StateModel { npcs: t.npcs, ..s }
                &&& t.npcs.len() == s.npcs.len()
                &&& t.npcs[id as int].relationship == s.npcs[id as int].relationship + c
                &&& t.npcs[id as int].locked == s.npcs[id as int].locked
                &&& forall|j: int| 0 <= j < s.npcs.len() && j != id ==> t.npcs[j] == s.npcs[j]
            }
            &&& e.can_unapply(s) ==> {
                &&& u == StateModel { npcs: u.npcs, ..s }
                &&& u.npcs.len() == s.npcs.len()
                &&& u.npcs[id as int].relationship == s.npcs[id as int].relationship - c
                &&& u.npcs[id as int].locked == s.npcs[id as int].locked
                &&& forall|j: int| 0 <= j < s.npcs.len() && j != id ==> u.npcs[j] == s.npcs[j]
            }
        }),
{
}

/// `AddEvent` applies to an existing event, leaves it unlocked whatever it was before,
/// and changes no other event, the queue or the state; reversing it changes nothing.
pub proof fn add_event_unlocks_the_event(
    id: usize,
    s: StateModel,
    p: EventPoolModel,
    r: Option<usize>,
)
    ensures
        ({
            let e = Effect::AddEvent(id);
            let (t, q) = e.applied_to(s, p, r);
            &&& e.can_apply(s, p, r) <==> id < p.events.len()
            &&& e.can_apply(s, p, r) ==> {
                &&& t == s
                &&& q.queue == p.queue
                &&& q.events.len() == p.events.len()
                &&& q.events[id as int] == Event { locked: false }
                &&& forall|j: int| 0 <= j < p.events.len() && j != id ==> q.events[j] == p.events[j]
            }
            &&& e.can_unapply(s) && e.unapplied_to(s) == s
        }),
{
}

/// `UnlocksProject` leaves the project unlocked whatever it was, keeps its status, and
/// changes no other project or part of the state; reversing it changes nothing.
pub proof fn unlocks_project_unlocks_it(
    id: usize,
    s: StateModel,
    p: EventPoolModel,
    r: Option<usize>,
)
    ensures
        ({
            let e = Effect::UnlocksProject(id);
            let (t, q) = e.applied_to(s, p, r);
            &&& e.can_apply(s, p, r) <==> id < s.projects.len()
            &&& e.can_apply(s, p, r) ==> {
                &&& q == p
                &&& t == StateModel { projects: t.projects, ..s }
                &&& t.projects.len() == s.projects.len()
                &&& t.projects[id as int] == Project {
                    locked: false,
                    status: s.projects[id as int].status,
                }
                &&& forall|j: int|
                    0 <= j < s.projects.len() && j != id ==> t.projects[j] == s.projects[j]
            }
            &&& e.can_unapply(s) && e.unapplied_to(s) == s
        }),
{
}

/// `UnlocksProcess` leaves the process unlocked whatever it was, and changes no other
/// process or part of the state; reversing it changes nothing.
pub proof fn unlocks_process_unlocks_it(
    id: usize,
    s: StateModel,
    p: EventPoolModel,
    r: Option<usize>,
)
    ensures
        ({
            let e = Effect::UnlocksProcess(id);
            let (t, q) = e.applied_to(s, p, r);
            &&& e.can_apply(s, p, r) <==> id < s.processes.len()
            &&& e.can_apply(s, p, r) ==> {
                &&& q == p
                &&& t == StateModel { processes: t.processes, ..s }
                &&& t.processes.len() == s.processes.len()
                &&& !t.processes[id as int].locked
                &&& forall|j: int|
                    0 <= j < s.processes.len() && j != id ==> t.processes[j] == s.processes[j]
            }
            &&& e.can_unapply(s) && e.unapplied_to(s) == s
        }),
{
}

/// `UnlocksNPC` leaves the NPC unlocked whatever it was, keeps its relationship, and
/// changes no other NPC or part of the state; reversing it changes nothing.
pub proof fn unlocks_npc_unlocks_it(id: usize, s: StateModel, p: EventPoolModel, r: Option<usize>)
    ensures
        ({
            let e = Effect::UnlocksNPC(id);
            let (t, q) = e.applied_to(s, p, r);
            &&& e.can_apply(s, p, r) <==> id < s.npcs.len()
            &&& e.can_apply(s, p, r) ==> {
                &&& q == p
                &&& t == StateModel { npcs: t.npcs, ..s }
                &&& t.npcs.len() == s.npcs.len()
                &&& t.npcs[id as int] == NPC {
                    locked: false,
                    relationship: s.npcs[id as int].relationship,
                }
                &&& forall|j: int| 0 <= j < s.npcs.len() && j != id ==> t.npcs[j] == s.npcs[j]
            }
            &&& e.can_unapply(s) && e.unapplied_to(s) == s
        }),
{
}

/// A project request appends exactly `(Project, id, active, bounty)` after the requests
/// already there, and a process request `(Process, id, active, bounty)`; nothing else
/// changes, and reversing either changes nothing.
pub proof fn requests_append_what_they_carry(
    id: usize,
    active: bool,
    bounty: usize,
    s: StateModel,
    p: EventPoolModel,
    r: Option<usize>,
)
    ensures
        ({
            let (t, q) = Effect::ProjectRequest(id, active, bounty).applied_to(s, p, r);
            &&& Effect::ProjectRequest(id, active, bounty).can_apply(s, p, r)
            &&& q == p
            &&& t == StateModel { requests: t.requests, ..s }
            &&& t.requests.len() == s.requests.len() + 1
            &&& t.requests[s.requests.len() as int] == (Request::Project, id, active, bounty)
            &&& forall|j: int| 0 <= j < s.requests.len() ==> t.requests[j] == s.requests[j]
        }),
        ({
            let (t, q) = Effect::ProcessRequest(id, active, bounty).applied_to(s, p, r);
            &&& Effect::ProcessRequest(id, active, bounty).can_apply(s, p, r)
            &&& q == p
            &&& t == StateModel { requests: t.requests, ..s }
            &&& t.requests.len() == s.requests.len() + 1
            &&& t.requests[s.requests.len() as int] == (Request::Process, id, active, bounty)
            &&& forall|j: int| 0 <= j < s.requests.len() ==> t.requests[j] == s.requests[j]
        }),
        Effect::ProjectRequest(id, active, bounty).unapplied_to(s) == s,
        Effect::ProcessRequest(id, active, bounty).unapplied_to(s) == s,
{
}

/// `TriggerEvent` queues exactly `(id, region, years)` after the entries already queued,
/// and changes no event and no part of the state; reversing it changes nothing.
pub proof fn trigger_event_queues_it(
    id: usize,
    years: usize,
    s: StateModel,
    p: EventPoolModel,
    r: Option<usize>,
)
    ensures
        ({
            let (t, q) = Effect::TriggerEvent(id, years).applied_to(s, p, r);
            &&& Effect::TriggerEvent(id, years).can_apply(s, p, r)
            &&& t == s
            &&& q.events == p.events
            &&& q.queue.len() == p.queue.len() + 1
            &&& q.queue[p.queue.len() as int] == (id, r, years)
            &&& forall|j: int| 0 <= j < p.queue.len() ==> q.queue[j] == p.queue[j]
        }),
        Effect::TriggerEvent(id, years).unapplied_to(s) == s,
{
}

/// `AddFlag` appends the flag after the flags already set, and changes nothing else;
/// reversing it changes nothing.
pub proof fn add_flag_appends_it(flag: Flag, s: StateModel, p: EventPoolModel, r: Option<usize>)
    ensures
        ({
            let (t, q) = Effect::AddFlag(flag).applied_to(s, p, r);
            &&& Effect::AddFlag(flag).can_apply(s, p, r)
            &&& q == p
            &&& t == StateModel { flags: t.flags, ..s }
            &&& t.flags.len() == s.flags.len() + 1
            &&& t.flags[s.flags.len() as int] == flag
            &&& forall|j: int| 0 <= j < s.flags.len() ==> t.flags[j] == s.flags[j]
        }),
        Effect::AddFlag(flag).unapplied_to(s) == s,
{
}

/// `RegionLeave` makes the named region secede, keeping its flags, and changes no other
/// region or part of the state; with no region named it changes nothing. Reversing it
/// changes nothing.
pub proof fn region_leave_secedes_the_region(
    s: StateModel,
    p: EventPoolModel,
    r: Option<usize>,
)
    ensures
        ({
            let (t, q) = Effect::RegionLeave.applied_to(s, p, r);
            &&& r is None ==> Effect::RegionLeave.can_apply(s, p, r) && t == s && q == p
            &&& r matches Some(id) ==> {
                &&& Effect::RegionLeave.can_apply(s, p, r) <==> id < s.regions.len()
                &&& id < s.regions.len() ==> {
                    &&& q == p
                    &&& t == StateModel { regions: t.regions, ..s }
                    &&& t.regions.len() == s.regions.len()
                    &&& t.regions[id as int].seceded
                    &&& t.regions[id as int].flags == s.regions[id as int].flags
                    &&& forall|j: int|
                        0 <= j < s.regions.len() && j != id ==> t.regions[j] == s.regions[j]
                }
            }
        }),
        Effect::RegionLeave.unapplied_to(s) == s,
{
}

/// `AddRegionFlag` appends the flag to the named region's flags, keeping whether it has
/// seceded, and changes no other region or part of the state; with no region named it
/// changes nothing. Reversing it changes nothing.
pub proof fn add_region_flag_appends_it(
    flag: String,
    s: StateModel,
    p: EventPoolModel,
    r: Option<usize>,
)
    ensures
        ({
            let e = Effect::AddRegionFlag(flag);
            let (t, q) = e.applied_to(s, p, r);
            &&& r is None ==> e.can_apply(s, p, r) && t == s && q == p
            &&& r matches Some(id) ==> {
                &&& e.can_apply(s, p, r) <==> id < s.regions.len()
                &&& id < s.regions.len() ==> {
                    &&& q == p
                    &&& t == StateModel { regions: t.regions, ..s }
                    &&& t.regions.len() == s.regions.len()
                    &&& t.regions[id as int].seceded == s.regions[id as int].seceded
                    &&& t.regions[id as int].flags.len() == s.regions[id as int].flags.len() + 1
                    &&& t.regions[id as int].flags[s.regions[id as int].flags.len() as int]
                        == flag@
                    &&& forall|k: int|
                        0 <= k < s.regions[id as int].flags.len() ==> t.regions[id as int].flags[k]
                            == s.regions[id as int].flags[k]
                    &&& forall|j: int|
                        0 <= j < s.regions.len() && j != id ==> t.regions[j] == s.regions[j]
                }
            }
        }),
        Effect::AddRegionFlag(flag).unapplied_to(s) == s,
{
}

/// Applying `SetProjectStatus` changes nothing; reversing it gives the named project the
/// named status, keeps whether it is locked, and changes no other project or part of
/// the state.
pub proof fn set_project_status_sets_it_on_reversal(
    id: usize,
    status: Status,
    duration: usize,
    s: StateModel,
    p: EventPoolModel,
    r: Option<usize>,
)
    ensures
        ({
            let e = Effect::SetProjectStatus(id, status, duration);
            let u = e.unapplied_to(s);
            &&& e.can_apply(s, p, r)
            &&& e.applied_to(s, p, r) == (s, p)
            &&& e.can_unapply(s) <==> id < s.projects.len()
            &&& id < s.projects.len() ==> {
                &&& u == StateModel { projects: u.projects, ..s }
                &&& u.projects.len() == s.projects.len()
                &&& u.projects[id as int] == Project {
                    locked: s.projects[id as int].locked,
                    status: status,
                }
                &&& forall|j: int|
                    0 <= j < s.projects.len() && j != id ==> u.projects[j] == s.projects[j]
            }
        }),
{
}

} // verus!
