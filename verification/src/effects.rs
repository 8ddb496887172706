use vstd::prelude::*;

use crate::state::{EventPool, EventPoolModel, Project, State, StateModel, Status, NPC};

verus! {

/// The kind of thing a request asks the player for.
#[derive(Clone, Copy, Debug, PartialEq, Eq, Structural)]
pub enum Request {
    Project,
    Process,
}

/// A standing policy switch of the game.
#[derive(Clone, Copy, Debug, PartialEq, Eq, Structural)]
pub enum Flag {
    Electrified,
    Vegetarian,
    Vegan,
    ClosedBorders,
    EVs,
    HyperResearch,
    StopDevelopment,
    FastDevelopment,
    Degrowth,
    MetalsShortage,
    DeepSeaMining,
}

/// A counter that belongs to the player.
#[derive(Clone, Copy, Debug, PartialEq, Eq, Structural)]
pub enum PlayerVariable {
    PoliticalCapital,
    ResearchPoints,
    MalthusianPoints,
    HESPoints,
    FALCPoints,
}

/// An effect whose change to the state is over whole numbers, switches and lists.
///
/// Where an effect's amount is a fractional number, `WorldYear` and `PlayerVariable`
/// hold its whole part: the amount truncated toward zero and saturated to the range of
/// `i128`. The counter that receives it takes that whole part saturated once more to its
/// own type, as a cast of the fractional amount to that type would give.
#[derive(Clone, Debug, PartialEq)]
pub enum Effect {
    WorldYear(i128),
    PlayerVariable(PlayerVariable, i128),
    AddEvent(usize),
    TriggerEvent(usize, usize),
    UnlocksProject(usize),
    UnlocksProcess(usize),
    UnlocksNPC(usize),
    ProjectRequest(usize, bool, usize),
    ProcessRequest(usize, bool, usize),
    SetProjectStatus(usize, Status, usize),
    RegionLeave,
    AddRegionFlag(String),
    AddFlag(Flag),
    AutoClick(usize),
    NPCRelationship(usize, isize),
    GameOver,
}

/// A whole number saturated to the range of `isize`.
pub open spec fn saturate_isize(w: int) -> int {
    if w < isize::MIN {
        isize::MIN as int
    } else if w > isize::MAX {
        isize::MAX as int
    } else {
        w
    }
}

/// A whole number saturated to the range of `usize`.
pub open spec fn saturate_usize(w: int) -> int {
    if w < 0 {
        0
    } else if w > usize::MAX {
        usize::MAX as int
    } else {
        w
    }
}

fn whole_to_isize(w: i128) -> (r: isize)
    ensures
        r == saturate_isize(w as int),
{
    if w < isize::MIN as i128 {
        isize::MIN
    } else if w > isize::MAX as i128 {
        isize::MAX
    } else {
        w as isize
    }
}

fn whole_to_usize(w: i128) -> (r: usize)
    ensures
        r == saturate_usize(w as int),
{
    if w < 0 {
        0
    } else if w > usize::MAX as i128 {
        usize::MAX
    } else {
        w as usize
    }
}

impl PlayerVariable {
    /// Whether the counter is held as a signed integer.
    pub open spec fn is_signed(self) -> bool {
        self is PoliticalCapital || self is ResearchPoints
    }

    /// The amount that the whole part `w` of a change adds to this counter.
    pub open spec fn amount(self, w: int) -> int {
        if self.is_signed() {
            saturate_isize(w)
        } else {
            saturate_usize(w)
        }
    }

    /// Whether `v` fits the machine integer that holds this counter.
    pub open spec fn fits(self, v: int) -> bool {
        if self.is_signed() {
            isize::MIN <= v <= isize::MAX
        } else {
            0 <= v <= usize::MAX
        }
    }
}

impl StateModel {
    /// The value of a player counter.
    pub open spec fn player_variable(self, var: PlayerVariable) -> int {
        match var {
            PlayerVariable::PoliticalCapital => self.political_capital,
            PlayerVariable::ResearchPoints => self.research_points,
            PlayerVariable::MalthusianPoints => self.malthusian_points,
            PlayerVariable::HESPoints => self.hes_points,
            PlayerVariable::FALCPoints => self.falc_points,
        }
    }

    /// The state with one player counter set to `v` and all else as it was.
    pub open spec fn with_player_variable(self, var: PlayerVariable, v: int) -> StateModel {
        match var {
            PlayerVariable::PoliticalCapital => StateModel { political_capital: v, ..self },
            PlayerVariable::ResearchPoints => StateModel { research_points: v, ..self },
            PlayerVariable::MalthusianPoints => StateModel { malthusian_points: v, ..self },
            PlayerVariable::HESPoints => StateModel { hes_points: v, ..self },
            PlayerVariable::FALCPoints => StateModel { falc_points: v, ..self },
        }
    }

    /// The state with the game declared over.
    pub open spec fn ended(self) -> StateModel {
        StateModel { game_over: true, ..self }
    }
}

/// A player counter's value, the amount that the whole part `w` adds to it,
/// and the bounds of the machine integer that holds it.
fn counter_terms(state: &State, var: PlayerVariable, w: i128) -> (r: (i128, i128, i128, i128))
    ensures
        r.0 == state@.player_variable(var),
        r.1 == var.amount(w as int),
        forall|v: int| var.fits(v) <==> r.2 <= v <= r.3,
{
    match var {
        PlayerVariable::PoliticalCapital => (
            state.political_capital as i128,
            whole_to_isize(w) as i128,
            isize::MIN as i128,
            isize::MAX as i128,
        ),
        PlayerVariable::ResearchPoints => (
            state.research_points as i128,
            whole_to_isize(w) as i128,
            isize::MIN as i128,
            isize::MAX as i128,
        ),
        PlayerVariable::MalthusianPoints => (
            state.malthusian_points as i128,
            whole_to_usize(w) as i128,
            0,
            usize::MAX as i128,
        ),
        PlayerVariable::HESPoints => (
            state.hes_points as i128,
            whole_to_usize(w) as i128,
            0,
            usize::MAX as i128,
        ),
        PlayerVariable::FALCPoints => (
            state.falc_points as i128,
            whole_to_usize(w) as i128,
            0,
            usize::MAX as i128,
        ),
    }
}

/// The state after the end-of-game check: the game ends when the Authoritarian is not
/// an ally and the world's outlook is below zero; otherwise nothing changes.
pub open spec fn game_over_checked(
    s: StateModel,
    authoritarian_is_ally: bool,
    outlook_below_zero: bool,
) -> StateModel {
    if !authoritarian_is_ally && outlook_below_zero {
        s.ended()
    } else {
        s
    }
}

/// Ends the game when the Authoritarian is not an ally and the world's outlook is below zero.
pub fn check_game_over(state: &mut State, authoritarian_is_ally: bool, outlook_below_zero: bool)
    ensures
        final(state)@ == game_over_checked(old(state)@, authoritarian_is_ally, outlook_below_zero),
{
    if !authoritarian_is_ally && outlook_below_zero {
        state.game_over = true;
    }
}

impl Effect {
    /// The inputs on which `apply` is defined: every index names an existing item,
    /// and no counter leaves the range of its machine integer.
    pub open spec fn can_apply(
        self,
        s: StateModel,
        p: EventPoolModel,
        region_id: Option<usize>,
    ) -> bool {
        match self {
            Effect::WorldYear(w) => s.year + saturate_usize(w as int) <= usize::MAX,
            Effect::PlayerVariable(var, w) => var.fits(
                s.player_variable(var) + var.amount(w as int),
            ),
            Effect::AddEvent(id) => id < p.events.len(),
            Effect::UnlocksProject(id) => id < s.projects.len(),
            Effect::UnlocksProcess(id) => id < s.processes.len(),
            Effect::UnlocksNPC(id) => id < s.npcs.len(),
            Effect::RegionLeave => region_id matches Some(id) ==> id < s.regions.len(),
            Effect::AddRegionFlag(_) => region_id matches Some(id) ==> id < s.regions.len(),
            Effect::NPCRelationship(id, change) => {
                &&& id < s.npcs.len()
                &&& isize::MIN <= s.npcs[id as int].relationship + change <= isize::MAX
            },
            _ => true,
        }
    }

    /// The state and event pool after the effect is applied.
    pub open spec fn applied_to(
        self,
        s: StateModel,
        p: EventPoolModel,
        region_id: Option<usize>,
    ) -> (StateModel, EventPoolModel) {
        match self {
            Effect::GameOver => (s.ended(), p),
            Effect::WorldYear(w) => (StateModel { year: s.year + saturate_usize(w as int), ..s }, p),
            Effect::PlayerVariable(var, w) => (
                s.with_player_variable(var, s.player_variable(var) + var.amount(w as int)),
                p,
            ),
            Effect::AddEvent(id) => (
                s,
                EventPoolModel {
                    events: p.events.update(id as int, crate::state::Event { locked: false }),
                    ..p
                },
            ),
            Effect::TriggerEvent(id, years) => (
                s,
                EventPoolModel { queue: p.queue.push((id, region_id, years)), ..p },
            ),
            Effect::UnlocksProject(id) => (
                StateModel {
                    projects: s.projects.update(
                        id as int,
                        Project { locked: false, ..s.projects[id as int] },
                    ),
                    ..s
                },
                p,
            ),
            Effect::UnlocksProcess(id) => (
                StateModel {
                    processes: s.processes.update(id as int, crate::state::Process { locked: false }),
                    ..s
                },
                p,
            ),
            Effect::UnlocksNPC(id) => (
                StateModel {
                    npcs: s.npcs.update(id as int, NPC { locked: false, ..s.npcs[id as int] }),
                    ..s
                },
                p,
            ),
            Effect::ProjectRequest(id, active, bounty) => (
                StateModel { requests: s.requests.push((Request::Project, id, active, bounty)), ..s },
                p,
            ),
            Effect::ProcessRequest(id, active, bounty) => (
                StateModel { requests: s.requests.push((Request::Process, id, active, bounty)), ..s },
                p,
            ),
            Effect::RegionLeave => match region_id {
                Some(id) => (
                    StateModel {
                        regions: s.regions.update(
                            id as int,
                            crate::state::RegionModel { seceded: true, ..s.regions[id as int] },
                        ),
                        ..s
                    },
                    p,
                ),
                None => (s, p),
            },
            Effect::AddRegionFlag(flag) => match region_id {
                Some(id) => (
                    StateModel {
                        regions: s.regions.update(
                            id as int,
                            crate::state::RegionModel {
                                flags: s.regions[id as int].flags.push(flag@),
                                ..s.regions[id as int]
                            },
                        ),
                        ..s
                    },
                    p,
                ),
                None => (s, p),
            },
            Effect::AddFlag(flag) => (StateModel { flags: s.flags.push(flag), ..s }, p),
            Effect::NPCRelationship(id, change) => (
                StateModel {
                    npcs: s.npcs.update(
                        id as int,
                        NPC {
                            relationship: (s.npcs[id as int].relationship + change) as isize,
                            ..s.npcs[id as int]
                        },
                    ),
                    ..s
                },
                p,
            ),
            Effect::SetProjectStatus(..) => (s, p),
            Effect::AutoClick(_) => (s, p),
        }
    }

    /// Whether `unapply` reverses what `apply` did: true of the effects that add an amount.
    pub open spec fn is_reversible(self) -> bool {
        self is WorldYear || self is PlayerVariable || self is NPCRelationship
    }

    /// The inputs on which `unapply` is defined: every index names an existing item,
    /// and no counter leaves the range of its machine integer.
    pub open spec fn can_unapply(self, s: StateModel) -> bool {
        match self {
            Effect::WorldYear(w) => s.year - saturate_usize(w as int) >= 0,
            Effect::PlayerVariable(var, w) => var.fits(
                s.player_variable(var) - var.amount(w as int),
            ),
            Effect::NPCRelationship(id, change) => {
                &&& id < s.npcs.len()
                &&& isize::MIN <= s.npcs[id as int].relationship - change <= isize::MAX
            },
            Effect::SetProjectStatus(id, _, _) => id < s.projects.len(),
            _ => true,
        }
    }

    /// The state after the effect is reversed. The event pool is never touched.
    pub open spec fn unapplied_to(self, s: StateModel) -> StateModel {
        match self {
            Effect::WorldYear(w) => StateModel { year: s.year - saturate_usize(w as int), ..s },
            Effect::PlayerVariable(var, w) => s.with_player_variable(
                var,
                s.player_variable(var) - var.amount(w as int),
            ),
            Effect::NPCRelationship(id, change) => StateModel {
                npcs: s.npcs.update(
                    id as int,
                    NPC {
                        relationship: (s.npcs[id as int].relationship - change) as isize,
                        ..s.npcs[id as int]
                    },
                ),
                ..s
            },
            Effect::SetProjectStatus(id, status, _) => StateModel {
                projects: s.projects.update(
                    id as int,
                    Project { status: status, ..s.projects[id as int] },
                ),
                ..s
            },
            _ => s,
        }
    }

    /// Whether `apply` is defined on these inputs.
    pub fn can_apply_to(
        &self,
        state: &State,
        event_pool: &EventPool,
        region_id: Option<usize>,
    ) -> (r: bool)
        ensures
            r == self.can_apply(state@, event_pool@, region_id),
    {
        match self {
            Effect::WorldYear(w) => {
                (state.world.year as i128) + (whole_to_usize(*w) as i128) <= usize::MAX as i128
            },
            Effect::PlayerVariable(var, w) => {
                let (current, amount, low, high) = counter_terms(state, *var, *w);
                low <= current + amount && current + amount <= high
            },
            Effect::AddEvent(id) => *id < event_pool.events.len(),
            Effect::UnlocksProject(id) => *id < state.projects.len(),
            Effect::UnlocksProcess(id) => *id < state.processes.len(),
            Effect::UnlocksNPC(id) => *id < state.npcs.len(),
            Effect::RegionLeave | Effect::AddRegionFlag(_) => match region_id {
                Some(id) => id < state.world.regions.len(),
                None => true,
            },
            Effect::NPCRelationship(id, change) => {
                if *id < state.npcs.len() {
                    let sum: i128 = state.npcs[*id].relationship as i128 + *change as i128;
                    isize::MIN as i128 <= sum && sum <= isize::MAX as i128
                } else {
                    false
                }
            },
            _ => true,
        }
    }

    /// Whether `unapply` is defined on this state.
    pub fn can_unapply_to(&self, state: &State) -> (r: bool)
        ensures
            r == self.can_unapply(state@),
    {
        match self {
            Effect::WorldYear(w) => whole_to_usize(*w) <= state.world.year,
            Effect::PlayerVariable(var, w) => {
                let (current, amount, low, high) = counter_terms(state, *var, *w);
                low <= current - amount && current - amount <= high
            },
            Effect::NPCRelationship(id, change) => {
                if *id < state.npcs.len() {
                    let difference: i128 = state.npcs[*id].relationship as i128 - *change as i128;
                    isize::MIN as i128 <= difference && difference <= isize::MAX as i128
                } else {
                    false
                }
            },
            Effect::SetProjectStatus(id, _, _) => *id < state.projects.len(),
            _ => true,
        }
    }

    /// Applies the effect to the state and the event pool; `region_id` names the region
    /// that the effect concerns, where there is one.
    pub fn apply(&self, state: &mut State, event_pool: &mut EventPool, region_id: Option<usize>)
        requires
            self.can_apply(old(state)@, old(event_pool)@, region_id),
        ensures
            (final(state)@, final(event_pool)@) == self.applied_to(
                old(state)@,
                old(event_pool)@,
                region_id,
            ),
    {
        match self {
            Effect::GameOver => {
                state.game_over = true;
            },
            Effect::WorldYear(w) => {
                state.world.year = state.world.year + whole_to_usize(*w);
            },
            Effect::PlayerVariable(var, w) => match var {
                PlayerVariable::PoliticalCapital => {
                    state.political_capital = state.political_capital + whole_to_isize(*w);
                },
                PlayerVariable::ResearchPoints => {
                    state.research_points = state.research_points + whole_to_isize(*w);
                },
                PlayerVariable::MalthusianPoints => {
                    state.malthusian_points = state.malthusian_points + whole_to_usize(*w);
                },
                PlayerVariable::HESPoints => {
                    state.hes_points = state.hes_points + whole_to_usize(*w);
                },
                PlayerVariable::FALCPoints => {
                    state.falc_points = state.falc_points + whole_to_usize(*w);
                },
            },
            Effect::AddEvent(id) => {
                event_pool.events.set(*id, crate::state::Event { locked: false });
            },
            Effect::TriggerEvent(id, years) => {
                event_pool.queue_event(*id, region_id, *years);
            },
            Effect::UnlocksProject(id) => {
                let project = state.projects[*id];
                state.projects.set(*id, Project { locked: false, ..project });
            },
            Effect::UnlocksProcess(id) => {
                state.processes.set(*id, crate::state::Process { locked: false });
            },
            Effect::UnlocksNPC(id) => {
                let npc = state.npcs[*id];
                state.npcs.set(*id, NPC { locked: false, ..npc });
            },
            Effect::ProjectRequest(id, active, bounty) => {
                state.requests.push((Request::Project, *id, *active, *bounty));
            },
            Effect::ProcessRequest(id, active, bounty) => {
                state.requests.push((Request::Process, *id, *active, *bounty));
            },
            Effect::RegionLeave => {
                if let Some(id) = region_id {
                    let ghost before = state.world.regions@;
                    state.world.regions[id].seceded = true;
                    assert(state.world.regions@.map_values(|r: crate::state::Region| r@)
                        =~= before.map_values(|r: crate::state::Region| r@).update(
                        id as int,
                        crate::state::RegionModel { seceded: true, ..before[id as int]@ },
                    ));
                }
            },
            Effect::AddRegionFlag(flag) => {
                if let Some(id) = region_id {
                    let ghost before = state.world.regions@;
                    let copy = flag.clone();
                    state.world.regions[id].flags.push(copy);
                    let ghost after = state.world.regions@;
                    assert(after[id as int].flags@.map_values(|f: String| f@)
                        =~= before[id as int].flags@.map_values(|f: String| f@).push(flag@));
                    assert(after.map_values(|r: crate::state::Region| r@)
                        =~= before.map_values(|r: crate::state::Region| r@).update(
                        id as int,
                        crate::state::RegionModel {
                            flags: before[id as int]@.flags.push(flag@),
                            ..before[id as int]@
                        },
                    ));
                }
            },
            Effect::AddFlag(flag) => {
                state.flags.push(*flag);
            },
            Effect::NPCRelationship(id, change) => {
                let npc = state.npcs[*id];
                state.npcs.set(*id, NPC { relationship: npc.relationship + *change, ..npc });
            },
            Effect::SetProjectStatus(..) => {},
            Effect::AutoClick(_) => {},
        }
    }

    /// Reverses the effect where it can be reversed, and sets a project's status for
    /// `SetProjectStatus`; every other effect leaves the state as it is.
    pub fn unapply(&self, state: &mut State, event_pool: &mut EventPool, region_id: Option<usize>)
        requires
            self.can_unapply(old(state)@),
        ensures
            final(state)@ == self.unapplied_to(old(state)@),
            final(event_pool)@ == old(event_pool)@,
    {
        match self {
            Effect::WorldYear(w) => {
                state.world.year = state.world.year - whole_to_usize(*w);
            },
            Effect::PlayerVariable(var, w) => match var {
                PlayerVariable::PoliticalCapital => {
                    state.political_capital = state.political_capital - whole_to_isize(*w);
                },
                PlayerVariable::ResearchPoints => {
                    state.research_points = state.research_points - whole_to_isize(*w);
                },
                PlayerVariable::MalthusianPoints => {
                    state.malthusian_points = state.malthusian_points - whole_to_usize(*w);
                },
                PlayerVariable::HESPoints => {
                    state.hes_points = state.hes_points - whole_to_usize(*w);
                },
                PlayerVariable::FALCPoints => {
                    state.falc_points = state.falc_points - whole_to_usize(*w);
                },
            },
            Effect::NPCRelationship(id, change) => {
                let npc = state.npcs[*id];
                state.npcs.set(*id, NPC { relationship: npc.relationship - *change, ..npc });
            },
            Effect::SetProjectStatus(id, status, _duration) => {
                let project = state.projects[*id];
                state.projects.set(*id, Project { status: *status, ..project });
            },
            _ => {},
        }
    }
}

} // verus!
