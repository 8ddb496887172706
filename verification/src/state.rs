use vstd::prelude::*;

use crate::effects::{Flag, Request};

verus! {

/// Where a project stands in its life cycle.
#[derive(Clone, Copy, Debug, PartialEq, Eq, Structural)]
pub enum Status {
    Inactive,
    Building,
    Active,
    Halted,
    Stalled,
    Finished,
}

/// The part of a project that effects change.
#[derive(Clone, Copy, Debug, PartialEq, Eq, Structural)]
pub struct Project {
    pub locked: bool,
    pub status: Status,
}

/// The part of a production process that effects change.
#[derive(Clone, Copy, Debug, PartialEq, Eq, Structural)]
pub struct Process {
    pub locked: bool,
}

/// The part of a non-player character that effects change.
#[derive(Clone, Copy, Debug, PartialEq, Eq, Structural)]
pub struct NPC {
    pub locked: bool,
    pub relationship: isize,
}

/// The part of a region that effects change.
#[derive(Clone, Debug, PartialEq)]
pub struct Region {
    pub seceded: bool,
    pub flags: Vec<String>,
}

/// A region as the contracts see it: its flags as character sequences.
pub struct RegionModel {
    pub seceded: bool,
    pub flags: Seq<Seq<char>>,
}

impl View for Region {
    type V = RegionModel;

    open spec fn view(&self) -> RegionModel {
        RegionModel { seceded: self.seceded, flags: self.flags@.map_values(|f: String| f@) }
    }
}

/// The part of the world that effects change through whole numbers and lists.
#[derive(Clone, Debug, PartialEq)]
pub struct World {
    pub year: usize,
    pub regions: Vec<Region>,
}

/// The part of the game state that effects change through whole numbers, switches and lists.
#[derive(Clone, Debug, PartialEq)]
pub struct State {
    pub game_over: bool,
    pub political_capital: isize,
    pub research_points: isize,
    pub malthusian_points: usize,
    pub hes_points: usize,
    pub falc_points: usize,
    pub world: World,
    pub projects: Vec<Project>,
    pub processes: Vec<Process>,
    pub npcs: Vec<NPC>,
    pub requests: Vec<(Request, usize, bool, usize)>,
    pub flags: Vec<Flag>,
}

/// The game state as the contracts see it: counters as integers, lists as sequences.
pub struct StateModel {
    pub game_over: bool,
    pub political_capital: int,
    pub research_points: int,
    pub malthusian_points: int,
    pub hes_points: int,
    pub falc_points: int,
    pub year: int,
    pub regions: Seq<RegionModel>,
    pub projects: Seq<Project>,
    pub processes: Seq<Process>,
    pub npcs: Seq<NPC>,
    pub requests: Seq<(Request, usize, bool, usize)>,
    pub flags: Seq<Flag>,
}

impl View for State {
    type V = StateModel;

    open spec fn view(&self) -> StateModel {
        StateModel {
            game_over: self.game_over,
            political_capital: self.political_capital as int,
            research_points: self.research_points as int,
            malthusian_points: self.malthusian_points as int,
            hes_points: self.hes_points as int,
            falc_points: self.falc_points as int,
            year: self.world.year as int,
            regions: self.world.regions@.map_values(|r: Region| r@),
            projects: self.projects@,
            processes: self.processes@,
            npcs: self.npcs@,
            requests: self.requests@,
            flags: self.flags@,
        }
    }
}

impl StateModel {
    /// Every counter lies in the range of the machine integer that holds it.
    pub open spec fn in_range(self) -> bool {
        &&& isize::MIN <= self.political_capital <= isize::MAX
        &&& isize::MIN <= self.research_points <= isize::MAX
        &&& 0 <= self.malthusian_points <= usize::MAX
        &&& 0 <= self.hes_points <= usize::MAX
        &&& 0 <= self.falc_points <= usize::MAX
        &&& 0 <= self.year <= usize::MAX
    }
}

/// A random event as effects see it: whether it can still fire.
#[derive(Clone, Copy, Debug, PartialEq, Eq, Structural)]
pub struct Event {
    pub locked: bool,
}

/// The pool of events, and the events queued to fire later:
/// each queued entry is the event, the region it concerns, and the years to wait.
#[derive(Clone, Debug, PartialEq)]
pub struct EventPool {
    pub events: Vec<Event>,
    pub queue: Vec<(usize, Option<usize>, usize)>,
}

/// The event pool as the contracts see it.
pub struct EventPoolModel {
    pub events: Seq<Event>,
    pub queue: Seq<(usize, Option<usize>, usize)>,
}

impl View for EventPool {
    type V = EventPoolModel;

    open spec fn view(&self) -> EventPoolModel {
        EventPoolModel { events: self.events@, queue: self.queue@ }
    }
}

impl EventPool {
    /// Queues event `id` to fire after `years` years, for the region `region_id` if any.
    pub fn queue_event(&mut self, id: usize, region_id: Option<usize>, years: usize)
        ensures
            final(self)@.events == old(self)@.events,
            final(self)@.queue == old(self)@.queue.push((id, region_id, years)),
    {
        self.queue.push((id, region_id, years));
    }
}

} // verus!
