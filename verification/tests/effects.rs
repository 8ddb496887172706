use engine::effects::{check_game_over, Effect, Flag, PlayerVariable, Request};
use engine::state::{Event, EventPool, Process, Project, Region, State, Status, World, NPC};

fn sample_state() -> State {
    State {
        game_over: false,
        political_capital: 10,
        research_points: -2,
        malthusian_points: 4,
        hes_points: 0,
        falc_points: 7,
        world: World {
            year: 2022,
            regions: vec![
                Region { seceded: false, flags: vec![] },
                Region { seceded: false, flags: vec!["coastal".to_string()] },
            ],
        },
        projects: vec![
            Project { locked: true, status: Status::Inactive },
            Project { locked: true, status: Status::Building },
        ],
        processes: vec![Process { locked: true }, Process { locked: true }],
        npcs: vec![
            NPC { locked: true, relationship: 3 },
            NPC { locked: true, relationship: -1 },
        ],
        requests: vec![],
        flags: vec![],
    }
}

fn sample_pool() -> EventPool {
    EventPool {
        events: vec![Event { locked: true }, Event { locked: true }, Event { locked: true }],
        queue: vec![],
    }
}

#[test]
fn game_over_effect_ends_the_game() {
    let mut s = sample_state();
    let mut p = sample_pool();
    Effect::GameOver.apply(&mut s, &mut p, None);
    assert!(s.game_over);
    let mut expected = sample_state();
    expected.game_over = true;
    assert_eq!(s, expected);
    assert_eq!(p, sample_pool());
}

#[test]
fn year_advances_by_the_whole_part() {
    let mut s = sample_state();
    let mut p = sample_pool();
    Effect::WorldYear(5).apply(&mut s, &mut p, None);
    assert_eq!(s.world.year, 2027);
}

#[test]
fn negative_year_change_saturates_to_zero() {
    let mut s = sample_state();
    let mut p = sample_pool();
    Effect::WorldYear(-5).apply(&mut s, &mut p, None);
    assert_eq!(s.world.year, 2022);
}

#[test]
fn player_variables_each_receive_their_change() {
    let mut s = sample_state();
    let mut p = sample_pool();
    Effect::PlayerVariable(PlayerVariable::PoliticalCapital, -15).apply(&mut s, &mut p, None);
    Effect::PlayerVariable(PlayerVariable::ResearchPoints, 6).apply(&mut s, &mut p, None);
    Effect::PlayerVariable(PlayerVariable::MalthusianPoints, 3).apply(&mut s, &mut p, None);
    Effect::PlayerVariable(PlayerVariable::HESPoints, 2).apply(&mut s, &mut p, None);
    Effect::PlayerVariable(PlayerVariable::FALCPoints, -4).apply(&mut s, &mut p, None);
    assert_eq!(s.political_capital, -5);
    assert_eq!(s.research_points, 4);
    assert_eq!(s.malthusian_points, 7);
    assert_eq!(s.hes_points, 2);
    // a negative change to an unsigned counter counts as zero
    assert_eq!(s.falc_points, 7);
}

#[test]
fn huge_signed_change_saturates_to_isize() {
    let mut s = sample_state();
    s.political_capital = 0;
    let mut p = sample_pool();
    Effect::PlayerVariable(PlayerVariable::PoliticalCapital, i128::MAX).apply(&mut s, &mut p, None);
    assert_eq!(s.political_capital, isize::MAX);
}

#[test]
fn huge_unsigned_change_saturates_to_usize() {
    let mut s = sample_state();
    s.hes_points = 0;
    let mut p = sample_pool();
    Effect::PlayerVariable(PlayerVariable::HESPoints, i128::MAX).apply(&mut s, &mut p, None);
    assert_eq!(s.hes_points, usize::MAX);
}

#[test]
fn add_event_unlocks_that_event() {
    let mut s = sample_state();
    let mut p = sample_pool();
    Effect::AddEvent(1).apply(&mut s, &mut p, None);
    assert_eq!(p.events, vec![Event { locked: true }, Event { locked: false }, Event { locked: true }]);
    assert_eq!(s, sample_state());
}

#[test]
fn trigger_event_queues_it_for_the_region() {
    let mut s = sample_state();
    let mut p = sample_pool();
    Effect::TriggerEvent(2, 5).apply(&mut s, &mut p, Some(1));
    Effect::TriggerEvent(0, 1).apply(&mut s, &mut p, None);
    assert_eq!(p.queue, vec![(2, Some(1), 5), (0, None, 1)]);
    assert_eq!(p.events, sample_pool().events);
}

#[test]
fn unlocks_touch_only_their_target() {
    let mut s = sample_state();
    let mut p = sample_pool();
    Effect::UnlocksProject(1).apply(&mut s, &mut p, None);
    Effect::UnlocksProcess(0).apply(&mut s, &mut p, None);
    Effect::UnlocksNPC(1).apply(&mut s, &mut p, None);
    assert_eq!(
        s.projects,
        vec![
            Project { locked: true, status: Status::Inactive },
            Project { locked: false, status: Status::Building },
        ]
    );
    assert_eq!(s.processes, vec![Process { locked: false }, Process { locked: true }]);
    assert_eq!(
        s.npcs,
        vec![NPC { locked: true, relationship: 3 }, NPC { locked: false, relationship: -1 }]
    );
}

#[test]
fn requests_are_appended_in_order() {
    let mut s = sample_state();
    let mut p = sample_pool();
    Effect::ProjectRequest(3, true, 10).apply(&mut s, &mut p, None);
    Effect::ProcessRequest(1, false, 5).apply(&mut s, &mut p, None);
    assert_eq!(
        s.requests,
        vec![(Request::Project, 3, true, 10), (Request::Process, 1, false, 5)]
    );
}

#[test]
fn region_leave_secedes_the_named_region_only() {
    let mut s = sample_state();
    let mut p = sample_pool();
    Effect::RegionLeave.apply(&mut s, &mut p, Some(1));
    assert!(!s.world.regions[0].seceded);
    assert!(s.world.regions[1].seceded);
    let mut t = sample_state();
    Effect::RegionLeave.apply(&mut t, &mut p, None);
    assert_eq!(t, sample_state());
}

#[test]
fn region_flag_is_appended_to_the_named_region() {
    let mut s = sample_state();
    let mut p = sample_pool();
    Effect::AddRegionFlag("flooded".to_string()).apply(&mut s, &mut p, Some(1));
    assert_eq!(s.world.regions[1].flags, vec!["coastal".to_string(), "flooded".to_string()]);
    assert!(s.world.regions[0].flags.is_empty());
    let mut t = sample_state();
    Effect::AddRegionFlag("flooded".to_string()).apply(&mut t, &mut p, None);
    assert_eq!(t, sample_state());
}

#[test]
fn flags_are_appended() {
    let mut s = sample_state();
    let mut p = sample_pool();
    Effect::AddFlag(Flag::Vegan).apply(&mut s, &mut p, None);
    Effect::AddFlag(Flag::EVs).apply(&mut s, &mut p, None);
    assert_eq!(s.flags, vec![Flag::Vegan, Flag::EVs]);
}

#[test]
fn npc_relationship_changes_by_the_amount() {
    let mut s = sample_state();
    let mut p = sample_pool();
    Effect::NPCRelationship(0, -4).apply(&mut s, &mut p, None);
    assert_eq!(s.npcs[0], NPC { locked: true, relationship: -1 });
    assert_eq!(s.npcs[1], NPC { locked: true, relationship: -1 });
}

#[test]
fn set_project_status_has_no_impact_when_applied() {
    let mut s = sample_state();
    let mut p = sample_pool();
    Effect::SetProjectStatus(0, Status::Active, 3).apply(&mut s, &mut p, None);
    assert_eq!(s, sample_state());
    assert_eq!(p, sample_pool());
}

#[test]
fn set_project_status_sets_the_status_when_unapplied() {
    let mut s = sample_state();
    let mut p = sample_pool();
    Effect::SetProjectStatus(0, Status::Active, 3).unapply(&mut s, &mut p, None);
    assert_eq!(s.projects[0], Project { locked: true, status: Status::Active });
    assert_eq!(s.projects[1], Project { locked: true, status: Status::Building });
}

#[test]
fn auto_click_has_no_impact() {
    let mut s = sample_state();
    let mut p = sample_pool();
    Effect::AutoClick(1).apply(&mut s, &mut p, Some(0));
    Effect::AutoClick(1).unapply(&mut s, &mut p, Some(0));
    assert_eq!(s, sample_state());
    assert_eq!(p, sample_pool());
}

#[test]
fn unapply_undoes_reversible_effects() {
    let effects = vec![
        Effect::WorldYear(12),
        Effect::WorldYear(-3),
        Effect::PlayerVariable(PlayerVariable::PoliticalCapital, -20),
        Effect::PlayerVariable(PlayerVariable::ResearchPoints, 9),
        Effect::PlayerVariable(PlayerVariable::MalthusianPoints, 2),
        Effect::PlayerVariable(PlayerVariable::HESPoints, -2),
        Effect::PlayerVariable(PlayerVariable::FALCPoints, 1),
        Effect::NPCRelationship(1, 6),
    ];
    for e in effects {
        let mut s = sample_state();
        let mut p = sample_pool();
        e.apply(&mut s, &mut p, Some(0));
        e.unapply(&mut s, &mut p, Some(0));
        assert_eq!(s, sample_state(), "{:?}", e);
        assert_eq!(p, sample_pool(), "{:?}", e);
    }
}

#[test]
fn unapply_leaves_irreversible_effects_in_place() {
    let mut s = sample_state();
    let mut p = sample_pool();
    Effect::UnlocksProject(0).apply(&mut s, &mut p, None);
    Effect::AddFlag(Flag::Degrowth).apply(&mut s, &mut p, None);
    Effect::GameOver.apply(&mut s, &mut p, None);
    let after = s.clone();
    Effect::UnlocksProject(0).unapply(&mut s, &mut p, None);
    Effect::AddFlag(Flag::Degrowth).unapply(&mut s, &mut p, None);
    Effect::GameOver.unapply(&mut s, &mut p, None);
    Effect::RegionLeave.unapply(&mut s, &mut p, Some(0));
    assert_eq!(s, after);
    assert!(s.game_over);
}

#[test]
fn unapply_reduces_the_year() {
    let mut s = sample_state();
    let mut p = sample_pool();
    Effect::WorldYear(22).unapply(&mut s, &mut p, None);
    assert_eq!(s.world.year, 2000);
}

#[test]
fn game_over_check_ends_the_game_without_the_authoritarian() {
    let mut s = sample_state();
    check_game_over(&mut s, false, true);
    assert!(s.game_over);
}

#[test]
fn game_over_check_spares_an_ally_or_a_good_outlook() {
    let mut s = sample_state();
    check_game_over(&mut s, true, true);
    assert!(!s.game_over);
    check_game_over(&mut s, false, false);
    assert!(!s.game_over);
    check_game_over(&mut s, true, false);
    assert_eq!(s, sample_state());
}

#[test]
fn game_over_is_final() {
    let mut s = sample_state();
    s.game_over = true;
    let mut p = sample_pool();
    check_game_over(&mut s, true, false);
    Effect::WorldYear(1).apply(&mut s, &mut p, None);
    Effect::WorldYear(1).unapply(&mut s, &mut p, None);
    assert!(s.game_over);
}

#[test]
fn applicability_is_checked_before_applying() {
    let s = sample_state();
    let p = sample_pool();
    assert!(Effect::AddEvent(2).can_apply_to(&s, &p, None));
    assert!(!Effect::AddEvent(3).can_apply_to(&s, &p, None));
    assert!(!Effect::UnlocksNPC(2).can_apply_to(&s, &p, None));
    assert!(!Effect::RegionLeave.can_apply_to(&s, &p, Some(2)));
    assert!(Effect::RegionLeave.can_apply_to(&s, &p, None));
    assert!(!Effect::NPCRelationship(0, isize::MAX).can_apply_to(&s, &p, None));
    assert!(Effect::NPCRelationship(1, isize::MAX).can_apply_to(&s, &p, None));
    assert!(!Effect::PlayerVariable(PlayerVariable::PoliticalCapital, i128::MAX).can_apply_to(&s, &p, None));
    assert!(!Effect::WorldYear(i128::MAX).can_apply_to(&s, &p, None));
    assert!(Effect::WorldYear(i128::MIN).can_apply_to(&s, &p, None));
}

#[test]
fn applicability_is_checked_before_unapplying() {
    let s = sample_state();
    assert!(Effect::WorldYear(2022).can_unapply_to(&s));
    assert!(!Effect::WorldYear(2023).can_unapply_to(&s));
    assert!(!Effect::PlayerVariable(PlayerVariable::MalthusianPoints, 5).can_unapply_to(&s));
    assert!(Effect::PlayerVariable(PlayerVariable::MalthusianPoints, 4).can_unapply_to(&s));
    assert!(!Effect::SetProjectStatus(2, Status::Active, 0).can_unapply_to(&s));
    assert!(!Effect::NPCRelationship(0, isize::MIN).can_unapply_to(&s));
    assert!(Effect::AddEvent(99).can_unapply_to(&s));
}
