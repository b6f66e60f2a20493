use game_core::background::BackgroundStarSystem;
use game_core::ids::EntityId;
use game_core::tutorial::{ScoreAction, TutorialAction, TutorialAndScoreSystem};
use game_core::world::{entry_action, EntryAction, EntryKind, GameState, WorldManager};

#[test]
fn tutorial_until_first_score() {
    let mut t: TutorialAndScoreSystem<u32> = TutorialAndScoreSystem::new();
    assert_eq!(t.tutorial_step(false), TutorialAction::Create);
    t.tutorial_created(7);
    assert_eq!(t.tutorial(), Some(7));
    assert_eq!(t.tutorial_step(true), TutorialAction::Nothing);
    assert_eq!(t.tutorial_step(false), TutorialAction::Create);
    t.tutorial_created(8);
    assert_eq!(t.score_step(0, false), ScoreAction::Nothing);
    assert_eq!(t.score_step(25, false), ScoreAction::Nothing);
    assert_eq!(t.tutorial_step(true), TutorialAction::FadeOut(8));
    assert_eq!(t.tutorial(), None);
    assert_eq!(t.tutorial_step(false), TutorialAction::Nothing);
}

#[test]
fn last_score_shown_on_the_ground() {
    let mut t: TutorialAndScoreSystem<u32> = TutorialAndScoreSystem::new();
    assert_eq!(t.score_step(12, false), ScoreAction::Nothing);
    assert_eq!(t.score_step(40, false), ScoreAction::Nothing);
    assert_eq!(t.score_step(0, false), ScoreAction::Show(40));
    t.score_display_created(3, 4);
    assert_eq!(t.score_display(), Some(3));
    assert_eq!(t.score_step(0, true), ScoreAction::Nothing);
    assert_eq!(t.score_step(0, false), ScoreAction::Show(40));
    t.score_display_created(5, 6);
    assert_eq!(t.score_step(3, true), ScoreAction::Hide(5, 6));
    assert_eq!(t.score_display(), None);
    assert_eq!(t.score_step(0, false), ScoreAction::Show(3));
}

#[test]
fn world_modes_and_identities() {
    let mut w: WorldManager<u32> = WorldManager::new();
    assert_eq!(w.state(), GameState::Connecting);
    assert!(!w.accepts_messages());
    assert!(w.init_offline());
    w.set_me(1);
    assert_eq!(w.state(), GameState::Offline);
    assert!(!w.init_offline());
    assert_eq!(w.me(), Some(1));
    w.init_online(2);
    assert_eq!(w.state(), GameState::Online);
    assert!(w.accepts_messages());
    assert_eq!(w.me(), Some(2));
    let a = EntityId(100);
    let b = EntityId(200);
    assert_eq!(w.entity_of(a), None);
    w.register(a, 10);
    assert_eq!(w.entity_of(a), Some(10));
    assert_eq!(w.claim_id(b, 2), None);
    assert_eq!(w.claim_id(a, 2), Some(10));
    assert_eq!(w.entity_of(a), Some(2));
    assert_eq!(w.entity_of(b), Some(2));
}

#[test]
fn sky_cells_get_stars_once_and_leave_with_the_view() {
    let mut s = BackgroundStarSystem::new();
    let fresh = s.sweep(0, 0, &vec![(1, 0), (2, 0), (0, 1), (1, 1), (2, 1)]);
    assert_eq!(fresh, vec![(1, 0), (2, 0), (0, 1), (1, 1), (2, 1)]);
    assert!(s.contains((2, 1)));
    assert!(!s.contains((0, 0)));
    let fresh = s.sweep(1, 1, &vec![(2, 1), (1, 2), (2, 2), (2, 2)]);
    assert_eq!(fresh, vec![(1, 2), (2, 2)]);
    assert!(!s.contains((1, 0)));
    assert!(!s.contains((0, 1)));
    assert!(s.contains((1, 1)));
    assert!(s.contains((2, 2)));
    let fresh = s.sweep(5, 5, &vec![]);
    assert!(fresh.is_empty());
    assert!(!s.contains((2, 2)));
    s.clear();
    assert!(!s.contains((1, 1)));
}

#[test]
fn has_scored_after_first_score() {
    let mut t: TutorialAndScoreSystem<u32> = TutorialAndScoreSystem::new();
    assert!(!t.has_scored());
    t.score_step(0, false);
    assert!(!t.has_scored());
    t.score_step(1, false);
    assert!(t.has_scored());
    t.score_step(0, false);
    assert!(t.has_scored());
}

#[test]
fn server_entries_are_applied_by_identity() {
    let mut w: WorldManager<u32> = WorldManager::new();
    w.init_online(1);
    let id = EntityId(42);
    let found = w.entity_of(id);
    assert_eq!(entry_action(EntryKind::PlayerUpdate, found, false, false), EntryAction::MakeAndApply);
    assert_eq!(entry_action(EntryKind::Bird, found, false, false), EntryAction::MakeAndApply);
    assert_eq!(entry_action(EntryKind::PlayerDelete, found, false, false), EntryAction::Ignore);
    w.register(id, 7);
    let found = w.entity_of(id);
    assert_eq!(found, Some(7));
    assert_eq!(
        entry_action(EntryKind::PlayerUpdate, found, false, false),
        EntryAction::Apply { entity: 7, mark_jumpable: false }
    );
    assert_eq!(entry_action(EntryKind::PlayerUpdate, found, true, false), EntryAction::Ignore);
    assert_eq!(entry_action(EntryKind::PlayerDelete, found, false, false), EntryAction::Delete(7));
    assert_eq!(
        entry_action(EntryKind::Bird, found, false, false),
        EntryAction::Apply { entity: 7, mark_jumpable: true }
    );
    assert_eq!(
        entry_action(EntryKind::Bird, found, false, true),
        EntryAction::Apply { entity: 7, mark_jumpable: false }
    );
}

#[test]
fn sky_cells_at_the_coordinate_limits() {
    let mut s = BackgroundStarSystem::new();
    let far = vec![(i64::MIN, i64::MAX), (i64::MAX, i64::MIN), (-1, 0), (0, -1)];
    let fresh = s.sweep(i64::MIN, i64::MIN, &far);
    assert_eq!(fresh, far);
    for c in &far {
        assert!(s.contains(*c));
    }
    assert!(!s.contains((0, 0)));
    assert!(!s.contains((i64::MIN, i64::MIN)));
    assert!(s.sweep(i64::MIN, i64::MIN, &far).is_empty());
    s.clear();
    assert!(!s.contains((-1, 0)));
}
