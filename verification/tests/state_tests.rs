use game_core::bird::{Bird, BirdMotion, BirdSystem, Direction};
use game_core::connection::ConnectionCounter;
use game_core::difficulty::DifficultyCounter;
use game_core::player::{OurPlayer, OurPlayerState, OurPlayerSystem, PlayerComponent, RestartSystem};
use game_core::pointer::{point_from_mouse, point_from_touch, PointerState};

#[test]
fn reverse_twice_is_identity() {
    assert_eq!(Direction::LEFT.reverse(), Direction::RIGHT);
    assert_eq!(Direction::RIGHT.reverse(), Direction::LEFT);
    for d in [Direction::LEFT, Direction::RIGHT] {
        assert_eq!(d.reverse().reverse(), d);
        assert_ne!(d.reverse(), d);
    }
    assert_eq!(Direction::from_is_right(true), Direction::RIGHT);
    assert_eq!(Direction::from_is_right(false), Direction::LEFT);
}

#[test]
fn bird_turns_at_the_edge() {
    let mut b = Bird { direction: Direction::LEFT, turning: false };
    assert_eq!(BirdSystem::step(&mut b, true, false), BirdMotion::Fly);
    assert_eq!(b, Bird { direction: Direction::LEFT, turning: false });
    assert_eq!(BirdSystem::step(&mut b, false, true), BirdMotion::Stop);
    assert_eq!(b, Bird { direction: Direction::LEFT, turning: true });
    assert_eq!(BirdSystem::step(&mut b, false, true), BirdMotion::Keep);
    assert_eq!(b, Bird { direction: Direction::LEFT, turning: true });
    assert_eq!(BirdSystem::step(&mut b, true, true), BirdMotion::Keep);
    assert_eq!(b, Bird { direction: Direction::RIGHT, turning: false });
}

#[test]
fn player_round_states() {
    let mut p = OurPlayer::new();
    assert_eq!(p.state, OurPlayerState::NotStarted);
    assert_eq!(p.next_bell_score, 10);
    OurPlayerSystem::update_state(&mut p, false, false, false);
    assert_eq!(p.state, OurPlayerState::NotStarted);
    OurPlayerSystem::update_state(&mut p, false, true, false);
    assert_eq!(p.state, OurPlayerState::Flying);
    OurPlayerSystem::update_state(&mut p, false, false, true);
    assert_eq!(p.state, OurPlayerState::Falling);
    assert!(!p.can_bounce());
    OurPlayerSystem::update_state(&mut p, false, true, false);
    assert_eq!(p.state, OurPlayerState::Falling);
    OurPlayerSystem::update_state(&mut p, true, true, true);
    assert_eq!(p.state, OurPlayerState::NotStarted);
    assert!(p.can_bounce());
}

#[test]
fn restart_resets_score_on_the_ground_only() {
    let mut op = OurPlayer { state: OurPlayerState::Flying, next_bell_score: 40 };
    let mut pc = PlayerComponent { score: 30 };
    assert!(!RestartSystem::restart(&mut op, &mut pc));
    assert_eq!(pc.score, 30);
    assert_eq!(op.next_bell_score, 40);
    op.state = OurPlayerState::NotStarted;
    assert!(RestartSystem::restart(&mut op, &mut pc));
    assert_eq!(pc.score, 0);
    assert_eq!(op.next_bell_score, 10);
    assert_eq!(PlayerComponent::new().score, 0);
    assert!(RestartSystem::restores_jumpable(false, true, false));
    assert!(RestartSystem::restores_jumpable(false, false, true));
    assert!(!RestartSystem::restores_jumpable(true, true, true));
    assert!(!RestartSystem::restores_jumpable(false, false, false));
}

#[test]
fn pointer_click_lasts_one_frame() {
    let mut p = PointerState::default();
    assert_eq!(p.pixel_pos, None);
    p.update_pos((3, 4));
    p.mousedown();
    assert!(p.pressing && p.clicked);
    p.frame();
    assert!(p.pressing && !p.clicked);
    p.mouseup();
    assert!(!p.pressing && !p.clicked);
    assert_eq!(p.pixel_pos, Some((3, 4)));
}

#[test]
fn pointer_points_from_events() {
    assert_eq!(point_from_mouse(-5, 7), (0, 7));
    assert_eq!(point_from_mouse(12, -1), (12, 0));
    assert_eq!(point_from_touch(2, 1, 1), None);
    assert_eq!(point_from_touch(0, 1, 1), None);
    assert_eq!(point_from_touch(1, 8, 9), Some((8, 9)));
    assert_eq!(point_from_touch(1, -1, 9), Some((u32::MAX, 9)));
}

#[test]
fn difficulty_raises_every_thirty_bells() {
    let mut c = DifficultyCounter::new();
    let mut raises = Vec::new();
    for i in 1..=95u32 {
        if c.tick() {
            raises.push(i);
        }
    }
    assert_eq!(raises, vec![30, 60, 90]);
}

#[test]
fn replaced_connections_are_stale() {
    let mut c = ConnectionCounter::new();
    assert!(c.check_id(0));
    let first = c.next_connection();
    assert_eq!(first, 1);
    let second = c.next_connection();
    assert_eq!(second, 2);
    assert!(!c.check_id(first));
    assert!(c.check_id(second));
    assert!(c.can_reconnect());
}

#[test]
fn connection_numbers_count_up() {
    let mut c = ConnectionCounter::new();
    assert_eq!(c.current_id(), 0);
    c.next_connection();
    assert_eq!(c.current_id(), 1);
}
