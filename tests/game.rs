use coin_grab::entity::{clamp_i128, HALF_EXTENT, MIN_DISTANCE, UNIT};
use coin_grab::state::{first_collision, follow_chain_step, spawn_batch, spawn_coin, MAX_START_ROTATION, START_COIN_X, START_POS};
use coin_grab::{Coin, CoinKind, Segment, State, Status};

const FRAME: u64 = 16_667;

fn seg(x: i64, y: i64) -> Segment {
    Segment { x, y, rotation: 0, scale: 1000 }
}

#[test]
fn start_state_is_as_described() {
    let s = State::start(5, 6, 1, 2, 3);
    assert_eq!(s.cursor_x, 5);
    assert_eq!(s.cursor_y, 6);
    assert_eq!(s.player.len(), 3);
    assert_eq!(s.player[0], Segment { x: 64 * UNIT, y: 64 * UNIT, rotation: 1, scale: 1000 });
    assert_eq!(s.player[1].scale, 900);
    assert_eq!(s.player[2].scale, 810);
    assert_eq!(s.player[2].rotation, 3);
    assert_eq!(s.coins, vec![Coin { kind: CoinKind::Beneficial, x: 300 * UNIT, y: 64 * UNIT }]);
    assert_eq!(s.spawn_rate, 1);
    assert_eq!(s.collected, 0);
    assert_eq!(s.status, Status::Welcome);
}

#[test]
fn new_draws_starting_angles_in_range() {
    let mut angles = Vec::new();
    for _ in 0..20 {
        let s = State::new(0, 0);
        for p in s.player.iter() {
            assert!(p.rotation >= 0 && p.rotation < MAX_START_ROTATION);
            angles.push(p.rotation);
        }
    }
    assert!(angles.iter().any(|a| *a != angles[0]));
}

#[test]
fn collecting_the_first_beneficial_coin() {
    let mut s = State::start(0, 0, 0, 0, 0);
    s.collect_coin(CoinKind::Beneficial);
    assert_eq!(s.spawn_rate, 2);
    assert_eq!(s.coins.len(), 2);
    assert_eq!(s.collected, 1);
    assert_eq!(s.status, Status::MoreCoins);
    assert_eq!(s.player.len(), 3);
}

#[test]
fn update_picks_up_coin_under_head() {
    let mut s = State::start(64 * UNIT, 64 * UNIT, 0, 0, 0);
    s.coins = vec![Coin { kind: CoinKind::Beneficial, x: START_POS + 10, y: START_POS - 10 }];
    s.update(FRAME);
    assert_eq!(s.spawn_rate, 2);
    assert_eq!(s.coins.len(), 2);
    assert_eq!(s.collected, 1);
}

#[test]
fn last_segment_lost_then_game_over() {
    let mut s = State::start(0, 0, 0, 0, 0);
    s.player.truncate(1);
    s.collected = 7;
    s.coins = vec![Coin { kind: CoinKind::Harmful, x: START_POS, y: START_POS }];
    s.update(FRAME);
    assert!(s.player.is_empty());
    assert!(s.is_over());
    assert_eq!(s.status, Status::Ouch);
    assert_eq!(s.collected, 8);
    s.update(FRAME);
    assert_eq!(s.status, Status::GameOver(8));
    assert_eq!(s.status.text(), "Game Over\nCollected 8 Coins");
}

#[test]
fn harmful_coin_removes_last_segment() {
    let mut s = State::start(0, 0, 10, 20, 30);
    s.collect_coin(CoinKind::Harmful);
    assert_eq!(s.player.len(), 2);
    assert_eq!(s.player[1].rotation, 20);
    assert_eq!(s.spawn_rate, 1);
    assert_eq!(s.coins.len(), 1);
    assert_eq!(s.status, Status::Ouch);
}

#[test]
fn harmful_coin_on_empty_chain_keeps_it_empty() {
    let mut s = State::start(0, 0, 0, 0, 0);
    s.player.clear();
    s.collect_coin(CoinKind::Harmful);
    assert!(s.player.is_empty());
    assert_eq!(s.collected, 1);
}

#[test]
fn head_at_coin_position_collides() {
    let c = Coin { kind: CoinKind::Harmful, x: 100, y: 200 };
    assert!(c.overlaps(100, 200));
    assert!(c.overlaps(100 + HALF_EXTENT - 1, 200 - HALF_EXTENT + 1));
}

#[test]
fn collision_boundary_is_exclusive() {
    let hx = 500 * UNIT;
    let hy = 300 * UNIT;
    for dx in [HALF_EXTENT, -HALF_EXTENT] {
        let c = Coin { kind: CoinKind::Beneficial, x: hx + dx, y: hy };
        assert!(!c.overlaps(hx, hy));
    }
    let c = Coin { kind: CoinKind::Beneficial, x: hx, y: hy + HALF_EXTENT };
    assert!(!c.overlaps(hx, hy));
}

#[test]
fn collision_far_apart_extremes() {
    let c = Coin { kind: CoinKind::Beneficial, x: i64::MIN, y: 0 };
    assert!(!c.overlaps(i64::MAX, 0));
}

#[test]
fn first_overlapping_coin_wins() {
    let coins = vec![
        Coin { kind: CoinKind::Beneficial, x: 0, y: 100 * UNIT },
        Coin { kind: CoinKind::Harmful, x: 5, y: 5 },
        Coin { kind: CoinKind::Beneficial, x: 0, y: 0 },
    ];
    assert_eq!(first_collision(&coins, 0, 0), Some(1));
    assert_eq!(first_collision(&coins, 0, 50 * UNIT), None);
    assert_eq!(first_collision(&Vec::new(), 0, 0), None);
}

#[test]
fn first_scanned_kind_decides_pickup() {
    let mut s = State::start(0, 0, 0, 0, 0);
    s.coins = vec![
        Coin { kind: CoinKind::Harmful, x: START_POS, y: START_POS },
        Coin { kind: CoinKind::Beneficial, x: START_POS, y: START_POS },
    ];
    s.update(FRAME);
    assert_eq!(s.player.len(), 2);
    assert_eq!(s.spawn_rate, 1);
}

#[test]
fn one_second_step_moves_whole_chain() {
    let mut s = State::start(400 * UNIT, 300 * UNIT, 0, 0, 0);
    s.coins.clear();
    s.update(1_000_000);
    for p in s.player.iter() {
        assert_eq!((p.x, p.y), (128 * UNIT, 128 * UNIT));
        assert_eq!(p.rotation, 4_000_000);
    }
}

#[test]
fn trailing_segment_follows_leader_new_position() {
    let mut chain = vec![seg(0, 0), seg(0, 0)];
    follow_chain_step(&mut chain, 100 * UNIT + HALF_EXTENT, HALF_EXTENT, 250_000);
    assert_eq!((chain[0].x, chain[0].y), (16 * UNIT, -16 * UNIT));
    // exactly at the follow distance: the second segment waits
    assert_eq!((chain[1].x, chain[1].y), (0, 0));
    assert_eq!(chain[1].rotation, 1_000_000);
    follow_chain_step(&mut chain, 100 * UNIT + HALF_EXTENT, HALF_EXTENT, 250_000);
    assert_eq!((chain[0].x, chain[0].y), (32 * UNIT, 0));
    assert_eq!((chain[1].x, chain[1].y), (16 * UNIT, -16 * UNIT));
}

#[test]
fn diagonal_step_is_not_normalised() {
    let mut chain = vec![seg(0, 0)];
    follow_chain_step(&mut chain, 0, 200 * UNIT, 1_000_000);
    assert_eq!((chain[0].x, chain[0].y), (-64 * UNIT, 64 * UNIT));
}

#[test]
fn segment_within_follow_distance_stays() {
    let mut chain = vec![seg(0, 0)];
    follow_chain_step(&mut chain, MIN_DISTANCE + HALF_EXTENT, -MIN_DISTANCE + HALF_EXTENT, 1_000_000);
    assert_eq!((chain[0].x, chain[0].y), (0, 0));
    assert_eq!(chain[0].rotation, 4_000_000);
}

#[test]
fn stationary_cursor_head_settles_and_keeps_turning() {
    let mut s = State::start(400 * UNIT, 300 * UNIT, 0, 0, 0);
    s.coins.clear();
    let (tx, ty) = (368 * UNIT, 268 * UNIT);
    for _ in 0..2000 {
        s.update(FRAME);
    }
    let head = s.player[0];
    assert!((head.x - tx).abs() <= MIN_DISTANCE);
    assert!((head.y - ty).abs() <= MIN_DISTANCE);
    for _ in 0..100 {
        let before = s.player[0];
        s.update(FRAME);
        assert_eq!((s.player[0].x, s.player[0].y), (before.x, before.y));
        assert_eq!(s.player[0].rotation, before.rotation + 4 * FRAME as i64);
    }
}

#[test]
fn chain_length_never_grows_over_many_updates() {
    let mut s = State::start(700 * UNIT, 500 * UNIT, 0, 0, 0);
    let mut len = s.player.len();
    let mut rate = s.spawn_rate;
    for i in 0..3000u64 {
        if i % 500 == 0 {
            s.set_cursor(((i * 37) % 800) as i64 * UNIT, ((i * 53) % 600) as i64 * UNIT);
        }
        let had_coin = s.collected;
        s.update(FRAME);
        assert!(s.player.len() <= len);
        assert!(s.spawn_rate >= rate);
        if s.collected != had_coin {
            assert_eq!(s.coins.len(), s.spawn_rate);
        }
        len = s.player.len();
        rate = s.spawn_rate;
    }
}

#[test]
fn zero_elapsed_time_changes_nothing_but_pickups() {
    let mut s = State::start(400 * UNIT, 300 * UNIT, 9, 9, 9);
    s.update(0);
    assert_eq!(s.player, State::start(0, 0, 9, 9, 9).player);
}

#[test]
fn movement_saturates_at_the_edge_of_the_range() {
    let mut chain = vec![Segment { x: i64::MIN + 5, y: 0, rotation: i64::MAX - 1, scale: 1000 }];
    follow_chain_step(&mut chain, i64::MIN + HALF_EXTENT, i64::MAX, 1_000_000);
    assert_eq!(chain[0].x, i64::MIN);
    assert_eq!(chain[0].y, 64 * UNIT);
    assert_eq!(chain[0].rotation, i64::MAX);
}

#[test]
fn clamp_holds_values_in_range() {
    assert_eq!(clamp_i128(i128::MAX), i64::MAX);
    assert_eq!(clamp_i128(i128::MIN), i64::MIN);
    assert_eq!(clamp_i128(-42), -42);
}

#[test]
fn spawn_coin_kind_from_pick() {
    assert_eq!(spawn_coin(1, 2, 0), Coin { kind: CoinKind::Beneficial, x: 1, y: 2 });
    assert_eq!(spawn_coin(3, 4, 1), Coin { kind: CoinKind::Harmful, x: 3, y: 4 });
}

#[test]
fn spawned_batch_lies_in_play_area() {
    let batch = spawn_batch(300);
    assert_eq!(batch.len(), 300);
    for c in batch.iter() {
        assert!(c.x >= 64 * UNIT && c.x < 736 * UNIT);
        assert!(c.y >= 64 * UNIT && c.y < 536 * UNIT);
    }
    assert!(batch.iter().any(|c| c.x != batch[0].x));
    assert!(batch.iter().any(|c| c.kind == CoinKind::Beneficial));
    assert!(batch.iter().any(|c| c.kind == CoinKind::Harmful));
    assert!(spawn_batch(0).is_empty());
}

#[test]
fn set_cursor_only_moves_cursor() {
    let mut s = State::start(0, 0, 0, 0, 0);
    s.set_cursor(-3, 9);
    assert_eq!((s.cursor_x, s.cursor_y), (-3, 9));
    assert_eq!(s.player.len(), 3);
}

#[test]
fn headroom_reflects_counters() {
    let mut s = State::start(0, 0, 0, 0, 0);
    assert!(s.has_headroom());
    s.collected = u64::MAX;
    assert!(!s.has_headroom());
    s.collected = 0;
    s.spawn_rate = usize::MAX;
    assert!(!s.has_headroom());
}

#[test]
fn status_texts() {
    assert_eq!(Status::Welcome.text(), "Try collecting that coin over there");
    assert_eq!(Status::MoreCoins.text(), "Increased number of coins that spawn!");
    assert_eq!(Status::Ouch.text(), "Ouch that coin hurt!");
    assert_eq!(Status::GameOver(0).text(), "Game Over\nCollected 0 Coins");
    assert_eq!(Status::GameOver(1204).text(), "Game Over\nCollected 1204 Coins");
    assert_eq!(Status::GameOver(u64::MAX).text(), "Game Over\nCollected 18446744073709551615 Coins");
}

#[test]
fn first_coin_starts_level_with_chain() {
    assert_eq!(START_COIN_X, 300 * UNIT);
    assert_eq!(START_POS, 64 * UNIT);
}
