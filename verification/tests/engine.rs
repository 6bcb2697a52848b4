use mue_engine::episode::{Episode, EpisodeError, PayloadMetadata};
use mue_engine::game::{Game, GameCommand, GameCommandError};
use mue_engine::merkle::{compute_leaf_from_wallet, compute_merkle_root};
use mue_engine::pki::PubKey;
use mue_engine::registry::SessionRegistry;
use mue_engine::session::{MueError, MueHeroSession, SuperblockEvent, WitnessProof};

fn meta(t: u64) -> PayloadMetadata {
    PayloadMetadata { accepting_time: t }
}

fn mined_event(level: u8, height: u64) -> SuperblockEvent {
    SuperblockEvent {
        mu_level: level,
        is_witness: false,
        witness_proof: WitnessProof::Missing,
        block_height: height,
    }
}

#[test]
fn point_table_exact_values() {
    assert_eq!(Game::points_for_level(14), 0);
    assert_eq!(Game::points_for_level(15), 10);
    assert_eq!(Game::points_for_level(16), 25);
    assert_eq!(Game::points_for_level(17), 50);
    assert_eq!(Game::points_for_level(18), 100);
    assert_eq!(Game::points_for_level(19), 250);
    assert_eq!(Game::points_for_level(20), 250);
    assert_eq!(Game::points_for_level(u8::MAX), 250);
}

#[test]
fn witness_reward_is_half_rate() {
    let mut g = Game::default();
    let awarded: Vec<u32> = [15u8, 16, 17, 18, 19]
        .iter()
        .map(|&l| {
            g.execute(&GameCommand::WitnessPoints { level: l }, None, &meta(0))
                .unwrap()
        })
        .collect();
    assert_eq!(awarded, vec![5, 12, 25, 50, 125]);
}

#[test]
fn reward_is_monotonic_in_level() {
    let mut last_mined = 0u32;
    let mut last_witness = 0u32;
    for level in 15u8..=30 {
        let mined = Game::points_for_level(level);
        let mut g = Game::default();
        let witness = g
            .execute(&GameCommand::WitnessPoints { level }, None, &meta(0))
            .unwrap();
        assert!(mined >= last_mined, "mined reward dropped at level {level}");
        assert!(witness >= last_witness, "witness reward dropped at level {level}");
        last_mined = mined;
        last_witness = witness;
    }
}

#[test]
fn add_points_below_threshold_is_rejected() {
    let mut g = Game {
        score: 42,
        last_update: Some(5),
        last_level: Some(15),
    };
    let r = g.execute(&GameCommand::AddPoints { level: 14 }, None, &meta(9));
    assert!(matches!(
        r,
        Err(EpisodeError::CommandError(GameCommandError::InvalidLevel))
    ));
    assert_eq!(g.score, 42);
    assert_eq!(g.last_update, Some(5));
    assert_eq!(g.last_level, Some(15));
}

#[test]
fn execute_updates_bookkeeping() {
    let mut g = Game::default();
    let r = g.execute(&GameCommand::AddPoints { level: 17 }, None, &meta(777));
    assert_eq!(r.unwrap(), 50);
    assert_eq!(g.score, 50);
    assert_eq!(g.last_update, Some(777));
    assert_eq!(g.last_level, Some(17));
}

#[test]
fn rollback_restores_score_before_execute() {
    let mut g = Game {
        score: 30,
        last_update: None,
        last_level: None,
    };
    let d = g
        .execute(&GameCommand::AddPoints { level: 18 }, None, &meta(1))
        .unwrap();
    assert_eq!(g.score, 130);
    assert!(g.rollback(d));
    assert_eq!(g.score, 30);
}

#[test]
fn rollback_of_more_than_score_fails_and_keeps_score() {
    let mut g = Game {
        score: 10,
        last_update: Some(1),
        last_level: Some(15),
    };
    assert!(!g.rollback(11));
    assert_eq!(g.score, 10);
    assert!(g.rollback(10));
    assert_eq!(g.score, 0);
}

#[test]
fn session_accumulates_mined_scores() {
    let mut s = MueHeroSession::initialize(vec![], &meta(0));
    let a = s.execute(&mined_event(15, 100), None, &meta(1)).unwrap();
    let b = s.execute(&mined_event(16, 101), None, &meta(2)).unwrap();
    assert_eq!((a, b), (10, 25));
    assert_eq!(s.get_score(), 35);
}

#[test]
fn session_rejects_witness_without_merkle_data() {
    let mut s = MueHeroSession::initialize(vec![], &meta(0));
    let ev = SuperblockEvent {
        mu_level: 18,
        is_witness: true,
        witness_proof: WitnessProof::Missing,
        block_height: 7,
    };
    let pk = PubKey::new([1u8; 32]);
    let r = s.execute(&ev, Some(pk), &meta(1));
    match r {
        Err(EpisodeError::InternalError(m)) => assert_eq!(m, "missing Merkle data"),
        other => panic!("expected a protocol error, got {other:?}"),
    }
    assert_eq!(s.get_score(), 0);
}

#[test]
fn session_rejects_witness_without_authenticator() {
    let mut s = MueHeroSession::initialize(vec![], &meta(0));
    let ev = SuperblockEvent {
        mu_level: 18,
        is_witness: true,
        witness_proof: WitnessProof::Present {
            root: [9u8; 64],
            siblings: vec![[3u8; 64]],
            index: 0,
        },
        block_height: 7,
    };
    let r = s.execute(&ev, None, &meta(1));
    match r {
        Err(EpisodeError::InternalError(m)) => assert_eq!(m, "missing authenticator"),
        other => panic!("expected a protocol error, got {other:?}"),
    }
    assert_eq!(s.get_score(), 0);
}

#[test]
fn session_accepts_witness_with_valid_proof() {
    let alice = PubKey::new([7u8; 32]);
    let bob = PubKey::new([8u8; 32]);
    let leaf_alice = compute_leaf_from_wallet(&alice);
    let leaf_bob = compute_leaf_from_wallet(&bob);
    let root = compute_merkle_root(vec![leaf_alice, leaf_bob]);

    let mut s = MueHeroSession::initialize(vec![alice], &meta(0));
    let ev = SuperblockEvent {
        mu_level: 15,
        is_witness: true,
        witness_proof: WitnessProof::Present {
            root,
            siblings: vec![leaf_bob],
            index: 0,
        },
        block_height: 7,
    };
    let r = s.execute(&ev, Some(alice), &meta(1));
    assert_eq!(r.unwrap(), 5);
    assert_eq!(s.get_score(), 5);
}

#[test]
fn session_domain_error_is_wrapped() {
    let mut s = MueHeroSession::initialize(vec![], &meta(0));
    let r = s.execute(&mined_event(3, 1), None, &meta(1));
    assert!(matches!(
        r,
        Err(EpisodeError::CommandError(MueError::Game(
            GameCommandError::InvalidLevel
        )))
    ));
}

#[test]
fn end_to_end_scenario() {
    // A fresh session awards the canonical 100 points for a mined level-18
    // superblock; a witness claim on another session with an invalid proof
    // is rejected and that session's score stays 0.
    let mut first = MueHeroSession::initialize(vec![], &meta(0));
    let d = first.execute(&mined_event(18, 500), None, &meta(1)).unwrap();
    assert_eq!(d, 100);
    assert_eq!(first.get_score(), 100);

    let carol = PubKey::new([5u8; 32]);
    let mut second = MueHeroSession::initialize(vec![carol], &meta(0));
    let bad = SuperblockEvent {
        mu_level: 15,
        is_witness: true,
        witness_proof: WitnessProof::Present {
            root: [0u8; 64],
            siblings: vec![[1u8; 64]],
            index: 0,
        },
        block_height: 1,
    };
    let r = second.execute(&bad, Some(carol), &meta(2));
    match r {
        Err(EpisodeError::InternalError(m)) => assert_eq!(m, "invalid Merkle witness proof"),
        other => panic!("expected a protocol error, got {other:?}"),
    }
    assert_eq!(second.get_score(), 0);
}

#[test]
fn registry_creates_sessions_lazily_and_accumulates() {
    let mut reg = SessionRegistry::new();
    let alice = PubKey::new([1u8; 32]);
    let bob = PubKey::new([2u8; 32]);
    assert_eq!(reg.get_score(&alice), None);

    let a1 = reg.handle_event(&alice, &mined_event(15, 1), &meta(1)).unwrap();
    let a2 = reg.handle_event(&alice, &mined_event(16, 2), &meta(2)).unwrap();
    let b1 = reg.handle_event(&bob, &mined_event(18, 3), &meta(3)).unwrap();
    assert_eq!((a1, a2, b1), (10, 25, 100));

    assert_eq!(reg.get_score(&alice), Some(35));
    assert_eq!(reg.get_score(&bob), Some(100));

    let rows = reg.sessions();
    assert_eq!(rows.len(), 2);
    let alice_row = rows.iter().find(|r| r.0 == alice).unwrap();
    assert_eq!(alice_row.1.score, 35);
    assert_eq!(alice_row.1.last_level, Some(16));
}

#[test]
fn registry_rejection_leaves_state_unchanged() {
    let mut reg = SessionRegistry::new();
    let alice = PubKey::new([1u8; 32]);
    reg.handle_event(&alice, &mined_event(15, 1), &meta(1)).unwrap();
    let r = reg.handle_event(&alice, &mined_event(2, 2), &meta(2));
    assert!(r.is_err());
    assert_eq!(reg.get_score(&alice), Some(10));
}
