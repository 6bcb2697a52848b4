use mue_engine::episode::PayloadMetadata;
use mue_engine::events::{
    default_limit, default_order, enrich_events, filter_events, is_order_asc, sort_events_by_date,
    Submission,
};
use mue_engine::health::{decide, preset_metrics, Metrics, StatusKind, COOLDOWN_MS};
use mue_engine::leaderboard::build_leaderboard;
use mue_engine::pki::PubKey;
use mue_engine::registry::SessionRegistry;
use mue_engine::session::{SuperblockEvent, WitnessProof};
use mue_engine::strutil::tag_wallet;
use mue_engine::tier::{calculate_score_and_tier, tier_for_level};

fn sub(wallet: &str, score: u32, mu_level: u8, height: u64, date: &str, kind: &str) -> Submission {
    Submission {
        wallet: wallet.to_string(),
        score,
        mu_level,
        block_height: height,
        date_mined: date.to_string(),
        event_type: kind.to_string(),
    }
}

fn mined_event(level: u8, height: u64) -> SuperblockEvent {
    SuperblockEvent {
        mu_level: level,
        is_witness: false,
        witness_proof: WitnessProof::Missing,
        block_height: height,
    }
}

#[test]
fn feed_defaults() {
    assert_eq!(default_limit(), 100);
    assert_eq!(default_order(), "desc");
    assert!(is_order_asc("asc"));
    assert!(is_order_asc("ASC"));
    assert!(!is_order_asc("desc"));
    assert!(!is_order_asc("ascending"));
}

#[test]
fn filter_by_wallet_and_since() {
    let subs = vec![
        sub("alice", 10, 15, 1, "2025-07-01", "mined"),
        sub("bob", 20, 16, 2, "2025-07-02", "mined"),
        sub("alice", 30, 17, 3, "2025-07-03", "witness"),
    ];
    let only_alice = filter_events(&subs, &Some("alice".to_string()), &None);
    assert_eq!(only_alice.len(), 2);
    assert!(only_alice.iter().all(|s| s.wallet == "alice"));

    let recent = filter_events(&subs, &None, &Some("2025-07-01".to_string()));
    assert_eq!(recent.len(), 2);
    assert!(recent.iter().all(|s| s.date_mined.as_str() > "2025-07-01"));

    let both = filter_events(
        &subs,
        &Some("alice".to_string()),
        &Some("2025-07-02".to_string()),
    );
    assert_eq!(both.len(), 1);
    assert_eq!(both[0].date_mined, "2025-07-03");
}

#[test]
fn sort_orders_by_date_both_ways() {
    let subs = vec![
        sub("a", 1, 15, 1, "2025-07-02", "mined"),
        sub("b", 2, 15, 2, "2025-07-01", "mined"),
        sub("c", 3, 15, 3, "2025-07-03", "mined"),
    ];
    let asc = sort_events_by_date(subs.clone(), true);
    let dates: Vec<&str> = asc.iter().map(|s| s.date_mined.as_str()).collect();
    assert_eq!(dates, vec!["2025-07-01", "2025-07-02", "2025-07-03"]);
    let desc = sort_events_by_date(subs, false);
    let dates: Vec<&str> = desc.iter().map(|s| s.date_mined.as_str()).collect();
    assert_eq!(dates, vec!["2025-07-03", "2025-07-02", "2025-07-01"]);
}

#[test]
fn enrichment_distinguishes_witness_rows() {
    let subs = vec![
        sub("alice", 10, 18, 1, "2025-07-01", "mined"),
        sub("bob", 20, 17, 2, "2025-07-02", "witness"),
    ];
    let rows = enrich_events(&subs);
    assert_eq!(rows.len(), 2);
    assert_eq!(rows[0].command, "AddPoints");
    assert_eq!(rows[0].score_delta, 18);
    assert_eq!(rows[1].command, "WitnessPoints");
    assert_eq!(rows[1].score_delta, 8);
    assert_eq!(rows[1].event_type, "witness");
}

#[test]
fn wallet_tags_shorten_long_addresses() {
    assert_eq!(tag_wallet("short"), "short");
    assert_eq!(tag_wallet("exactly14chars"), "exactly14chars");
    assert_eq!(
        tag_wallet("kaspa:0123456789abcdef"),
        "kaspa:0123...cdef"
    );
}

#[test]
fn tier_labels_are_total() {
    assert_eq!(tier_for_level(14, false), "Unknown");
    assert_eq!(tier_for_level(15, false), "μScout");
    assert_eq!(tier_for_level(17, false), "μForged");
    assert_eq!(tier_for_level(18, false), "μLegend");
    assert_eq!(tier_for_level(20, false), "μMythic");
    assert_eq!(tier_for_level(21, false), "μHonorius");
    assert_eq!(tier_for_level(u8::MAX, false), "μHonorius");
    assert_eq!(tier_for_level(18, true), "μOracle");
    assert_eq!(calculate_score_and_tier(18, false), (100, "μLegend"));
    assert_eq!(calculate_score_and_tier(18, true), (50, "μOracle"));
    assert_eq!(calculate_score_and_tier(3, false), (0, "Unknown"));
}

#[test]
fn leaderboard_ranks_by_total_score() {
    let mut reg = SessionRegistry::new();
    let dave = PubKey::new([0xdau8; 32]);
    let erin = PubKey::new([0xeeu8; 32]);
    let meta = PayloadMetadata { accepting_time: 1 };
    reg.handle_event(&dave, &mined_event(15, 130), &meta).unwrap();
    reg.handle_event(&erin, &mined_event(16, 131), &meta).unwrap();

    let board = build_leaderboard(&reg, &vec![]);
    assert_eq!(board.len(), 2);
    assert_eq!(board[0].score, 25);
    assert_eq!(board[1].score, 10);
    assert_eq!(board[0].rank, 1);
    assert_eq!(board[1].rank, 2);
    assert!(board[0].tier.starts_with("🥇 "));
    assert!(board[1].tier.starts_with("🥈 "));
}

#[test]
fn leaderboard_tie_breaks_by_latest_date() {
    let mut reg = SessionRegistry::new();
    let frank = PubKey::new([0x0fu8; 32]);
    let gina = PubKey::new([0x1fu8; 32]);
    let meta = PayloadMetadata { accepting_time: 1 };
    reg.handle_event(&frank, &mined_event(15, 140), &meta).unwrap();
    reg.handle_event(&gina, &mined_event(15, 141), &meta).unwrap();

    let frank_hex = "0f".repeat(32);
    let gina_hex = "1f".repeat(32);
    let subs = vec![
        sub(&frank_hex, 10, 15, 140, "2025-07-01", "mined"),
        sub(&gina_hex, 10, 15, 141, "2025-07-03", "mined"),
    ];
    let board = build_leaderboard(&reg, &subs);
    assert_eq!(board.len(), 2);
    assert_eq!(board[0].date_mined, "2025-07-03");
    assert_eq!(board[0].block_height, 141);
    assert_eq!(board[1].date_mined, "2025-07-01");
}

#[test]
fn leaderboard_joins_latest_submission_metadata() {
    let mut reg = SessionRegistry::new();
    let hannah = PubKey::new([0x7au8; 32]);
    let meta = PayloadMetadata { accepting_time: 1 };
    reg.handle_event(&hannah, &mined_event(15, 150), &meta).unwrap();
    reg.handle_event(&hannah, &mined_event(18, 151), &meta).unwrap();

    let hannah_hex = "7a".repeat(32);
    let subs = vec![
        sub(&hannah_hex, 10, 15, 150, "2025-07-01", "mined"),
        sub(&hannah_hex, 100, 18, 151, "2025-07-02", "mined"),
    ];
    let board = build_leaderboard(&reg, &subs);
    assert_eq!(board.len(), 1);
    assert_eq!(board[0].score, 110);
    assert_eq!(board[0].mu_level, 18);
    assert_eq!(board[0].block_height, 151);
    // The session's last accepted level was 18, so the tier is the
    // level-18 label under the first-place medal.
    assert_eq!(board[0].tier, "🥇 μLegend");
    assert!(board[0].wallet_tag.starts_with("kaspa:7a7a"));
    assert!(board[0].wallet_tag.contains("..."));
}

#[test]
fn health_thresholds_and_presets() {
    let ready = preset_metrics(StatusKind::Ready);
    let (status, msg, stick) = decide(&ready, StatusKind::Ready, COOLDOWN_MS);
    assert_eq!(status, StatusKind::Ready);
    assert_eq!(msg, "OK");
    assert!(!stick);

    let degraded = preset_metrics(StatusKind::Degraded);
    let (status, msg, _) = decide(&degraded, StatusKind::Ready, COOLDOWN_MS);
    assert_eq!(status, StatusKind::Degraded);
    assert_eq!(msg, "Degraded: thresholds exceeded");

    let down = preset_metrics(StatusKind::Down);
    let (status, msg, _) = decide(&down, StatusKind::Ready, 0);
    assert_eq!(status, StatusKind::Down);
    assert_eq!(msg, "Down or critical thresholds exceeded");
}

#[test]
fn health_cooldown_hysteresis() {
    // Within the cooldown a recovery from Down sticks unless the recovery
    // band confirms it.
    let half_good = Metrics {
        db_up: true,
        node_reachable: true,
        unreachable_streak: 0,
        indexer_lag_sec: 110,
        queue_depth: 0,
        rpc_error_rate_pct: 0,
    };
    let (status, msg, stick) = decide(&half_good, StatusKind::Down, 1000);
    assert_eq!(status, StatusKind::Down);
    assert_eq!(msg, "Cooling down");
    assert!(stick);

    let fully_good = preset_metrics(StatusKind::Ready);
    let (status, _, stick) = decide(&fully_good, StatusKind::Down, 1000);
    assert_eq!(status, StatusKind::Ready);
    assert!(!stick);

    let shaky = Metrics {
        db_up: true,
        node_reachable: true,
        unreachable_streak: 0,
        indexer_lag_sec: 28,
        queue_depth: 0,
        rpc_error_rate_pct: 0,
    };
    let (status, msg, stick) = decide(&shaky, StatusKind::Degraded, 1000);
    assert_eq!(status, StatusKind::Degraded);
    assert_eq!(msg, "Stabilizing");
    assert!(stick);
    let (status, _, stick) = decide(&shaky, StatusKind::Degraded, COOLDOWN_MS);
    assert_eq!(status, StatusKind::Ready);
    assert!(!stick);
}
