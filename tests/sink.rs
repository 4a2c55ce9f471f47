use scylla_sink::lock::{
    lock_from_outcome, prepare_lock_request, select_lock_interface, shard_count, IpAddress,
    LockRequest, NetInterface, ProducerInfo, StartupError,
};
use scylla_sink::period::{period_of_offset, period_to_commit};
use scylla_sink::recovery::{current_period_per_shard, last_offsets, RecoveryError};
use scylla_sink::router::RoundRobin;
use scylla_sink::shard::{shards_from_offsets, Shard};
use scylla_sink::types::{config_producer_id, ScyllaSinkConfig, ScyllaSinkError, SHARD_OFFSET_MODULO};
use std::time::Duration;

const PERIOD: i64 = 100;

fn config(len_limit: usize, kb_limit: usize, linger_ms: u64) -> ScyllaSinkConfig {
    ScyllaSinkConfig {
        producer_id: 7,
        batch_len_limit: len_limit,
        batch_size_kb_limit: kb_limit,
        linger: Duration::from_millis(linger_ms),
        keyspace: "solana".to_string(),
        ifname: None,
    }
}

/// Recovery of `num_shards` shards from commit rows and per-shard max offsets.
fn recover(num_shards: usize, rows: Vec<(i16, i64)>, max: Vec<Option<i64>>) -> Vec<(i16, i64)> {
    let periods = current_period_per_shard(num_shards, &rows).unwrap();
    last_offsets(num_shards, &periods, &max, PERIOD).unwrap()
}

/// Drives one shard through `n` inserted events and a shutdown; returns the
/// written offsets in order, the committed periods and the shard.
fn run_shard(shard: &mut Shard<i64>, slots: &[i64], size: usize, times: &[u64]) -> (Vec<Vec<i64>>, Vec<i64>) {
    let mut batches = Vec::new();
    let mut commits = Vec::new();
    for (k, slot) in slots.iter().enumerate() {
        let it = shard.begin_iteration();
        if !it.batch.is_empty() {
            batches.push(it.batch.iter().map(|e| e.0).collect());
        }
        if let Some(p) = it.commit {
            commits.push(p);
        }
        let batch = shard.on_insert(*slot, size, times[k]);
        if !batch.is_empty() {
            batches.push(batch.iter().map(|e| e.0).collect());
        }
    }
    let it = shard.begin_iteration();
    if !it.batch.is_empty() {
        batches.push(it.batch.iter().map(|e| e.0).collect());
    }
    if let Some(p) = it.commit {
        commits.push(p);
    }
    let last = shard.on_shutdown();
    if !last.is_empty() {
        batches.push(last.iter().map(|e| e.0).collect());
    }
    (batches, commits)
}

#[test]
fn fresh_start_one_shard_one_event() {
    let offsets = recover(1, vec![], vec![None]);
    assert_eq!(offsets, vec![(0, -1)]);
    let cfg = config(15, 1024, 10_000);
    let mut shards: Vec<Shard<i64>> = shards_from_offsets(&cfg, &offsets, 10_000, 0, PERIOD);
    let mut router = RoundRobin::new(1);
    let route = router.route(42);
    assert_eq!(route.shard, 0);
    assert!(route.record_slot);
    assert_eq!(router.max_slot_seen(), 42);
    let shard = &mut shards[0];
    let it = shard.begin_iteration();
    assert_eq!((it.offset, it.commit), (0, None));
    assert!(it.batch.is_empty());
    assert!(shard.on_insert(42, 100, 1).is_empty());
    let it = shard.begin_iteration();
    assert_eq!((it.offset, it.commit), (1, None));
    let last = shard.on_shutdown();
    assert_eq!(last, vec![(0, 42)]);
    assert_eq!(period_of_offset(0, PERIOD), 0);
    assert_eq!(shard.shard_id(), 0);
    assert_eq!(shard.producer_id(), [7]);
}

#[test]
fn period_rollover() {
    let offsets = recover(1, vec![], vec![None]);
    let cfg = config(15, 1024, 1_000_000);
    let mut shards: Vec<Shard<i64>> = shards_from_offsets(&cfg, &offsets, 1_000_000, 0, PERIOD);
    let slots: Vec<i64> = (0..201).collect();
    let times = vec![0u64; 201];
    let (batches, commits) = run_shard(&mut shards[0], &slots, 10, &times);
    let written: Vec<i64> = batches.concat();
    assert_eq!(written, (0..=200).collect::<Vec<i64>>());
    assert_eq!(commits, vec![0, 1]);
    assert!(batches.iter().all(|b| b.len() <= 15));
    assert!(batches.iter().all(|b| b.iter().all(|o| o / PERIOD == b[0] / PERIOD)));
    assert!(batches.iter().any(|b| *b.last().unwrap() == 99));
    assert!(batches.iter().any(|b| *b.last().unwrap() == 199));
    // the shutdown iteration reserved 201 without using it
    assert_eq!(shards[0].next_offset(), 202);
}

#[test]
fn crash_resume() {
    let offsets = recover(1, vec![(0, 0)], vec![Some(149)]);
    assert_eq!(offsets, vec![(0, 149)]);
    let cfg = config(15, 1024, 1000);
    let mut shards: Vec<Shard<i64>> = shards_from_offsets(&cfg, &offsets, 1000, 0, PERIOD);
    let it = shards[0].begin_iteration();
    assert_eq!((it.offset, it.commit), (150, None));
}

#[test]
fn resume_after_committed_period_with_no_events() {
    let periods = current_period_per_shard(2, &vec![(1, 4), (0, 2)]).unwrap();
    assert_eq!(periods, vec![3, 5]);
    let offsets = last_offsets(2, &periods, &vec![None, None], PERIOD).unwrap();
    assert_eq!(offsets, vec![(0, 299), (1, 499)]);
    let cfg = config(15, 1024, 1000);
    let mut shards: Vec<Shard<i64>> = shards_from_offsets(&cfg, &offsets, 1000, 0, PERIOD);
    // the first offset of period 3 commits period 2 again, which is harmless
    let it = shards[0].begin_iteration();
    assert_eq!((it.offset, it.commit), (300, Some(2)));
    let it = shards[1].begin_iteration();
    assert_eq!((it.offset, it.commit), (500, Some(4)));
}

#[test]
fn later_commit_row_wins() {
    let periods = current_period_per_shard(1, &vec![(0, 3), (0, 8)]).unwrap();
    assert_eq!(periods, vec![9]);
}

#[test]
fn batch_size_trigger() {
    let cfg = config(15, 1, 1_000_000);
    let mut shard: Shard<i64> = Shard::from_config(&cfg, 0, 0, 1_000_000, 0, PERIOD);
    shard.begin_iteration();
    assert!(!shard.needs_flush(600, 0));
    assert!(shard.on_insert(1, 600, 0).is_empty());
    shard.begin_iteration();
    // 600 + 600 >= 1024: the byte limit flushes long before capacity 15
    assert!(shard.needs_flush(600, 0));
    let batch = shard.on_insert(2, 600, 0);
    assert_eq!(batch, vec![(0, 1)]);
    assert_eq!(shard.buffer_len(), 1);
}

#[test]
fn batch_size_trigger_flushes_two() {
    let cfg = config(15, 1, 1_000_000);
    let mut shard: Shard<i64> = Shard::from_config(&cfg, 0, 0, 1_000_000, 0, PERIOD);
    let (batches, _) = run_shard(&mut shard, &[1, 2, 3], 500, &[0, 0, 0]);
    assert_eq!(batches, vec![vec![0, 1], vec![2]]);
}

#[test]
fn byte_limit_wins_over_linger() {
    let cfg = config(15, 1, 50);
    let mut shard: Shard<i64> = Shard::from_config(&cfg, 0, 0, 50, 0, PERIOD);
    shard.begin_iteration();
    assert!(shard.on_insert(1, 600, 0).is_empty());
    shard.begin_iteration();
    // both the byte limit and the deadline are due: one flush of one batch
    let batch = shard.on_insert(2, 600, 60);
    assert_eq!(batch, vec![(0, 1)]);
    shard.begin_iteration();
    // the deadline restarted at 60
    assert!(!shard.needs_flush(1, 100));
    assert!(shard.needs_flush(1, 110));
}

#[test]
fn linger_trigger() {
    let cfg = config(15, 1024, 50);
    let mut shard: Shard<i64> = Shard::from_config(&cfg, 0, 0, 50, 0, PERIOD);
    shard.begin_iteration();
    assert!(shard.on_insert(1, 10, 0).is_empty());
    shard.begin_iteration();
    assert!(!shard.needs_flush(10, 49));
    assert!(shard.needs_flush(10, 50));
    let batch = shard.on_insert(2, 10, 100);
    assert_eq!(batch, vec![(0, 1)]);
}

#[test]
fn capacity_trigger_honours_batch_len_limit() {
    let cfg = config(3, 1024, 1_000_000);
    let mut shard: Shard<i64> = Shard::from_config(&cfg, 0, 0, 1_000_000, 0, PERIOD);
    let (batches, _) = run_shard(&mut shard, &[1, 2, 3, 4, 5, 6, 7], 1, &[0; 7]);
    assert_eq!(batches, vec![vec![0, 1, 2], vec![3, 4, 5], vec![6]]);
}

#[test]
fn kb_limit_saturates() {
    let cfg = config(15, usize::MAX, 1);
    let shard: Shard<i64> = Shard::from_config(&cfg, 0, 0, 1, 0, PERIOD);
    assert!(!shard.needs_flush(usize::MAX - 1, 0));
    assert!(shard.needs_flush(usize::MAX, 0));
}

#[test]
fn linger_deadline_saturates() {
    let cfg = config(15, 1024, 1);
    let mut shard: Shard<i64> = Shard::from_config(&cfg, 0, 0, u64::MAX, 5, PERIOD);
    assert_eq!(shard.linger_deadline(), u64::MAX);
    shard.begin_iteration();
    assert!(shard.on_insert(1, 1, 5).is_empty());
    shard.begin_iteration();
    assert!(!shard.needs_flush(1, u64::MAX - 1));
    assert!(shard.needs_flush(1, u64::MAX));
}

#[test]
fn period_commit_values() {
    assert_eq!(period_to_commit(0, 100), None);
    assert_eq!(period_to_commit(99, 100), None);
    assert_eq!(period_to_commit(100, 100), Some(0));
    assert_eq!(period_to_commit(200, 100), Some(1));
    assert_eq!(period_to_commit(250, 100), None);
    assert_eq!(period_of_offset(250, 100), 2);
    assert_eq!(period_to_commit(SHARD_OFFSET_MODULO, SHARD_OFFSET_MODULO), Some(0));
}

#[test]
fn round_robin_rotates_and_tracks_max_slot() {
    let mut router = RoundRobin::new(3);
    let shards: Vec<usize> = [5, 3, 5, 9, 1].iter().map(|s| router.route(*s).shard).collect();
    assert_eq!(shards, vec![0, 1, 2, 0, 1]);
    let mut router = RoundRobin::new(2);
    let records: Vec<bool> = [5, 3, 5, 9, -1].iter().map(|s| router.route(*s).record_slot).collect();
    assert_eq!(records, vec![true, false, false, true, false]);
    assert_eq!(router.max_slot_seen(), 9);
}

#[test]
fn recovery_errors() {
    assert_eq!(current_period_per_shard(2, &vec![(2, 0)]), Err(RecoveryError::ShardOutOfRange(2)));
    assert_eq!(current_period_per_shard(2, &vec![(-1, 0)]), Err(RecoveryError::ShardOutOfRange(-1)));
    assert_eq!(current_period_per_shard(2, &vec![(1, i64::MAX)]), Err(RecoveryError::InvalidPeriod(1)));
    assert_eq!(current_period_per_shard(2, &vec![(1, -2)]), Err(RecoveryError::InvalidPeriod(1)));
    assert_eq!(last_offsets(2, &vec![0], &vec![None, None], PERIOD), Err(RecoveryError::MissingShards));
    assert_eq!(last_offsets(2, &vec![0, 0], &vec![None], PERIOD), Err(RecoveryError::MissingShards));
    assert_eq!(last_offsets(1, &vec![0], &vec![Some(i64::MAX)], PERIOD), Err(RecoveryError::InvalidOffset(0)));
    assert_eq!(last_offsets(2, &vec![0, i64::MAX], &vec![None, None], PERIOD), Err(RecoveryError::InvalidOffset(1)));
    assert_eq!(last_offsets(1, &vec![-1], &vec![None], PERIOD), Err(RecoveryError::InvalidOffset(0)));
}

fn interfaces() -> Vec<NetInterface> {
    vec![
        NetInterface { name: "lo".to_string(), addr: IpAddress::V4(0x7f000001) },
        NetInterface { name: "eth0".to_string(), addr: IpAddress::V6(1) },
        NetInterface { name: "eth0".to_string(), addr: IpAddress::V4(0x0a000005) },
        NetInterface { name: "eth1".to_string(), addr: IpAddress::V4(0x0a000005) },
    ]
}

#[test]
fn lock_interface_by_name() {
    let r = select_lock_interface(&interfaces(), &Some("eth0".to_string()), None).unwrap();
    assert_eq!(r, ("eth0".to_string(), 0x0a000005));
    let r = select_lock_interface(&interfaces(), &Some("wlan0".to_string()), None);
    assert!(matches!(r, Err(StartupError::NoInterface)));
}

#[test]
fn lock_interface_by_local_ip() {
    let r = select_lock_interface(&interfaces(), &None, Some(IpAddress::V4(0x0a000005))).unwrap();
    assert_eq!(r, ("eth0".to_string(), 0x0a000005));
    let r = select_lock_interface(&interfaces(), &None, Some(IpAddress::V6(1)));
    assert!(matches!(r, Err(StartupError::NoInterface)));
    let r = select_lock_interface(&interfaces(), &None, Some(IpAddress::V4(1)));
    assert!(matches!(r, Err(StartupError::NoInterface)));
    let r = select_lock_interface(&interfaces(), &None, None);
    assert!(matches!(r, Err(StartupError::NoInterface)));
}

#[test]
fn lock_request_has_fresh_lock_id() {
    let a = prepare_lock_request([7], &interfaces(), &None, Some(IpAddress::V4(0x7f000001))).unwrap();
    let b = prepare_lock_request([7], &interfaces(), &None, Some(IpAddress::V4(0x7f000001))).unwrap();
    assert_eq!(a.lock_id.chars().count(), 36);
    assert_ne!(a.lock_id, b.lock_id);
    assert_eq!(a.ifname, "lo");
    assert_eq!(a.ipv4, 0x7f000001);
    assert_eq!(a.producer_id, [7]);
}

#[test]
fn lock_contention() {
    let req = |id: &str| LockRequest {
        producer_id: [7],
        lock_id: id.to_string(),
        ifname: "eth0".to_string(),
        ipv4: 1,
    };
    let a = lock_from_outcome(req("a"), true).unwrap();
    assert_eq!(a.lock_id, "a");
    assert!(matches!(lock_from_outcome(req("b"), false), Err(StartupError::AlreadyLocked([7]))));
    let b = lock_from_outcome(req("b"), true).unwrap();
    assert_eq!(b.lock_id, "b");
}

#[test]
fn producer_registration() {
    assert!(matches!(shard_count([3], None), Err(StartupError::ProducerUnregistered([3]))));
    let info = ProducerInfo { producer_id: [3], num_shards: -1 };
    assert!(matches!(shard_count([3], Some(info)), Err(StartupError::InvalidShardCount(-1))));
    let info = ProducerInfo { producer_id: [3], num_shards: 4 };
    assert_eq!(shard_count([3], Some(info)).unwrap(), 4);
}

#[test]
fn sink_error_and_config() {
    assert_eq!(ScyllaSinkError::SinkClose.message(), "sink is closed");
    assert_eq!(config_producer_id(&config(1, 1, 1)), [7]);
    let c = config(2, 3, 4);
    assert_eq!(c.clone(), c);
}

#[test]
fn batch_never_spans_periods() {
    let offsets = recover(1, vec![], vec![Some(98)]);
    assert_eq!(offsets, vec![(0, 98)]);
    let cfg = config(15, 1024, 1_000_000);
    let mut shards: Vec<Shard<i64>> = shards_from_offsets(&cfg, &offsets, 1_000_000, 0, PERIOD);
    let shard = &mut shards[0];
    let it = shard.begin_iteration();
    assert_eq!((it.offset, it.commit), (99, None));
    assert!(shard.on_insert(1, 10, 0).is_empty());
    // offset 100 starts period 1: period 0's events go out before its commit
    let it = shard.begin_iteration();
    assert_eq!(it.offset, 100);
    assert_eq!(it.batch, vec![(99, 1)]);
    assert_eq!(it.commit, Some(0));
    assert_eq!(shard.buffer_len(), 0);
    assert!(shard.on_insert(2, 10, 0).is_empty());
    shard.begin_iteration();
    assert_eq!(shard.on_shutdown(), vec![(100, 2)]);
}

#[test]
fn boundary_with_empty_buffer_hands_out_nothing() {
    let cfg = config(15, 1024, 1_000_000);
    let mut shard: Shard<i64> = Shard::from_config(&cfg, 0, 200, 1_000_000, 0, PERIOD);
    let it = shard.begin_iteration();
    assert_eq!((it.offset, it.commit), (200, Some(1)));
    assert!(it.batch.is_empty());
}

#[test]
fn linger_flushes_without_new_event() {
    let cfg = config(15, 1024, 50);
    let mut shard: Shard<i64> = Shard::from_config(&cfg, 0, 0, 50, 0, PERIOD);
    shard.begin_iteration();
    assert!(shard.on_insert(1, 10, 0).is_empty());
    shard.begin_iteration();
    assert!(shard.on_linger(49).is_empty());
    assert_eq!(shard.on_linger(50), vec![(0, 1)]);
    assert_eq!(shard.linger_deadline(), 100);
    assert_eq!(shard.buffer_len(), 0);
    // the reserved offset is still waiting for its event
    assert!(shard.on_insert(2, 10, 60).is_empty());
    assert_eq!(shard.on_shutdown(), vec![(1, 2)]);
}

#[test]
fn linger_with_empty_buffer_changes_nothing() {
    let cfg = config(15, 1024, 50);
    let mut shard: Shard<i64> = Shard::from_config(&cfg, 0, 0, 50, 0, PERIOD);
    assert!(shard.on_linger(500).is_empty());
    assert_eq!(shard.linger_deadline(), 50);
    shard.begin_iteration();
    // the deadline has passed but the buffer is empty: no flush before the event
    assert!(!shard.needs_flush(10, 500));
    assert!(shard.on_insert(1, 10, 500).is_empty());
    assert_eq!(shard.linger_deadline(), 50);
    assert_eq!(shard.on_linger(501), vec![(0, 1)]);
    assert_eq!(shard.linger_deadline(), 551);
}

#[test]
fn lock_id_is_uuid_v4_text() {
    let a = prepare_lock_request([7], &interfaces(), &None, Some(IpAddress::V4(0x7f000001))).unwrap();
    let chars: Vec<char> = a.lock_id.chars().collect();
    assert_eq!(chars.len(), 36);
    for (i, c) in chars.iter().enumerate() {
        if i == 8 || i == 13 || i == 18 || i == 23 {
            assert_eq!(*c, '-');
        } else {
            assert!(c.is_ascii_digit() || ('a'..='f').contains(c));
        }
    }
    assert_eq!(chars[14], '4');
    assert!(['8', '9', 'a', 'b'].contains(&chars[19]));
}
