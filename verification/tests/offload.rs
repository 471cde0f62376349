use dynamo_tokens::PositionalLineageHash;
use modelkit::offload::{
    nonzero_delay, root_key, Delay, Eviction, FindOutcome, FindRequest, KvbmOffloadConfig,
    LogicalLayoutHandle, MockOffloadEngine, MockWorker, Notification, StagingMode,
};
use modelkit::pool::{build_block_manager, build_registry};

const G1: LogicalLayoutHandle = LogicalLayoutHandle::G1;
const G2: LogicalLayoutHandle = LogicalLayoutHandle::G2;

#[derive(Clone, Copy, Debug)]
struct HostBlock;

fn config(block_size_bytes: Option<usize>) -> KvbmOffloadConfig {
    KvbmOffloadConfig { num_g2_blocks: 64, offload_batch_size: 8, block_size_bytes }
}

fn engine(block_size_bytes: Option<usize>) -> MockOffloadEngine {
    MockOffloadEngine::build::<HostBlock>(&config(block_size_bytes)).0
}

#[test]
fn test_g1_eviction_offloads_to_g2() {
    let mut queue = Vec::new();
    engine(None).enqueue_g1_eviction(0, 0xdeadbeef_cafebabe, |block: Eviction| queue.push(block));
    assert_eq!(queue.len(), 1);
    assert_eq!(queue[0].block_id, 0);
    assert_eq!(queue[0].key.current, 0xdeadbeef_cafebabe);
    assert_eq!(queue[0].key.packed, 0x6adbeef_cafebabe);
}

#[test]
fn test_find_in_tiers_after_offload() {
    let engine = engine(None);
    let mut tier = Vec::new();
    engine.enqueue_g1_eviction(0, 0xdeadbeef, |block: Eviction| tier.push(block.key.packed));

    let find = |seq_hash: u64| {
        engine.find_in_tiers(seq_hash, |request: FindRequest| FindOutcome::Ready {
            g2_count: tier.iter().filter(|k| **k == request.key.packed).count(),
        })
    };

    assert!(find(0xdeadbeef), "block should be found in G2");
    assert!(!find(0x12345678), "unknown block should not be found");
}

#[test]
fn only_what_was_evicted_is_found() {
    let engine = engine(Some(1));
    let mut tier = Vec::new();
    let find = |tier: &Vec<u128>, seq_hash: u64| {
        engine.find_in_tiers(seq_hash, |request: FindRequest| FindOutcome::Ready {
            g2_count: tier.iter().filter(|k| **k == request.key.packed).count(),
        })
    };
    let hashes = [0, 1, 2, 1 << 59, (1 << 59) + 7, u64::MAX];
    assert!(hashes.iter().all(|h| !find(&tier, *h)), "nothing was evicted yet");

    engine.enqueue_g1_eviction(3, 1, |block: Eviction| tier.push(block.key.packed));
    engine.enqueue_g1_eviction(4, (1 << 59) + 7, |block: Eviction| tier.push(block.key.packed));
    let found: Vec<bool> = hashes.iter().map(|h| find(&tier, *h)).collect();
    assert_eq!(found, [false, true, false, false, true, false]);
    assert!(find(&tier, 7), "the low bits of a hash are those of an evicted block");

    assert!(engine.onboard_g2_to_g1(2, at_one_gigabyte_a_second).is_some());
    let after: Vec<bool> = hashes.iter().map(|h| find(&tier, *h)).collect();
    assert_eq!(after, found, "onboarding leaves the tier as it was");
}

#[test]
fn lookup_may_go_by_the_parts_of_the_key() {
    let engine = engine(None);
    let mut tier = Vec::new();
    engine.enqueue_g1_eviction(0, 0xdeadbeef, |block: Eviction| {
        tier.push(PositionalLineageHash::new(block.key.current, block.key.parent, block.key.position))
    });
    let find = |seq_hash: u64| {
        engine.find_in_tiers(seq_hash, |request: FindRequest| {
            let key = request.key;
            let hash = PositionalLineageHash::new(key.current, key.parent, key.position);
            FindOutcome::Ready { g2_count: tier.iter().filter(|k| **k == hash).count() }
        })
    };
    assert!(find(0xdeadbeef));
    assert!(find(0xdeadbeef + (1 << 59)));
    assert!(!find(0x12345678));
}

#[test]
fn more_blocks_never_take_less_time() {
    let worker = MockWorker::new(&config(Some(300_000_000)));
    let delays: Vec<Delay> = (0..20)
        .map(|n| worker.transfer_delay(G1, G2, n, at_one_gigabyte_a_second).expect("blocks have a size"))
        .collect();
    assert_eq!(delays[0], Delay { secs: 0, nanos: 0 });
    assert_eq!(delays[4], Delay { secs: 1, nanos: 200_000_000 });
    assert!(delays.windows(2).all(|d| (d[0].secs, d[0].nanos) <= (d[1].secs, d[1].nanos)));
}

#[test]
fn unused_blocks_leave_in_the_order_of_their_last_use() {
    let manager = build_block_manager::<HostBlock>(2, &build_registry()).manager;
    let hash = |n: u64| PositionalLineageHash::new(n, None, 0);
    let register = |n: u64| {
        let block = manager.allocate_blocks(1).and_then(|mut b| b.pop()).expect("a block is free");
        let complete = block.stage(hash(n), 1).expect("the block takes one token");
        drop(manager.register_block(complete));
    };
    register(1);
    register(2);
    assert_eq!(manager.match_blocks(&[hash(1)]).len(), 1);
    register(3);
    assert_eq!(manager.match_blocks(&[hash(2)]).len(), 0);
    assert_eq!(manager.match_blocks(&[hash(1)]).len(), 1);
    assert_eq!(manager.match_blocks(&[hash(3)]).len(), 1);
}

#[test]
fn key_is_the_packed_lineage_hash_of_a_root() {
    for seq_hash in [0, 1, 0xdeadbeef, 0xdeadbeef_cafebabe, (1 << 59) - 1, 1 << 59, u64::MAX] {
        let key = root_key(seq_hash);
        let hash = PositionalLineageHash::new(key.current, key.parent, key.position);
        assert_eq!(key.packed, hash.as_u128());
        assert_eq!(key.packed, (seq_hash % (1 << 59)) as u128);
        assert_eq!(key.parent, None);
        assert_eq!(key.position, 0);
    }
}

#[test]
fn keys_collide_beyond_the_low_bits_only() {
    assert_eq!(root_key(5).packed, root_key(5 + (1 << 59)).packed);
    assert_ne!(root_key(5), root_key(5 + (1 << 59)));
    assert_ne!(root_key(5).packed, root_key(6).packed);
}

#[test]
fn lookup_is_local_and_holds_what_it_finds() {
    let request = engine(None).find_request(7);
    assert_eq!(request.key, engine(None).eviction(3, 7).key);
    assert!(!request.search_remote);
    assert_eq!(request.staging_mode, StagingMode::Hold);
}

#[test]
fn only_a_finished_lookup_with_blocks_is_a_hit() {
    let engine = engine(None);
    for (outcome, hit) in [
        (FindOutcome::Ready { g2_count: 1 }, true),
        (FindOutcome::Ready { g2_count: 2 }, true),
        (FindOutcome::Ready { g2_count: 0 }, false),
        (FindOutcome::AsyncSession, false),
        (FindOutcome::Failed, false),
    ] {
        assert_eq!(outcome.is_hit(), hit);
        assert_eq!(engine.find_in_tiers(9, |_: FindRequest| outcome), hit);
    }
}

#[test]
fn engine_is_built_to_the_configuration() {
    let (engine, tier) = MockOffloadEngine::build::<HostBlock>(&config(Some(4096)));
    assert_eq!(engine.offload_batch_size, 8);
    assert_eq!(engine.worker.block_size_bytes, Some(4096));
    assert_eq!(tier.blocks.total_blocks(), 64);
    assert_eq!(tier.blocks.block_size(), 1);
    let manager = tier.blocks.manager;
    assert_eq!(manager.total_blocks(), 64);
    assert_eq!(manager.available_blocks(), 64);
    assert_eq!(manager.block_size(), 1);
    assert!(tier.registry.has_frequency_tracking());
}

#[test]
fn registry_tracks_frequencies() {
    let registry = build_registry();
    let hash = PositionalLineageHash::new(42, None, 0);
    assert_eq!(registry.count(hash), 0);
    registry.touch(hash);
    assert_eq!(registry.count(hash), 1);
}

#[test]
fn pool_registers_with_the_registry_it_was_given() {
    let registry = build_registry();
    let other = build_registry();
    let built = build_block_manager::<HostBlock>(4, &registry);
    let hash = PositionalLineageHash::new(42, None, 0);
    registry.touch(hash);
    assert_eq!(built.block_registry().count(hash), 1);
    assert_eq!(built.manager.block_registry().count(hash), 1);
    assert_eq!(other.count(hash), 0);

    let (_, tier) = MockOffloadEngine::build::<HostBlock>(&config(None));
    tier.registry.touch(hash);
    assert_eq!(tier.blocks.block_registry().count(hash), 1);
}

#[test]
fn pool_holds_as_many_blocks_as_asked_for() {
    let registry = build_registry();
    for count in [1, 2, 3, 100] {
        let built = build_block_manager::<HostBlock>(count, &registry);
        assert_eq!(built.total_blocks(), count);
        let manager = built.manager;
        assert!(manager.allocate_blocks(count + 1).is_none());
        assert_eq!(manager.allocate_blocks(count).map(|b| b.len()), Some(count));
    }
}

#[test]
fn transfers_move_whole_blocks() {
    let worker = MockWorker::new(&config(Some(4096)));
    assert_eq!(worker.transfer_bytes(0), Some(0));
    assert_eq!(worker.transfer_bytes(1), Some(4096));
    assert_eq!(worker.transfer_bytes(10), Some(40960));
    assert_eq!(MockWorker::new(&config(Some(1))).transfer_bytes(usize::MAX), Some(usize::MAX));
}

/// A byte a nanosecond.
fn at_one_gigabyte_a_second(bytes: usize) -> Delay {
    let bytes = bytes as u64;
    Delay { secs: bytes / 1_000_000_000, nanos: (bytes % 1_000_000_000) as u32 }
}

#[test]
fn transfers_take_the_time_of_their_bytes() {
    let worker = MockWorker::new(&config(Some(500_000_000)));
    let delay = Delay { secs: 1, nanos: 500_000_000 };
    assert_eq!(worker.transfer_delay(G1, G2, 3, at_one_gigabyte_a_second), Some(delay));
    assert_eq!(
        worker.execute_local_transfer(G2, G1, 3, at_one_gigabyte_a_second),
        Notification::After(delay)
    );
    assert_eq!(
        worker.execute_local_transfer(G2, G1, 0, at_one_gigabyte_a_second),
        Notification::Completed
    );
    let engine = engine(Some(500_000_000));
    assert_eq!(engine.onboard_g2_to_g1(3, at_one_gigabyte_a_second), Some(delay));
    assert_eq!(engine.onboard_g2_to_g1(0, at_one_gigabyte_a_second), None);
}

#[test]
fn onboarding_waits_for_the_local_transfer() {
    for size in [None, Some(0), Some(1), Some(500_000_000)] {
        let engine = engine(size);
        for blocks in [0, 1, 3] {
            let told = engine.worker.execute_local_transfer(G2, G1, blocks, at_one_gigabyte_a_second);
            let wait = match told {
                Notification::After(delay) => Some(delay),
                Notification::Completed => None,
            };
            assert_eq!(engine.onboard_g2_to_g1(blocks, at_one_gigabyte_a_second), wait);
        }
    }
}

#[test]
fn delay_is_the_same_in_every_direction() {
    let worker = MockWorker::new(&config(Some(4096)));
    let tiers = [G1, G2, LogicalLayoutHandle::G3, LogicalLayoutHandle::G4];
    for src in tiers {
        for dst in tiers {
            let delay = worker.transfer_delay(src, dst, 2, at_one_gigabyte_a_second);
            assert_eq!(delay, Some(Delay { secs: 0, nanos: 8192 }));
        }
    }
}

#[test]
fn blocks_without_a_size_take_no_time() {
    let worker = MockWorker::new(&config(None));
    assert_eq!(worker.transfer_bytes(usize::MAX), None);
    assert_eq!(worker.delayed_notification(None), Notification::Completed);
    assert_eq!(worker.transfer_delay(G1, G2, 5, at_one_gigabyte_a_second), None);
    assert_eq!(
        worker.execute_local_transfer(G2, G1, 5, at_one_gigabyte_a_second),
        Notification::Completed
    );
    assert_eq!(engine(None).onboard_g2_to_g1(5, at_one_gigabyte_a_second), None);
}

#[test]
fn only_a_delay_with_a_length_is_waited_for() {
    let worker = MockWorker::new(&config(Some(1)));
    let none = Delay { secs: 0, nanos: 0 };
    let short = Delay { secs: 0, nanos: 1 };
    let long = Delay { secs: 2, nanos: 0 };
    assert_eq!(nonzero_delay(None), None);
    assert_eq!(nonzero_delay(Some(none)), None);
    assert_eq!(nonzero_delay(Some(short)), Some(short));
    assert_eq!(worker.delayed_notification(Some(none)), Notification::Completed);
    assert_eq!(worker.delayed_notification(Some(short)), Notification::After(short));
    assert_eq!(worker.delayed_notification(Some(long)), Notification::After(long));
}

#[test]
fn worker_stores_no_objects() {
    let worker = MockWorker::new(&config(None));
    let keys = vec![root_key(1).packed, root_key(2).packed];
    assert_eq!(worker.has_blocks(&keys), [(1, None), (2, None)]);
    assert_eq!(worker.put_blocks(&keys), [Err(1), Err(2)]);
    assert_eq!(worker.get_blocks(&keys), [Err(1), Err(2)]);
    assert!(worker.has_blocks(&Vec::<u128>::new()).is_empty());
}
