//! A simulated engine that offloads cache blocks from device memory (G1) to host memory (G2).
//!
//! No data is moved. What a transfer would cost is worked out from the number of its blocks,
//! blocks are told apart by a hash of their contents, and the questions that the engine asks
//! of its worker are answered as by one that stores nothing.

use crate::pool::{
    build_block_manager, build_registry, tracked_entries, BlockPool, TrackerCapacity, MAX_BLOCKS,
};
use dynamo_tokens::PositionalLineageHash;
use kvbm_logical::blocks::BlockRegistry;
use vstd::arithmetic::power2::{lemma2_to64, lemma2_to64_rest, pow2};
use vstd::prelude::*;

verus! {

/// Configuration of the offload engine. The bandwidth between G1 and G2 is not part of it: it
/// is a floating-point number, and stays with whoever turns amounts of bytes into delays.
#[derive(Clone, Copy, Debug)]
pub struct KvbmOffloadConfig {
    /// The number of blocks in host memory.
    pub num_g2_blocks: usize,
    /// How many blocks are offloaded at a time.
    pub offload_batch_size: usize,
    /// Cache bytes per block. `None`: transfers complete instantly.
    pub block_size_bytes: Option<usize>,
}

/// A span of time: whole seconds, and the nanoseconds beyond them.
#[derive(Clone, Copy, PartialEq, Eq, Structural, Debug)]
pub struct Delay {
    pub secs: u64,
    pub nanos: u32,
}

impl Delay {
    /// The span in nanoseconds.
    pub open spec fn total_nanos(self) -> nat {
        (self.secs * 1_000_000_000 + self.nanos) as nat
    }
}

/// How the completion of a transfer is told.
#[derive(Clone, Copy, PartialEq, Eq, Structural, Debug)]
pub enum Notification {
    /// The transfer is complete at once.
    Completed,
    /// The transfer is complete after a delay.
    After(Delay),
}

/// The delay to wait for, where there is any: none, and one of no length, are not waited for.
pub open spec fn waited_for(delay: Option<Delay>) -> Option<Delay> {
    match delay {
        Some(d) if d.total_nanos() > 0 => Some(d),
        _ => None,
    }
}

/// How the completion of a transfer that takes this long is told.
pub open spec fn completion_after(delay: Option<Delay>) -> Notification {
    match waited_for(delay) {
        Some(d) => Notification::After(d),
        None => Notification::Completed,
    }
}

/// The delay that a notification makes one wait for.
pub open spec fn told_delay(notification: Notification) -> Option<Delay> {
    match notification {
        Notification::After(delay) => Some(delay),
        Notification::Completed => None,
    }
}

/// Returns the delay to wait for, where there is any.
pub fn nonzero_delay(delay: Option<Delay>) -> (r: Option<Delay>)
    ensures
        r == waited_for(delay),
{
    match delay {
        Some(d) => {
            if d.secs == 0 && d.nanos == 0 {
                None
            } else {
                Some(d)
            }
        },
        None => None,
    }
}

/// A tier of memory that blocks are transferred from or to.
#[derive(Clone, Copy, PartialEq, Eq, Structural, Debug)]
pub enum LogicalLayoutHandle {
    /// Device memory.
    G1,
    /// Host memory.
    G2,
    /// Disk.
    G3,
    /// An outside store.
    G4,
}

/// A worker that simulates transfers without moving data.
#[derive(Clone, Copy, Debug)]
pub struct MockWorker {
    /// Cache bytes per block. `None`: transfers complete instantly.
    pub block_size_bytes: Option<usize>,
}

impl MockWorker {
    /// A worker for the given configuration.
    pub fn new(config: &KvbmOffloadConfig) -> (r: MockWorker)
        ensures
            r.block_size_bytes == config.block_size_bytes,
    {
        MockWorker { block_size_bytes: config.block_size_bytes }
    }

    /// The bytes that a transfer of so many blocks moves, where blocks have a size.
    pub open spec fn bytes_of(self, num_blocks: nat) -> Option<nat> {
        match self.block_size_bytes {
            Some(bytes) => Some(num_blocks * bytes as nat),
            None => None,
        }
    }

    /// Whether the bytes of a transfer can be counted.
    pub open spec fn countable(self, num_blocks: nat) -> bool {
        self.bytes_of(num_blocks) matches Some(bytes) ==> bytes <= usize::MAX
    }

    /// Returns the bytes that a transfer of `num_blocks` blocks moves; `None` where blocks have
    /// no size.
    pub fn transfer_bytes(&self, num_blocks: usize) -> (r: Option<usize>)
        requires
            self.countable(num_blocks as nat),
        ensures
            r is Some <==> self.block_size_bytes is Some,
            r matches Some(bytes) ==> self.bytes_of(num_blocks as nat) == Some(bytes as nat),
    {
        match self.block_size_bytes {
            Some(block_bytes) => Some(num_blocks * block_bytes),
            None => None,
        }
    }

    /// Whether `time_for` can be asked how long the transfer of so many blocks takes.
    pub open spec fn timed_by<F: Fn(usize) -> Delay>(self, num_blocks: usize, time_for: F) -> bool {
        &&& self.countable(num_blocks as nat)
        &&& self.bytes_of(num_blocks as nat) matches Some(bytes) ==> call_requires(
            time_for,
            (bytes as usize,),
        )
    }

    /// Whether a delay is that of a transfer of so many blocks: what `time_for` gives for their
    /// bytes, or none where blocks have no size.
    pub open spec fn takes<F: Fn(usize) -> Delay>(
        self,
        num_blocks: usize,
        time_for: F,
        delay: Option<Delay>,
    ) -> bool {
        match self.bytes_of(num_blocks as nat) {
            Some(bytes) => delay matches Some(d) && call_ensures(time_for, (bytes as usize,), d),
            None => delay is None,
        }
    }

    /// Returns how long a transfer of `num_blocks` blocks takes, whichever way it goes: the time
    /// that `time_for` gives for its bytes. `None` where blocks have no size.
    pub fn transfer_delay<F: Fn(usize) -> Delay>(
        &self,
        _src: LogicalLayoutHandle,
        _dst: LogicalLayoutHandle,
        num_blocks: usize,
        time_for: F,
    ) -> (r: Option<Delay>)
        requires
            self.timed_by(num_blocks, time_for),
        ensures
            self.takes(num_blocks, time_for, r),
    {
        match self.transfer_bytes(num_blocks) {
            Some(bytes) => Some(time_for(bytes)),
            None => None,
        }
    }

    /// Tells how the completion of a transfer with this delay is to be told: at once, unless
    /// there is a delay to wait for.
    pub fn delayed_notification(&self, delay: Option<Delay>) -> (r: Notification)
        ensures
            r == completion_after(delay),
    {
        match nonzero_delay(delay) {
            Some(d) => Notification::After(d),
            None => Notification::Completed,
        }
    }

    /// Simulates the local transfer of `num_blocks` blocks from `src` to `dst`, and tells how its
    /// completion is to be told.
    pub fn execute_local_transfer<F: Fn(usize) -> Delay>(
        &self,
        src: LogicalLayoutHandle,
        dst: LogicalLayoutHandle,
        num_blocks: usize,
        time_for: F,
    ) -> (r: Notification)
        requires
            self.timed_by(num_blocks, time_for),
        ensures
            exists|delay: Option<Delay>| #[trigger]
                self.takes(num_blocks, time_for, delay) && r == completion_after(delay),
    {
        let delay = self.transfer_delay(src, dst, num_blocks, time_for);
        self.delayed_notification(delay)
    }

    /// Tells of each key how large its object is: none is there.
    pub fn has_blocks<K: Copy>(&self, keys: &Vec<K>) -> (r: Vec<(K, Option<usize>)>)
        ensures
            r@ == keys@.map_values(|k: K| (k, None::<usize>)),
    {
        let mut answers: Vec<(K, Option<usize>)> = Vec::new();
        for i in 0..keys.len()
            invariant
                answers@ == keys@.take(i as int).map_values(|k: K| (k, None::<usize>)),
        {
            answers.push((keys[i], None));
            assert(keys@.take(i + 1) == keys@.take(i as int).push(keys@[i as int]));
        }
        assert(keys@.take(keys@.len() as int) == keys@);
        answers
    }

    /// Stores no object: the put of each key fails.
    pub fn put_blocks<K: Copy>(&self, keys: &Vec<K>) -> (r: Vec<Result<K, K>>)
        ensures
            r@ == keys@.map_values(|k: K| Err::<K, K>(k)),
    {
        refuse_all(keys)
    }

    /// Loads no object: the get of each key fails.
    pub fn get_blocks<K: Copy>(&self, keys: &Vec<K>) -> (r: Vec<Result<K, K>>)
        ensures
            r@ == keys@.map_values(|k: K| Err::<K, K>(k)),
    {
        refuse_all(keys)
    }
}

fn refuse_all<K: Copy>(keys: &Vec<K>) -> (r: Vec<Result<K, K>>)
    ensures
        r@ == keys@.map_values(|k: K| Err::<K, K>(k)),
{
    let mut answers: Vec<Result<K, K>> = Vec::new();
    for i in 0..keys.len()
        invariant
            answers@ == keys@.take(i as int).map_values(|k: K| Err::<K, K>(k)),
    {
        answers.push(Err(keys[i]));
        assert(keys@.take(i + 1) == keys@.take(i as int).push(keys@[i as int]));
    }
    assert(keys@.take(keys@.len() as int) == keys@);
    answers
}

/// How a lineage hash packs a position: with 8, 16 or 24 bits.
pub open spec fn lineage_mode(position: nat) -> nat {
    if position < 0x100 {
        0
    } else if position < 0x1_0000 {
        1
    } else {
        2
    }
}

/// How many bits of a sequence hash a lineage hash has room for at a position.
pub open spec fn fragment_bits(position: nat) -> nat {
    if lineage_mode(position) == 0 {
        59
    } else if lineage_mode(position) == 1 {
        55
    } else {
        51
    }
}

/// The lineage hash of a block, from its own sequence hash, its parent's (zero for a root), and
/// its position. From the top down it holds the mode (two bits), the position, the low bits of
/// the parent's hash, and the low bits of the block's own, of which it keeps no more than the
/// next position has room for.
pub open spec fn lineage_hash(current: u64, parent: Option<u64>, position: u64) -> nat {
    let bits = fragment_bits(position as nat);
    let next = fragment_bits(position as nat + 1);
    let kept = if next < bits {
        next
    } else {
        bits
    };
    let parent_hash: nat = match parent {
        Some(hash) => hash as nat,
        None => 0,
    };
    lineage_mode(position as nat) * pow2(126) + position as nat * pow2(bits + bits) + (parent_hash
        % pow2(bits)) * pow2(bits) + current as nat % pow2(kept)
}

/// `PositionalLineageHash::new` and `as_u128` of `dynamo_tokens`: the packed lineage hash of a
/// block, for positions below 2^24.
#[verifier::external_body]
fn pack_lineage_hash(current: u64, parent: Option<u64>, position: u64) -> (r: u128)
    requires
        position < 0x100_0000,
    ensures
        r as nat == lineage_hash(current, parent, position),
{
    PositionalLineageHash::new(current, parent, position).as_u128()
}

/// The identity under which a block is offloaded and looked up.
#[derive(Clone, Copy, PartialEq, Eq, Structural, Debug)]
pub struct BlockKey {
    /// The block's sequence hash.
    pub current: u64,
    /// The sequence hash of the block before it.
    pub parent: Option<u64>,
    /// The block's position.
    pub position: u64,
    /// The lineage hash of these three.
    pub packed: u128,
}

impl BlockKey {
    /// The packed hash is that of the three parts.
    pub open spec fn wf(self) -> bool {
        self.position < 0x100_0000 && self.packed as nat == lineage_hash(
            self.current,
            self.parent,
            self.position,
        )
    }

    /// Whether this is the key of the block with a sequence hash, which stands as a root at
    /// position zero.
    pub open spec fn identifies(self, seq_hash: u64) -> bool {
        &&& self.wf()
        &&& self.current == seq_hash
        &&& self.parent is None
        &&& self.position == 0
        &&& self.packed as nat == block_identity(seq_hash)
    }
}

/// The identity of the block with a sequence hash: the low 59 bits of that hash.
pub open spec fn block_identity(seq_hash: u64) -> nat {
    seq_hash as nat % 0x800_0000_0000_0000
}

/// Returns the key of the block with a sequence hash.
pub fn root_key(seq_hash: u64) -> (r: BlockKey)
    ensures
        r.identifies(seq_hash),
{
    let packed: u128 = pack_lineage_hash(seq_hash, None, 0);
    proof {
        lemma_root_hash(seq_hash);
    }
    BlockKey { current: seq_hash, parent: None, position: 0, packed }
}

proof fn lemma_root_hash(seq_hash: u64)
    ensures
        lineage_hash(seq_hash, None, 0) == block_identity(seq_hash),
{
    lemma2_to64();
    lemma2_to64_rest();
    assert(pow2(59) == 0x800_0000_0000_0000);
    assert(0 * pow2(126) == 0) by (nonlinear_arith);
    assert(0 * pow2(118) == 0) by (nonlinear_arith);
    assert((0nat % pow2(59)) == 0);
    assert(0 * pow2(59) == 0) by (nonlinear_arith);
}

/// A G1 block that was evicted and is offloaded to G2.
#[derive(Clone, Copy, PartialEq, Eq, Structural, Debug)]
pub struct Eviction {
    /// The block's number in G1.
    pub block_id: usize,
    /// The identity under which it is offloaded.
    pub key: BlockKey,
}

impl Eviction {
    /// Whether this offloads the G1 block of that number and that sequence hash.
    pub open spec fn offloads(self, block_id: usize, seq_hash: u64) -> bool {
        self.block_id == block_id && self.key.identifies(seq_hash)
    }
}

/// What becomes of the blocks that a lookup finds.
#[derive(Clone, Copy, PartialEq, Eq, Structural, Debug)]
pub enum StagingMode {
    /// They are held where they are.
    Hold,
    /// They are brought to G2.
    Prepare,
    /// They are brought to G2, those of other instances too.
    Full,
}

/// A lookup of one block in the tiers below G1.
#[derive(Clone, Copy, PartialEq, Eq, Structural, Debug)]
pub struct FindRequest {
    /// The identity that is looked for.
    pub key: BlockKey,
    /// Whether other instances are searched too.
    pub search_remote: bool,
    /// What becomes of the blocks that are found.
    pub staging_mode: StagingMode,
}

impl FindRequest {
    /// Whether this looks for the block with a sequence hash, on this instance alone, and holds
    /// it where it is.
    pub open spec fn looks_for(self, seq_hash: u64) -> bool {
        self.key.identifies(seq_hash) && !self.search_remote && self.staging_mode
            == StagingMode::Hold
    }
}

/// What came of a lookup.
#[derive(Clone, Copy, PartialEq, Eq, Structural, Debug)]
pub enum FindOutcome {
    /// The lookup is over, and found this many blocks in G2.
    Ready { g2_count: usize },
    /// The lookup goes on in the background.
    AsyncSession,
    /// The lookup failed.
    Failed,
}

impl FindOutcome {
    /// Whether the lookup found its block in G2. One that is not over, or failed, did not.
    pub open spec fn found(self) -> bool {
        self matches FindOutcome::Ready { g2_count } && g2_count > 0
    }

    /// Tells whether the lookup found its block in G2.
    pub fn is_hit(&self) -> (r: bool)
        ensures
            r == self.found(),
    {
        match self {
            FindOutcome::Ready { g2_count } => *g2_count > 0,
            FindOutcome::AsyncSession => false,
            FindOutcome::Failed => false,
        }
    }
}

/// Whether `lookup`, asked about this instance alone and to hold what it finds, tells the truth
/// about a G2 tier that holds blocks of these identities.
pub open spec fn tells_of<F: FnOnce(FindRequest) -> FindOutcome>(
    lookup: F,
    tier: Set<u128>,
) -> bool {
    forall|request: FindRequest, outcome: FindOutcome|
        request.key.wf() && !request.search_remote && request.staging_mode == StagingMode::Hold
            && #[trigger] call_ensures(lookup, (request,), outcome) ==> outcome.found()
            == tier.contains(request.key.packed)
}

/// Whether `found` is whether the block with a sequence hash is held, by every tier that `lookup`
/// tells the truth about.
pub open spec fn is_found_by<F: FnOnce(FindRequest) -> FindOutcome>(
    lookup: F,
    seq_hash: u64,
    found: bool,
) -> bool {
    forall|tier: Set<u128>| #[trigger]
        tells_of(lookup, tier) ==> found == tier.contains(block_identity(seq_hash) as u128)
}

/// The registry and the pool of the G2 tier.
#[verifier::reject_recursive_types(T)]
pub struct G2Tier<T: Clone + Send + Sync + 'static> {
    pub registry: BlockRegistry,
    pub blocks: BlockPool<T>,
}

/// The decisions of the offload engine.
#[derive(Clone, Copy, Debug)]
pub struct MockOffloadEngine {
    /// How many blocks are offloaded at a time.
    pub offload_batch_size: usize,
    /// The worker that simulates the transfers.
    pub worker: MockWorker,
}

impl MockOffloadEngine {
    /// Builds the engine and its G2 tier: a registry that tracks usage, an LRU pool of as many
    /// blocks as the configuration names on that registry, and a worker for the configured block
    /// size.
    pub fn build<T: Clone + Send + Sync + 'static>(config: &KvbmOffloadConfig) -> (r: (
        MockOffloadEngine,
        G2Tier<T>,
    ))
        requires
            0 < config.num_g2_blocks <= MAX_BLOCKS,
        ensures
            r.0.offload_batch_size == config.offload_batch_size,
            r.0.worker.block_size_bytes == config.block_size_bytes,
            tracked_entries(r.1.registry) == TrackerCapacity::Medium.entries(),
            r.1.blocks.has_blocks(config.num_g2_blocks),
            r.1.blocks.has_block_size(1),
            r.1.blocks.registers_with(r.1.registry),
            r.1.blocks.is_lru_pool_of(config.num_g2_blocks, 1, r.1.registry),
    {
        let registry = build_registry();
        let blocks = build_block_manager::<T>(config.num_g2_blocks, &registry);
        let worker = MockWorker::new(config);
        (
            MockOffloadEngine { offload_batch_size: config.offload_batch_size, worker },
            G2Tier { registry, blocks },
        )
    }

    /// Returns the block to offload to G2 for an eviction from G1.
    pub fn eviction(&self, block_id: usize, seq_hash: u64) -> (r: Eviction)
        ensures
            r.offloads(block_id, seq_hash),
    {
        Eviction { block_id, key: root_key(seq_hash) }
    }

    /// Queues a block that was evicted from G1 for its offload to G2. What `enqueue` makes of
    /// the block comes back as it is.
    pub fn enqueue_g1_eviction<R, F: FnOnce(Eviction) -> R>(
        &self,
        block_id: usize,
        seq_hash: u64,
        enqueue: F,
    ) -> (r: R)
        requires
            forall|block: Eviction|
                block.offloads(block_id, seq_hash) ==> #[trigger] call_requires(enqueue, (block,)),
        ensures
            exists|block: Eviction|
                block.offloads(block_id, seq_hash) && #[trigger] call_ensures(
                    enqueue,
                    (block,),
                    r,
                ),
    {
        let block = self.eviction(block_id, seq_hash);
        enqueue(block)
    }

    /// Has the worker transfer `num_blocks` blocks from G2 back to G1, and returns how long to
    /// wait for them; `None` where there is nothing to wait for.
    pub fn onboard_g2_to_g1<F: Fn(usize) -> Delay>(&self, num_blocks: usize, time_for: F) -> (r:
        Option<Delay>)
        requires
            self.worker.timed_by(num_blocks, time_for),
        ensures
            exists|delay: Option<Delay>| #[trigger]
                self.worker.takes(num_blocks, time_for, delay) && r == waited_for(delay),
            exists|told: Notification| #[trigger]
                call_ensures(
                    MockWorker::execute_local_transfer::<F>,
                    (
                        &self.worker,
                        LogicalLayoutHandle::G2,
                        LogicalLayoutHandle::G1,
                        num_blocks,
                        time_for,
                    ),
                    told,
                ) && r == told_delay(told),
    {
        let told = self.worker.execute_local_transfer(
            LogicalLayoutHandle::G2,
            LogicalLayoutHandle::G1,
            num_blocks,
            time_for,
        );
        match told {
            Notification::After(delay) => Some(delay),
            Notification::Completed => None,
        }
    }

    /// Returns the lookup that tells whether the block with a sequence hash is in G2: of this
    /// instance alone, with what is found held where it is.
    pub fn find_request(&self, seq_hash: u64) -> (r: FindRequest)
        ensures
            r.looks_for(seq_hash),
    {
        FindRequest {
            key: root_key(seq_hash),
            search_remote: false,
            staging_mode: StagingMode::Hold,
        }
    }

    /// Tells whether the block with a sequence hash is in G2, by what `lookup` finds.
    pub fn find_in_tiers<F: FnOnce(FindRequest) -> FindOutcome>(
        &self,
        seq_hash: u64,
        lookup: F,
    ) -> (r: bool)
        requires
            forall|request: FindRequest|
                request.looks_for(seq_hash) ==> #[trigger] call_requires(lookup, (request,)),
        ensures
            exists|request: FindRequest, outcome: FindOutcome|
                request.looks_for(seq_hash) && #[trigger] call_ensures(
                    lookup,
                    (request,),
                    outcome,
                ) && r == outcome.found(),
            is_found_by(lookup, seq_hash, r),
    {
        let request = self.find_request(seq_hash);
        let outcome = lookup(request);
        outcome.is_hit()
    }
}

/// A block is looked up under the key that it was offloaded under. Two blocks are told apart
/// by the low 59 bits of their sequence hashes, and so without fail where the hashes are short
/// enough.
pub proof fn law_lookup_key_is_the_offload_key(
    stored: BlockKey,
    stored_hash: u64,
    wanted: BlockKey,
    wanted_hash: u64,
)
    requires
        stored.identifies(stored_hash),
        wanted.identifies(wanted_hash),
    ensures
        stored_hash == wanted_hash ==> stored == wanted,
        stored.packed == wanted.packed <==> stored_hash % 0x800_0000_0000_0000 == wanted_hash
            % 0x800_0000_0000_0000,
        stored_hash < 0x800_0000_0000_0000 && wanted_hash < 0x800_0000_0000_0000 ==> (
        stored.packed == wanted.packed <==> stored_hash == wanted_hash),
{
}

/// A lookup in a tier to which a block was offloaded finds that block, and finds no other
/// because of it but one whose sequence hash has the same low 59 bits.
pub proof fn law_offloaded_block_is_found<F: FnOnce(FindRequest) -> FindOutcome>(
    engine: MockOffloadEngine,
    tier: Set<u128>,
    block: Eviction,
    block_id: usize,
    stored_hash: u64,
    lookup: F,
    wanted_hash: u64,
    found: bool,
)
    requires
        block.offloads(block_id, stored_hash),
        tells_of(lookup, tier.insert(block.key.packed)),
        call_ensures(
            MockOffloadEngine::find_in_tiers::<F>,
            (&engine, wanted_hash, lookup),
            found,
        ),
    ensures
        stored_hash == wanted_hash ==> found,
        found <==> tier.contains(block_identity(wanted_hash) as u128) || stored_hash
            % 0x800_0000_0000_0000 == wanted_hash % 0x800_0000_0000_0000,
{
    lemma_found_if_held(engine, tier.insert(block.key.packed), lookup, wanted_hash, found);
}

proof fn lemma_found_if_held<F: FnOnce(FindRequest) -> FindOutcome>(
    engine: MockOffloadEngine,
    tier: Set<u128>,
    lookup: F,
    seq_hash: u64,
    found: bool,
)
    requires
        tells_of(lookup, tier),
        call_ensures(MockOffloadEngine::find_in_tiers::<F>, (&engine, seq_hash, lookup), found),
    ensures
        found == tier.contains(block_identity(seq_hash) as u128),
{
    assert(is_found_by(lookup, seq_hash, found));
}

/// A call on the engine, with what it was made with.
pub enum EngineCall {
    /// `enqueue_g1_eviction`
    Evict { block_id: usize, seq_hash: u64 },
    /// `onboard_g2_to_g1`
    Onboard { num_blocks: usize },
    /// `find_in_tiers`
    Find { seq_hash: u64 },
}

/// The identities that a G2 tier holds after calls on the engine, where it keeps whatever is
/// offloaded to it. An eviction hands the tier its block; onboarding and lookups hand it nothing
/// and take nothing from it.
pub open spec fn tier_after(tier: Set<u128>, calls: Seq<EngineCall>) -> Set<u128>
    decreases calls.len(),
{
    if calls.len() == 0 {
        tier
    } else {
        let before = tier_after(tier, calls.drop_last());
        match calls.last() {
            EngineCall::Evict { seq_hash, .. } => before.insert(block_identity(seq_hash) as u128),
            EngineCall::Onboard { .. } => before,
            EngineCall::Find { .. } => before,
        }
    }
}

/// What an eviction adds to the tier is the block that it offloads, and that alone.
pub proof fn law_eviction_adds_its_block(
    tier: Set<u128>,
    block: Eviction,
    block_id: usize,
    seq_hash: u64,
)
    requires
        block.offloads(block_id, seq_hash),
    ensures
        tier_after(tier, seq![EngineCall::Evict { block_id, seq_hash }]) == tier.insert(
            block.key.packed,
        ),
{
    let calls = seq![EngineCall::Evict { block_id, seq_hash }];
    assert(calls.drop_last() == Seq::<EngineCall>::empty());
    assert(tier_after(tier, calls.drop_last()) == tier);
}

/// Whether one of the calls offloads a block under the identity of this sequence hash.
pub open spec fn offloads_identity_of(calls: Seq<EngineCall>, seq_hash: u64) -> bool {
    exists|i: int|
        0 <= i < calls.len() && (#[trigger] calls[i] matches EngineCall::Evict {
            seq_hash: stored,
            ..
        } && lineage_hash(stored, None, 0) == lineage_hash(seq_hash, None, 0))
}

proof fn lemma_tier_holds_what_was_offloaded(
    tier: Set<u128>,
    calls: Seq<EngineCall>,
    seq_hash: u64,
)
    ensures
        tier_after(tier, calls).contains(block_identity(seq_hash) as u128) <==> tier.contains(
            block_identity(seq_hash) as u128,
        ) || offloads_identity_of(calls, seq_hash),
    decreases calls.len(),
{
    if calls.len() > 0 {
        let before = calls.drop_last();
        lemma_tier_holds_what_was_offloaded(tier, before, seq_hash);
        lemma_root_hash(seq_hash);
        if let EngineCall::Evict { seq_hash: stored, .. } = calls.last() {
            lemma_root_hash(stored);
        }
        assert(calls[calls.len() - 1] == calls.last());
        if offloads_identity_of(before, seq_hash) {
            let i = choose|i: int|
                0 <= i < before.len() && (#[trigger] before[i] matches EngineCall::Evict {
                    seq_hash: stored,
                    ..
                } && lineage_hash(stored, None, 0) == lineage_hash(seq_hash, None, 0));
            assert(calls[i] == before[i]);
        }
        if offloads_identity_of(calls, seq_hash) {
            let i = choose|i: int|
                0 <= i < calls.len() && (#[trigger] calls[i] matches EngineCall::Evict {
                    seq_hash: stored,
                    ..
                } && lineage_hash(stored, None, 0) == lineage_hash(seq_hash, None, 0));
            if i < before.len() {
                assert(before[i] == calls[i]);
            }
        }
    }
}

/// Whatever the calls on a new engine, only what they offloaded is found: a block that is found
/// has the lineage hash of one that was evicted. The tier need not hold all that was offloaded:
/// some may still be under way, or may have had to make room. Where nothing was evicted, nothing
/// is found.
pub proof fn law_only_offloaded_blocks_are_found<F: FnOnce(FindRequest) -> FindOutcome>(
    engine: MockOffloadEngine,
    calls: Seq<EngineCall>,
    tier: Set<u128>,
    lookup: F,
    seq_hash: u64,
    found: bool,
)
    requires
        tier.subset_of(tier_after(Set::empty(), calls)),
        tells_of(lookup, tier),
        call_ensures(MockOffloadEngine::find_in_tiers::<F>, (&engine, seq_hash, lookup), found),
    ensures
        found ==> offloads_identity_of(calls, seq_hash),
        (forall|i: int| 0 <= i < calls.len() ==> !(#[trigger] calls[i] is Evict)) ==> !found,
{
    lemma_found_if_held(engine, tier, lookup, seq_hash, found);
    lemma_tier_holds_what_was_offloaded(Set::empty(), calls, seq_hash);
}

/// Onboarding and lookups leave the G2 tier as it was: whatever was found before them is found
/// after them, and nothing else is.
pub proof fn law_onboarding_leaves_the_tier<
    F: FnOnce(FindRequest) -> FindOutcome,
    G: FnOnce(FindRequest) -> FindOutcome,
>(
    engine: MockOffloadEngine,
    tier: Set<u128>,
    calls: Seq<EngineCall>,
    lookup_before: F,
    lookup_after: G,
    seq_hash: u64,
    found_before: bool,
    found_after: bool,
)
    requires
        forall|i: int| 0 <= i < calls.len() ==> !(#[trigger] calls[i] is Evict),
        tells_of(lookup_before, tier),
        call_ensures(
            MockOffloadEngine::find_in_tiers::<F>,
            (&engine, seq_hash, lookup_before),
            found_before,
        ),
        tells_of(lookup_after, tier_after(tier, calls)),
        call_ensures(
            MockOffloadEngine::find_in_tiers::<G>,
            (&engine, seq_hash, lookup_after),
            found_after,
        ),
    ensures
        tier_after(tier, calls) == tier,
        found_after == found_before,
{
    lemma_tier_without_evictions(tier, calls);
    lemma_found_if_held(engine, tier, lookup_before, seq_hash, found_before);
    lemma_found_if_held(engine, tier, lookup_after, seq_hash, found_after);
}

proof fn lemma_tier_without_evictions(tier: Set<u128>, calls: Seq<EngineCall>)
    requires
        forall|i: int| 0 <= i < calls.len() ==> !(#[trigger] calls[i] is Evict),
    ensures
        tier_after(tier, calls) == tier,
    decreases calls.len(),
{
    if calls.len() > 0 {
        assert(!(calls[calls.len() - 1] is Evict));
        assert forall|i: int| 0 <= i < calls.drop_last().len() implies !(
        #[trigger] calls.drop_last()[i] is Evict) by {
            assert(calls.drop_last()[i] == calls[i]);
        }
        lemma_tier_without_evictions(tier, calls.drop_last());
    }
}

/// A transfer of two lots of blocks moves the bytes of both; a transfer of no blocks moves
/// none.
pub proof fn law_transfer_bytes_add_up(worker: MockWorker, a: nat, b: nat)
    ensures
        worker.bytes_of(0) matches Some(bytes) ==> bytes == 0,
        worker.bytes_of(a + b) == (match (worker.bytes_of(a), worker.bytes_of(b)) {
            (Some(x), Some(y)) => Some(x + y),
            _ => None,
        }),
{
    if let Some(bytes) = worker.block_size_bytes {
        let n = bytes as nat;
        assert((a + b) * n == a * n + b * n) by (nonlinear_arith);
        assert(0 * n == 0) by (nonlinear_arith);
    }
}

/// Whether more bytes never take less time.
pub open spec fn grows<F: Fn(usize) -> Delay>(time_for: F) -> bool {
    forall|fewer: usize, more: usize, short: Delay, long: Delay|
        fewer <= more && #[trigger] call_ensures(time_for, (fewer,), short)
            && #[trigger] call_ensures(time_for, (more,), long) ==> short.total_nanos()
            <= long.total_nanos()
}

/// Where blocks have a size and more bytes never take less time, more blocks never take less
/// time. No blocks take the time of no bytes: there is a delay, and it has no length where no
/// bytes take no time.
pub proof fn law_delay_grows_with_the_blocks<F: Fn(usize) -> Delay>(
    worker: MockWorker,
    src: LogicalLayoutHandle,
    dst: LogicalLayoutHandle,
    time_for: F,
    fewer: usize,
    more: usize,
    short: Option<Delay>,
    long: Option<Delay>,
)
    requires
        worker.block_size_bytes is Some,
        fewer <= more,
        worker.countable(more as nat),
        grows(time_for),
        call_ensures(MockWorker::transfer_delay::<F>, (&worker, src, dst, fewer, time_for), short),
        call_ensures(MockWorker::transfer_delay::<F>, (&worker, src, dst, more, time_for), long),
    ensures
        short is Some && long is Some,
        short->0.total_nanos() <= long->0.total_nanos(),
        fewer == 0 ==> call_ensures(time_for, (0usize,), short->0),
        fewer == 0 && (forall|none: Delay| #[trigger]
            call_ensures(time_for, (0usize,), none) ==> none.total_nanos() == 0)
            ==> short->0.total_nanos() == 0,
{
    let n = worker.block_size_bytes->0 as nat;
    assert(fewer * n <= more * n) by (nonlinear_arith)
        requires
            fewer <= more,
    ;
    assert(fewer == 0 ==> fewer * n == 0) by (nonlinear_arith);
    assert(worker.takes(fewer, time_for, short));
    assert(worker.takes(more, time_for, long));
}

/// Blocks without a size transfer instantly, whatever time their bytes would take: completion
/// is told at once, and nothing is waited for.
pub proof fn law_unsized_blocks_transfer_instantly<F: Fn(usize) -> Delay>(
    worker: MockWorker,
    num_blocks: usize,
    time_for: F,
    delay: Option<Delay>,
)
    requires
        worker.block_size_bytes is None,
        worker.takes(num_blocks, time_for, delay),
    ensures
        completion_after(delay) == Notification::Completed,
        waited_for(delay) is None,
{
}

/// A delay is waited for exactly where it has seconds or nanoseconds, and then in full.
pub proof fn law_delay_with_a_length_is_waited_for(delay: Option<Delay>, r: Option<Delay>)
    requires
        call_ensures(nonzero_delay, (delay,), r),
    ensures
        delay matches Some(d) ==> d.secs != 0 || d.nanos != 0 ==> r == delay,
        delay matches Some(d) ==> d.secs == 0 && d.nanos == 0 ==> r is None,
        delay is None ==> r is None,
{
}

/// A transfer with a delay that has seconds or nanoseconds is told to be complete after that
/// delay; any other is complete at once.
pub proof fn law_notification_of_a_delay(
    worker: &MockWorker,
    delay: Option<Delay>,
    r: Notification,
)
    requires
        call_ensures(MockWorker::delayed_notification, (worker, delay), r),
    ensures
        delay matches Some(d) ==> d.secs != 0 || d.nanos != 0 ==> r == Notification::After(d),
        delay matches Some(d) ==> d.secs == 0 && d.nanos == 0 ==> r == Notification::Completed,
        delay is None ==> r == Notification::Completed,
{
}

/// A worker is made for the block size of its configuration.
pub proof fn law_worker_has_the_configured_block_size(config: &KvbmOffloadConfig, r: MockWorker)
    requires
        call_ensures(MockWorker::new, (config,), r),
    ensures
        r.block_size_bytes == config.block_size_bytes,
{
}

/// A transfer moves as many bytes as its blocks have together, and none are counted where blocks
/// have no size. It can be counted wherever the product fits.
pub proof fn law_transfer_bytes_are_the_product(
    worker: &MockWorker,
    num_blocks: usize,
    r: Option<usize>,
)
    requires
        call_ensures(MockWorker::transfer_bytes, (worker, num_blocks), r),
    ensures
        worker.block_size_bytes is None ==> r is None,
        worker.block_size_bytes matches Some(size) ==> (r matches Some(bytes) && bytes as int
            == num_blocks as int * size as int),
{
}

/// A transfer takes the time of its bytes, whichever way it goes, and none where blocks have no
/// size.
pub proof fn law_delay_is_the_time_of_the_bytes<F: Fn(usize) -> Delay>(
    worker: &MockWorker,
    src: LogicalLayoutHandle,
    dst: LogicalLayoutHandle,
    num_blocks: usize,
    time_for: F,
    r: Option<Delay>,
)
    requires
        call_ensures(
            MockWorker::transfer_delay::<F>,
            (worker, src, dst, num_blocks, time_for),
            r,
        ),
    ensures
        worker.block_size_bytes is None ==> r is None,
        worker.block_size_bytes matches Some(size) ==> (r matches Some(delay) && call_ensures(
            time_for,
            ((num_blocks as int * size as int) as usize,),
            delay,
        )),
{
    if let Some(size) = worker.block_size_bytes {
        assert(num_blocks as nat * size as nat == num_blocks as int * size as int);
    }
}

/// A local transfer is complete at once where blocks have no size, or where their bytes take no
/// time; else it is complete after the time of its bytes.
pub proof fn law_local_transfer_is_told_by_the_time_of_the_bytes<F: Fn(usize) -> Delay>(
    worker: &MockWorker,
    src: LogicalLayoutHandle,
    dst: LogicalLayoutHandle,
    num_blocks: usize,
    time_for: F,
    r: Notification,
)
    requires
        call_ensures(
            MockWorker::execute_local_transfer::<F>,
            (worker, src, dst, num_blocks, time_for),
            r,
        ),
    ensures
        worker.block_size_bytes is None ==> r == Notification::Completed,
        worker.block_size_bytes matches Some(size) ==> (exists|delay: Delay| #[trigger]
            call_ensures(time_for, ((num_blocks as int * size as int) as usize,), delay) && r == (
            if delay.secs == 0 && delay.nanos == 0 {
                Notification::Completed
            } else {
                Notification::After(delay)
            })),
{
    let delay = choose|delay: Option<Delay>| #[trigger]
        worker.takes(num_blocks, time_for, delay) && r == completion_after(delay);
    if let Some(size) = worker.block_size_bytes {
        assert(num_blocks as nat * size as nat == num_blocks as int * size as int);
        assert(call_ensures(
            time_for,
            ((num_blocks as int * size as int) as usize,),
            delay->0,
        ));
    }
}

/// Onboarding waits for the time of its bytes where they take any, and for nothing where blocks
/// have no size.
pub proof fn law_onboarding_waits_for_the_time_of_the_bytes<F: Fn(usize) -> Delay>(
    engine: &MockOffloadEngine,
    num_blocks: usize,
    time_for: F,
    r: Option<Delay>,
)
    requires
        call_ensures(
            MockOffloadEngine::onboard_g2_to_g1::<F>,
            (engine, num_blocks, time_for),
            r,
        ),
    ensures
        engine.worker.block_size_bytes is None ==> r is None,
        engine.worker.block_size_bytes matches Some(size) ==> (exists|delay: Delay| #[trigger]
            call_ensures(time_for, ((num_blocks as int * size as int) as usize,), delay) && r == (
            if delay.secs == 0 && delay.nanos == 0 {
                None
            } else {
                Some(delay)
            })),
{
    let delay = choose|delay: Option<Delay>| #[trigger]
        engine.worker.takes(num_blocks, time_for, delay) && r == waited_for(delay);
    if let Some(size) = engine.worker.block_size_bytes {
        assert(num_blocks as nat * size as nat == num_blocks as int * size as int);
        assert(call_ensures(
            time_for,
            ((num_blocks as int * size as int) as usize,),
            delay->0,
        ));
    }
}

/// Where a longer transfer never takes less time by the clock, onboarding more blocks never means
/// a shorter wait.
pub proof fn law_more_blocks_never_wait_less<F: Fn(usize) -> Delay>(
    engine: &MockOffloadEngine,
    fewer: usize,
    more: usize,
    time_for: F,
    short: Option<Delay>,
    long: Option<Delay>,
)
    requires
        fewer <= more,
        engine.worker.block_size_bytes matches Some(size) ==> more as int * size as int
            <= usize::MAX,
        forall|a: usize, b: usize, x: Delay, y: Delay|
            a <= b && #[trigger] call_ensures(time_for, (a,), x) && #[trigger] call_ensures(
                time_for,
                (b,),
                y,
            ) ==> x.secs as int * 1_000_000_000 + x.nanos as int <= y.secs as int * 1_000_000_000
                + y.nanos as int,
        call_ensures(MockOffloadEngine::onboard_g2_to_g1::<F>, (engine, fewer, time_for), short),
        call_ensures(MockOffloadEngine::onboard_g2_to_g1::<F>, (engine, more, time_for), long),
    ensures
        short matches Some(x) ==> (long matches Some(y) && x.secs as int * 1_000_000_000
            + x.nanos as int <= y.secs as int * 1_000_000_000 + y.nanos as int),
{
    law_onboarding_waits_for_the_time_of_the_bytes(engine, fewer, time_for, short);
    law_onboarding_waits_for_the_time_of_the_bytes(engine, more, time_for, long);
    if let Some(size) = engine.worker.block_size_bytes {
        let n = size as int;
        assert(fewer as int * n <= more as int * n) by (nonlinear_arith)
            requires
                fewer <= more,
                n >= 0,
        ;
        assert(0 <= fewer as int * n) by (nonlinear_arith)
            requires
                n >= 0,
        ;
    }
}

/// Transfers are accepted wherever their bytes can be counted and the clock can be asked.
pub proof fn law_countable_transfers_are_accepted<F: Fn(usize) -> Delay>(
    engine: &MockOffloadEngine,
    src: LogicalLayoutHandle,
    dst: LogicalLayoutHandle,
    num_blocks: usize,
    time_for: F,
)
    requires
        engine.worker.block_size_bytes matches Some(size) ==> num_blocks as int * size as int
            <= usize::MAX,
        forall|bytes: usize| #[trigger] call_requires(time_for, (bytes,)),
    ensures
        call_requires(MockWorker::transfer_bytes, (&engine.worker, num_blocks)),
        call_requires(
            MockWorker::transfer_delay::<F>,
            (&engine.worker, src, dst, num_blocks, time_for),
        ),
        call_requires(
            MockWorker::execute_local_transfer::<F>,
            (&engine.worker, src, dst, num_blocks, time_for),
        ),
        call_requires(
            MockOffloadEngine::onboard_g2_to_g1::<F>,
            (engine, num_blocks, time_for),
        ),
{
    if let Some(size) = engine.worker.block_size_bytes {
        assert(num_blocks as nat * size as nat == num_blocks as int * size as int);
    }
}

/// The worker answers for every key, in the order of the keys: no key's object is there, and none
/// can be stored or loaded.
pub proof fn law_worker_has_no_objects<K: Copy>(
    worker: &MockWorker,
    keys: &Vec<K>,
    sizes: Vec<(K, Option<usize>)>,
    puts: Vec<Result<K, K>>,
    gets: Vec<Result<K, K>>,
)
    requires
        call_ensures(MockWorker::has_blocks::<K>, (worker, keys), sizes),
        call_ensures(MockWorker::put_blocks::<K>, (worker, keys), puts),
        call_ensures(MockWorker::get_blocks::<K>, (worker, keys), gets),
    ensures
        sizes@.len() == keys@.len() && puts@.len() == keys@.len() && gets@.len() == keys@.len(),
        forall|i: int|
            0 <= i < keys@.len() ==> (#[trigger] sizes@[i]).0 == keys@[i] && sizes@[i].1 is None,
        forall|i: int| 0 <= i < keys@.len() ==> #[trigger] puts@[i] == Err::<K, K>(keys@[i]),
        forall|i: int| 0 <= i < keys@.len() ==> #[trigger] gets@[i] == Err::<K, K>(keys@[i]),
{
}

/// The key of a block is that of a root at position zero with its sequence hash; packed, it is
/// the low 59 bits of that hash.
pub proof fn law_key_of_a_hash(seq_hash: u64, r: BlockKey)
    requires
        call_ensures(root_key, (seq_hash,), r),
    ensures
        r.current == seq_hash,
        r.parent is None,
        r.position == 0,
        r.packed as int == seq_hash as int % 0x800_0000_0000_0000,
{
}

/// The block that an eviction offloads bears the number that was given, and the key of the hash
/// that was given: blocks that differ in number are offloaded as different blocks, and so are
/// blocks that differ in hash.
pub proof fn law_eviction_is_of_the_given_block(
    engine: &MockOffloadEngine,
    block_id: usize,
    seq_hash: u64,
    r: Eviction,
    other_id: usize,
    other_hash: u64,
    other: Eviction,
)
    requires
        call_ensures(MockOffloadEngine::eviction, (engine, block_id, seq_hash), r),
        call_ensures(MockOffloadEngine::eviction, (engine, other_id, other_hash), other),
    ensures
        r.block_id == block_id,
        r.key.current == seq_hash,
        r.key.parent is None,
        r.key.position == 0,
        r.key.packed as int == seq_hash as int % 0x800_0000_0000_0000,
        r == other <==> block_id == other_id && seq_hash == other_hash,
{
}

/// What is queued for an eviction is the given block under the key of the given hash, and what the
/// queue makes of it comes back.
pub proof fn law_given_block_is_queued<R, F: FnOnce(Eviction) -> R>(
    engine: &MockOffloadEngine,
    block_id: usize,
    seq_hash: u64,
    enqueue: F,
    r: R,
)
    requires
        call_ensures(
            MockOffloadEngine::enqueue_g1_eviction::<R, F>,
            (engine, block_id, seq_hash, enqueue),
            r,
        ),
    ensures
        exists|block: Eviction| #[trigger]
            call_ensures(enqueue, (block,), r) && block.block_id == block_id && block.key.current
                == seq_hash && block.key.parent is None && block.key.position == 0
                && block.key.packed as int == seq_hash as int % 0x800_0000_0000_0000,
{
    let block = choose|block: Eviction|
        block.offloads(block_id, seq_hash) && #[trigger] call_ensures(enqueue, (block,), r);
    assert(call_ensures(enqueue, (block,), r));
}

/// A lookup is for the key under which the block with that hash was offloaded, of this instance
/// alone, and holds what it finds.
pub proof fn law_lookup_is_for_the_offloaded_key(
    engine: &MockOffloadEngine,
    block_id: usize,
    seq_hash: u64,
    block: Eviction,
    request: FindRequest,
)
    requires
        call_ensures(MockOffloadEngine::eviction, (engine, block_id, seq_hash), block),
        call_ensures(MockOffloadEngine::find_request, (engine, seq_hash), request),
    ensures
        request.key == block.key,
        request.key.current == seq_hash && request.key.parent is None && request.key.position == 0,
        request.key.packed as int == seq_hash as int % 0x800_0000_0000_0000,
        !request.search_remote,
        request.staging_mode is Hold,
{
}

/// A lookup is a hit exactly where it is over and found at least one block in G2.
pub proof fn law_hit_is_a_block_in_g2(outcome: &FindOutcome, r: bool)
    requires
        call_ensures(FindOutcome::is_hit, (outcome,), r),
    ensures
        outcome matches FindOutcome::Ready { g2_count } ==> (r <==> g2_count >= 1),
        outcome is AsyncSession ==> !r,
        outcome is Failed ==> !r,
{
}

/// Whether a block is in G2 is told by one lookup, for its hash, of this instance alone: it is
/// where that lookup is over and found at least one block in G2.
pub proof fn law_block_is_in_g2_by_its_lookup<F: FnOnce(FindRequest) -> FindOutcome>(
    engine: &MockOffloadEngine,
    seq_hash: u64,
    lookup: F,
    r: bool,
)
    requires
        call_ensures(MockOffloadEngine::find_in_tiers::<F>, (engine, seq_hash, lookup), r),
    ensures
        exists|request: FindRequest, outcome: FindOutcome| #[trigger]
            call_ensures(lookup, (request,), outcome) && request.key.current == seq_hash
                && request.key.parent is None && request.key.position == 0
                && request.key.packed as int == seq_hash as int % 0x800_0000_0000_0000
                && !request.search_remote && request.staging_mode is Hold && r == (match outcome {
                FindOutcome::Ready { g2_count } => g2_count >= 1,
                FindOutcome::AsyncSession => false,
                FindOutcome::Failed => false,
            }),
{
    let (request, outcome) = choose|request: FindRequest, outcome: FindOutcome|
        request.looks_for(seq_hash) && #[trigger] call_ensures(lookup, (request,), outcome) && r
            == outcome.found();
    assert(call_ensures(lookup, (request,), outcome));
}

/// A block that was evicted, and that the tier has since, is found by its hash; and because of it
/// no hash is found that differs in its low 59 bits. `tier` is what the tier has otherwise, by
/// packed keys, and `lookup` tells how many blocks of the packed key it is asked for the tier has.
pub proof fn law_evicted_block_is_found_by_its_hash<F: FnOnce(FindRequest) -> FindOutcome>(
    engine: &MockOffloadEngine,
    block_id: usize,
    stored_hash: u64,
    block: Eviction,
    tier: Set<u128>,
    lookup: F,
    wanted_hash: u64,
    found: bool,
)
    requires
        call_ensures(MockOffloadEngine::eviction, (engine, block_id, stored_hash), block),
        forall|request: FindRequest, outcome: FindOutcome| #[trigger]
            call_ensures(lookup, (request,), outcome) ==> (
            outcome matches FindOutcome::Ready { g2_count } && (g2_count >= 1 <==> request.key.packed
                == block.key.packed || tier.contains(request.key.packed))),
        call_ensures(MockOffloadEngine::find_in_tiers::<F>, (engine, wanted_hash, lookup), found),
    ensures
        wanted_hash == stored_hash ==> found,
        found <==> stored_hash as int % 0x800_0000_0000_0000 == wanted_hash as int
            % 0x800_0000_0000_0000 || tier.contains((wanted_hash % 0x800_0000_0000_0000) as u128),
{
    law_block_is_in_g2_by_its_lookup(engine, wanted_hash, lookup, found);
}

/// An engine is built to its configuration: the batch size and the block size are those given, and
/// the G2 pool reads as many blocks of one token as were asked for, on the tier's own registry,
/// which keeps counts of 2^21 hashes.
pub proof fn law_engine_is_built_to_its_configuration<T: Clone + Send + Sync + 'static>(
    config: &KvbmOffloadConfig,
    r: (MockOffloadEngine, G2Tier<T>),
    total_blocks: usize,
    block_size: usize,
    registry: BlockRegistry,
)
    requires
        call_ensures(MockOffloadEngine::build::<T>, (config,), r),
        call_ensures(BlockPool::<T>::total_blocks, (&r.1.blocks,), total_blocks),
        call_ensures(BlockPool::<T>::block_size, (&r.1.blocks,), block_size),
        call_ensures(BlockPool::<T>::block_registry, (&r.1.blocks,), registry),
    ensures
        r.0.offload_batch_size == config.offload_batch_size,
        r.0.worker.block_size_bytes == config.block_size_bytes,
        total_blocks == config.num_g2_blocks,
        block_size == 1,
        registry == r.1.registry,
        tracked_entries(r.1.registry) == 2_097_152,
{
    let blocks = r.1.blocks;
    assert(blocks.counts_as(total_blocks) && blocks.has_blocks(config.num_g2_blocks));
    assert(blocks.sized_as(block_size) && blocks.has_block_size(1));
    assert(blocks.registered_as(registry) && blocks.registers_with(r.1.registry));
}

/// An engine can be built for any number of G2 blocks from one up to the bound of a pool.
pub proof fn law_any_number_of_blocks_is_accepted<T: Clone + Send + Sync + 'static>(
    config: &KvbmOffloadConfig,
)
    requires
        1 <= config.num_g2_blocks <= usize::MAX / 128,
    ensures
        call_requires(MockOffloadEngine::build::<T>, (config,)),
{
}

/// Any queue that takes every block, and any lookup that takes every request, can be used for any
/// block.
pub proof fn law_any_queue_and_lookup_are_accepted<
    R,
    F: FnOnce(Eviction) -> R,
    G: FnOnce(FindRequest) -> FindOutcome,
>(engine: &MockOffloadEngine, block_id: usize, seq_hash: u64, enqueue: F, lookup: G)
    requires
        forall|block: Eviction| #[trigger] call_requires(enqueue, (block,)),
        forall|request: FindRequest| #[trigger] call_requires(lookup, (request,)),
    ensures
        call_requires(
            MockOffloadEngine::enqueue_g1_eviction::<R, F>,
            (engine, block_id, seq_hash, enqueue),
        ),
        call_requires(MockOffloadEngine::find_in_tiers::<G>, (engine, seq_hash, lookup)),
{
}

} // verus!
