//! The pool of host-memory (G2) blocks and the registry that goes with it.

use kvbm_logical::blocks::BlockRegistry;
use kvbm_logical::manager::{BlockManager, BlockManagerBuilderError, FrequencyTrackingCapacity};
use vstd::prelude::*;

verus! {

/// `kvbm_logical::blocks::BlockRegistry`: the registry of the blocks that are known by hash.
#[verifier::external_type_specification]
#[verifier::external_body]
pub struct ExBlockRegistry(BlockRegistry);

/// `kvbm_logical::manager::BlockManagerBuilderError`: why a block manager was not built.
#[verifier::external_type_specification]
#[verifier::external_body]
pub struct ExBlockManagerBuilderError(BlockManagerBuilderError);

/// How many hashes a registry keeps usage counts of.
#[derive(Clone, Copy, PartialEq, Eq, Structural, Debug)]
pub enum TrackerCapacity {
    Small,
    Medium,
    Large,
}

impl TrackerCapacity {
    /// The number of entries of the frequency tracker.
    pub open spec fn entries(self) -> nat {
        match self {
            TrackerCapacity::Small => 262_144,
            TrackerCapacity::Medium => 2_097_152,
            TrackerCapacity::Large => 16_777_216,
        }
    }
}

/// The number of entries that the frequency tracker of a registry was made with; zero where the
/// registry has none.
pub uninterp spec fn tracked_entries(registry: BlockRegistry) -> nat;

/// `BlockRegistry::builder()` with `frequency_tracker` and `build`: a registry whose tracker was
/// made by `FrequencyTrackingCapacity::create_tracker`, with the capacity's number of entries.
#[verifier::external_body]
fn new_registry(capacity: TrackerCapacity) -> (r: BlockRegistry)
    ensures
        tracked_entries(r) == capacity.entries(),
{
    let capacity = match capacity {
        TrackerCapacity::Small => FrequencyTrackingCapacity::Small,
        TrackerCapacity::Medium => FrequencyTrackingCapacity::Medium,
        TrackerCapacity::Large => FrequencyTrackingCapacity::Large,
    };
    BlockRegistry::builder().frequency_tracker(capacity.create_tracker()).build()
}

/// Builds the registry: it keeps usage counts of a medium number of hashes.
pub fn build_registry() -> (r: BlockRegistry)
    ensures
        tracked_entries(r) == TrackerCapacity::Medium.entries(),
{
    new_registry(TrackerCapacity::Medium)
}

/// A `kvbm_logical::manager::BlockManager`: a fixed number of blocks of one size, whose
/// metadata is of type `T`.
#[verifier::external_body]
#[verifier::reject_recursive_types(T)]
pub struct BlockPool<T: Clone + Send + Sync + 'static> {
    pub manager: BlockManager<T>,
}

/// `BlockManager::total_blocks` of a pool. What it reads is told where a pool is built.
#[verifier::external_body]
fn read_total_blocks<T: Clone + Send + Sync + 'static>(pool: &BlockPool<T>) -> (r: usize) {
    pool.manager.total_blocks()
}

/// `BlockManager::block_size` of a pool. What it reads is told where a pool is built.
#[verifier::external_body]
fn read_block_size<T: Clone + Send + Sync + 'static>(pool: &BlockPool<T>) -> (r: usize) {
    pool.manager.block_size()
}

/// `BlockManager::block_registry` of a pool, cloned: a clone of a registry shares everything
/// with it. What it reads is told where a pool is built.
#[verifier::external_body]
fn read_block_registry<T: Clone + Send + Sync + 'static>(pool: &BlockPool<T>) -> (r:
    BlockRegistry) {
    pool.manager.block_registry().clone()
}

impl<T: Clone + Send + Sync + 'static> BlockPool<T> {
    /// Whether the pool has this many blocks: no other number is ever read from it.
    pub closed spec fn has_blocks(self, count: usize) -> bool {
        forall|n: usize| #[trigger]
            call_ensures(read_total_blocks::<T>, (&self,), n) ==> n == count
    }

    /// Whether the pool's blocks hold this many tokens: no other size is ever read from it.
    pub closed spec fn has_block_size(self, size: usize) -> bool {
        forall|n: usize| #[trigger] call_ensures(read_block_size::<T>, (&self,), n) ==> n == size
    }

    /// Whether the pool's blocks are registered with this registry: no other is ever read from
    /// it.
    pub closed spec fn registers_with(self, registry: BlockRegistry) -> bool {
        forall|own: BlockRegistry| #[trigger]
            call_ensures(read_block_registry::<T>, (&self,), own) ==> own == registry
    }

    /// Whether the pool is one that the builder makes, with the LRU backend for its unused
    /// blocks, from this number of blocks, this block size and this registry.
    pub closed spec fn is_lru_pool_of(
        self,
        block_count: usize,
        block_size: usize,
        registry: BlockRegistry,
    ) -> bool {
        call_ensures(new_lru_manager::<T>, (block_count, block_size, &registry), Ok(self))
    }

    /// Whether the pool can have no other number of blocks than this.
    pub open spec fn counts_as(self, n: usize) -> bool {
        forall|count: usize| #[trigger] self.has_blocks(count) ==> n == count
    }

    /// Whether the pool's blocks can have no other size than this.
    pub open spec fn sized_as(self, n: usize) -> bool {
        forall|size: usize| #[trigger] self.has_block_size(size) ==> n == size
    }

    /// Whether the pool's blocks can be registered with no other registry than this.
    pub open spec fn registered_as(self, own: BlockRegistry) -> bool {
        forall|registry: BlockRegistry| #[trigger] self.registers_with(registry) ==> own == registry
    }

    /// Returns how many blocks the pool has.
    pub fn total_blocks(&self) -> (r: usize)
        ensures
            forall|count: usize| #[trigger] self.has_blocks(count) ==> r == count,
            self.counts_as(r),
    {
        read_total_blocks(self)
    }

    /// Returns how many tokens a block of the pool holds.
    pub fn block_size(&self) -> (r: usize)
        ensures
            forall|size: usize| #[trigger] self.has_block_size(size) ==> r == size,
            self.sized_as(r),
    {
        read_block_size(self)
    }

    /// Returns the registry with which the pool's blocks are registered.
    pub fn block_registry(&self) -> (r: BlockRegistry)
        ensures
            forall|registry: BlockRegistry| #[trigger]
                self.registers_with(registry) ==> r == registry,
            self.registered_as(r),
    {
        read_block_registry(self)
    }
}

/// The block sizes that a block manager takes: the powers of two up to 1024 tokens.
pub open spec fn is_block_size(size: usize) -> bool {
    size == 1 || size == 2 || size == 4 || size == 8 || size == 16 || size == 32 || size == 64
        || size == 128 || size == 256 || size == 512 || size == 1024
}

/// The largest number of blocks that a pool is built for. It is a safe bound: the capacities of
/// the collections that keep track of so many blocks do not overflow.
pub const MAX_BLOCKS: usize = usize::MAX / 128;

/// `BlockManager::builder()` with `block_count`, `block_size`, `registry`, `with_lru_backend`
/// and `build`: a manager is built for any number of blocks but zero; it has that many blocks of
/// that size, and registers them with the registry that it was given. What the LRU backend does
/// with unused blocks is left unsaid.
#[verifier::external_body]
fn new_lru_manager<T: Clone + Send + Sync + 'static>(
    block_count: usize,
    block_size: usize,
    registry: &BlockRegistry,
) -> (r: Result<BlockPool<T>, BlockManagerBuilderError>)
    requires
        is_block_size(block_size),
        block_count <= MAX_BLOCKS,
    ensures
        r is Ok <==> block_count > 0,
        r matches Ok(pool) ==> pool.has_blocks(block_count) && pool.has_block_size(block_size)
            && pool.registers_with(*registry),
{
    let manager = BlockManager::<T>::builder()
        .block_count(block_count)
        .block_size(block_size)
        .registry(registry.clone())
        .with_lru_backend()
        .build()?;
    Ok(BlockPool { manager })
}

/// Builds a pool of `block_count` blocks of one token each, which are registered with
/// `registry`, and with the LRU backend for those that are not in use.
pub fn build_block_manager<T: Clone + Send + Sync + 'static>(
    block_count: usize,
    registry: &BlockRegistry,
) -> (r: BlockPool<T>)
    requires
        0 < block_count <= MAX_BLOCKS,
    ensures
        r.has_blocks(block_count),
        r.has_block_size(1),
        r.registers_with(*registry),
        r.is_lru_pool_of(block_count, 1, *registry),
{
    match new_lru_manager::<T>(block_count, 1, registry) {
        Ok(pool) => pool,
        Err(_) => vstd::pervasive::unreached(),
    }
}

/// The capacities of a frequency tracker are 2^18, 2^21 and 2^24 entries.
pub proof fn law_tracker_capacities()
    ensures
        TrackerCapacity::Small.entries() == 262_144,
        TrackerCapacity::Medium.entries() == 8 * TrackerCapacity::Small.entries(),
        TrackerCapacity::Large.entries() == 8 * TrackerCapacity::Medium.entries(),
{
}

/// A registry is built to keep counts of 2^21 hashes.
pub proof fn law_registry_keeps_counts(r: BlockRegistry)
    requires
        call_ensures(build_registry, (), r),
    ensures
        tracked_entries(r) == 2_097_152,
{
}

/// What is read from a pool is what it was built for: so many blocks, of one token each, on that
/// registry.
pub proof fn law_pool_reads_what_it_was_built_for<T: Clone + Send + Sync + 'static>(
    block_count: usize,
    registry: &BlockRegistry,
    pool: BlockPool<T>,
    total_blocks: usize,
    block_size: usize,
    own: BlockRegistry,
)
    requires
        call_ensures(build_block_manager::<T>, (block_count, registry), pool),
        call_ensures(BlockPool::<T>::total_blocks, (&pool,), total_blocks),
        call_ensures(BlockPool::<T>::block_size, (&pool,), block_size),
        call_ensures(BlockPool::<T>::block_registry, (&pool,), own),
    ensures
        total_blocks == block_count,
        block_size == 1,
        own == *registry,
{
    assert(pool.counts_as(total_blocks) && pool.has_blocks(block_count));
    assert(pool.sized_as(block_size) && pool.has_block_size(1));
    assert(pool.registered_as(own) && pool.registers_with(*registry));
}

/// A pool can be built for any number of blocks from one up to the bound.
pub proof fn law_any_block_count_is_accepted<T: Clone + Send + Sync + 'static>(
    block_count: usize,
    registry: &BlockRegistry,
)
    requires
        1 <= block_count <= usize::MAX / 128,
    ensures
        call_requires(build_block_manager::<T>, (block_count, registry)),
{
}

} // verus!
