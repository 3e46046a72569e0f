//! The memory manager: strategy selection from the application profile, the
//! FIFO buffer pool, and the allocate/deallocate operations.

use std::collections::VecDeque;
use vstd::prelude::*;

use crate::config::ApplicationType;
use crate::config::MemoryConfig;
use crate::errors::CoreError;

verus! {

/// The closed set of allocation algorithms a manager can run.
#[derive(Clone, Copy, Debug, PartialEq, Eq, Structural)]
pub enum AllocationStrategy {
    /// A fresh, zero-initialized buffer of exactly the requested size.
    Standard,
    /// Buffers served from a pre-allocated FIFO pool, falling back to a fresh
    /// allocation once the pool is exhausted.
    PoolBased,
    /// A fresh buffer of the configured buffer size, whatever was requested.
    CustomEmbedded,
}

/// The strategy selected for an application profile; `None` for a profile the
/// manager does not support.
pub open spec fn spec_strategy_for(app_type: ApplicationType) -> Option<AllocationStrategy> {
    match app_type {
        ApplicationType::WebApp => Some(AllocationStrategy::PoolBased),
        ApplicationType::ApiBackend => Some(AllocationStrategy::PoolBased),
        ApplicationType::DesktopApp => Some(AllocationStrategy::Standard),
        ApplicationType::AutomationScript => Some(AllocationStrategy::Standard),
        ApplicationType::EmbeddedSystem => Some(AllocationStrategy::CustomEmbedded),
        ApplicationType::Unsupported => None,
    }
}

/// The strategy a single allocation runs under: the caller's per-call choice
/// if one was supplied, else the manager's configured default.
pub open spec fn effective_strategy(
    chosen: Option<AllocationStrategy>,
    configured: AllocationStrategy,
) -> AllocationStrategy {
    match chosen {
        Some(s) => s,
        None => configured,
    }
}

/// A zero-initialized byte buffer of the given length.
pub open spec fn zero_buffer(len: nat) -> Seq<u8> {
    Seq::new(len, |i: int| 0u8)
}

/// The byte contents of each buffer in a pool, in pool order.
pub open spec fn views_of(buffers: Seq<Vec<u8>>) -> Seq<Seq<u8>> {
    buffers.map_values(|b: Vec<u8>| b@)
}

/// The pool contents a manager starts with: `pool_size / buffer_size` buffers
/// (integer division, remainder discarded), each zero-initialized and exactly
/// `buffer_size` bytes long.
pub open spec fn initial_pool(config: MemoryConfig) -> Seq<Seq<u8>>
    recommends
        config.buffer_size > 0,
{
    Seq::new(
        (config.pool_size / config.buffer_size) as nat,
        |i: int| zero_buffer(config.buffer_size as nat),
    )
}

/// A fresh, zero-initialized buffer of exactly `size` bytes.
fn zeroed(size: usize) -> (r: Vec<u8>)
    ensures
        r@ == zero_buffer(size as nat),
{
    let mut r: Vec<u8> = Vec::new();
    while r.len() < size
        invariant
            r@.len() <= size,
            forall|i: int| 0 <= i < r@.len() ==> r@[i] == 0u8,
        decreases size - r.len(),
    {
        r.push(0u8);
    }
    proof {
        assert(r@ =~= zero_buffer(size as nat));
    }
    r
}

/// Orchestrates strategy selection, owns the optional FIFO pool, and serves
/// allocate/deallocate requests against the resolved sizing configuration.
pub struct MemoryManager {
    default_allocation_strategy: AllocationStrategy,
    pool: Option<VecDeque<Vec<u8>>>,
    memory_config: MemoryConfig,
}

impl MemoryManager {
    /// The manager's default allocation strategy, fixed at construction.
    pub closed spec fn strategy(&self) -> AllocationStrategy {
        self.default_allocation_strategy
    }

    /// The manager's resolved sizing configuration, fixed at construction.
    pub closed spec fn config(&self) -> MemoryConfig {
        self.memory_config
    }

    /// The pool as a sequence of buffer contents, front first; `None` when the
    /// strategy keeps no pool. A present-but-empty pool is distinct from an
    /// absent one.
    pub closed spec fn pool_model(&self) -> Option<Seq<Seq<u8>>> {
        match self.pool {
            Some(p) => Some(views_of(p@)),
            None => None,
        }
    }

    /// Well-formedness: the pool is present if and only if the default
    /// strategy is pool-based, and both configured byte counts are strictly
    /// positive.
    pub open spec fn wf(&self) -> bool {
        &&& self.strategy() is PoolBased <==> self.pool_model() is Some
        &&& self.config().buffer_size > 0
        &&& self.config().pool_size > 0
    }

    /// Creates a manager for the given application profile: selects the
    /// strategy for the profile and, when that strategy is pool-based, eagerly
    /// fills a FIFO pool with `pool_size / buffer_size` zero-initialized
    /// buffers of `buffer_size` bytes each. An unsupported profile is rejected
    /// with a configuration error and no manager is produced.
    pub fn new(app_type: ApplicationType, memory_config: MemoryConfig) -> (r: Result<
        MemoryManager,
        CoreError,
    >)
        requires
            memory_config.buffer_size > 0,
            memory_config.pool_size > 0,
        ensures
            (spec_strategy_for(app_type) is None) <==> (r is Err),
            r is Err ==> r == Err::<MemoryManager, CoreError>(CoreError::ConfigurationError),
            r matches Ok(m) ==> {
                &&& m.wf()
                &&& Some(m.strategy()) == spec_strategy_for(app_type)
                &&& m.config() == memory_config
                &&& (m.strategy() is PoolBased ==> m.pool_model() == Some(
                    initial_pool(memory_config),
                ))
                &&& (m.strategy() !is PoolBased ==> m.pool_model() is None)
            },
    {
        let strategy = match app_type {
            ApplicationType::WebApp | ApplicationType::ApiBackend => AllocationStrategy::PoolBased,
            ApplicationType::DesktopApp => AllocationStrategy::Standard,
            ApplicationType::AutomationScript => AllocationStrategy::Standard,
            ApplicationType::EmbeddedSystem => AllocationStrategy::CustomEmbedded,
            ApplicationType::Unsupported => {
                return Err(CoreError::ConfigurationError);
            },
        };
        let pool: Option<VecDeque<Vec<u8>>> = if let AllocationStrategy::PoolBased = strategy {
            let buffer_count = memory_config.pool_size / memory_config.buffer_size;
            let mut buffers: VecDeque<Vec<u8>> = VecDeque::new();
            let mut i: usize = 0;
            while i < buffer_count
                invariant
                    i <= buffer_count,
                    buffers@.len() == i,
                    forall|j: int|
                        0 <= j < i ==> #[trigger] buffers@[j]@ == zero_buffer(
                            memory_config.buffer_size as nat,
                        ),
                decreases buffer_count - i,
            {
                buffers.push_back(zeroed(memory_config.buffer_size));
                i = i + 1;
            }
            proof {
                assert(views_of(buffers@) =~= initial_pool(memory_config));
            }
            Some(buffers)
        } else {
            None
        };
        Ok(MemoryManager { default_allocation_strategy: strategy, pool, memory_config })
    }

    /// What one allocation does, for each effective strategy: standard serves
    /// a fresh zero buffer of the requested size; pool-based pops the front
    /// buffer while the pool is non-empty (ignoring the requested size), falls
    /// back to a fresh buffer of the requested size once the pool is empty,
    /// and fails only when the pool is structurally absent; custom-embedded
    /// serves a fresh buffer of the configured buffer size, whatever was
    /// requested.
    pub open spec fn allocate_post(
        pre: MemoryManager,
        post: MemoryManager,
        chosen: Option<AllocationStrategy>,
        size: usize,
        r: Result<Vec<u8>, CoreError>,
    ) -> bool {
        match effective_strategy(chosen, pre.strategy()) {
            AllocationStrategy::Standard => {
                &&& r matches Ok(b) && b@ == zero_buffer(size as nat)
                &&& post == pre
            },
            AllocationStrategy::CustomEmbedded => {
                &&& r matches Ok(b) && b@ == zero_buffer(pre.config().buffer_size as nat)
                &&& post == pre
            },
            AllocationStrategy::PoolBased => match pre.pool_model() {
                None => {
                    &&& r == Err::<Vec<u8>, CoreError>(CoreError::ResourceAllocationError)
                    &&& post == pre
                },
                Some(p) => if p.len() > 0 {
                    &&& r matches Ok(b) && b@ == p.first()
                    &&& post.strategy() == pre.strategy()
                    &&& post.config() == pre.config()
                    &&& post.pool_model() == Some(p.drop_first())
                } else {
                    &&& r matches Ok(b) && b@ == zero_buffer(size as nat)
                    &&& post.strategy() == pre.strategy()
                    &&& post.config() == pre.config()
                    &&& post.pool_model() == pre.pool_model()
                },
            },
        }
    }

    /// Allocates under the caller's per-call strategy choice if one is given,
    /// else under the manager's default; the choice applies to this call only
    /// and is never persisted.
    pub fn allocate(&mut self, strategy: Option<AllocationStrategy>, size: usize) -> (r: Result<
        Vec<u8>,
        CoreError,
    >)
        requires
            old(self).wf(),
        ensures
            final(self).wf(),
            Self::allocate_post(*old(self), *final(self), strategy, size, r),
    {
        let alloc_strategy = match strategy {
            Some(s) => s,
            None => self.default_allocation_strategy,
        };
        match alloc_strategy {
            AllocationStrategy::Standard => Ok(zeroed(size)),
            AllocationStrategy::PoolBased => {
                match &mut self.pool {
                    Some(pool) => {
                        let popped = pool.pop_front();
                        match popped {
                            Some(buffer) => {
                                proof {
                                    lemma_views_of_drop_first(old(self).pool->0@);
                                }
                                Ok(buffer)
                            },
                            None => Ok(zeroed(size)),
                        }
                    },
                    None => Err(CoreError::ResourceAllocationError),
                }
            },
            AllocationStrategy::CustomEmbedded => Ok(zeroed(self.memory_config.buffer_size)),
        }
    }

    /// Returns a buffer to the manager, dispatching on the manager's default
    /// strategy — not on any per-call choice used at the paired allocation.
    /// Under the pool-based default the buffer is appended to the back of the
    /// pool, whatever its length; under the other strategies ownership is
    /// simply released. Always succeeds on a well-formed manager.
    pub fn deallocate(&mut self, buffer: Vec<u8>) -> (r: Result<(), CoreError>)
        requires
            old(self).wf(),
        ensures
            final(self).wf(),
            final(self).strategy() == old(self).strategy(),
            final(self).config() == old(self).config(),
            r == Ok::<(), CoreError>(()),
            old(self).strategy() is PoolBased ==> (old(self).pool_model() matches Some(p)
                && final(self).pool_model() == Some(p.push(buffer@))),
            old(self).strategy() !is PoolBased ==> *final(self) == *old(self),
    {
        match self.default_allocation_strategy {
            AllocationStrategy::Standard => Ok(()),
            AllocationStrategy::PoolBased => {
                match &mut self.pool {
                    Some(pool) => {
                        pool.push_back(buffer);
                        proof {
                            lemma_views_of_push(old(self).pool->0@, buffer);
                        }
                        Ok(())
                    },
                    None => Err(CoreError::ResourceAllocationError),
                }
            },
            AllocationStrategy::CustomEmbedded => Ok(()),
        }
    }

    /// How many buffers the pool currently holds; `None` when the strategy
    /// keeps no pool.
    pub fn pool_len(&self) -> (r: Option<usize>)
        ensures
            match self.pool_model() {
                Some(p) => r matches Some(n) && n == p.len(),
                None => r is None,
            },
    {
        match &self.pool {
            Some(pool) => Some(pool.len()),
            None => None,
        }
    }

    /// The manager's default allocation strategy.
    pub fn default_strategy(&self) -> (s: AllocationStrategy)
        ensures
            s == self.strategy(),
    {
        self.default_allocation_strategy
    }
}

/// A pool configuration whose total budget is smaller than one buffer yields
/// a present-but-empty pool: the buffer count is the integer quotient
/// `pool_size / buffer_size`, which is 0 whenever `pool_size < buffer_size`.
pub proof fn lemma_undersized_pool_is_empty(config: MemoryConfig)
    requires
        config.buffer_size > 0,
        config.pool_size < config.buffer_size,
    ensures
        initial_pool(config).len() == 0,
{
    vstd::arithmetic::div_mod::lemma_basic_div(
        config.pool_size as int,
        config.buffer_size as int,
    );
}

/// The pool contents after `n` front buffers have been served, one per
/// pool-based allocation on a non-empty pool; serving stops once the pool is
/// empty.
pub open spec fn pool_after_pops(p: Seq<Seq<u8>>, n: nat) -> Seq<Seq<u8>>
    decreases n,
{
    if n == 0 || p.len() == 0 {
        p
    } else {
        pool_after_pops(p.drop_first(), (n - 1) as nat)
    }
}

/// Exhaustion: each pool-based allocation on a non-empty pool drops the front
/// buffer, so after exactly as many allocations as the pool holds, the pool
/// is empty — and the next allocation takes the fallback path, returning a
/// fresh buffer of the requested size.
pub proof fn lemma_pool_drained_after_len_pops(p: Seq<Seq<u8>>)
    ensures
        pool_after_pops(p, p.len()).len() == 0,
    decreases p.len(),
{
    if p.len() > 0 {
        lemma_pool_drained_after_len_pops(p.drop_first());
    }
}

/// The pool contents after one allocate/deallocate pair with no per-call
/// strategy choice on a pool-based manager with a non-empty pool: the
/// allocation pops the front buffer and the paired deallocation pushes that
/// same buffer to the back.
pub open spec fn pool_after_round_trip(p: Seq<Seq<u8>>) -> Seq<Seq<u8>>
    recommends
        p.len() > 0,
{
    p.drop_first().push(p.first())
}

/// The pool contents after `n` such allocate/deallocate pairs.
pub open spec fn pool_after_round_trips(p: Seq<Seq<u8>>, n: nat) -> Seq<Seq<u8>>
    decreases n,
{
    if n == 0 {
        p
    } else {
        pool_after_round_trips(pool_after_round_trip(p), (n - 1) as nat)
    }
}

/// Net neutrality: on a pool-based manager whose pool is never exhausted, a
/// sequence of `n` allocate/deallocate pairs with no per-call strategy choice
/// leaves the pool length unchanged.
pub proof fn lemma_round_trips_preserve_pool_len(p: Seq<Seq<u8>>, n: nat)
    requires
        p.len() > 0,
    ensures
        pool_after_round_trips(p, n).len() == p.len(),
    decreases n,
{
    if n > 0 {
        lemma_round_trips_preserve_pool_len(pool_after_round_trip(p), (n - 1) as nat);
    }
}

/// Taking the views of a pool's buffers commutes with dropping the front
/// buffer.
proof fn lemma_views_of_drop_first(buffers: Seq<Vec<u8>>)
    requires
        buffers.len() > 0,
    ensures
        views_of(buffers.drop_first()) == views_of(buffers).drop_first(),
{
    assert(views_of(buffers.drop_first()) =~= views_of(buffers).drop_first());
}

/// Taking the views of a pool's buffers commutes with pushing a buffer to the
/// back.
proof fn lemma_views_of_push(buffers: Seq<Vec<u8>>, buffer: Vec<u8>)
    ensures
        views_of(buffers.push(buffer)) == views_of(buffers).push(buffer@),
{
    assert(views_of(buffers.push(buffer)) =~= views_of(buffers).push(buffer@));
}

} // verus!
