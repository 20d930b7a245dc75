//! Size-bucketed buffer pool with usage accounting.
//!
//! `current_memory_usage` counts only buffers checked out to a caller; idle
//! buffers are tracked separately as pooled memory and are not counted
//! against the configured memory cap. The cap is a soft limit: when it would
//! be exceeded, the pool degrades to an unpooled allocation instead of
//! failing, so the caller always succeeds.
//!
//! Idle age is measured on a logical millisecond clock owned by the pool and
//! advanced explicitly by its owner (`advance_clock`), which keeps the expiry
//! policy deterministic.

use vstd::prelude::*;

verus! {

use crate::error::{MemoryPoolError, MemoryPoolResult};

/// Saturate an integer at `u64::MAX`.
pub open spec fn sat_u64(x: int) -> int {
    if x > u64::MAX {
        u64::MAX as int
    } else {
        x
    }
}

/// Saturate an integer at `usize::MAX`.
pub open spec fn sat_usize(x: int) -> int {
    if x > usize::MAX {
        usize::MAX as int
    } else {
        x
    }
}

/// Ghost record of one idle buffer: its logical size, the length of its
/// backing allocation, and the pool clock reading when it went idle.
#[verifier::ext_equal]
pub ghost struct IdleEntry {
    pub size: int,
    pub cap: int,
    pub last_used: int,
}

/// Ghost model of the pool: the idle list in insertion order, the
/// configuration limits, the logical clock, and the counters.
#[verifier::ext_equal]
pub ghost struct PoolModel {
    pub idle: Seq<IdleEntry>,
    pub max_buffers: int,
    pub max_memory: int,
    pub timeout_ms: int,
    pub clock: int,
    pub created: int,
    pub reuse: int,
    pub peak: int,
    pub current: int,
    pub hits: int,
    pub misses: int,
}

/// The size-bucket rule: an idle buffer serves a request when it is at least
/// as large as requested and at most twice as large (bounding waste to 2x).
pub open spec fn entry_matches(e: IdleEntry, size: int) -> bool {
    e.size >= size && e.size - size <= size
}

/// An idle buffer expires when it has sat idle strictly longer than the
/// configured timeout.
pub open spec fn entry_expired(e: IdleEntry, clock: int, timeout: int) -> bool {
    clock - e.last_used > timeout
}

/// The idle list with expired entries removed, order kept.
pub open spec fn retain_fresh(idle: Seq<IdleEntry>, clock: int, timeout: int) -> Seq<IdleEntry>
    decreases idle.len(),
{
    if idle.len() == 0 {
        Seq::empty()
    } else {
        let rest = retain_fresh(idle.drop_first(), clock, timeout);
        if entry_expired(idle[0], clock, timeout) {
            rest
        } else {
            seq![idle[0]] + rest
        }
    }
}

/// The index of the first idle entry that serves `size` (first-fit in
/// insertion order), if any.
pub open spec fn find_match(idle: Seq<IdleEntry>, size: int) -> Option<int>
    decreases idle.len(),
{
    if idle.len() == 0 {
        None
    } else if entry_matches(idle[0], size) {
        Some(0int)
    } else {
        match find_match(idle.drop_first(), size) {
            Some(i) => Some(i + 1),
            None => None,
        }
    }
}

/// The pool after expiring stale idle entries.
pub open spec fn cleanup_pool(m: PoolModel) -> PoolModel {
    PoolModel { idle: retain_fresh(m.idle, m.clock, m.timeout_ms), ..m }
}

/// Whether `acquire(size)` hands out a pool-tracked buffer: a reused idle
/// buffer always is, and a fresh allocation is tracked exactly when it fits
/// under the memory cap.
pub open spec fn acquire_is_pooled(m: PoolModel, size: int) -> bool {
    let mc = cleanup_pool(m);
    match find_match(mc.idle, size) {
        Some(_) => true,
        None => mc.current + size <= mc.max_memory,
    }
}

/// Whether `acquire(size)` reuses an idle buffer.
pub open spec fn acquire_is_hit(m: PoolModel, size: int) -> bool {
    find_match(cleanup_pool(m).idle, size) is Some
}

/// The pool state after `acquire(size)`. A zero size leaves the pool
/// untouched; a hit removes the first matching idle entry and marks its size
/// active; a miss allocates fresh, tracked under the cap when it fits and
/// unpooled otherwise.
pub open spec fn acquire_pool(m: PoolModel, size: int) -> PoolModel {
    if size == 0 {
        m
    } else {
        let mc = cleanup_pool(m);
        match find_match(mc.idle, size) {
            Some(i) => PoolModel {
                idle: mc.idle.remove(i),
                current: sat_usize(mc.current + size),
                hits: sat_u64(mc.hits + 1),
                reuse: sat_u64(mc.reuse + 1),
                ..mc
            },
            None => {
                let mm = PoolModel { misses: sat_u64(mc.misses + 1), ..mc };
                if mm.current + size > mm.max_memory {
                    mm
                } else {
                    PoolModel {
                        created: sat_u64(mm.created + 1),
                        current: mm.current + size,
                        peak: if mm.current + size > mm.peak {
                            mm.current + size
                        } else {
                            mm.peak
                        },
                        ..mm
                    }
                }
            },
        }
    }
}

/// The pool state after a buffer of logical size `size` with backing length
/// `cap` is released. An unpooled buffer leaves no trace; a pooled one stops
/// counting as active and goes idle unless the idle list is full.
pub open spec fn release_pool(m: PoolModel, size: int, cap: int, pooled: bool) -> PoolModel {
    if !pooled {
        m
    } else {
        let m1 = PoolModel {
            current: if m.current >= size {
                m.current - size
            } else {
                0
            },
            ..m
        };
        if m1.idle.len() >= m1.max_buffers {
            m1
        } else {
            PoolModel {
                idle: m1.idle.push(IdleEntry { size, cap, last_used: m1.clock }),
                ..m1
            }
        }
    }
}

/// The pool state after a buffer is detached (`into_vec`): the active
/// accounting decrement of a release, but the buffer never returns.
pub open spec fn detach_pool(m: PoolModel, size: int, pooled: bool) -> PoolModel {
    if !pooled {
        m
    } else {
        PoolModel {
            current: if m.current >= size {
                m.current - size
            } else {
                0
            },
            ..m
        }
    }
}

/// The model of a freshly constructed pool: empty or preallocated idle list,
/// zeroed counters, clock at zero.
pub open spec fn init_pool(config: PoolConfig) -> PoolModel {
    let prealloc_count: int = if config.preallocate {
        if config.max_buffers <= 4 {
            config.max_buffers as int
        } else {
            4
        }
    } else {
        0
    };
    PoolModel {
        idle: Seq::new(
            prealloc_count as nat,
            |i: int|
                IdleEntry {
                    size: config.default_buffer_size as int,
                    cap: config.default_buffer_size as int,
                    last_used: 0,
                },
        ),
        max_buffers: config.max_buffers as int,
        max_memory: config.max_memory as int,
        timeout_ms: config.buffer_timeout_ms as int,
        clock: 0,
        created: prealloc_count,
        reuse: 0,
        peak: 0,
        current: 0,
        hits: 0,
        misses: 0,
    }
}

/// The saturating sum of the idle entries' logical sizes (the pooled memory).
pub open spec fn pooled_memory_of(idle: Seq<IdleEntry>) -> int
    decreases idle.len(),
{
    if idle.len() == 0 {
        0
    } else {
        sat_usize(pooled_memory_of(idle.drop_last()) + idle.last().size)
    }
}

/// Configuration for the memory pool. Durations are in milliseconds.
#[derive(Debug, Clone)]
pub struct PoolConfig {
    /// Maximum number of buffers to keep idle in the pool.
    pub max_buffers: usize,
    /// Soft cap on active (checked-out) memory, in bytes.
    pub max_memory: usize,
    /// Idle buffer expiration timeout in milliseconds.
    pub buffer_timeout_ms: u64,
    /// Whether to pre-allocate buffers.
    pub preallocate: bool,
    /// Default buffer size for pre-allocation.
    pub default_buffer_size: usize,
}

impl PoolConfig {
    /// The default configuration.
    pub open spec fn spec_default() -> PoolConfig {
        PoolConfig {
            max_buffers: 10,
            max_memory: (500 * 1024 * 1024) as usize,
            buffer_timeout_ms: 60000,
            preallocate: false,
            default_buffer_size: (1920 * 1080 * 4) as usize,
        }
    }
}

impl Default for PoolConfig {
    /// Ten idle buffers at most, a 500 MB active-memory cap, a one-minute
    /// idle timeout, and no preallocation.
    fn default() -> (c: PoolConfig)
        ensures
            c == Self::spec_default(),
    {
        PoolConfig {
            max_buffers: 10,
            max_memory: 500 * 1024 * 1024,
            buffer_timeout_ms: 60000,
            preallocate: false,
            default_buffer_size: 1920 * 1080 * 4,
        }
    }
}

/// Statistics snapshot for the memory pool; the fields are consistent with
/// one another because the pool hands them out under `&self`.
#[derive(Debug, Clone)]
pub struct PoolStats {
    /// Idle buffers available for reuse.
    pub available_buffers: usize,
    /// Buffers ever allocated under pool tracking.
    pub total_buffers_created: u64,
    /// Active plus idle memory, in bytes.
    pub total_memory_allocated: usize,
    /// Highest active memory ever observed.
    pub peak_memory_usage: usize,
    /// Number of times an idle buffer was reused.
    pub memory_reuse_count: u64,
    /// Active (checked-out) memory only.
    pub current_memory_usage: usize,
    /// Memory held in idle pool buffers.
    pub pooled_memory: usize,
    /// Requests served from the idle list.
    pub buffer_hits: u64,
    /// Requests that needed a fresh allocation.
    pub buffer_misses: u64,
}

/// Buffer metadata while a buffer sits in the pool's idle list.
struct BufferEntry {
    buffer: Vec<u8>,
    size: usize,
    last_used_ms: u64,
    use_count: u32,
}

impl BufferEntry {
    /// The ghost record of this entry.
    pub closed spec fn view(self) -> IdleEntry {
        IdleEntry {
            size: self.size as int,
            cap: self.buffer@.len() as int,
            last_used: self.last_used_ms as int,
        }
    }

    /// The backing allocation covers the logical size.
    pub closed spec fn wf(self) -> bool {
        self.size <= self.buffer@.len()
    }

    fn new(buffer: Vec<u8>, size: usize, now_ms: u64) -> (e: BufferEntry)
        requires
            size <= buffer@.len(),
        ensures
            e@ == (IdleEntry {
                size: size as int,
                cap: buffer@.len() as int,
                last_used: now_ms as int,
            }),
            e.wf(),
    {
        BufferEntry { buffer, size, last_used_ms: now_ms, use_count: 0 }
    }

    fn matches_size(&self, requested_size: usize) -> (b: bool)
        ensures
            b == entry_matches(self@, requested_size as int),
    {
        self.size >= requested_size && self.size - requested_size <= requested_size
    }

    fn is_expired(&self, clock_ms: u64, timeout_ms: u64) -> (b: bool)
        requires
            self@.last_used <= clock_ms,
        ensures
            b == entry_expired(self@, clock_ms as int, timeout_ms as int),
    {
        clock_ms - self.last_used_ms > timeout_ms
    }
}

/// A byte buffer on loan from the pool. It carries its logical size and
/// whether the pool tracks it; it is handed back with `MemoryPool::release`
/// or detached for good with `into_vec`.
pub struct PooledBuffer {
    data: Vec<u8>,
    size: usize,
    pooled: bool,
}

impl PooledBuffer {
    /// The bytes of the buffer.
    pub closed spec fn view(self) -> Seq<u8> {
        self.data@
    }

    /// The logical size of the loan; the backing allocation may be longer.
    pub closed spec fn spec_size(self) -> int {
        self.size as int
    }

    /// Whether the pool counts this buffer as active memory.
    pub closed spec fn is_pooled(self) -> bool {
        self.pooled
    }

    /// The backing allocation covers the logical size.
    pub closed spec fn wf(self) -> bool {
        self.size <= self.data@.len()
    }

    /// Get the buffer data.
    pub fn data(&self) -> (d: &Vec<u8>)
        ensures
            d@ == self@,
    {
        &self.data
    }

    /// Get mutable buffer data. Shrinking it below the logical size leaves
    /// the buffer ill-formed, so the caller keeps the length at least
    /// `size()`.
    pub fn data_mut(&mut self) -> (d: &mut Vec<u8>)
        ensures
            (*d)@ == old(self)@,
            final(self)@ == (*final(d))@,
            final(self).spec_size() == old(self).spec_size(),
            final(self).is_pooled() == old(self).is_pooled(),
    {
        &mut self.data
    }

    /// Get the buffer's logical size.
    pub fn size(&self) -> (n: usize)
        ensures
            n == self.spec_size(),
    {
        self.size
    }

    /// Take ownership of the buffer data, removing it from pool management
    /// permanently: the pool stops counting it as active, and it will never
    /// return to the idle list.
    pub fn into_vec(self, pool: &mut MemoryPool) -> (v: Vec<u8>)
        requires
            old(pool).wf(),
        ensures
            v@ == self@,
            final(pool).wf(),
            final(pool)@ == detach_pool(old(pool)@, self.spec_size(), self.is_pooled()),
    {
        let PooledBuffer { data, size, pooled } = self;
        if pooled {
            pool.current_memory_usage = pool.current_memory_usage.saturating_sub(size);
        }
        data
    }
}

/// Memory pool for efficient buffer reuse.
pub struct MemoryPool {
    idle: Vec<BufferEntry>,
    config: PoolConfig,
    clock_ms: u64,
    total_buffers_created: u64,
    memory_reuse_count: u64,
    peak_memory_usage: usize,
    current_memory_usage: usize,
    buffer_hits: u64,
    buffer_misses: u64,
}

impl MemoryPool {
    /// The ghost model of this pool.
    pub closed spec fn view(self) -> PoolModel {
        PoolModel {
            idle: self.idle@.map_values(|e: BufferEntry| e@),
            max_buffers: self.config.max_buffers as int,
            max_memory: self.config.max_memory as int,
            timeout_ms: self.config.buffer_timeout_ms as int,
            clock: self.clock_ms as int,
            created: self.total_buffers_created as int,
            reuse: self.memory_reuse_count as int,
            peak: self.peak_memory_usage as int,
            current: self.current_memory_usage as int,
            hits: self.buffer_hits as int,
            misses: self.buffer_misses as int,
        }
    }

    /// Every idle entry went idle no later than the pool clock, and its
    /// backing allocation covers its logical size.
    pub closed spec fn wf(self) -> bool {
        forall|i: int|
            0 <= i < self.idle@.len() ==> (#[trigger] self.idle@[i]).wf()
                && self.idle@[i]@.last_used <= self.clock_ms
    }

    /// Create a new memory pool with the default configuration.
    pub fn new() -> (pool: MemoryPool)
        ensures
            pool.wf(),
            pool@ == init_pool(PoolConfig::spec_default()),
    {
        MemoryPool::with_config(PoolConfig::default())
    }

    /// Create a new memory pool with a custom configuration.
    pub fn with_config(config: PoolConfig) -> (pool: MemoryPool)
        ensures
            pool.wf(),
            pool@ == init_pool(config),
    {
        let mut pool = MemoryPool {
            idle: Vec::new(),
            config,
            clock_ms: 0,
            total_buffers_created: 0,
            memory_reuse_count: 0,
            peak_memory_usage: 0,
            current_memory_usage: 0,
            buffer_hits: 0,
            buffer_misses: 0,
        };
        if pool.config.preallocate {
            pool.preallocate_buffers();
        }
        proof {
            assert(pool@.idle =~= init_pool(config).idle);
            assert(pool@ =~= init_pool(config));
        }
        pool
    }

    /// Pre-allocate a few idle buffers of the default size.
    fn preallocate_buffers(&mut self)
        requires
            old(self).idle@.len() == 0,
            old(self).total_buffers_created == 0,
            old(self).clock_ms == 0,
        ensures
            final(self).config == old(self).config,
            final(self).clock_ms == 0,
            final(self).memory_reuse_count == old(self).memory_reuse_count,
            final(self).peak_memory_usage == old(self).peak_memory_usage,
            final(self).current_memory_usage == old(self).current_memory_usage,
            final(self).buffer_hits == old(self).buffer_hits,
            final(self).buffer_misses == old(self).buffer_misses,
            final(self).wf(),
            final(self).idle@.len() == (if old(self).config.max_buffers <= 4 {
                old(self).config.max_buffers as int
            } else {
                4int
            }),
            final(self).total_buffers_created == final(self).idle@.len(),
            forall|i: int|
                0 <= i < final(self).idle@.len() ==> final(self).idle@[i]@ == (IdleEntry {
                    size: old(self).config.default_buffer_size as int,
                    cap: old(self).config.default_buffer_size as int,
                    last_used: 0,
                }),
    {
        let num_buffers: usize = if self.config.max_buffers < 4 {
            self.config.max_buffers
        } else {
            4
        };
        let mut k: usize = 0;
        while k < num_buffers
            invariant
                k <= num_buffers,
                num_buffers <= 4,
                self.config == old(self).config,
                self.clock_ms == 0,
                self.memory_reuse_count == old(self).memory_reuse_count,
                self.peak_memory_usage == old(self).peak_memory_usage,
                self.current_memory_usage == old(self).current_memory_usage,
                self.buffer_hits == old(self).buffer_hits,
                self.buffer_misses == old(self).buffer_misses,
                self.idle@.len() == k,
                self.total_buffers_created == k,
                forall|i: int|
                    0 <= i < k ==> (#[trigger] self.idle@[i]).wf() && self.idle@[i]@ == (IdleEntry {
                        size: old(self).config.default_buffer_size as int,
                        cap: old(self).config.default_buffer_size as int,
                        last_used: 0,
                    }),
            decreases num_buffers - k,
        {
            let buffer: Vec<u8> = vec![0u8; self.config.default_buffer_size];
            let entry = BufferEntry::new(buffer, self.config.default_buffer_size, 0);
            self.idle.push(entry);
            self.total_buffers_created = self.total_buffers_created + 1;
            k = k + 1;
        }
    }

    /// Advance the pool's logical clock by `delta_ms` milliseconds; idle
    /// entries age accordingly.
    pub fn advance_clock(&mut self, delta_ms: u64)
        requires
            old(self).wf(),
        ensures
            final(self).wf(),
            final(self)@ == (PoolModel { clock: sat_u64(old(self)@.clock + delta_ms), ..old(
                self,
            )@ }),
    {
        self.clock_ms = self.clock_ms.saturating_add(delta_ms);
        proof {
            assert(self@ =~= (PoolModel { clock: sat_u64(old(self)@.clock + delta_ms), ..old(
                self,
            )@ }));
        }
    }

    /// Remove idle entries that have expired under the current clock.
    fn cleanup_expired_buffers(&mut self)
        requires
            old(self).wf(),
        ensures
            final(self).wf(),
            final(self)@ == cleanup_pool(old(self)@),
            final(self).config == old(self).config,
            final(self).clock_ms == old(self).clock_ms,
    {
        let timeout: u64 = self.config.buffer_timeout_ms;
        let clock: u64 = self.clock_ms;
        let ghost orig: Seq<IdleEntry> = self.idle@.map_values(|e: BufferEntry| e@);
        let mut kept: Vec<BufferEntry> = Vec::new();
        while self.idle.len() > 0
            invariant
                timeout == self.config.buffer_timeout_ms,
                clock == self.clock_ms,
                self.config == old(self).config,
                self.clock_ms == old(self).clock_ms,
                self.total_buffers_created == old(self).total_buffers_created,
                self.memory_reuse_count == old(self).memory_reuse_count,
                self.peak_memory_usage == old(self).peak_memory_usage,
                self.current_memory_usage == old(self).current_memory_usage,
                self.buffer_hits == old(self).buffer_hits,
                self.buffer_misses == old(self).buffer_misses,
                forall|i: int|
                    0 <= i < self.idle@.len() ==> (#[trigger] self.idle@[i]).wf()
                        && self.idle@[i]@.last_used <= clock,
                forall|i: int|
                    0 <= i < kept@.len() ==> (#[trigger] kept@[i]).wf() && kept@[i]@.last_used
                        <= clock,
                retain_fresh(orig, clock as int, timeout as int) == kept@.map_values(
                    |e: BufferEntry| e@,
                ) + retain_fresh(
                    self.idle@.map_values(|e: BufferEntry| e@),
                    clock as int,
                    timeout as int,
                ),
            decreases self.idle@.len(),
        {
            let ghost pending: Seq<IdleEntry> = self.idle@.map_values(|e: BufferEntry| e@);
            let ghost kept_before: Seq<IdleEntry> = kept@.map_values(|e: BufferEntry| e@);
            let entry = self.idle.remove(0);
            proof {
                assert(self.idle@.map_values(|e: BufferEntry| e@) =~= pending.drop_first());
                assert(pending[0] == entry@);
            }
            if !entry.is_expired(clock, timeout) {
                kept.push(entry);
                proof {
                    assert(kept@.map_values(|e: BufferEntry| e@) =~= kept_before.push(entry@));
                    assert(kept_before.push(entry@) =~= kept_before + seq![entry@]);
                    assert((kept_before + seq![entry@]) + retain_fresh(
                        pending.drop_first(),
                        clock as int,
                        timeout as int,
                    ) =~= kept_before + (seq![entry@] + retain_fresh(
                        pending.drop_first(),
                        clock as int,
                        timeout as int,
                    )));
                }
            }
            proof {
                assert(retain_fresh(orig, clock as int, timeout as int) == kept@.map_values(
                    |e: BufferEntry| e@,
                ) + retain_fresh(
                    self.idle@.map_values(|e: BufferEntry| e@),
                    clock as int,
                    timeout as int,
                ));
            }
        }
        proof {
            assert(self.idle@.map_values(|e: BufferEntry| e@) =~= Seq::<IdleEntry>::empty());
            assert(retain_fresh(Seq::<IdleEntry>::empty(), clock as int, timeout as int)
                =~= Seq::<IdleEntry>::empty());
            assert(retain_fresh(orig, clock as int, timeout as int) =~= kept@.map_values(
                |e: BufferEntry| e@,
            ));
        }
        self.idle = kept;
        proof {
            assert(self@ =~= cleanup_pool(old(self)@));
        }
    }

    /// Find the first idle buffer that serves `size`, scanning in insertion
    /// order.
    fn find_suitable_buffer(&self, size: usize) -> (r: Option<usize>)
        ensures
            match r {
                Some(j) => j < self.idle@.len() && find_match(self@.idle, size as int) == Some(
                    j as int,
                ) && entry_matches(self@.idle[j as int], size as int),
                None => find_match(self@.idle, size as int) is None,
            },
    {
        let ghost idle_models: Seq<IdleEntry> = self.idle@.map_values(|e: BufferEntry| e@);
        let n: usize = self.idle.len();
        let mut j: usize = 0;
        while j < n
            invariant
                n == self.idle@.len(),
                j <= n,
                idle_models == self.idle@.map_values(|e: BufferEntry| e@),
                forall|i: int| 0 <= i < j ==> !entry_matches(idle_models[i], size as int),
            decreases n - j,
        {
            if self.idle[j].matches_size(size) {
                proof {
                    assert(idle_models[j as int] == self.idle@[j as int]@);
                    lemma_find_match_some(idle_models, size as int, j as int);
                }
                return Some(j);
            }
            j = j + 1;
        }
        proof {
            lemma_find_match_none(idle_models, size as int);
        }
        None
    }

    /// Raise the recorded peak if the current active memory exceeds it.
    fn update_peak_memory(&mut self)
        ensures
            *final(self) == (MemoryPool {
                peak_memory_usage: if old(self).current_memory_usage
                    > old(self).peak_memory_usage {
                    old(self).current_memory_usage
                } else {
                    old(self).peak_memory_usage
                },
                ..*old(self)
            }),
    {
        if self.current_memory_usage > self.peak_memory_usage {
            self.peak_memory_usage = self.current_memory_usage;
        }
    }

    /// Acquire a buffer of at least `size` bytes. Fails exactly on a
    /// zero-size request; under memory pressure it degrades to an unpooled
    /// allocation instead of failing. A reused buffer keeps its previous
    /// contents; a fresh one is zeroed.
    pub fn acquire(&mut self, size: usize) -> (r: MemoryPoolResult<PooledBuffer>)
        requires
            old(self).wf(),
        ensures
            final(self).wf(),
            match r {
                Ok(buf) => {
                    &&& size != 0
                    &&& final(self)@ == acquire_pool(old(self)@, size as int)
                    &&& buf.wf()
                    &&& buf.spec_size() == size
                    &&& buf@.len() >= size
                    &&& buf.is_pooled() == acquire_is_pooled(old(self)@, size as int)
                    &&& !acquire_is_hit(old(self)@, size as int) ==> buf@ == Seq::new(
                        size as nat,
                        |i: int| 0u8,
                    )
                },
                Err(e) => {
                    &&& size == 0
                    &&& e == (MemoryPoolError::InvalidBufferSize { size })
                    &&& *final(self) == *old(self)
                },
            },
    {
        if size == 0 {
            return Err(MemoryPoolError::InvalidBufferSize { size });
        }
        self.cleanup_expired_buffers();
        let ghost mc: PoolModel = self@;
        match self.find_suitable_buffer(size) {
            Some(index) => {
                let ghost idle_before: Seq<IdleEntry> = self.idle@.map_values(
                    |e: BufferEntry| e@,
                );
                proof {
                    assert(self.idle@[index as int].wf());
                    assert(idle_before[index as int] == self.idle@[index as int]@);
                }
                let mut entry = self.idle.remove(index);
                entry.last_used_ms = self.clock_ms;
                entry.use_count = entry.use_count.saturating_add(1);
                self.current_memory_usage = self.current_memory_usage.saturating_add(size);
                self.buffer_hits = self.buffer_hits.saturating_add(1);
                self.memory_reuse_count = self.memory_reuse_count.saturating_add(1);
                proof {
                    assert(self.idle@.map_values(|e: BufferEntry| e@) =~= idle_before.remove(
                        index as int,
                    ));
                    assert(self@ =~= acquire_pool(old(self)@, size as int));
                }
                Ok(PooledBuffer { data: entry.buffer, size, pooled: true })
            },
            None => {
                self.buffer_misses = self.buffer_misses.saturating_add(1);
                let current: usize = self.current_memory_usage;
                if size > self.config.max_memory || current > self.config.max_memory - size {
                    // The cap throttles pooled growth, not forward progress:
                    // allocate outside pool tracking so the caller succeeds.
                    let buffer: Vec<u8> = vec![0u8; size];
                    proof {
                        assert(self@ =~= acquire_pool(old(self)@, size as int));
                    }
                    Ok(PooledBuffer { data: buffer, size, pooled: false })
                } else {
                    let buffer: Vec<u8> = vec![0u8; size];
                    self.total_buffers_created = self.total_buffers_created.saturating_add(1);
                    self.current_memory_usage = current + size;
                    self.update_peak_memory();
                    proof {
                        assert(self@ =~= acquire_pool(old(self)@, size as int));
                    }
                    Ok(PooledBuffer { data: buffer, size, pooled: true })
                }
            },
        }
    }

    /// Release a buffer back to the pool: it stops counting as active, and
    /// goes idle for reuse unless it was unpooled or the idle list is full.
    pub fn release(&mut self, buffer: PooledBuffer)
        requires
            old(self).wf(),
            buffer.wf(),
        ensures
            final(self).wf(),
            final(self)@ == release_pool(
                old(self)@,
                buffer.spec_size(),
                buffer@.len() as int,
                buffer.is_pooled(),
            ),
    {
        let PooledBuffer { data, size, pooled } = buffer;
        if !pooled {
            return;
        }
        self.current_memory_usage = self.current_memory_usage.saturating_sub(size);
        if self.idle.len() >= self.config.max_buffers {
            proof {
                assert(self@ =~= release_pool(
                    old(self)@,
                    buffer.spec_size(),
                    buffer@.len() as int,
                    buffer.is_pooled(),
                ));
            }
            return;
        }
        let ghost idle_before: Seq<IdleEntry> = self.idle@.map_values(|e: BufferEntry| e@);
        let entry = BufferEntry::new(data, size, self.clock_ms);
        self.idle.push(entry);
        proof {
            assert(self.idle@.map_values(|e: BufferEntry| e@) =~= idle_before.push(entry@));
            assert(self@ =~= release_pool(
                old(self)@,
                buffer.spec_size(),
                buffer@.len() as int,
                buffer.is_pooled(),
            ));
        }
    }

    /// Clear all idle buffers from the pool; active accounting is untouched.
    pub fn clear(&mut self)
        requires
            old(self).wf(),
        ensures
            final(self).wf(),
            final(self)@ == (PoolModel { idle: Seq::empty(), ..old(self)@ }),
    {
        self.idle.clear();
        proof {
            assert(self@ =~= (PoolModel { idle: Seq::empty(), ..old(self)@ }));
        }
    }

    /// Get a snapshot of the pool statistics.
    pub fn stats(&self) -> (s: PoolStats)
        ensures
            s.available_buffers == self@.idle.len(),
            s.total_buffers_created == self@.created,
            s.total_memory_allocated == sat_usize(pooled_memory_of(self@.idle) + self@.current),
            s.peak_memory_usage == self@.peak,
            s.memory_reuse_count == self@.reuse,
            s.current_memory_usage == self@.current,
            s.pooled_memory == pooled_memory_of(self@.idle),
            s.buffer_hits == self@.hits,
            s.buffer_misses == self@.misses,
    {
        let ghost idle_models: Seq<IdleEntry> = self.idle@.map_values(|e: BufferEntry| e@);
        let n: usize = self.idle.len();
        let mut pooled_memory: usize = 0;
        let mut k: usize = 0;
        while k < n
            invariant
                n == self.idle@.len(),
                k <= n,
                idle_models == self.idle@.map_values(|e: BufferEntry| e@),
                pooled_memory == pooled_memory_of(idle_models.take(k as int)),
            decreases n - k,
        {
            pooled_memory = pooled_memory.saturating_add(self.idle[k].size);
            proof {
                assert(idle_models.take(k + 1).drop_last() =~= idle_models.take(k as int));
                assert(idle_models.take(k + 1).last() == idle_models[k as int]);
            }
            k = k + 1;
        }
        proof {
            assert(idle_models.take(n as int) =~= idle_models);
        }
        PoolStats {
            available_buffers: n,
            total_buffers_created: self.total_buffers_created,
            total_memory_allocated: pooled_memory.saturating_add(self.current_memory_usage),
            peak_memory_usage: self.peak_memory_usage,
            memory_reuse_count: self.memory_reuse_count,
            current_memory_usage: self.current_memory_usage,
            pooled_memory,
            buffer_hits: self.buffer_hits,
            buffer_misses: self.buffer_misses,
        }
    }
}

proof fn lemma_find_match_some(idle: Seq<IdleEntry>, size: int, j: int)
    requires
        0 <= j < idle.len(),
        entry_matches(idle[j], size),
        forall|i: int| 0 <= i < j ==> !entry_matches(idle[i], size),
    ensures
        find_match(idle, size) == Some(j),
    decreases j,
{
    if j == 0 {
    } else {
        assert(!entry_matches(idle[0], size));
        assert(idle.drop_first()[j - 1] == idle[j]);
        assert(forall|i: int|
            0 <= i < j - 1 ==> idle.drop_first()[i] == idle[i + 1] && !entry_matches(
                idle[i + 1],
                size,
            ));
        lemma_find_match_some(idle.drop_first(), size, j - 1);
    }
}

proof fn lemma_find_match_none(idle: Seq<IdleEntry>, size: int)
    requires
        forall|i: int| 0 <= i < idle.len() ==> !entry_matches(idle[i], size),
    ensures
        find_match(idle, size) is None,
    decreases idle.len(),
{
    if idle.len() > 0 {
        assert(forall|i: int|
            0 <= i < idle.len() - 1 ==> idle.drop_first()[i] == idle[i + 1] && !entry_matches(
                idle[i + 1],
                size,
            ));
        lemma_find_match_none(idle.drop_first(), size);
    }
}

/// Reuse: on a pool with no idle buffers and nothing preallocated, acquiring
/// `n` bytes, releasing the buffer, and acquiring `n` again serves the second
/// request from the idle list: one buffer ever created, one reuse.
pub proof fn lemma_acquire_release_acquire_reuses(config: PoolConfig, n: int)
    requires
        !config.preallocate,
        0 < n <= config.max_memory,
        config.max_buffers >= 1,
    ensures
        ({
            let m0 = init_pool(config);
            let m1 = acquire_pool(m0, n);
            let m2 = release_pool(m1, n, n, acquire_is_pooled(m0, n));
            let m3 = acquire_pool(m2, n);
            &&& acquire_is_pooled(m0, n)
            &&& !acquire_is_hit(m0, n)
            &&& acquire_is_hit(m2, n)
            &&& m3.created == 1
            &&& m3.reuse == 1
            &&& m3.hits == 1
            &&& m3.misses == 1
        }),
{
    let m0 = init_pool(config);
    assert(m0.idle =~= Seq::<IdleEntry>::empty());
    assert(retain_fresh(m0.idle, m0.clock, m0.timeout_ms) =~= Seq::<IdleEntry>::empty());
    assert(find_match(cleanup_pool(m0).idle, n) is None);
    let m1 = acquire_pool(m0, n);
    assert(m1.created == 1 && m1.current == n && m1.idle =~= Seq::<IdleEntry>::empty());
    let m2 = release_pool(m1, n, n, true);
    let e = IdleEntry { size: n, cap: n, last_used: m1.clock };
    assert(m2.idle =~= seq![e]);
    assert(m2.current == 0);
    assert(m2.clock == 0);
    // The freshly released entry has age zero, so it survives cleanup.
    assert(!entry_expired(e, m2.clock, m2.timeout_ms));
    assert(m2.idle.drop_first() =~= Seq::<IdleEntry>::empty());
    assert(retain_fresh(m2.idle, m2.clock, m2.timeout_ms) =~= seq![e]);
    assert(entry_matches(e, n));
    assert(find_match(cleanup_pool(m2).idle, n) == Some(0int));
    let m3 = acquire_pool(m2, n);
    assert(m3.reuse == 1 && m3.hits == 1 && m3.created == 1 && m3.misses == 1);
}

/// Active-memory invariant: one full acquire/release cycle leaves the active
/// memory exactly where it started, for every starting state; since a fresh
/// pool starts at zero, a strictly sequential workload with no outstanding
/// buffers always reads `current_memory_usage == 0`.
pub proof fn lemma_acquire_release_preserves_active_memory(m: PoolModel, n: int, cap: int)
    requires
        0 <= m.current,
        0 < n,
        m.current + n <= usize::MAX,
    ensures
        release_pool(acquire_pool(m, n), n, cap, acquire_is_pooled(m, n)).current == m.current,
{
    let mc = cleanup_pool(m);
    let m1 = acquire_pool(m, n);
    if acquire_is_pooled(m, n) {
        assert(m1.current == m.current + n);
    } else {
        assert(m1.current == m.current);
    }
}

/// The size-bucket rule: on a pool whose single idle buffer is fresh, a
/// request is served from the pool exactly when the idle size is at least the
/// request and at most twice the request.
pub proof fn lemma_size_bucket_rule(m: PoolModel, n: int)
    requires
        m.idle.len() == 1,
        m.clock - m.idle[0].last_used <= m.timeout_ms,
        0 < n,
    ensures
        acquire_is_hit(m, n) <==> (m.idle[0].size >= n && m.idle[0].size <= 2 * n),
{
    let e = m.idle[0];
    assert(m.idle =~= seq![e]);
    assert(m.idle.drop_first() =~= Seq::<IdleEntry>::empty());
    assert(retain_fresh(Seq::<IdleEntry>::empty(), m.clock, m.timeout_ms)
        =~= Seq::<IdleEntry>::empty());
    assert(retain_fresh(m.idle, m.clock, m.timeout_ms) =~= seq![e]);
    assert(entry_matches(e, n) <==> (e.size >= n && e.size <= 2 * n));
    let fresh = retain_fresh(m.idle, m.clock, m.timeout_ms);
    assert(fresh[0] == e && fresh.len() == 1);
    if entry_matches(e, n) {
        assert(find_match(fresh, n) == Some(0int));
    } else {
        assert(fresh.drop_first() =~= Seq::<IdleEntry>::empty());
        assert(find_match(Seq::<IdleEntry>::empty(), n) is None);
        assert(find_match(fresh, n) is None);
    }
}

} // verus!
