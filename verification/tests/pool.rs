//! Tests for the memory pool: reuse, size buckets, the active-memory
//! invariant, the cap fallback, and expiry.

use webp_screenshot::{MemoryPool, PoolConfig};

#[test]
fn test_pool_acquire_release() {
    let mut pool = MemoryPool::new();
    let buffer = pool.acquire(1024).unwrap();
    assert_eq!(buffer.size(), 1024);
    pool.release(buffer);

    let stats = pool.stats();
    assert_eq!(stats.available_buffers, 1);
}

#[test]
fn test_pool_reuse() {
    let mut pool = MemoryPool::new();

    let buffer1 = pool.acquire(1024).unwrap();
    pool.release(buffer1);

    let buffer2 = pool.acquire(1024).unwrap();
    pool.release(buffer2);

    let stats = pool.stats();
    assert_eq!(stats.memory_reuse_count, 1);
    assert_eq!(stats.total_buffers_created, 1);
}

#[test]
fn test_pool_size_matching() {
    let mut pool = MemoryPool::new();

    let buffer1 = pool.acquire(1024).unwrap();
    pool.release(buffer1);

    // Should reuse the 1024 buffer for a 512 request.
    let buffer2 = pool.acquire(512).unwrap();
    pool.release(buffer2);

    let stats = pool.stats();
    assert_eq!(stats.memory_reuse_count, 1);
}

#[test]
fn test_pool_size_bucket_upper_bound() {
    // A freed 1024-byte buffer serves 512 (1024 <= 2*512) but not 2048.
    let mut pool = MemoryPool::new();
    let buffer = pool.acquire(1024).unwrap();
    pool.release(buffer);

    let big = pool.acquire(2048).unwrap();
    let stats = pool.stats();
    assert_eq!(stats.memory_reuse_count, 0);
    assert_eq!(stats.total_buffers_created, 2);
    assert_eq!(stats.buffer_misses, 2);
    pool.release(big);
}

#[test]
fn test_pool_active_memory_invariant() {
    // After a strictly sequential acquire/release cycle with no outstanding
    // buffers, active memory is zero while idle memory may stay positive.
    let mut pool = MemoryPool::new();
    let a = pool.acquire(4096).unwrap();
    pool.release(a);
    let b = pool.acquire(2048).unwrap();
    pool.release(b);
    let c = pool.acquire(100).unwrap();
    pool.release(c);

    let stats = pool.stats();
    assert_eq!(stats.current_memory_usage, 0);
    assert!(stats.pooled_memory > 0);
}

#[test]
fn test_pool_cap_fallback() {
    // With a 2048-byte cap, acquiring 2000 twice without releasing the first
    // still succeeds: the second buffer is unpooled, never an error.
    let config = PoolConfig {
        max_memory: 2048,
        ..PoolConfig::default()
    };
    let mut pool = MemoryPool::with_config(config);

    let first = pool.acquire(2000).unwrap();
    let second = pool.acquire(2000).unwrap();
    assert_eq!(first.size(), 2000);
    assert_eq!(second.size(), 2000);

    let stats = pool.stats();
    // Only the first allocation is tracked; the second bypassed the pool.
    assert_eq!(stats.current_memory_usage, 2000);
    assert_eq!(stats.total_buffers_created, 1);
    assert_eq!(stats.buffer_misses, 2);

    pool.release(first);
    pool.release(second);
    assert_eq!(pool.stats().current_memory_usage, 0);
    // The unpooled buffer never enters the idle list.
    assert_eq!(pool.stats().available_buffers, 1);
}

#[test]
fn test_pool_zero_size_rejected() {
    let mut pool = MemoryPool::new();
    let result = pool.acquire(0);
    assert!(result.is_err());
    assert_eq!(result.err().unwrap().message(), "Invalid buffer size: 0");
}

#[test]
fn test_pool_expiry_on_logical_clock() {
    // An idle buffer older than the timeout is expired on the next acquire.
    let config = PoolConfig {
        buffer_timeout_ms: 60000,
        ..PoolConfig::default()
    };
    let mut pool = MemoryPool::with_config(config);
    let buffer = pool.acquire(1024).unwrap();
    pool.release(buffer);
    assert_eq!(pool.stats().available_buffers, 1);

    pool.advance_clock(60001);
    let again = pool.acquire(1024).unwrap();
    let stats = pool.stats();
    assert_eq!(stats.memory_reuse_count, 0);
    assert_eq!(stats.total_buffers_created, 2);
    pool.release(again);
}

#[test]
fn test_pool_survives_within_timeout() {
    let mut pool = MemoryPool::new();
    let buffer = pool.acquire(1024).unwrap();
    pool.release(buffer);

    pool.advance_clock(59999);
    let again = pool.acquire(1024).unwrap();
    assert_eq!(pool.stats().memory_reuse_count, 1);
    pool.release(again);
}

#[test]
fn test_pool_into_vec_detaches() {
    let mut pool = MemoryPool::new();
    let buffer = pool.acquire(256).unwrap();
    assert_eq!(pool.stats().current_memory_usage, 256);

    let bytes = buffer.into_vec(&mut pool);
    assert_eq!(bytes.len(), 256);
    // Detaching decrements active accounting and never goes idle.
    assert_eq!(pool.stats().current_memory_usage, 0);
    assert_eq!(pool.stats().available_buffers, 0);
}

#[test]
fn test_pool_clear_and_max_buffers() {
    let config = PoolConfig {
        max_buffers: 2,
        ..PoolConfig::default()
    };
    let mut pool = MemoryPool::with_config(config);
    let a = pool.acquire(100).unwrap();
    let b = pool.acquire(300).unwrap();
    let c = pool.acquire(900).unwrap();
    pool.release(a);
    pool.release(b);
    pool.release(c); // idle list is full: this one is freed instead
    assert_eq!(pool.stats().available_buffers, 2);
    assert_eq!(pool.stats().pooled_memory, 400);

    pool.clear();
    let stats = pool.stats();
    assert_eq!(stats.available_buffers, 0);
    assert_eq!(stats.pooled_memory, 0);
    assert_eq!(stats.current_memory_usage, 0);
}

#[test]
fn test_pool_preallocation() {
    let config = PoolConfig {
        preallocate: true,
        default_buffer_size: 512,
        ..PoolConfig::default()
    };
    let pool = MemoryPool::with_config(config);
    let stats = pool.stats();
    assert_eq!(stats.available_buffers, 4);
    assert_eq!(stats.total_buffers_created, 4);
    assert_eq!(stats.pooled_memory, 2048);
    assert_eq!(stats.current_memory_usage, 0);
}

#[test]
fn test_pool_buffer_data_access() {
    let mut pool = MemoryPool::new();
    let mut buffer = pool.acquire(8).unwrap();
    // A fresh allocation is zeroed.
    assert_eq!(buffer.data(), &vec![0u8; 8]);
    buffer.data_mut()[0] = 42;
    assert_eq!(buffer.data()[0], 42);
    pool.release(buffer);

    // The reused buffer keeps its previous contents.
    let again = pool.acquire(8).unwrap();
    assert_eq!(again.data()[0], 42);
    assert_eq!(pool.stats().buffer_hits, 1);
    pool.release(again);
}

#[test]
fn test_pool_first_fit_scan_order() {
    // The scan is first-fit in insertion order, not best-fit.
    let mut pool = MemoryPool::new();
    let a = pool.acquire(1000).unwrap();
    let b = pool.acquire(600).unwrap();
    pool.release(a); // idle: [1000, 600]
    pool.release(b);

    // 512 matches both (<= 2x); first-fit picks the 1000-byte one.
    let got = pool.acquire(512).unwrap();
    assert_eq!(pool.stats().available_buffers, 1);
    assert_eq!(pool.stats().pooled_memory, 600);
    pool.release(got);
}
