//! Configuration of the storage layers.
use std::time::Duration;

use vstd::prelude::*;

verus! {

/// Configuration for storage layers.
#[derive(Debug)]
pub struct StorageConfig {
    /// Maximum number of retry attempts for transient errors.
    pub max_retries: usize,
    /// Minimum delay between retries.
    pub retry_min_delay: Duration,
    /// Maximum delay between retries.
    pub retry_max_delay: Duration,
    /// Timeout for non-IO operations (stat, delete, etc.).
    pub timeout: Duration,
    /// Timeout for IO operations (read, write).
    pub io_timeout: Duration,
    /// Maximum concurrent requests.
    pub max_concurrent: usize,
    /// Bandwidth limit in bytes per second (0 = unlimited).
    pub bandwidth_limit: u32,
    /// Use atomic file writes with fsync (write to temp file, fsync, then rename).
    /// When false, files are written directly, for better performance.
    pub atomic_file_writes: bool,
}

impl StorageConfig {
    /// Creates a new `StorageConfig` with explicit values.
    #[must_use]
    pub fn new(
        max_retries: usize,
        retry_min_delay: Duration,
        retry_max_delay: Duration,
        max_concurrent: usize,
        timeout: Duration,
        io_timeout: Duration,
        bandwidth_limit: u32,
        atomic_file_writes: bool,
    ) -> (config: Self)
        ensures
            config == (Self {
                max_retries,
                retry_min_delay,
                retry_max_delay,
                timeout,
                io_timeout,
                max_concurrent,
                bandwidth_limit,
                atomic_file_writes,
            }),
    {
        Self {
            max_retries,
            retry_min_delay,
            retry_max_delay,
            timeout,
            io_timeout,
            max_concurrent,
            bandwidth_limit,
            atomic_file_writes,
        }
    }
}

impl Clone for StorageConfig {
    fn clone(&self) -> (config: Self)
        ensures
            config == *self,
    {
        Self {
            max_retries: self.max_retries,
            retry_min_delay: self.retry_min_delay,
            retry_max_delay: self.retry_max_delay,
            timeout: self.timeout,
            io_timeout: self.io_timeout,
            max_concurrent: self.max_concurrent,
            bandwidth_limit: self.bandwidth_limit,
            atomic_file_writes: self.atomic_file_writes,
        }
    }
}

} // verus!
