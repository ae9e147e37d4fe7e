//! Progress snapshots and the shared counters they are read from.

use vstd::prelude::*;
use vstd::wrapping::u64_specs::{wrapping_add, wrapping_sub};

verus! {

/// One reading of the progress counters of a batch.
#[derive(Debug, Clone, Copy, PartialEq, Eq, Structural)]
pub struct Progress {
    /// Number of descriptors in the batch.
    pub total_count: u64,
    /// Number of descriptors completed so far.
    pub current_count: u64,
    /// Bytes the batch is expected to move, as far as known.
    pub total_size: u64,
    /// Bytes accounted as done so far.
    pub current_size: u64,
}

impl Default for Progress {
    fn default() -> (progress: Self)
        ensures
            progress == (Progress {
                total_count: 0,
                current_count: 0,
                total_size: 0,
                current_size: 0,
            }),
    {
        Progress { total_count: 0, current_count: 0, total_size: 0, current_size: 0 }
    }
}

impl Progress {
    /// The snapshot with every counter at zero.
    pub fn new() -> (progress: Self)
        ensures
            progress == (Progress {
                total_count: 0,
                current_count: 0,
                total_size: 0,
                current_size: 0,
            }),
    {
        Progress { total_count: 0, current_count: 0, total_size: 0, current_size: 0 }
    }
}

/// The four counters of one batch. Each update is a single fetch-and-add or
/// fetch-and-sub on one counter and wraps around at `u64::MAX`, as an atomic
/// counter does.
pub struct Aggregator {
    files_completed: u64,
    files_total: u64,
    bytes_completed: u64,
    bytes_total: u64,
}

impl View for Aggregator {
    type V = Progress;

    closed spec fn view(&self) -> Progress {
        Progress {
            total_count: self.files_total,
            current_count: self.files_completed,
            total_size: self.bytes_total,
            current_size: self.bytes_completed,
        }
    }
}

impl Aggregator {
    /// Counters for a batch of `files_total` descriptors whose declared sizes
    /// add up to `bytes_total`; nothing is completed yet.
    pub fn new(files_total: u64, bytes_total: u64) -> (counters: Self)
        ensures
            counters@ == (Progress {
                total_count: files_total,
                current_count: 0,
                total_size: bytes_total,
                current_size: 0,
            }),
    {
        Aggregator { files_completed: 0, files_total, bytes_completed: 0, bytes_total }
    }

    /// The current reading of all four counters.
    pub fn snapshot(&self) -> (progress: Progress)
        ensures
            progress == self@,
    {
        Progress {
            total_count: self.files_total,
            current_count: self.files_completed,
            total_size: self.bytes_total,
            current_size: self.bytes_completed,
        }
    }

    /// Adds `amount` to the bytes done.
    pub fn add_bytes_completed(&mut self, amount: u64)
        ensures
            final(self)@ == (Progress {
                current_size: wrapping_add(old(self)@.current_size, amount),
                ..old(self)@
            }),
    {
        self.bytes_completed = self.bytes_completed.wrapping_add(amount);
    }

    /// Takes `amount` back out of the bytes done.
    pub fn sub_bytes_completed(&mut self, amount: u64)
        ensures
            final(self)@ == (Progress {
                current_size: wrapping_sub(old(self)@.current_size, amount),
                ..old(self)@
            }),
    {
        self.bytes_completed = self.bytes_completed.wrapping_sub(amount);
    }

    /// Raises the expected total by `amount`.
    pub fn add_bytes_total(&mut self, amount: u64)
        ensures
            final(self)@ == (Progress {
                total_size: wrapping_add(old(self)@.total_size, amount),
                ..old(self)@
            }),
    {
        self.bytes_total = self.bytes_total.wrapping_add(amount);
    }

    /// Counts one more descriptor as completed.
    pub fn add_file_completed(&mut self)
        ensures
            final(self)@ == (Progress {
                current_count: wrapping_add(old(self)@.current_count, 1),
                ..old(self)@
            }),
    {
        self.files_completed = self.files_completed.wrapping_add(1);
    }
}

} // verus!
