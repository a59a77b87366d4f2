//! Byte and file accounting of the model and cache directories: an explicit
//! stack-based walk whose stack and running totals live here, while the
//! caller pops directories and reports what it finds in each.

use vstd::prelude::*;
use crate::progress::{sat_add, sat_add_u64};

verus! {

/// One directory walk in progress: the directories still to visit and the
/// totals over every file seen so far.
pub struct DirWalk {
    pub stack: Vec<String>,
    pub total_bytes: u64,
    pub total_files: u64,
}

impl DirWalk {
    /// Starts a walk at one root directory.
    pub fn start(root: &str) -> (r: Self)
        ensures
            r.stack.deep_view() == seq![root@],
            r.total_bytes == 0,
            r.total_files == 0,
    {
        let mut stack: Vec<String> = Vec::new();
        stack.push(root.to_owned());
        proof {
            assert(stack.deep_view() =~= seq![root@]);
        }
        DirWalk { stack, total_bytes: 0, total_files: 0 }
    }

    /// The next directory to visit, if any; the walk ends when the stack is
    /// empty.
    pub fn pop_dir(&mut self) -> (r: Option<String>)
        ensures
            final(self).total_bytes == old(self).total_bytes,
            final(self).total_files == old(self).total_files,
            old(self).stack@.len() == 0 ==> r is None && final(self).stack@ == old(self).stack@,
            old(self).stack@.len() > 0 ==> (r matches Option::Some(d) && d@ == old(
                self,
            ).stack.deep_view().last() && final(self).stack.deep_view() == old(
                self,
            ).stack.deep_view().drop_last()),
    {
        let ghost pre = self.stack.deep_view();
        let r = self.stack.pop();
        proof {
            if pre.len() > 0 {
                assert(self.stack.deep_view() =~= pre.drop_last());
            }
        }
        r
    }

    /// Accounts one file of the directory being visited.
    pub fn record_file(&mut self, size: u64)
        ensures
            final(self).stack == old(self).stack,
            final(self).total_bytes == sat_add_u64(old(self).total_bytes, size),
            final(self).total_files == sat_add_u64(old(self).total_files, 1),
    {
        self.total_bytes = sat_add(self.total_bytes, size);
        self.total_files = sat_add(self.total_files, 1);
    }

    /// Schedules one subdirectory of the directory being visited.
    pub fn record_subdir(&mut self, path: &str)
        ensures
            final(self).total_bytes == old(self).total_bytes,
            final(self).total_files == old(self).total_files,
            final(self).stack.deep_view() == old(self).stack.deep_view().push(path@),
    {
        let ghost pre = self.stack.deep_view();
        self.stack.push(path.to_owned());
        proof {
            assert(self.stack.deep_view() =~= pre.push(path@));
        }
    }

    /// The totals once the stack is empty.
    pub fn totals(&self) -> (r: (u64, u64))
        ensures
            r.0 == self.total_bytes,
            r.1 == self.total_files,
    {
        (self.total_bytes, self.total_files)
    }
}

/// What `cache_stats` reports: totals for the model and cache directories and
/// where the two directories are.
pub struct CacheStatsReport {
    pub model_bytes: u64,
    pub model_files: u64,
    pub cache_bytes: u64,
    pub cache_files: u64,
    pub model_dir: String,
    pub cache_dir: String,
}

/// Combines the two directory walks into the report.
pub fn cache_stats_report(
    model_walk: &DirWalk,
    cache_walk: &DirWalk,
    model_dir: &str,
    cache_dir: &str,
) -> (r: CacheStatsReport)
    ensures
        r.model_bytes == model_walk.total_bytes,
        r.model_files == model_walk.total_files,
        r.cache_bytes == cache_walk.total_bytes,
        r.cache_files == cache_walk.total_files,
        r.model_dir@ == model_dir@,
        r.cache_dir@ == cache_dir@,
{
    CacheStatsReport {
        model_bytes: model_walk.total_bytes,
        model_files: model_walk.total_files,
        cache_bytes: cache_walk.total_bytes,
        cache_files: cache_walk.total_files,
        model_dir: model_dir.to_owned(),
        cache_dir: cache_dir.to_owned(),
    }
}

} // verus!
