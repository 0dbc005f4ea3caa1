//! The decisions of one cleanup run as a state machine. A driver asks for the
//! next command, performs it against storage or the filesystem, and hands the
//! answer back; the machine never performs I/O itself.
use vstd::prelude::*;

use crate::config::{CleanError, RetentionConfig};
use crate::cutoff::{compute_cutoff, cutoff_of};
use crate::files::{batch_targets, batch_tasks, tasks_match, FileRecord, FileTask};

verus! {

/// Where a run stands.
#[derive(Debug, Clone, Copy, PartialEq, Eq, Structural)]
pub enum Phase {
    /// Paging through expired metadata rows and handling their files.
    Sweep,
    /// Deleting the expired metadata rows in one statement.
    PurgeFileInfo,
    /// Deleting the expired posts in one statement.
    PurgePosts,
    /// Nothing left to do.
    Done,
    /// Stopped by an error of the machine's own.
    Halted(CleanError),
}

/// What the driver is to do next. Every command that touches storage carries the
/// run's single cutoff: rows with `createat < cutoff` are the expired ones.
#[derive(Debug, Clone, Copy, PartialEq, Eq, Structural)]
pub enum Command {
    /// Fetch the references of expired metadata rows, `limit` rows from `offset`.
    FetchBatch { cutoff: i64, offset: i64, limit: i64 },
    /// Delete every expired metadata row.
    DeleteFileInfo { cutoff: i64 },
    /// Dry run: report the metadata rows that would be deleted, change nothing.
    ReportFileInfo { cutoff: i64 },
    /// Delete every expired post.
    DeletePosts { cutoff: i64 },
    /// Dry run: report the posts that would be deleted, change nothing.
    ReportPosts { cutoff: i64 },
    /// The run is complete.
    Finish,
    /// The run stops with this error.
    Abort(CleanError),
}

/// A command that changes storage.
pub open spec fn mutates_storage(c: Command) -> bool {
    c is DeleteFileInfo || c is DeletePosts
}

/// The state of one run.
pub struct Cleaner {
    pub cutoff: i64,
    pub data_directory: String,
    pub batch_size: usize,
    pub remove_posts: bool,
    pub dry_run: bool,
    pub phase: Phase,
    /// Index of the next batch of the sweep.
    pub batch: usize,
}

/// The offset of batch `batch` when batches hold `batch_size` rows.
pub open spec fn offset_of(batch: int, batch_size: int) -> int {
    batch * batch_size
}

impl Cleaner {
    /// The limit and the offset of the next fetch fit the statement's `i64` parameters.
    pub open spec fn wf(&self) -> bool {
        &&& 0 < self.batch_size <= i64::MAX
        &&& offset_of(self.batch as int, self.batch_size as int) <= i64::MAX
    }

    /// The command that `next_command` returns in this state.
    pub open spec fn command(&self) -> Command {
        match self.phase {
            Phase::Sweep => Command::FetchBatch {
                cutoff: self.cutoff,
                offset: offset_of(self.batch as int, self.batch_size as int) as i64,
                limit: self.batch_size as i64,
            },
            Phase::PurgeFileInfo => if self.dry_run {
                Command::ReportFileInfo { cutoff: self.cutoff }
            } else {
                Command::DeleteFileInfo { cutoff: self.cutoff }
            },
            Phase::PurgePosts => if self.dry_run {
                Command::ReportPosts { cutoff: self.cutoff }
            } else {
                Command::DeletePosts { cutoff: self.cutoff }
            },
            Phase::Done => Command::Finish,
            Phase::Halted(e) => Command::Abort(e),
        }
    }

    /// Begins a run at `now_ms` (milliseconds since the Unix epoch): validates the
    /// configuration and fixes the cutoff for every phase of the run.
    pub fn start(config: &RetentionConfig, now_ms: i64) -> (r: Result<Cleaner, CleanError>)
        ensures
            !config.valid() <==> r == Err::<Cleaner, CleanError>(CleanError::InvalidInput),
            config.valid() && config.batch_size > i64::MAX ==> r == Err::<Cleaner, CleanError>(
                CleanError::PageOutOfRange,
            ),
            config.valid() && config.batch_size <= i64::MAX ==> {
                let c = cutoff_of(now_ms as int, config.retention_days as int);
                if i64::MIN <= c <= i64::MAX {
                    r is Ok
                } else {
                    r == Err::<Cleaner, CleanError>(CleanError::CutoffOutOfRange)
                }
            },
            r matches Ok(m) ==> {
                &&& m.wf()
                &&& m.cutoff == cutoff_of(now_ms as int, config.retention_days as int)
                &&& m.starts_from(config)
            },
    {
        match config.check() {
            Err(e) => Err(e),
            Ok(()) => {
                if config.batch_size as u64 > i64::MAX as u64 {
                    Err(CleanError::PageOutOfRange)
                } else {
                    match compute_cutoff(now_ms, config.retention_days) {
                        Err(e) => Err(e),
                        Ok(cutoff) => Ok(
                            Cleaner {
                                cutoff,
                                data_directory: config.data_directory.clone(),
                                batch_size: config.batch_size,
                                remove_posts: config.remove_posts,
                                dry_run: config.dry_run,
                                phase: Phase::Sweep,
                                batch: 0,
                            },
                        ),
                    }
                }
            },
        }
    }

    /// The state in which a run with `config` begins, whatever its cutoff.
    pub open spec fn starts_from(&self, config: &RetentionConfig) -> bool {
        &&& self.data_directory@ == config.data_directory@
        &&& self.batch_size == config.batch_size
        &&& self.remove_posts == config.remove_posts
        &&& self.dry_run == config.dry_run
        &&& self.phase == Phase::Sweep
        &&& self.batch == 0
    }
}

/// `later` has the settings and the cutoff of `earlier`: no step changes them.
pub open spec fn same_run(earlier: Cleaner, later: Cleaner) -> bool {
    &&& later.cutoff == earlier.cutoff
    &&& later.data_directory@ == earlier.data_directory@
    &&& later.batch_size == earlier.batch_size
    &&& later.remove_posts == earlier.remove_posts
    &&& later.dry_run == earlier.dry_run
}

/// The batch after `batch` can still be addressed.
pub open spec fn next_batch_fits(batch: int, batch_size: int) -> bool {
    &&& offset_of(batch + 1, batch_size) <= i64::MAX
    &&& batch + 1 <= usize::MAX
}

/// Phase and batch index after a fetch in the sweep at `batch` returned `len` rows:
/// a short batch ends the sweep, a full one moves on to the next batch.
pub open spec fn batch_step(batch: nat, batch_size: nat, len: nat) -> (Phase, nat) {
    if len < batch_size {
        (Phase::PurgeFileInfo, batch)
    } else if next_batch_fits(batch as int, batch_size as int) {
        (Phase::Sweep, batch + 1)
    } else {
        (Phase::Halted(CleanError::PageOutOfRange), batch)
    }
}

impl Cleaner {
    /// What the driver is to do next.
    pub fn next_command(&self) -> (r: Command)
        requires
            self.wf(),
        ensures
            r == self.command(),
    {
        match self.phase {
            Phase::Sweep => {
                let offset: u64 = self.batch as u64 * self.batch_size as u64;
                Command::FetchBatch {
                    cutoff: self.cutoff,
                    offset: offset as i64,
                    limit: self.batch_size as i64,
                }
            },
            Phase::PurgeFileInfo => if self.dry_run {
                Command::ReportFileInfo { cutoff: self.cutoff }
            } else {
                Command::DeleteFileInfo { cutoff: self.cutoff }
            },
            Phase::PurgePosts => if self.dry_run {
                Command::ReportPosts { cutoff: self.cutoff }
            } else {
                Command::DeletePosts { cutoff: self.cutoff }
            },
            Phase::Done => Command::Finish,
            Phase::Halted(e) => Command::Abort(e),
        }
    }

    /// Takes the rows that the last fetch returned and gives the file tasks for
    /// them. A batch shorter than the batch size ends the sweep; a full one moves
    /// on to the next batch.
    pub fn on_batch(&mut self, rows: &Vec<FileRecord>) -> (r: Vec<FileTask>)
        requires
            old(self).wf(),
            old(self).phase == Phase::Sweep,
            rows.len() <= old(self).batch_size,
        ensures
            tasks_match(r@, batch_targets(old(self).data_directory@, rows@), old(self).dry_run),
            final(self).wf(),
            same_run(*old(self), *final(self)),
            (final(self).phase, final(self).batch as nat) == batch_step(
                old(self).batch as nat,
                old(self).batch_size as nat,
                rows.len() as nat,
            ),
            rows.len() < old(self).batch_size ==> final(self).phase == Phase::PurgeFileInfo
                && final(self).batch == old(self).batch,
            rows.len() == old(self).batch_size ==> if next_batch_fits(
                old(self).batch as int,
                old(self).batch_size as int,
            ) {
                final(self).phase == Phase::Sweep && final(self).batch == old(self).batch + 1
            } else {
                final(self).phase == Phase::Halted(CleanError::PageOutOfRange) && final(self).batch
                    == old(self).batch
            },
    {
        let tasks = batch_tasks(self.data_directory.as_str(), rows, self.dry_run);
        if rows.len() < self.batch_size {
            self.phase = Phase::PurgeFileInfo;
        } else {
            let b = self.batch as u64;
            let size = self.batch_size as u64;
            let ghost off = offset_of(self.batch as int, self.batch_size as int);
            if b < i64::MAX as u64 && (self.batch as u64) < (usize::MAX as u64) && size <= i64::MAX as u64 - (b * size) {
                assert(offset_of(self.batch + 1, self.batch_size as int) == off + self.batch_size)
                    by (nonlinear_arith)
                    requires
                        off == offset_of(self.batch as int, self.batch_size as int),
                ;
                self.batch = self.batch + 1;
            } else {
                assert(!next_batch_fits(self.batch as int, self.batch_size as int))
                    by (nonlinear_arith)
                    requires
                        off == offset_of(self.batch as int, self.batch_size as int),
                        off <= i64::MAX,
                        self.batch_size >= 1,
                        !(b < i64::MAX && (self.batch as int) < usize::MAX && size <= i64::MAX - off),
                        b == self.batch,
                        size == self.batch_size,
                ;
                self.phase = Phase::Halted(CleanError::PageOutOfRange);
            }
        }
        tasks
    }

    /// Records that the purge statement (or its dry-run report) of the current
    /// phase is done.
    pub fn on_purged(&mut self)
        requires
            old(self).phase == Phase::PurgeFileInfo || old(self).phase == Phase::PurgePosts,
        ensures
            same_run(*old(self), *final(self)),
            final(self).batch == old(self).batch,
            final(self).phase == if old(self).phase == Phase::PurgeFileInfo && old(self).remove_posts {
                Phase::PurgePosts
            } else {
                Phase::Done
            },
            old(self).wf() ==> final(self).wf(),
    {
        if self.phase == Phase::PurgeFileInfo && self.remove_posts {
            self.phase = Phase::PurgePosts;
        } else {
            self.phase = Phase::Done;
        }
    }
}

} // verus!
