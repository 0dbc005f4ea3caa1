//! File references of a metadata row, and what the sweep does with each of them.
use vstd::prelude::*;

verus! {

/// The three file references of one metadata row, relative to the data directory.
/// An empty reference means that the row has no such file.
pub struct FileRecord {
    pub path: String,
    pub thumbnail_path: String,
    pub preview_path: String,
}

/// What the platform's path joining makes of `file` resolved against `base`.
pub uninterp spec fn joined(base: Seq<char>, file: Seq<char>) -> Seq<char>;

/// Relies on `std::path::Path::join`: resolves `file` against `base`. Both are
/// UTF-8, so turning the joined path back into a `String` loses nothing.
#[verifier::external_body]
fn join_path(base: &str, file: &str) -> (r: String)
    ensures
        r@ == joined(base@, file@),
{
    std::path::Path::new(base).join(file).to_string_lossy().into_owned()
}

/// The target for one reference: none when it is empty.
pub open spec fn target_of(base: Seq<char>, file: Seq<char>) -> Seq<Seq<char>> {
    if file.len() == 0 {
        seq![]
    } else {
        seq![joined(base, file)]
    }
}

impl FileRecord {
    /// The files to remove for this row, in the order path, thumbnail, preview.
    pub open spec fn targets(&self, base: Seq<char>) -> Seq<Seq<char>> {
        target_of(base, self.path@) + target_of(base, self.thumbnail_path@) + target_of(
            base,
            self.preview_path@,
        )
    }
}

/// The files to remove for a sequence of rows, row after row.
pub open spec fn batch_targets(base: Seq<char>, rows: Seq<FileRecord>) -> Seq<Seq<char>>
    decreases rows.len(),
{
    if rows.len() == 0 {
        seq![]
    } else {
        batch_targets(base, rows.drop_last()) + rows.last().targets(base)
    }
}

/// One file of the sweep: removed in a real run, reported in a dry run.
#[derive(Debug)]
pub enum FileTask {
    Remove(String),
    Report(String),
}

/// What is done with one file once it is known whether it exists.
#[derive(Debug, Clone, Copy, PartialEq, Eq, Structural)]
pub enum FileStep {
    /// The file exists and is removed; a failure to remove it stops the sweep.
    Delete,
    /// The file is absent: nothing to do, and no error.
    AlreadyGone,
    /// Dry run: the file is only reported.
    WouldDelete,
}

impl FileTask {
    /// The full path that the task is about.
    pub open spec fn target(&self) -> Seq<char> {
        match self {
            FileTask::Remove(p) => p@,
            FileTask::Report(p) => p@,
        }
    }

    /// The full path that the task is about.
    pub fn path(&self) -> (r: &String)
        ensures
            r@ == self.target(),
    {
        match self {
            FileTask::Remove(p) => p,
            FileTask::Report(p) => p,
        }
    }

    /// Decides what to do with the task's file, given whether it exists.
    pub fn step(&self, exists: bool) -> (r: FileStep)
        ensures
            r == step_of(*self, exists),
    {
        match self {
            FileTask::Remove(_) => if exists {
                FileStep::Delete
            } else {
                FileStep::AlreadyGone
            },
            FileTask::Report(_) => FileStep::WouldDelete,
        }
    }
}

/// A removal happens only for an existing file of a real run; an absent file is
/// a no-op, and a dry run touches nothing.
pub open spec fn step_of(task: FileTask, exists: bool) -> FileStep {
    match task {
        FileTask::Remove(_) => if exists {
            FileStep::Delete
        } else {
            FileStep::AlreadyGone
        },
        FileTask::Report(_) => FileStep::WouldDelete,
    }
}

/// The tasks that `batch_tasks` owes for `targets`: one per target, in order,
/// reports in a dry run and removals otherwise.
pub open spec fn tasks_match(tasks: Seq<FileTask>, targets: Seq<Seq<char>>, dry_run: bool) -> bool {
    &&& tasks.len() == targets.len()
    &&& forall|i: int|
        0 <= i < tasks.len() ==> {
            &&& (#[trigger] tasks[i]).target() == targets[i]
            &&& (tasks[i] is Report <==> dry_run)
        }
}

fn push_target(
    tasks: &mut Vec<FileTask>,
    base: &str,
    file: &str,
    dry_run: bool,
    Ghost(done): Ghost<Seq<Seq<char>>>,
)
    requires
        tasks_match(old(tasks)@, done, dry_run),
    ensures
        tasks_match(final(tasks)@, done + target_of(base@, file@), dry_run),
{
    if !file.is_empty() {
        let full = join_path(base, file);
        if dry_run {
            tasks.push(FileTask::Report(full));
        } else {
            tasks.push(FileTask::Remove(full));
        }
        let ghost all = done + target_of(base@, file@);
        assert forall|i: int| 0 <= i < tasks@.len() implies {
            &&& (#[trigger] tasks@[i]).target() == all[i]
            &&& (tasks@[i] is Report <==> dry_run)
        } by {
            if i < done.len() {
                assert(tasks@[i] == old(tasks)@[i]);
            }
        }
    } else {
        assert(done + target_of(base@, file@) =~= done);
    }
}

/// The tasks for a batch of rows: one per non-empty reference, row after row,
/// each resolved against `base`; reports in a dry run, removals otherwise.
pub fn batch_tasks(base: &str, rows: &Vec<FileRecord>, dry_run: bool) -> (r: Vec<FileTask>)
    ensures
        tasks_match(r@, batch_targets(base@, rows@), dry_run),
{
    let mut out: Vec<FileTask> = Vec::new();
    let mut i: usize = 0;
    while i < rows.len()
        invariant
            0 <= i <= rows.len(),
            tasks_match(out@, batch_targets(base@, rows@.take(i as int)), dry_run),
        decreases rows.len() - i,
    {
        let row = &rows[i];
        let ghost before = batch_targets(base@, rows@.take(i as int));
        proof {
            assert(rows@.take(i + 1).drop_last() =~= rows@.take(i as int));
            assert(rows@.take(i + 1).last() == rows@[i as int]);
        }
        push_target(&mut out, base, row.path.as_str(), dry_run, Ghost(before));
        let ghost t1 = before + target_of(base@, row.path@);
        push_target(&mut out, base, row.thumbnail_path.as_str(), dry_run, Ghost(t1));
        let ghost t2 = t1 + target_of(base@, row.thumbnail_path@);
        push_target(&mut out, base, row.preview_path.as_str(), dry_run, Ghost(t2));
        proof {
            assert(t2 + target_of(base@, row.preview_path@) =~= batch_targets(
                base@,
                rows@.take(i + 1),
            ));
        }
        i += 1;
    }
    assert(rows@.take(rows.len() as int) =~= rows@);
    out
}

} // verus!
