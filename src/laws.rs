//! Properties of a run that span several steps or functions.
use vstd::prelude::*;

use vstd::arithmetic::div_mod::{
    lemma_div_plus_one, lemma_fundamental_div_mod, lemma_fundamental_div_mod_converse,
};

use crate::cleaner::{batch_step, mutates_storage, same_run, Cleaner, Command, Phase};
use crate::cutoff::{cutoff_of, expired};
use crate::files::{batch_targets, step_of, tasks_match, FileRecord, FileStep, FileTask};

verus! {

/// How many rows a fetch returns from `matching` expired rows, when it asks for
/// `limit` rows from `offset` and nobody else writes meanwhile.
pub open spec fn window_len(matching: nat, offset: nat, limit: nat) -> nat {
    if offset >= matching {
        0
    } else if matching - offset < limit {
        (matching - offset) as nat
    } else {
        limit
    }
}

/// The sizes of the successive fetches of a sweep over `remaining` expired rows
/// with batches of `batch_size`: full batches until one comes back short.
pub open spec fn sweep_sizes(remaining: nat, batch_size: nat) -> Seq<nat>
    decreases remaining,
{
    if batch_size == 0 {
        seq![]
    } else if remaining < batch_size {
        seq![remaining]
    } else {
        seq![batch_size] + sweep_sizes((remaining - batch_size) as nat, batch_size)
    }
}

/// A sweep over `n` expired rows with batches of `b` rows fetches `n / b + 1`
/// times; every fetch but the last is full, the last returns fewer than `b` rows,
/// and fetch `k` is the window at offset `k * b`. When `b` does not divide `n`
/// that is exactly `ceil(n / b)` fetches.
pub proof fn lemma_sweep_fetch_count(n: nat, b: nat)
    requires
        b > 0,
    ensures
        sweep_sizes(n, b).len() == n / b + 1,
        sweep_sizes(n, b).last() < b,
        forall|k: int| 0 <= k < sweep_sizes(n, b).len() - 1 ==> #[trigger] sweep_sizes(n, b)[k] == b,
        forall|k: int|
            0 <= k < sweep_sizes(n, b).len() ==> #[trigger] sweep_sizes(n, b)[k] == window_len(
                n,
                (k * b) as nat,
                b,
            ),
        n % b != 0 ==> sweep_sizes(n, b).len() == (n + b - 1) as int / b as int,
    decreases n,
{
    if n < b {
        lemma_fundamental_div_mod_converse(n as int, b as int, 0, n as int);
        if n % b != 0 {
            lemma_fundamental_div_mod_converse((n + b - 1) as int, b as int, 1, (n - 1) as int);
        }
        assert forall|k: int| 0 <= k < sweep_sizes(n, b).len() implies #[trigger] sweep_sizes(n, b)[k]
            == window_len(n, (k * b) as nat, b) by {
            assert(k == 0);
        }
    } else {
        let m = (n - b) as nat;
        lemma_sweep_fetch_count(m, b);
        lemma_div_plus_one(m as int, b as int);
        assert(b + m == n);
        let s = sweep_sizes(n, b);
        assert(s == seq![b] + sweep_sizes(m, b));
        assert forall|k: int| 0 <= k < s.len() implies #[trigger] s[k] == window_len(
            n,
            (k * b) as nat,
            b,
        ) by {
            if k > 0 {
                assert(s[k] == sweep_sizes(m, b)[k - 1]);
                assert((k - 1) * b == k * b - b) by (nonlinear_arith);
                assert(k * b >= b) by (nonlinear_arith)
                    requires
                        k >= 1,
                        b > 0,
                ;
            }
        }
        assert forall|k: int| 0 <= k < s.len() - 1 implies #[trigger] s[k] == b by {
            if k > 0 {
                assert(s[k] == sweep_sizes(m, b)[k - 1]);
            }
        }
        assert(m == (m / b) * b + m % b) by (nonlinear_arith)
            requires
                b > 0,
        ;
        assert(n == (m / b + 1) * b + m % b) by (nonlinear_arith)
            requires
                m == (m / b) * b + m % b,
                n == m + b,
        ;
        lemma_fundamental_div_mod_converse(n as int, b as int, (m / b + 1) as int, (m % b) as int);
        if n % b != 0 {
            lemma_div_plus_one((m + b - 1) as int, b as int);
            assert(b + (m + b - 1) == n + b - 1);
        }
    }
}

/// Phase and batch index of a machine that began its sweep at batch 0, after `k`
/// fetches, when each fetch returns the window that `n` expired rows give
/// (`on_batch` moves the machine by `batch_step`).
pub open spec fn sweep_after(batch_size: nat, n: nat, k: nat) -> (Phase, nat)
    decreases k,
{
    if k == 0 {
        (Phase::Sweep, 0)
    } else {
        let (p, b) = sweep_after(batch_size, n, (k - 1) as nat);
        if p == Phase::Sweep {
            batch_step(b, batch_size, window_len(n, b * batch_size, batch_size))
        } else {
            (p, b)
        }
    }
}

proof fn lemma_sweep_after_full(batch_size: nat, n: nat, k: nat)
    requires
        batch_size > 0,
        k <= n / batch_size,
        n <= i64::MAX,
        n < usize::MAX,
    ensures
        sweep_after(batch_size, n, k) == (Phase::Sweep, k),
    decreases k,
{
    if k > 0 {
        let j = (k - 1) as nat;
        lemma_sweep_after_full(batch_size, n, j);
        lemma_fundamental_div_mod(n as int, batch_size as int);
        let q = n / batch_size;
        assert(k * batch_size <= q * batch_size) by (nonlinear_arith)
            requires
                k <= q,
        ;
        assert(j * batch_size + batch_size == k * batch_size) by (nonlinear_arith)
            requires
                j + 1 == k,
        ;
        assert(q * batch_size <= n) by (nonlinear_arith)
            requires
                n == batch_size * q + n % batch_size,
                n % batch_size >= 0,
        ;
        assert(q <= n) by (nonlinear_arith)
            requires
                batch_size >= 1,
                q * batch_size <= n,
        ;
    }
}

/// Fed the windows of `n` expired rows, a machine that begins its sweep at batch
/// 0 with batches of `b` rows fetches `n / b + 1` times and then leaves the
/// sweep for the metadata purge: it stays in the sweep after each of the first
/// `n / b` fetches, and after the next one it purges. When `b` does not divide
/// `n` that is `ceil(n / b)` fetches.
pub proof fn lemma_machine_sweep_ends(b: nat, n: nat)
    requires
        b > 0,
        n + b <= i64::MAX,
        n < usize::MAX,
    ensures
        forall|k: nat| k <= n / b ==> #[trigger] sweep_after(b, n, k) == (Phase::Sweep, k),
        sweep_after(b, n, n / b + 1) == (Phase::PurgeFileInfo, n / b),
        sweep_sizes(n, b).len() == n / b + 1,
        n % b != 0 ==> n / b + 1 == (n + b - 1) as int / b as int,
{
    assert forall|k: nat| k <= n / b implies #[trigger] sweep_after(b, n, k) == (Phase::Sweep, k) by {
        lemma_sweep_after_full(b, n, k);
    }
    let q = n / b;
    lemma_sweep_after_full(b, n, q);
    lemma_fundamental_div_mod(n as int, b as int);
    let qi = n as int / b as int;
    let ri = n as int % b as int;
    assert(n as int == b as int * qi + ri);
    assert(q == qi && n % b == ri);
    assert(qi * b == n - ri) by (nonlinear_arith)
        requires
            n as int == b as int * qi + ri,
    ;
    assert(window_len(n, q * b, b) == n % b);
    lemma_sweep_fetch_count(n, b);
}

/// A dry run never issues a statement that changes storage, and each of its file
/// tasks leaves the filesystem alone whatever is on disk.
pub proof fn lemma_dry_run_changes_nothing(m: Cleaner, rows: Seq<FileRecord>, tasks: Seq<FileTask>)
    requires
        m.dry_run,
        tasks_match(tasks, batch_targets(m.data_directory@, rows), true),
    ensures
        !mutates_storage(m.command()),
        forall|i: int, exists: bool|
            0 <= i < tasks.len() ==> #[trigger] step_of(tasks[i], exists) == FileStep::WouldDelete,
{
    assert forall|i: int, exists: bool| 0 <= i < tasks.len() implies #[trigger] step_of(
        tasks[i],
        exists,
    ) == FileStep::WouldDelete by {
        assert(tasks[i] is Report);
    }
}

/// A dry run walks the run that a live run with the same settings walks: the
/// same fetches, the same phases, and one report for each file that the live
/// run would try to remove, in the same order.
pub proof fn lemma_dry_run_mirrors_real_run(
    dry: Cleaner,
    live: Cleaner,
    rows: Seq<FileRecord>,
    reports: Seq<FileTask>,
    removals: Seq<FileTask>,
)
    requires
        dry.dry_run,
        !live.dry_run,
        dry.cutoff == live.cutoff,
        dry.data_directory@ == live.data_directory@,
        dry.batch_size == live.batch_size,
        dry.remove_posts == live.remove_posts,
        dry.phase == live.phase,
        dry.batch == live.batch,
        tasks_match(reports, batch_targets(dry.data_directory@, rows), true),
        tasks_match(removals, batch_targets(live.data_directory@, rows), false),
    ensures
        dry.phase == Phase::Sweep ==> dry.command() == live.command(),
        live.command() is DeleteFileInfo ==> dry.command() == (Command::ReportFileInfo {
            cutoff: live.cutoff,
        }),
        live.command() is DeletePosts ==> dry.command() == (Command::ReportPosts {
            cutoff: live.cutoff,
        }),
        reports.len() == removals.len(),
        forall|i: int|
            0 <= i < reports.len() ==> (#[trigger] reports[i]).target() == removals[i].target()
                && reports[i] is Report && removals[i] is Remove,
{
}

/// The live sweep's effect on the set of files on disk: every file that a removal
/// task names is gone afterwards.
pub open spec fn after_sweep(present: Set<Seq<char>>, tasks: Seq<FileTask>) -> Set<Seq<char>> {
    present.filter(
        |p: Seq<char>| !(exists|i: int| 0 <= i < tasks.len() && tasks[i] is Remove && #[trigger] tasks[i].target() == p),
    )
}

/// Sweeping the same rows again after a live sweep removes nothing and fails on
/// nothing: each file it names is already gone, and an absent file is a no-op.
pub proof fn lemma_sweep_again_is_noop(present: Set<Seq<char>>, tasks: Seq<FileTask>)
    ensures
        forall|i: int|
            0 <= i < tasks.len() ==> #[trigger] step_of(
                tasks[i],
                after_sweep(present, tasks).contains(tasks[i].target()),
            ) != FileStep::Delete,
{
    assert forall|i: int| 0 <= i < tasks.len() implies #[trigger] step_of(
        tasks[i],
        after_sweep(present, tasks).contains(tasks[i].target()),
    ) != FileStep::Delete by {
        if tasks[i] is Remove {
            assert(!after_sweep(present, tasks).contains(tasks[i].target()));
        }
    }
}

/// Whether a row created at `c` is expired under `cutoff`, as a predicate.
pub open spec fn expired_under(cutoff: int) -> spec_fn(int) -> bool {
    |c: int| expired(c, cutoff)
}

/// Whether a row created at `c` survives a purge with `cutoff`, as a predicate.
pub open spec fn kept_under(cutoff: int) -> spec_fn(int) -> bool {
    |c: int| !expired(c, cutoff)
}

/// The creation times of the rows that a purge with `cutoff` leaves in place.
pub open spec fn kept_after_purge(created: Seq<int>, cutoff: int) -> Seq<int> {
    created.filter(kept_under(cutoff))
}

/// The creation times of the rows that a purge with `cutoff` deletes; the sweep
/// visits exactly these rows, since it fetches by the same predicate.
pub open spec fn purged(created: Seq<int>, cutoff: int) -> Seq<int> {
    created.filter(expired_under(cutoff))
}

/// A purge deletes exactly the rows created strictly before the cutoff: a row
/// created at the cutoff or later stays, and every row lands on one side.
pub proof fn lemma_purge_exact(created: Seq<int>, cutoff: int)
    ensures
        forall|c: int| #[trigger] kept_after_purge(created, cutoff).contains(c) <==> created.contains(c) && c >= cutoff,
        forall|c: int| #[trigger] purged(created, cutoff).contains(c) <==> created.contains(c) && c < cutoff,
        created.contains(cutoff) ==> kept_after_purge(created, cutoff).contains(cutoff),
        kept_after_purge(created, cutoff).len() + purged(created, cutoff).len() == created.len(),
    decreases created.len(),
{
    broadcast use vstd::seq_lib::group_filter_ensures;

    let keep = kept_under(cutoff);
    let drop = expired_under(cutoff);
    assert forall|c: int| #[trigger] kept_after_purge(created, cutoff).contains(c) <==> created.contains(c) && c >= cutoff by {
        if created.contains(c) && c >= cutoff {
            let i = choose|i: int| 0 <= i < created.len() && created[i] == c;
            created.lemma_filter_contains(keep, i);
        }
        if kept_after_purge(created, cutoff).contains(c) {
            let j = choose|j: int| 0 <= j < created.filter(keep).len() && created.filter(keep)[j] == c;
            created.lemma_filter_pred(keep, j);
            created.lemma_filter_contains_rev(keep, c);
        }
    }
    assert forall|c: int| #[trigger] purged(created, cutoff).contains(c) <==> created.contains(c) && c < cutoff by {
        if created.contains(c) && c < cutoff {
            let i = choose|i: int| 0 <= i < created.len() && created[i] == c;
            created.lemma_filter_contains(drop, i);
        }
        if purged(created, cutoff).contains(c) {
            let j = choose|j: int| 0 <= j < created.filter(drop).len() && created.filter(drop)[j] == c;
            created.lemma_filter_pred(drop, j);
            created.lemma_filter_contains_rev(drop, c);
        }
    }
    if created.len() > 0 {
        let rest = created.drop_last();
        lemma_purge_exact(rest, cutoff);
        assert(created =~= rest + seq![created.last()]);
        Seq::filter_distributes_over_add(rest, seq![created.last()], keep);
        Seq::filter_distributes_over_add(rest, seq![created.last()], drop);
        reveal_with_fuel(Seq::filter, 2);
    }
}

/// The cutoff that a command hands to storage, if it touches storage.
pub open spec fn command_cutoff(c: Command) -> Option<i64> {
    match c {
        Command::FetchBatch { cutoff, .. } => Some(cutoff),
        Command::DeleteFileInfo { cutoff } => Some(cutoff),
        Command::ReportFileInfo { cutoff } => Some(cutoff),
        Command::DeletePosts { cutoff } => Some(cutoff),
        Command::ReportPosts { cutoff } => Some(cutoff),
        _ => None,
    }
}

/// Every phase of a run uses the one cutoff fixed when the run began, `now`
/// minus the retention window in milliseconds: whatever state the run reached
/// since (steps keep `same_run`), each storage command carries that value.
pub proof fn lemma_one_cutoff_per_run(first: Cleaner, later: Cleaner, now_ms: int, retention_days: int)
    requires
        first.cutoff == cutoff_of(now_ms, retention_days),
        same_run(first, later),
    ensures
        later.phase != Phase::Done && !(later.phase is Halted) ==> command_cutoff(later.command())
            == Some(cutoff_of(now_ms, retention_days) as i64),
        later.cutoff == now_ms - retention_days * 86_400_000,
{
}

} // verus!
