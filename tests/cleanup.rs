use std::collections::HashSet;

use retention_cleaner::cleaner::{Cleaner, Command, Phase};
use retention_cleaner::config::{validate, CleanError, RetentionConfig};
use retention_cleaner::cutoff::{compute_cutoff, is_expired, MILLIS_PER_DAY};
use retention_cleaner::files::{batch_tasks, FileRecord, FileStep, FileTask};

struct Row {
    path: &'static str,
    thumbnail: &'static str,
    preview: &'static str,
    createat: i64,
}

struct World {
    fileinfo: Vec<Row>,
    posts: Vec<i64>,
    files: HashSet<String>,
}

#[derive(Default)]
struct Outcome {
    fetch_sizes: Vec<usize>,
    removed: Vec<String>,
    reported: Vec<String>,
    missing: usize,
    storage_mutations: usize,
    commands: Vec<Command>,
}

fn config(batch_size: usize, remove_posts: bool, dry_run: bool) -> RetentionConfig {
    RetentionConfig {
        data_directory: "/data".to_string(),
        db_name: "mattermost".to_string(),
        db_user: "mmuser".to_string(),
        db_password: "secret".to_string(),
        db_host: "localhost".to_string(),
        db_port: "5432".to_string(),
        retention_days: 1,
        batch_size,
        remove_posts,
        dry_run,
    }
}

/// A run whose cutoff is 2000 ms.
fn machine(batch_size: usize, remove_posts: bool, dry_run: bool) -> Cleaner {
    let now = 2000 + MILLIS_PER_DAY;
    let m = Cleaner::start(&config(batch_size, remove_posts, dry_run), now).unwrap();
    assert_eq!(m.cutoff, 2000);
    m
}

fn drive(mut m: Cleaner, world: &mut World) -> Outcome {
    let mut out = Outcome::default();
    loop {
        let cmd = m.next_command();
        out.commands.push(cmd);
        match cmd {
            Command::FetchBatch { cutoff, offset, limit } => {
                let rows: Vec<FileRecord> = world
                    .fileinfo
                    .iter()
                    .filter(|r| is_expired(r.createat, cutoff))
                    .skip(offset as usize)
                    .take(limit as usize)
                    .map(|r| FileRecord {
                        path: r.path.to_string(),
                        thumbnail_path: r.thumbnail.to_string(),
                        preview_path: r.preview.to_string(),
                    })
                    .collect();
                out.fetch_sizes.push(rows.len());
                for task in m.on_batch(&rows) {
                    let exists = world.files.contains(task.path());
                    match task.step(exists) {
                        FileStep::Delete => {
                            world.files.remove(task.path());
                            out.removed.push(task.path().clone());
                        }
                        FileStep::AlreadyGone => out.missing += 1,
                        FileStep::WouldDelete => out.reported.push(task.path().clone()),
                    }
                }
            }
            Command::DeleteFileInfo { cutoff } => {
                world.fileinfo.retain(|r| !is_expired(r.createat, cutoff));
                out.storage_mutations += 1;
                m.on_purged();
            }
            Command::DeletePosts { cutoff } => {
                world.posts.retain(|c| !is_expired(*c, cutoff));
                out.storage_mutations += 1;
                m.on_purged();
            }
            Command::ReportFileInfo { .. } | Command::ReportPosts { .. } => m.on_purged(),
            Command::Finish | Command::Abort(_) => return out,
        }
    }
}

fn single_row_world(createat: i64) -> World {
    World {
        fileinfo: vec![Row { path: "a.png", thumbnail: "", preview: "t/a.png", createat }],
        posts: vec![1000],
        files: ["/data/a.png", "/data/t/a.png"].iter().map(|s| s.to_string()).collect(),
    }
}

fn numbered_world(n: usize, createat: i64) -> World {
    let names: Vec<&'static str> = vec!["f0", "f1", "f2", "f3", "f4", "f5", "f6", "f7", "f8", "f9"];
    World {
        fileinfo: names[..n]
            .iter()
            .map(|p| Row { path: p, thumbnail: "", preview: "", createat })
            .collect(),
        posts: vec![],
        files: names[..n].iter().map(|p| format!("/data/{}", p)).collect(),
    }
}

#[test]
fn validate_accepts_complete_settings() {
    assert_eq!(validate("/data", "db", "user", "host", 30, 100), Ok(()));
}

#[test]
fn validate_rejects_each_missing_setting() {
    assert_eq!(validate("", "db", "user", "host", 30, 100), Err(CleanError::InvalidInput));
    assert_eq!(validate("/data", "", "user", "host", 30, 100), Err(CleanError::InvalidInput));
    assert_eq!(validate("/data", "db", "", "host", 30, 100), Err(CleanError::InvalidInput));
    assert_eq!(validate("/data", "db", "user", "", 30, 100), Err(CleanError::InvalidInput));
    assert_eq!(validate("/data", "db", "user", "host", 0, 100), Err(CleanError::InvalidInput));
    assert_eq!(validate("/data", "db", "user", "host", -5, 100), Err(CleanError::InvalidInput));
    assert_eq!(validate("/data", "db", "user", "host", 30, 0), Err(CleanError::InvalidInput));
}

#[test]
fn config_check_requires_password_and_port() {
    let mut c = config(2, false, false);
    assert_eq!(c.check(), Ok(()));
    c.db_password = String::new();
    assert_eq!(c.check(), Err(CleanError::InvalidInput));
    let mut c = config(2, false, false);
    c.db_port = String::new();
    assert_eq!(c.check(), Err(CleanError::InvalidInput));
}

#[test]
fn start_refuses_invalid_config_before_anything() {
    let mut c = config(2, false, false);
    c.retention_days = 0;
    assert!(matches!(Cleaner::start(&c, 5_000_000_000), Err(CleanError::InvalidInput)));
}

#[test]
fn start_refuses_batch_size_beyond_i64() {
    let c = config(usize::MAX, false, false);
    assert!(matches!(Cleaner::start(&c, 5_000_000_000), Err(CleanError::PageOutOfRange)));
}

#[test]
fn cutoff_is_now_minus_retention_days() {
    assert_eq!(compute_cutoff(10 * MILLIS_PER_DAY, 3), Ok(7 * MILLIS_PER_DAY));
    assert_eq!(compute_cutoff(1_700_000_000_000, 30), Ok(1_700_000_000_000 - 2_592_000_000));
    assert_eq!(MILLIS_PER_DAY, 86_400_000);
}

#[test]
fn cutoff_out_of_range_is_an_error() {
    assert_eq!(compute_cutoff(i64::MIN, 1), Err(CleanError::CutoffOutOfRange));
    assert_eq!(compute_cutoff(0, i64::MAX), Err(CleanError::CutoffOutOfRange));
}

#[test]
fn one_cutoff_for_every_phase() {
    let m = Cleaner::start(&config(2, true, false), 1_700_000_000_000).unwrap();
    let cutoff = m.cutoff;
    assert_eq!(cutoff, 1_700_000_000_000 - MILLIS_PER_DAY);
    let mut world = single_row_world(1000);
    let out = drive(m, &mut world);
    for cmd in out.commands {
        match cmd {
            Command::FetchBatch { cutoff: c, .. }
            | Command::DeleteFileInfo { cutoff: c }
            | Command::DeletePosts { cutoff: c } => assert_eq!(c, cutoff),
            _ => {}
        }
    }
}

#[test]
fn expired_is_strictly_before_cutoff() {
    assert!(is_expired(1999, 2000));
    assert!(!is_expired(2000, 2000));
    assert!(!is_expired(2001, 2000));
}

#[test]
fn old_row_files_and_row_are_removed() {
    let mut world = single_row_world(1000);
    let out = drive(machine(2, false, false), &mut world);
    assert_eq!(out.removed, vec!["/data/a.png".to_string(), "/data/t/a.png".to_string()]);
    assert!(world.files.is_empty());
    assert!(world.fileinfo.is_empty());
    assert_eq!(world.posts, vec![1000]);
    assert_eq!(out.storage_mutations, 1);
}

#[test]
fn newer_row_is_left_alone() {
    let mut world = single_row_world(3000);
    let out = drive(machine(2, false, false), &mut world);
    assert!(out.removed.is_empty());
    assert_eq!(world.files.len(), 2);
    assert_eq!(world.fileinfo.len(), 1);
    assert_eq!(out.fetch_sizes, vec![0]);
}

#[test]
fn five_rows_in_batches_of_two_take_three_fetches() {
    let mut world = numbered_world(5, 1000);
    let out = drive(machine(2, false, false), &mut world);
    assert_eq!(out.fetch_sizes, vec![2, 2, 1]);
    assert_eq!(out.removed.len(), 5);
    assert!(world.fileinfo.is_empty());
}

#[test]
fn fetch_windows_advance_by_batch_size() {
    let mut world = numbered_world(7, 1000);
    let out = drive(machine(3, false, false), &mut world);
    assert_eq!(out.fetch_sizes, vec![3, 3, 1]);
    let offsets: Vec<(i64, i64)> = out
        .commands
        .iter()
        .filter_map(|c| match c {
            Command::FetchBatch { offset, limit, .. } => Some((*offset, *limit)),
            _ => None,
        })
        .collect();
    assert_eq!(offsets, vec![(0, 3), (3, 3), (6, 3)]);
}

#[test]
fn batch_size_dividing_row_count_ends_on_empty_fetch() {
    let mut world = numbered_world(4, 1000);
    let out = drive(machine(2, false, false), &mut world);
    assert_eq!(out.fetch_sizes, vec![2, 2, 0]);
}

#[test]
fn empty_table_takes_one_fetch() {
    let mut world = numbered_world(0, 1000);
    let out = drive(machine(4, false, false), &mut world);
    assert_eq!(out.fetch_sizes, vec![0]);
}

#[test]
fn dry_run_mutates_nothing_and_reports_every_target() {
    let mut dry_world = numbered_world(5, 1000);
    dry_world.fileinfo.push(Row { path: "x.png", thumbnail: "x_t.png", preview: "", createat: 10 });
    dry_world.posts = vec![5, 5000];
    let dry = drive(machine(2, true, true), &mut dry_world);
    assert_eq!(dry_world.files.len(), 5);
    assert_eq!(dry_world.fileinfo.len(), 6);
    assert_eq!(dry_world.posts.len(), 2);
    assert_eq!(dry.storage_mutations, 0);
    assert!(dry.removed.is_empty());

    let mut live_world = numbered_world(5, 1000);
    live_world.fileinfo.push(Row { path: "x.png", thumbnail: "x_t.png", preview: "", createat: 10 });
    live_world.posts = vec![5, 5000];
    let live = drive(machine(2, true, false), &mut live_world);
    let attempted: Vec<String> = live.removed.iter().cloned().collect();
    assert_eq!(live.missing, 2);
    assert_eq!(dry.reported.len(), live.removed.len() + live.missing);
    assert!(attempted.iter().all(|p| dry.reported.contains(p)));
    assert_eq!(dry.fetch_sizes, live.fetch_sizes);
    assert_eq!(live_world.posts, vec![5000]);
    assert_eq!(live.storage_mutations, 2);
}

#[test]
fn sweeping_again_finds_nothing_to_remove() {
    let mut world = single_row_world(1000);
    world.fileinfo.push(Row { path: "b.png", thumbnail: "b_t.png", preview: "b_p.png", createat: 1500 });
    for p in ["/data/b.png", "/data/b_t.png", "/data/b_p.png"] {
        world.files.insert(p.to_string());
    }
    let first = machine(5, false, false);
    let rows = vec![FileRecord {
        path: "b.png".to_string(),
        thumbnail_path: "b_t.png".to_string(),
        preview_path: "b_p.png".to_string(),
    }];
    let tasks = batch_tasks("/data", &rows, false);
    assert_eq!(tasks.len(), 3);
    let out = drive(first, &mut world);
    assert_eq!(out.removed.len(), 5);
    for task in &tasks {
        let exists = world.files.contains(task.path());
        assert_eq!(task.step(exists), FileStep::AlreadyGone);
    }
    let mut again = single_row_world(1000);
    again.files.clear();
    let out = drive(machine(5, false, false), &mut again);
    assert!(out.removed.is_empty());
    assert_eq!(out.missing, 2);
}

#[test]
fn batch_tasks_resolve_against_data_directory() {
    let rows = vec![FileRecord {
        path: "a.png".to_string(),
        thumbnail_path: String::new(),
        preview_path: "t/a.png".to_string(),
    }];
    let tasks = batch_tasks("/data", &rows, false);
    assert_eq!(tasks.len(), 2);
    assert_eq!(tasks[0].path(), "/data/a.png");
    assert_eq!(tasks[1].path(), "/data/t/a.png");
    assert!(matches!(tasks[0], FileTask::Remove(_)));
    let reports = batch_tasks("/data/", &rows, true);
    assert_eq!(reports[0].path(), "/data/a.png");
    assert!(matches!(reports[1], FileTask::Report(_)));
}

#[test]
fn file_steps() {
    let remove = FileTask::Remove("/data/a.png".to_string());
    let report = FileTask::Report("/data/a.png".to_string());
    assert_eq!(remove.step(true), FileStep::Delete);
    assert_eq!(remove.step(false), FileStep::AlreadyGone);
    assert_eq!(report.step(true), FileStep::WouldDelete);
    assert_eq!(report.step(false), FileStep::WouldDelete);
}

#[test]
fn phases_follow_in_order() {
    let mut m = machine(2, true, false);
    assert_eq!(m.phase, Phase::Sweep);
    assert_eq!(m.next_command(), Command::FetchBatch { cutoff: 2000, offset: 0, limit: 2 });
    m.on_batch(&vec![]);
    assert_eq!(m.phase, Phase::PurgeFileInfo);
    assert_eq!(m.next_command(), Command::DeleteFileInfo { cutoff: 2000 });
    m.on_purged();
    assert_eq!(m.next_command(), Command::DeletePosts { cutoff: 2000 });
    m.on_purged();
    assert_eq!(m.next_command(), Command::Finish);

    let mut m = machine(2, false, true);
    m.on_batch(&vec![]);
    assert_eq!(m.next_command(), Command::ReportFileInfo { cutoff: 2000 });
    m.on_purged();
    assert_eq!(m.phase, Phase::Done);
}

#[test]
fn exhausted_offsets_halt_the_run() {
    let mut m = machine(2, false, false);
    m.batch = (i64::MAX / 2) as usize;
    let full = vec![
        FileRecord { path: String::new(), thumbnail_path: String::new(), preview_path: String::new() },
        FileRecord { path: String::new(), thumbnail_path: String::new(), preview_path: String::new() },
    ];
    let tasks = m.on_batch(&full);
    assert!(tasks.is_empty());
    assert_eq!(m.next_command(), Command::Abort(CleanError::PageOutOfRange));
}
