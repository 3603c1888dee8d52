use gesture_backup::digest::content_digest;
use gesture_backup::engine::BackupConfig;
use gesture_backup::engine::BackupError;
use gesture_backup::engine::BackupMode;
use gesture_backup::engine::BackupOutcome;
use gesture_backup::engine::BackupRun;
use gesture_backup::engine::ConfigIssue;
use gesture_backup::engine::DestTree;
use gesture_backup::engine::FileEntry;
use gesture_backup::engine::run_in_memory;
use gesture_backup::engine::validate_backup_preconditions;
use gesture_backup::filter::matches_file_type;

fn entry(path: &[u8], data: &[u8]) -> FileEntry {
    FileEntry { path: path.to_vec(), data: data.to_vec() }
}

fn txt_config() -> BackupConfig {
    BackupConfig { mode: BackupMode::Custom, extension_filter: vec![b".txt".to_vec()] }
}

fn sample_tree() -> Vec<FileEntry> {
    vec![
        entry(b"notes/a.txt", b"alpha"),
        entry(b"b.log", b"log line"),
        entry(b"c.txt", b"gamma content"),
    ]
}

#[test]
fn filtered_run_copies_exactly_the_matching_files() {
    let config = txt_config();
    let source = sample_tree();
    let mut dest = DestTree::new();
    let (outcome, progress) = run_in_memory(&config, &source, &mut dest, None);

    assert_eq!(outcome, BackupOutcome::Success);
    assert_eq!(progress.files_total, 3);
    assert_eq!(progress.files_copied, 2);
    assert_eq!(progress.bytes_copied, (b"alpha".len() + b"gamma content".len()) as u64);
    assert_eq!(progress.current_file, Some(b"c.txt".to_vec()));

    assert_eq!(dest.file_count(), 2);
    assert_eq!(dest.get(&b"notes/a.txt".to_vec()), Some(&b"alpha".to_vec()));
    assert_eq!(dest.get(&b"c.txt".to_vec()), Some(&b"gamma content".to_vec()));
    assert_eq!(dest.get(&b"b.log".to_vec()), None);
}

#[test]
fn copied_files_hash_equal_to_their_sources() {
    let config = BackupConfig { mode: BackupMode::All, extension_filter: Vec::new() };
    let source = sample_tree();
    let mut dest = DestTree::new();
    let (outcome, _) = run_in_memory(&config, &source, &mut dest, None);
    assert_eq!(outcome, BackupOutcome::Success);
    for file in &source {
        let stored = dest.get(&file.path).expect("file missing from destination");
        assert_eq!(content_digest(stored), content_digest(&file.data));
    }
}

#[test]
fn cancellation_after_first_file_stops_the_walk() {
    let config = txt_config();
    let source = sample_tree();
    let mut dest = DestTree::new();
    let (outcome, progress) = run_in_memory(&config, &source, &mut dest, Some(1));

    assert_eq!(outcome, BackupOutcome::Cancelled);
    assert_eq!(progress.files_copied, 1);
    assert_eq!(dest.file_count(), 1);
    assert_eq!(dest.get(&b"notes/a.txt".to_vec()), Some(&b"alpha".to_vec()));
    assert_eq!(dest.get(&b"c.txt".to_vec()), None);
}

#[test]
fn cancellation_before_any_file_copies_nothing() {
    let config = txt_config();
    let source = sample_tree();
    let mut dest = DestTree::new();
    let (outcome, progress) = run_in_memory(&config, &source, &mut dest, Some(0));
    assert_eq!(outcome, BackupOutcome::Cancelled);
    assert_eq!(progress.files_copied, 0);
    assert_eq!(dest.file_count(), 0);
}

#[test]
fn corrupted_destination_fails_the_run() {
    let config = BackupConfig { mode: BackupMode::All, extension_filter: Vec::new() };
    let mut run = BackupRun::new(config, 2);
    let path = b"a.bin".to_vec();
    let source_data = b"payload".to_vec();
    let mut corrupted = source_data.clone();
    corrupted[0] ^= 1;

    let ok = run.record_copy(&path, &source_data, &corrupted);
    assert!(!ok);
    match run.outcome {
        Some(BackupOutcome::Failed(BackupError::CorruptionError(p))) => assert_eq!(p, path),
        other => panic!("expected a corruption error, got {:?}", other),
    }
    assert_eq!(run.progress.files_copied, 0);
}

#[test]
fn verified_copy_advances_progress() {
    let config = BackupConfig { mode: BackupMode::All, extension_filter: Vec::new() };
    let mut run = BackupRun::new(config, 2);
    let path = b"a.bin".to_vec();
    let data = b"payload".to_vec();
    let ok = run.record_copy(&path, &data, &data.clone());
    assert!(ok);
    assert!(run.outcome.is_none());
    assert_eq!(run.progress.files_copied, 1);
    assert_eq!(run.progress.bytes_copied, data.len() as u64);
    assert_eq!(run.progress.current_file, Some(path));
    run.finish();
    assert_eq!(run.outcome, Some(BackupOutcome::Success));
}

#[test]
fn rerun_on_complete_destination_is_idempotent() {
    let config = txt_config();
    let source = sample_tree();
    let mut dest = DestTree::new();
    let (first, _) = run_in_memory(&config, &source, &mut dest, None);
    assert_eq!(first, BackupOutcome::Success);

    let (second, progress) = run_in_memory(&config, &source, &mut dest, None);
    assert_eq!(second, BackupOutcome::Success);
    assert_eq!(progress.files_copied, 2);
    assert_eq!(dest.file_count(), 2);
    assert_eq!(dest.get(&b"notes/a.txt".to_vec()), Some(&b"alpha".to_vec()));
    assert_eq!(dest.get(&b"c.txt".to_vec()), Some(&b"gamma content".to_vec()));
    for file in &source {
        if let Some(stored) = dest.get(&file.path) {
            assert_eq!(content_digest(stored), content_digest(&file.data));
        }
    }
}

#[test]
fn run_overwrites_stale_destination_content() {
    let config = BackupConfig { mode: BackupMode::All, extension_filter: Vec::new() };
    let source = vec![entry(b"a.txt", b"fresh")];
    let mut dest = DestTree::new();
    dest.write_file(&b"a.txt".to_vec(), &b"stale".to_vec());
    dest.write_file(&b"other.txt".to_vec(), &b"keep".to_vec());
    let (outcome, _) = run_in_memory(&config, &source, &mut dest, None);
    assert_eq!(outcome, BackupOutcome::Success);
    assert_eq!(dest.get(&b"a.txt".to_vec()), Some(&b"fresh".to_vec()));
    assert_eq!(dest.get(&b"other.txt".to_vec()), Some(&b"keep".to_vec()));
}

#[test]
fn custom_mode_with_empty_filter_copies_everything() {
    let config = BackupConfig { mode: BackupMode::Custom, extension_filter: Vec::new() };
    let source = sample_tree();
    let mut dest = DestTree::new();
    let (outcome, progress) = run_in_memory(&config, &source, &mut dest, None);
    assert_eq!(outcome, BackupOutcome::Success);
    assert_eq!(progress.files_copied, 3);
}

#[test]
fn extension_match_ignores_ascii_case() {
    let filter = vec![b".TXT".to_vec()];
    assert!(matches_file_type(&b"dir/readme.txt".to_vec(), &filter));
    assert!(matches_file_type(&b"README.Txt".to_vec(), &filter));
    assert!(!matches_file_type(&b"readme.md".to_vec(), &filter));
}

#[test]
fn file_without_extension_matches_nothing() {
    let filter = vec![b".txt".to_vec()];
    assert!(!matches_file_type(&b"Makefile".to_vec(), &filter));
    assert!(!matches_file_type(&b"dir.txt/Makefile".to_vec(), &filter));
    assert!(!matches_file_type(&b".gitignore".to_vec(), &filter));
}

#[test]
fn precondition_check_reports_the_first_failure() {
    assert_eq!(validate_backup_preconditions(false, true, true), Some(ConfigIssue::NotConfigured));
    assert_eq!(validate_backup_preconditions(true, false, true), Some(ConfigIssue::SourceMissing));
    assert_eq!(
        validate_backup_preconditions(true, true, false),
        Some(ConfigIssue::DestinationMissing)
    );
    assert_eq!(validate_backup_preconditions(true, true, true), None);
}

#[test]
fn io_error_ends_the_run_with_its_message() {
    let config = BackupConfig { mode: BackupMode::All, extension_filter: Vec::new() };
    let mut run = BackupRun::new(config, 1);
    run.record_io_error(b"read failed".to_vec());
    assert_eq!(
        run.outcome,
        Some(BackupOutcome::Failed(BackupError::IoError(b"read failed".to_vec())))
    );
}

#[test]
fn observed_cancel_ends_the_run() {
    let config = BackupConfig { mode: BackupMode::All, extension_filter: Vec::new() };
    let mut run = BackupRun::new(config, 1);
    run.observe_cancel();
    assert_eq!(run.outcome, Some(BackupOutcome::Cancelled));
}

#[test]
fn sha256_of_known_input_matches_the_reference_digest() {
    let digest = content_digest(&b"abc".to_vec());
    let expected: Vec<u8> = vec![
        0xba, 0x78, 0x16, 0xbf, 0x8f, 0x01, 0xcf, 0xea, 0x41, 0x41, 0x40, 0xde, 0x5d, 0xae,
        0x22, 0x23, 0xb0, 0x03, 0x61, 0xa3, 0x96, 0x17, 0x7a, 0x9c, 0xb4, 0x10, 0xff, 0x61,
        0xf2, 0x00, 0x15, 0xad,
    ];
    assert_eq!(digest, expected);
}
