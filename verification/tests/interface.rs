use gesture_backup::appstate::AppState;
use gesture_backup::appstate::Configuration;
use gesture_backup::appstate::ConfirmationApp;
use gesture_backup::appstate::ErrorSource;
use gesture_backup::appstate::FileTypeError;
use gesture_backup::appstate::PanelType;
use gesture_backup::appstate::SaveCheck;
use gesture_backup::appstate::configuration_from_fields;
use gesture_backup::appstate::validate_new_file_type;
use gesture_backup::appstate::validate_save_request;
use gesture_backup::engine::BackupError;
use gesture_backup::engine::BackupOutcome;
use gesture_backup::engine::ConfigIssue;
use gesture_backup::supervisor::BackupStatus;
use gesture_backup::supervisor::BackupSupervisor;
use gesture_backup::supervisor::backup_window_content;
use gesture_backup::supervisor::lock_poll_decision;
use gesture_backup::text::format_data_size;
use gesture_backup::text::format_duration;
use gesture_backup::text::u64_to_string;

fn built_config() -> Configuration {
    Configuration::Build(
        String::from("/src"),
        String::from("/dst"),
        String::from("custom"),
        vec![String::from(".txt")],
        true,
    )
}

#[test]
fn state_from_complete_configuration_keeps_its_fields() {
    let state = AppState::new_from_config(built_config(), true, false);
    assert_eq!(state.current_panel, PanelType::Backup);
    assert_eq!(state.source_folder, "/src");
    assert_eq!(state.destination_folder, "/dst");
    assert_eq!(state.backup_type, "custom");
    assert_eq!(state.file_types, vec![String::from(".txt")]);
    assert_eq!(state.backup_status, BackupStatus::NotStarted);
    assert!(state.display);
    assert!(state.auto_start_enabled);
    assert!(!state.run_gui);
}

#[test]
fn state_from_unusable_configuration_uses_defaults() {
    let state = AppState::new_from_config(Configuration::Error, false, true);
    assert_eq!(state.source_folder, "");
    assert_eq!(state.destination_folder, "");
    assert_eq!(state.backup_type, "total");
    assert!(state.file_types.is_empty());
    assert!(state.run_gui);
}

#[test]
fn empty_backup_type_defaults_to_total() {
    let config = Configuration::Build(
        String::from("/src"),
        String::from("/dst"),
        String::new(),
        Vec::new(),
        true,
    );
    let state = AppState::new_from_config(config, false, false);
    assert_eq!(state.backup_type, "total");
}

#[test]
fn complete_fields_classify_as_built() {
    let config = configuration_from_fields(
        String::from("/a"),
        String::from("/b"),
        String::from("total"),
        Vec::new(),
        true,
    );
    assert!(matches!(config, Configuration::Build(..)));
}

#[test]
fn missing_fields_classify_as_created() {
    let config = configuration_from_fields(
        String::new(),
        String::from("/b"),
        String::from("total"),
        Vec::new(),
        false,
    );
    assert!(matches!(config, Configuration::Created));
}

#[test]
fn file_type_rules_reject_each_bad_entry() {
    let none: Vec<String> = Vec::new();
    assert_eq!(validate_new_file_type(&none, &String::new()), Some(FileTypeError::Empty));
    assert_eq!(
        validate_new_file_type(&none, &String::from("txt")),
        Some(FileTypeError::MissingDot)
    );
    assert_eq!(
        validate_new_file_type(&none, &String::from(".toolong")),
        Some(FileTypeError::TooLong)
    );
    assert_eq!(
        validate_new_file_type(&none, &String::from(".t@x")),
        Some(FileTypeError::InvalidCharacters)
    );
    let full: Vec<String> = (0..10).map(|i| format!(".t{}", i)).collect();
    assert_eq!(validate_new_file_type(&full, &String::from(".new")), Some(FileTypeError::TooMany));
    let existing = vec![String::from(".txt")];
    assert_eq!(
        validate_new_file_type(&existing, &String::from(".txt")),
        Some(FileTypeError::AlreadyPresent)
    );
    assert_eq!(validate_new_file_type(&existing, &String::from(".md-1")), None);
}

#[test]
fn accepted_entry_joins_the_list_and_clears_the_input() {
    let mut state = AppState::new_from_config(built_config(), false, false);
    state.new_file_type = String::from(".png");
    state.add_file_type();
    assert_eq!(state.file_types, vec![String::from(".txt"), String::from(".png")]);
    assert_eq!(state.new_file_type, "");
    assert!(!state.show_error_modal);
}

#[test]
fn rejected_entry_opens_the_error_modal() {
    let mut state = AppState::new_from_config(built_config(), false, false);
    state.new_file_type = String::from("png");
    state.add_file_type();
    assert_eq!(state.file_types, vec![String::from(".txt")]);
    assert_eq!(state.error_source, Some(ErrorSource::FileTypeValidation));
    assert!(state.show_error_modal);
    assert_eq!(
        state.error_message.as_deref(),
        Some("File type must start with a dot (e.g., .txt, .png).")
    );
}

#[test]
fn saving_a_total_backup_clears_the_filter() {
    let mut state = AppState::new_from_config(built_config(), false, true);
    state.backup_type = String::from("total");
    let saved = state.prepare_save();
    assert!(state.file_types.is_empty());
    assert!(saved.file_types.is_empty());
    assert_eq!(saved.source_folder, "/src");
    assert_eq!(saved.destination_folder, "/dst");
    assert!(saved.display);
}

#[test]
fn saving_a_custom_backup_keeps_the_filter() {
    let mut state = AppState::new_from_config(built_config(), false, false);
    let saved = state.prepare_save();
    assert_eq!(saved.file_types, vec![String::from(".txt")]);
    assert_eq!(saved.backup_type, "custom");
    assert!(!saved.display);
}

#[test]
fn save_checks_report_in_order() {
    let a = String::from("/a");
    let b = String::from("/b");
    let empty = String::new();
    assert_eq!(validate_save_request(&empty, &b, Some(3), Some(0)), SaveCheck::EmptyPath);
    assert_eq!(validate_save_request(&a, &a, Some(3), Some(0)), SaveCheck::SamePath);
    assert_eq!(validate_save_request(&a, &b, None, Some(0)), SaveCheck::SourceUnreadable);
    assert_eq!(validate_save_request(&a, &b, Some(0), Some(0)), SaveCheck::SourceEmpty);
    assert_eq!(validate_save_request(&a, &b, Some(3), Some(2)), SaveCheck::DestinationNotEmpty);
    assert_eq!(validate_save_request(&a, &b, Some(3), Some(0)), SaveCheck::Ready);
    assert_eq!(validate_save_request(&a, &b, Some(3), None), SaveCheck::Ready);
}

#[test]
fn close_request_on_hidden_interface_closes_at_once() {
    let mut state = AppState::new_from_config(built_config(), false, false);
    state.display = false;
    assert!(state.on_close_request());
    assert!(!state.show_confirmation_modal);
}

#[test]
fn close_request_on_visible_interface_asks_first() {
    let mut state = AppState::new_from_config(built_config(), false, false);
    assert!(!state.on_close_request());
    assert!(state.show_confirmation_modal);
}

#[test]
fn supervisor_runs_one_backup_cycle() {
    let mut supervisor = BackupSupervisor::new();
    assert_eq!(supervisor.status, BackupStatus::NotStarted);
    assert!(supervisor.detector_enabled);

    supervisor.on_outline_recognized();
    assert_eq!(supervisor.status, BackupStatus::ToConfirm);

    supervisor.on_backup_confirmed();
    assert_eq!(supervisor.status, BackupStatus::InProgress);
    assert!(!supervisor.detector_enabled);

    let show = supervisor.on_outcome(&BackupOutcome::Success, String::new(), false);
    assert!(show);
    assert_eq!(supervisor.status, BackupStatus::CompletedSuccess);
    assert!(supervisor.detector_enabled);
}

#[test]
fn supervisor_keeps_a_cancelled_run_observable() {
    let mut supervisor = BackupSupervisor::new();
    supervisor.on_backup_confirmed();
    supervisor.on_stop_requested();
    assert_eq!(supervisor.status, BackupStatus::Canceled);
    let show = supervisor.on_outcome(&BackupOutcome::Cancelled, String::new(), true);
    assert!(!show);
    assert_eq!(supervisor.status, BackupStatus::Canceled);
    assert!(supervisor.detector_enabled);
}

#[test]
fn supervisor_records_a_failure_message() {
    let mut supervisor = BackupSupervisor::new();
    supervisor.on_backup_confirmed();
    let outcome = BackupOutcome::Failed(BackupError::ConfigError(ConfigIssue::SourceMissing));
    supervisor.on_outcome(&outcome, String::from("source folder is missing"), true);
    assert_eq!(
        supervisor.status,
        BackupStatus::CompletedError(String::from("source folder is missing"))
    );
}

#[test]
fn supervisor_dismissal_returns_to_not_started() {
    let mut supervisor = BackupSupervisor::new();
    supervisor.on_outline_recognized();
    supervisor.dismiss_confirmation();
    assert_eq!(supervisor.status, BackupStatus::NotStarted);
}

#[test]
fn backup_window_follows_the_status() {
    assert!(backup_window_content(&BackupStatus::NotStarted).is_none());
    let (title, message, back) = backup_window_content(&BackupStatus::ToConfirm).unwrap();
    assert_eq!(title, "Backup Confirmation");
    assert_eq!(message, "To start the backup service draw a horitzontal line.");
    assert!(back);
    let (title, _, back) = backup_window_content(&BackupStatus::InProgress).unwrap();
    assert_eq!(title, "Backup In Progress");
    assert!(!back);
    let status = BackupStatus::CompletedError(String::from("copy failed"));
    let (title, message, _) = backup_window_content(&status).unwrap();
    assert_eq!(title, "Backup Failed");
    assert_eq!(message, "copy failed");
}

#[test]
fn lock_poll_asks_for_the_interface_only_when_hidden() {
    assert!(lock_poll_decision(true, false));
    assert!(!lock_poll_decision(true, true));
    assert!(!lock_poll_decision(false, false));
}

#[test]
fn confirmation_app_constructs() {
    let _app = ConfirmationApp::new();
}

#[test]
fn data_sizes_render_with_two_decimals() {
    assert_eq!(format_data_size(0), "0 B");
    assert_eq!(format_data_size(500), "500 B");
    assert_eq!(format_data_size(1023), "1023 B");
    assert_eq!(format_data_size(1024), "1.00 KB");
    assert_eq!(format_data_size(1536), "1.50 KB");
    assert_eq!(format_data_size(2048), "2.00 KB");
    assert_eq!(format_data_size(2 * 1024 * 1024 + 512 * 1024), "2.50 MB");
    assert_eq!(format_data_size(3 * 1024 * 1024 * 1024), "3.00 GB");
}

#[test]
fn data_size_rounding_ties_go_to_even() {
    // 1152 bytes is exactly 1.125 KB, which rounds down to the even 1.12.
    assert_eq!(format_data_size(1152), "1.12 KB");
    // 1408 bytes is exactly 1.375 KB, which rounds up to the even 1.38.
    assert_eq!(format_data_size(1408), "1.38 KB");
}

#[test]
fn durations_render_by_magnitude() {
    assert_eq!(format_duration(0), "~1s");
    assert_eq!(format_duration(1), "1s");
    assert_eq!(format_duration(59), "59s");
    assert_eq!(format_duration(60), "1m 0s");
    assert_eq!(format_duration(65), "1m 5s");
    assert_eq!(format_duration(3600), "1h 0m 0s");
    assert_eq!(format_duration(3725), "1h 2m 5s");
}

#[test]
fn decimal_rendering_matches_standard_formatting() {
    for n in [0u64, 7, 10, 99, 100, 12345, u64::MAX] {
        assert_eq!(u64_to_string(n), n.to_string());
    }
}
