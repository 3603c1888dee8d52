//! Supervision of one backup run.
//!
//! A single status cell tells the interface what the backup service is
//! doing; a flag tells the event listener whether gesture detection is
//! active.  The supervisor owns both: it disables detection when a backup
//! is confirmed, records the terminal outcome exactly once, and re-enables
//! detection afterwards.  Exactly one backup runs at a time because
//! detection stays off for the whole run.

use vstd::prelude::*;

use crate::engine::BackupOutcome;

verus! {

/// Externally visible state of the backup service.
#[derive(Clone, PartialEq, Eq, Debug)]
pub enum BackupStatus {
    /// No backup activity; the gesture machine is listening.
    NotStarted,
    /// The outline was recognized; a confirmation stroke is awaited.
    ToConfirm,
    /// The engine is copying.
    InProgress,
    /// The last run copied and verified everything.
    CompletedSuccess,
    /// A stop was requested: shown while the engine honours it, and kept as
    /// the run's terminal outcome once it has.
    Canceled,
    /// The last run failed; the payload describes why.
    CompletedError(String),
}

/// Drives the shared status cell and the detector-enabled flag around one
/// backup run.
pub struct BackupSupervisor {
    /// What the service is doing, as shown to the interface.
    pub status: BackupStatus,
    /// Whether pointer events reach the gesture machine.
    pub detector_enabled: bool,
}

impl BackupSupervisor {
    /// A fresh service: nothing started, detection active.
    pub fn new() -> (supervisor: Self)
        ensures
            supervisor.status == BackupStatus::NotStarted,
            supervisor.detector_enabled,
    {
        BackupSupervisor { status: BackupStatus::NotStarted, detector_enabled: true }
    }

    /// The outline gesture completed: ask the user for confirmation.
    pub fn on_outline_recognized(&mut self)
        ensures
            final(self).status == BackupStatus::ToConfirm,
            final(self).detector_enabled == old(self).detector_enabled,
    {
        self.status = BackupStatus::ToConfirm;
    }

    /// The confirmation stroke arrived: detection goes quiet for the whole
    /// run and the status shows the backup in progress.
    pub fn on_backup_confirmed(&mut self)
        ensures
            final(self).status == BackupStatus::InProgress,
            !final(self).detector_enabled,
    {
        self.detector_enabled = false;
        self.status = BackupStatus::InProgress;
    }

    /// The user dismissed the confirmation prompt: back to idle, detection
    /// untouched.
    pub fn dismiss_confirmation(&mut self)
        ensures
            final(self).status == BackupStatus::NotStarted,
            final(self).detector_enabled == old(self).detector_enabled,
    {
        self.status = BackupStatus::NotStarted;
    }

    /// The user asked a running backup to stop: the status shows the
    /// cancellation until the engine honours it at a file boundary.
    pub fn on_stop_requested(&mut self)
        ensures
            final(self).status == BackupStatus::Canceled,
            final(self).detector_enabled == old(self).detector_enabled,
    {
        self.status = BackupStatus::Canceled;
    }

    /// The engine terminated: write its outcome to the status exactly once
    /// — success, failure and a honoured cancellation each as their own
    /// terminal state — re-enable gesture detection, and say whether a
    /// hidden interface must be asked to appear (`display` is whether it is
    /// visible now).  The status never stays in progress.
    pub fn on_outcome(
        &mut self,
        outcome: &BackupOutcome,
        failure_message: String,
        display: bool,
    ) -> (show_gui: bool)
        ensures
            outcome is Success ==> final(self).status == BackupStatus::CompletedSuccess,
            outcome is Cancelled ==> final(self).status == BackupStatus::Canceled,
            outcome is Failed ==> (final(self).status matches BackupStatus::CompletedError(m)
                && m@ == failure_message@),
            !(final(self).status is InProgress),
            final(self).detector_enabled,
            show_gui == !display,
    {
        match outcome {
            BackupOutcome::Success => {
                self.status = BackupStatus::CompletedSuccess;
            },
            BackupOutcome::Cancelled => {
                self.status = BackupStatus::Canceled;
            },
            BackupOutcome::Failed(_) => {
                self.status = BackupStatus::CompletedError(failure_message);
            },
        }
        self.detector_enabled = true;
        !display
    }
}

/// What the backup window shows for a status: its title, its message, and
/// whether a button back to the main panel is offered.  A service that has
/// not started shows no backup window at all; a failed run shows its error
/// message.
pub fn backup_window_content(status: &BackupStatus) -> (content: Option<(String, String, bool)>)
    ensures
        (status is NotStarted) <==> (content is None),
        status is ToConfirm ==> (content matches Some(c) && c.0@ == "Backup Confirmation"@ && c.1@
            == "To start the backup service draw a horitzontal line."@ && c.2 == true),
        status is InProgress ==> (content matches Some(c) && c.0@ == "Backup In Progress"@ && c.1@
            == "The backup is currently running..."@ && c.2 == false),
        status is CompletedSuccess ==> (content matches Some(c) && c.0@ == "Backup Completed"@
            && c.1@ == "Backup completed successfully!"@ && c.2 == true),
        status matches BackupStatus::CompletedError(err) ==> (content matches Some(c) && c.0@
            == "Backup Failed"@ && c.1@ == err@ && c.2 == true),
        status is Canceled ==> (content matches Some(c) && c.0@ == "Backup Cancellation"@ && c.1@
            == "The backup operation is being canceled. Please wait..."@ && c.2 == false),
{
    match status {
        BackupStatus::NotStarted => None,
        BackupStatus::ToConfirm => Some(
            (
                String::from_str("Backup Confirmation"),
                String::from_str("To start the backup service draw a horitzontal line."),
                true,
            ),
        ),
        BackupStatus::InProgress => Some(
            (
                String::from_str("Backup In Progress"),
                String::from_str("The backup is currently running..."),
                false,
            ),
        ),
        BackupStatus::CompletedSuccess => Some(
            (
                String::from_str("Backup Completed"),
                String::from_str("Backup completed successfully!"),
                true,
            ),
        ),
        BackupStatus::CompletedError(err) => Some(
            (String::from_str("Backup Failed"), err.clone(), true),
        ),
        BackupStatus::Canceled => Some(
            (
                String::from_str("Backup Cancellation"),
                String::from_str("The backup operation is being canceled. Please wait..."),
                false,
            ),
        ),
    }
}

/// The rule applied on every lock-file poll: ask the interface to appear
/// exactly when the file requests it while no interface is visible.
pub fn lock_poll_decision(show_gui_requested: bool, display: bool) -> (show: bool)
    ensures
        show == (show_gui_requested && !display),
{
    show_gui_requested && !display
}

} // verus!
