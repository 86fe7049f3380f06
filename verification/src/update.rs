//! What the updater reports: the update on offer, and what went wrong.

use vstd::prelude::*;

verus! {

/// An update that the version check found.
#[derive(Clone, Debug, PartialEq, Eq)]
pub struct UpdateInfo {
    /// The version on offer.
    pub version: String,
    /// The release notes, where the release has any.
    pub body: Option<String>,
}

/// [`UpdateInfo`] as plain text.
pub ghost struct UpdateInfoView {
    pub version: Seq<char>,
    pub body: Option<Seq<char>>,
}

impl View for UpdateInfo {
    type V = UpdateInfoView;

    open spec fn view(&self) -> UpdateInfoView {
        UpdateInfoView {
            version: self.version@,
            body: match self.body {
                Some(notes) => Some(notes@),
                None => None,
            },
        }
    }
}

impl UpdateInfoView {
    /// The release notes as they are shown: empty where the release has none.
    pub open spec fn notes(self) -> Seq<char> {
        match self.body {
            Some(notes) => notes,
            None => Seq::empty(),
        }
    }
}

/// The step of the update check that failed.
#[derive(Clone, Copy, Debug, PartialEq, Eq, Structural)]
pub enum ErrorKind {
    /// The updater handle could not be acquired.
    HandleUnavailable,
    /// The version check did not complete.
    CheckFailed,
    /// The update could not be downloaded or installed.
    InstallFailed,
}

impl ErrorKind {
    /// Whether the user is told of such a failure. Only a failed install is:
    /// the user agreed to it and should learn that it did not happen. The
    /// failures before that are logged and nothing more.
    pub open spec fn is_shown_to_user_spec(self) -> bool {
        self == ErrorKind::InstallFailed
    }

    /// Whether the user is told of such a failure.
    #[verifier::when_used_as_spec(is_shown_to_user_spec)]
    pub fn is_shown_to_user(self) -> (shown: bool)
        ensures
            shown == self.is_shown_to_user_spec(),
    {
        match self {
            ErrorKind::InstallFailed => true,
            _ => false,
        }
    }
}

/// A failed step, with the updater's own account of it.
#[derive(Clone, Debug, PartialEq, Eq)]
pub struct UpdateError {
    /// The step that failed.
    pub kind: ErrorKind,
    /// What the updater said of it.
    pub message: String,
}

/// [`UpdateError`] as plain text.
pub ghost struct UpdateErrorView {
    pub kind: ErrorKind,
    pub message: Seq<char>,
}

impl View for UpdateError {
    type V = UpdateErrorView;

    open spec fn view(&self) -> UpdateErrorView {
        UpdateErrorView { kind: self.kind, message: self.message@ }
    }
}

/// What a diagnostic line starts with, by the step that failed.
pub open spec fn log_prefix(kind: ErrorKind) -> Seq<char> {
    match kind {
        ErrorKind::HandleUnavailable => "[updater] init failed: "@,
        ErrorKind::CheckFailed => "[updater] check failed: "@,
        ErrorKind::InstallFailed => "[updater] install failed: "@,
    }
}

impl UpdateErrorView {
    /// The diagnostic line: the prefix of the failed step, then the message.
    pub open spec fn log_line(self) -> Seq<char> {
        log_prefix(self.kind) + self.message
    }
}

impl UpdateError {
    /// The line to write to the diagnostic stream for this failure.
    pub fn log_line(&self) -> (line: String)
        ensures
            line@ == self@.log_line(),
    {
        let mut line = match self.kind {
            ErrorKind::HandleUnavailable => String::from_str("[updater] init failed: "),
            ErrorKind::CheckFailed => String::from_str("[updater] check failed: "),
            ErrorKind::InstallFailed => String::from_str("[updater] install failed: "),
        };
        line.append(self.message.as_str());
        line
    }
}

} // verus!
