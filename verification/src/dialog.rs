//! The two message boxes of the update check, as values for a toolkit to show.

use vstd::prelude::*;
use crate::update::UpdateInfo;
use crate::update::UpdateInfoView;

verus! {

/// How grave a message box is.
#[derive(Clone, Copy, Debug, PartialEq, Eq, Structural)]
pub enum DialogKind {
    Info,
    Error,
}

/// The buttons under a message box.
#[derive(Clone, Debug, PartialEq, Eq)]
pub enum Buttons {
    /// Whatever the toolkit shows when it is told nothing.
    Default,
    /// Two buttons with labels of our own: one to accept, one to dismiss.
    Custom { accept: String, dismiss: String },
}

/// [`Buttons`] as plain text.
pub ghost enum ButtonsView {
    Default,
    Custom { accept: Seq<char>, dismiss: Seq<char> },
}

impl View for Buttons {
    type V = ButtonsView;

    open spec fn view(&self) -> ButtonsView {
        match self {
            Buttons::Default => ButtonsView::Default,
            Buttons::Custom { accept, dismiss } => ButtonsView::Custom {
                accept: accept@,
                dismiss: dismiss@,
            },
        }
    }
}

/// A modal message box: everything a toolkit needs to show it.
#[derive(Clone, Debug, PartialEq, Eq)]
pub struct Dialog {
    /// The caption of the box.
    pub title: String,
    /// The text in the box.
    pub message: String,
    /// How grave the box is to look.
    pub kind: DialogKind,
    /// The buttons under the text.
    pub buttons: Buttons,
}

/// [`Dialog`] as plain text.
pub ghost struct DialogView {
    pub title: Seq<char>,
    pub message: Seq<char>,
    pub kind: DialogKind,
    pub buttons: ButtonsView,
}

impl View for Dialog {
    type V = DialogView;

    open spec fn view(&self) -> DialogView {
        DialogView {
            title: self.title@,
            message: self.message@,
            kind: self.kind,
            buttons: self.buttons@,
        }
    }
}

/// The question put to the user: the version on offer, its release notes, and
/// whether to update.
pub open spec fn confirm_message(version: Seq<char>, notes: Seq<char>) -> Seq<char> {
    "新しいバージョン v"@ + version + " が利用可能です。\n\n"@ + notes + "\n\nアップデートしますか？"@
}

/// The box that offers `info` to the user.
pub open spec fn confirm_dialog_spec(info: UpdateInfoView) -> DialogView {
    DialogView {
        title: "Todome アップデート"@,
        message: confirm_message(info.version, info.notes()),
        kind: DialogKind::Info,
        buttons: ButtonsView::Custom { accept: "アップデート"@, dismiss: "後で"@ },
    }
}

/// What the user is told when the install failed: a fixed line, then the
/// updater's message on a line of its own.
pub open spec fn failure_message(message: Seq<char>) -> Seq<char> {
    "アップデートに失敗しました:\n"@ + message
}

/// The box that reports a failed install.
pub open spec fn failure_dialog_spec(message: Seq<char>) -> DialogView {
    DialogView {
        title: "エラー"@,
        message: failure_message(message),
        kind: DialogKind::Error,
        buttons: ButtonsView::Default,
    }
}

/// Whether `needle` stands in `text`, whole and unbroken.
pub open spec fn occurs_in(needle: Seq<char>, text: Seq<char>) -> bool {
    exists|at: int|
        0 <= at && at + needle.len() <= text.len() && #[trigger] text.subrange(
            at,
            at + needle.len(),
        ) == needle
}

/// Builds the confirmation box for an update on offer.
pub fn confirm_dialog(info: &UpdateInfo) -> (dialog: Dialog)
    ensures
        dialog@ == confirm_dialog_spec(info@),
{
    let mut message = String::from_str("新しいバージョン v");
    message.append(info.version.as_str());
    message.append(" が利用可能です。\n\n");
    if let Some(notes) = &info.body {
        message.append(notes.as_str());
    }
    message.append("\n\nアップデートしますか？");
    Dialog {
        title: String::from_str("Todome アップデート"),
        message,
        kind: DialogKind::Info,
        buttons: Buttons::Custom {
            accept: String::from_str("アップデート"),
            dismiss: String::from_str("後で"),
        },
    }
}

/// Builds the box that reports a failed install.
pub fn failure_dialog(message: &str) -> (dialog: Dialog)
    ensures
        dialog@ == failure_dialog_spec(message@),
{
    let mut text = String::from_str("アップデートに失敗しました:\n");
    text.append(message);
    Dialog {
        title: String::from_str("エラー"),
        message: text,
        kind: DialogKind::Error,
        buttons: Buttons::Default,
    }
}

/// The confirmation message names the update: the version and the release
/// notes both stand in it, whole and unbroken, whatever they are.
pub proof fn lemma_confirm_message_names_update(version: Seq<char>, notes: Seq<char>)
    ensures
        occurs_in(version, confirm_message(version, notes)),
        occurs_in(notes, confirm_message(version, notes)),
{
    let head = "新しいバージョン v"@;
    let mid = " が利用可能です。\n\n"@;
    let text = confirm_message(version, notes);
    let v_at = head.len() as int;
    let n_at = (head.len() + version.len() + mid.len()) as int;
    assert(text.subrange(v_at, v_at + version.len()) == version);
    assert(text.subrange(n_at, n_at + notes.len()) == notes);
}

/// The failure message ends with the updater's message, letter for letter.
pub proof fn lemma_failure_message_quotes(message: Seq<char>)
    ensures
        occurs_in(message, failure_message(message)),
        failure_message(message).len() >= message.len(),
        failure_message(message).subrange(
            failure_message(message).len() - message.len(),
            failure_message(message).len() as int,
        ) == message,
{
    let head = "アップデートに失敗しました:\n"@;
    let text = failure_message(message);
    let at = head.len() as int;
    assert(text.subrange(at, at + message.len()) == message);
}

} // verus!
