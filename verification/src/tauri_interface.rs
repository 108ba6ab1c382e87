//! What the workspace library's callbacks show in a window.
//!
//! The workspace library reports progress and asks for confirmation
//! through an interface that the shell implements for each window. The
//! functions here compute what is to be shown; showing it is left to the
//! shell.

use crate::utils::{strip_ansi_escapes, stripped};
use vstd::prelude::*;

verus! {

/// The icon of a message dialog.
#[derive(Debug, Clone, Copy, PartialEq, Eq)]
pub enum DialogKind {
    Info,
    Warning,
    Error,
}

/// The buttons of a message dialog.
#[derive(Debug, Clone, Copy, PartialEq, Eq)]
pub enum DialogButtons {
    OkOnly,
    OkCancel,
    YesNo,
}

/// A question put to the user in a dialog of its own.
#[derive(Debug, Clone, PartialEq, Eq)]
pub struct ConfirmDialog {
    /// Label of the window that the dialog belongs to.
    pub parent: String,
    pub title: String,
    pub message: String,
    pub kind: DialogKind,
    pub buttons: DialogButtons,
}

/// A message pushed to a window.
#[derive(Debug, Clone, PartialEq, Eq)]
pub struct Notification {
    /// Label of the window that receives the event.
    pub target: String,
    /// Name of the event.
    pub event: String,
    /// Severity, as the user interface names it.
    pub level: String,
    /// Text, free of escape sequences.
    pub message: String,
}

/// The interface of one window, known by the window's label.
#[derive(Debug, Clone, PartialEq, Eq)]
pub struct TauriInterface {
    label: String,
}

/// The name of the event that carries a notification.
pub open spec fn notification_event() -> Seq<char> {
    "pixi-api-notification"@
}

/// The title of a confirmation dialog.
pub open spec fn confirm_title() -> Seq<char> {
    "Confirm"@
}

/// The notification that tells the window `target` of `message` at the
/// given level.
pub open spec fn is_notification(
    target: Seq<char>,
    level: Seq<char>,
    message: Seq<char>,
    n: Notification,
) -> bool {
    &&& n.target@ == target
    &&& n.event@ == notification_event()
    &&& n.level@ == level
    &&& n.message@ == stripped(message)
}

impl View for TauriInterface {
    type V = Seq<char>;

    /// The label of the window.
    closed spec fn view(&self) -> Seq<char> {
        self.label@
    }
}

impl TauriInterface {
    /// The interface of the window labelled `label`.
    pub fn new(label: String) -> (interface: TauriInterface)
        ensures
            interface@ == label@,
    {
        TauriInterface { label }
    }

    /// The label of the window.
    pub fn label(&self) -> (label: &str)
        ensures
            label@ == self@,
    {
        self.label.as_str()
    }

    /// Whether the workspace library runs on a command line: never, here.
    pub fn is_cli(&self) -> (cli: bool)
        ensures
            !cli,
    {
        false
    }

    /// The dialog that asks the user to confirm `msg` with yes or no.
    pub fn confirm(&self, msg: &str) -> (dialog: ConfirmDialog)
        ensures
            dialog.parent@ == self@,
            dialog.title@ == confirm_title(),
            dialog.message@ == stripped(msg@),
            dialog.kind == DialogKind::Info,
            dialog.buttons == DialogButtons::YesNo,
    {
        ConfirmDialog {
            parent: self.label.clone(),
            title: String::from_str("Confirm"),
            message: strip_ansi_escapes(msg),
            kind: DialogKind::Info,
            buttons: DialogButtons::YesNo,
        }
    }

    /// The notification of an informative message.
    pub fn info(&self, msg: &str) -> (n: Notification)
        ensures
            is_notification(self@, "info"@, msg@, n),
    {
        self.emit_notification("info", msg)
    }

    /// The notification of a success.
    pub fn success(&self, msg: &str) -> (n: Notification)
        ensures
            is_notification(self@, "success"@, msg@, n),
    {
        self.emit_notification("success", msg)
    }

    /// The notification of a warning.
    pub fn warning(&self, msg: &str) -> (n: Notification)
        ensures
            is_notification(self@, "warning"@, msg@, n),
    {
        self.emit_notification("warning", msg)
    }

    /// The notification of an error.
    pub fn error(&self, msg: &str) -> (n: Notification)
        ensures
            is_notification(self@, "error"@, msg@, n),
    {
        self.emit_notification("error", msg)
    }

    /// The notification that this window receives for `message` at `level`:
    /// addressed to the window itself, with the message free of escape
    /// sequences.
    pub fn emit_notification(&self, level: &str, message: &str) -> (n: Notification)
        ensures
            is_notification(self@, level@, message@, n),
    {
        Notification {
            target: self.label.clone(),
            event: String::from_str("pixi-api-notification"),
            level: String::from_str(level),
            message: strip_ansi_escapes(message),
        }
    }
}

} // verus!
