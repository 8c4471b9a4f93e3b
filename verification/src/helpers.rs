//! A small builder for the user-notification dialog shown by payloads.
//!
//! The dialog needs a title and a message; `show` validates that both were
//! provided and reports which one is missing. The presentation itself is an
//! external collaborator with no contract beyond best effort, performed by
//! the surrounding runner.

use vstd::prelude::*;

verus! {

/// Failure of `show`: which of the two required pieces was never set.
#[derive(Debug, PartialEq, Eq, Structural, Clone, Copy)]
pub enum ShowAlertDialogError {
    TitleNotSet,
    MessageNotSet,
}

/// Builder for a user-notification dialog with a title and a message.
#[derive(Debug, Default, Clone)]
pub struct AlertDialog {
    title: Option<String>,
    message: Option<String>,
}

/// The outcome `show` owes for given title and message: the title is
/// checked first, then the message, and with both present the dialog is
/// shown.
pub open spec fn spec_show_outcome(
    title: Option<Seq<char>>,
    message: Option<Seq<char>>,
) -> Result<(), ShowAlertDialogError> {
    if title is None {
        Err(ShowAlertDialogError::TitleNotSet)
    } else if message is None {
        Err(ShowAlertDialogError::MessageNotSet)
    } else {
        Ok(())
    }
}

impl AlertDialog {
    /// The title set so far.
    pub closed spec fn spec_title(self) -> Option<Seq<char>> {
        match self.title {
            Some(t) => Some(t@),
            None => None,
        }
    }

    /// The message set so far.
    pub closed spec fn spec_message(self) -> Option<Seq<char>> {
        match self.message {
            Some(m) => Some(m@),
            None => None,
        }
    }

    /// A dialog with neither title nor message set.
    pub fn new() -> (r: Self)
        ensures
            r.spec_title() is None,
            r.spec_message() is None,
    {
        AlertDialog { title: None, message: None }
    }

    /// Sets the title, keeping the message.
    pub fn title(self, title: String) -> (r: Self)
        ensures
            r.spec_title() == Some(title@),
            r.spec_message() == self.spec_message(),
    {
        AlertDialog { title: Some(title), message: self.message }
    }

    /// Sets the message, keeping the title.
    pub fn message(self, message: String) -> (r: Self)
        ensures
            r.spec_message() == Some(message@),
            r.spec_title() == self.spec_title(),
    {
        AlertDialog { title: self.title, message: Some(message) }
    }

    /// Validates the dialog: fails with `TitleNotSet` exactly when no title
    /// was set, else with `MessageNotSet` exactly when no message was set,
    /// and succeeds otherwise — the runner then presents the dialog.
    pub fn show(&self) -> (r: Result<(), ShowAlertDialogError>)
        ensures
            r == spec_show_outcome(self.spec_title(), self.spec_message()),
    {
        if self.title.is_none() {
            return Err(ShowAlertDialogError::TitleNotSet);
        }
        if self.message.is_none() {
            return Err(ShowAlertDialogError::MessageNotSet);
        }
        Ok(())
    }
}

/// Presenting a notification on the system this library models no dialog
/// for is a best-effort no-op that always reports success.
pub fn macos_show_alert_dialog(_title: &str, _message: &str) -> (r: Result<
    (),
    ShowAlertDialogError,
>)
    ensures
        r is Ok,
{
    Ok(())
}

} // verus!
