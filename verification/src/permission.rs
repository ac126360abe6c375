//! Whether the system lets the application show notifications.
//!
//! A refusal is no fault: a notice that may not be shown is dropped, and the
//! scheduler goes on.

use vstd::prelude::*;
use vstd::string::*;

verus! {

/// What the system says about the application's notifications.
#[derive(Clone, Copy, Debug, PartialEq, Eq, Structural)]
pub enum PermissionState {
    /// Notifications may be shown.
    Granted,
    /// Notifications may not be shown.
    Denied,
    /// The user has not been asked yet.
    Prompt,
    /// The user has not been asked yet and is owed a reason first.
    PromptWithRationale,
}

impl PermissionState {
    /// `granted`, `denied`, or `unknown` for a state that is neither.
    pub open spec fn label_text(self) -> Seq<char> {
        match self {
            PermissionState::Granted => "granted"@,
            PermissionState::Denied => "denied"@,
            _ => "unknown"@,
        }
    }

    /// The name of the state.
    pub open spec fn name_text(self) -> Seq<char> {
        match self {
            PermissionState::Granted => "Granted"@,
            PermissionState::Denied => "Denied"@,
            PermissionState::Prompt => "Prompt"@,
            PermissionState::PromptWithRationale => "PromptWithRationale"@,
        }
    }

    /// What is said to a user whose notification was not shown in this state.
    pub open spec fn refusal_text(self) -> Seq<char> {
        "Permission not granted (state: "@ + self.name_text()
            + "). Please enable notifications for this app in System Settings > Notifications."@
    }

    /// `granted`, `denied`, or `unknown` for a state that is neither.
    pub fn label(&self) -> (r: &'static str)
        ensures
            r@ == self.label_text(),
    {
        match self {
            PermissionState::Granted => "granted",
            PermissionState::Denied => "denied",
            _ => "unknown",
        }
    }

    /// The name of the state.
    pub fn name(&self) -> (r: &'static str)
        ensures
            r@ == self.name_text(),
    {
        match self {
            PermissionState::Granted => "Granted",
            PermissionState::Denied => "Denied",
            PermissionState::Prompt => "Prompt",
            PermissionState::PromptWithRationale => "PromptWithRationale",
        }
    }

    /// Whether a notification may be shown: only once permission is granted.
    pub fn allows_delivery(&self) -> (r: bool)
        ensures
            r == (*self == PermissionState::Granted),
    {
        match self {
            PermissionState::Granted => true,
            _ => false,
        }
    }

    /// Why a notification is not shown in this state, for the user to read;
    /// nothing where it is shown.
    pub fn refusal(&self) -> (r: Option<String>)
        ensures
            r is None <==> *self == PermissionState::Granted,
            r matches Some(text) ==> text@ == self.refusal_text(),
    {
        if self.allows_delivery() {
            None
        } else {
            let mut text = "Permission not granted (state: ".to_owned();
            text.append(self.name());
            text.append(
                "). Please enable notifications for this app in System Settings > Notifications.",
            );
            Some(text)
        }
    }
}

} // verus!
