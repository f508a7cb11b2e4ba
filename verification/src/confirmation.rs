//! The yes/no confirmation dialog and the actions it can confirm.

use vstd::prelude::*;

use vstd::string::StringExecFns;

verus! {

/// What the user is asked to confirm.
#[derive(Debug, Clone)]
pub enum ConfirmationAction {
    Complete(String),
    Delete(String),
    DiscardUnsavedChanges,
}

impl ConfirmationAction {
    /// The dialog's title line.
    pub fn title(&self) -> (r: &'static str)
        ensures
            match self {
                ConfirmationAction::Complete(_) => r@ == "Complete Todo"@,
                ConfirmationAction::Delete(_) => r@ == "Delete Todo"@,
                ConfirmationAction::DiscardUnsavedChanges => r@ == "Discard Changes"@,
            },
    {
        match self {
            ConfirmationAction::Complete(_) => "Complete Todo",
            ConfirmationAction::Delete(_) => "Delete Todo",
            ConfirmationAction::DiscardUnsavedChanges => "Discard Changes",
        }
    }

    /// The question the dialog asks, naming the entry where there is one.
    pub fn message(&self) -> (r: String)
        ensures
            match self {
                ConfirmationAction::Complete(t) => r@ == "Complete todo \""@ + t@ + "\"?"@,
                ConfirmationAction::Delete(t) => r@ == "Delete todo \""@ + t@ + "\"?"@,
                ConfirmationAction::DiscardUnsavedChanges => r@
                    == "You have unsaved changes. Discard them?"@,
            },
    {
        match self {
            ConfirmationAction::Complete(t) => {
                let mut m = String::from_str("Complete todo \"");
                m.append(t.as_str());
                m.append("\"?");
                m
            },
            ConfirmationAction::Delete(t) => {
                let mut m = String::from_str("Delete todo \"");
                m.append(t.as_str());
                m.append("\"?");
                m
            },
            ConfirmationAction::DiscardUnsavedChanges => String::from_str(
                "You have unsaved changes. Discard them?",
            ),
        }
    }
}

/// The confirmation dialog: when active it holds the pending action, with
/// "yes" selected first.
pub struct ConfirmationModal {
    pub active: bool,
    pub action: Option<ConfirmationAction>,
    pub selected_option: bool,
}

impl ConfirmationModal {
    /// A closed dialog with nothing pending.
    pub fn new() -> (r: ConfirmationModal)
        ensures
            !r.active,
            r.action is None,
            r.selected_option,
    {
        ConfirmationModal { active: false, action: None, selected_option: true }
    }

    /// Opens the dialog for one action; "yes" starts selected.
    pub fn open(&mut self, action: ConfirmationAction)
        ensures
            final(self).active,
            final(self).action == Some(action),
            final(self).selected_option,
    {
        self.active = true;
        self.action = Some(action);
        self.selected_option = true;
    }

    /// Closes the dialog and forgets the pending action.
    pub fn close(&mut self)
        ensures
            !final(self).active,
            final(self).action is None,
            final(self).selected_option,
    {
        self.active = false;
        self.action = None;
        self.selected_option = true;
    }

    /// Flips between "yes" and "no".
    pub fn toggle_selection(&mut self)
        ensures
            final(self).active == old(self).active,
            final(self).action == old(self).action,
            final(self).selected_option == !old(self).selected_option,
    {
        self.selected_option = !self.selected_option;
    }

    /// Whether "yes" is selected.
    pub fn is_yes_selected(&self) -> (r: bool)
        ensures
            r == self.selected_option,
    {
        self.selected_option
    }
}

} // verus!
