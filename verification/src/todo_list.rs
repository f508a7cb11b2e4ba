//! The list pane component: which filtered entry is selected in the active
//! or completed pane, with cyclic navigation and selection repair.

use vstd::prelude::*;

use crate::todo::TodoList;
use crate::todo::spec_shown_indices;

verus! {

/// One pane over the todo list: it shows either the open or the completed
/// entries and tracks a selection among them.
pub struct TodoListComponent {
    pub selected: Option<usize>,
    pub show_completed: bool,
    pub expand_all: bool,
}

impl TodoListComponent {
    /// The indices this pane shows of the given list.
    pub open spec fn spec_shown(self, todos: TodoList) -> Seq<usize> {
        spec_shown_indices(todos.items@, self.show_completed)
    }

    /// A pane showing the open entries, the first selected, nothing
    /// force-expanded.
    pub fn new() -> (r: TodoListComponent)
        ensures
            r.selected == Some(0usize),
            !r.show_completed,
            !r.expand_all,
    {
        TodoListComponent { selected: Some(0), show_completed: false, expand_all: false }
    }

    /// Switches the pane to the other filter and selects the first entry.
    pub fn toggle_view(&mut self)
        ensures
            final(self).show_completed == !old(self).show_completed,
            final(self).selected == Some(0usize),
            final(self).expand_all == old(self).expand_all,
    {
        self.show_completed = !self.show_completed;
        self.selected = Some(0);
    }

    /// Moves the selection down one shown entry, wrapping to the first after
    /// the last; with nothing shown the selection empties.
    pub fn select_next(&mut self, todos: &TodoList)
        ensures
            final(self).show_completed == old(self).show_completed,
            final(self).expand_all == old(self).expand_all,
            ({
                let n = old(self).spec_shown(*todos).len();
                let sel = match old(self).selected {
                    Some(s) => s as int,
                    None => 0,
                };
                if n == 0 {
                    final(self).selected is None
                } else {
                    final(self).selected == Some((if sel >= n - 1 { 0 } else { sel + 1 }) as usize)
                }
            }),
    {
        let items = if self.show_completed {
            todos.get_completed_todos()
        } else {
            todos.get_active_todos()
        };
        if items.len() == 0 {
            self.selected = None;
            return ;
        }
        let sel = match self.selected {
            Some(s) => s,
            None => 0,
        };
        let next: usize = if sel >= items.len() - 1 {
            0
        } else {
            sel + 1
        };
        self.selected = Some(next);
    }

    /// Moves the selection up one shown entry, wrapping to the last before
    /// the first; with nothing shown the selection empties.
    pub fn select_previous(&mut self, todos: &TodoList)
        ensures
            final(self).show_completed == old(self).show_completed,
            final(self).expand_all == old(self).expand_all,
            ({
                let n = old(self).spec_shown(*todos).len();
                let sel = match old(self).selected {
                    Some(s) => s as int,
                    None => 0,
                };
                if n == 0 {
                    final(self).selected is None
                } else {
                    final(self).selected == Some((if sel == 0 { n - 1 } else { sel - 1 }) as usize)
                }
            }),
    {
        let items = if self.show_completed {
            todos.get_completed_todos()
        } else {
            todos.get_active_todos()
        };
        if items.len() == 0 {
            self.selected = None;
            return ;
        }
        let sel = match self.selected {
            Some(s) => s,
            None => 0,
        };
        let previous: usize = if sel == 0 {
            items.len() - 1
        } else {
            sel - 1
        };
        self.selected = Some(previous);
    }

    /// The index, into the whole list, of the selected shown entry, if the
    /// selection points at one.
    pub fn get_selected_todo(&self, todos: &TodoList) -> (r: Option<usize>)
        ensures
            match self.selected {
                None => r is None,
                Some(s) => if s < self.spec_shown(*todos).len() {
                    r == Some(self.spec_shown(*todos)[s as int])
                } else {
                    r is None
                },
            },
            (r matches Some(i) ==> i < todos.items@.len() && todos.items@[i as int].completed
                == self.show_completed),
    {
        // the length fits in usize, which the index lemma below needs
        let total = todos.items.len();
        let _ = total;
        proof {
            crate::todo::lemma_shown_indices(todos.items@, self.show_completed);
        }
        let sel = match self.selected {
            Some(s) => s,
            None => {
                return None;
            },
        };
        let items = if self.show_completed {
            todos.get_completed_todos()
        } else {
            todos.get_active_todos()
        };
        if sel < items.len() {
            Some(items[sel])
        } else {
            None
        }
    }

    /// Force-expands every shown description.
    pub fn expand_all(&mut self)
        ensures
            *final(self) == (TodoListComponent { expand_all: true, ..*old(self) }),
    {
        self.expand_all = true;
    }

    /// Stops force-expanding descriptions.
    pub fn collapse_all(&mut self)
        ensures
            *final(self) == (TodoListComponent { expand_all: false, ..*old(self) }),
    {
        self.expand_all = false;
    }

    /// Flips force-expansion.
    pub fn toggle_expand_all(&mut self)
        ensures
            *final(self) == (TodoListComponent { expand_all: !old(self).expand_all, ..*old(self) }),
    {
        self.expand_all = !self.expand_all;
    }

    /// Repairs the selection after the list changed: empties it when nothing
    /// is shown, selects the first entry when it was empty, and clamps it to
    /// the last shown entry.
    pub fn validate_selection(&mut self, todos: &TodoList)
        ensures
            final(self).show_completed == old(self).show_completed,
            final(self).expand_all == old(self).expand_all,
            ({
                let n = old(self).spec_shown(*todos).len();
                if n == 0 {
                    final(self).selected is None
                } else {
                    match old(self).selected {
                        None => final(self).selected == Some(0usize),
                        Some(s) => if s >= n {
                            final(self).selected == Some((n - 1) as usize)
                        } else {
                            final(self).selected == Some(s)
                        },
                    }
                }
            }),
    {
        let items = if self.show_completed {
            todos.get_completed_todos()
        } else {
            todos.get_active_todos()
        };
        if items.len() == 0 {
            self.selected = None;
        } else {
            match self.selected {
                None => {
                    self.selected = Some(0);
                },
                Some(sel) => {
                    if sel >= items.len() {
                        self.selected = Some(items.len() - 1);
                    }
                },
            }
        }
    }
}

} // verus!
