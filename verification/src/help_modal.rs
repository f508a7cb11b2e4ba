//! The help overlay: a scrollable list of key bindings, filtered by whether
//! vim mode is on.

use vstd::prelude::*;

verus! {

/// One documented key binding. A binding marked `vim_only` is hidden when
/// vim mode is off; one marked `normal_only` is hidden when it is on.
#[derive(Debug, Clone, Copy)]
pub struct KeyBinding {
    pub key: &'static str,
    pub description: &'static str,
    pub category: &'static str,
    pub vim_only: bool,
    pub normal_only: bool,
}

/// Whether a binding is shown in the given mode.
pub open spec fn spec_binding_shown(b: KeyBinding, vim_mode: bool) -> bool {
    if vim_mode {
        !b.normal_only
    } else {
        !b.vim_only
    }
}

/// The help overlay's state.
pub struct HelpModal {
    pub active: bool,
    pub scroll_offset: usize,
}

impl HelpModal {
    /// A closed help overlay, scrolled to the top.
    pub fn new() -> (r: HelpModal)
        ensures
            !r.active,
            r.scroll_offset == 0,
    {
        HelpModal { active: false, scroll_offset: 0 }
    }

    /// Opens the overlay; the scroll position stands.
    pub fn open(&mut self)
        ensures
            final(self).active,
            final(self).scroll_offset == old(self).scroll_offset,
    {
        self.active = true;
    }

    /// Closes the overlay and resets the scroll position.
    pub fn close(&mut self)
        ensures
            !final(self).active,
            final(self).scroll_offset == 0,
    {
        self.active = false;
        self.scroll_offset = 0;
    }

    /// Scrolls up one line, stopping at the top.
    pub fn scroll_up(&mut self)
        ensures
            final(self).active == old(self).active,
            final(self).scroll_offset == (if old(self).scroll_offset > 0 {
                old(self).scroll_offset - 1
            } else {
                0int
            }),
    {
        if self.scroll_offset > 0 {
            self.scroll_offset = self.scroll_offset - 1;
        }
    }

    /// Scrolls down one line; the renderer clamps to the content, so the
    /// offset only grows (up to the machine limit).
    pub fn scroll_down(&mut self)
        ensures
            final(self).active == old(self).active,
            final(self).scroll_offset == (if old(self).scroll_offset < usize::MAX {
                old(self).scroll_offset + 1
            } else {
                old(self).scroll_offset as int
            }),
    {
        if self.scroll_offset < usize::MAX {
            self.scroll_offset = self.scroll_offset + 1;
        }
    }

    /// The key bindings shown for the given mode: every binding the mode
    /// offers, none that it does not.
    pub fn get_key_bindings(vim_mode: bool) -> (r: Vec<KeyBinding>)
        ensures
            r@.len() > 0,
            forall|i: int| 0 <= i < r@.len() ==> spec_binding_shown(#[trigger] r@[i], vim_mode),
    {
        let mut all: Vec<KeyBinding> = Vec::new();
        all.push(KeyBinding { key: "Up/k", description: "Move up", category: "Navigation", vim_only: false, normal_only: false });
        all.push(KeyBinding { key: "Down/j", description: "Move down", category: "Navigation", vim_only: false, normal_only: false });
        all.push(KeyBinding { key: "Tab", description: "Toggle between panes", category: "Navigation", vim_only: false, normal_only: false });
        all.push(KeyBinding { key: "h/Left", description: "Go to left pane (active)", category: "Navigation", vim_only: false, normal_only: false });
        all.push(KeyBinding { key: "l/Right", description: "Go to right pane (completed)", category: "Navigation", vim_only: false, normal_only: false });
        all.push(KeyBinding { key: "Enter", description: "Select/Edit item", category: "Navigation", vim_only: false, normal_only: false });
        all.push(KeyBinding { key: "+", description: "Add new todo", category: "Todo Management", vim_only: false, normal_only: false });
        all.push(KeyBinding { key: "r", description: "Edit selected todo", category: "Todo Management", vim_only: false, normal_only: false });
        all.push(KeyBinding { key: "p", description: "Preview todo with markdown", category: "Todo Management", vim_only: false, normal_only: false });
        all.push(KeyBinding { key: "Space", description: "Toggle todo completion", category: "Todo Management", vim_only: false, normal_only: false });
        all.push(KeyBinding { key: "d", description: "Delete selected todo", category: "Todo Management", vim_only: false, normal_only: false });
        all.push(KeyBinding { key: "e", description: "Expand/collapse description", category: "Todo Management", vim_only: false, normal_only: false });
        all.push(KeyBinding { key: "E", description: "Expand all descriptions", category: "View Options", vim_only: false, normal_only: false });
        all.push(KeyBinding { key: "C", description: "Collapse all descriptions", category: "View Options", vim_only: false, normal_only: false });
        all.push(KeyBinding { key: "=/+", description: "Increase split ratio", category: "View Options", vim_only: false, normal_only: false });
        all.push(KeyBinding { key: "-", description: "Decrease split ratio", category: "View Options", vim_only: false, normal_only: false });
        all.push(KeyBinding { key: "f", description: "Focus/zoom pane", category: "View Options", vim_only: false, normal_only: false });
        all.push(KeyBinding { key: "t", description: "Toggle theme quickly", category: "Settings", vim_only: false, normal_only: false });
        all.push(KeyBinding { key: "s", description: "Open settings modal", category: "Settings", vim_only: false, normal_only: false });
        all.push(KeyBinding { key: "Tab/Enter", description: "Switch fields", category: "Modal Controls", vim_only: false, normal_only: true });
        all.push(KeyBinding { key: "Ctrl+Enter/Ctrl+S", description: "Save", category: "Modal Controls", vim_only: false, normal_only: true });
        all.push(KeyBinding { key: "Esc", description: "Close modal/Cancel", category: "Modal Controls", vim_only: false, normal_only: true });
        all.push(KeyBinding { key: "Arrow keys", description: "Navigate", category: "Modal Controls", vim_only: false, normal_only: true });
        all.push(KeyBinding { key: "i", description: "Enter insert mode", category: "Modal Controls (Vim)", vim_only: true, normal_only: false });
        all.push(KeyBinding { key: "Esc", description: "Enter normal mode", category: "Modal Controls (Vim)", vim_only: true, normal_only: false });
        all.push(KeyBinding { key: "hjkl", description: "Navigate (normal mode)", category: "Modal Controls (Vim)", vim_only: true, normal_only: false });
        all.push(KeyBinding { key: ":w", description: "Save", category: "Modal Controls (Vim)", vim_only: true, normal_only: false });
        all.push(KeyBinding { key: ":x", description: "Save and close", category: "Modal Controls (Vim)", vim_only: true, normal_only: false });
        all.push(KeyBinding { key: ":q", description: "Quit/close", category: "Modal Controls (Vim)", vim_only: true, normal_only: false });
        all.push(KeyBinding { key: "0", description: "Go to line start", category: "Modal Controls (Vim)", vim_only: true, normal_only: false });
        all.push(KeyBinding { key: "$", description: "Go to line end", category: "Modal Controls (Vim)", vim_only: true, normal_only: false });
        all.push(KeyBinding { key: "w/b", description: "Word forward/backward", category: "Modal Controls (Vim)", vim_only: true, normal_only: false });
        all.push(KeyBinding { key: "G", description: "Go to last line", category: "Modal Controls (Vim)", vim_only: true, normal_only: false });
        all.push(KeyBinding { key: "gg", description: "Go to first line", category: "Modal Controls (Vim)", vim_only: true, normal_only: false });
        all.push(KeyBinding { key: "dd", description: "Delete line", category: "Modal Controls (Vim)", vim_only: true, normal_only: false });
        all.push(KeyBinding { key: "yy", description: "Yank (copy) line", category: "Modal Controls (Vim)", vim_only: true, normal_only: false });
        all.push(KeyBinding { key: "p", description: "Paste after cursor", category: "Modal Controls (Vim)", vim_only: true, normal_only: false });
        all.push(KeyBinding { key: "v/V", description: "Visual/Visual line mode", category: "Modal Controls (Vim)", vim_only: true, normal_only: false });
        all.push(KeyBinding { key: "?", description: "Show this help", category: "Application", vim_only: false, normal_only: false });
        all.push(KeyBinding { key: "q", description: "Quit application", category: "Application", vim_only: false, normal_only: false });
        all.push(KeyBinding { key: "Ctrl+C", description: "Force quit", category: "Application", vim_only: false, normal_only: false });
        let mut r: Vec<KeyBinding> = Vec::new();
        let mut i: usize = 0;
        while i < all.len()
            invariant
                i <= all@.len(),
                forall|k: int| 0 <= k < r@.len() ==> spec_binding_shown(#[trigger] r@[k], vim_mode),
                vim_mode ==> r@.len() >= (if i >= 1 { 1int } else { 0int }),
                !vim_mode ==> r@.len() >= (if i >= 1 { 1int } else { 0int }),
                all@[0].vim_only == false && all@[0].normal_only == false,
            decreases all@.len() - i,
        {
            let b = all[i];
            let shown = if vim_mode {
                !b.normal_only
            } else {
                !b.vim_only
            };
            if shown {
                r.push(b);
            }
            i = i + 1;
        }
        r
    }
}

} // verus!
