//! The read-only preview overlay: one entry's title and description, with a
//! scroll position.

use vstd::prelude::*;

verus! {

/// The preview overlay's state.
pub struct PreviewModal {
    pub active: bool,
    pub title: String,
    pub description: String,
    pub scroll_offset: usize,
}

impl PreviewModal {
    /// A closed, empty preview.
    pub fn new() -> (r: PreviewModal)
        ensures
            !r.active,
            r.title@.len() == 0,
            r.description@.len() == 0,
            r.scroll_offset == 0,
    {
        PreviewModal {
            active: false,
            title: String::new(),
            description: String::new(),
            scroll_offset: 0,
        }
    }

    /// Opens the preview on one entry, scrolled to the top; a missing
    /// description shows as empty.
    pub fn open(&mut self, title: &str, description: Option<&str>)
        ensures
            final(self).active,
            final(self).title@ == title@,
            match description {
                Some(d) => final(self).description@ == d@,
                None => final(self).description@.len() == 0,
            },
            final(self).scroll_offset == 0,
    {
        self.active = true;
        self.title = title.to_owned();
        self.description = match description {
            Some(d) => d.to_owned(),
            None => String::new(),
        };
        self.scroll_offset = 0;
    }

    /// Closes the preview and resets the scroll position.
    pub fn close(&mut self)
        ensures
            !final(self).active,
            final(self).title == old(self).title,
            final(self).description == old(self).description,
            final(self).scroll_offset == 0,
    {
        self.active = false;
        self.scroll_offset = 0;
    }

    /// Scrolls up one line, stopping at the top.
    pub fn scroll_up(&mut self)
        ensures
            final(self).active == old(self).active,
            final(self).title == old(self).title,
            final(self).description == old(self).description,
            final(self).scroll_offset == (if old(self).scroll_offset > 0 {
                old(self).scroll_offset - 1
            } else {
                0int
            }),
    {
        if self.scroll_offset > 0 {
            self.scroll_offset = self.scroll_offset - 1;
        }
    }

    /// Scrolls down one line; the renderer clamps to the content, so the
    /// offset only grows (up to the machine limit).
    pub fn scroll_down(&mut self)
        ensures
            final(self).active == old(self).active,
            final(self).title == old(self).title,
            final(self).description == old(self).description,
            final(self).scroll_offset == (if old(self).scroll_offset < usize::MAX {
                old(self).scroll_offset + 1
            } else {
                old(self).scroll_offset as int
            }),
    {
        if self.scroll_offset < usize::MAX {
            self.scroll_offset = self.scroll_offset + 1;
        }
    }
}

} // verus!
