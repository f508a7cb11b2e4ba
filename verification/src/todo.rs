//! The todo entries and their list. Identifiers are 128-bit values drawn
//! from a random generator; timestamps are plain milliseconds.

use vstd::prelude::*;

use crate::clock::now_millis;

use crate::text::spec_trim;
use crate::text::str_to_chars;
use crate::text::trim_chars;

verus! {

/// The format version written alongside the items.
pub const CURRENT_VERSION: u32 = 1;

/// Relies on `uuid::Uuid::new_v4` and `Uuid::as_u128`: a freshly generated
/// random identifier. Nothing can be promised of a random value.
#[verifier::external_body]
fn new_todo_id() -> u128 {
    uuid::Uuid::new_v4().as_u128()
}

/// One todo entry.
#[derive(Debug, Clone)]
pub struct TodoItem {
    pub id: u128,
    pub title: String,
    pub description: Option<String>,
    pub completed: bool,
    pub created_at_ms: u64,
    pub completed_at_ms: Option<u64>,
    pub expanded: bool,
}

impl TodoItem {
    /// A fresh, open entry with a newly drawn identifier, created now.
    pub fn new(title: String, description: Option<String>) -> (r: TodoItem)
        ensures
            r.title == title,
            r.description == description,
            !r.completed,
            r.completed_at_ms is None,
            !r.expanded,
    {
        TodoItem {
            id: new_todo_id(),
            title,
            description,
            completed: false,
            created_at_ms: now_millis(),
            completed_at_ms: None,
            expanded: false,
        }
    }

    /// Flips completion; a completed entry is stamped with the current
    /// time, a reopened one loses its stamp.
    pub fn toggle_completed(&mut self)
        ensures
            final(self).completed == !old(self).completed,
            final(self).completed ==> final(self).completed_at_ms is Some,
            !final(self).completed ==> final(self).completed_at_ms is None,
            final(self).id == old(self).id,
            final(self).title == old(self).title,
            final(self).description == old(self).description,
            final(self).created_at_ms == old(self).created_at_ms,
            final(self).expanded == old(self).expanded,
    {
        self.completed = !self.completed;
        if self.completed {
            self.completed_at_ms = Some(now_millis());
        } else {
            self.completed_at_ms = None;
        }
    }

    /// Flips whether the description is shown expanded.
    pub fn toggle_expanded(&mut self)
        ensures
            *final(self) == (TodoItem { expanded: !old(self).expanded, ..*old(self) }),
    {
        self.expanded = !self.expanded;
    }

    /// Whether the entry has a description with any visible text.
    pub fn has_description(&self) -> (r: bool)
        ensures
            r == match self.description {
                Some(d) => spec_trim(d@).len() > 0,
                None => false,
            },
    {
        match &self.description {
            Some(desc) => {
                let chars = str_to_chars(desc.as_str());
                let trimmed = trim_chars(&chars);
                trimmed.len() > 0
            },
            None => false,
        }
    }
}

/// The index of the first entry with the given identifier, or the length.
pub open spec fn spec_find(items: Seq<TodoItem>, id: u128) -> int
    decreases items.len(),
{
    if items.len() == 0 {
        0
    } else if items[0].id == id {
        0
    } else {
        1 + spec_find(items.drop_first(), id)
    }
}

/// What `spec_find` returns: the first match, or the length when there is
/// none.
pub proof fn lemma_spec_find(items: Seq<TodoItem>, id: u128)
    ensures
        0 <= spec_find(items, id) <= items.len(),
        spec_find(items, id) < items.len() ==> items[spec_find(items, id)].id == id,
        forall|k: int| 0 <= k < spec_find(items, id) ==> items[k].id != id,
    decreases items.len(),
{
    if items.len() > 0 && items[0].id != id {
        lemma_spec_find(items.drop_first(), id);
        assert forall|k: int| 0 <= k < spec_find(items, id) implies items[k].id != id by {
            if k > 0 {
                assert(items[k] == items.drop_first()[k - 1]);
            }
        }
    }
}

/// The indices of the entries whose completion flag equals `completed`, in
/// order.
pub open spec fn spec_shown_indices(items: Seq<TodoItem>, completed: bool) -> Seq<usize>
    decreases items.len(),
{
    if items.len() == 0 {
        Seq::empty()
    } else {
        let rest = spec_shown_indices(items.drop_last(), completed);
        if items.last().completed == completed {
            rest.push((items.len() - 1) as usize)
        } else {
            rest
        }
    }
}

/// What `spec_shown_indices` holds: indices into the list, in strictly
/// increasing order, exactly those whose flag matches.
pub proof fn lemma_shown_indices(items: Seq<TodoItem>, completed: bool)
    requires
        items.len() <= usize::MAX,
    ensures
        ({
            let r = spec_shown_indices(items, completed);
            &&& forall|k: int|
                0 <= k < r.len() ==> #[trigger] r[k] < items.len() && items[r[k] as int].completed
                    == completed
            &&& forall|k1: int, k2: int| 0 <= k1 < k2 < r.len() ==> r[k1] < r[k2]
            &&& r.len() <= items.len()
        }),
    decreases items.len(),
{
    if items.len() > 0 {
        lemma_shown_indices(items.drop_last(), completed);
        let rest = spec_shown_indices(items.drop_last(), completed);
        let r = spec_shown_indices(items, completed);
        assert forall|k: int|
            0 <= k < r.len() implies #[trigger] r[k] < items.len() && items[r[k] as int].completed
            == completed by {
            if k < rest.len() {
                assert(r[k] == rest[k]);
                assert(items.drop_last()[rest[k] as int] == items[rest[k] as int]);
            }
        }
    }
}

/// The todo list: a format version and the entries in creation order.
#[derive(Debug, Clone)]
pub struct TodoList {
    pub version: u32,
    pub items: Vec<TodoItem>,
}

impl TodoList {
    /// An empty list at the current format version.
    pub fn new() -> (r: TodoList)
        ensures
            r.version == CURRENT_VERSION,
            r.items@.len() == 0,
    {
        TodoList { version: CURRENT_VERSION, items: Vec::new() }
    }

    /// Finds the first entry with the given identifier; see `spec_find`.
    fn find_index(&self, id: u128) -> (r: usize)
        ensures
            r == spec_find(self.items@, id),
            r <= self.items@.len(),
    {
        proof {
            lemma_spec_find(self.items@, id);
        }
        let mut i: usize = 0;
        proof {
            assert(self.items@.skip(0) =~= self.items@);
        }
        while i < self.items.len()
            invariant
                i <= self.items@.len(),
                spec_find(self.items@, id) == i + spec_find(self.items@.skip(i as int), id),
                forall|k: int| 0 <= k < i ==> self.items@[k].id != id,
            decreases self.items@.len() - i,
        {
            if self.items[i].id == id {
                proof {
                    assert(self.items@.skip(i as int)[0] == self.items@[i as int]);
                }
                return i;
            }
            proof {
                assert(self.items@.skip(i as int)[0] == self.items@[i as int]);
                assert(self.items@.skip(i as int).drop_first() =~= self.items@.skip(i + 1 as int));
            }
            i = i + 1;
        }
        proof {
            assert(self.items@.skip(i as int).len() == 0);
        }
        i
    }

    /// Appends a fresh entry with the given title and description.
    pub fn add_todo(&mut self, title: String, description: Option<String>)
        ensures
            final(self).version == old(self).version,
            final(self).items@.len() == old(self).items@.len() + 1,
            final(self).items@.drop_last() == old(self).items@,
            final(self).items@.last().title == title,
            final(self).items@.last().description == description,
            !final(self).items@.last().completed,
            !final(self).items@.last().expanded,
    {
        let todo = TodoItem::new(title, description);
        self.items.push(todo);
        proof {
            assert(final(self).items@.drop_last() =~= old(self).items@);
        }
    }

    /// Removes the first entry with the given identifier; reports whether
    /// one was there.
    pub fn remove_todo(&mut self, id: u128) -> (r: bool)
        ensures
            final(self).version == old(self).version,
            r == (spec_find(old(self).items@, id) < old(self).items@.len()),
            r ==> final(self).items@ == old(self).items@.remove(spec_find(old(self).items@, id)),
            !r ==> final(self).items@ == old(self).items@,
    {
        let i = self.find_index(id);
        if i < self.items.len() {
            self.items.remove(i);
            true
        } else {
            false
        }
    }

    /// Flips completion of the first entry with the given identifier;
    /// reports whether one was there.
    pub fn toggle_todo(&mut self, id: u128) -> (r: bool)
        ensures
            final(self).version == old(self).version,
            r == (spec_find(old(self).items@, id) < old(self).items@.len()),
            final(self).items@.len() == old(self).items@.len(),
            forall|k: int|
                0 <= k < old(self).items@.len() && k != spec_find(old(self).items@, id)
                    ==> final(self).items@[k] == old(self).items@[k],
            r ==> ({
                let j = spec_find(old(self).items@, id);
                &&& final(self).items@[j].completed == !old(self).items@[j].completed
                &&& final(self).items@[j].id == old(self).items@[j].id
                &&& final(self).items@[j].title == old(self).items@[j].title
                &&& final(self).items@[j].description == old(self).items@[j].description
                &&& (final(self).items@[j].completed ==> final(self).items@[j].completed_at_ms
                    is Some)
                &&& (!final(self).items@[j].completed ==> final(self).items@[j].completed_at_ms
                    is None)
            }),
    {
        let i = self.find_index(id);
        if i < self.items.len() {
            let mut item = self.items.remove(i);
            item.toggle_completed();
            self.items.insert(i, item);
            proof {
                assert(final(self).items@ =~= old(self).items@.update(
                    i as int,
                    final(self).items@[i as int],
                ));
            }
            true
        } else {
            false
        }
    }

    /// Flips expansion of the first entry with the given identifier;
    /// reports whether one was there.
    pub fn toggle_expanded(&mut self, id: u128) -> (r: bool)
        ensures
            final(self).version == old(self).version,
            r == (spec_find(old(self).items@, id) < old(self).items@.len()),
            final(self).items@.len() == old(self).items@.len(),
            forall|k: int|
                0 <= k < old(self).items@.len() && k != spec_find(old(self).items@, id)
                    ==> final(self).items@[k] == old(self).items@[k],
            r ==> ({
                let j = spec_find(old(self).items@, id);
                final(self).items@[j] == (TodoItem {
                    expanded: !old(self).items@[j].expanded,
                    ..old(self).items@[j]
                })
            }),
    {
        let i = self.find_index(id);
        if i < self.items.len() {
            let mut item = self.items.remove(i);
            item.toggle_expanded();
            self.items.insert(i, item);
            proof {
                assert(final(self).items@ =~= old(self).items@.update(
                    i as int,
                    final(self).items@[i as int],
                ));
            }
            true
        } else {
            false
        }
    }

    /// Sets expansion of the first entry with the given identifier; reports
    /// whether one was there.
    pub fn set_expanded(&mut self, id: u128, expanded: bool) -> (r: bool)
        ensures
            final(self).version == old(self).version,
            r == (spec_find(old(self).items@, id) < old(self).items@.len()),
            final(self).items@.len() == old(self).items@.len(),
            forall|k: int|
                0 <= k < old(self).items@.len() && k != spec_find(old(self).items@, id)
                    ==> final(self).items@[k] == old(self).items@[k],
            r ==> ({
                let j = spec_find(old(self).items@, id);
                final(self).items@[j] == (TodoItem { expanded, ..old(self).items@[j] })
            }),
    {
        let i = self.find_index(id);
        if i < self.items.len() {
            let mut item = self.items.remove(i);
            item.expanded = expanded;
            self.items.insert(i, item);
            proof {
                assert(final(self).items@ =~= old(self).items@.update(
                    i as int,
                    final(self).items@[i as int],
                ));
            }
            true
        } else {
            false
        }
    }

    /// Replaces the title and description of the first entry with the given
    /// identifier; reports whether one was there.
    pub fn update_todo(&mut self, id: u128, title: String, description: Option<String>) -> (r:
        bool)
        ensures
            final(self).version == old(self).version,
            r == (spec_find(old(self).items@, id) < old(self).items@.len()),
            final(self).items@.len() == old(self).items@.len(),
            forall|k: int|
                0 <= k < old(self).items@.len() && k != spec_find(old(self).items@, id)
                    ==> final(self).items@[k] == old(self).items@[k],
            r ==> ({
                let j = spec_find(old(self).items@, id);
                final(self).items@[j] == (TodoItem { title, description, ..old(self).items@[j] })
            }),
    {
        let i = self.find_index(id);
        if i < self.items.len() {
            let mut item = self.items.remove(i);
            item.title = title;
            item.description = description;
            self.items.insert(i, item);
            proof {
                assert(final(self).items@ =~= old(self).items@.update(
                    i as int,
                    final(self).items@[i as int],
                ));
            }
            true
        } else {
            false
        }
    }

    /// The indices of the entries still open, in order; see
    /// `spec_shown_indices`.
    pub fn get_active_todos(&self) -> (r: Vec<usize>)
        ensures
            r@ == spec_shown_indices(self.items@, false),
    {
        self.shown_indices(false)
    }

    /// The indices of the entries completed, in order; see
    /// `spec_shown_indices`.
    pub fn get_completed_todos(&self) -> (r: Vec<usize>)
        ensures
            r@ == spec_shown_indices(self.items@, true),
    {
        self.shown_indices(true)
    }

    /// The indices of the entries whose completion flag equals `completed`.
    fn shown_indices(&self, completed: bool) -> (r: Vec<usize>)
        ensures
            r@ == spec_shown_indices(self.items@, completed),
    {
        let mut r: Vec<usize> = Vec::new();
        let mut i: usize = 0;
        proof {
            assert(r@ =~= spec_shown_indices(self.items@.take(0), completed));
        }
        while i < self.items.len()
            invariant
                i <= self.items@.len(),
                r@ == spec_shown_indices(self.items@.take(i as int), completed),
            decreases self.items@.len() - i,
        {
            proof {
                assert(self.items@.take(i + 1 as int).drop_last() =~= self.items@.take(i as int));
                assert(self.items@.take(i + 1 as int).last() == self.items@[i as int]);
            }
            if self.items[i].completed == completed {
                r.push(i);
            }
            i = i + 1;
        }
        proof {
            assert(self.items@.take(self.items@.len() as int) =~= self.items@);
        }
        r
    }

    /// The first entry with the given identifier, if any; see `spec_find`.
    pub fn get_todo_by_id(&self, id: u128) -> (r: Option<&TodoItem>)
        ensures
            spec_find(self.items@, id) < self.items@.len() ==> (r matches Some(t) && *t
                == self.items@[spec_find(self.items@, id)]),
            spec_find(self.items@, id) == self.items@.len() ==> r is None,
    {
        let i = self.find_index(id);
        if i < self.items.len() {
            Some(&self.items[i])
        } else {
            None
        }
    }
}

} // verus!
