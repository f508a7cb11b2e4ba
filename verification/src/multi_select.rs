//! A small selection list used inside the settings modal: cyclic navigation
//! over a fixed set of values, one of which is current.

use vstd::prelude::*;

use crate::text::str_eq;

verus! {

/// A value the selection list can offer: it has a label and a fixed set of
/// alternatives, both pinned at the specification level.
pub trait MultiSelectItem: Sized + Copy {
    /// The label's characters.
    spec fn spec_name(&self) -> Seq<char>;

    /// Every alternative, in display order.
    spec fn spec_all() -> Seq<Self>;

    /// The label shown for this value.
    fn name(&self) -> (r: &'static str)
        ensures
            r@ == self.spec_name(),
    ;

    /// Every alternative, in display order.
    fn all() -> (r: Vec<Self>)
        ensures
            r@ == Self::spec_all(),
    ;
}

/// The index of the first entry whose label matches the given value's, or
/// the length when none does.
pub open spec fn spec_position_of<T: MultiSelectItem>(items: Seq<T>, v: T) -> int
    decreases items.len(),
{
    if items.len() == 0 {
        0
    } else if items[0].spec_name() == v.spec_name() {
        0
    } else {
        1 + spec_position_of(items.drop_first(), v)
    }
}

/// What `spec_position_of` returns: the first label match, or the length.
pub proof fn lemma_position_of<T: MultiSelectItem>(items: Seq<T>, v: T)
    ensures
        0 <= spec_position_of(items, v) <= items.len(),
        spec_position_of(items, v) < items.len() ==> items[spec_position_of(
            items,
            v,
        )].spec_name() == v.spec_name(),
        forall|k: int|
            0 <= k < spec_position_of(items, v) ==> items[k].spec_name() != v.spec_name(),
    decreases items.len(),
{
    if items.len() > 0 && items[0].spec_name() != v.spec_name() {
        lemma_position_of(items.drop_first(), v);
        assert forall|k: int|
            0 <= k < spec_position_of(items, v) implies items[k].spec_name() != v.spec_name() by {
            if k > 0 {
                assert(items[k] == items.drop_first()[k - 1]);
            }
        }
    }
}

/// Where the highlight starts: on the first entry whose label matches the
/// current value, or on the first entry when none does.
pub open spec fn spec_start_index<T: MultiSelectItem>(items: Seq<T>, v: T) -> int {
    if spec_position_of(items, v) < items.len() {
        spec_position_of(items, v)
    } else {
        0
    }
}

/// The selection list: the alternatives, the highlighted index, and the
/// value currently in force.
pub struct MultiSelect<T: MultiSelectItem> {
    pub active: bool,
    pub selected_index: usize,
    pub items: Vec<T>,
    pub current_value: T,
}

impl<T: MultiSelectItem> MultiSelect<T> {
    /// Well-formedness: the highlight stays inside the list (and sits at
    /// zero when the list is empty).
    pub open spec fn wf(self) -> bool {
        if self.items@.len() == 0 {
            self.selected_index == 0
        } else {
            self.selected_index < self.items@.len()
        }
    }

    /// The first entry whose label matches the current value's; see
    /// `spec_position_of`.
    fn position_of_current(&self) -> (r: usize)
        ensures
            r == spec_start_index(self.items@, self.current_value),
            self.items@.len() == 0 ==> r == 0,
            self.items@.len() > 0 ==> r < self.items@.len(),
    {
        proof {
            lemma_position_of(self.items@, self.current_value);
        }
        let current_name = self.current_value.name();
        let mut i: usize = 0;
        proof {
            assert(self.items@.skip(0) =~= self.items@);
        }
        while i < self.items.len()
            invariant
                i <= self.items@.len(),
                current_name@ == self.current_value.spec_name(),
                spec_position_of(self.items@, self.current_value) == i + spec_position_of(
                    self.items@.skip(i as int),
                    self.current_value,
                ),
            decreases self.items@.len() - i,
        {
            let entry_name = self.items[i].name();
            let matched = str_eq(entry_name, current_name);
            proof {
                assert(self.items@.skip(i as int)[0] == self.items@[i as int]);
                assert(self.items@.skip(i as int).drop_first() =~= self.items@.skip(i + 1 as int));
                assert(matched == (self.items@[i as int].spec_name()
                    == self.current_value.spec_name()));
            }
            if matched {
                return i;
            }
            i = i + 1;
        }
        proof {
            assert(self.items@.skip(i as int).len() == 0);
        }
        0
    }

    /// A closed list over every alternative, highlighting the entry whose
    /// label matches the current value (the first entry, if none does).
    pub fn new(_title: String, current_value: T) -> (r: MultiSelect<T>)
        ensures
            r.wf(),
            !r.active,
            r.items@ == T::spec_all(),
            r.current_value == current_value,
            r.selected_index == spec_start_index(T::spec_all(), current_value),
    {
        let items = T::all();
        let mut r = MultiSelect { active: false, selected_index: 0, items, current_value };
        r.selected_index = r.position_of_current();
        r
    }

    /// Opens the list, moving the highlight back to the entry whose label
    /// matches the current value (the first entry, if none does).
    pub fn open(&mut self)
        requires
            old(self).wf(),
        ensures
            final(self).wf(),
            final(self).active,
            final(self).items == old(self).items,
            final(self).current_value == old(self).current_value,
            final(self).selected_index == spec_start_index(
                old(self).items@,
                old(self).current_value,
            ),
    {
        self.active = true;
        self.selected_index = self.position_of_current();
    }

    /// Closes the list.
    pub fn close(&mut self)
        ensures
            final(self).wf() == old(self).wf(),
            !final(self).active,
            final(self).selected_index == old(self).selected_index,
            final(self).items == old(self).items,
            final(self).current_value == old(self).current_value,
    {
        self.active = false;
    }

    /// Moves the highlight down one entry, wrapping at the end.
    pub fn next_item(&mut self)
        requires
            old(self).wf(),
        ensures
            final(self).wf(),
            final(self).active == old(self).active,
            final(self).items == old(self).items,
            final(self).current_value == old(self).current_value,
            old(self).items@.len() == 0 ==> final(self).selected_index == 0,
            old(self).items@.len() > 0 ==> final(self).selected_index == (old(
                self,
            ).selected_index + 1) as int % old(self).items@.len() as int,
    {
        if self.items.len() > 0 {
            self.selected_index = (self.selected_index + 1) % self.items.len();
        }
    }

    /// Moves the highlight up one entry, wrapping at the start.
    pub fn previous_item(&mut self)
        requires
            old(self).wf(),
        ensures
            final(self).wf(),
            final(self).active == old(self).active,
            final(self).items == old(self).items,
            final(self).current_value == old(self).current_value,
            old(self).items@.len() == 0 ==> final(self).selected_index == 0,
            old(self).items@.len() > 0 ==> final(self).selected_index == (if old(
                self,
            ).selected_index == 0 {
                old(self).items@.len() - 1
            } else {
                old(self).selected_index - 1
            }),
    {
        if self.items.len() > 0 {
            self.selected_index = if self.selected_index == 0 {
                self.items.len() - 1
            } else {
                self.selected_index - 1
            };
        }
    }

    /// Takes the highlighted entry as the new current value, closes the
    /// list, and returns the value now in force.
    pub fn select_current(&mut self) -> (r: T)
        requires
            old(self).wf(),
        ensures
            final(self).wf(),
            !final(self).active,
            final(self).items == old(self).items,
            final(self).selected_index == old(self).selected_index,
            old(self).items@.len() > 0 ==> final(self).current_value == old(self).items@[old(
                self,
            ).selected_index as int],
            old(self).items@.len() == 0 ==> final(self).current_value == old(self).current_value,
            r == final(self).current_value,
    {
        if self.items.len() > 0 && self.selected_index < self.items.len() {
            self.current_value = self.items[self.selected_index];
        }
        self.active = false;
        self.current_value
    }
}

} // verus!
