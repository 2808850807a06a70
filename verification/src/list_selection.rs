use vstd::prelude::*;
use vstd::arithmetic::div_mod::{
    lemma_add_mod_noop_right, lemma_mod_add_multiples_vanish, lemma_mod_bound, lemma_small_mod,
};
use vstd::std_specs::cmp::PartialEqSpec;
use crate::key::{Key, KeyCode};

verus! {

/// The mark that stands before the selected item of a list.
pub const HIGHLIGHT_SYMBOL: &'static str = ">>";

/// How the selected item of a list is set off from the others.
#[derive(Debug, Clone, Copy, PartialEq, Eq, Structural)]
pub struct Highlight {
    /// Whether the item is written in bold.
    pub bold: bool,
    /// Whether the item is written in italics.
    pub italic: bool,
    /// Whether the item stands on a coloured background.
    pub background: bool,
}

/// The highlight of a list: in the active list the selected item is bold and italic on
/// a coloured background, and in a list that is not active it is only italic.
pub open spec fn highlight_of(active: bool) -> Highlight {
    Highlight { bold: active, italic: true, background: active }
}

/// What a list with a selection is: its items in order, the index of the selected one
/// if there is one, whether the list is highlighted as the active one, and its caption.
pub struct ListSelectionView<T> {
    pub items: Seq<T>,
    pub selected: Option<nat>,
    pub active: bool,
    pub title: Seq<char>,
}

impl<T> ListSelectionView<T> {
    /// The list with its highlight set to `active`.
    pub open spec fn with_active(self, active: bool) -> Self {
        ListSelectionView { active, ..self }
    }

    /// The selection is an index of the list, and there is one unless the list is empty.
    pub open spec fn wf(self) -> bool {
        selection_fits(self.selected, self.items.len())
    }
}

/// A list of items, one of which is selected unless the list is empty.
#[derive(Debug)]
pub struct ListSelection<T> {
    items: Vec<T>,
    item_cursor: Option<usize>,
    active: bool,
    title: &'static str,
}

impl<T> View for ListSelection<T> {
    type V = ListSelectionView<T>;

    closed spec fn view(&self) -> ListSelectionView<T> {
        ListSelectionView {
            items: self.items@,
            selected: index_view(self.item_cursor),
            active: self.active,
            title: self.title@,
        }
    }
}

/// An index as a natural number.
pub open spec fn index_view(index: Option<usize>) -> Option<nat> {
    match index {
        Some(i) => Some(i as nat),
        None => None,
    }
}

/// The selection that a list of `len` items starts with: the first item, or none where
/// there is no item.
pub open spec fn first_index(len: nat) -> Option<nat> {
    if len == 0 {
        None
    } else {
        Some(0)
    }
}

/// The selection after a step forward in a list of `len` items: the following index,
/// the first one after the last, and none in an empty list.
pub open spec fn next_index(selected: Option<nat>, len: nat) -> Option<nat> {
    if len == 0 {
        None
    } else {
        match selected {
            Some(i) => Some(((i as int + 1) % (len as int)) as nat),
            None => Some(0),
        }
    }
}

/// The selection after a step backward in a list of `len` items: the preceding index,
/// the last one before the first, and none in an empty list.
pub open spec fn previous_index(selected: Option<nat>, len: nat) -> Option<nat> {
    if len == 0 {
        None
    } else {
        match selected {
            Some(i) => if i == 0 {
                Some((len - 1) as nat)
            } else {
                Some((i - 1) as nat)
            },
            None => Some((len - 1) as nat),
        }
    }
}

/// The selection after `steps` steps forward.
pub open spec fn next_index_times(selected: Option<nat>, len: nat, steps: nat) -> Option<nat>
    decreases steps,
{
    if steps == 0 {
        selected
    } else {
        next_index(next_index_times(selected, len, (steps - 1) as nat), len)
    }
}

/// The selection after `steps` steps backward.
pub open spec fn previous_index_times(selected: Option<nat>, len: nat, steps: nat) -> Option<nat>
    decreases steps,
{
    if steps == 0 {
        selected
    } else {
        previous_index(previous_index_times(selected, len, (steps - 1) as nat), len)
    }
}

/// Whether a selection fits a list of `len` items: an index of the list, or none where
/// the list is empty.
pub open spec fn selection_fits(selected: Option<nat>, len: nat) -> bool {
    match selected {
        Some(i) => i < len,
        None => len == 0,
    }
}

/// Whether `i` is the first place in `items` that holds an item equal to `object`.
pub open spec fn is_first_match<T: PartialEq>(items: Seq<T>, object: T, i: int) -> bool {
    &&& 0 <= i < items.len()
    &&& items[i].eq_spec(&object)
    &&& forall|j: int| 0 <= j < i ==> !(#[trigger] items[j]).eq_spec(&object)
}

/// Whether some place in `items` holds an item equal to `object`.
pub open spec fn has_match<T: PartialEq>(items: Seq<T>, object: T) -> bool {
    exists|i: int| 0 <= i < items.len() && (#[trigger] items[i]).eq_spec(&object)
}

impl<T> ListSelection<T> {
    /// The selection is an index of the list, and there is one unless the list is empty.
    pub open spec fn wf(&self) -> bool {
        self@.wf()
    }

    /// What a list is when it is made: not highlighted, with its first item selected.
    pub open spec fn new_view(items: Seq<T>, title: Seq<char>) -> ListSelectionView<T> {
        ListSelectionView { items, selected: first_index(items.len()), active: false, title }
    }

    /// A list that is not highlighted, with its first item selected.
    pub fn new(items: Vec<T>, title: &'static str) -> (r: Self)
        ensures
            r.wf(),
            r@ == Self::new_view(items@, title@),
    {
        let item_cursor = if items.len() == 0 {
            None
        } else {
            Some(0)
        };
        Self { items, item_cursor, active: false, title }
    }

    /// Replaces the items. The first of the new items is selected, whatever was
    /// selected before.
    pub fn set_items(&mut self, items: Vec<T>)
        ensures
            final(self).wf(),
            final(self)@ == (ListSelectionView {
                items: items@,
                selected: first_index(items@.len()),
                ..old(self)@
            }),
            items@.len() > 0 ==> final(self)@.selected == Some(0nat),
    {
        let item_cursor = if items.len() == 0 {
            None
        } else {
            Some(0)
        };
        self.items = items;
        self.item_cursor = item_cursor;
    }

    /// Turns the highlight of the list on if it was off, and off if it was on.
    pub fn switch_active(&mut self)
        ensures
            final(self)@ == (ListSelectionView { active: !old(self)@.active, ..old(self)@ }),
    {
        self.active = !self.active
    }

    /// The selected item.
    pub fn selected(&self) -> (r: Option<&T>)
        requires
            self.wf(),
        ensures
            r == match self@.selected {
                Some(i) => Some(&self@.items[i as int]),
                None => None,
            },
    {
        match self.item_cursor {
            Some(selected) => Some(&self.items[selected]),
            None => None,
        }
    }

    /// Selects the first item again.
    pub fn reset(&mut self)
        ensures
            final(self).wf(),
            final(self)@ == (ListSelectionView {
                selected: first_index(old(self)@.items.len()),
                ..old(self)@
            }),
    {
        self.item_cursor = if self.items.len() == 0 {
            None
        } else {
            Some(0)
        };
    }

    /// Selects the following item, and the first one after the last.
    pub fn select_next(&mut self)
        requires
            old(self).wf(),
        ensures
            final(self).wf(),
            final(self)@ == (ListSelectionView {
                selected: next_index(old(self)@.selected, old(self)@.items.len()),
                ..old(self)@
            }),
            old(self)@.items.len() == 0 ==> final(self)@.selected.is_none(),
    {
        if self.items.len() == 0 {
            self.item_cursor = None;
            return ;
        }
        let next_index = match self.item_cursor {
            Some(selected) => (selected + 1) % self.items.len(),
            None => 0,
        };
        self.item_cursor = Some(next_index);
    }

    /// Selects the preceding item, and the last one before the first.
    pub fn select_previous(&mut self)
        requires
            old(self).wf(),
        ensures
            final(self).wf(),
            final(self)@ == (ListSelectionView {
                selected: previous_index(old(self)@.selected, old(self)@.items.len()),
                ..old(self)@
            }),
            old(self)@.items.len() == 0 ==> final(self)@.selected.is_none(),
    {
        if self.items.len() == 0 {
            self.item_cursor = None;
            return ;
        }
        let previous_index = match self.item_cursor {
            Some(selected) => {
                if selected == 0 {
                    self.items.len() - 1
                } else {
                    selected - 1
                }
            },
            None => self.items.len() - 1,
        };
        self.item_cursor = Some(previous_index);
    }

    /// What a key press does to the selection of a list of `len` items: `j` steps
    /// forward, `k` steps backward, and any other key does nothing.
    pub open spec fn selection_after_key(selected: Option<nat>, len: nat, key: Key) -> Option<
        nat,
    > {
        match key.code {
            KeyCode::Char(c) => if c == 'j' {
                next_index(selected, len)
            } else if c == 'k' {
                previous_index(selected, len)
            } else {
                selected
            },
            _ => selected,
        }
    }

    /// Applies one key press to the list.
    pub fn handle_key_events(&mut self, key: Key)
        requires
            old(self).wf(),
        ensures
            final(self).wf(),
            final(self)@ == (ListSelectionView {
                selected: Self::selection_after_key(
                    old(self)@.selected,
                    old(self)@.items.len(),
                    key,
                ),
                ..old(self)@
            }),
    {
        match key.code {
            KeyCode::Char(c) => {
                if c == 'j' {
                    self.select_next();
                } else if c == 'k' {
                    self.select_previous();
                }
            },
            _ => {},
        }
    }

    /// How the selected item is set off when the list is drawn.
    pub fn highlight(&self) -> (r: Highlight)
        ensures
            r == highlight_of(self@.active),
    {
        Highlight { bold: self.active, italic: true, background: self.active }
    }

    /// The items of the list, in order.
    pub fn items(&self) -> (r: &Vec<T>)
        ensures
            r@ == self@.items,
    {
        &self.items
    }

    /// The index of the selected item.
    pub fn selected_index(&self) -> (r: Option<usize>)
        ensures
            index_view(r) == self@.selected,
    {
        self.item_cursor
    }

    /// Whether the list is highlighted as the active one.
    pub fn is_active(&self) -> (r: bool)
        ensures
            r == self@.active,
    {
        self.active
    }

    /// The caption of the list.
    pub fn title(&self) -> (r: &'static str)
        ensures
            r@ == self@.title,
    {
        self.title
    }
}

impl<T: PartialEq> ListSelection<T> {
    /// Selects the first item that is equal to `object` and says whether there is one.
    /// Where there is none the selection stays as it is.
    pub fn set_selected(&mut self, object: T) -> (found: bool)
        requires
            old(self).wf(),
        ensures
            final(self).wf(),
            final(self)@.items == old(self)@.items,
            final(self)@.active == old(self)@.active,
            final(self)@.title == old(self)@.title,
            T::obeys_eq_spec() ==> found == has_match(old(self)@.items, object),
            T::obeys_eq_spec() && found ==> final(self)@.selected.is_some() && is_first_match(
                old(self)@.items,
                object,
                final(self)@.selected.unwrap() as int,
            ),
            !found ==> final(self)@.selected == old(self)@.selected,
    {
        let mut index: usize = 0;
        while index < self.items.len()
            invariant
                index <= self.items.len(),
                *self == *old(self),
                T::obeys_eq_spec() ==> forall|j: int|
                    0 <= j < index ==> !(#[trigger] self.items@[j]).eq_spec(&object),
            decreases self.items.len() - index,
        {
            if self.items[index] == object {
                self.item_cursor = Some(index);
                return true;
            }
            index += 1;
        }
        false
    }
}

/// In a list that has items, as many steps forward as there are items lead back to the
/// selection they started from.
pub proof fn select_next_cycles(selected: Option<nat>, len: nat)
    requires
        len >= 1,
        selection_fits(selected, len),
    ensures
        next_index_times(selected, len, len) == selected,
{
    let i = selected.unwrap();
    steps_forward(i, len, len);
    lemma_mod_add_multiples_vanish(i as int, len as int);
    lemma_small_mod(i, len);
    assert(i as int + len as int == len as int + i as int);
}

/// In a list that has items, as many steps backward as there are items lead back to
/// the selection they started from.
pub proof fn select_previous_cycles(selected: Option<nat>, len: nat)
    requires
        len >= 1,
        selection_fits(selected, len),
    ensures
        previous_index_times(selected, len, len) == selected,
{
    let i = selected.unwrap();
    steps_backward(i, len, len);
    lemma_small_mod(i, len);
    assert(i as int - len as int + len as int == i as int);
}

/// In an empty list a step forward or backward leaves nothing selected, and so does
/// any number of further steps.
pub proof fn empty_list_selects_nothing(selected: Option<nat>, steps: nat)
    ensures
        next_index(selected, 0).is_none(),
        previous_index(selected, 0).is_none(),
        next_index_times(next_index(selected, 0), 0, steps).is_none(),
        previous_index_times(previous_index(selected, 0), 0, steps).is_none(),
    decreases steps,
{
    if steps > 0 {
        empty_list_selects_nothing(selected, (steps - 1) as nat);
    }
}

/// After `steps` steps forward from index `i` the selection is `i + steps`, counted
/// round the list.
proof fn steps_forward(i: nat, len: nat, steps: nat)
    requires
        i < len,
    ensures
        next_index_times(Some(i), len, steps) == Some(
            ((i as int + steps as int) % (len as int)) as nat,
        ),
    decreases steps,
{
    let m = len as int;
    if steps == 0 {
        lemma_small_mod(i, len);
    } else {
        steps_forward(i, len, (steps - 1) as nat);
        let x = i as int + steps as int - 1;
        lemma_mod_bound(x, m);
        lemma_add_mod_noop_right(1, x, m);
        assert(1 + x == i as int + steps as int);
        assert((x % m + 1) % m == (i as int + steps as int) % m);
    }
}

/// After `steps` steps backward from index `i`, with `steps` no more than the length
/// of the list, the selection is `i - steps`, counted round the list.
proof fn steps_backward(i: nat, len: nat, steps: nat)
    requires
        i < len,
        steps <= len,
    ensures
        previous_index_times(Some(i), len, steps) == Some(
            ((i as int - steps as int + len as int) % (len as int)) as nat,
        ),
    decreases steps,
{
    let m = len as int;
    if steps == 0 {
        lemma_mod_add_multiples_vanish(i as int, m);
        lemma_small_mod(i, len);
        assert(i as int - 0 + m == m + i as int);
    } else {
        steps_backward(i, len, (steps - 1) as nat);
        let x = i as int - (steps as int - 1) + m;
        let before = x % m;
        lemma_mod_bound(x, m);
        lemma_add_mod_noop_right(-1, x, m);
        assert(-1 + x == i as int - steps as int + m);
        assert((before - 1) % m == (i as int - steps as int + m) % m);
        if before == 0 {
            lemma_mod_add_multiples_vanish(-1, m);
            lemma_small_mod((m - 1) as nat, len);
        } else {
            lemma_small_mod((before - 1) as nat, len);
        }
    }
}

} // verus!
