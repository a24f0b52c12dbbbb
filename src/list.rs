//! A navigable list with single or multiple selection and a scroll position
//! that follows the selection.

use crate::event::{Event, Key};
use crate::scrollable::ScrollableView;
use vstd::prelude::*;

verus! {

/// How items can be selected.
#[derive(Debug, Clone, Copy, PartialEq, Eq, Structural)]
pub enum SelectionMode {
    /// One selected item.
    Single,
    /// Any number of selected items.
    Multiple,
    /// Selection is off.
    Disabled,
}

impl Default for SelectionMode {
    fn default() -> (r: Self)
        ensures
            r == SelectionMode::Single,
    {
        SelectionMode::Single
    }
}

/// A list of items with a selection.
#[derive(Debug)]
pub struct List<T> {
    pub items: Vec<T>,
    /// The current (cursor) item.
    pub selected_index: Option<usize>,
    /// Items selected in multiple mode, each at most once, in selection order.
    pub selected_indices: Vec<usize>,
    pub selection_mode: SelectionMode,
    pub scroll: ScrollableView,
    pub focused: bool,
    pub dirty: bool,
    /// Rows shown at once.
    pub viewport_height: u16,
}

impl<T> List<T> {
    /// Selected indices hold no index twice.
    pub open spec fn wf(&self) -> bool {
        self.selected_indices@.no_duplicates()
    }

    /// Scroll offset after making row `index` visible.
    pub open spec fn follow_offset(&self, index: usize) -> int {
        ScrollableView::clamped(
            ScrollableView::follow(
                self.scroll.offset_y as int,
                index as int,
                self.viewport_height as int,
                self.scroll.scroll_margin as int,
            ),
            self.scroll.content_height as int,
            self.viewport_height as int,
        )
    }

    /// A list over `items` with nothing selected.
    pub fn new(items: Vec<T>) -> (r: Self)
        ensures
            r.items@ == items@,
            r.selected_index is None,
            r.selected_indices@.len() == 0,
            r.selection_mode == SelectionMode::Single,
            r.scroll == ScrollableView::new_spec(0, items@.len() as usize),
            !r.focused,
            r.dirty,
            r.viewport_height == 10,
            r.wf(),
    {
        let height = items.len();
        List {
            items,
            selected_index: None,
            selected_indices: Vec::new(),
            selection_mode: SelectionMode::Single,
            scroll: ScrollableView::vertical(height),
            focused: false,
            dirty: true,
            viewport_height: 10,
        }
    }

    /// An empty list.
    pub fn empty() -> (r: Self)
        ensures
            r.items@.len() == 0,
            r.selected_index is None,
            r.selected_indices@.len() == 0,
            r.selection_mode == SelectionMode::Single,
            r.wf(),
    {
        Self::new(Vec::new())
    }

    /// Set the selection mode.
    pub fn with_selection_mode(self, mode: SelectionMode) -> (r: Self)
        ensures
            r.selection_mode == mode,
            r.items@ == self.items@,
            r.selected_index == self.selected_index,
            r.selected_indices@ == self.selected_indices@,
    {
        let mut l = self;
        l.selection_mode = mode;
        l
    }

    /// Replace the items, clearing the selection and the scroll position.
    pub fn set_items(&mut self, items: Vec<T>)
        ensures
            final(self).items@ == items@,
            final(self).selected_index is None,
            final(self).selected_indices@.len() == 0,
            final(self).scroll == ScrollableView::new_spec(0, items@.len() as usize),
            final(self).selection_mode == old(self).selection_mode,
            final(self).dirty,
            final(self).wf(),
    {
        let height = items.len();
        self.items = items;
        self.selected_index = None;
        self.selected_indices = Vec::new();
        self.scroll = ScrollableView::vertical(height);
        self.dirty = true;
    }

    /// The items.
    pub fn items(&self) -> (r: &[T])
        ensures
            r@ == self.items@,
    {
        self.items.as_slice()
    }

    /// Mutable access to the items; the list is marked for redraw.
    pub fn items_mut(&mut self) -> (r: &mut Vec<T>)
        ensures
            *r == old(self).items,
            final(self).items == *final(r),
            final(self).dirty,
            final(self).selected_index == old(self).selected_index,
    {
        self.dirty = true;
        &mut self.items
    }

    /// Number of items.
    pub fn len(&self) -> (r: usize)
        ensures
            r == self.items@.len(),
    {
        self.items.len()
    }

    /// Whether there are no items.
    pub fn is_empty(&self) -> (r: bool)
        ensures
            r == (self.items@.len() == 0),
    {
        self.items.len() == 0
    }

    /// The current item's index.
    pub fn selected_index(&self) -> (r: Option<usize>)
        ensures
            r == self.selected_index,
    {
        self.selected_index
    }

    /// The current item, if the index is in range.
    pub fn selected(&self) -> (r: Option<&T>)
        ensures
            r == match self.selected_index {
                Some(i) => if i < self.items@.len() {
                    Some(&self.items@[i as int])
                } else {
                    None
                },
                None => None,
            },
    {
        match self.selected_index {
            Some(i) => if i < self.items.len() {
                Some(&self.items[i])
            } else {
                None
            },
            None => None,
        }
    }

    /// Whether `index` is in the selected indices.
    fn indices_contain(&self, index: usize) -> (r: bool)
        ensures
            r == self.selected_indices@.contains(index),
    {
        let mut k: usize = 0;
        while k < self.selected_indices.len()
            invariant
                k <= self.selected_indices@.len(),
                forall|j: int| 0 <= j < k ==> self.selected_indices@[j] != index,
            decreases self.selected_indices@.len() - k,
        {
            if self.selected_indices[k] == index {
                return true;
            }
            k = k + 1;
        }
        false
    }

    /// Position of `index` among the selected indices.
    fn position_of(&self, index: usize) -> (r: Option<usize>)
        ensures
            match r {
                Some(k) => k < self.selected_indices@.len() && self.selected_indices@[k as int] == index,
                None => !self.selected_indices@.contains(index),
            },
    {
        let mut k: usize = 0;
        while k < self.selected_indices.len()
            invariant
                k <= self.selected_indices@.len(),
                forall|j: int| 0 <= j < k ==> self.selected_indices@[j] != index,
            decreases self.selected_indices@.len() - k,
        {
            if self.selected_indices[k] == index {
                return Some(k);
            }
            k = k + 1;
        }
        None
    }

    /// The item `select_next` moves to.
    pub open spec fn next_index(&self) -> usize {
        match self.selected_index {
            Some(i) => if i + 1 < self.items@.len() { (i + 1) as usize } else { i },
            None => 0usize,
        }
    }

    /// The item `select_prev` moves to.
    pub open spec fn prev_index(&self) -> usize {
        match self.selected_index {
            Some(i) => if i > 0 { (i - 1) as usize } else { i },
            None => (self.items@.len() - 1) as usize,
        }
    }

    /// Make row `index` visible.
    fn ensure_visible(&mut self, index: usize)
        ensures
            final(self).scroll.offset_y == old(self).follow_offset(index),
            final(self).scroll.content_height == old(self).scroll.content_height,
            final(self).items == old(self).items,
            final(self).selected_index == old(self).selected_index,
            final(self).selected_indices == old(self).selected_indices,
            final(self).selection_mode == old(self).selection_mode,
            final(self).viewport_height == old(self).viewport_height,
            final(self).dirty == old(self).dirty,
            final(self).focused == old(self).focused,
    {
        let vh = self.viewport_height as usize;
        self.scroll.ensure_visible(0, index, 1, vh);
    }

    /// Select item `index`: it becomes the current item and, in multiple
    /// mode, joins the selected indices; the view scrolls to it. Fails when
    /// out of range or when selection is disabled.
    pub fn select(&mut self, index: usize) -> (r: bool)
        requires
            old(self).wf(),
        ensures
            r == (index < old(self).items@.len() && old(self).selection_mode != SelectionMode::Disabled),
            r ==> final(self).selected_index == Some(index) && final(self).scroll.offset_y
                == old(self).follow_offset(index) && final(self).dirty,
            r && old(self).selection_mode == SelectionMode::Multiple ==> final(self).selected_indices@
                == if old(self).selected_indices@.contains(index) {
                old(self).selected_indices@
            } else {
                old(self).selected_indices@.push(index)
            },
            !r || old(self).selection_mode != SelectionMode::Multiple ==> final(self).selected_indices
                == old(self).selected_indices,
            !r ==> final(self).selected_index == old(self).selected_index && final(self).scroll
                == old(self).scroll,
            final(self).items == old(self).items,
            final(self).selection_mode == old(self).selection_mode,
            final(self).viewport_height == old(self).viewport_height,
            final(self).wf(),
    {
        if index < self.items.len() {
            match self.selection_mode {
                SelectionMode::Single => {
                    self.selected_index = Some(index);
                },
                SelectionMode::Multiple => {
                    if !self.indices_contain(index) {
                        self.selected_indices.push(index);
                    }
                    self.selected_index = Some(index);
                },
                SelectionMode::Disabled => {
                    return false;
                },
            }
            self.ensure_visible(index);
            self.dirty = true;
            true
        } else {
            false
        }
    }

    /// In multiple mode: unselect `index` if selected, else select it if in range.
    pub fn toggle_select(&mut self, index: usize)
        requires
            old(self).wf(),
        ensures
            old(self).selection_mode != SelectionMode::Multiple ==> final(self).selected_indices
                == old(self).selected_indices,
            old(self).selection_mode == SelectionMode::Multiple && old(self).selected_indices@.contains(index) ==> !final(self).selected_indices@.contains(index) && forall|j: usize|
                j != index ==> (final(self).selected_indices@.contains(j) == old(self).selected_indices@.contains(j)),
            old(self).selection_mode == SelectionMode::Multiple && !old(self).selected_indices@.contains(index) ==> final(self).selected_indices@
                == if index < old(self).items@.len() {
                old(self).selected_indices@.push(index)
            } else {
                old(self).selected_indices@
            },
            final(self).items == old(self).items,
            final(self).selected_index == old(self).selected_index,
            final(self).selection_mode == old(self).selection_mode,
            final(self).wf(),
    {
        if self.selection_mode != SelectionMode::Multiple {
            return;
        }
        match self.position_of(index) {
            Some(k) => {
                let ghost before = self.selected_indices@;
                self.selected_indices.remove(k);
                proof {
                    assert forall|j: usize| j != index implies (self.selected_indices@.contains(j) == before.contains(j)) by {
                        if before.contains(j) {
                            let p = choose|p: int| 0 <= p < before.len() && before[p] == j;
                            if p < k {
                                assert(self.selected_indices@[p] == j);
                            } else {
                                assert(p != k);
                                assert(self.selected_indices@[p - 1] == j);
                            }
                        }
                        if self.selected_indices@.contains(j) {
                            let p = choose|p: int| 0 <= p < self.selected_indices@.len() && self.selected_indices@[p] == j;
                            if p < k {
                                assert(before[p] == j);
                            } else {
                                assert(before[p + 1] == j);
                            }
                        }
                    }
                    assert(!self.selected_indices@.contains(index)) by {
                        if self.selected_indices@.contains(index) {
                            let p = choose|p: int| 0 <= p < self.selected_indices@.len() && self.selected_indices@[p] == index;
                            if p < k {
                                assert(before[p] == index);
                            } else {
                                assert(before[p + 1] == index);
                                assert(before[k as int] == index);
                            }
                        }
                    }
                    assert(self.selected_indices@.no_duplicates()) by {
                        assert forall|a: int, b: int| 0 <= a < b < self.selected_indices@.len() implies self.selected_indices@[a] != self.selected_indices@[b] by {
                            let a2 = if a < k { a } else { a + 1 };
                            let b2 = if b < k { b } else { b + 1 };
                            assert(before[a2] != before[b2]);
                        }
                    }
                }
            },
            None => {
                if index < self.items.len() {
                    self.selected_indices.push(index);
                }
            },
        }
        self.dirty = true;
    }

    /// Clear the current item and the selected indices.
    pub fn clear_selection(&mut self)
        ensures
            final(self).selected_index is None,
            final(self).selected_indices@.len() == 0,
            final(self).items == old(self).items,
            final(self).selection_mode == old(self).selection_mode,
            final(self).wf(),
    {
        self.selected_index = None;
        self.selected_indices = Vec::new();
        self.dirty = true;
    }

    /// Move to the next item (the first when none is current); stays at the end.
    pub fn select_next(&mut self) -> (r: bool)
        requires
            old(self).wf(),
        ensures
            old(self).items@.len() == 0 ==> !r && final(self).selected_index == old(self).selected_index,
            old(self).items@.len() > 0 ==> r == (old(self).selection_mode != SelectionMode::Disabled
                && old(self).next_index() < old(self).items@.len()),
            r ==> final(self).selected_index == Some(old(self).next_index()),
            final(self).selection_mode == old(self).selection_mode,
            !r ==> final(self).selected_index == old(self).selected_index,
            final(self).items == old(self).items,
            final(self).wf(),
    {
        if self.items.len() == 0 {
            return false;
        }
        let new_index = match self.selected_index {
            Some(i) => if i < self.items.len() - 1 { i + 1 } else { i },
            None => 0,
        };
        self.select(new_index)
    }

    /// Move to the previous item (the last when none is current); stays at the start.
    pub fn select_prev(&mut self) -> (r: bool)
        requires
            old(self).wf(),
        ensures
            old(self).items@.len() == 0 ==> !r && final(self).selected_index == old(self).selected_index,
            old(self).items@.len() > 0 ==> r == (old(self).selection_mode != SelectionMode::Disabled
                && old(self).prev_index() < old(self).items@.len()),
            r ==> final(self).selected_index == Some(old(self).prev_index()),
            final(self).selection_mode == old(self).selection_mode,
            !r ==> final(self).selected_index == old(self).selected_index,
            final(self).items == old(self).items,
            final(self).wf(),
    {
        if self.items.len() == 0 {
            return false;
        }
        let new_index = match self.selected_index {
            Some(i) => if i > 0 { i - 1 } else { i },
            None => self.items.len() - 1,
        };
        self.select(new_index)
    }

    /// Move to the first item.
    pub fn select_first(&mut self) -> (r: bool)
        requires
            old(self).wf(),
        ensures
            r == (old(self).items@.len() > 0 && old(self).selection_mode != SelectionMode::Disabled),
            r ==> final(self).selected_index == Some(0usize),
            final(self).selection_mode == old(self).selection_mode,
            !r ==> final(self).selected_index == old(self).selected_index,
            final(self).items == old(self).items,
            final(self).wf(),
    {
        if self.items.len() == 0 {
            return false;
        }
        self.select(0)
    }

    /// Move to the last item.
    pub fn select_last(&mut self) -> (r: bool)
        requires
            old(self).wf(),
        ensures
            r == (old(self).items@.len() > 0 && old(self).selection_mode != SelectionMode::Disabled),
            r ==> final(self).selected_index == Some((old(self).items@.len() - 1) as usize),
            final(self).selection_mode == old(self).selection_mode,
            !r ==> final(self).selected_index == old(self).selected_index,
            final(self).items == old(self).items,
            final(self).wf(),
    {
        if self.items.len() == 0 {
            return false;
        }
        let last = self.items.len() - 1;
        self.select(last)
    }

    /// Move down a page (the viewport height, at least one), at most to the last item.
    pub fn page_down(&mut self) -> (r: bool)
        requires
            old(self).wf(),
        ensures
            r == (old(self).items@.len() > 0 && old(self).selection_mode != SelectionMode::Disabled),
            r ==> final(self).selected_index == Some(match old(self).selected_index {
                Some(i) => if i + (if old(self).viewport_height >= 1 { old(self).viewport_height as int } else { 1 }) < old(self).items@.len() - 1 {
                    (i + (if old(self).viewport_height >= 1 { old(self).viewport_height as int } else { 1 })) as usize
                } else {
                    (old(self).items@.len() - 1) as usize
                },
                None => 0usize,
            }),
            final(self).selection_mode == old(self).selection_mode,
            !r ==> final(self).selected_index == old(self).selected_index,
            final(self).items == old(self).items,
            final(self).wf(),
    {
        if self.items.len() == 0 {
            return false;
        }
        let page: usize = if self.viewport_height >= 1 { self.viewport_height as usize } else { 1 };
        let last = self.items.len() - 1;
        let new_index = match self.selected_index {
            Some(i) => if i < last && last - i > page { i + page } else { last },
            None => 0,
        };
        self.select(new_index)
    }

    /// Move up a page (the viewport height, at least one), at most to the first item.
    pub fn page_up(&mut self) -> (r: bool)
        requires
            old(self).wf(),
        ensures
            old(self).items@.len() == 0 ==> !r,
            r ==> final(self).selected_index == Some(match old(self).selected_index {
                Some(i) => if i >= (if old(self).viewport_height >= 1 { old(self).viewport_height as int } else { 1 }) {
                    (i - (if old(self).viewport_height >= 1 { old(self).viewport_height as int } else { 1 })) as usize
                } else {
                    0usize
                },
                None => 0usize,
            }),
            final(self).selection_mode == old(self).selection_mode,
            !r ==> final(self).selected_index == old(self).selected_index,
            final(self).items == old(self).items,
            final(self).wf(),
    {
        if self.items.len() == 0 {
            return false;
        }
        let page: usize = if self.viewport_height >= 1 { self.viewport_height as usize } else { 1 };
        let new_index = match self.selected_index {
            Some(i) => i.saturating_sub(page),
            None => 0,
        };
        self.select(new_index)
    }

    /// First visible row.
    pub fn scroll_offset(&self) -> (r: usize)
        ensures
            r == self.scroll.offset_y,
    {
        self.scroll.offset_y()
    }

    /// Whether item `index` is selected under the current mode.
    pub fn is_selected(&self, index: usize) -> (r: bool)
        ensures
            r == match self.selection_mode {
                SelectionMode::Single => self.selected_index == Some(index),
                SelectionMode::Multiple => self.selected_indices@.contains(index),
                SelectionMode::Disabled => false,
            },
    {
        match self.selection_mode {
            SelectionMode::Single => match self.selected_index {
                Some(i) => i == index,
                None => false,
            },
            SelectionMode::Multiple => self.indices_contain(index),
            SelectionMode::Disabled => false,
        }
    }

    /// The selected indices, in selection order.
    pub fn selected_indices(&self) -> (r: &[usize])
        ensures
            r@ == self.selected_indices@,
    {
        self.selected_indices.as_slice()
    }

    /// Set focus; the list is marked for redraw when focus changes.
    pub fn set_focused(&mut self, focused: bool)
        ensures
            final(self).focused == focused,
            final(self).dirty == (old(self).dirty || old(self).focused != focused),
            final(self).items == old(self).items,
            final(self).selected_index == old(self).selected_index,
            final(self).selected_indices == old(self).selected_indices,
    {
        if self.focused != focused {
            self.focused = focused;
            self.dirty = true;
        }
    }

    /// Whether the list has focus.
    pub fn is_focused(&self) -> (r: bool)
        ensures
            r == self.focused,
    {
        self.focused
    }

    /// Keys the list responds to: j/k and arrows, g/G, Ctrl-D/U and page
    /// keys, and space in multiple selection mode.
    pub open spec fn is_list_key(&self, key: Key) -> bool {
        key == Key::Char('j') || key == Key::Down || key == Key::Char('k') || key == Key::Up || key
            == Key::Char('g') || key == Key::Char('G') || key == Key::Ctrl('d') || key == Key::PageDown
            || key == Key::Ctrl('u') || key == Key::PageUp || (key == Key::Char(' ')
            && self.selection_mode == SelectionMode::Multiple)
    }

    /// Handle a key while focused: move the selection, or toggle the current
    /// item with space in multiple mode.
    pub fn handle_event(&mut self, event: &Event) -> (r: bool)
        requires
            old(self).wf(),
        ensures
            final(self).wf(),
            final(self).items == old(self).items,
            r == (old(self).focused && match *event {
                Event::Key(k) => old(self).is_list_key(k),
                _ => false,
            }),
            !r ==> final(self).selected_index == old(self).selected_index
                && final(self).selected_indices == old(self).selected_indices,
            r && (*event == Event::Key(Key::Char('g'))) && old(self).items@.len() > 0
                && old(self).selection_mode != SelectionMode::Disabled ==> final(self).selected_index == Some(0usize),
            r && (*event == Event::Key(Key::Char('G'))) && old(self).items@.len() > 0
                && old(self).selection_mode != SelectionMode::Disabled ==> final(self).selected_index
                == Some((old(self).items@.len() - 1) as usize),
            r && (*event == Event::Key(Key::Char('j')) || *event == Event::Key(Key::Down)) && old(self).items@.len() > 0
                && old(self).selection_mode != SelectionMode::Disabled && old(self).next_index() < old(self).items@.len()
                ==> final(self).selected_index == Some(old(self).next_index()),
            r && (*event == Event::Key(Key::Char('k')) || *event == Event::Key(Key::Up)) && old(self).items@.len() > 0
                && old(self).selection_mode != SelectionMode::Disabled && old(self).prev_index() < old(self).items@.len()
                ==> final(self).selected_index == Some(old(self).prev_index()),
    {
        if !self.focused {
            return false;
        }
        match event {
            Event::Key(key) => match key {
                Key::Char('j') | Key::Down => {
                    self.select_next();
                    true
                },
                Key::Char('k') | Key::Up => {
                    self.select_prev();
                    true
                },
                Key::Char('g') => {
                    self.select_first();
                    true
                },
                Key::Char('G') => {
                    self.select_last();
                    true
                },
                Key::Ctrl('d') | Key::PageDown => {
                    self.page_down();
                    true
                },
                Key::Ctrl('u') | Key::PageUp => {
                    self.page_up();
                    true
                },
                Key::Char(' ') => {
                    if self.selection_mode == SelectionMode::Multiple {
                        if let Some(idx) = self.selected_index {
                            self.toggle_select(idx);
                        }
                        true
                    } else {
                        false
                    }
                },
                _ => false,
            },
            _ => false,
        }
    }
}

} // verus!
