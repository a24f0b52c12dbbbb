//! Focus tracking with Tab / Shift-Tab navigation in tab-index order.

use crate::strings::str_eq;
use vstd::prelude::*;
use vstd::string::StringExecFns;

verus! {

/// Direction of a focus move.
#[derive(Debug, Clone, Copy, PartialEq, Eq, Structural)]
pub enum FocusDirection {
    Next,
    Previous,
    Up,
    Down,
    Left,
    Right,
}

/// Whether a direction moves forward in the focus order.
pub open spec fn is_forward(d: FocusDirection) -> bool {
    d == FocusDirection::Next || d == FocusDirection::Down || d == FocusDirection::Right
}

/// A registered component.
#[derive(Debug, Clone)]
pub struct FocusableInfo {
    pub id: String,
    /// Whether it can take focus.
    pub focusable: bool,
    /// Position in the focus order, lower first.
    pub tab_index: i32,
    pub group: Option<String>,
}

impl FocusableInfo {
    /// A focusable component with tab index 0 and no group.
    pub fn new(id: &str) -> (r: Self)
        ensures
            r.id@ == id@,
            r.focusable,
            r.tab_index == 0,
            r.group is None,
    {
        FocusableInfo { id: String::from_str(id), focusable: true, tab_index: 0, group: None }
    }

    /// Set the tab index.
    pub fn with_tab_index(self, index: i32) -> (r: Self)
        ensures
            r.tab_index == index,
            r.id == self.id,
            r.focusable == self.focusable,
    {
        let mut s = self;
        s.tab_index = index;
        s
    }

    /// Set the group.
    pub fn with_group(self, group: &str) -> (r: Self)
        ensures
            r.group is Some && r.group->0@ == group@,
            r.id == self.id,
            r.focusable == self.focusable,
            r.tab_index == self.tab_index,
    {
        let mut s = self;
        s.group = Some(String::from_str(group));
        s
    }

    /// Set whether it can take focus.
    pub fn with_focusable(self, focusable: bool) -> (r: Self)
        ensures
            r.focusable == focusable,
            r.id == self.id,
            r.tab_index == self.tab_index,
    {
        let mut s = self;
        s.focusable = focusable;
        s
    }
}

/// Index of the first entry at or after `i` with id `id`, or -1.
pub open spec fn id_find(s: Seq<FocusableInfo>, id: Seq<char>, i: int) -> int
    decreases s.len() - i,
{
    if i < 0 || i >= s.len() {
        -1
    } else if s[i].id@ == id {
        i
    } else {
        id_find(s, id, i + 1)
    }
}

proof fn lemma_id_find(s: Seq<FocusableInfo>, id: Seq<char>, i: int)
    requires
        0 <= i,
    ensures
        id_find(s, id, i) == -1 || (i <= id_find(s, id, i) < s.len() && s[id_find(s, id, i)].id@ == id),
        id_find(s, id, i) == -1 ==> forall|k: int| i <= k < s.len() ==> #[trigger] s[k].id@ != id,
        forall|k: int| i <= k < id_find(s, id, i) ==> #[trigger] s[k].id@ != id,
    decreases s.len() - i,
{
    if i < s.len() {
        lemma_id_find(s, id, i + 1);
    }
}

/// Ids in `s` are distinct.
pub open spec fn ids_unique(s: Seq<FocusableInfo>) -> bool {
    forall|a: int, b: int| 0 <= a < b < s.len() ==> s[a].id@ != s[b].id@
}

proof fn lemma_unique_index(s: Seq<FocusableInfo>, id: Seq<char>, k: int)
    requires
        ids_unique(s),
        0 <= k < s.len(),
        s[k].id@ == id,
    ensures
        id_find(s, id, 0) == k,
{
    lemma_id_find(s, id, 0);
    let f = id_find(s, id, 0);
    if f != k {
        if f == -1 {
            assert(s[k].id@ != id);
        } else if f < k {
            assert(s[f].id@ != s[k].id@);
        } else {
            assert(s[k].id@ != id);
        }
    }
}

/// Entries sorted by tab index.
pub open spec fn tabs_sorted(s: Seq<FocusableInfo>) -> bool {
    forall|a: int, b: int| 0 <= a < b < s.len() ==> s[a].tab_index <= s[b].tab_index
}

proof fn lemma_insert_keeps_order(base: Seq<FocusableInfo>, p: int, x: FocusableInfo)
    requires
        0 <= p <= base.len(),
        tabs_sorted(base),
        ids_unique(base),
        forall|j: int| 0 <= j < p ==> (#[trigger] base[j]).tab_index <= x.tab_index,
        p < base.len() ==> base[p].tab_index >= x.tab_index,
        forall|j: int| 0 <= j < base.len() ==> (#[trigger] base[j]).id@ != x.id@,
    ensures
        tabs_sorted(base.insert(p, x)),
        ids_unique(base.insert(p, x)),
        id_find(base.insert(p, x), x.id@, 0) == p,
        base.insert(p, x)[p] == x,
{
    let s = base.insert(p, x);
    assert forall|a: int, b: int| 0 <= a < b < s.len() implies s[a].tab_index <= s[b].tab_index by {
        if b == p {
            assert(s[a] == base[a]);
        } else if a == p {
            assert(s[b] == base[b - 1]);
            assert(base[p].tab_index <= base[b - 1].tab_index);
        } else {
            let a2 = if a < p { a } else { a - 1 };
            let b2 = if b < p { b } else { b - 1 };
            assert(s[a] == base[a2] && s[b] == base[b2]);
        }
    }
    assert forall|a: int, b: int| 0 <= a < b < s.len() implies s[a].id@ != s[b].id@ by {
        if b == p {
            assert(s[a] == base[a]);
        } else if a == p {
            assert(s[b] == base[b - 1]);
        } else {
            let a2 = if a < p { a } else { a - 1 };
            let b2 = if b < p { b } else { b - 1 };
            assert(s[a] == base[a2] && s[b] == base[b2]);
        }
    }
    lemma_unique_index(s, x.id@, p);
}

proof fn lemma_insert_keeps_others(
    orig: Seq<FocusableInfo>,
    base: Seq<FocusableInfo>,
    p: int,
    x: FocusableInfo,
    existing: Option<usize>,
)
    requires
        0 <= p <= base.len(),
        ids_unique(orig),
        ids_unique(base.insert(p, x)),
        match existing {
            Some(idx) => idx < orig.len() && base == orig.remove(idx as int) && orig[idx as int].id@ == x.id@,
            None => base == orig,
        },
    ensures
        forall|id: Seq<char>| id != x.id@ ==> ((#[trigger] id_find(base.insert(p, x), id, 0) >= 0) == (id_find(orig, id, 0) >= 0)
            && (id_find(orig, id, 0) >= 0 ==> base.insert(p, x)[id_find(base.insert(p, x), id, 0)] == orig[id_find(orig, id, 0)])),
{
    let s = base.insert(p, x);
    assert forall|id: Seq<char>| id != x.id@ implies ((#[trigger] id_find(s, id, 0) >= 0) == (id_find(orig, id, 0) >= 0)
        && (id_find(orig, id, 0) >= 0 ==> s[id_find(s, id, 0)] == orig[id_find(orig, id, 0)])) by {
        lemma_id_find(orig, id, 0);
        lemma_id_find(s, id, 0);
        let o = id_find(orig, id, 0);
        let f = id_find(s, id, 0);
        if o >= 0 {
            let bi = match existing { Some(idx) => if o < idx { o } else { o - 1 }, None => o };
            match existing {
                Some(idx) => { assert(o != idx); assert(base[bi] == orig[o]); },
                None => { assert(base[bi] == orig[o]); },
            }
            let si = if bi < p { bi } else { bi + 1 };
            assert(s[si] == base[bi]);
            lemma_unique_index(s, id, si);
        }
        if f >= 0 {
            assert(f != p);
            let bi = if f < p { f } else { f - 1 };
            assert(s[f] == base[bi]);
            let oi = match existing { Some(idx) => if bi < idx { bi } else { bi + 1 }, None => bi };
            assert(base[bi] == orig[oi]);
            lemma_unique_index(orig, id, oi);
        }
    }
}

/// Indices of the focusable entries among the first `k`, in order.
pub open spec fn focusables(s: Seq<FocusableInfo>, k: int) -> Seq<int>
    decreases k,
{
    if k <= 0 {
        Seq::empty()
    } else if s[k - 1].focusable {
        focusables(s, k - 1).push(k - 1)
    } else {
        focusables(s, k - 1)
    }
}

/// Position of `v` in `f`, or -1.
pub open spec fn pos_in(f: Seq<int>, v: int) -> int
    decreases f.len(),
{
    if f.len() == 0 {
        -1
    } else if pos_in(f.drop_last(), v) >= 0 {
        pos_in(f.drop_last(), v)
    } else if f.last() == v {
        f.len() - 1
    } else {
        -1
    }
}

proof fn lemma_pos_prefix(fs: Seq<int>, v: int, k: int)
    requires
        0 < k <= fs.len(),
        fs[k - 1] == v,
        pos_in(fs.subrange(0, k - 1), v) < 0,
    ensures
        pos_in(fs, v) == k - 1,
    decreases fs.len() - k,
{
    if k == fs.len() {
        assert(fs.drop_last() =~= fs.subrange(0, k - 1));
    } else {
        assert(fs.subrange(0, k).drop_last() =~= fs.subrange(0, k - 1));
        lemma_pos_extend(fs, v, k);
    }
}

proof fn lemma_pos_extend(fs: Seq<int>, v: int, k: int)
    requires
        0 < k <= fs.len(),
        pos_in(fs.subrange(0, k), v) >= 0,
    ensures
        pos_in(fs, v) == pos_in(fs.subrange(0, k), v),
    decreases fs.len() - k,
{
    if k < fs.len() {
        assert(fs.subrange(0, k + 1).drop_last() =~= fs.subrange(0, k));
        lemma_pos_extend(fs, v, k + 1);
    } else {
        assert(fs.subrange(0, k) =~= fs);
    }
}

/// Where a focus move from position `cur` (or -1 for none) among `len`
/// focusable entries lands, or -1 when it cannot move.
pub open spec fn next_position(cur: int, len: int, forward: bool, wrap: bool) -> int {
    if cur < 0 {
        if forward {
            0
        } else {
            len - 1
        }
    } else if forward && cur + 1 < len {
        cur + 1
    } else if !forward && cur > 0 {
        cur - 1
    } else if wrap && forward {
        0
    } else if wrap {
        len - 1
    } else {
        -1
    }
}

/// Tracks which component has focus.
#[derive(Debug, Clone)]
pub struct FocusManager {
    pub focused_id: Option<String>,
    /// Registered components, sorted by tab index, registration order kept
    /// among equal indices.
    pub focus_order: Vec<FocusableInfo>,
    pub focus_ring_visible: bool,
    pub wrap_around: bool,
}

impl FocusManager {
    /// Ids are distinct and the order is sorted by tab index.
    pub open spec fn wf(&self) -> bool {
        &&& forall|a: int, b: int| 0 <= a < b < self.focus_order@.len() ==> self.focus_order@[a].id@ != self.focus_order@[b].id@
        &&& forall|a: int, b: int| 0 <= a < b < self.focus_order@.len() ==> self.focus_order@[a].tab_index <= self.focus_order@[b].tab_index
    }

    /// Index of component `id` in the order, or -1.
    pub open spec fn index_of(&self, id: Seq<char>) -> int {
        id_find(self.focus_order@, id, 0)
    }

    /// Indices of the focusable components.
    pub open spec fn focusable_indices(&self) -> Seq<int> {
        focusables(self.focus_order@, self.focus_order@.len() as int)
    }

    /// Position of the focused component among the focusable ones, or -1.
    pub open spec fn current_position(&self) -> int {
        match self.focused_id {
            Some(f) => if self.index_of(f@) >= 0 {
                pos_in(self.focusable_indices(), self.index_of(f@))
            } else {
                -1
            },
            None => -1,
        }
    }

    /// Nothing registered, focus ring shown, wrapping on.
    pub fn new() -> (r: Self)
        ensures
            r.wf(),
            r.focused_id is None,
            r.focus_order@.len() == 0,
            r.focus_ring_visible,
            r.wrap_around,
    {
        FocusManager { focused_id: None, focus_order: Vec::new(), focus_ring_visible: true, wrap_around: true }
    }

    fn find(&self, id: &str) -> (r: Option<usize>)
        ensures
            match r {
                Some(i) => i == self.index_of(id@) && i < self.focus_order@.len(),
                None => self.index_of(id@) < 0,
            },
    {
        proof {
            lemma_id_find(self.focus_order@, id@, 0);
        }
        let mut i: usize = 0;
        while i < self.focus_order.len()
            invariant
                i <= self.focus_order@.len(),
                id_find(self.focus_order@, id@, 0) == id_find(self.focus_order@, id@, i as int),
            decreases self.focus_order@.len() - i,
        {
            if str_eq(self.focus_order[i].id.as_str(), id) {
                return Some(i);
            }
            i = i + 1;
        }
        None
    }

    /// Register a focusable component with tab index 0.
    pub fn register(&mut self, id: &str)
        requires
            old(self).wf(),
        ensures
            final(self).wf(),
            final(self).index_of(id@) >= 0,
            final(self).focus_order@[final(self).index_of(id@)].id@ == id@,
            final(self).focus_order@[final(self).index_of(id@)].focusable,
            final(self).focus_order@[final(self).index_of(id@)].tab_index == 0,
            final(self).focus_order@.len() == old(self).focus_order@.len() + if old(self).index_of(id@) >= 0 { 0int } else { 1 },
            forall|other: Seq<char>| other != id@ ==> (#[trigger] final(self).index_of(other) >= 0) == (old(self).index_of(other) >= 0),
            forall|other: Seq<char>| other != id@ && old(self).index_of(other) >= 0 ==> #[trigger] final(self).focus_order@[final(self).index_of(other)] == old(self).focus_order@[old(self).index_of(other)],
            final(self).focused_id == old(self).focused_id,
            final(self).wrap_around == old(self).wrap_around,
            final(self).focus_ring_visible == old(self).focus_ring_visible,
    {
        self.register_with_info(FocusableInfo::new(id));
    }

    /// Register a component, or update one with the same id. It is placed
    /// after every entry with a lower tab index and after entries with an
    /// equal one that were registered before it.
    pub fn register_with_info(&mut self, info: FocusableInfo)
        requires
            old(self).wf(),
        ensures
            final(self).wf(),
            final(self).index_of(info.id@) >= 0,
            final(self).focus_order@[final(self).index_of(info.id@)] == info,
            final(self).focus_order@.len() == old(self).focus_order@.len() + if old(self).index_of(info.id@) >= 0 { 0int } else { 1 },
            forall|id: Seq<char>| id != info.id@ ==> (#[trigger] final(self).index_of(id) >= 0) == (old(self).index_of(id) >= 0),
            forall|id: Seq<char>| id != info.id@ && old(self).index_of(id) >= 0 ==> #[trigger] final(self).focus_order@[final(self).index_of(id)] == old(self).focus_order@[old(self).index_of(id)],
            final(self).focused_id == old(self).focused_id,
            final(self).wrap_around == old(self).wrap_around,
            final(self).focus_ring_visible == old(self).focus_ring_visible,
    {
        let ghost orig = self.focus_order@;
        let existing = self.find(info.id.as_str());
        proof {
            lemma_id_find(orig, info.id@, 0);
        }
        let bound: usize = match existing {
            Some(idx) => {
                self.focus_order.remove(idx);
                idx
            },
            None => self.focus_order.len(),
        };
        let ghost base = self.focus_order@;
        proof {
            assert forall|j: int| 0 <= j < base.len() implies #[trigger] base[j].id@ != info.id@ by {
                match existing {
                    Some(idx) => {
                        if j < idx {
                            assert(orig[j].id@ != orig[idx as int].id@);
                        } else {
                            assert(base[j] == orig[j + 1]);
                            assert(orig[idx as int].id@ != orig[j + 1].id@);
                        }
                    },
                    None => {},
                }
            }
        }
        let k = info.tab_index;
        let mut p: usize = 0;
        while p < self.focus_order.len() && (self.focus_order[p].tab_index < k || (self.focus_order[p].tab_index == k && p < bound))
            invariant
                p <= self.focus_order@.len(),
                self.focus_order@ == base,
                forall|j: int| 0 <= j < p ==> (#[trigger] base[j]).tab_index <= k,
            decreases self.focus_order@.len() - p,
        {
            p = p + 1;
        }
        assert(p < base.len() ==> base[p as int].tab_index >= k);
        let ghost new_info = info;
        self.focus_order.insert(p, info);
        proof {
            lemma_insert_keeps_order(base, p as int, new_info);
            lemma_insert_keeps_others(orig, base, p as int, new_info, existing);
        }
    }

    /// Remove component `id`; focus is cleared if it had it.
    pub fn unregister(&mut self, id: &str)
        requires
            old(self).wf(),
        ensures
            final(self).wf(),
            final(self).index_of(id@) < 0,
            old(self).index_of(id@) >= 0 ==> final(self).focus_order@ == old(self).focus_order@.remove(old(self).index_of(id@)),
            old(self).index_of(id@) < 0 ==> final(self).focus_order == old(self).focus_order,
            final(self).focused_id == if old(self).index_of(id@) >= 0 && (old(self).focused_id matches Some(f) && f@ == id@) {
                None
            } else {
                old(self).focused_id
            },
    {
        let ghost orig = self.focus_order@;
        proof {
            lemma_id_find(orig, id@, 0);
        }
        match self.find(id) {
            Some(idx) => {
                let is_focused = match &self.focused_id {
                    Some(f) => str_eq(f.as_str(), id),
                    None => false,
                };
                if is_focused {
                    self.focused_id = None;
                }
                self.focus_order.remove(idx);
                proof {
                    let s = self.focus_order@;
                    lemma_id_find(s, id@, 0);
                    if id_find(s, id@, 0) >= 0 {
                        let f = id_find(s, id@, 0);
                        if f < idx {
                            assert(s[f] == orig[f]);
                            assert(orig[f].id@ != orig[idx as int].id@);
                        } else {
                            assert(s[f] == orig[f + 1]);
                            assert(orig[idx as int].id@ != orig[f + 1].id@);
                        }
                    }
                }
            },
            None => {},
        }
    }

    /// Focus component `id` if it is registered and focusable.
    pub fn focus(&mut self, id: &str) -> (r: bool)
        requires
            old(self).wf(),
        ensures
            final(self).wf(),
            final(self).focus_order == old(self).focus_order,
            r == (old(self).index_of(id@) >= 0 && old(self).focus_order@[old(self).index_of(id@)].focusable),
            r ==> final(self).focused_id is Some && final(self).focused_id->0@ == id@,
            !r ==> final(self).focused_id == old(self).focused_id,
    {
        match self.find(id) {
            Some(idx) => {
                if self.focus_order[idx].focusable {
                    self.focused_id = Some(String::from_str(id));
                    return true;
                }
                false
            },
            None => false,
        }
    }

    /// Remove focus.
    pub fn blur(&mut self)
        ensures
            final(self).focused_id is None,
            final(self).focus_order == old(self).focus_order,
            final(self).wrap_around == old(self).wrap_around,
    {
        self.focused_id = None;
    }

    /// Move to the next focusable component.
    pub fn focus_next(&mut self) -> (r: bool)
        requires
            old(self).wf(),
        ensures
            final(self).wf(),
            final(self).focus_order == old(self).focus_order,
            old(self).moved(r, *final(self), FocusDirection::Next),
    {
        self.move_focus(FocusDirection::Next)
    }

    /// Move to the previous focusable component.
    pub fn focus_prev(&mut self) -> (r: bool)
        requires
            old(self).wf(),
        ensures
            final(self).wf(),
            final(self).focus_order == old(self).focus_order,
            old(self).moved(r, *final(self), FocusDirection::Previous),
    {
        self.move_focus(FocusDirection::Previous)
    }

    /// How a focus move in `direction` relates this state to `after`: with
    /// no focusable component nothing moves; else the focus lands on the
    /// focusable component at the next position, wrapping if enabled, or
    /// stays when it cannot move.
    pub open spec fn moved(self, r: bool, after: Self, direction: FocusDirection) -> bool {
        let f = self.focusable_indices();
        let n = next_position(self.current_position(), f.len() as int, is_forward(direction), self.wrap_around);
        if f.len() == 0 || n < 0 {
            !r && after.focused_id == self.focused_id
        } else {
            r && after.focused_id is Some && after.focused_id->0@ == self.focus_order@[f[n]].id@
        }
    }

    fn focusable_list(&self) -> (r: Vec<usize>)
        ensures
            r@.len() == self.focusable_indices().len(),
            forall|k: int| 0 <= k < r@.len() ==> #[trigger] r@[k] as int == self.focusable_indices()[k],
            forall|k: int| 0 <= k < r@.len() ==> #[trigger] r@[k] < self.focus_order@.len(),
    {
        let mut v: Vec<usize> = Vec::new();
        let mut i: usize = 0;
        while i < self.focus_order.len()
            invariant
                i <= self.focus_order@.len(),
                v@.len() == focusables(self.focus_order@, i as int).len(),
                forall|k: int| 0 <= k < v@.len() ==> #[trigger] v@[k] as int == focusables(self.focus_order@, i as int)[k],
                forall|k: int| 0 <= k < v@.len() ==> #[trigger] v@[k] < i,
            decreases self.focus_order@.len() - i,
        {
            if self.focus_order[i].focusable {
                v.push(i);
            }
            i = i + 1;
        }
        v
    }

    fn position_in(f: &Vec<usize>, v: usize, Ghost(fs): Ghost<Seq<int>>) -> (r: Option<usize>)
        requires
            f@.len() == fs.len(),
            forall|k: int| 0 <= k < f@.len() ==> #[trigger] f@[k] as int == fs[k],
        ensures
            match r {
                Some(k) => k == pos_in(fs, v as int) && k < f@.len(),
                None => pos_in(fs, v as int) < 0,
            },
    {
        let mut k: usize = 0;
        while k < f.len()
            invariant
                k <= f@.len(),
                f@.len() == fs.len(),
                forall|j: int| 0 <= j < f@.len() ==> #[trigger] f@[j] as int == fs[j],
                pos_in(fs.subrange(0, k as int), v as int) < 0,
            decreases f@.len() - k,
        {
            proof {
                assert(fs.subrange(0, k + 1).drop_last() =~= fs.subrange(0, k as int));
            }
            if f[k] == v {
                proof {
                    lemma_pos_prefix(fs, v as int, k as int + 1);
                }
                return Some(k);
            }
            k = k + 1;
        }
        assert(fs.subrange(0, f@.len() as int) =~= fs);
        None
    }

    /// Move focus in a direction.
    pub fn move_focus(&mut self, direction: FocusDirection) -> (r: bool)
        requires
            old(self).wf(),
        ensures
            final(self).wf(),
            final(self).focus_order == old(self).focus_order,
            old(self).moved(r, *final(self), direction),
    {
        let f = self.focusable_list();
        if f.len() == 0 {
            return false;
        }
        let current: Option<usize> = match &self.focused_id {
            Some(id) => match self.find(id.as_str()) {
                Some(idx) => Self::position_in(&f, idx, Ghost(self.focusable_indices())),
                None => None,
            },
            None => None,
        };
        match self.next_focus_index(current, f.len(), direction) {
            Some(n) => {
                let target = f[n];
                let id = self.focus_order[target].id.clone();
                self.focused_id = Some(id);
                true
            },
            None => false,
        }
    }

    /// Position that a move from `current` among `len` entries lands on.
    pub fn next_focus_index(&self, current: Option<usize>, len: usize, direction: FocusDirection) -> (r: Option<usize>)
        requires
            len > 0,
            current matches Some(c) ==> c < len,
        ensures
            match r {
                Some(n) => n < len && n == next_position(match current { Some(c) => c as int, None => -1 }, len as int, is_forward(direction), self.wrap_around),
                None => next_position(match current { Some(c) => c as int, None => -1 }, len as int, is_forward(direction), self.wrap_around) < 0,
            },
    {
        let forward = match direction {
            FocusDirection::Next | FocusDirection::Down | FocusDirection::Right => true,
            _ => false,
        };
        match current {
            None => if forward { Some(0) } else { Some(len - 1) },
            Some(idx) => {
                if forward && idx + 1 < len {
                    Some(idx + 1)
                } else if !forward && idx > 0 {
                    Some(idx - 1)
                } else if self.wrap_around && forward {
                    Some(0)
                } else if self.wrap_around {
                    Some(len - 1)
                } else {
                    None
                }
            },
        }
    }

    /// Whether component `id` has focus.
    pub fn is_focused(&self, id: &str) -> (r: bool)
        ensures
            r == (match self.focused_id {
                Some(f) => f@ == id@,
                None => false,
            }),
    {
        match &self.focused_id {
            Some(f) => str_eq(f.as_str(), id),
            None => false,
        }
    }

    /// The focused component.
    pub fn focused(&self) -> (r: Option<&str>)
        ensures
            match self.focused_id {
                Some(f) => r is Some && r->0@ == f@,
                None => r is None,
            },
    {
        match &self.focused_id {
            Some(f) => Some(f.as_str()),
            None => None,
        }
    }

    /// Whether the focus ring is drawn.
    pub fn is_focus_ring_visible(&self) -> (r: bool)
        ensures
            r == self.focus_ring_visible,
    {
        self.focus_ring_visible
    }

    /// Show or hide the focus ring.
    pub fn set_focus_ring_visible(&mut self, visible: bool)
        ensures
            final(self).focus_ring_visible == visible,
            final(self).focus_order == old(self).focus_order,
            final(self).focused_id == old(self).focused_id,
            final(self).wrap_around == old(self).wrap_around,
    {
        self.focus_ring_visible = visible;
    }

    /// Enable or disable wrapping at the ends.
    pub fn set_wrap_around(&mut self, wrap: bool)
        ensures
            final(self).wrap_around == wrap,
            final(self).focus_order == old(self).focus_order,
            final(self).focused_id == old(self).focused_id,
            final(self).focus_ring_visible == old(self).focus_ring_visible,
    {
        self.wrap_around = wrap;
    }

    /// Number of focusable components.
    pub fn count(&self) -> (r: usize)
        ensures
            r == self.focusable_indices().len(),
    {
        self.focusable_list().len()
    }

    /// Whether component `id` is registered.
    pub fn is_registered(&self, id: &str) -> (r: bool)
        ensures
            r == (self.index_of(id@) >= 0),
    {
        self.find(id).is_some()
    }

    /// Ids of the focusable components, in focus order.
    pub fn focus_order(&self) -> (r: Vec<&str>)
        ensures
            r@.len() == self.focusable_indices().len(),
            forall|k: int| 0 <= k < r@.len() ==> (#[trigger] r@[k])@ == self.focus_order@[self.focusable_indices()[k]].id@,
    {
        let f = self.focusable_list();
        let mut out: Vec<&str> = Vec::new();
        let mut k: usize = 0;
        while k < f.len()
            invariant
                k <= f@.len(),
                f@.len() == self.focusable_indices().len(),
                forall|j: int| 0 <= j < f@.len() ==> #[trigger] f@[j] as int == self.focusable_indices()[j],
                forall|j: int| 0 <= j < f@.len() ==> #[trigger] f@[j] < self.focus_order@.len(),
                out@.len() == k,
                forall|j: int| 0 <= j < k ==> (#[trigger] out@[j])@ == self.focus_order@[self.focusable_indices()[j]].id@,
            decreases f@.len() - k,
        {
            out.push(self.focus_order[f[k]].id.as_str());
            k = k + 1;
        }
        out
    }
}

impl Default for FocusManager {
    /// Nothing registered, focus ring hidden, wrapping off.
    fn default() -> (r: Self)
        ensures
            r.wf(),
            r.focused_id is None,
            r.focus_order@.len() == 0,
            !r.focus_ring_visible,
            !r.wrap_around,
    {
        FocusManager { focused_id: None, focus_order: Vec::new(), focus_ring_visible: false, wrap_around: false }
    }
}

} // verus!
