//! Named content slots for UI regions, layered by priority: the highest
//! layer set is shown, and clearing it reveals the one below.

pub mod header_slots;
pub mod priority;
pub mod status_slots;

use crate::strings::str_eq;
use vstd::prelude::*;
use vstd::string::StringExecFns;

verus! {

/// Content of a slot: plain or with a style class.
#[derive(Clone, Debug, PartialEq)]
pub enum SlotContent {
    Text(String),
    Styled { text: String, class: String },
}

impl SlotContent {
    /// The text shown.
    pub open spec fn text_of(self) -> Seq<char> {
        match self {
            SlotContent::Text(s) => s@,
            SlotContent::Styled { text, .. } => text@,
        }
    }

    /// Plain text content.
    pub fn text(s: &str) -> (r: Self)
        ensures
            r is Text && r.text_of() == s@,
    {
        SlotContent::Text(String::from_str(s))
    }

    /// Styled content.
    pub fn styled(text: &str, class: &str) -> (r: Self)
        ensures
            r is Styled && r.text_of() == text@ && r->class@ == class@,
    {
        SlotContent::Styled { text: String::from_str(text), class: String::from_str(class) }
    }

    /// The text shown.
    pub fn as_str(&self) -> (r: &str)
        ensures
            r@ == self.text_of(),
    {
        match self {
            SlotContent::Text(s) => s.as_str(),
            SlotContent::Styled { text, .. } => text.as_str(),
        }
    }

    /// The style class of styled content.
    pub fn style_class(&self) -> (r: Option<&str>)
        ensures
            match *self {
                SlotContent::Styled { class, .. } => r is Some && r->0@ == class@,
                SlotContent::Text(_) => r is None,
            },
    {
        match self {
            SlotContent::Styled { class, .. } => Some(class.as_str()),
            SlotContent::Text(_) => None,
        }
    }

    /// Whether the text is empty.
    pub fn is_empty(&self) -> (r: bool)
        ensures
            r == (self.text_of().len() == 0),
    {
        match self {
            SlotContent::Text(s) => s.as_str().is_empty(),
            SlotContent::Styled { text, .. } => text.as_str().is_empty(),
        }
    }
}

impl SlotContent {
    /// Text and style class.
    pub open spec fn view_of(self) -> (Seq<char>, Option<Seq<char>>) {
        match self {
            SlotContent::Text(s) => (s@, None),
            SlotContent::Styled { text, class } => (text@, Some(class@)),
        }
    }
}

/// The text and style class of an optional content.
pub open spec fn content_view(c: Option<SlotContent>) -> Option<(Seq<char>, Option<Seq<char>>)> {
    match c {
        Some(x) => Some(x.view_of()),
        None => None,
    }
}

/// Values that can become slot content: plain strings and content itself.
pub trait IntoSlotContent: Sized {
    /// Text and style class of the content this becomes.
    spec fn slot_view(&self) -> (Seq<char>, Option<Seq<char>>);

    fn into_slot_content(self) -> (r: SlotContent)
        ensures
            r.view_of() == self.slot_view(),
    ;
}

impl<'a> IntoSlotContent for &'a str {
    open spec fn slot_view(&self) -> (Seq<char>, Option<Seq<char>>) {
        ((*self)@, None)
    }

    fn into_slot_content(self) -> (r: SlotContent) {
        SlotContent::text(self)
    }
}

impl IntoSlotContent for String {
    open spec fn slot_view(&self) -> (Seq<char>, Option<Seq<char>>) {
        (self@, None)
    }

    fn into_slot_content(self) -> (r: SlotContent) {
        SlotContent::Text(self)
    }
}

impl IntoSlotContent for SlotContent {
    open spec fn slot_view(&self) -> (Seq<char>, Option<Seq<char>>) {
        self.view_of()
    }

    fn into_slot_content(self) -> (r: SlotContent) {
        self
    }
}

impl Default for SlotContent {
    fn default() -> (r: Self)
        ensures
            r is Text && r.text_of().len() == 0,
    {
        SlotContent::Text(String::new())
    }
}

impl From<String> for SlotContent {
    fn from(s: String) -> (r: Self) {
        SlotContent::Text(s)
    }
}

impl vstd::std_specs::convert::FromSpecImpl<String> for SlotContent {
    open spec fn obeys_from_spec() -> bool {
        true
    }

    open spec fn from_spec(s: String) -> SlotContent {
        SlotContent::Text(s)
    }
}

/// Layers of one slot, one per priority 0..=255.
#[derive(Clone, Debug)]
pub struct PrioritySlot {
    pub layers: Vec<Option<SlotContent>>,
}

/// Highest priority at or below `p` whose layer is set, or -1.
pub open spec fn top_from(layers: Seq<Option<SlotContent>>, p: int) -> int
    decreases p + 1,
{
    if p < 0 {
        -1
    } else if layers[p] is Some {
        p
    } else {
        top_from(layers, p - 1)
    }
}

/// Every layer is unset or holds empty text.
pub open spec fn layers_blank(layers: Seq<Option<SlotContent>>) -> bool {
    forall|p: int|
        0 <= p < 256 ==> match #[trigger] layers[p] {
            Some(c) => c.text_of().len() == 0,
            None => true,
        }
}

proof fn lemma_top_from(layers: Seq<Option<SlotContent>>, p: int)
    requires
        -1 <= p < layers.len(),
    ensures
        -1 <= top_from(layers, p) <= p,
        top_from(layers, p) >= 0 ==> layers[top_from(layers, p)] is Some,
        forall|q: int| top_from(layers, p) < q <= p ==> #[trigger] layers[q] is None,
    decreases p + 1,
{
    if p >= 0 && !(layers[p] is Some) {
        lemma_top_from(layers, p - 1);
    }
}

impl PrioritySlot {
    /// One layer per priority.
    pub open spec fn wf(&self) -> bool {
        self.layers@.len() == 256
    }

    /// Highest set priority, or -1.
    pub open spec fn top(&self) -> int {
        top_from(self.layers@, 255)
    }

    /// Content shown: the highest layer set.
    pub open spec fn shown(&self) -> Option<SlotContent> {
        if self.top() >= 0 {
            self.layers@[self.top()]
        } else {
            None
        }
    }

    /// Set the layer at `priority`.
    pub fn set(&mut self, content: SlotContent, priority: u8)
        requires
            old(self).wf(),
        ensures
            final(self).wf(),
            final(self).layers@ == old(self).layers@.update(priority as int, Some(content)),
    {
        self.layers.set(priority as usize, Some(content));
    }

    /// Clear the layer at `priority`.
    pub fn clear(&mut self, priority: u8)
        requires
            old(self).wf(),
        ensures
            final(self).wf(),
            final(self).layers@ == old(self).layers@.update(priority as int, None),
    {
        self.layers.set(priority as usize, None);
    }

    /// Clear every layer.
    pub fn clear_all(&mut self)
        ensures
            final(self).wf(),
            forall|p: int| 0 <= p < 256 ==> #[trigger] final(self).layers@[p] is None,
    {
        *self = Self::default();
    }

    fn top_index(&self) -> (r: Option<usize>)
        requires
            self.wf(),
        ensures
            match r {
                Some(p) => p == self.top() && p < 256,
                None => self.top() < 0,
            },
    {
        proof {
            lemma_top_from(self.layers@, 255);
        }
        let mut p: usize = 256;
        while p > 0
            invariant
                p <= 256,
                self.wf(),
                top_from(self.layers@, 255) == top_from(self.layers@, p - 1),
            decreases p,
        {
            if self.layers[p - 1].is_some() {
                return Some(p - 1);
            }
            p = p - 1;
        }
        None
    }

    /// The content shown: the highest layer set.
    pub fn get(&self) -> (r: Option<&SlotContent>)
        requires
            self.wf(),
        ensures
            match self.shown() {
                Some(c) => r == Some(&c),
                None => r is None,
            },
    {
        match self.top_index() {
            Some(p) => self.layers[p].as_ref(),
            None => None,
        }
    }

    /// The content at one priority.
    pub fn get_at_priority(&self, priority: u8) -> (r: Option<&SlotContent>)
        requires
            self.wf(),
        ensures
            match self.layers@[priority as int] {
                Some(c) => r == Some(&c),
                None => r is None,
            },
    {
        self.layers[priority as usize].as_ref()
    }

    /// Whether nothing visible is set: every layer unset or empty text.
    pub fn is_empty(&self) -> (r: bool)
        requires
            self.wf(),
        ensures
            r == layers_blank(self.layers@),
    {
        let mut p: usize = 0;
        while p < 256
            invariant
                p <= 256,
                self.wf(),
                forall|q: int| 0 <= q < p ==> match #[trigger] self.layers@[q] {
                    Some(c) => c.text_of().len() == 0,
                    None => true,
                },
            decreases 256 - p,
        {
            match &self.layers[p] {
                Some(c) => {
                    if !c.is_empty() {
                        return false;
                    }
                },
                None => {},
            }
            p = p + 1;
        }
        true
    }

    /// The priority shown, if any layer is set.
    pub fn current_priority(&self) -> (r: Option<u8>)
        requires
            self.wf(),
        ensures
            match r {
                Some(p) => p == self.top(),
                None => self.top() < 0,
            },
    {
        match self.top_index() {
            Some(p) => Some(p as u8),
            None => None,
        }
    }
}

impl Default for PrioritySlot {
    fn default() -> (r: Self)
        ensures
            r.wf(),
            forall|p: int| 0 <= p < 256 ==> #[trigger] r.layers@[p] is None,
    {
        let mut layers: Vec<Option<SlotContent>> = Vec::new();
        let mut i: usize = 0;
        while i < 256
            invariant
                i <= 256,
                layers@.len() == i,
                forall|p: int| 0 <= p < i ==> #[trigger] layers@[p] is None,
            decreases 256 - i,
        {
            layers.push(None);
            i = i + 1;
        }
        PrioritySlot { layers }
    }
}

/// A named slot.
#[derive(Clone, Debug)]
pub struct NamedSlot {
    pub name: String,
    pub slot: PrioritySlot,
}

/// Index of the first slot at or after `i` named `name`, or -1.
pub open spec fn find_from(s: Seq<NamedSlot>, name: Seq<char>, i: int) -> int
    decreases s.len() - i,
{
    if i < 0 || i >= s.len() {
        -1
    } else if s[i].name@ == name {
        i
    } else {
        find_from(s, name, i + 1)
    }
}

proof fn lemma_find_update(s: Seq<NamedSlot>, j: int, x: NamedSlot, name: Seq<char>, i: int)
    requires
        0 <= j < s.len(),
        0 <= i,
        x.name@ == s[j].name@,
    ensures
        find_from(s.update(j, x), name, i) == find_from(s, name, i),
    decreases s.len() - i,
{
    if i < s.len() {
        lemma_find_update(s, j, x, name, i + 1);
    }
}

proof fn lemma_find_push(s: Seq<NamedSlot>, x: NamedSlot, name: Seq<char>, i: int)
    requires
        0 <= i <= s.len(),
    ensures
        find_from(s.push(x), name, i) == if find_from(s, name, i) >= 0 {
            find_from(s, name, i)
        } else if x.name@ == name {
            s.len() as int
        } else {
            -1
        },
    decreases s.len() - i,
{
    let t = s.push(x);
    if i < s.len() {
        assert(t[i] == s[i]);
        lemma_find_push(s, x, name, i + 1);
    } else {
        assert(t[i] == x);
        assert(find_from(t, name, i + 1) == -1);
    }
}

proof fn lemma_find_range(s: Seq<NamedSlot>, name: Seq<char>, i: int)
    requires
        0 <= i,
    ensures
        find_from(s, name, i) == -1 || (i <= find_from(s, name, i) < s.len() && s[find_from(s, name, i)].name@ == name),
        find_from(s, name, i) == -1 ==> forall|k: int| i <= k < s.len() ==> #[trigger] s[k].name@ != name,
    decreases s.len() - i,
{
    if i < s.len() {
        lemma_find_range(s, name, i + 1);
    }
}

/// Layer `p` of the slot named `name` in `s`; `None` when there is none.
pub open spec fn layer_in(s: Seq<NamedSlot>, name: Seq<char>, p: u8) -> Option<SlotContent> {
    if find_from(s, name, 0) >= 0 {
        s[find_from(s, name, 0)].slot.layers@[p as int]
    } else {
        None
    }
}

/// Slots of one UI region.
#[derive(Clone, Debug)]
pub struct RegionSlots {
    pub slots: Vec<NamedSlot>,
}

impl RegionSlots {
    /// Names are distinct and every slot has its layers.
    pub open spec fn wf(&self) -> bool {
        &&& forall|a: int, b: int| 0 <= a < b < self.slots@.len() ==> self.slots@[a].name@ != self.slots@[b].name@
        &&& forall|k: int| 0 <= k < self.slots@.len() ==> (#[trigger] self.slots@[k]).slot.wf()
    }

    /// Index of the slot named `name`, or -1.
    pub open spec fn index_of(&self, name: Seq<char>) -> int {
        find_from(self.slots@, name, 0)
    }

    /// Layer `p` of slot `name`; `None` for a slot that does not exist.
    pub open spec fn layer(&self, name: Seq<char>, p: u8) -> Option<SlotContent> {
        layer_in(self.slots@, name, p)
    }

    /// Content shown in slot `name`.
    pub open spec fn shown(&self, name: Seq<char>) -> Option<SlotContent> {
        if self.index_of(name) >= 0 {
            self.slots@[self.index_of(name)].slot.shown()
        } else {
            None
        }
    }

    /// No slots.
    pub fn new() -> (r: Self)
        ensures
            r.wf(),
            r.slots@.len() == 0,
    {
        RegionSlots { slots: Vec::new() }
    }

    fn position(&self, slot: &str) -> (r: Option<usize>)
        requires
            self.wf(),
        ensures
            match r {
                Some(i) => i == self.index_of(slot@) && i < self.slots@.len(),
                None => self.index_of(slot@) < 0,
            },
    {
        proof {
            lemma_find_range(self.slots@, slot@, 0);
        }
        let mut i: usize = 0;
        while i < self.slots.len()
            invariant
                i <= self.slots@.len(),
                find_from(self.slots@, slot@, 0) == find_from(self.slots@, slot@, i as int),
            decreases self.slots@.len() - i,
        {
            if str_eq(self.slots[i].name.as_str(), slot) {
                return Some(i);
            }
            i = i + 1;
        }
        None
    }

    /// Set the layer `prio` of slot `slot`, creating the slot if needed.
    pub fn set_layer(&mut self, slot: &str, content: SlotContent, prio: u8)
        requires
            old(self).wf(),
        ensures
            final(self).wf(),
            forall|n: Seq<char>, q: u8|
                #[trigger] final(self).layer(n, q) == if n == slot@ && q == prio {
                    Some(content)
                } else {
                    old(self).layer(n, q)
                },
    {
        match self.position(slot) {
            Some(i) => {
                let ghost before = self.slots@;
                let mut entry = self.slots.remove(i);
                entry.slot.set(content, prio);
                self.slots.insert(i, entry);
                proof {
                    assert(self.slots@ =~= before.update(i as int, entry));
                    assert forall|n: Seq<char>| #![auto] find_from(self.slots@, n, 0) == find_from(before, n, 0) by {
                        lemma_find_update(before, i as int, entry, n, 0);
                    }
                    lemma_find_range(before, slot@, 0);
                    assert forall|n: Seq<char>| n != slot@ implies #[trigger] find_from(before, n, 0) != i as int by {
                        lemma_find_range(before, n, 0);
                    }
                    assert forall|n: Seq<char>, q: u8| #[trigger] self.layer(n, q) == if n == slot@ && q == prio {
                        Some(content)
                    } else {
                        old(self).layer(n, q)
                    } by {
                        lemma_find_update(before, i as int, entry, n, 0);
                        lemma_find_range(before, n, 0);
                    }
                }
            },
            None => {
                let mut s = PrioritySlot::default();
                s.set(content, prio);
                let entry = NamedSlot { name: String::from_str(slot), slot: s };
                let ghost before = self.slots@;
                self.slots.push(entry);
                proof {
                    assert forall|n: Seq<char>| #![auto] find_from(self.slots@, n, 0) == (if find_from(before, n, 0) >= 0 {
                        find_from(before, n, 0)
                    } else if slot@ == n {
                        before.len() as int
                    } else {
                        -1
                    }) by {
                        lemma_find_push(before, entry, n, 0);
                    }
                    lemma_find_range(before, slot@, 0);
                    assert forall|n: Seq<char>, q: u8| #[trigger] self.layer(n, q) == if n == slot@ && q == prio {
                        Some(content)
                    } else {
                        old(self).layer(n, q)
                    } by {
                        lemma_find_push(before, entry, n, 0);
                        lemma_find_range(before, n, 0);
                        assert(self.slots@[before.len() as int] == entry);
                    }
                }
            },
        }
    }

    /// Set slot `slot` at normal priority.
    pub fn set<C: IntoSlotContent>(&mut self, slot: &str, content: C)
        requires
            old(self).wf(),
        ensures
            final(self).wf(),
            forall|n: Seq<char>, q: u8|
                #[trigger] content_view(final(self).layer(n, q)) == if n == slot@ && q == priority::NORMAL {
                    Some(content.slot_view())
                } else {
                    content_view(old(self).layer(n, q))
                },
    {
        self.set_at_priority(slot, content, priority::NORMAL);
    }

    /// Set slot `slot` at a priority.
    pub fn set_at_priority<C: IntoSlotContent>(&mut self, slot: &str, content: C, prio: u8)
        requires
            old(self).wf(),
        ensures
            final(self).wf(),
            forall|n: Seq<char>, q: u8|
                #[trigger] content_view(final(self).layer(n, q)) == if n == slot@ && q == prio {
                    Some(content.slot_view())
                } else {
                    content_view(old(self).layer(n, q))
                },
    {
        let ghost v = content.slot_view();
        let c = content.into_slot_content();
        self.set_layer(slot, c, prio);
        assert forall|n: Seq<char>, q: u8| #[trigger] content_view(self.layer(n, q)) == if n == slot@ && q == prio {
            Some(v)
        } else {
            content_view(old(self).layer(n, q))
        } by {
            assert(self.layer(n, q) == (if n == slot@ && q == prio { Some(c) } else { old(self).layer(n, q) }));
        }
    }
}

impl RegionSlots {
    /// Put `entry` back at index `i`, where a slot of the same name was taken out.
    fn put_back(&mut self, i: usize, entry: NamedSlot, Ghost(before): Ghost<Seq<NamedSlot>>)
        requires
            i <= old(self).slots@.len(),
            i < before.len(),
            old(self).slots@ == before.remove(i as int),
            entry.name@ == before[i as int].name@,
            entry.slot.wf(),
            forall|a: int, b: int| 0 <= a < b < before.len() ==> before[a].name@ != before[b].name@,
            forall|k: int| 0 <= k < before.len() ==> (#[trigger] before[k]).slot.wf(),
        ensures
            final(self).wf(),
            final(self).slots@ == before.update(i as int, entry),
            forall|n: Seq<char>, q: u8|
                #[trigger] final(self).layer(n, q) == if n == before[i as int].name@ {
                    entry.slot.layers@[q as int]
                } else {
                    layer_in(before, n, q)
                },
            forall|n: Seq<char>| n != before[i as int].name@ ==> #[trigger] final(self).index_of(n)
                == find_from(before, n, 0),
            final(self).index_of(before[i as int].name@) == i,
    {
        self.slots.insert(i, entry);
        proof {
            assert(self.slots@ =~= before.update(i as int, entry));
            lemma_find_range(before, before[i as int].name@, 0);
            assert forall|n: Seq<char>| #![auto] find_from(self.slots@, n, 0) == find_from(before, n, 0) by {
                lemma_find_update(before, i as int, entry, n, 0);
            }
            assert(find_from(before, before[i as int].name@, 0) == i) by {
                lemma_find_range(before, before[i as int].name@, 0);
                if find_from(before, before[i as int].name@, 0) != i {
                    let f = find_from(before, before[i as int].name@, 0);
                    if f == -1 {
                    } else if f < i {
                        assert(before[f].name@ != before[i as int].name@);
                    } else {
                        assert(before[i as int].name@ != before[f].name@);
                    }
                }
            }
            assert forall|n: Seq<char>, q: u8| #[trigger] self.layer(n, q) == if n == before[i as int].name@ {
                entry.slot.layers@[q as int]
            } else {
                layer_in(before, n, q)
            } by {
                lemma_find_update(before, i as int, entry, n, 0);
                lemma_find_range(before, n, 0);
            }
        }
    }

    /// The layers of slot `slot` after clearing layer `prio`: the slot empties
    /// entirely when nothing visible is left.
    pub open spec fn cleared_layers(layers: Seq<Option<SlotContent>>, prio: u8) -> Seq<Option<SlotContent>> {
        let l = layers.update(prio as int, None);
        if layers_blank(l) {
            Seq::new(256, |p: int| None::<SlotContent>)
        } else {
            l
        }
    }

    /// Clear layer `prio` of slot `slot`; a slot with nothing visible left
    /// is emptied.
    pub fn clear_at_priority(&mut self, slot: &str, prio: u8)
        requires
            old(self).wf(),
        ensures
            final(self).wf(),
            forall|n: Seq<char>, q: u8|
                #[trigger] final(self).layer(n, q) == if n == slot@ && old(self).index_of(slot@) >= 0 {
                    Self::cleared_layers(old(self).slots@[old(self).index_of(slot@)].slot.layers@, prio)[q as int]
                } else {
                    old(self).layer(n, q)
                },
    {
        match self.position(slot) {
            Some(i) => {
                let ghost before = self.slots@;
                let mut entry = self.slots.remove(i);
                entry.slot.clear(prio);
                if entry.slot.is_empty() {
                    entry.slot.clear_all();
                    assert(entry.slot.layers@ =~= Seq::new(256, |p: int| None::<SlotContent>));
                }
                proof {
                    lemma_find_range(before, slot@, 0);
                }
                self.put_back(i, entry, Ghost(before));
            },
            None => {},
        }
    }

    /// Clear slot `slot` at normal priority.
    pub fn clear(&mut self, slot: &str)
        requires
            old(self).wf(),
        ensures
            final(self).wf(),
            forall|n: Seq<char>, q: u8|
                #[trigger] final(self).layer(n, q) == if n == slot@ && old(self).index_of(slot@) >= 0 {
                    Self::cleared_layers(old(self).slots@[old(self).index_of(slot@)].slot.layers@, priority::NORMAL)[q as int]
                } else {
                    old(self).layer(n, q)
                },
    {
        self.clear_at_priority(slot, priority::NORMAL);
    }

    /// Clear every layer of slot `slot`.
    pub fn clear_all(&mut self, slot: &str)
        requires
            old(self).wf(),
        ensures
            final(self).wf(),
            forall|n: Seq<char>, q: u8|
                #[trigger] final(self).layer(n, q) == if n == slot@ {
                    None
                } else {
                    old(self).layer(n, q)
                },
    {
        match self.position(slot) {
            Some(i) => {
                let ghost before = self.slots@;
                let mut entry = self.slots.remove(i);
                entry.slot.clear_all();
                proof {
                    lemma_find_range(before, slot@, 0);
                }
                self.put_back(i, entry, Ghost(before));
            },
            None => {},
        }
    }

    /// Clear layer `prio` of slot `slot` if it is set; true when it was.
    pub fn clear_if_set_at_priority(&mut self, slot: &str, prio: u8) -> (r: bool)
        requires
            old(self).wf(),
        ensures
            final(self).wf(),
            r == old(self).layer(slot@, prio) is Some,
            forall|n: Seq<char>, q: u8|
                #[trigger] final(self).layer(n, q) == if r && n == slot@ {
                    Self::cleared_layers(old(self).slots@[old(self).index_of(slot@)].slot.layers@, prio)[q as int]
                } else {
                    old(self).layer(n, q)
                },
    {
        match self.position(slot) {
            Some(i) => {
                if self.slots[i].slot.get_at_priority(prio).is_some() {
                    self.clear_at_priority(slot, prio);
                    true
                } else {
                    false
                }
            },
            None => false,
        }
    }

    /// Clear slot `slot` at normal priority if set there; true when it was.
    pub fn clear_if_set(&mut self, slot: &str) -> (r: bool)
        requires
            old(self).wf(),
        ensures
            final(self).wf(),
            r == old(self).layer(slot@, priority::NORMAL) is Some,
            forall|n: Seq<char>, q: u8|
                #[trigger] final(self).layer(n, q) == if r && n == slot@ {
                    Self::cleared_layers(old(self).slots@[old(self).index_of(slot@)].slot.layers@, priority::NORMAL)[q as int]
                } else {
                    old(self).layer(n, q)
                },
    {
        self.clear_if_set_at_priority(slot, priority::NORMAL)
    }

    /// Set plain text at a priority unless that layer already shows the same
    /// text; true when it changed.
    pub fn set_if_changed_at_priority(&mut self, slot: &str, content: &str, prio: u8) -> (r: bool)
        requires
            old(self).wf(),
        ensures
            final(self).wf(),
            r == !(match old(self).layer(slot@, prio) {
                Some(c) => c.text_of() == content@,
                None => false,
            }),
            forall|n: Seq<char>, q: u8|
                #[trigger] content_view(final(self).layer(n, q)) == if r && n == slot@ && q == prio {
                    Some((content@, None::<Seq<char>>))
                } else {
                    content_view(old(self).layer(n, q))
                },
    {
        match self.position(slot) {
            Some(i) => match self.slots[i].slot.get_at_priority(prio) {
                Some(existing) => {
                    if str_eq(existing.as_str(), content) {
                        return false;
                    }
                },
                None => {},
            },
            None => {},
        }
        self.set_at_priority(slot, content, prio);
        true
    }

    /// Set plain text at normal priority unless it is already shown there.
    pub fn set_if_changed(&mut self, slot: &str, content: &str) -> (r: bool)
        requires
            old(self).wf(),
        ensures
            final(self).wf(),
            r == !(match old(self).layer(slot@, priority::NORMAL) {
                Some(c) => c.text_of() == content@,
                None => false,
            }),
            forall|n: Seq<char>, q: u8|
                #[trigger] content_view(final(self).layer(n, q)) == if r && n == slot@ && q == priority::NORMAL {
                    Some((content@, None::<Seq<char>>))
                } else {
                    content_view(old(self).layer(n, q))
                },
    {
        self.set_if_changed_at_priority(slot, content, priority::NORMAL)
    }

    /// Set styled text at a priority unless that layer already holds the
    /// same text and class; true when it changed.
    pub fn set_styled_if_changed_at_priority(&mut self, slot: &str, text: &str, class: &str, prio: u8) -> (r: bool)
        requires
            old(self).wf(),
        ensures
            final(self).wf(),
            r == !(match old(self).layer(slot@, prio) {
                Some(c) => c.view_of() == (text@, Some(class@)),
                None => false,
            }),
            forall|n: Seq<char>, q: u8|
                #[trigger] content_view(final(self).layer(n, q)) == if r && n == slot@ && q == prio {
                    Some((text@, Some(class@)))
                } else {
                    content_view(old(self).layer(n, q))
                },
    {
        match self.position(slot) {
            Some(i) => match self.slots[i].slot.get_at_priority(prio) {
                Some(existing) => {
                    let same_text = str_eq(existing.as_str(), text);
                    let same_class = match existing.style_class() {
                        Some(c) => str_eq(c, class),
                        None => false,
                    };
                    if same_text && same_class {
                        return false;
                    }
                },
                None => {},
            },
            None => {},
        }
        self.set_at_priority(slot, SlotContent::styled(text, class), prio);
        true
    }

    /// Set styled text at normal priority unless already there.
    pub fn set_styled_if_changed(&mut self, slot: &str, text: &str, class: &str) -> (r: bool)
        requires
            old(self).wf(),
        ensures
            final(self).wf(),
            r == !(match old(self).layer(slot@, priority::NORMAL) {
                Some(c) => c.view_of() == (text@, Some(class@)),
                None => false,
            }),
            forall|n: Seq<char>, q: u8|
                #[trigger] content_view(final(self).layer(n, q)) == if r && n == slot@ && q == priority::NORMAL {
                    Some((text@, Some(class@)))
                } else {
                    content_view(old(self).layer(n, q))
                },
    {
        self.set_styled_if_changed_at_priority(slot, text, class, priority::NORMAL)
    }

    /// The content shown in slot `slot`.
    pub fn get(&self, slot: &str) -> (r: Option<&SlotContent>)
        requires
            self.wf(),
        ensures
            match self.shown(slot@) {
                Some(c) => r == Some(&c),
                None => r is None,
            },
    {
        match self.position(slot) {
            Some(i) => self.slots[i].slot.get(),
            None => None,
        }
    }

    /// The text shown in slot `slot`; empty when nothing is.
    pub fn get_text(&self, slot: &str) -> (r: &str)
        requires
            self.wf(),
        ensures
            r@ == match self.shown(slot@) {
                Some(c) => c.text_of(),
                None => Seq::empty(),
            },
    {
        match self.get(slot) {
            Some(c) => c.as_str(),
            None => {
                proof {
                    reveal_strlit("");
                }
                ""
            },
        }
    }

    /// Whether slot `slot` shows something: some layer holds non-empty text.
    pub fn has(&self, slot: &str) -> (r: bool)
        requires
            self.wf(),
        ensures
            r == (self.index_of(slot@) >= 0 && !layers_blank(self.slots@[self.index_of(slot@)].slot.layers@)),
    {
        match self.position(slot) {
            Some(i) => !self.slots[i].slot.is_empty(),
            None => false,
        }
    }

    /// The priority shown in slot `slot`, if any.
    pub fn current_priority(&self, slot: &str) -> (r: Option<u8>)
        requires
            self.wf(),
        ensures
            match r {
                Some(p) => self.index_of(slot@) >= 0 && p == self.slots@[self.index_of(slot@)].slot.top(),
                None => self.index_of(slot@) < 0 || self.slots@[self.index_of(slot@)].slot.top() < 0,
            },
    {
        match self.position(slot) {
            Some(i) => self.slots[i].slot.current_priority(),
            None => None,
        }
    }
}

/// The header's and the status bar's slots.
#[derive(Clone, Debug)]
pub struct Slots {
    pub header: RegionSlots,
    pub status: RegionSlots,
}

impl Slots {
    /// Both regions empty.
    pub fn new() -> (r: Self)
        ensures
            r.header.wf() && r.header.slots@.len() == 0,
            r.status.wf() && r.status.slots@.len() == 0,
    {
        Slots { header: RegionSlots::new(), status: RegionSlots::new() }
    }
}

} // verus!
