//! Styles as sets of named properties, and style sheets whose rules are
//! chosen by selector and ordered by priority.

use crate::color::Color;
use crate::strings::str_eq;
use crate::text::TextAlign;
use std::any::TypeId;
use vstd::prelude::*;

verus! {

#[verifier::external_type_specification]
#[verifier::external_body]
pub struct ExTypeId(TypeId);

/// Relies on `TypeId`'s equality: two ids are equal exactly when they are
/// the same value (the same type).
pub assume_specification[ <TypeId as PartialEq>::eq ](a: &TypeId, b: &TypeId) -> (r: bool)
    ensures
        r == (*a == *b),
;

/// Relies on `TypeId::of`: the id of a type; nothing is assumed of its value.
pub assume_specification<T: ?Sized + 'static>[ TypeId::of::<T> ]() -> TypeId;

/// One style property.
#[derive(Debug, Clone, Copy, PartialEq, Eq, Structural)]
pub enum StyleProperty {
    Color(Color),
    Background(Color),
    TextAlign(TextAlign),
    Padding(u16),
    Gap(u16),
    Bold(bool),
    Dim(bool),
    Italic(bool),
    Underline(bool),
}

/// Slot of a property name: color, background, text_align, padding, gap,
/// bold, dim, italic, underline; -1 for any other name.
pub open spec fn key_slot(key: Seq<char>) -> int {
    if key == "color"@ {
        0
    } else if key == "background"@ {
        1
    } else if key == "text_align"@ {
        2
    } else if key == "padding"@ {
        3
    } else if key == "gap"@ {
        4
    } else if key == "bold"@ {
        5
    } else if key == "dim"@ {
        6
    } else if key == "italic"@ {
        7
    } else if key == "underline"@ {
        8
    } else {
        -1
    }
}

fn slot_of(key: &str) -> (r: i32)
    ensures
        r == key_slot(key@),
{
    if str_eq(key, "color") {
        0
    } else if str_eq(key, "background") {
        1
    } else if str_eq(key, "text_align") {
        2
    } else if str_eq(key, "padding") {
        3
    } else if str_eq(key, "gap") {
        4
    } else if str_eq(key, "bold") {
        5
    } else if str_eq(key, "dim") {
        6
    } else if str_eq(key, "italic") {
        7
    } else if str_eq(key, "underline") {
        8
    } else {
        -1
    }
}

/// A set of properties, at most one per name.
#[derive(Debug, Clone)]
pub struct Style {
    /// The property of each name, by slot.
    pub props: Vec<Option<StyleProperty>>,
}

/// `a` with every property that `b` sets taken from `b`.
pub open spec fn merged(a: Seq<Option<StyleProperty>>, b: Seq<Option<StyleProperty>>) -> Seq<Option<StyleProperty>> {
    Seq::new(9, |i: int| if b[i] is Some { b[i] } else { a[i] })
}

impl Style {
    /// One slot per property name.
    pub open spec fn wf(&self) -> bool {
        self.props@.len() == 9
    }

    /// No properties.
    pub fn new() -> (r: Self)
        ensures
            r.wf(),
            forall|i: int| 0 <= i < 9 ==> #[trigger] r.props@[i] is None,
    {
        let mut props: Vec<Option<StyleProperty>> = Vec::new();
        let mut i: usize = 0;
        while i < 9
            invariant
                i <= 9,
                props@.len() == i,
                forall|j: int| 0 <= j < i ==> #[trigger] props@[j] is None,
            decreases 9 - i,
        {
            props.push(None);
            i = i + 1;
        }
        Style { props }
    }

    fn with(self, slot: usize, p: StyleProperty) -> (r: Self)
        requires
            self.wf(),
            slot < 9,
        ensures
            r.wf(),
            r.props@ == self.props@.update(slot as int, Some(p)),
    {
        let mut s = self;
        s.props.set(slot, Some(p));
        s
    }

    /// Set the foreground colour.
    pub fn color(self, color: Color) -> (r: Self)
        requires
            self.wf(),
        ensures
            r.wf(),
            r.props@ == self.props@.update(0, Some(StyleProperty::Color(color))),
    {
        self.with(0, StyleProperty::Color(color))
    }

    /// Set the background colour.
    pub fn background(self, color: Color) -> (r: Self)
        requires
            self.wf(),
        ensures
            r.wf(),
            r.props@ == self.props@.update(1, Some(StyleProperty::Background(color))),
    {
        self.with(1, StyleProperty::Background(color))
    }

    /// Set the alignment.
    pub fn text_align(self, align: TextAlign) -> (r: Self)
        requires
            self.wf(),
        ensures
            r.wf(),
            r.props@ == self.props@.update(2, Some(StyleProperty::TextAlign(align))),
    {
        self.with(2, StyleProperty::TextAlign(align))
    }

    /// Set the padding.
    pub fn padding(self, padding: u16) -> (r: Self)
        requires
            self.wf(),
        ensures
            r.wf(),
            r.props@ == self.props@.update(3, Some(StyleProperty::Padding(padding))),
    {
        self.with(3, StyleProperty::Padding(padding))
    }

    /// Set the gap.
    pub fn gap(self, gap: u16) -> (r: Self)
        requires
            self.wf(),
        ensures
            r.wf(),
            r.props@ == self.props@.update(4, Some(StyleProperty::Gap(gap))),
    {
        self.with(4, StyleProperty::Gap(gap))
    }

    /// Set bold.
    pub fn bold(self, bold: bool) -> (r: Self)
        requires
            self.wf(),
        ensures
            r.wf(),
            r.props@ == self.props@.update(5, Some(StyleProperty::Bold(bold))),
    {
        self.with(5, StyleProperty::Bold(bold))
    }

    /// Set dim.
    pub fn dim(self, dim: bool) -> (r: Self)
        requires
            self.wf(),
        ensures
            r.wf(),
            r.props@ == self.props@.update(6, Some(StyleProperty::Dim(dim))),
    {
        self.with(6, StyleProperty::Dim(dim))
    }

    /// Set italic.
    pub fn italic(self, italic: bool) -> (r: Self)
        requires
            self.wf(),
        ensures
            r.wf(),
            r.props@ == self.props@.update(7, Some(StyleProperty::Italic(italic))),
    {
        self.with(7, StyleProperty::Italic(italic))
    }

    /// Set underline.
    pub fn underline(self, underline: bool) -> (r: Self)
        requires
            self.wf(),
        ensures
            r.wf(),
            r.props@ == self.props@.update(8, Some(StyleProperty::Underline(underline))),
    {
        self.with(8, StyleProperty::Underline(underline))
    }

    /// The property named `key`.
    pub fn get(&self, key: &str) -> (r: Option<&StyleProperty>)
        requires
            self.wf(),
        ensures
            key_slot(key@) < 0 ==> r is None,
            key_slot(key@) >= 0 ==> match self.props@[key_slot(key@)] {
                Some(p) => r == Some(&p),
                None => r is None,
            },
    {
        let slot = slot_of(key);
        if slot < 0 {
            None
        } else {
            self.props[slot as usize].as_ref()
        }
    }

    /// Whether the property named `key` is set.
    pub fn has(&self, key: &str) -> (r: bool)
        requires
            self.wf(),
        ensures
            r == (key_slot(key@) >= 0 && self.props@[key_slot(key@)] is Some),
    {
        let slot = slot_of(key);
        slot >= 0 && self.props[slot as usize].is_some()
    }

    /// This style with every property that `other` sets taken from `other`.
    pub fn merge(self, other: &Style) -> (r: Self)
        requires
            self.wf(),
            other.wf(),
        ensures
            r.wf(),
            r.props@ == merged(self.props@, other.props@),
    {
        let mut s = self;
        let mut i: usize = 0;
        while i < 9
            invariant
                i <= 9,
                s.wf(),
                other.wf(),
                forall|j: int| 0 <= j < i ==> s.props@[j] == (if other.props@[j] is Some { other.props@[j] } else { self.props@[j] }),
                forall|j: int| i <= j < 9 ==> s.props@[j] == self.props@[j],
            decreases 9 - i,
        {
            if other.props[i].is_some() {
                s.props.set(i, other.props[i]);
            }
            i = i + 1;
        }
        assert(s.props@ =~= merged(self.props@, other.props@));
        s
    }
}

impl Default for Style {
    fn default() -> (r: Self)
        ensures
            r.wf(),
            forall|i: int| 0 <= i < 9 ==> #[trigger] r.props@[i] is None,
    {
        Style::new()
    }
}

/// What a rule applies to.
#[derive(Debug, Clone, Copy, PartialEq, Eq, Hash)]
pub enum Selector {
    Type(TypeId),
    Name(&'static str),
    Class(&'static str),
    Id(&'static str),
}

/// Two selectors select the same components.
pub open spec fn same_selector(a: Selector, b: Selector) -> bool {
    match (a, b) {
        (Selector::Type(x), Selector::Type(y)) => x == y,
        (Selector::Name(x), Selector::Name(y)) => x@ == y@,
        (Selector::Class(x), Selector::Class(y)) => x@ == y@,
        (Selector::Id(x), Selector::Id(y)) => x@ == y@,
        _ => false,
    }
}

fn selector_eq(a: &Selector, b: &Selector) -> (r: bool)
    ensures
        r == same_selector(*a, *b),
{
    match (a, b) {
        (Selector::Type(x), Selector::Type(y)) => *x == *y,
        (Selector::Name(x), Selector::Name(y)) => str_eq(x, y),
        (Selector::Class(x), Selector::Class(y)) => str_eq(x, y),
        (Selector::Id(x), Selector::Id(y)) => str_eq(x, y),
        _ => false,
    }
}

/// A style for the components a selector picks.
#[derive(Debug, Clone)]
pub struct StyleRule {
    pub selector: Selector,
    pub style: Style,
    pub priority: u16,
}

impl StyleRule {
    /// A rule of priority 0.
    pub fn new(selector: Selector, style: Style) -> (r: Self)
        ensures
            r.selector == selector,
            r.style == style,
            r.priority == 0,
    {
        StyleRule { selector, style, priority: 0 }
    }

    /// Set the priority.
    pub fn with_priority(self, priority: u16) -> (r: Self)
        ensures
            r.priority == priority,
            r.selector == self.selector,
            r.style == self.style,
    {
        let mut s = self;
        s.priority = priority;
        s
    }

    /// The selector.
    pub fn selector(&self) -> (r: &Selector)
        ensures
            *r == self.selector,
    {
        &self.selector
    }

    /// The style.
    pub fn style(&self) -> (r: &Style)
        ensures
            *r == self.style,
    {
        &self.style
    }

    /// The priority.
    pub fn priority(&self) -> (r: u16)
        ensures
            r == self.priority,
    {
        self.priority
    }
}

/// Indices of the first `k` rules that `sel` matches, in order.
pub open spec fn matching(rules: Seq<StyleRule>, sel: Selector, k: int) -> Seq<int>
    decreases k,
{
    if k <= 0 {
        Seq::empty()
    } else if same_selector(rules[k - 1].selector, sel) {
        matching(rules, sel, k - 1).push(k - 1)
    } else {
        matching(rules, sel, k - 1)
    }
}

/// Matching rule indices for the first `k` selectors, selector by selector.
pub open spec fn occurrences(rules: Seq<StyleRule>, sels: Seq<Selector>, k: int) -> Seq<int>
    decreases k,
{
    if k <= 0 {
        Seq::empty()
    } else {
        occurrences(rules, sels, k - 1) + matching(rules, sels[k - 1], rules.len() as int)
    }
}

/// The winning value of property slot `i` among the rules `occ` and its
/// priority: the highest priority wins, the later of equal priorities.
pub open spec fn resolve(rules: Seq<StyleRule>, occ: Seq<int>, i: int) -> (Option<StyleProperty>, u16)
    decreases occ.len(),
{
    if occ.len() == 0 {
        (None, 0)
    } else {
        let prev = resolve(rules, occ.drop_last(), i);
        let r = rules[occ.last()];
        if r.style.props@[i] is Some && (prev.0 is None || r.priority >= prev.1) {
            (r.style.props@[i], r.priority)
        } else {
            prev
        }
    }
}

/// `s` with rule index `x` inserted after every entry whose priority is at
/// least that of `x`.
pub open spec fn ins(rules: Seq<StyleRule>, s: Seq<int>, x: int) -> Seq<int>
    decreases s.len(),
{
    if s.len() == 0 {
        seq![x]
    } else if rules[s.last()].priority >= rules[x].priority {
        s.push(x)
    } else {
        ins(rules, s.drop_last(), x).push(s.last())
    }
}

/// Rule indices `s` sorted by descending priority, keeping the order of equal ones.
pub open spec fn sorted_desc(rules: Seq<StyleRule>, s: Seq<int>) -> Seq<int>
    decreases s.len(),
{
    if s.len() == 0 {
        Seq::empty()
    } else {
        ins(rules, sorted_desc(rules, s.drop_last()), s.last())
    }
}

/// Rules that select components.
#[derive(Debug, Clone)]
pub struct StyleSheet {
    pub rules: Vec<StyleRule>,
}

impl StyleSheet {
    /// Every rule's style is well formed.
    pub open spec fn wf(&self) -> bool {
        forall|k: int| 0 <= k < self.rules@.len() ==> (#[trigger] self.rules@[k]).style.wf()
    }

    /// No rules.
    pub fn new() -> (r: Self)
        ensures
            r.wf(),
            r.rules@.len() == 0,
    {
        StyleSheet { rules: Vec::new() }
    }

    /// Add a rule at the end.
    pub fn add_rule(self, rule: StyleRule) -> (r: Self)
        ensures
            r.rules@ == self.rules@.push(rule),
            self.wf() && rule.style.wf() ==> r.wf(),
    {
        let mut s = self;
        s.rules.push(rule);
        s
    }

    /// Style every component of type `T`.
    pub fn style_type<T: 'static>(self, style: Style) -> (r: Self)
        ensures
            r.rules@.len() == self.rules@.len() + 1,
            r.rules@.drop_last() == self.rules@,
            r.rules@.last().selector is Type && r.rules@.last().style == style && r.rules@.last().priority == 0,
            self.wf() && style.wf() ==> r.wf(),
    {
        let rule = StyleRule::new(Selector::Type(TypeId::of::<T>()), style);
        let r = self.add_rule(rule);
        assert(r.rules@.drop_last() =~= self.rules@);
        r
    }

    /// Style components with this name.
    pub fn style_name(self, name: &'static str, style: Style) -> (r: Self)
        ensures
            r.rules@ == self.rules@.push(StyleRule { selector: Selector::Name(name), style, priority: 0 }),
            self.wf() && style.wf() ==> r.wf(),
    {
        self.add_rule(StyleRule::new(Selector::Name(name), style))
    }

    /// Style components with this class.
    pub fn style_class(self, class: &'static str, style: Style) -> (r: Self)
        ensures
            r.rules@ == self.rules@.push(StyleRule { selector: Selector::Class(class), style, priority: 0 }),
            self.wf() && style.wf() ==> r.wf(),
    {
        self.add_rule(StyleRule::new(Selector::Class(class), style))
    }

    /// Style the component with this id.
    pub fn style_id(self, id: &'static str, style: Style) -> (r: Self)
        ensures
            r.rules@ == self.rules@.push(StyleRule { selector: Selector::Id(id), style, priority: 0 }),
            self.wf() && style.wf() ==> r.wf(),
    {
        self.add_rule(StyleRule::new(Selector::Id(id), style))
    }

    fn matching_rules(&self, sel: &Selector) -> (r: Vec<usize>)
        ensures
            r@.len() == matching(self.rules@, *sel, self.rules@.len() as int).len(),
            forall|k: int| 0 <= k < r@.len() ==> #[trigger] r@[k] as int == matching(self.rules@, *sel, self.rules@.len() as int)[k],
            forall|k: int| 0 <= k < r@.len() ==> #[trigger] r@[k] < self.rules@.len(),
    {
        let mut v: Vec<usize> = Vec::new();
        let mut i: usize = 0;
        while i < self.rules.len()
            invariant
                i <= self.rules@.len(),
                v@.len() == matching(self.rules@, *sel, i as int).len(),
                forall|k: int| 0 <= k < v@.len() ==> #[trigger] v@[k] as int == matching(self.rules@, *sel, i as int)[k],
                forall|k: int| 0 <= k < v@.len() ==> #[trigger] v@[k] < i,
            decreases self.rules@.len() - i,
        {
            if selector_eq(&self.rules[i].selector, sel) {
                v.push(i);
            }
            i = i + 1;
        }
        v
    }

    /// Styles of the rules `selector` matches, highest priority first; rules
    /// of equal priority keep their order.
    pub fn get_styles(&self, selector: &Selector) -> (r: Vec<&Style>)
        ensures
            r@.len() == sorted_desc(self.rules@, matching(self.rules@, *selector, self.rules@.len() as int)).len(),
            forall|k: int| 0 <= k < r@.len() ==> *#[trigger] r@[k] == self.rules@[sorted_desc(
                self.rules@,
                matching(self.rules@, *selector, self.rules@.len() as int),
            )[k]].style,
    {
        let m = self.matching_rules(selector);
        let ghost mseq = matching(self.rules@, *selector, self.rules@.len() as int);
        let mut order: Vec<usize> = Vec::new();
        let mut k: usize = 0;
        while k < m.len()
            invariant
                k <= m@.len(),
                m@.len() == mseq.len(),
                forall|j: int| 0 <= j < m@.len() ==> #[trigger] m@[j] as int == mseq[j],
                forall|j: int| 0 <= j < m@.len() ==> #[trigger] m@[j] < self.rules@.len(),
                order@.map_values(|x: usize| x as int) == sorted_desc(self.rules@, mseq.subrange(0, k as int)),
                forall|j: int| 0 <= j < order@.len() ==> #[trigger] order@[j] < self.rules@.len(),
            decreases m@.len() - k,
        {
            let x = m[k];
            let px = self.rules[x].priority;
            let mut p: usize = order.len();
            let ghost base = order@.map_values(|y: usize| y as int);
            assert(base.subrange(0, base.len() as int) =~= base);
            assert(base.subrange(base.len() as int, base.len() as int) =~= Seq::<int>::empty());
            while p > 0 && self.rules[order[p - 1]].priority < px
                invariant
                    p <= order@.len(),
                    x < self.rules@.len(),
                    px == self.rules@[x as int].priority,
                    base == order@.map_values(|y: usize| y as int),
                    forall|j: int| 0 <= j < order@.len() ==> #[trigger] order@[j] < self.rules@.len(),
                    ins(self.rules@, base, x as int) == ins(self.rules@, base.subrange(0, p as int), x as int) + base.subrange(p as int, base.len() as int),
                decreases p,
            {
                proof {
                    let pre = base.subrange(0, p as int);
                    assert(pre.drop_last() =~= base.subrange(0, p - 1));
                    assert(pre.last() == order@[p - 1] as int);
                    assert(base.subrange(p - 1, base.len() as int) =~= seq![pre.last()] + base.subrange(p as int, base.len() as int));
                }
                p = p - 1;
            }
            proof {
                let pre = base.subrange(0, p as int);
                if p > 0 {
                    assert(pre.last() == order@[p - 1] as int);
                }
                assert(ins(self.rules@, pre, x as int) =~= pre.push(x as int));
            }
            order.insert(p, x);
            proof {
                assert(mseq.subrange(0, k + 1).drop_last() =~= mseq.subrange(0, k as int));
                assert(order@.map_values(|y: usize| y as int) =~= base.subrange(0, p as int).push(x as int) + base.subrange(p as int, base.len() as int));
            }
            k = k + 1;
        }
        let mut out: Vec<&Style> = Vec::new();
        let mut j: usize = 0;
        while j < order.len()
            invariant
                j <= order@.len(),
                forall|i: int| 0 <= i < order@.len() ==> #[trigger] order@[i] < self.rules@.len(),
                out@.len() == j,
                forall|i: int| 0 <= i < j ==> *#[trigger] out@[i] == self.rules@[order@[i] as int].style,
            decreases order@.len() - j,
        {
            out.push(&self.rules[order[j]].style);
            j = j + 1;
        }
        proof {
            assert(mseq.subrange(0, m@.len() as int) =~= mseq);
        }
        out
    }

    /// The style of a component that `selectors` select: for each property,
    /// the value from the highest-priority matching rule that sets it, the
    /// later of equal priorities (rules of each selector in turn, in order).
    pub fn compute_style(&self, selectors: &[Selector]) -> (r: Style)
        requires
            self.wf(),
        ensures
            r.wf(),
            forall|i: int| 0 <= i < 9 ==> #[trigger] r.props@[i] == resolve(self.rules@, occurrences(self.rules@, selectors@, selectors@.len() as int), i).0,
    {
        let mut occ: Vec<usize> = Vec::new();
        let mut s: usize = 0;
        while s < selectors.len()
            invariant
                s <= selectors@.len(),
                occ@.map_values(|x: usize| x as int) == occurrences(self.rules@, selectors@, s as int),
                forall|j: int| 0 <= j < occ@.len() ==> #[trigger] occ@[j] < self.rules@.len(),
            decreases selectors@.len() - s,
        {
            let m = self.matching_rules(&selectors[s]);
            let ghost before = occ@.map_values(|x: usize| x as int);
            let mut t: usize = 0;
            while t < m.len()
                invariant
                    t <= m@.len(),
                    s < selectors@.len(),
                    m@.len() == matching(self.rules@, selectors@[s as int], self.rules@.len() as int).len(),
                    forall|j: int| 0 <= j < m@.len() ==> #[trigger] m@[j] as int == matching(self.rules@, selectors@[s as int], self.rules@.len() as int)[j],
                    forall|j: int| 0 <= j < m@.len() ==> #[trigger] m@[j] < self.rules@.len(),
                    occ@.map_values(|x: usize| x as int) == before + matching(self.rules@, selectors@[s as int], self.rules@.len() as int).subrange(0, t as int),
                    forall|j: int| 0 <= j < occ@.len() ==> #[trigger] occ@[j] < self.rules@.len(),
                decreases m@.len() - t,
            {
                let ghost prev = occ@.map_values(|x: usize| x as int);
                occ.push(m[t]);
                assert(occ@.map_values(|x: usize| x as int) =~= prev.push(m@[t as int] as int));
                assert(matching(self.rules@, selectors@[s as int], self.rules@.len() as int).subrange(0, t + 1)
                    =~= matching(self.rules@, selectors@[s as int], self.rules@.len() as int).subrange(0, t as int).push(m@[t as int] as int));
                t = t + 1;
                assert(occ@.map_values(|x: usize| x as int) =~= before + matching(self.rules@, selectors@[s as int], self.rules@.len() as int).subrange(0, t as int));
            }
            assert(matching(self.rules@, selectors@[s as int], self.rules@.len() as int).subrange(0, m@.len() as int) =~= matching(self.rules@, selectors@[s as int], self.rules@.len() as int));
            s = s + 1;
        }
        let ghost occs = occ@.map_values(|x: usize| x as int);
        let mut result = Style::new();
        let mut i: usize = 0;
        while i < 9
            invariant
                i <= 9,
                result.wf(),
                self.wf(),
                occs == occurrences(self.rules@, selectors@, selectors@.len() as int),
                occs == occ@.map_values(|x: usize| x as int),
                forall|j: int| 0 <= j < occ@.len() ==> #[trigger] occ@[j] < self.rules@.len(),
                forall|j: int| 0 <= j < i ==> #[trigger] result.props@[j] == resolve(self.rules@, occs, j).0,
            decreases 9 - i,
        {
            let mut best: Option<StyleProperty> = None;
            let mut best_prio: u16 = 0;
            let mut k: usize = 0;
            while k < occ.len()
                invariant
                    k <= occ@.len(),
                    i < 9,
                    self.wf(),
                    occs == occ@.map_values(|x: usize| x as int),
                    forall|j: int| 0 <= j < occ@.len() ==> #[trigger] occ@[j] < self.rules@.len(),
                    (best, best_prio) == resolve(self.rules@, occs.subrange(0, k as int), i as int),
                decreases occ@.len() - k,
            {
                let rule = &self.rules[occ[k]];
                assert(rule.style.wf());
                proof {
                    assert(occs.subrange(0, k + 1).drop_last() =~= occs.subrange(0, k as int));
                }
                if rule.style.props[i].is_some() && (best.is_none() || rule.priority >= best_prio) {
                    best = rule.style.props[i];
                    best_prio = rule.priority;
                }
                k = k + 1;
            }
            assert(occs.subrange(0, occ@.len() as int) =~= occs);
            result.props.set(i, best);
            i = i + 1;
        }
        result
    }
}

/// Components that stylesheets can select.
pub trait Styleable: 'static {
    /// Selects every component of this type.
    fn type_selector(&self) -> Selector {
        Selector::Type(TypeId::of::<Self>())
    }

    fn name_selector(&self) -> Option<Selector> {
        None
    }

    fn class_selectors(&self) -> Vec<Selector> {
        Vec::new()
    }

    fn id_selector(&self) -> Option<Selector> {
        None
    }

    /// Type, name, classes and id, in that order.
    fn selectors(&self) -> Vec<Selector> {
        let mut selectors: Vec<Selector> = Vec::new();
        selectors.push(self.type_selector());
        if let Some(name) = self.name_selector() {
            selectors.push(name);
        }
        let mut classes = self.class_selectors();
        selectors.append(&mut classes);
        if let Some(id) = self.id_selector() {
            selectors.push(id);
        }
        selectors
    }

    /// The style the stylesheet gives this component.
    fn compute_style(&self, stylesheet: &StyleSheet) -> (r: Style)
        requires
            stylesheet.wf(),
    {
        let sels = self.selectors();
        stylesheet.compute_style(sels.as_slice())
    }
}

} // verus!
