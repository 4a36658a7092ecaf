//! The focus manager: the chain of focusable widgets, the widget that holds
//! the focus, and the pending request to move it.
//!
//! Widgets register in the order in which they are attached, which is the
//! depth-first pre-order of the tree. Each entry remembers the focus scope
//! that was ambient when the widget registered, that is its innermost
//! enclosing scope. "Next" and "previous" move among the entries that share
//! the scope of the focused widget, and wrap around at the ends.

use vstd::prelude::*;
use crate::node::{same_widget, WidgetId};

verus! {

/// One focusable widget and the scope it registered in (`None` outside every
/// scope).
#[derive(Clone, Copy, Debug, PartialEq, Eq)]
pub struct FocusEntry {
    pub widget: WidgetId,
    pub scope: Option<WidgetId>,
}

/// A request to move the focus.
#[derive(Clone, Copy, Debug, PartialEq, Eq)]
pub enum FocusChange {
    /// Give the focus to this widget.
    Focus(WidgetId),
    /// Move to the next focusable widget of the current scope.
    Next,
    /// Move to the previous focusable widget of the current scope.
    Previous,
}

/// Which widgets are to be told that the focus moved.
#[derive(Clone, Copy, Debug, PartialEq, Eq)]
pub struct FocusTransition {
    pub lost: Option<WidgetId>,
    pub gained: Option<WidgetId>,
}

/// The least index at or after `lo` whose entry is for `widget`, or the
/// length of the chain if there is none.
pub open spec fn entry_from(chain: Seq<FocusEntry>, widget: WidgetId, lo: int) -> int
    decreases chain.len() - lo,
{
    if lo < 0 || lo >= chain.len() {
        chain.len() as int
    } else if chain[lo].widget == widget {
        lo
    } else {
        entry_from(chain, widget, lo + 1)
    }
}

/// The index of the entry of `widget`, or the length of the chain if the
/// widget is not registered.
pub open spec fn position(chain: Seq<FocusEntry>, widget: WidgetId) -> int {
    entry_from(chain, widget, 0)
}

/// The least index at or after `lo` whose entry lies in `scope`, or the
/// length of the chain if there is none.
pub open spec fn first_peer_from(chain: Seq<FocusEntry>, scope: Option<WidgetId>, lo: int) -> int
    decreases chain.len() - lo,
{
    if lo < 0 || lo >= chain.len() {
        chain.len() as int
    } else if chain[lo].scope == scope {
        lo
    } else {
        first_peer_from(chain, scope, lo + 1)
    }
}

/// The greatest index before `hi` whose entry lies in `scope`, or `-1` if
/// there is none.
pub open spec fn last_peer_before(chain: Seq<FocusEntry>, scope: Option<WidgetId>, hi: int) -> int
    decreases hi,
{
    if hi <= 0 || hi > chain.len() {
        -1
    } else if chain[hi - 1].scope == scope {
        hi - 1
    } else {
        last_peer_before(chain, scope, hi - 1)
    }
}

/// Where "next" leads from entry `i`: to the first entry of the same scope
/// behind it, or, if `i` is the last of its scope, to the first of the scope.
pub open spec fn next_index(chain: Seq<FocusEntry>, i: int) -> int {
    let behind = first_peer_from(chain, chain[i].scope, i + 1);
    if behind < chain.len() {
        behind
    } else {
        first_peer_from(chain, chain[i].scope, 0)
    }
}

/// Where "previous" leads from entry `i`: to the last entry of the same scope
/// before it, or, if `i` is the first of its scope, to the last of the scope.
pub open spec fn prev_index(chain: Seq<FocusEntry>, i: int) -> int {
    let before = last_peer_before(chain, chain[i].scope, i);
    if before >= 0 {
        before
    } else {
        last_peer_before(chain, chain[i].scope, chain.len() as int)
    }
}

/// Entry `i` is the first of its scope.
pub open spec fn is_first_of_scope(chain: Seq<FocusEntry>, i: int) -> bool {
    &&& 0 <= i < chain.len()
    &&& forall|k: int| 0 <= k < i ==> (#[trigger] chain[k]).scope != chain[i].scope
}

/// Entry `i` is the last of its scope.
pub open spec fn is_last_of_scope(chain: Seq<FocusEntry>, i: int) -> bool {
    &&& 0 <= i < chain.len()
    &&& forall|k: int| i < k < chain.len() ==> (#[trigger] chain[k]).scope != chain[i].scope
}

/// No widget has two entries.
pub open spec fn distinct(chain: Seq<FocusEntry>) -> bool {
    forall|i: int, j: int|
        0 <= i < j < chain.len() ==> (#[trigger] chain[i]).widget != (#[trigger] chain[j]).widget
}

/// The mathematical state of a focus manager.
pub struct FocusState {
    /// The focusable widgets in the order in which they registered.
    pub chain: Seq<FocusEntry>,
    /// The widget that holds the focus.
    pub focused: Option<WidgetId>,
    /// The most recent request that is not resolved yet.
    pub request: Option<FocusChange>,
}

impl FocusState {
    /// The state without widgets, focus or request.
    pub open spec fn empty() -> FocusState {
        FocusState { chain: Seq::empty(), focused: None, request: None }
    }

    /// No widget is registered twice.
    pub open spec fn wf(self) -> bool {
        distinct(self.chain)
    }

    pub open spec fn is_registered(self, widget: WidgetId) -> bool {
        position(self.chain, widget) < self.chain.len()
    }

    /// The scope in which a registered widget lies.
    pub open spec fn scope_of(self, widget: WidgetId) -> Option<WidgetId>
        recommends
            self.is_registered(widget),
    {
        self.chain[position(self.chain, widget)].scope
    }

    /// The state after `widget` registered in `scope`. A widget that is
    /// registered already keeps its entry.
    pub open spec fn register(self, widget: WidgetId, scope: Option<WidgetId>) -> FocusState {
        if self.is_registered(widget) {
            self
        } else {
            FocusState { chain: self.chain.push(FocusEntry { widget, scope }), ..self }
        }
    }

    /// The state after a request: it replaces the pending one.
    pub open spec fn request(self, change: FocusChange) -> FocusState {
        FocusState { request: Some(change), ..self }
    }

    /// The widget that "next" gives the focus to. Without a registered
    /// focused widget it is the first of the chain.
    pub open spec fn next_target(self) -> Option<WidgetId> {
        if self.focused is Some && self.is_registered(self.focused->0) {
            Some(self.chain[next_index(self.chain, position(self.chain, self.focused->0))].widget)
        } else if self.chain.len() > 0 {
            Some(self.chain[0].widget)
        } else {
            None
        }
    }

    /// The widget that "previous" gives the focus to. Without a registered
    /// focused widget it is the last of the chain.
    pub open spec fn prev_target(self) -> Option<WidgetId> {
        if self.focused is Some && self.is_registered(self.focused->0) {
            Some(self.chain[prev_index(self.chain, position(self.chain, self.focused->0))].widget)
        } else if self.chain.len() > 0 {
            Some(self.chain[self.chain.len() - 1].widget)
        } else {
            None
        }
    }

    /// The widget that holds the focus once the pending request is resolved.
    pub open spec fn focus_after(self) -> Option<WidgetId> {
        match self.request {
            None => self.focused,
            Some(FocusChange::Focus(widget)) => Some(widget),
            Some(FocusChange::Next) => self.next_target(),
            Some(FocusChange::Previous) => self.prev_target(),
        }
    }

    /// The state after the pending request is resolved.
    pub open spec fn resolve(self) -> FocusState {
        FocusState { focused: self.focus_after(), request: None, ..self }
    }

    /// Who is to be told of the move that resolving the request makes.
    pub open spec fn transition(self) -> FocusTransition {
        if self.focus_after() == self.focused {
            FocusTransition { lost: None, gained: None }
        } else {
            FocusTransition { lost: self.focused, gained: self.focus_after() }
        }
    }
}

/// The chain of focusable widgets with the focus and the pending request.
#[derive(Clone, Debug, PartialEq, Eq)]
pub struct FocusManager {
    pub chain: Vec<FocusEntry>,
    pub focused: Option<WidgetId>,
    pub request: Option<FocusChange>,
}

impl View for FocusManager {
    type V = FocusState;

    open spec fn view(&self) -> FocusState {
        FocusState { chain: self.chain@, focused: self.focused, request: self.request }
    }
}

impl FocusManager {
    pub fn new() -> (manager: FocusManager)
        ensures
            manager@ == FocusState::empty(),
            manager@.wf(),
    {
        FocusManager { chain: Vec::new(), focused: None, request: None }
    }

    /// The widget that holds the focus.
    pub fn focused(&self) -> (widget: Option<WidgetId>)
        ensures
            widget == self@.focused,
    {
        self.focused
    }

    /// The index of the entry of `widget`, or the length of the chain.
    fn find(&self, widget: WidgetId) -> (i: usize)
        ensures
            i == position(self@.chain, widget),
            i <= self.chain.len(),
    {
        let mut i: usize = 0;
        while i < self.chain.len()
            invariant
                i <= self.chain.len(),
                entry_from(self.chain@, widget, i as int) == position(self.chain@, widget),
            decreases self.chain.len() - i,
        {
            if self.chain[i].widget == widget {
                return i;
            }
            i += 1;
        }
        i
    }

    /// Whether `widget` has an entry in the chain.
    pub fn is_registered(&self, widget: WidgetId) -> (found: bool)
        ensures
            found == self@.is_registered(widget),
    {
        self.find(widget) < self.chain.len()
    }

    /// Enters `widget` at the end of the chain, as lying in `scope`. A widget
    /// that is registered already keeps its entry.
    pub fn register(&mut self, widget: WidgetId, scope: Option<WidgetId>)
        ensures
            final(self)@ == old(self)@.register(widget, scope),
            old(self)@.wf() ==> final(self)@.wf(),
    {
        if self.find(widget) == self.chain.len() {
            proof {
                lemma_position(self.chain@, widget);
            }
            self.chain.push(FocusEntry { widget, scope });
        }
    }

    /// Records a request; an earlier one that is still pending is dropped.
    pub fn request(&mut self, change: FocusChange)
        ensures
            final(self)@ == old(self)@.request(change),
            old(self)@.wf() ==> final(self)@.wf(),
    {
        self.request = Some(change);
    }

    /// The least index at or after `lo` whose entry lies in `scope`.
    fn first_peer_from(&self, scope: Option<WidgetId>, lo: usize) -> (j: usize)
        requires
            lo <= self.chain.len(),
        ensures
            j == first_peer_from(self@.chain, scope, lo as int),
            lo <= j <= self.chain.len(),
    {
        let mut j: usize = lo;
        while j < self.chain.len()
            invariant
                lo <= j <= self.chain.len(),
                first_peer_from(self.chain@, scope, j as int) == first_peer_from(
                    self.chain@,
                    scope,
                    lo as int,
                ),
            decreases self.chain.len() - j,
        {
            if same_widget(self.chain[j].scope, scope) {
                return j;
            }
            j += 1;
        }
        j
    }

    /// The greatest index before `hi` whose entry lies in `scope`, if any.
    fn last_peer_before(&self, scope: Option<WidgetId>, hi: usize) -> (j: Option<usize>)
        requires
            hi <= self.chain.len(),
        ensures
            match j {
                Some(j) => j == last_peer_before(self@.chain, scope, hi as int) && j < hi,
                None => last_peer_before(self@.chain, scope, hi as int) == -1,
            },
    {
        let mut j: usize = hi;
        while j > 0
            invariant
                j <= hi <= self.chain.len(),
                last_peer_before(self.chain@, scope, j as int) == last_peer_before(
                    self.chain@,
                    scope,
                    hi as int,
                ),
            decreases j,
        {
            if same_widget(self.chain[j - 1].scope, scope) {
                return Some(j - 1);
            }
            j -= 1;
        }
        None
    }

    /// The widget that "next" gives the focus to.
    pub fn next_target(&self) -> (target: Option<WidgetId>)
        ensures
            target == self@.next_target(),
    {
        let n: usize = self.chain.len();
        let at: usize = match self.focused {
            Some(widget) => self.find(widget),
            None => n,
        };
        if at < n {
            let scope = self.chain[at].scope;
            let behind: usize = self.first_peer_from(scope, at + 1);
            let to: usize = if behind < n {
                behind
            } else {
                self.first_peer_from(scope, 0)
            };
            proof {
                lemma_next_index(self.chain@, at as int);
            }
            Some(self.chain[to].widget)
        } else if n > 0 {
            Some(self.chain[0].widget)
        } else {
            None
        }
    }

    /// The widget that "previous" gives the focus to.
    pub fn prev_target(&self) -> (target: Option<WidgetId>)
        ensures
            target == self@.prev_target(),
    {
        let n: usize = self.chain.len();
        let at: usize = match self.focused {
            Some(widget) => self.find(widget),
            None => n,
        };
        if at < n {
            let scope = self.chain[at].scope;
            proof {
                lemma_prev_index(self.chain@, at as int);
            }
            let to: usize = match self.last_peer_before(scope, at) {
                Some(before) => before,
                None => match self.last_peer_before(scope, n) {
                    Some(last) => last,
                    None => at,
                },
            };
            Some(self.chain[to].widget)
        } else if n > 0 {
            Some(self.chain[n - 1].widget)
        } else {
            None
        }
    }

    /// Resolves the pending request: moves the focus as it asks and says who
    /// is to be told. Without a request nothing changes.
    pub fn resolve(&mut self) -> (moved: FocusTransition)
        ensures
            final(self)@ == old(self)@.resolve(),
            moved == old(self)@.transition(),
            old(self)@.wf() ==> final(self)@.wf(),
    {
        let before = self.focused;
        let after = match self.request {
            None => before,
            Some(FocusChange::Focus(widget)) => Some(widget),
            Some(FocusChange::Next) => self.next_target(),
            Some(FocusChange::Previous) => self.prev_target(),
        };
        self.focused = after;
        self.request = None;
        if same_widget(before, after) {
            FocusTransition { lost: None, gained: None }
        } else {
            FocusTransition { lost: before, gained: after }
        }
    }
}

/// What `entry_from` finds: an entry of the widget with none before it, or
/// the end of the chain if the widget has no entry from `lo` on.
pub proof fn lemma_entry_from(chain: Seq<FocusEntry>, widget: WidgetId, lo: int)
    requires
        0 <= lo <= chain.len(),
    ensures
        lo <= entry_from(chain, widget, lo) <= chain.len(),
        entry_from(chain, widget, lo) < chain.len() ==> chain[entry_from(chain, widget, lo)].widget
            == widget,
        forall|k: int| lo <= k < entry_from(chain, widget, lo) ==> (#[trigger] chain[k]).widget != widget,
    decreases chain.len() - lo,
{
    if lo < chain.len() && chain[lo].widget != widget {
        lemma_entry_from(chain, widget, lo + 1);
    }
}

/// The position of a widget is the index of its first entry; a widget
/// without an entry has the length of the chain as its position.
pub proof fn lemma_position(chain: Seq<FocusEntry>, widget: WidgetId)
    ensures
        0 <= position(chain, widget) <= chain.len(),
        position(chain, widget) < chain.len() ==> chain[position(chain, widget)].widget == widget,
        forall|k: int| 0 <= k < position(chain, widget) ==> (#[trigger] chain[k]).widget != widget,
{
    lemma_entry_from(chain, widget, 0);
}

/// In a chain without repeated widgets, the position of the widget of entry
/// `i` is `i`.
pub proof fn lemma_position_of_entry(chain: Seq<FocusEntry>, i: int)
    requires
        distinct(chain),
        0 <= i < chain.len(),
    ensures
        position(chain, chain[i].widget) == i,
{
    lemma_position(chain, chain[i].widget);
    let p = position(chain, chain[i].widget);
    if p < i {
        assert(chain[p].widget != chain[i].widget);
    }
}

/// Where a widget is found once one more entry stands at the end of the
/// chain: where it was, or at the new entry if that is its first.
pub proof fn lemma_entry_from_push(chain: Seq<FocusEntry>, entry: FocusEntry, widget: WidgetId, lo: int)
    requires
        0 <= lo <= chain.len(),
    ensures
        entry_from(chain.push(entry), widget, lo) == if entry_from(chain, widget, lo) < chain.len() {
            entry_from(chain, widget, lo)
        } else if entry.widget == widget {
            chain.len() as int
        } else {
            chain.len() as int + 1
        },
    decreases chain.len() - lo,
{
    let longer = chain.push(entry);
    if lo < chain.len() {
        assert(longer[lo] == chain[lo]);
        if chain[lo].widget != widget {
            lemma_entry_from_push(chain, entry, widget, lo + 1);
        }
    } else {
        assert(longer[lo] == entry);
        assert(entry_from(longer, widget, lo + 1) == longer.len());
    }
}

/// Registration: afterwards the widget is registered; a widget that was not
/// registered before lies in the scope it was registered in, at the end of
/// the chain; every other registered widget keeps its place and its scope;
/// and no widget is registered twice if none was.
pub proof fn lemma_register(state: FocusState, widget: WidgetId, scope: Option<WidgetId>)
    ensures
        state.register(widget, scope).is_registered(widget),
        state.is_registered(widget) ==> state.register(widget, scope) == state,
        !state.is_registered(widget) ==> state.register(widget, scope).scope_of(widget) == scope
            && position(state.register(widget, scope).chain, widget) == state.chain.len(),
        forall|other: WidgetId| #[trigger]
            state.is_registered(other) ==> state.register(widget, scope).is_registered(other)
                && position(state.register(widget, scope).chain, other) == position(
                state.chain,
                other,
            ) && state.register(widget, scope).scope_of(other) == state.scope_of(other),
        state.wf() ==> state.register(widget, scope).wf(),
        state.register(widget, scope).focused == state.focused,
        state.register(widget, scope).request == state.request,
{
    let entry = FocusEntry { widget, scope };
    lemma_position(state.chain, widget);
    lemma_entry_from_push(state.chain, entry, widget, 0);
    assert forall|other: WidgetId| #[trigger] state.is_registered(other) implies state.register(
        widget,
        scope,
    ).is_registered(other) && position(state.register(widget, scope).chain, other) == position(
        state.chain,
        other,
    ) && state.register(widget, scope).scope_of(other) == state.scope_of(other) by {
        lemma_position(state.chain, other);
        lemma_entry_from_push(state.chain, entry, other, 0);
    }
}

/// What `first_peer_from` finds: an entry of the scope with none between `lo`
/// and it, or the end of the chain.
pub proof fn lemma_first_peer_from(chain: Seq<FocusEntry>, scope: Option<WidgetId>, lo: int)
    requires
        0 <= lo <= chain.len(),
    ensures
        lo <= first_peer_from(chain, scope, lo) <= chain.len(),
        first_peer_from(chain, scope, lo) < chain.len() ==> chain[first_peer_from(
            chain,
            scope,
            lo,
        )].scope == scope,
        forall|k: int|
            lo <= k < first_peer_from(chain, scope, lo) ==> (#[trigger] chain[k]).scope != scope,
    decreases chain.len() - lo,
{
    if lo < chain.len() && chain[lo].scope != scope {
        lemma_first_peer_from(chain, scope, lo + 1);
    }
}

/// What `last_peer_before` finds: an entry of the scope with none between it
/// and `hi`, or `-1`.
pub proof fn lemma_last_peer_before(chain: Seq<FocusEntry>, scope: Option<WidgetId>, hi: int)
    requires
        0 <= hi <= chain.len(),
    ensures
        -1 <= last_peer_before(chain, scope, hi) < hi,
        last_peer_before(chain, scope, hi) >= 0 ==> chain[last_peer_before(chain, scope, hi)].scope
            == scope,
        forall|k: int|
            last_peer_before(chain, scope, hi) < k < hi ==> (#[trigger] chain[k]).scope != scope,
    decreases hi,
{
    if hi > 0 && chain[hi - 1].scope != scope {
        lemma_last_peer_before(chain, scope, hi - 1);
    }
}

/// "Next" leads from an entry to an entry of the same scope.
pub proof fn lemma_next_index(chain: Seq<FocusEntry>, i: int)
    requires
        0 <= i < chain.len(),
    ensures
        0 <= next_index(chain, i) < chain.len(),
        chain[next_index(chain, i)].scope == chain[i].scope,
{
    let scope = chain[i].scope;
    lemma_first_peer_from(chain, scope, i + 1);
    lemma_first_peer_from(chain, scope, 0);
    if first_peer_from(chain, scope, 0) >= chain.len() {
        assert(chain[i].scope != scope);
    }
}

/// "Previous" leads from an entry to an entry of the same scope.
pub proof fn lemma_prev_index(chain: Seq<FocusEntry>, i: int)
    requires
        0 <= i < chain.len(),
    ensures
        0 <= prev_index(chain, i) < chain.len(),
        chain[prev_index(chain, i)].scope == chain[i].scope,
{
    let scope = chain[i].scope;
    lemma_last_peer_before(chain, scope, i);
    lemma_last_peer_before(chain, scope, chain.len() as int);
    if last_peer_before(chain, scope, chain.len() as int) < 0 {
        assert(chain[i].scope != scope);
    }
}

/// Scope containment: where the focused widget is registered, "next" and
/// "previous" give the focus to a registered widget of the same scope, and
/// so does resolving a request for either.
pub proof fn lemma_navigation_stays_in_scope(state: FocusState)
    requires
        state.wf(),
        state.focused is Some,
        state.is_registered(state.focused->0),
    ensures
        state.next_target() is Some,
        state.is_registered(state.next_target()->0),
        state.scope_of(state.next_target()->0) == state.scope_of(state.focused->0),
        state.prev_target() is Some,
        state.is_registered(state.prev_target()->0),
        state.scope_of(state.prev_target()->0) == state.scope_of(state.focused->0),
        state.request(FocusChange::Next).resolve().focused == state.next_target(),
        state.request(FocusChange::Previous).resolve().focused == state.prev_target(),
{
    let i = position(state.chain, state.focused->0);
    lemma_position(state.chain, state.focused->0);
    lemma_next_index(state.chain, i);
    lemma_position_of_entry(state.chain, next_index(state.chain, i));
    lemma_prev_index(state.chain, i);
    lemma_position_of_entry(state.chain, prev_index(state.chain, i));
}

/// Wraparound: "next" from the last entry of a scope leads to the first
/// entry of that scope, and "previous" from the first leads to the last.
pub proof fn lemma_navigation_wraps(chain: Seq<FocusEntry>, i: int)
    requires
        0 <= i < chain.len(),
    ensures
        is_last_of_scope(chain, i) ==> is_first_of_scope(chain, next_index(chain, i)),
        is_first_of_scope(chain, i) ==> is_last_of_scope(chain, prev_index(chain, i)),
{
    let scope = chain[i].scope;
    lemma_next_index(chain, i);
    lemma_prev_index(chain, i);
    lemma_first_peer_from(chain, scope, i + 1);
    lemma_first_peer_from(chain, scope, 0);
    lemma_last_peer_before(chain, scope, i);
    lemma_last_peer_before(chain, scope, chain.len() as int);
    if is_last_of_scope(chain, i) {
        let behind = first_peer_from(chain, scope, i + 1);
        if behind < chain.len() {
            assert(chain[behind].scope != scope);
        }
    }
    if is_first_of_scope(chain, i) {
        let before = last_peer_before(chain, scope, i);
        if before >= 0 {
            assert(chain[before].scope != scope);
        }
    }
}

/// Wraparound, said of the widgets: when the focused widget is the last of
/// its scope, "next" gives the focus to the first widget of that scope; when
/// it is the first, "previous" gives it to the last.
pub proof fn lemma_focus_wraps(state: FocusState, i: int)
    requires
        state.wf(),
        0 <= i < state.chain.len(),
        state.focused == Some(state.chain[i].widget),
    ensures
        state.next_target() == Some(state.chain[next_index(state.chain, i)].widget),
        state.prev_target() == Some(state.chain[prev_index(state.chain, i)].widget),
        is_last_of_scope(state.chain, i) ==> is_first_of_scope(
            state.chain,
            next_index(state.chain, i),
        ),
        is_first_of_scope(state.chain, i) ==> is_last_of_scope(
            state.chain,
            prev_index(state.chain, i),
        ),
{
    lemma_position_of_entry(state.chain, i);
    lemma_navigation_wraps(state.chain, i);
}

/// "Previous" undoes "next", and "next" undoes "previous".
pub proof fn lemma_navigation_inverse(chain: Seq<FocusEntry>, i: int)
    requires
        0 <= i < chain.len(),
    ensures
        prev_index(chain, next_index(chain, i)) == i,
        next_index(chain, prev_index(chain, i)) == i,
{
    let scope = chain[i].scope;
    let n = chain.len() as int;
    lemma_next_index(chain, i);
    lemma_prev_index(chain, i);
    let j = next_index(chain, i);
    let h = prev_index(chain, i);
    lemma_first_peer_from(chain, scope, i + 1);
    lemma_first_peer_from(chain, scope, 0);
    lemma_last_peer_before(chain, scope, i);
    lemma_last_peer_before(chain, scope, n);
    lemma_last_peer_before(chain, scope, j);
    lemma_first_peer_from(chain, scope, h + 1);
    assert(prev_index(chain, j) == i) by {
        let behind = first_peer_from(chain, scope, i + 1);
        if behind < n {
            let r = last_peer_before(chain, scope, j);
            if r < i {
                assert(chain[i].scope == scope);
            } else if r > i {
                assert(chain[r].scope == scope);
            }
        } else {
            let r = last_peer_before(chain, scope, j);
            if r >= 0 {
                assert(chain[r].scope == scope);
            }
            let last = last_peer_before(chain, scope, n);
            if last < i {
                assert(chain[i].scope == scope);
            } else if last > i {
                assert(chain[last].scope == scope);
            }
        }
    }
    assert(next_index(chain, h) == i) by {
        let before = last_peer_before(chain, scope, i);
        if before >= 0 {
            let r = first_peer_from(chain, scope, h + 1);
            if r > i {
                assert(chain[i].scope == scope);
            } else if r < i {
                assert(chain[r].scope == scope);
            }
        } else {
            let r = first_peer_from(chain, scope, h + 1);
            if r < n {
                assert(chain[r].scope == scope);
            }
            let first = first_peer_from(chain, scope, 0);
            if first > i {
                assert(chain[i].scope == scope);
            } else if first < i {
                assert(chain[first].scope == scope);
            }
        }
    }
}

} // verus!
