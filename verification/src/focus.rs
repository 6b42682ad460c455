//! The mathematical model of the component tree.
//!
//! Every node has a model that holds its state as plain mathematical
//! values, and every request of the navigation protocol is a function from
//! the model before the request to the model after it and the answer. The
//! executable nodes are specified against these functions.

use vstd::prelude::*;
use crate::app::MoveResponse;
use crate::components::SelectState;
use crate::layout::{Axis, ContainerKind};
use crate::select_events::SelectEvent;
use crate::text::lowercase;

verus! {

/// The largest level that the stepper reaches.
pub const MAX_LEVEL: i32 = 20;

/// Where the cursor of a list of `len` values stands after one step
/// forward: behind the last value it wraps to the first.
pub open spec fn cursor_forward(cursor: Option<nat>, len: nat) -> nat {
    match cursor {
        Some(i) => if i + 1 >= len {
            0
        } else {
            i + 1
        },
        None => 0,
    }
}

/// Where the cursor of a list of `len` values stands after one step
/// backward: before the first value it wraps to the last.
pub open spec fn cursor_backward(cursor: Option<nat>, len: nat) -> nat {
    match cursor {
        Some(i) => if i > 0 {
            (i - 1) as nat
        } else if len > 0 {
            (len - 1) as nat
        } else {
            0
        },
        None => 0,
    }
}

/// The cursor after one step in the given direction.
pub open spec fn cursor_step(cursor: Option<nat>, len: nat, forward: bool) -> nat {
    if forward {
        cursor_forward(cursor, len)
    } else {
        cursor_backward(cursor, len)
    }
}

/// What a leaf answers to a motion request: it consumes the motion exactly
/// when it is selected.
pub open spec fn leaf_response(selected: SelectState) -> MoveResponse {
    if selected is Selected {
        MoveResponse::Consumed
    } else {
        MoveResponse::Sibling
    }
}

/// Model of the search bar.
pub struct SearchBarView {
    pub name: Seq<char>,
    pub selected: SelectState,
}

impl SearchBarView {
    /// The bar after a motion request, forward for `next` and backward for
    /// `previous`, and its answer: the bar has nothing to move in.
    pub open spec fn shift(self, axis: Axis, forward: bool) -> (SearchBarView, MoveResponse) {
        (self, leaf_response(self.selected))
    }

    /// The bar after `hover`.
    pub open spec fn hover(self, activate: bool) -> SearchBarView {
        SearchBarView { selected: self.selected.hover(activate), ..self }
    }

    /// The bar after `select`, and its event: activating selects the bar,
    /// deactivating clears it, and neither reports anything.
    pub open spec fn select(self, activate: bool) -> (SearchBarView, SelectEvent) {
        (
            SearchBarView {
                selected: if activate {
                    SelectState::Selected
                } else {
                    SelectState::Idle
                },
                ..self
            },
            SelectEvent::Nothing,
        )
    }
}

/// Model of the level stepper.
pub struct LevelView {
    pub name: Seq<char>,
    pub level: int,
    pub selected: SelectState,
}

impl LevelView {
    /// The level after one step: it stops at 0 and at [`MAX_LEVEL`].
    pub open spec fn stepped(self, forward: bool) -> int {
        if forward {
            if self.level < MAX_LEVEL {
                self.level + 1
            } else {
                self.level
            }
        } else {
            if self.level > 0 {
                self.level - 1
            } else {
                self.level
            }
        }
    }

    /// The stepper stands at "any level": it is at 0, or below.
    pub open spec fn is_any(self) -> bool {
        self.level <= 0
    }

    /// The stepper after a motion request, forward for `next` and backward
    /// for `previous`, and its answer: an open stepper counts on either
    /// axis.
    pub open spec fn shift(self, axis: Axis, forward: bool) -> (LevelView, MoveResponse) {
        if self.selected is Selected {
            (LevelView { level: self.stepped(forward), ..self }, MoveResponse::Consumed)
        } else {
            (self, MoveResponse::Sibling)
        }
    }

    /// The stepper after `hover`.
    pub open spec fn hover(self, activate: bool) -> LevelView {
        LevelView { selected: self.selected.hover(activate), ..self }
    }

    /// The stepper after `select`, and its event: the first activation
    /// opens it, the second confirms the level in a `Number` event and
    /// drops the focus.
    pub open spec fn select(self, activate: bool) -> (LevelView, SelectEvent) {
        if !activate {
            (LevelView { selected: SelectState::Idle, ..self }, SelectEvent::Nothing)
        } else if self.selected is Selected {
            (
                LevelView { selected: SelectState::Idle, ..self },
                SelectEvent::Number { name: self.name, value: self.level },
            )
        } else {
            (LevelView { selected: SelectState::Selected, ..self }, SelectEvent::Nothing)
        }
    }
}

/// Model of a filter list.
pub struct StatefulListView {
    pub cursor: Option<nat>,
    pub items: Seq<Seq<char>>,
    pub name: Seq<char>,
    pub selected: SelectState,
}

impl StatefulListView {
    /// The value under the cursor, where the cursor points at one.
    pub open spec fn chosen(self) -> Option<Seq<char>> {
        match self.cursor {
            Some(i) => if i < self.items.len() {
                Some(self.items[i as int])
            } else {
                None
            },
            None => None,
        }
    }

    /// The list after a motion request, forward for `next` and backward for
    /// `previous`, and its answer: an open list moves its cursor on the
    /// vertical axis and absorbs horizontal motions.
    pub open spec fn shift(self, axis: Axis, forward: bool) -> (StatefulListView, MoveResponse) {
        if self.selected is Selected && axis is Vertical {
            (
                StatefulListView {
                    cursor: Some(cursor_step(self.cursor, self.items.len(), forward)),
                    ..self
                },
                MoveResponse::Consumed,
            )
        } else {
            (self, leaf_response(self.selected))
        }
    }

    /// The list after `hover`.
    pub open spec fn hover(self, activate: bool) -> StatefulListView {
        StatefulListView { selected: self.selected.hover(activate), ..self }
    }

    /// The list after `select`, and its event: the first activation opens
    /// it, the second confirms the value under the cursor, in lower case,
    /// in a `Filter` event, and falls back to highlighted.
    pub open spec fn select(self, activate: bool) -> (StatefulListView, SelectEvent) {
        if !activate {
            (StatefulListView { selected: SelectState::Idle, ..self }, SelectEvent::Nothing)
        } else if self.selected is Selected {
            (
                StatefulListView { selected: SelectState::Highlighted, ..self },
                match self.chosen() {
                    Some(value) => SelectEvent::Filter { name: self.name, value: lowercase(value) },
                    None => SelectEvent::Nothing,
                },
            )
        } else {
            (StatefulListView { selected: SelectState::Selected, ..self }, SelectEvent::Nothing)
        }
    }
}

/// Model of the result list. The records themselves stay with the search
/// controller; the list knows how many there are.
pub struct SearchResultsView {
    pub cursor: Option<nat>,
    pub len: nat,
    pub selected: SelectState,
    pub item_view: bool,
}

impl SearchResultsView {
    /// The index of the record whose card the list shows: the record under
    /// the cursor, once the card view is open and the cursor points at a
    /// record of the result set.
    pub open spec fn card(self) -> Option<nat> {
        match self.cursor {
            Some(i) => if self.item_view && i < self.len {
                Some(i)
            } else {
                None
            },
            None => None,
        }
    }

    /// The list after a motion request, forward for `next` and backward for
    /// `previous`, and its answer: an open list moves its cursor on the
    /// vertical axis and absorbs horizontal motions.
    pub open spec fn shift(self, axis: Axis, forward: bool) -> (SearchResultsView, MoveResponse) {
        if self.selected is Selected && axis is Vertical {
            (
                SearchResultsView {
                    cursor: Some(cursor_step(self.cursor, self.len, forward)),
                    ..self
                },
                MoveResponse::Consumed,
            )
        } else {
            (self, leaf_response(self.selected))
        }
    }

    /// The list after `hover`.
    pub open spec fn hover(self, activate: bool) -> SearchResultsView {
        SearchResultsView { selected: self.selected.hover(activate), ..self }
    }

    /// The list after `select`, and its event: the first activation opens
    /// it, the second switches to the card of the record under the cursor;
    /// deactivating closes the card. Nothing is ever reported.
    pub open spec fn select(self, activate: bool) -> (SearchResultsView, SelectEvent) {
        if !activate {
            (
                SearchResultsView { selected: SelectState::Idle, item_view: false, ..self },
                SelectEvent::Nothing,
            )
        } else if self.selected is Selected {
            (SearchResultsView { item_view: true, ..self }, SelectEvent::Nothing)
        } else {
            (SearchResultsView { selected: SelectState::Selected, ..self }, SelectEvent::Nothing)
        }
    }
}

/// Model of a container: its children in layout order and the index of the
/// child on the focus path.
pub struct ContainerView {
    pub children: Seq<NodeView>,
    pub direction: Axis,
    pub selected: nat,
    pub kind: ContainerKind,
}

/// Model of a node of the tree.
pub enum NodeView {
    SearchBar(SearchBarView),
    Level(LevelView),
    List(StatefulListView),
    Results(SearchResultsView),
    Group(ContainerView),
}

impl NodeView {
    /// Every container of the subtree has a child at its selected index.
    pub open spec fn wf(self) -> bool
        decreases self,
    {
        match self {
            NodeView::Group(c) => c.wf(),
            _ => true,
        }
    }

    /// The node after a motion request, and its answer.
    pub open spec fn shift(self, axis: Axis, forward: bool) -> (NodeView, MoveResponse)
        decreases self,
    {
        match self {
            NodeView::SearchBar(b) => (
                NodeView::SearchBar(b.shift(axis, forward).0),
                b.shift(axis, forward).1,
            ),
            NodeView::Level(l) => (NodeView::Level(l.shift(axis, forward).0), l.shift(axis, forward).1),
            NodeView::List(l) => (NodeView::List(l.shift(axis, forward).0), l.shift(axis, forward).1),
            NodeView::Results(r) => (
                NodeView::Results(r.shift(axis, forward).0),
                r.shift(axis, forward).1,
            ),
            NodeView::Group(c) => (NodeView::Group(c.shift(axis, forward).0), c.shift(axis, forward).1),
        }
    }

    /// The node after `next`, and its answer.
    pub open spec fn next(self, axis: Axis) -> (NodeView, MoveResponse) {
        self.shift(axis, true)
    }

    /// The node after `previous`, and its answer.
    pub open spec fn previous(self, axis: Axis) -> (NodeView, MoveResponse) {
        self.shift(axis, false)
    }

    /// The node after `hover`.
    pub open spec fn hover(self, activate: bool) -> NodeView
        decreases self,
    {
        match self {
            NodeView::SearchBar(b) => NodeView::SearchBar(b.hover(activate)),
            NodeView::Level(l) => NodeView::Level(l.hover(activate)),
            NodeView::List(l) => NodeView::List(l.hover(activate)),
            NodeView::Results(r) => NodeView::Results(r.hover(activate)),
            NodeView::Group(c) => NodeView::Group(c.hover(activate)),
        }
    }

    /// The node after `select`, and the event that bubbles up.
    pub open spec fn select(self, activate: bool) -> (NodeView, SelectEvent)
        decreases self,
    {
        match self {
            NodeView::SearchBar(b) => (NodeView::SearchBar(b.select(activate).0), b.select(activate).1),
            NodeView::Level(l) => (NodeView::Level(l.select(activate).0), l.select(activate).1),
            NodeView::List(l) => (NodeView::List(l.select(activate).0), l.select(activate).1),
            NodeView::Results(r) => (NodeView::Results(r.select(activate).0), r.select(activate).1),
            NodeView::Group(c) => (NodeView::Group(c.select(activate).0), c.select(activate).1),
        }
    }

    /// The node with every result list told that the shared result set
    /// holds `len` records.
    pub open spec fn resized(self, len: nat) -> NodeView
        decreases self,
    {
        match self {
            NodeView::Results(r) => NodeView::Results(SearchResultsView { len, ..r }),
            NodeView::Group(c) => NodeView::Group(c.resized(len)),
            _ => self,
        }
    }

    /// Every result list of the subtree counts `len` records.
    pub open spec fn shows(self, len: nat) -> bool
        decreases self,
    {
        match self {
            NodeView::Results(r) => r.len == len,
            NodeView::Group(c) => c.shows(len),
            _ => true,
        }
    }
}

impl ContainerView {
    /// The container has a child at its selected index, and so has every
    /// container below it.
    pub open spec fn wf(self) -> bool
        decreases self,
    {
        &&& self.selected < self.children.len()
        &&& forall|i: int| 0 <= i < self.children.len() ==> (#[trigger] self.children[i]).wf()
    }

    /// The container with its selected child replaced.
    pub open spec fn with_selected_child(self, child: NodeView) -> ContainerView {
        ContainerView { children: self.children.update(self.selected as int, child), ..self }
    }

    /// The index of the neighbour of the selected child in the given
    /// direction, where there is one.
    pub open spec fn neighbour(self, forward: bool) -> Option<nat> {
        if forward {
            if self.selected + 1 < self.children.len() {
                Some(self.selected + 1)
            } else {
                None
            }
        } else {
            if self.selected > 0 {
                Some((self.selected - 1) as nat)
            } else {
                None
            }
        }
    }

    /// The container after a motion request, and its answer.
    ///
    /// The selected child is asked first. A motion across the container's
    /// own axis is the child's concern alone. Along its axis, the container
    /// takes over where the child answers `Sibling`: it moves the focus to
    /// the neighbour, or passes `Sibling` on where there is none.
    pub open spec fn shift(self, axis: Axis, forward: bool) -> (ContainerView, MoveResponse)
        decreases self,
    {
        if self.selected < self.children.len() {
            let asked = self.children[self.selected as int].shift(axis, forward);
            let kept = self.with_selected_child(asked.0);
            if self.direction != axis || asked.1 is Consumed {
                (kept, asked.1)
            } else {
                match self.neighbour(forward) {
                    Some(to) => (
                        ContainerView {
                            children: kept.children.update(
                                self.selected as int,
                                asked.0.hover(false),
                            ).update(to as int, self.children[to as int].hover(true)),
                            selected: to,
                            ..self
                        },
                        MoveResponse::Consumed,
                    ),
                    None => (kept, MoveResponse::Sibling),
                }
            }
        } else {
            (self, MoveResponse::Sibling)
        }
    }

    /// The container after `next`, and its answer.
    pub open spec fn next(self, axis: Axis) -> (ContainerView, MoveResponse) {
        self.shift(axis, true)
    }

    /// The container after `previous`, and its answer.
    pub open spec fn previous(self, axis: Axis) -> (ContainerView, MoveResponse) {
        self.shift(axis, false)
    }

    /// The container after `hover`, which goes to the selected child.
    pub open spec fn hover(self, activate: bool) -> ContainerView
        decreases self,
    {
        if self.selected < self.children.len() {
            self.with_selected_child(self.children[self.selected as int].hover(activate))
        } else {
            self
        }
    }

    /// The container after `select`, which goes to the selected child, and
    /// the event that the child sends up.
    pub open spec fn select(self, activate: bool) -> (ContainerView, SelectEvent)
        decreases self,
    {
        if self.selected < self.children.len() {
            let asked = self.children[self.selected as int].select(activate);
            (self.with_selected_child(asked.0), asked.1)
        } else {
            (self, SelectEvent::Nothing)
        }
    }

    /// The container with every result list below it told that the shared
    /// result set holds `len` records.
    pub open spec fn resized(self, len: nat) -> ContainerView
        decreases self,
    {
        ContainerView {
            children: Seq::new(
                self.children.len(),
                |i: int|
                    if 0 <= i < self.children.len() {
                        self.children[i].resized(len)
                    } else {
                        arbitrary()
                    },
            ),
            ..self
        }
    }

    /// Every result list below the container counts `len` records.
    pub open spec fn shows(self, len: nat) -> bool
        decreases self,
    {
        forall|i: int| 0 <= i < self.children.len() ==> (#[trigger] self.children[i]).shows(len)
    }
}

/// A request of the navigation protocol.
pub enum Request {
    Next(Axis),
    Previous(Axis),
    Hover(bool),
    Select(bool),
}

impl NodeView {
    /// The focus state of a leaf.
    pub open spec fn leaf_state(self) -> Option<SelectState> {
        match self {
            NodeView::SearchBar(b) => Some(b.selected),
            NodeView::Level(l) => Some(l.selected),
            NodeView::List(l) => Some(l.selected),
            NodeView::Results(r) => Some(r.selected),
            NodeView::Group(_) => None,
        }
    }

    /// No leaf of the subtree is highlighted or selected.
    pub open spec fn idle(self) -> bool
        decreases self,
    {
        match self {
            NodeView::Group(c) => c.idle(),
            _ => self.leaf_state() == Some(SelectState::Idle),
        }
    }

    /// The node holds the focus: it is a highlighted or selected leaf, or a
    /// container in which exactly the selected child holds the focus while
    /// every other child is idle.
    pub open spec fn focused(self) -> bool
        decreases self,
    {
        match self {
            NodeView::Group(c) => c.focused(),
            _ => self.leaf_state() != Some(SelectState::Idle),
        }
    }

    /// Nothing beside the focus path holds the focus: in every container on
    /// the path, each child other than the selected one is idle.
    pub open spec fn settled(self) -> bool
        decreases self,
    {
        match self {
            NodeView::Group(c) => c.settled(),
            _ => true,
        }
    }

    /// The focus path ends in a level stepper that is open, so that
    /// activating it confirms the level and drops the focus.
    pub open spec fn confirms_level(self) -> bool
        decreases self,
    {
        match self {
            NodeView::Level(l) => l.selected is Selected,
            NodeView::Group(c) => c.selected < c.children.len() && c.children[c.selected as int].confirms_level(),
            _ => false,
        }
    }

    /// The node after a request.
    pub open spec fn request(self, request: Request) -> NodeView {
        match request {
            Request::Next(axis) => self.next(axis).0,
            Request::Previous(axis) => self.previous(axis).0,
            Request::Hover(activate) => self.hover(activate),
            Request::Select(activate) => self.select(activate).0,
        }
    }

    /// The node after a sequence of requests.
    pub open spec fn run(self, requests: Seq<Request>) -> NodeView
        decreases requests.len(),
    {
        if requests.len() == 0 {
            self
        } else {
            self.run(requests.drop_last()).request(requests.last())
        }
    }

    /// The request takes the focus away from the tree: it removes the
    /// highlight, deactivates, or confirms the level of an open stepper.
    pub open spec fn releases(self, request: Request) -> bool {
        match request {
            Request::Hover(activate) => !activate,
            Request::Select(activate) => !activate || self.confirms_level(),
            _ => false,
        }
    }

    /// No request of the sequence takes the focus away from the tree that
    /// it meets.
    pub open spec fn holds_focus(self, requests: Seq<Request>) -> bool {
        forall|k: int|
            0 <= k < requests.len() ==> !self.run(#[trigger] requests.take(k)).releases(
                requests[k],
            )
    }
}

impl ContainerView {
    /// No leaf below the container is highlighted or selected.
    pub open spec fn idle(self) -> bool
        decreases self,
    {
        forall|i: int| 0 <= i < self.children.len() ==> (#[trigger] self.children[i]).idle()
    }

    /// Every child other than the selected one is idle.
    pub open spec fn siblings_idle(self) -> bool
        decreases self,
    {
        forall|i: int|
            0 <= i < self.children.len() && i != self.selected ==> (#[trigger] self.children[i]).idle()
    }

    /// Exactly the selected child holds the focus.
    pub open spec fn focused(self) -> bool
        decreases self,
    {
        &&& self.selected < self.children.len()
        &&& self.children[self.selected as int].focused()
        &&& self.siblings_idle()
    }

    /// At most the selected child holds the focus.
    pub open spec fn settled(self) -> bool
        decreases self,
    {
        &&& self.selected < self.children.len()
        &&& self.children[self.selected as int].settled()
        &&& self.siblings_idle()
    }
}

/// The cursor of a list of `len` values after `times` steps.
pub open spec fn cursor_walk(cursor: Option<nat>, len: nat, forward: bool, times: nat) -> Option<
    nat,
>
    decreases times,
{
    if times == 0 {
        cursor
    } else {
        Some(cursor_step(cursor_walk(cursor, len, forward, (times - 1) as nat), len, forward))
    }
}

impl StatefulListView {
    /// The list after `times` motion requests.
    pub open spec fn shift_times(self, axis: Axis, forward: bool, times: nat) -> StatefulListView
        decreases times,
    {
        if times == 0 {
            self
        } else {
            self.shift_times(axis, forward, (times - 1) as nat).shift(axis, forward).0
        }
    }
}

impl SearchResultsView {
    /// The list after `times` motion requests.
    pub open spec fn shift_times(self, axis: Axis, forward: bool, times: nat) -> SearchResultsView
        decreases times,
    {
        if times == 0 {
            self
        } else {
            self.shift_times(axis, forward, (times - 1) as nat).shift(axis, forward).0
        }
    }
}

impl LevelView {
    /// The stepper after `times` motion requests.
    pub open spec fn shift_times(self, axis: Axis, forward: bool, times: nat) -> LevelView
        decreases times,
    {
        if times == 0 {
            self
        } else {
            self.shift_times(axis, forward, (times - 1) as nat).shift(axis, forward).0
        }
    }
}

} // verus!
