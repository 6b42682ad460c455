//! The focusable nodes of the component tree.
//!
//! Four kinds of leaf (the search bar, a filter list, the level stepper and
//! the result list) and the container that owns an ordered row or column of
//! nodes. Every node answers the same four requests: `next` and `previous`
//! move the focus, `hover` lays the highlight on the focus path or takes it
//! away, and `select` opens, confirms or closes the leaf at its end.

use vstd::prelude::*;
use crate::app::MoveResponse;
use crate::focus::{
    ContainerView, LevelView, NodeView, SearchBarView, SearchResultsView, StatefulListView,
    MAX_LEVEL,
};
use crate::layout::{Axis, ContainerLayout};
use crate::spell_search::{Filters, SearchMain};
use crate::select_events::SelectResponse;
use crate::text::to_lowercase;

verus! {

/// The focus state of a leaf.
#[derive(Clone, Copy, Debug, PartialEq, Eq, Structural)]
pub enum SelectState {
    /// The focus rests on the leaf.
    Highlighted,
    /// The leaf is open: motions go to its own cursor or counter.
    Selected,
    /// The leaf is off the focus path.
    Idle,
}

impl SelectState {
    /// The state after `hover`: a highlight never closes an open leaf, and
    /// taking the highlight away clears the state.
    pub open spec fn hover(self, activate: bool) -> SelectState {
        if !activate {
            SelectState::Idle
        } else if self is Selected {
            SelectState::Selected
        } else {
            SelectState::Highlighted
        }
    }

    /// The state after `hover`.
    pub fn hovered(self, activate: bool) -> (state: SelectState)
        ensures
            state == self.hover(activate),
    {
        if !activate {
            SelectState::Idle
        } else {
            match self {
                SelectState::Selected => SelectState::Selected,
                _ => SelectState::Highlighted,
            }
        }
    }
}

/// The state of a list widget: the index of the entry under the cursor,
/// once the cursor has been set.
#[derive(Clone, Copy, Debug, PartialEq, Eq)]
pub struct ListState {
    selected: Option<usize>,
}

impl View for ListState {
    type V = Option<usize>;

    closed spec fn view(&self) -> Option<usize> {
        self.selected
    }
}

impl Default for ListState {
    /// A list state without a cursor.
    fn default() -> (state: ListState)
        ensures
            state@ is None,
    {
        ListState { selected: None }
    }
}

impl ListState {
    /// The index under the cursor.
    pub fn selected(&self) -> (index: Option<usize>)
        ensures
            index == self@,
    {
        self.selected
    }

    /// Sets the cursor, or clears it.
    pub fn select(&mut self, index: Option<usize>)
        ensures
            final(self)@ == index,
    {
        self.selected = index;
    }
}

/// The model of a cursor that may not have been set yet.
pub open spec fn cursor_model(cursor: Option<usize>) -> Option<nat> {
    match cursor {
        Some(i) => Some(i as nat),
        None => None,
    }
}

/// A container: an ordered row or column of nodes, one of which is on the
/// focus path.
pub struct Container<'a, C: ContainerLayout> {
    pub children: Vec<Node<'a>>,
    pub direction: Axis,
    pub selected: usize,
    pub marker: C,
}

/// A node of the component tree.
pub enum Node<'a> {
    SearchBar(SearchBar<'a>),
    Level(Level<'a>),
    List(StatefulList<'a>),
    Results(SearchResults),
    Main(Container<'a, SearchMain>),
    Filters(Container<'a, Filters>),
}

/// A filter list: a named list of values with a cursor.
pub struct StatefulList<'a> {
    pub state: ListState,
    pub items: Vec<String>,
    pub name: &'a str,
    pub selected: SelectState,
}

/// The result list. The records are owned by the search controller; the
/// list keeps their number, its cursor, and whether it shows the list or
/// the card of the record under the cursor.
pub struct SearchResults {
    pub state: ListState,
    pub len: usize,
    pub selected: SelectState,
    pub item_view: bool,
}

/// The search bar. The text it shows is the search controller's buffer.
pub struct SearchBar<'a> {
    pub name: &'a str,
    pub selected: SelectState,
}

/// The level stepper: a counter between 0, which stands for any level, and
/// 20.
pub struct Level<'a> {
    pub name: &'a str,
    pub level: i32,
    pub selected: SelectState,
}

impl<'a> View for StatefulList<'a> {
    type V = StatefulListView;

    open spec fn view(&self) -> StatefulListView {
        StatefulListView {
            cursor: cursor_model(self.state@),
            items: self.items.deep_view(),
            name: self.name@,
            selected: self.selected,
        }
    }
}

impl View for SearchResults {
    type V = SearchResultsView;

    open spec fn view(&self) -> SearchResultsView {
        SearchResultsView {
            cursor: cursor_model(self.state@),
            len: self.len as nat,
            selected: self.selected,
            item_view: self.item_view,
        }
    }
}

impl<'a> View for SearchBar<'a> {
    type V = SearchBarView;

    open spec fn view(&self) -> SearchBarView {
        SearchBarView { name: self.name@, selected: self.selected }
    }
}

impl<'a> View for Level<'a> {
    type V = LevelView;

    open spec fn view(&self) -> LevelView {
        LevelView { name: self.name@, level: self.level as int, selected: self.selected }
    }
}

impl<'a> Node<'a> {
    /// The model of the node.
    pub open spec fn model(&self) -> NodeView
        decreases self,
    {
        match self {
            Node::SearchBar(bar) => NodeView::SearchBar(bar@),
            Node::Level(level) => NodeView::Level(level@),
            Node::List(list) => NodeView::List(list@),
            Node::Results(results) => NodeView::Results(results@),
            Node::Main(container) => NodeView::Group(container.model()),
            Node::Filters(container) => NodeView::Group(container.model()),
        }
    }
}

impl<'a, C: ContainerLayout> Container<'a, C> {
    /// The model of the container.
    pub open spec fn model(&self) -> ContainerView
        decreases self,
    {
        ContainerView {
            children: Seq::new(
                self.children.len() as nat,
                |i: int|
                    if 0 <= i < self.children.len() {
                        self.children[i].model()
                    } else {
                        arbitrary()
                    },
            ),
            direction: self.direction,
            selected: self.selected as nat,
            kind: C::kind(),
        }
    }
}

impl<'a> View for Node<'a> {
    type V = NodeView;

    open spec fn view(&self) -> NodeView {
        self.model()
    }
}

impl<'a, C: ContainerLayout> View for Container<'a, C> {
    type V = ContainerView;

    open spec fn view(&self) -> ContainerView {
        self.model()
    }
}

impl<'a, C: ContainerLayout> Container<'a, C> {
    /// A container of the given children, with the first of them selected.
    pub fn with_items(items: Vec<Node<'a>>, direction: Axis) -> (container: Container<'a, C>)
        ensures
            container.children == items,
            container.direction == direction,
            container.selected == 0,
    {
        Container { children: items, direction, selected: 0, marker: C::default() }
    }

    /// Whether the container, and every container below it, has a child at
    /// its selected index.
    pub fn is_valid(&self) -> (valid: bool)
        ensures
            valid == self@.wf(),
        decreases self,
    {
        if self.selected >= self.children.len() {
            return false;
        }
        let mut i: usize = 0;
        while i < self.children.len()
            invariant
                i <= self.children.len(),
                forall|j: int| 0 <= j < i ==> (#[trigger] self@.children[j]).wf(),
            decreases self.children.len() - i,
        {
            if !self.children[i].is_valid() {
                assert(!self@.children[i as int].wf());
                return false;
            }
            i += 1;
        }
        true
    }

    /// Moves the focus one step forward along `direction`.
    ///
    /// The selected child is asked first. Across the container's own axis
    /// its answer is passed on as it is. Along it, where the child answers
    /// `Sibling` and a following child exists, the highlight moves from the
    /// selected child to that one; behind the last child the answer is
    /// `Sibling`.
    pub fn next(&mut self, direction: Axis) -> (response: MoveResponse)
        requires
            old(self)@.wf(),
        ensures
            final(self)@ == old(self)@.next(direction).0,
            response == old(self)@.next(direction).1,
            final(self)@.wf(),
        decreases *old(self),
    {
        let ghost before = self@;
        let asked = self.children[self.selected].next(direction);
        let ghost kept = self@;
        assert(kept.children =~= before.with_selected_child(
            before.children[self.selected as int].next(direction).0,
        ).children);
        if self.direction != direction {
            return asked;
        }
        match asked {
            MoveResponse::Sibling => {
                if self.selected < self.children.len() - 1 {
                    self.children[self.selected].hover(false);
                    self.selected += 1;
                    self.children[self.selected].hover(true);
                    assert(self@.children =~= before.next(direction).0.children);
                    MoveResponse::Consumed
                } else {
                    MoveResponse::Sibling
                }
            },
            MoveResponse::Consumed => MoveResponse::Consumed,
        }
    }

    /// Moves the focus one step backward along `direction`: as
    /// [`Container::next`], towards the first child.
    pub fn previous(&mut self, direction: Axis) -> (response: MoveResponse)
        requires
            old(self)@.wf(),
        ensures
            final(self)@ == old(self)@.previous(direction).0,
            response == old(self)@.previous(direction).1,
            final(self)@.wf(),
        decreases *old(self),
    {
        let ghost before = self@;
        let asked = self.children[self.selected].previous(direction);
        let ghost kept = self@;
        assert(kept.children =~= before.with_selected_child(
            before.children[self.selected as int].previous(direction).0,
        ).children);
        if self.direction != direction {
            return asked;
        }
        match asked {
            MoveResponse::Sibling => {
                if self.selected > 0 {
                    self.children[self.selected].hover(false);
                    self.selected -= 1;
                    self.children[self.selected].hover(true);
                    assert(self@.children =~= before.previous(direction).0.children);
                    MoveResponse::Consumed
                } else {
                    MoveResponse::Sibling
                }
            },
            MoveResponse::Consumed => MoveResponse::Consumed,
        }
    }

    /// Lays the highlight on the selected child, or takes it away.
    pub fn hover(&mut self, activate: bool)
        requires
            old(self)@.wf(),
        ensures
            final(self)@ == old(self)@.hover(activate),
            final(self)@.wf(),
        decreases *old(self),
    {
        let ghost before = self@;
        self.children[self.selected].hover(activate);
        assert(self@.children =~= before.hover(activate).children);
    }

    /// Activates or deactivates the selected child and passes its event on.
    pub fn select(&mut self, activate: bool) -> (response: SelectResponse)
        requires
            old(self)@.wf(),
        ensures
            final(self)@ == old(self)@.select(activate).0,
            response@ == old(self)@.select(activate).1,
            final(self)@.wf(),
        decreases *old(self),
    {
        let ghost before = self@;
        let response = self.children[self.selected].select(activate);
        assert(self@.children =~= before.select(activate).0.children);
        response
    }

    /// Tells every result list below the container that the shared result
    /// set now holds `len` records.
    pub fn resize(&mut self, len: usize)
        ensures
            final(self)@ == old(self)@.resized(len as nat),
        decreases *old(self),
    {
        let ghost before = self@;
        let ghost at_entry = self.children@;
        let mut i: usize = 0;
        while i < self.children.len()
            invariant
                i <= self.children.len(),
                at_entry == old(self).children@,
                self.children@.len() == at_entry.len(),
                self.direction == old(self).direction,
                self.selected == old(self).selected,
                forall|j: int|
                    0 <= j < i ==> (#[trigger] self.children@[j]).model()
                        == at_entry[j].model().resized(len as nat),
                forall|j: int| i <= j < at_entry.len() ==> #[trigger] self.children@[j] == at_entry[j],
            decreases self.children.len() - i,
        {
            self.children[i].resize(len);
            i += 1;
        }
        assert(self@.children =~= before.resized(len as nat).children);
    }
}

impl<'a> Node<'a> {
    /// Whether every container of the subtree has a child at its selected
    /// index.
    pub fn is_valid(&self) -> (valid: bool)
        ensures
            valid == self@.wf(),
        decreases self,
    {
        match self {
            Node::Main(container) => container.is_valid(),
            Node::Filters(container) => container.is_valid(),
            _ => true,
        }
    }

    /// Moves the focus one step forward along `direction`.
    pub fn next(&mut self, direction: Axis) -> (response: MoveResponse)
        requires
            old(self)@.wf(),
        ensures
            final(self)@ == old(self)@.next(direction).0,
            response == old(self)@.next(direction).1,
            final(self)@.wf(),
        decreases *old(self),
    {
        match self {
            Node::SearchBar(bar) => bar.next(direction),
            Node::Level(level) => level.next(direction),
            Node::List(list) => list.next(direction),
            Node::Results(results) => results.next(direction),
            Node::Main(container) => container.next(direction),
            Node::Filters(container) => container.next(direction),
        }
    }

    /// Moves the focus one step backward along `direction`.
    pub fn previous(&mut self, direction: Axis) -> (response: MoveResponse)
        requires
            old(self)@.wf(),
        ensures
            final(self)@ == old(self)@.previous(direction).0,
            response == old(self)@.previous(direction).1,
            final(self)@.wf(),
        decreases *old(self),
    {
        match self {
            Node::SearchBar(bar) => bar.previous(direction),
            Node::Level(level) => level.previous(direction),
            Node::List(list) => list.previous(direction),
            Node::Results(results) => results.previous(direction),
            Node::Main(container) => container.previous(direction),
            Node::Filters(container) => container.previous(direction),
        }
    }

    /// Lays the highlight on the focus path below the node, or takes it
    /// away.
    pub fn hover(&mut self, activate: bool)
        requires
            old(self)@.wf(),
        ensures
            final(self)@ == old(self)@.hover(activate),
            final(self)@.wf(),
        decreases *old(self),
    {
        match self {
            Node::SearchBar(bar) => bar.hover(activate),
            Node::Level(level) => level.hover(activate),
            Node::List(list) => list.hover(activate),
            Node::Results(results) => results.hover(activate),
            Node::Main(container) => container.hover(activate),
            Node::Filters(container) => container.hover(activate),
        }
    }

    /// Activates or deactivates the leaf at the end of the focus path and
    /// returns its event.
    pub fn select(&mut self, activate: bool) -> (response: SelectResponse)
        requires
            old(self)@.wf(),
        ensures
            final(self)@ == old(self)@.select(activate).0,
            response@ == old(self)@.select(activate).1,
            final(self)@.wf(),
        decreases *old(self),
    {
        match self {
            Node::SearchBar(bar) => bar.select(activate),
            Node::Level(level) => level.select(activate),
            Node::List(list) => list.select(activate),
            Node::Results(results) => results.select(activate),
            Node::Main(container) => container.select(activate),
            Node::Filters(container) => container.select(activate),
        }
    }

    /// Tells every result list of the subtree that the shared result set now
    /// holds `len` records.
    pub fn resize(&mut self, len: usize)
        ensures
            final(self)@ == old(self)@.resized(len as nat),
        decreases *old(self),
    {
        match self {
            Node::Results(results) => results.resize(len),
            Node::Main(container) => container.resize(len),
            Node::Filters(container) => container.resize(len),
            _ => {},
        }
    }
}

impl<'a, C: ContainerLayout> Container<'a, C> {
    /// Whether every result list below the container counts `len` records.
    pub fn counts(&self, len: usize) -> (agrees: bool)
        ensures
            agrees == self@.shows(len as nat),
        decreases self,
    {
        let mut i: usize = 0;
        while i < self.children.len()
            invariant
                i <= self.children.len(),
                forall|j: int| 0 <= j < i ==> (#[trigger] self@.children[j]).shows(len as nat),
            decreases self.children.len() - i,
        {
            if !self.children[i].counts(len) {
                assert(!self@.children[i as int].shows(len as nat));
                return false;
            }
            i += 1;
        }
        true
    }
}

impl<'a> Node<'a> {
    /// Whether every result list of the subtree counts `len` records.
    pub fn counts(&self, len: usize) -> (agrees: bool)
        ensures
            agrees == self@.shows(len as nat),
        decreases self,
    {
        match self {
            Node::Results(results) => results.len == len,
            Node::Main(container) => container.counts(len),
            Node::Filters(container) => container.counts(len),
            _ => true,
        }
    }
}

impl<'a, C: ContainerLayout> Container<'a, C> {
    /// Whether no leaf below the container is highlighted or selected.
    pub fn is_idle(&self) -> (idle: bool)
        ensures
            idle == self@.idle(),
        decreases self,
    {
        let mut i: usize = 0;
        while i < self.children.len()
            invariant
                i <= self.children.len(),
                forall|j: int| 0 <= j < i ==> (#[trigger] self@.children[j]).idle(),
            decreases self.children.len() - i,
        {
            if !self.children[i].is_idle() {
                assert(!self@.children[i as int].idle());
                return false;
            }
            i += 1;
        }
        true
    }

    /// Whether at most the selected child holds the focus: every other
    /// child is idle, and so on down the focus path.
    pub fn is_settled(&self) -> (settled: bool)
        ensures
            settled == self@.settled(),
        decreases self,
    {
        if self.selected >= self.children.len() {
            return false;
        }
        let mut i: usize = 0;
        while i < self.children.len()
            invariant
                i <= self.children.len(),
                self.selected < self.children.len(),
                forall|j: int|
                    0 <= j < i && j != self.selected ==> (#[trigger] self@.children[j]).idle(),
                self.selected < i ==> self@.children[self.selected as int].settled(),
            decreases self.children.len() - i,
        {
            if i == self.selected {
                if !self.children[i].is_settled() {
                    return false;
                }
            } else if !self.children[i].is_idle() {
                assert(!self@.children[i as int].idle());
                return false;
            }
            i += 1;
        }
        true
    }
}

impl<'a> Node<'a> {
    /// Whether no leaf of the subtree is highlighted or selected.
    pub fn is_idle(&self) -> (idle: bool)
        ensures
            idle == self@.idle(),
        decreases self,
    {
        match self {
            Node::SearchBar(bar) => bar.selected == SelectState::Idle,
            Node::Level(level) => level.selected == SelectState::Idle,
            Node::List(list) => list.selected == SelectState::Idle,
            Node::Results(results) => results.selected == SelectState::Idle,
            Node::Main(container) => container.is_idle(),
            Node::Filters(container) => container.is_idle(),
        }
    }

    /// Whether nothing beside the focus path through the node holds the
    /// focus.
    pub fn is_settled(&self) -> (settled: bool)
        ensures
            settled == self@.settled(),
        decreases self,
    {
        match self {
            Node::Main(container) => container.is_settled(),
            Node::Filters(container) => container.is_settled(),
            _ => true,
        }
    }
}

impl<'a> StatefulList<'a> {
    /// A list of the given values, with no cursor yet.
    pub fn with_items(items: Vec<String>, name: &'a str) -> (list: StatefulList<'a>)
        ensures
            list@ == (StatefulListView {
                cursor: None,
                items: items.deep_view(),
                name: name@,
                selected: SelectState::Idle,
            }),
    {
        StatefulList { state: ListState::default(), items, name, selected: SelectState::Idle }
    }

    /// While the list is open, moves the cursor to the following value,
    /// from the last one to the first.
    pub fn next(&mut self, direction: Axis) -> (response: MoveResponse)
        ensures
            final(self)@ == old(self)@.shift(direction, true).0,
            response == old(self)@.shift(direction, true).1,
    {
        match self.selected {
            SelectState::Selected => {
                match direction {
                    Axis::Horizontal => MoveResponse::Consumed,
                    Axis::Vertical => {
                        let i = match self.state.selected() {
                            Some(i) => {
                                if self.items.len() == 0 || i >= self.items.len() - 1 {
                                    0
                                } else {
                                    i + 1
                                }
                            },
                            None => 0,
                        };
                        self.state.select(Some(i));
                        MoveResponse::Consumed
                    },
                }
            },
            _ => MoveResponse::Sibling,
        }
    }

    /// While the list is open, moves the cursor to the preceding value,
    /// from the first one to the last.
    pub fn previous(&mut self, direction: Axis) -> (response: MoveResponse)
        ensures
            final(self)@ == old(self)@.shift(direction, false).0,
            response == old(self)@.shift(direction, false).1,
    {
        match self.selected {
            SelectState::Selected => {
                match direction {
                    Axis::Horizontal => MoveResponse::Consumed,
                    Axis::Vertical => {
                        let i = match self.state.selected() {
                            Some(i) => {
                                if i > 0 {
                                    i - 1
                                } else if self.items.len() > 0 {
                                    self.items.len() - 1
                                } else {
                                    0
                                }
                            },
                            None => 0,
                        };
                        self.state.select(Some(i));
                        MoveResponse::Consumed
                    },
                }
            },
            _ => MoveResponse::Sibling,
        }
    }

    /// Lays the highlight on the list, or takes it away.
    pub fn hover(&mut self, activate: bool)
        ensures
            final(self)@ == old(self)@.hover(activate),
    {
        self.selected = self.selected.hovered(activate);
    }

    /// Opens the list, or, where it is open, confirms the value under the
    /// cursor: the list falls back to highlighted and the value comes back
    /// in lower case in a `Filter` event under the list's name.
    /// Deactivating clears the focus state.
    pub fn select(&mut self, activate: bool) -> (response: SelectResponse)
        ensures
            final(self)@ == old(self)@.select(activate).0,
            response@ == old(self)@.select(activate).1,
    {
        if activate {
            match self.selected {
                SelectState::Selected => {
                    self.selected = SelectState::Highlighted;
                    match self.state.selected() {
                        Some(i) => {
                            if i < self.items.len() {
                                SelectResponse::Filter {
                                    name: self.name.to_owned(),
                                    value: to_lowercase(self.items[i].as_str()),
                                }
                            } else {
                                SelectResponse::Nothing
                            }
                        },
                        None => SelectResponse::Nothing,
                    }
                },
                _ => {
                    self.selected = SelectState::Selected;
                    SelectResponse::Nothing
                },
            }
        } else {
            self.selected = SelectState::Idle;
            SelectResponse::Nothing
        }
    }
}

impl SearchResults {
    /// A result list over a result set of `len` records.
    pub fn new(len: usize) -> (results: SearchResults)
        ensures
            results@ == (SearchResultsView {
                cursor: None,
                len: len as nat,
                selected: SelectState::Idle,
                item_view: false,
            }),
    {
        SearchResults {
            state: ListState::default(),
            len,
            selected: SelectState::Idle,
            item_view: false,
        }
    }

    /// While the list is open, moves the cursor to the following record,
    /// from the last one to the first.
    pub fn next(&mut self, direction: Axis) -> (response: MoveResponse)
        ensures
            final(self)@ == old(self)@.shift(direction, true).0,
            response == old(self)@.shift(direction, true).1,
    {
        match self.selected {
            SelectState::Selected => {
                match direction {
                    Axis::Horizontal => MoveResponse::Consumed,
                    Axis::Vertical => {
                        let i = match self.state.selected() {
                            Some(i) => {
                                if self.len == 0 || i >= self.len - 1 {
                                    0
                                } else {
                                    i + 1
                                }
                            },
                            None => 0,
                        };
                        self.state.select(Some(i));
                        MoveResponse::Consumed
                    },
                }
            },
            _ => MoveResponse::Sibling,
        }
    }

    /// While the list is open, moves the cursor to the preceding record,
    /// from the first one to the last.
    pub fn previous(&mut self, direction: Axis) -> (response: MoveResponse)
        ensures
            final(self)@ == old(self)@.shift(direction, false).0,
            response == old(self)@.shift(direction, false).1,
    {
        match self.selected {
            SelectState::Selected => {
                match direction {
                    Axis::Horizontal => MoveResponse::Consumed,
                    Axis::Vertical => {
                        let i = match self.state.selected() {
                            Some(i) => {
                                if i > 0 {
                                    i - 1
                                } else if self.len > 0 {
                                    self.len - 1
                                } else {
                                    0
                                }
                            },
                            None => 0,
                        };
                        self.state.select(Some(i));
                        MoveResponse::Consumed
                    },
                }
            },
            _ => MoveResponse::Sibling,
        }
    }

    /// Lays the highlight on the list, or takes it away.
    pub fn hover(&mut self, activate: bool)
        ensures
            final(self)@ == old(self)@.hover(activate),
    {
        self.selected = self.selected.hovered(activate);
    }

    /// Opens the list, or, where it is open, switches to the card of the
    /// record under the cursor. Deactivating closes the card and clears the
    /// focus state. No event is emitted.
    pub fn select(&mut self, activate: bool) -> (response: SelectResponse)
        ensures
            final(self)@ == old(self)@.select(activate).0,
            response@ == old(self)@.select(activate).1,
    {
        if activate {
            match self.selected {
                SelectState::Selected => {
                    self.item_view = true;
                },
                _ => {
                    self.selected = SelectState::Selected;
                },
            }
        } else {
            self.item_view = false;
            self.selected = SelectState::Idle;
        }
        SelectResponse::Nothing
    }

    /// The index of the record whose card is to be shown, if any: the
    /// record under the cursor, once the card view is open and the cursor
    /// points at a record of the result set.
    pub fn card(&self) -> (index: Option<usize>)
        ensures
            cursor_model(index) == self@.card(),
    {
        match self.state.selected() {
            Some(i) => {
                if self.item_view && i < self.len {
                    Some(i)
                } else {
                    None
                }
            },
            None => None,
        }
    }

    /// Records that the shared result set now holds `len` records.
    pub fn resize(&mut self, len: usize)
        ensures
            final(self)@ == (SearchResultsView { len: len as nat, ..old(self)@ }),
    {
        self.len = len;
    }
}

impl<'a> SearchBar<'a> {
    /// An idle search bar.
    pub fn new(name: &'a str) -> (bar: SearchBar<'a>)
        ensures
            bar@ == (SearchBarView { name: name@, selected: SelectState::Idle }),
    {
        SearchBar { name, selected: SelectState::Idle }
    }

    /// The bar has nothing to move in: it consumes the motion while it is
    /// selected and hands it to its parent otherwise.
    pub fn next(&mut self, direction: Axis) -> (response: MoveResponse)
        ensures
            final(self)@ == old(self)@.shift(direction, true).0,
            response == old(self)@.shift(direction, true).1,
    {
        match self.selected {
            SelectState::Selected => MoveResponse::Consumed,
            _ => MoveResponse::Sibling,
        }
    }

    /// As [`SearchBar::next`].
    pub fn previous(&mut self, direction: Axis) -> (response: MoveResponse)
        ensures
            final(self)@ == old(self)@.shift(direction, false).0,
            response == old(self)@.shift(direction, false).1,
    {
        match self.selected {
            SelectState::Selected => MoveResponse::Consumed,
            _ => MoveResponse::Sibling,
        }
    }

    /// Lays the highlight on the bar, or takes it away.
    pub fn hover(&mut self, activate: bool)
        ensures
            final(self)@ == old(self)@.hover(activate),
    {
        self.selected = self.selected.hovered(activate);
    }

    /// Selects the bar, or clears its focus state. No event is emitted: the
    /// text is submitted through the text entry channel.
    pub fn select(&mut self, activate: bool) -> (response: SelectResponse)
        ensures
            final(self)@ == old(self)@.select(activate).0,
            response@ == old(self)@.select(activate).1,
    {
        if activate {
            self.selected = SelectState::Selected;
        } else {
            self.selected = SelectState::Idle;
        }
        SelectResponse::Nothing
    }
}

impl<'a> Level<'a> {
    /// An idle stepper at level 0.
    pub fn new(name: &'a str) -> (level: Level<'a>)
        ensures
            level@ == (LevelView { name: name@, level: 0, selected: SelectState::Idle }),
    {
        Level { name, level: 0, selected: SelectState::Idle }
    }

    /// Whether the stepper stands at "any level", the setting that imposes
    /// no condition on the level of a spell.
    pub fn is_any(&self) -> (any: bool)
        ensures
            any == self@.is_any(),
    {
        self.level <= 0
    }

    /// While the stepper is open, raises the level by one, up to 20.
    pub fn next(&mut self, direction: Axis) -> (response: MoveResponse)
        ensures
            final(self)@ == old(self)@.shift(direction, true).0,
            response == old(self)@.shift(direction, true).1,
    {
        match self.selected {
            SelectState::Selected => {
                if self.level < MAX_LEVEL {
                    self.level += 1;
                }
                MoveResponse::Consumed
            },
            _ => MoveResponse::Sibling,
        }
    }

    /// While the stepper is open, lowers the level by one, down to 0.
    pub fn previous(&mut self, direction: Axis) -> (response: MoveResponse)
        ensures
            final(self)@ == old(self)@.shift(direction, false).0,
            response == old(self)@.shift(direction, false).1,
    {
        match self.selected {
            SelectState::Selected => {
                if self.level > 0 {
                    self.level -= 1;
                }
                MoveResponse::Consumed
            },
            _ => MoveResponse::Sibling,
        }
    }

    /// Lays the highlight on the stepper, or takes it away.
    pub fn hover(&mut self, activate: bool)
        ensures
            final(self)@ == old(self)@.hover(activate),
    {
        self.selected = self.selected.hovered(activate);
    }

    /// Opens the stepper, or, where it is open, confirms the level: the
    /// stepper drops out of focus and the level comes back in a `Number`
    /// event under the stepper's name. Deactivating clears the focus state.
    pub fn select(&mut self, activate: bool) -> (response: SelectResponse)
        ensures
            final(self)@ == old(self)@.select(activate).0,
            response@ == old(self)@.select(activate).1,
    {
        if activate {
            match self.selected {
                SelectState::Selected => {
                    self.selected = SelectState::Idle;
                    SelectResponse::Number { name: self.name.to_owned(), value: self.level }
                },
                _ => {
                    self.selected = SelectState::Selected;
                    SelectResponse::Nothing
                },
            }
        } else {
            self.selected = SelectState::Idle;
            SelectResponse::Nothing
        }
    }
}

} // verus!
