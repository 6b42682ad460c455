//! The search controller: the root of the component tree, the accumulated
//! search criteria, and the store query that they compose.
//!
//! The controller never talks to the document store. Whenever a key changes
//! the criteria it hands back the query to run; the caller runs it and gives
//! the records to [`SpellSearch::set_results`].

use vstd::prelude::*;
use crate::app::MoveResponse;
use crate::components::{
    Container, Level, Node, SearchBar, SearchResults, SelectState, StatefulList,
};
use crate::events::Key;
use crate::focus::{
    ContainerView, LevelView, NodeView, SearchBarView, SearchResultsView, StatefulListView,
};
use crate::input_buffer::{InputBuffer, InputBufferView};
use crate::laws::{
    law_hover, law_select, law_shift, lemma_deselect_is_silent, lemma_hover_keeps, lemma_resized,
    lemma_resized_keeps_focus, lemma_select_keeps, lemma_settled, lemma_shift_keeps,
};
use crate::layout::{Axis, ContainerKind};
use crate::select_events::{SelectEvent, SelectResponse};
use crate::text::same_text;

pub mod ui;

pub use crate::spell_search::ui::{Filters, SearchMain, SpellSearchUi};

verus! {

/// The accumulated search criteria. A criterion that is not set imposes no
/// constraint.
pub struct SpellQuery {
    pub class: Option<String>,
    pub school: Option<String>,
    pub level: Option<i32>,
    pub term: Option<String>,
}

/// Mathematical model of a [`SpellQuery`].
pub struct SpellQueryView {
    pub class: Option<Seq<char>>,
    pub school: Option<Seq<char>>,
    pub level: Option<int>,
    pub term: Option<Seq<char>>,
}

/// One condition of a store query on the spell collection.
#[derive(Debug, PartialEq, Eq)]
pub enum Predicate {
    /// The record's class-membership set holds an element whose index
    /// equals the key.
    ClassIs(String),
    /// The index of the record's school equals the key.
    SchoolIs(String),
    /// The record's level equals the number.
    LevelIs(i32),
    /// The record's name matches the term, letter case aside.
    NameIs(String),
}

/// Mathematical model of a [`Predicate`].
pub enum PredicateView {
    ClassIs(Seq<char>),
    SchoolIs(Seq<char>),
    LevelIs(int),
    NameIs(Seq<char>),
}

impl View for Predicate {
    type V = PredicateView;

    open spec fn view(&self) -> PredicateView {
        match self {
            Predicate::ClassIs(key) => PredicateView::ClassIs(key@),
            Predicate::SchoolIs(key) => PredicateView::SchoolIs(key@),
            Predicate::LevelIs(level) => PredicateView::LevelIs(*level as int),
            Predicate::NameIs(term) => PredicateView::NameIs(term@),
        }
    }
}

impl DeepView for Predicate {
    type V = PredicateView;

    open spec fn deep_view(&self) -> PredicateView {
        self@
    }
}

impl SpellQueryView {
    /// No criterion is set.
    pub open spec fn empty() -> SpellQueryView {
        SpellQueryView { class: None, school: None, level: None, term: None }
    }

    /// The criteria after an event of the component tree: a number sets the
    /// level, a filter sets the criterion that its name stands for, a
    /// search sets the term. A filter of any other name changes nothing.
    pub open spec fn route(self, event: SelectEvent) -> SpellQueryView {
        match event {
            SelectEvent::Nothing => self,
            SelectEvent::Number { value, .. } => SpellQueryView { level: Some(value), ..self },
            SelectEvent::Filter { name, value } => if name == "Class"@ {
                SpellQueryView { class: Some(value), ..self }
            } else if name == "School"@ {
                SpellQueryView { school: Some(value), ..self }
            } else {
                self
            },
            SelectEvent::Search { value, .. } => SpellQueryView { term: Some(value), ..self },
        }
    }

    /// The condition on the class, where one is set.
    pub open spec fn class_part(self) -> Seq<PredicateView> {
        match self.class {
            Some(key) => seq![PredicateView::ClassIs(key)],
            None => seq![],
        }
    }

    /// The condition on the school, where one is set.
    pub open spec fn school_part(self) -> Seq<PredicateView> {
        match self.school {
            Some(key) => seq![PredicateView::SchoolIs(key)],
            None => seq![],
        }
    }

    /// The condition on the level, where one above 0 is set: level 0
    /// stands for any level.
    pub open spec fn level_part(self) -> Seq<PredicateView> {
        match self.level {
            Some(level) => if level > 0 {
                seq![PredicateView::LevelIs(level)]
            } else {
                seq![]
            },
            None => seq![],
        }
    }

    /// The condition on the name, where a term is set.
    pub open spec fn term_part(self) -> Seq<PredicateView> {
        match self.term {
            Some(term) => seq![PredicateView::NameIs(term)],
            None => seq![],
        }
    }

    /// The store query of the criteria: the conditions of the criteria that
    /// are set, all of which a record has to meet.
    pub open spec fn plan(self) -> Seq<PredicateView> {
        self.class_part() + self.school_part() + self.level_part() + self.term_part()
    }
}

impl View for SpellQuery {
    type V = SpellQueryView;

    open spec fn view(&self) -> SpellQueryView {
        SpellQueryView {
            class: self.class.deep_view(),
            school: self.school.deep_view(),
            level: match self.level {
                Some(level) => Some(level as int),
                None => None,
            },
            term: self.term.deep_view(),
        }
    }
}

impl Default for SpellQuery {
    fn default() -> (query: SpellQuery)
        ensures
            query@ == SpellQueryView::empty(),
    {
        SpellQuery { class: None, school: None, level: None, term: None }
    }
}

/// Composes the store query of the criteria.
///
/// The conditions come in the order class, school, level, term. Level 0 is
/// the "any level" setting of the stepper and adds no condition. With no
/// criterion set the query is empty and matches every record.
pub fn query_spell(spell_query: &SpellQuery) -> (query: Vec<Predicate>)
    ensures
        query.deep_view() == spell_query@.plan(),
{
    let mut query: Vec<Predicate> = Vec::new();
    assert(query.deep_view() =~= Seq::<PredicateView>::empty());
    if let Some(class) = &spell_query.class {
        let ghost before = query.deep_view();
        query.push(Predicate::ClassIs(class.clone()));
        assert(query.deep_view() =~= before + spell_query@.class_part());
    }
    assert(query.deep_view() =~= spell_query@.class_part());
    if let Some(school) = &spell_query.school {
        let ghost before = query.deep_view();
        query.push(Predicate::SchoolIs(school.clone()));
        assert(query.deep_view() =~= before + spell_query@.school_part());
    }
    assert(query.deep_view() =~= spell_query@.class_part() + spell_query@.school_part());
    if let Some(level) = spell_query.level {
        if level > 0 {
            let ghost before = query.deep_view();
            query.push(Predicate::LevelIs(level));
            assert(query.deep_view() =~= before + spell_query@.level_part());
        }
    }
    assert(query.deep_view() =~= spell_query@.class_part() + spell_query@.school_part()
        + spell_query@.level_part());
    if let Some(term) = &spell_query.term {
        let ghost before = query.deep_view();
        query.push(Predicate::NameIs(term.clone()));
        assert(query.deep_view() =~= before + spell_query@.term_part());
    }
    assert(query.deep_view() =~= spell_query@.plan());
    query
}

/// The search controller. It owns the result set, the text buffer of the
/// search bar, the accumulated criteria and the component tree.
pub struct SpellSearch<'a, T> {
    pub search_results: Vec<T>,
    pub input_buff: InputBuffer,
    pub query_items: SpellQuery,
    pub ui_components: Option<Container<'a, SpellSearchUi>>,
}

/// Mathematical model of a [`SpellSearch`].
pub struct SpellSearchView<T> {
    pub results: Seq<T>,
    pub input: InputBufferView,
    pub query: SpellQueryView,
    pub tree: Option<ContainerView>,
}

impl<T> SpellSearchView<T> {
    /// The cursor of the buffer stands inside its text; the tree is
    /// well-formed; at most one leaf of it holds the focus, at the end of
    /// the focus path; and every result list in it counts the records of
    /// the result set.
    pub open spec fn wf(self) -> bool {
        &&& self.input.wf()
        &&& self.tree matches Some(tree) ==> {
            &&& tree.wf()
            &&& tree.settled()
            &&& tree.shows(self.results.len())
        }
    }

    /// The tree holds the focus: along the focus path, in every container
    /// exactly the selected child is highlighted or selected, and every
    /// other child is idle.
    pub open spec fn focused(self) -> bool {
        self.tree matches Some(tree) && tree.focused()
    }

    /// No leaf of the tree is highlighted or selected.
    pub open spec fn idle(self) -> bool {
        self.tree matches Some(tree) ==> tree.idle()
    }

    /// The focus path of the tree ends in a level stepper that is open.
    pub open spec fn confirms_level(self) -> bool {
        self.tree matches Some(tree) && NodeView::Group(tree).confirms_level()
    }

    /// A controller without a tree, with nothing typed, asked or found.
    pub open spec fn empty() -> SpellSearchView<T> {
        SpellSearchView {
            results: Seq::empty(),
            input: InputBufferView::empty(),
            query: SpellQueryView::empty(),
            tree: None,
        }
    }

    /// The controller after a motion request, and its answer.
    pub open spec fn shift(self, axis: Axis, forward: bool) -> (SpellSearchView<T>, MoveResponse) {
        match self.tree {
            Some(tree) => (
                SpellSearchView { tree: Some(tree.shift(axis, forward).0), ..self },
                tree.shift(axis, forward).1,
            ),
            None => (self, MoveResponse::Consumed),
        }
    }

    /// The controller after `hover`.
    pub open spec fn hover(self, activate: bool) -> SpellSearchView<T> {
        match self.tree {
            Some(tree) => SpellSearchView { tree: Some(tree.hover(activate)), ..self },
            None => self,
        }
    }

    /// The controller after an event, and the query to run: every event
    /// but `Nothing` updates the criteria and asks for one query, composed
    /// of the updated criteria.
    pub open spec fn route(self, event: SelectEvent) -> (SpellSearchView<T>, Option<
        Seq<PredicateView>,
    >) {
        let query = self.query.route(event);
        (
            SpellSearchView { query, ..self },
            if event is Nothing {
                None
            } else {
                Some(query.plan())
            },
        )
    }

    /// The controller after `select`, and the query to run.
    pub open spec fn select(self, activate: bool) -> (SpellSearchView<T>, Option<
        Seq<PredicateView>,
    >) {
        match self.tree {
            Some(tree) => (SpellSearchView { tree: Some(tree.select(activate).0), ..self }).route(
                tree.select(activate).1,
            ),
            None => (self, None),
        }
    }

    /// The controller after a key of the text entry channel, and the query
    /// to run.
    pub open spec fn key_stroke(self, key: Key) -> (SpellSearchView<T>, Option<
        Seq<PredicateView>,
    >) {
        (SpellSearchView { input: self.input.key_stroke(key).0, ..self }).route(
            self.input.key_stroke(key).1,
        )
    }

    /// The controller after a query has been run and has returned
    /// `results`.
    pub open spec fn set_results(self, results: Seq<T>) -> SpellSearchView<T> {
        SpellSearchView {
            results,
            tree: match self.tree {
                Some(tree) => Some(tree.resized(results.len())),
                None => None,
            },
            ..self
        }
    }
}

impl<'a, T> View for SpellSearch<'a, T> {
    type V = SpellSearchView<T>;

    open spec fn view(&self) -> SpellSearchView<T> {
        SpellSearchView {
            results: self.search_results@,
            input: self.input_buff@,
            query: self.query_items@,
            tree: match self.ui_components {
                Some(tree) => Some(tree@),
                None => None,
            },
        }
    }
}

/// The tree of the search page: the search bar above a row that holds the
/// column of filters (classes, schools, level) and the result list.
pub open spec fn component_tree(classes: Seq<Seq<char>>, schools: Seq<Seq<char>>) -> ContainerView {
    let filters = ContainerView {
        children: seq![
            NodeView::List(
                StatefulListView {
                    cursor: None,
                    items: classes,
                    name: "Class"@,
                    selected: SelectState::Idle,
                },
            ),
            NodeView::List(
                StatefulListView {
                    cursor: None,
                    items: schools,
                    name: "School"@,
                    selected: SelectState::Idle,
                },
            ),
            NodeView::Level(LevelView { name: "Level"@, level: 0, selected: SelectState::Idle }),
        ],
        direction: Axis::Vertical,
        selected: 0,
        kind: ContainerKind::Filters,
    };
    let main = ContainerView {
        children: seq![
            NodeView::Group(filters),
            NodeView::Results(
                SearchResultsView {
                    cursor: None,
                    len: 0,
                    selected: SelectState::Idle,
                    item_view: false,
                },
            ),
        ],
        direction: Axis::Horizontal,
        selected: 0,
        kind: ContainerKind::SearchMain,
    };
    ContainerView {
        children: seq![
            NodeView::SearchBar(SearchBarView { name: "Search"@, selected: SelectState::Idle }),
            NodeView::Group(main),
        ],
        direction: Axis::Vertical,
        selected: 0,
        kind: ContainerKind::SpellSearchUi,
    }
}

/// The tree of the search page is well-formed, nothing in it is lit, and
/// its result list counts no record.
pub proof fn lemma_component_tree(classes: Seq<Seq<char>>, schools: Seq<Seq<char>>)
    ensures
        component_tree(classes, schools).wf(),
        component_tree(classes, schools).idle(),
        component_tree(classes, schools).shows(0),
{
    let page = component_tree(classes, schools);
    let main = page.children[1]->Group_0;
    let filters = main.children[0]->Group_0;
    assert forall|i: int| 0 <= i < filters.children.len() implies {
        &&& (#[trigger] filters.children[i]).wf()
        &&& filters.children[i].idle()
        &&& filters.children[i].shows(0)
    } by {
        assert(i == 0 || i == 1 || i == 2);
    }
    assert(filters.wf() && filters.idle() && filters.shows(0));
    assert forall|i: int| 0 <= i < main.children.len() implies {
        &&& (#[trigger] main.children[i]).wf()
        &&& main.children[i].idle()
        &&& main.children[i].shows(0)
    } by {
        assert(i == 0 || i == 1);
    }
    assert(main.wf() && main.idle() && main.shows(0));
    assert forall|i: int| 0 <= i < page.children.len() implies {
        &&& (#[trigger] page.children[i]).wf()
        &&& page.children[i].idle()
        &&& page.children[i].shows(0)
    } by {
        assert(i == 0 || i == 1);
    }
}

impl<'a, T> SpellSearch<'a, T> {
    /// A controller without a tree, with nothing typed, asked or found.
    pub fn new() -> (search: SpellSearch<'a, T>)
        ensures
            search@ == SpellSearchView::<T>::empty(),
            search@.wf(),
    {
        SpellSearch {
            search_results: Vec::new(),
            input_buff: InputBuffer::new(),
            query_items: SpellQuery::default(),
            ui_components: None,
        }
    }

    /// Whether the controller is well-formed.
    pub fn is_valid(&self) -> (valid: bool)
        ensures
            valid == self@.wf(),
    {
        if !self.input_buff.is_valid() {
            return false;
        }
        match &self.ui_components {
            Some(tree) => tree.is_valid() && tree.is_settled() && tree.counts(
                self.search_results.len(),
            ),
            None => true,
        }
    }

    /// Consumes one key of the text entry channel.
    ///
    /// The key goes to the buffer. Where it submits the text, the text
    /// becomes the search term and the query to run comes back; the caller
    /// then leaves text entry.
    pub fn key_stroke(&mut self, key: Key) -> (requery: Option<Vec<Predicate>>)
        requires
            old(self)@.wf(),
        ensures
            final(self)@ == old(self)@.key_stroke(key).0,
            requery.deep_view() == old(self)@.key_stroke(key).1,
            final(self)@.wf(),
    {
        let response = self.input_buff.key_stroke(key);
        match response {
            SelectResponse::Search { value, .. } => {
                self.query_items.term = Some(value);
                Some(query_spell(&self.query_items))
            },
            _ => None,
        }
    }

    /// Lays the highlight on the focus path of the tree, or takes it away.
    pub fn hover(&mut self, activate: bool)
        requires
            old(self)@.wf(),
        ensures
            final(self)@ == old(self)@.hover(activate),
            final(self)@.wf(),
            activate && old(self)@.tree is Some ==> final(self)@.focused(),
            !activate ==> final(self)@.idle(),
    {
        if let Some(ui_components) = &mut self.ui_components {
            proof {
                let tree = NodeView::Group(ui_components@);
                lemma_hover_keeps(tree, activate, self.search_results@.len());
                law_hover(tree, activate);
                lemma_settled(tree.hover(activate));
            }
            ui_components.hover(activate);
        }
    }

    /// Moves the focus one step forward along `direction`. Without a tree
    /// the motion counts as consumed.
    pub fn next(&mut self, direction: Axis) -> (response: MoveResponse)
        requires
            old(self)@.wf(),
        ensures
            final(self)@ == old(self)@.shift(direction, true).0,
            response == old(self)@.shift(direction, true).1,
            final(self)@.wf(),
            old(self)@.focused() ==> final(self)@.focused(),
    {
        if let Some(ui_components) = &mut self.ui_components {
            proof {
                let tree = NodeView::Group(ui_components@);
                lemma_shift_keeps(tree, direction, true, self.search_results@.len());
                law_shift(tree, direction, true);
            }
            ui_components.next(direction)
        } else {
            MoveResponse::Consumed
        }
    }

    /// Moves the focus one step backward along `direction`. Without a tree
    /// the motion counts as consumed.
    pub fn previous(&mut self, direction: Axis) -> (response: MoveResponse)
        requires
            old(self)@.wf(),
        ensures
            final(self)@ == old(self)@.shift(direction, false).0,
            response == old(self)@.shift(direction, false).1,
            final(self)@.wf(),
            old(self)@.focused() ==> final(self)@.focused(),
    {
        if let Some(ui_components) = &mut self.ui_components {
            proof {
                let tree = NodeView::Group(ui_components@);
                lemma_shift_keeps(tree, direction, false, self.search_results@.len());
                law_shift(tree, direction, false);
            }
            ui_components.previous(direction)
        } else {
            MoveResponse::Consumed
        }
    }

    /// Activates or deactivates the leaf at the end of the focus path and
    /// routes its event to the criteria. Where the leaf emitted an event,
    /// the query to run comes back.
    pub fn select(&mut self, activate: bool) -> (requery: Option<Vec<Predicate>>)
        requires
            old(self)@.wf(),
        ensures
            final(self)@ == old(self)@.select(activate).0,
            requery.deep_view() == old(self)@.select(activate).1,
            final(self)@.wf(),
            !activate ==> final(self)@.idle() && requery is None,
            activate && old(self)@.tree is Some && !old(self)@.confirms_level()
                ==> final(self)@.focused(),
    {
        if let Some(ui_components) = &mut self.ui_components {
            proof {
                let tree = NodeView::Group(ui_components@);
                lemma_select_keeps(tree, activate, self.search_results@.len());
                law_select(tree, activate);
                lemma_deselect_is_silent(tree);
            }
            let response = ui_components.select(activate);
            self.route(response)
        } else {
            None
        }
    }

    /// Routes an event of the component tree to the criteria.
    ///
    /// A `Number` sets the level, a `Filter` named "Class" or "School" sets
    /// that criterion, a `Search` sets the term; a `Filter` of any other
    /// name changes nothing. Every event but `Nothing` asks for a query,
    /// which is composed of the updated criteria and returned.
    pub fn route(&mut self, response: SelectResponse) -> (requery: Option<Vec<Predicate>>)
        ensures
            final(self)@ == old(self)@.route(response@).0,
            requery.deep_view() == old(self)@.route(response@).1,
    {
        match response {
            SelectResponse::Nothing => {
                return None;
            },
            SelectResponse::Number { value, .. } => {
                self.query_items.level = Some(value);
            },
            SelectResponse::Filter { name, value } => {
                if same_text(name.as_str(), "Class") {
                    self.query_items.class = Some(value);
                } else if same_text(name.as_str(), "School") {
                    self.query_items.school = Some(value);
                }
            },
            SelectResponse::Search { value, .. } => {
                self.query_items.term = Some(value);
            },
        }
        Some(query_spell(&self.query_items))
    }

    /// Replaces the result set by the records that a query returned, and
    /// tells every result list of the tree their number. Nothing of the
    /// earlier result set is left.
    pub fn set_results(&mut self, results: Vec<T>)
        ensures
            final(self)@ == old(self)@.set_results(results@),
            final(self)@.results == results@,
            final(self)@.tree matches Some(tree) ==> tree.shows(results@.len()),
            old(self)@.wf() ==> final(self)@.wf(),
            old(self)@.focused() ==> final(self)@.focused(),
    {
        let len = results.len();
        self.search_results = results;
        if let Some(ui_components) = &mut self.ui_components {
            proof {
                lemma_resized(NodeView::Group(ui_components@), len as nat);
                lemma_resized_keeps_focus(NodeView::Group(ui_components@), len as nat);
            }
            ui_components.resize(len);
        }
    }
}

/// Builds the search page: a controller whose tree is
/// [`component_tree`] over the given class and school names, with nothing
/// lit, typed, asked or found.
pub fn build_component_tree<'a, T>(classes: Vec<String>, schools: Vec<String>) -> (search:
    SpellSearch<'a, T>)
    ensures
        search@ == (SpellSearchView::<T> {
            tree: Some(component_tree(classes.deep_view(), schools.deep_view())),
            ..SpellSearchView::empty()
        }),
        search@.wf(),
        search@.idle(),
{
    let ghost class_names = classes.deep_view();
    let ghost school_names = schools.deep_view();
    let mut search = SpellSearch::new();
    let filters = Container::<Filters>::with_items(
        vec![
            Node::List(StatefulList::with_items(classes, "Class")),
            Node::List(StatefulList::with_items(schools, "School")),
            Node::Level(Level::new("Level")),
        ],
        Axis::Vertical,
    );
    assert(filters@.children =~= component_tree(class_names, school_names).children[1]->Group_0.children[0]->Group_0.children);
    let main = Container::<SearchMain>::with_items(
        vec![Node::Filters(filters), Node::Results(SearchResults::new(0))],
        Axis::Horizontal,
    );
    assert(main@.children =~= component_tree(class_names, school_names).children[1]->Group_0.children);
    let page = Container::<SpellSearchUi>::with_items(
        vec![Node::SearchBar(SearchBar::new("Search")), Node::Main(main)],
        Axis::Vertical,
    );
    assert(page@.children =~= component_tree(class_names, school_names).children);
    proof {
        lemma_component_tree(class_names, school_names);
        lemma_settled(NodeView::Group(component_tree(class_names, school_names)));
    }
    search.ui_components = Some(page);
    search
}

/// The "any level" sentinel. A query holds a condition on the level exactly
/// when the level criterion is set above 0, and then it is that level. In
/// particular, criteria with the level set to 0 compose the same query as
/// the same criteria with no level set.
pub proof fn law_level_zero_is_any(criteria: SpellQueryView)
    ensures
        criteria.level matches Some(level) ==> (level > 0 ==> criteria.plan().contains(
            PredicateView::LevelIs(level),
        )),
        forall|i: int|
            0 <= i < criteria.plan().len() && (#[trigger] criteria.plan()[i]) is LevelIs
                ==> criteria.level == Some(criteria.plan()[i]->LevelIs_0)
                && criteria.plan()[i]->LevelIs_0 > 0,
        criteria.level == Some(0int) ==> criteria.plan() == (SpellQueryView {
            level: None,
            ..criteria
        }).plan(),
{
    let plan = criteria.plan();
    let before = criteria.class_part() + criteria.school_part();
    if let Some(level) = criteria.level {
        if level > 0 {
            assert(plan[before.len() as int] == PredicateView::LevelIs(level));
        }
    }
}

/// Event routing. A filter named "Class" sets the class criterion to its
/// value, one named "School" the school criterion, and neither touches any
/// other criterion; each asks for exactly one query, the one that the
/// updated criteria compose. Nothing else in the controller changes.
pub proof fn law_filter_routing<T>(search: SpellSearchView<T>, value: Seq<char>)
    ensures
        search.route(SelectEvent::Filter { name: "Class"@, value }) == (
            SpellSearchView {
                query: SpellQueryView { class: Some(value), ..search.query },
                ..search
            },
            Some((SpellQueryView { class: Some(value), ..search.query }).plan()),
        ),
        search.route(SelectEvent::Filter { name: "School"@, value }) == (
            SpellSearchView {
                query: SpellQueryView { school: Some(value), ..search.query },
                ..search
            },
            Some((SpellQueryView { school: Some(value), ..search.query }).plan()),
        ),
{
    reveal_strlit("Class");
    reveal_strlit("School");
    assert("Class"@.len() != "School"@.len());
}

/// The stepper and the query agree on "any level". Once a stepper has
/// confirmed its level, the query of the updated criteria holds a condition
/// on the level exactly when the stepper does not stand at "any level".
pub proof fn law_any_level_is_no_condition(criteria: SpellQueryView, stepper: LevelView)
    requires
        stepper.selected is Selected,
    ensures
        ({
            let plan = criteria.route(stepper.select(true).1).plan();
            stepper.is_any() <==> forall|i: int| 0 <= i < plan.len() ==> !(plan[i] is LevelIs)
        }),
{
    let after = criteria.route(stepper.select(true).1);
    law_level_zero_is_any(after);
    if !stepper.is_any() {
        let before = after.class_part() + after.school_part();
        assert(after.plan()[before.len() as int] is LevelIs);
    }
}

/// One criterion per event. An event changes at most one of the four
/// criteria: a `Number` the level, a `Search` the term, a `Filter` the
/// class or the school, and `Nothing` none.
pub proof fn law_one_criterion_per_event(criteria: SpellQueryView, event: SelectEvent)
    ensures
        ({
            let after = criteria.route(event);
            &&& after.class != criteria.class ==> event is Filter && after.school == criteria.school
                && after.level == criteria.level && after.term == criteria.term
            &&& after.school != criteria.school ==> event is Filter && after.class
                == criteria.class && after.level == criteria.level && after.term == criteria.term
            &&& after.level != criteria.level ==> event is Number && after.class == criteria.class
                && after.school == criteria.school && after.term == criteria.term
            &&& after.term != criteria.term ==> event is Search && after.class == criteria.class
                && after.school == criteria.school && after.level == criteria.level
        }),
{
}

} // verus!
