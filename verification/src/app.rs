//! The application shell: key dispatch between navigation and text entry.
//!
//! In navigation mode the arrow keys (or `h`, `j`, `k`, `l`) move the
//! focus, Enter activates, Esc deactivates, `/` switches to text entry and
//! `q` asks to quit. In text entry mode every key goes to the search
//! buffer until Enter submits the text, which switches back.

use vstd::prelude::*;
use crate::events::Key;
use crate::input_buffer::{InputBuffer, InputBufferView};
use crate::layout::Axis;
use crate::spell_search::{
    build_component_tree, component_tree, Predicate, PredicateView, SpellSearch, SpellSearchView,
};

verus! {

/// What a node answers to a motion request.
#[derive(Clone, Copy, Debug, PartialEq, Eq, Structural)]
pub enum MoveResponse {
    /// The node could not consume the motion: its parent should move on to
    /// a neighbouring child.
    Sibling,
    /// The node consumed the motion.
    Consumed,
}

/// Which channel the keys currently go to.
#[derive(Clone, Copy, Debug, PartialEq, Eq, Structural)]
pub enum AppMode {
    /// Keys edit the search text.
    Search,
    /// Keys move and activate the focus.
    Navigation,
}

/// The application state.
pub struct App<'a, T> {
    pub title: &'a str,
    pub component_tree: SpellSearch<'a, T>,
    pub should_quit: bool,
    pub search_buf: InputBuffer,
    pub app_mode: AppMode,
}

/// Mathematical model of an [`App`].
pub struct AppView<T> {
    pub title: Seq<char>,
    pub component_tree: SpellSearchView<T>,
    pub should_quit: bool,
    pub search_buf: InputBufferView,
    pub app_mode: AppMode,
}

impl<T> AppView<T> {
    /// The search controller and the spare buffer are well-formed.
    pub open spec fn wf(self) -> bool {
        self.component_tree.wf() && self.search_buf.wf()
    }

    /// The application with its search controller replaced.
    pub open spec fn with_tree(self, component_tree: SpellSearchView<T>) -> AppView<T> {
        AppView { component_tree, ..self }
    }

    /// The application after a key in navigation mode, and the query to
    /// run.
    pub open spec fn navigate(self, key: Key) -> (AppView<T>, Option<Seq<PredicateView>>) {
        let tree = self.component_tree;
        match key {
            Key::Up | Key::Char('k') => (self.with_tree(tree.shift(Axis::Vertical, false).0), None),
            Key::Down | Key::Char('j') => (self.with_tree(tree.shift(Axis::Vertical, true).0), None),
            Key::Left | Key::Char('h') => (
                self.with_tree(tree.shift(Axis::Horizontal, false).0),
                None,
            ),
            Key::Right | Key::Char('l') => (
                self.with_tree(tree.shift(Axis::Horizontal, true).0),
                None,
            ),
            Key::Char('\n') => (self.with_tree(tree.select(true).0), tree.select(true).1),
            Key::Esc => (self.with_tree(tree.select(false).0), None),
            Key::Char('q') => (AppView { should_quit: true, ..self }, None),
            Key::Char('/') => (AppView { app_mode: AppMode::Search, ..self }, None),
            _ => (self, None),
        }
    }

    /// The application after a key in text entry mode, and the query to
    /// run: the key that submits the text also ends text entry.
    pub open spec fn enter_text(self, key: Key) -> (AppView<T>, Option<Seq<PredicateView>>) {
        let typed = self.component_tree.key_stroke(key);
        (
            AppView {
                component_tree: typed.0,
                app_mode: if typed.1 is Some {
                    AppMode::Navigation
                } else {
                    AppMode::Search
                },
                ..self
            },
            typed.1,
        )
    }

    /// The key takes the focus away from the tree: in navigation mode, Esc
    /// deactivates, and Enter on an open level stepper confirms the level,
    /// which drops the focus.
    pub open spec fn releases(self, key: Key) -> bool {
        self.app_mode is Navigation && (key == Key::Esc || (key == Key::Char('\n')
            && self.component_tree.confirms_level()))
    }

    /// The application after a key, and the query to run.
    pub open spec fn on_key(self, key: Key) -> (AppView<T>, Option<Seq<PredicateView>>) {
        match self.app_mode {
            AppMode::Navigation => self.navigate(key),
            AppMode::Search => self.enter_text(key),
        }
    }
}

impl<'a, T> View for App<'a, T> {
    type V = AppView<T>;

    open spec fn view(&self) -> AppView<T> {
        AppView {
            title: self.title@,
            component_tree: self.component_tree@,
            should_quit: self.should_quit,
            search_buf: self.search_buf@,
            app_mode: self.app_mode,
        }
    }
}

impl<'a, T> App<'a, T> {
    /// The application at start: the search page over the given class and
    /// school names, in navigation mode, with the highlight laid on the
    /// focus path, which ends in the search bar.
    pub fn new(title: &'a str, classes: Vec<String>, schools: Vec<String>) -> (app: App<'a, T>)
        ensures
            app@ == (AppView::<T> {
                title: title@,
                component_tree: SpellSearchView {
                    tree: Some(component_tree(classes.deep_view(), schools.deep_view()).hover(true)),
                    ..SpellSearchView::empty()
                },
                should_quit: false,
                search_buf: InputBufferView::empty(),
                app_mode: AppMode::Navigation,
            }),
            app@.wf(),
            app@.component_tree.focused(),
    {
        let component_tree = build_component_tree(classes, schools);
        let mut app = App {
            title,
            component_tree,
            should_quit: false,
            search_buf: InputBuffer::new(),
            app_mode: AppMode::Navigation,
        };
        app.component_tree.hover(true);
        app
    }

    /// Whether the application state is well-formed.
    pub fn is_valid(&self) -> (valid: bool)
        ensures
            valid == self@.wf(),
    {
        self.component_tree.is_valid() && self.search_buf.is_valid()
    }

    /// Moves the focus up.
    pub fn on_up(&mut self)
        requires
            old(self)@.wf(),
        ensures
            final(self)@ == old(self)@.navigate(Key::Up).0,
            final(self)@.wf(),
            old(self)@.component_tree.focused() ==> final(self)@.component_tree.focused(),
    {
        self.component_tree.previous(Axis::Vertical);
    }

    /// Moves the focus down.
    pub fn on_down(&mut self)
        requires
            old(self)@.wf(),
        ensures
            final(self)@ == old(self)@.navigate(Key::Down).0,
            final(self)@.wf(),
            old(self)@.component_tree.focused() ==> final(self)@.component_tree.focused(),
    {
        self.component_tree.next(Axis::Vertical);
    }

    /// Moves the focus left.
    pub fn on_left(&mut self)
        requires
            old(self)@.wf(),
        ensures
            final(self)@ == old(self)@.navigate(Key::Left).0,
            final(self)@.wf(),
            old(self)@.component_tree.focused() ==> final(self)@.component_tree.focused(),
    {
        self.component_tree.previous(Axis::Horizontal);
    }

    /// Moves the focus right.
    pub fn on_right(&mut self)
        requires
            old(self)@.wf(),
        ensures
            final(self)@ == old(self)@.navigate(Key::Right).0,
            final(self)@.wf(),
            old(self)@.component_tree.focused() ==> final(self)@.component_tree.focused(),
    {
        self.component_tree.next(Axis::Horizontal);
    }

    /// Deactivates the leaf at the end of the focus path. No query is due.
    pub fn on_unselect(&mut self)
        requires
            old(self)@.wf(),
        ensures
            final(self)@ == old(self)@.navigate(Key::Esc).0,
            old(self)@.component_tree.select(false).1 is None,
            final(self)@.wf(),
            final(self)@.component_tree.idle(),
    {
        self.component_tree.select(false);
    }

    /// Activates the leaf at the end of the focus path and returns the
    /// query to run, where the activation changed the criteria.
    pub fn on_select(&mut self) -> (requery: Option<Vec<Predicate>>)
        requires
            old(self)@.wf(),
        ensures
            final(self)@ == old(self)@.navigate(Key::Char('\n')).0,
            requery.deep_view() == old(self)@.navigate(Key::Char('\n')).1,
            final(self)@.wf(),
            old(self)@.component_tree.tree is Some && !old(self)@.component_tree.confirms_level()
                ==> final(self)@.component_tree.focused(),
    {
        self.component_tree.select(true)
    }

    /// Handles one key and returns the query to run, where the key changed
    /// the criteria. The caller runs the query and hands the records to the
    /// search controller before the next key.
    pub fn on_key(&mut self, key: Key) -> (requery: Option<Vec<Predicate>>)
        requires
            old(self)@.wf(),
        ensures
            final(self)@ == old(self)@.on_key(key).0,
            requery.deep_view() == old(self)@.on_key(key).1,
            final(self)@.wf(),
            old(self)@.component_tree.focused() && !old(self)@.releases(key) ==> final(self)@
                .component_tree.focused(),
    {
        match self.app_mode {
            AppMode::Navigation => {
                match key {
                    Key::Up | Key::Char('k') => {
                        self.on_up();
                        None
                    },
                    Key::Down | Key::Char('j') => {
                        self.on_down();
                        None
                    },
                    Key::Left | Key::Char('h') => {
                        self.on_left();
                        None
                    },
                    Key::Right | Key::Char('l') => {
                        self.on_right();
                        None
                    },
                    Key::Char('\n') => self.on_select(),
                    Key::Esc => {
                        self.on_unselect();
                        None
                    },
                    Key::Char('q') => {
                        self.should_quit = true;
                        None
                    },
                    Key::Char('/') => {
                        self.app_mode = AppMode::Search;
                        None
                    },
                    _ => None,
                }
            },
            AppMode::Search => {
                let requery = self.component_tree.key_stroke(key);
                if requery.is_some() {
                    self.app_mode = AppMode::Navigation;
                }
                requery
            },
        }
    }
}

} // verus!
