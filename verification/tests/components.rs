use dnd_tui::app::MoveResponse;
use dnd_tui::components::{
    Container, Level, ListState, Node, SearchBar, SearchResults, SelectState, StatefulList,
};
use dnd_tui::layout::{Axis, ContainerLayout};
use dnd_tui::select_events::SelectResponse;
use dnd_tui::spell_search::{Filters, SearchMain};

fn names(list: &[&str]) -> Vec<String> {
    list.iter().map(|name| name.to_string()).collect()
}

fn open_list(items: &[&str]) -> StatefulList<'static> {
    let mut list = StatefulList::with_items(names(items), "Class");
    list.hover(true);
    assert_eq!(list.select(true), SelectResponse::Nothing);
    assert_eq!(list.selected, SelectState::Selected);
    list
}

fn open_level() -> Level<'static> {
    let mut level = Level::new("Level");
    level.hover(true);
    assert_eq!(level.select(true), SelectResponse::Nothing);
    assert_eq!(level.selected, SelectState::Selected);
    level
}

fn open_results(len: usize) -> SearchResults {
    let mut results = SearchResults::new(len);
    results.hover(true);
    assert_eq!(results.select(true), SelectResponse::Nothing);
    results
}

#[test]
fn hovered_state_follows_the_transition_table() {
    assert_eq!(SelectState::Idle.hovered(true), SelectState::Highlighted);
    assert_eq!(SelectState::Highlighted.hovered(true), SelectState::Highlighted);
    assert_eq!(SelectState::Selected.hovered(true), SelectState::Selected);
    assert_eq!(SelectState::Idle.hovered(false), SelectState::Idle);
    assert_eq!(SelectState::Highlighted.hovered(false), SelectState::Idle);
    assert_eq!(SelectState::Selected.hovered(false), SelectState::Idle);
}

#[test]
fn list_state_keeps_the_last_selection() {
    let mut state = ListState::default();
    assert_eq!(state.selected(), None);
    state.select(Some(3));
    assert_eq!(state.selected(), Some(3));
    state.select(Some(0));
    assert_eq!(state.selected(), Some(0));
    state.select(None);
    assert_eq!(state.selected(), None);
    assert_eq!(state, ListState::default());
}

#[test]
fn search_bar_starts_idle() {
    let bar = SearchBar::new("Search");
    assert_eq!(bar.name, "Search");
    assert_eq!(bar.selected, SelectState::Idle);
}

#[test]
fn search_bar_hands_motions_on_unless_selected() {
    let mut bar = SearchBar::new("Search");
    assert_eq!(bar.next(Axis::Vertical), MoveResponse::Sibling);
    assert_eq!(bar.previous(Axis::Horizontal), MoveResponse::Sibling);
    bar.hover(true);
    assert_eq!(bar.selected, SelectState::Highlighted);
    assert_eq!(bar.next(Axis::Horizontal), MoveResponse::Sibling);
    assert_eq!(bar.select(true), SelectResponse::Nothing);
    assert_eq!(bar.selected, SelectState::Selected);
    assert_eq!(bar.next(Axis::Vertical), MoveResponse::Consumed);
    assert_eq!(bar.previous(Axis::Vertical), MoveResponse::Consumed);
    assert_eq!(bar.selected, SelectState::Selected);
}

#[test]
fn search_bar_select_is_pure_escalation() {
    let mut bar = SearchBar::new("Search");
    assert_eq!(bar.select(true), SelectResponse::Nothing);
    assert_eq!(bar.selected, SelectState::Selected);
    assert_eq!(bar.select(true), SelectResponse::Nothing);
    assert_eq!(bar.selected, SelectState::Selected);
    assert_eq!(bar.select(false), SelectResponse::Nothing);
    assert_eq!(bar.selected, SelectState::Idle);
}

#[test]
fn hover_does_not_close_a_selected_leaf() {
    let mut bar = SearchBar::new("Search");
    bar.select(true);
    bar.hover(true);
    assert_eq!(bar.selected, SelectState::Selected);
    bar.hover(false);
    assert_eq!(bar.selected, SelectState::Idle);
}

#[test]
fn level_starts_at_zero() {
    let level = Level::new("Level");
    assert_eq!(level.level, 0);
    assert_eq!(level.selected, SelectState::Idle);
    assert_eq!(level.name, "Level");
}

#[test]
fn level_clamps_at_twenty_after_25_next() {
    let mut level = open_level();
    for _ in 0..25 {
        assert_eq!(level.next(Axis::Vertical), MoveResponse::Consumed);
    }
    assert_eq!(level.level, 20);
}

#[test]
fn level_clamps_at_zero_after_25_previous() {
    let mut level = open_level();
    level.level = 20;
    for _ in 0..25 {
        assert_eq!(level.previous(Axis::Vertical), MoveResponse::Consumed);
    }
    assert_eq!(level.level, 0);
}

#[test]
fn level_steps_by_one() {
    let mut level = open_level();
    level.next(Axis::Vertical);
    level.next(Axis::Horizontal);
    level.next(Axis::Vertical);
    assert_eq!(level.level, 3);
    level.previous(Axis::Horizontal);
    assert_eq!(level.level, 2);
}

#[test]
fn level_does_not_move_unless_selected() {
    let mut level = Level::new("Level");
    level.level = 5;
    assert_eq!(level.next(Axis::Vertical), MoveResponse::Sibling);
    assert_eq!(level.previous(Axis::Vertical), MoveResponse::Sibling);
    level.hover(true);
    assert_eq!(level.next(Axis::Vertical), MoveResponse::Sibling);
    assert_eq!(level.level, 5);
}

#[test]
fn level_confirm_reports_the_number_and_drops_focus() {
    let mut level = open_level();
    for _ in 0..7 {
        level.next(Axis::Vertical);
    }
    let response = level.select(true);
    assert_eq!(response, SelectResponse::Number { name: "Level".to_string(), value: 7 });
    assert_eq!(level.selected, SelectState::Idle);
    assert_eq!(level.level, 7);
}

#[test]
fn level_deselect_clears_without_event() {
    let mut level = open_level();
    assert_eq!(level.select(false), SelectResponse::Nothing);
    assert_eq!(level.selected, SelectState::Idle);
}

#[test]
fn list_starts_without_cursor() {
    let list = StatefulList::with_items(names(&["Bard", "Wizard"]), "Class");
    assert_eq!(list.state.selected(), None);
    assert_eq!(list.items, names(&["Bard", "Wizard"]));
    assert_eq!(list.name, "Class");
    assert_eq!(list.selected, SelectState::Idle);
}

#[test]
fn list_next_n_times_returns_to_the_start() {
    let items = ["Bard", "Cleric", "Druid", "Wizard"];
    for start in 0..items.len() {
        let mut list = open_list(&items);
        list.state.select(Some(start));
        for _ in 0..items.len() {
            assert_eq!(list.next(Axis::Vertical), MoveResponse::Consumed);
        }
        assert_eq!(list.state.selected(), Some(start));
    }
}

#[test]
fn list_previous_n_times_returns_to_the_start() {
    let items = ["Bard", "Cleric", "Druid"];
    for start in 0..items.len() {
        let mut list = open_list(&items);
        list.state.select(Some(start));
        for _ in 0..items.len() {
            assert_eq!(list.previous(Axis::Vertical), MoveResponse::Consumed);
        }
        assert_eq!(list.state.selected(), Some(start));
    }
}

#[test]
fn list_previous_from_first_wraps_to_last() {
    let mut list = open_list(&["Bard", "Cleric", "Druid", "Wizard"]);
    list.state.select(Some(0));
    assert_eq!(list.previous(Axis::Vertical), MoveResponse::Consumed);
    assert_eq!(list.state.selected(), Some(3));
}

#[test]
fn list_next_from_last_wraps_to_first() {
    let mut list = open_list(&["Bard", "Cleric", "Druid", "Wizard"]);
    list.state.select(Some(3));
    assert_eq!(list.next(Axis::Vertical), MoveResponse::Consumed);
    assert_eq!(list.state.selected(), Some(0));
}

#[test]
fn list_first_motion_sets_the_cursor_to_the_first_value() {
    let mut list = open_list(&["Bard", "Cleric"]);
    list.next(Axis::Vertical);
    assert_eq!(list.state.selected(), Some(0));
    let mut list = open_list(&["Bard", "Cleric"]);
    list.previous(Axis::Vertical);
    assert_eq!(list.state.selected(), Some(0));
}

#[test]
fn list_horizontal_motion_is_absorbed_without_moving() {
    let mut list = open_list(&["Bard", "Cleric"]);
    list.state.select(Some(1));
    assert_eq!(list.next(Axis::Horizontal), MoveResponse::Consumed);
    assert_eq!(list.previous(Axis::Horizontal), MoveResponse::Consumed);
    assert_eq!(list.state.selected(), Some(1));
}

#[test]
fn list_hands_motions_on_unless_selected() {
    let mut list = StatefulList::with_items(names(&["Bard"]), "Class");
    assert_eq!(list.next(Axis::Vertical), MoveResponse::Sibling);
    list.hover(true);
    assert_eq!(list.previous(Axis::Vertical), MoveResponse::Sibling);
    assert_eq!(list.next(Axis::Horizontal), MoveResponse::Sibling);
    assert_eq!(list.state.selected(), None);
}

#[test]
fn list_of_one_value_stays_on_it() {
    let mut list = open_list(&["Bard"]);
    list.next(Axis::Vertical);
    assert_eq!(list.state.selected(), Some(0));
    list.next(Axis::Vertical);
    assert_eq!(list.state.selected(), Some(0));
    list.previous(Axis::Vertical);
    assert_eq!(list.state.selected(), Some(0));
}

#[test]
fn empty_list_never_fails() {
    let mut list = open_list(&[]);
    assert_eq!(list.next(Axis::Vertical), MoveResponse::Consumed);
    assert_eq!(list.state.selected(), Some(0));
    assert_eq!(list.previous(Axis::Vertical), MoveResponse::Consumed);
    assert_eq!(list.state.selected(), Some(0));
    assert_eq!(list.select(true), SelectResponse::Nothing);
    assert_eq!(list.selected, SelectState::Highlighted);
}

#[test]
fn list_confirm_lower_cases_the_value() {
    let mut list = open_list(&["Bard", "Wizard"]);
    list.next(Axis::Vertical);
    list.next(Axis::Vertical);
    let response = list.select(true);
    assert_eq!(
        response,
        SelectResponse::Filter { name: "Class".to_string(), value: "wizard".to_string() }
    );
    assert_eq!(list.selected, SelectState::Highlighted);
    assert_eq!(list.state.selected(), Some(1));
    assert_eq!(list.items, names(&["Bard", "Wizard"]));
}

#[test]
fn list_confirm_of_mixed_case_value() {
    let mut list = StatefulList::with_items(names(&["EVOCATION School"]), "School");
    list.select(true);
    list.next(Axis::Vertical);
    assert_eq!(
        list.select(true),
        SelectResponse::Filter {
            name: "School".to_string(),
            value: "evocation school".to_string()
        }
    );
}

#[test]
fn list_confirm_without_cursor_reports_nothing() {
    let mut list = open_list(&["Bard", "Wizard"]);
    assert_eq!(list.select(true), SelectResponse::Nothing);
    assert_eq!(list.selected, SelectState::Highlighted);
}

#[test]
fn list_first_activation_opens_second_confirms() {
    let mut list = StatefulList::with_items(names(&["Bard"]), "Class");
    list.state.select(Some(0));
    assert_eq!(list.select(true), SelectResponse::Nothing);
    assert_eq!(list.selected, SelectState::Selected);
    assert_eq!(
        list.select(true),
        SelectResponse::Filter { name: "Class".to_string(), value: "bard".to_string() }
    );
    assert_eq!(list.selected, SelectState::Highlighted);
    assert_eq!(list.select(false), SelectResponse::Nothing);
    assert_eq!(list.selected, SelectState::Idle);
}

#[test]
fn results_start_in_list_view() {
    let results = SearchResults::new(3);
    assert_eq!(results.state.selected(), None);
    assert_eq!(results.len, 3);
    assert_eq!(results.selected, SelectState::Idle);
    assert!(!results.item_view);
}

#[test]
fn results_wrap_like_a_list() {
    let mut results = open_results(3);
    results.next(Axis::Vertical);
    assert_eq!(results.state.selected(), Some(0));
    results.next(Axis::Vertical);
    results.next(Axis::Vertical);
    assert_eq!(results.state.selected(), Some(2));
    assert_eq!(results.next(Axis::Vertical), MoveResponse::Consumed);
    assert_eq!(results.state.selected(), Some(0));
    assert_eq!(results.previous(Axis::Vertical), MoveResponse::Consumed);
    assert_eq!(results.state.selected(), Some(2));
    assert_eq!(results.next(Axis::Horizontal), MoveResponse::Consumed);
    assert_eq!(results.state.selected(), Some(2));
}

#[test]
fn results_next_n_times_returns_to_the_start() {
    for start in 0..5 {
        let mut results = open_results(5);
        results.state.select(Some(start));
        for _ in 0..5 {
            results.next(Axis::Vertical);
        }
        assert_eq!(results.state.selected(), Some(start));
    }
}

#[test]
fn results_hand_motions_on_unless_selected() {
    let mut results = SearchResults::new(3);
    assert_eq!(results.next(Axis::Vertical), MoveResponse::Sibling);
    results.hover(true);
    assert_eq!(results.previous(Axis::Vertical), MoveResponse::Sibling);
    assert_eq!(results.state.selected(), None);
}

#[test]
fn empty_results_never_fail() {
    let mut results = open_results(0);
    assert_eq!(results.next(Axis::Vertical), MoveResponse::Consumed);
    assert_eq!(results.state.selected(), Some(0));
    assert_eq!(results.previous(Axis::Vertical), MoveResponse::Consumed);
    assert_eq!(results.state.selected(), Some(0));
}

#[test]
fn results_second_activation_opens_the_card() {
    let mut results = SearchResults::new(3);
    results.hover(true);
    assert_eq!(results.select(true), SelectResponse::Nothing);
    assert_eq!(results.selected, SelectState::Selected);
    assert!(!results.item_view);
    assert_eq!(results.select(true), SelectResponse::Nothing);
    assert_eq!(results.selected, SelectState::Selected);
    assert!(results.item_view);
    assert_eq!(results.select(false), SelectResponse::Nothing);
    assert_eq!(results.selected, SelectState::Idle);
    assert!(!results.item_view);
}

#[test]
fn results_resize_keeps_everything_but_the_count() {
    let mut results = open_results(5);
    results.state.select(Some(4));
    results.select(true);
    results.resize(2);
    assert_eq!(results.len, 2);
    assert_eq!(results.state.selected(), Some(4));
    assert_eq!(results.selected, SelectState::Selected);
    assert!(results.item_view);
    assert_eq!(results.next(Axis::Vertical), MoveResponse::Consumed);
    assert_eq!(results.state.selected(), Some(0));
}

fn three_bars() -> Container<'static, Filters> {
    Container::<Filters>::with_items(
        vec![
            Node::SearchBar(SearchBar::new("first")),
            Node::SearchBar(SearchBar::new("second")),
            Node::SearchBar(SearchBar::new("third")),
        ],
        Axis::Vertical,
    )
}

fn state_of(node: &Node) -> SelectState {
    match node {
        Node::SearchBar(bar) => bar.selected,
        Node::Level(level) => level.selected,
        Node::List(list) => list.selected,
        Node::Results(results) => results.selected,
        Node::Main(container) => state_of(&container.children[container.selected]),
        Node::Filters(container) => state_of(&container.children[container.selected]),
    }
}

fn states<C: ContainerLayout>(container: &Container<C>) -> Vec<SelectState> {
    container.children.iter().map(state_of).collect()
}

#[test]
fn container_starts_on_its_first_child() {
    let column = three_bars();
    assert_eq!(column.selected, 0);
    assert_eq!(column.children.len(), 3);
    assert_eq!(column.direction, Axis::Vertical);
    assert!(column.is_valid());
}

#[test]
fn sibling_hand_off_walks_three_children() {
    let mut column = three_bars();
    column.hover(true);
    assert_eq!(states(&column), [SelectState::Highlighted, SelectState::Idle, SelectState::Idle]);
    assert_eq!(column.next(Axis::Vertical), MoveResponse::Consumed);
    assert_eq!(column.selected, 1);
    assert_eq!(states(&column), [SelectState::Idle, SelectState::Highlighted, SelectState::Idle]);
    assert_eq!(column.next(Axis::Vertical), MoveResponse::Consumed);
    assert_eq!(column.selected, 2);
    assert_eq!(states(&column), [SelectState::Idle, SelectState::Idle, SelectState::Highlighted]);
    assert_eq!(column.next(Axis::Vertical), MoveResponse::Sibling);
    assert_eq!(column.selected, 2);
    assert_eq!(states(&column), [SelectState::Idle, SelectState::Idle, SelectState::Highlighted]);
}

#[test]
fn sibling_hand_off_walks_back() {
    let mut column = three_bars();
    column.hover(true);
    column.next(Axis::Vertical);
    column.next(Axis::Vertical);
    assert_eq!(column.previous(Axis::Vertical), MoveResponse::Consumed);
    assert_eq!(column.selected, 1);
    assert_eq!(column.previous(Axis::Vertical), MoveResponse::Consumed);
    assert_eq!(column.selected, 0);
    assert_eq!(states(&column), [SelectState::Highlighted, SelectState::Idle, SelectState::Idle]);
    assert_eq!(column.previous(Axis::Vertical), MoveResponse::Sibling);
    assert_eq!(column.selected, 0);
    assert_eq!(states(&column), [SelectState::Highlighted, SelectState::Idle, SelectState::Idle]);
}

#[test]
fn cross_axis_motion_is_transparent() {
    let mut column = three_bars();
    column.hover(true);
    assert_eq!(column.next(Axis::Horizontal), MoveResponse::Sibling);
    assert_eq!(column.previous(Axis::Horizontal), MoveResponse::Sibling);
    assert_eq!(column.selected, 0);
    column.select(true);
    assert_eq!(column.next(Axis::Horizontal), MoveResponse::Consumed);
    assert_eq!(column.selected, 0);
    assert_eq!(states(&column), [SelectState::Selected, SelectState::Idle, SelectState::Idle]);
}

#[test]
fn motion_absorbed_by_the_child_does_not_move_the_container() {
    let mut column = Container::<Filters>::with_items(
        vec![
            Node::List(StatefulList::with_items(names(&["Bard", "Wizard"]), "Class")),
            Node::Level(Level::new("Level")),
        ],
        Axis::Vertical,
    );
    column.hover(true);
    assert_eq!(column.select(true), SelectResponse::Nothing);
    assert_eq!(column.next(Axis::Vertical), MoveResponse::Consumed);
    assert_eq!(column.next(Axis::Vertical), MoveResponse::Consumed);
    assert_eq!(column.next(Axis::Vertical), MoveResponse::Consumed);
    assert_eq!(column.selected, 0);
    match &column.children[0] {
        Node::List(list) => assert_eq!(list.state.selected(), Some(0)),
        _ => unreachable!(),
    }
    assert_eq!(
        column.select(true),
        SelectResponse::Filter { name: "Class".to_string(), value: "bard".to_string() }
    );
    assert_eq!(column.next(Axis::Vertical), MoveResponse::Consumed);
    assert_eq!(column.selected, 1);
    assert_eq!(states(&column), [SelectState::Idle, SelectState::Highlighted]);
}

#[test]
fn container_select_goes_to_the_selected_child_only() {
    let mut column = three_bars();
    column.hover(true);
    column.next(Axis::Vertical);
    assert_eq!(column.select(true), SelectResponse::Nothing);
    assert_eq!(states(&column), [SelectState::Idle, SelectState::Selected, SelectState::Idle]);
    assert_eq!(column.select(false), SelectResponse::Nothing);
    assert_eq!(states(&column), [SelectState::Idle, SelectState::Idle, SelectState::Idle]);
}

#[test]
fn container_hover_goes_to_the_selected_child_only() {
    let mut column = three_bars();
    column.hover(true);
    assert_eq!(states(&column), [SelectState::Highlighted, SelectState::Idle, SelectState::Idle]);
    column.hover(false);
    assert_eq!(states(&column), [SelectState::Idle, SelectState::Idle, SelectState::Idle]);
}

#[test]
fn nested_container_passes_sibling_upwards() {
    let inner = Container::<Filters>::with_items(
        vec![Node::SearchBar(SearchBar::new("a")), Node::SearchBar(SearchBar::new("b"))],
        Axis::Vertical,
    );
    let mut row = Container::<SearchMain>::with_items(
        vec![Node::Filters(inner), Node::Results(SearchResults::new(0))],
        Axis::Horizontal,
    );
    row.hover(true);
    assert_eq!(row.next(Axis::Vertical), MoveResponse::Consumed);
    assert_eq!(row.selected, 0);
    assert_eq!(row.next(Axis::Vertical), MoveResponse::Sibling);
    assert_eq!(row.selected, 0);
    assert_eq!(row.next(Axis::Horizontal), MoveResponse::Consumed);
    assert_eq!(row.selected, 1);
    assert_eq!(states(&row), [SelectState::Idle, SelectState::Highlighted]);
    match &row.children[0] {
        Node::Filters(inner) => {
            assert_eq!(inner.selected, 1);
            assert_eq!(states(inner), [SelectState::Idle, SelectState::Idle]);
        },
        _ => unreachable!(),
    }
    assert_eq!(row.previous(Axis::Horizontal), MoveResponse::Consumed);
    assert_eq!(row.selected, 0);
    match &row.children[0] {
        Node::Filters(inner) => {
            assert_eq!(states(inner), [SelectState::Idle, SelectState::Highlighted]);
        },
        _ => unreachable!(),
    }
}

#[test]
fn validity_asks_for_a_child_at_the_selected_index() {
    let empty = Container::<Filters>::with_items(Vec::new(), Axis::Vertical);
    assert!(!empty.is_valid());
    let mut column = three_bars();
    assert!(column.is_valid());
    column.selected = 3;
    assert!(!column.is_valid());
    column.selected = 2;
    assert!(column.is_valid());
    let outer = Container::<SearchMain>::with_items(
        vec![Node::SearchBar(SearchBar::new("a")), Node::Filters(empty)],
        Axis::Horizontal,
    );
    assert!(!outer.is_valid());
    assert!(Node::SearchBar(SearchBar::new("a")).is_valid());
    assert!(!Node::Main(outer).is_valid());
}

#[test]
fn resize_reaches_every_result_list() {
    let inner = Container::<Filters>::with_items(
        vec![Node::Results(SearchResults::new(1)), Node::Level(Level::new("Level"))],
        Axis::Vertical,
    );
    let mut row = Container::<SearchMain>::with_items(
        vec![Node::Filters(inner), Node::Results(SearchResults::new(2))],
        Axis::Horizontal,
    );
    assert!(!row.counts(1));
    assert!(!row.counts(2));
    row.resize(9);
    assert!(row.counts(9));
    assert!(!row.counts(2));
    match &row.children[1] {
        Node::Results(results) => assert_eq!(results.len, 9),
        _ => unreachable!(),
    }
    match &row.children[0] {
        Node::Filters(inner) => match &inner.children[0] {
            Node::Results(results) => assert_eq!(results.len, 9),
            _ => unreachable!(),
        },
        _ => unreachable!(),
    }
    assert_eq!(row.selected, 0);
    assert_eq!(row.direction, Axis::Horizontal);
    let mut leaf = Node::Level(Level::new("Level"));
    leaf.resize(4);
    assert!(leaf.counts(0));
    assert!(leaf.counts(4));
}

#[test]
fn node_forwards_every_request() {
    let mut node = Node::Level(Level::new("Level"));
    node.hover(true);
    assert_eq!(node.next(Axis::Vertical), MoveResponse::Sibling);
    assert_eq!(node.select(true), SelectResponse::Nothing);
    assert_eq!(node.next(Axis::Vertical), MoveResponse::Consumed);
    assert_eq!(node.next(Axis::Vertical), MoveResponse::Consumed);
    assert_eq!(node.previous(Axis::Vertical), MoveResponse::Consumed);
    assert_eq!(
        node.select(true),
        SelectResponse::Number { name: "Level".to_string(), value: 1 }
    );
}

#[test]
fn level_zero_is_any_level() {
    let mut level = open_level();
    assert!(level.is_any());
    level.next(Axis::Vertical);
    assert!(!level.is_any());
    assert_eq!(level.level, 1);
    for _ in 0..25 {
        level.next(Axis::Vertical);
    }
    assert!(!level.is_any());
    assert_eq!(level.level, 20);
    for _ in 0..25 {
        level.previous(Axis::Vertical);
    }
    assert!(level.is_any());
    level.level = -3;
    assert!(level.is_any());
}

#[test]
fn card_is_the_record_under_the_cursor_once_opened() {
    let mut results = SearchResults::new(3);
    assert_eq!(results.card(), None);
    results.hover(true);
    results.select(true);
    results.next(Axis::Vertical);
    results.next(Axis::Vertical);
    assert_eq!(results.state.selected(), Some(1));
    assert_eq!(results.card(), None);
    results.select(true);
    assert!(results.item_view);
    assert_eq!(results.card(), Some(1));
    results.next(Axis::Vertical);
    assert_eq!(results.card(), Some(2));
    results.select(false);
    assert_eq!(results.card(), None);
}

#[test]
fn card_is_closed_without_a_cursor_or_behind_the_results() {
    let mut results = SearchResults::new(3);
    results.select(true);
    results.select(true);
    assert!(results.item_view);
    assert_eq!(results.card(), None);
    results.state.select(Some(2));
    assert_eq!(results.card(), Some(2));
    results.resize(2);
    assert_eq!(results.card(), None);
    results.resize(0);
    assert_eq!(results.card(), None);
    results.state.select(Some(0));
    assert_eq!(results.card(), None);
    results.resize(1);
    assert_eq!(results.card(), Some(0));
}
