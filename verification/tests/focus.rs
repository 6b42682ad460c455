use dnd_tui::components::{Container, Level, Node, SelectState};
use dnd_tui::layout::{Axis, ContainerLayout};
use dnd_tui::spell_search::{build_component_tree, SpellSearch};

fn names(list: &[&str]) -> Vec<String> {
    list.iter().map(|name| name.to_string()).collect()
}

fn page() -> SpellSearch<'static, u8> {
    build_component_tree(names(&["Bard", "Cleric", "Wizard"]), names(&["Evocation", "Illusion"]))
}

fn leaf_state(node: &Node) -> Option<SelectState> {
    match node {
        Node::SearchBar(bar) => Some(bar.selected),
        Node::Level(level) => Some(level.selected),
        Node::List(list) => Some(list.selected),
        Node::Results(results) => Some(results.selected),
        Node::Main(_) | Node::Filters(_) => None,
    }
}

fn lit_leaves(node: &Node) -> usize {
    match node {
        Node::Main(container) => container_lit(container),
        Node::Filters(container) => container_lit(container),
        leaf => {
            if leaf_state(leaf) == Some(SelectState::Idle) {
                0
            } else {
                1
            }
        },
    }
}

fn focused(node: &Node) -> bool {
    match node {
        Node::Main(container) => container_focused(container),
        Node::Filters(container) => container_focused(container),
        leaf => leaf_state(leaf) != Some(SelectState::Idle),
    }
}

fn container_focused<C: ContainerLayout>(container: &Container<C>) -> bool {
    container.selected < container.children.len()
        && container.children.iter().enumerate().all(|(i, child)| {
            if i == container.selected {
                focused(child)
            } else {
                lit_leaves(child) == 0
            }
        })
}

fn container_lit<C: ContainerLayout>(container: &Container<C>) -> usize {
    container.children.iter().map(lit_leaves).sum()
}

fn step(search: &mut SpellSearch<'static, u8>, request: u64) -> bool {
    match request % 8 {
        0 => {
            search.next(Axis::Vertical);
            true
        },
        1 => {
            search.next(Axis::Horizontal);
            true
        },
        2 => {
            search.previous(Axis::Vertical);
            true
        },
        3 => {
            search.previous(Axis::Horizontal);
            true
        },
        4 => {
            search.hover(true);
            true
        },
        5 => {
            search.select(true);
            true
        },
        6 => {
            search.hover(false);
            false
        },
        _ => {
            search.select(false);
            false
        },
    }
}

#[test]
fn fresh_tree_is_idle_and_hover_lights_the_search_bar() {
    let mut search = page();
    assert_eq!(container_lit(search.ui_components.as_ref().unwrap()), 0);
    search.hover(true);
    let tree = search.ui_components.as_ref().unwrap();
    assert!(container_focused(tree));
    assert_eq!(container_lit(tree), 1);
    assert_eq!(leaf_state(&tree.children[0]), Some(SelectState::Highlighted));
}

#[test]
fn no_second_node_is_ever_lit() {
    let mut seed: u64 = 0x2545_f491_4f6c_dd1d;
    for _ in 0..40 {
        let mut search = page();
        search.hover(true);
        for _ in 0..200 {
            seed = seed.wrapping_mul(6364136223846793005).wrapping_add(1442695040888963407);
            step(&mut search, seed >> 33);
            assert!(search.is_valid());
            let tree = search.ui_components.as_ref().unwrap();
            assert!(tree.is_valid());
            assert!(tree.is_settled());
            assert_eq!(tree.is_idle(), container_lit(tree) == 0);
            assert!(container_lit(tree) <= 1);
            assert!(container_lit(tree) == 0 || container_focused(tree));
        }
    }
}

#[test]
fn focus_is_kept_while_nothing_releases_it() {
    let mut seed: u64 = 0x9e37_79b9_7f4a_7c15;
    for _ in 0..40 {
        let mut search = page();
        search.hover(true);
        for _ in 0..200 {
            seed = seed.wrapping_mul(6364136223846793005).wrapping_add(1442695040888963407);
            let request = (seed >> 33) % 6;
            let confirms_level = {
                let tree = search.ui_components.as_ref().unwrap();
                path_ends_in_open_level(tree)
            };
            if request == 5 && confirms_level {
                continue;
            }
            step(&mut search, request);
            let tree = search.ui_components.as_ref().unwrap();
            assert!(container_focused(tree));
            assert_eq!(container_lit(tree), 1);
        }
    }
}

fn path_ends_in_open_level<C: ContainerLayout>(container: &Container<C>) -> bool {
    match &container.children[container.selected] {
        Node::Level(level) => level.selected == SelectState::Selected,
        Node::Main(inner) => path_ends_in_open_level(inner),
        Node::Filters(inner) => path_ends_in_open_level(inner),
        _ => false,
    }
}

#[test]
fn deactivating_leaves_the_tree_idle() {
    let mut search = page();
    search.hover(true);
    search.next(Axis::Vertical);
    search.select(true);
    search.select(false);
    assert_eq!(container_lit(search.ui_components.as_ref().unwrap()), 0);
    search.hover(true);
    assert!(container_focused(search.ui_components.as_ref().unwrap()));
    search.hover(false);
    assert_eq!(container_lit(search.ui_components.as_ref().unwrap()), 0);
}

#[test]
fn confirming_the_level_drops_the_focus_until_the_next_hand_off() {
    let mut search = page();
    search.hover(true);
    search.next(Axis::Vertical);
    search.next(Axis::Vertical);
    search.next(Axis::Vertical);
    search.select(true);
    search.next(Axis::Vertical);
    assert!(path_ends_in_open_level(search.ui_components.as_ref().unwrap()));
    assert!(search.select(true).is_some());
    assert_eq!(container_lit(search.ui_components.as_ref().unwrap()), 0);
    search.previous(Axis::Vertical);
    let tree = search.ui_components.as_ref().unwrap();
    assert!(container_focused(tree));
    assert_eq!(container_lit(tree), 1);
}

#[test]
fn settled_and_idle_checks_read_the_whole_tree() {
    let mut search = page();
    assert!(search.is_valid());
    {
        let tree = search.ui_components.as_ref().unwrap();
        assert!(tree.is_idle());
        assert!(tree.is_settled());
    }
    search.hover(true);
    {
        let tree = search.ui_components.as_ref().unwrap();
        assert!(!tree.is_idle());
        assert!(tree.is_settled());
    }
    // Light a leaf beside the focus path: the level stepper, while the
    // search bar holds the highlight.
    if let Node::Main(main) = &mut search.ui_components.as_mut().unwrap().children[1] {
        if let Node::Filters(filters) = &mut main.children[0] {
            if let Node::Level(level) = &mut filters.children[2] {
                level.selected = SelectState::Highlighted;
            }
            assert!(!filters.is_idle());
            assert!(!filters.is_settled());
        }
        assert!(!main.is_idle());
        assert!(!main.is_settled());
    }
    let tree = search.ui_components.as_ref().unwrap();
    assert!(!tree.is_settled());
    assert!(!tree.is_idle());
    assert_eq!(container_lit(tree), 2);
    assert!(!search.is_valid());
    assert!(Node::Level(Level::new("Level")).is_settled());
    assert!(Node::Level(Level::new("Level")).is_idle());
}
