//! The laws of the component tree, proved of its mathematical model.
//!
//! The executable nodes are specified to behave exactly as the model's
//! transition functions do, so each law holds of the executable tree as
//! well.

use vstd::prelude::*;
use crate::focus::{
    cursor_step, cursor_walk, ContainerView, LevelView, NodeView, Request, SearchResultsView,
    StatefulListView, MAX_LEVEL,
};
use crate::layout::Axis;

verus! {

/// A motion request keeps a tree well-formed and leaves the counts of its
/// result lists alone.
pub proof fn lemma_shift_keeps(node: NodeView, axis: Axis, forward: bool, len: nat)
    requires
        node.wf(),
    ensures
        node.shift(axis, forward).0.wf(),
        node.shows(len) ==> node.shift(axis, forward).0.shows(len),
    decreases node,
{
    if let NodeView::Group(c) = node {
        let asked = c.children[c.selected as int].shift(axis, forward);
        let after = c.shift(axis, forward).0;
        lemma_shift_keeps(c.children[c.selected as int], axis, forward, len);
        lemma_hover_keeps(asked.0, false, len);
        if let Some(to) = c.neighbour(forward) {
            lemma_hover_keeps(c.children[to as int], true, len);
        }
        assert forall|i: int| 0 <= i < after.children.len() implies (#[trigger] after.children[i]).wf() by {
            assert(c.children[i].wf());
        }
        if c.shows(len) {
            assert forall|i: int| 0 <= i < after.children.len() implies (#[trigger] after.children[i]).shows(len) by {
                assert(c.children[i].shows(len));
            }
        }
    }
}

/// A hover request keeps a tree well-formed and leaves the counts of its
/// result lists alone.
pub proof fn lemma_hover_keeps(node: NodeView, activate: bool, len: nat)
    requires
        node.wf(),
    ensures
        node.hover(activate).wf(),
        node.shows(len) ==> node.hover(activate).shows(len),
    decreases node,
{
    if let NodeView::Group(c) = node {
        let after = c.hover(activate);
        lemma_hover_keeps(c.children[c.selected as int], activate, len);
        assert forall|i: int| 0 <= i < after.children.len() implies (#[trigger] after.children[i]).wf() by {
            assert(c.children[i].wf());
        }
        if c.shows(len) {
            assert forall|i: int| 0 <= i < after.children.len() implies (#[trigger] after.children[i]).shows(len) by {
                assert(c.children[i].shows(len));
            }
        }
    }
}

/// A select request keeps a tree well-formed and leaves the counts of its
/// result lists alone.
pub proof fn lemma_select_keeps(node: NodeView, activate: bool, len: nat)
    requires
        node.wf(),
    ensures
        node.select(activate).0.wf(),
        node.shows(len) ==> node.select(activate).0.shows(len),
    decreases node,
{
    if let NodeView::Group(c) = node {
        let after = c.select(activate).0;
        lemma_select_keeps(c.children[c.selected as int], activate, len);
        assert forall|i: int| 0 <= i < after.children.len() implies (#[trigger] after.children[i]).wf() by {
            assert(c.children[i].wf());
        }
        if c.shows(len) {
            assert forall|i: int| 0 <= i < after.children.len() implies (#[trigger] after.children[i]).shows(len) by {
                assert(c.children[i].shows(len));
            }
        }
    }
}

/// Telling a tree the size of the result set keeps it well-formed, and
/// afterwards every result list in it counts that many records.
pub proof fn lemma_resized(node: NodeView, len: nat)
    ensures
        node.resized(len).shows(len),
        node.wf() ==> node.resized(len).wf(),
    decreases node,
{
    if let NodeView::Group(c) = node {
        let after = c.resized(len);
        assert forall|i: int| 0 <= i < after.children.len() implies (#[trigger] after.children[i]).shows(len) by {
            lemma_resized(c.children[i], len);
        }
        if c.wf() {
            assert forall|i: int| 0 <= i < after.children.len() implies (#[trigger] after.children[i]).wf() by {
                lemma_resized(c.children[i], len);
            }
        }
    }
}

/// Telling a tree the size of the result set moves no focus: what was idle,
/// settled or focused before is so afterwards, and nothing else is.
pub proof fn lemma_resized_keeps_focus(node: NodeView, len: nat)
    ensures
        node.resized(len).idle() == node.idle(),
        node.resized(len).settled() == node.settled(),
        node.resized(len).focused() == node.focused(),
    decreases node,
{
    if let NodeView::Group(c) = node {
        let after = c.resized(len);
        assert forall|i: int| 0 <= i < c.children.len() implies {
            &&& (#[trigger] after.children[i]).idle() == c.children[i].idle()
            &&& after.children[i].settled() == c.children[i].settled()
            &&& after.children[i].focused() == c.children[i].focused()
        } by {
            lemma_resized_keeps_focus(c.children[i], len);
        }
        assert(after.idle() == c.idle()) by {
            if c.idle() {
                assert forall|i: int| 0 <= i < after.children.len() implies (#[trigger] after.children[i]).idle() by {
                    assert(c.children[i].idle());
                }
            }
            if after.idle() {
                assert forall|i: int| 0 <= i < c.children.len() implies (#[trigger] c.children[i]).idle() by {
                    assert(after.children[i].idle());
                }
            }
        }
        assert(after.siblings_idle() == c.siblings_idle()) by {
            if c.siblings_idle() {
                assert forall|i: int|
                    0 <= i < after.children.len() && i != after.selected implies (#[trigger] after.children[i]).idle() by {
                    assert(c.children[i].idle());
                }
            }
            if after.siblings_idle() {
                assert forall|i: int| 0 <= i < c.children.len() && i != c.selected implies (#[trigger] c.children[i]).idle() by {
                    assert(after.children[i].idle());
                }
            }
        }
    }
}

/// Deactivating emits no event.
pub proof fn lemma_deselect_is_silent(node: NodeView)
    ensures
        node.select(false).1 is Nothing,
    decreases node,
{
    if let NodeView::Group(c) = node {
        if c.selected < c.children.len() {
            lemma_deselect_is_silent(c.children[c.selected as int]);
        }
    }
}

/// A tree that holds the focus, or holds none at all, has nothing beside
/// its focus path.
pub proof fn lemma_settled(node: NodeView)
    requires
        node.wf(),
        node.focused() || node.idle(),
    ensures
        node.settled(),
    decreases node,
{
    if let NodeView::Group(c) = node {
        assert(c.children[c.selected as int].wf());
        lemma_settled(c.children[c.selected as int]);
    }
}

/// Laying the highlight on a tree with nothing beside its focus path gives
/// it the focus; taking the highlight away leaves it idle.
pub proof fn law_hover(node: NodeView, activate: bool)
    requires
        node.wf(),
        node.settled(),
    ensures
        activate ==> node.hover(activate).focused(),
        !activate ==> node.hover(activate).idle(),
    decreases node,
{
    if let NodeView::Group(c) = node {
        assert(c.children[c.selected as int].wf());
        law_hover(c.children[c.selected as int], activate);
        let after = c.hover(activate);
        assert forall|i: int|
            0 <= i < after.children.len() && i != after.selected implies (#[trigger] after.children[i]).idle() by {
            assert(c.children[i].idle());
        }
        if !activate {
            assert forall|i: int| 0 <= i < after.children.len() implies (#[trigger] after.children[i]).idle() by {
                if i != c.selected {
                    assert(c.children[i].idle());
                }
            }
        }
    }
}

/// A motion request never lights a second node: a tree with nothing
/// beside its focus path stays so, and a tree that holds the focus keeps
/// it, on the same leaf or on a neighbour.
pub proof fn law_shift(node: NodeView, axis: Axis, forward: bool)
    requires
        node.wf(),
        node.settled(),
    ensures
        node.shift(axis, forward).0.settled(),
        node.focused() ==> node.shift(axis, forward).0.focused(),
    decreases node,
{
    if let NodeView::Group(c) = node {
        let child = c.children[c.selected as int];
        let asked = child.shift(axis, forward);
        let after = c.shift(axis, forward).0;
        assert(child.wf());
        law_shift(child, axis, forward);
        lemma_shift_keeps(child, axis, forward, 0);
        if c.direction == axis && asked.1 is Sibling && c.neighbour(forward) is Some {
            let to = c.neighbour(forward).unwrap();
            law_hover(asked.0, false);
            assert(c.children[to as int].wf());
            assert(c.children[to as int].idle());
            lemma_settled(c.children[to as int]);
            law_hover(c.children[to as int], true);
            assert forall|i: int|
                0 <= i < after.children.len() && i != after.selected implies (#[trigger] after.children[i]).idle() by {
                if i != c.selected {
                    assert(c.children[i].idle());
                }
            }
            assert(after.children[after.selected as int].focused());
            lemma_hover_keeps(c.children[to as int], true, 0);
            lemma_settled(after.children[after.selected as int]);
        } else {
            assert forall|i: int|
                0 <= i < after.children.len() && i != after.selected implies (#[trigger] after.children[i]).idle() by {
                assert(c.children[i].idle());
            }
        }
    }
}

/// Deactivating leaves a tree idle. Activating gives it the focus, unless
/// the activation confirms the level of an open stepper, which drops the
/// focus; either way nothing beside the focus path is lit.
pub proof fn law_select(node: NodeView, activate: bool)
    requires
        node.wf(),
        node.settled(),
    ensures
        node.select(activate).0.settled(),
        !activate ==> node.select(activate).0.idle(),
        activate && !node.confirms_level() ==> node.select(activate).0.focused(),
    decreases node,
{
    if let NodeView::Group(c) = node {
        let child = c.children[c.selected as int];
        let after = c.select(activate).0;
        assert(child.wf());
        law_select(child, activate);
        assert forall|i: int|
            0 <= i < after.children.len() && i != after.selected implies (#[trigger] after.children[i]).idle() by {
            assert(c.children[i].idle());
        }
        if !activate {
            assert forall|i: int| 0 <= i < after.children.len() implies (#[trigger] after.children[i]).idle() by {
                if i != c.selected {
                    assert(c.children[i].idle());
                }
            }
        }
    }
}

/// A request keeps a tree well-formed and lights no second node.
pub proof fn lemma_request(node: NodeView, request: Request)
    requires
        node.wf(),
        node.settled(),
    ensures
        node.request(request).wf(),
        node.request(request).settled(),
        node.focused() && !node.releases(request) ==> node.request(request).focused(),
{
    match request {
        Request::Next(axis) => {
            lemma_shift_keeps(node, axis, true, 0);
            law_shift(node, axis, true);
        },
        Request::Previous(axis) => {
            lemma_shift_keeps(node, axis, false, 0);
            law_shift(node, axis, false);
        },
        Request::Hover(activate) => {
            lemma_hover_keeps(node, activate, 0);
            law_hover(node, activate);
            lemma_settled(node.hover(activate));
        },
        Request::Select(activate) => {
            lemma_select_keeps(node, activate, 0);
            law_select(node, activate);
        },
    }
}

/// The focus invariant. Take a well-formed tree in which no leaf is lit,
/// lay the highlight on its root, and send it any sequence of requests.
/// Then in every container on the focus path each child other than the
/// selected one is idle: no second node is ever lit.
pub proof fn law_focus_never_splits(root: NodeView, requests: Seq<Request>)
    requires
        root.wf(),
        root.idle(),
    ensures
        root.hover(true).run(requests).wf(),
        root.hover(true).run(requests).settled(),
    decreases requests.len(),
{
    lemma_settled(root);
    if requests.len() == 0 {
        lemma_hover_keeps(root, true, 0);
        law_hover(root, true);
        lemma_settled(root.hover(true));
    } else {
        law_focus_never_splits(root, requests.drop_last());
        lemma_request(root.hover(true).run(requests.drop_last()), requests.last());
    }
}

/// The focus invariant, in full. Take a well-formed tree in which no leaf
/// is lit, lay the highlight on its root, and send it a sequence of
/// requests none of which takes the focus away (no `hover(false)`, no
/// `select(false)`, no `select(true)` on an open level stepper). Then the
/// tree holds the focus: along the focus path, in every container exactly
/// the selected child is highlighted or selected and all its siblings are
/// idle.
pub proof fn law_focus_is_kept(root: NodeView, requests: Seq<Request>)
    requires
        root.wf(),
        root.idle(),
        root.hover(true).holds_focus(requests),
    ensures
        root.hover(true).run(requests).focused(),
    decreases requests.len(),
{
    lemma_settled(root);
    if requests.len() == 0 {
        law_hover(root, true);
    } else {
        let lit = root.hover(true);
        let front = requests.drop_last();
        assert forall|k: int| 0 <= k < front.len() implies !lit.run(
            #[trigger] front.take(k),
        ).releases(front[k]) by {
            assert(front.take(k) =~= requests.take(k));
        }
        law_focus_is_kept(root, front);
        law_focus_never_splits(root, front);
        assert(requests.take(requests.len() - 1) =~= front);
        lemma_request(lit.run(front), requests.last());
    }
}

/// Sibling hand-off. Take a well-formed container and a motion along its
/// axis that the selected child cannot consume. Where the child has a
/// neighbour in the direction of the motion, the container consumes the
/// motion: the neighbour becomes the selected child and receives the
/// highlight, the child that was selected loses it, and no other child
/// changes. Where there is no neighbour, the container answers `Sibling`
/// and its selection stays where it was.
pub proof fn law_hand_off(container: ContainerView, axis: Axis, forward: bool)
    requires
        container.wf(),
        container.direction == axis,
        container.children[container.selected as int].shift(axis, forward).1 is Sibling,
    ensures
        ({
            let from = container.selected as int;
            let asked = container.children[from].shift(axis, forward).0;
            let after = container.shift(axis, forward).0;
            let response = container.shift(axis, forward).1;
            match container.neighbour(forward) {
                Some(to) => {
                    &&& response is Consumed
                    &&& after.selected == to
                    &&& to == if forward {
                        from + 1
                    } else {
                        from - 1
                    }
                    &&& after.children.len() == container.children.len()
                    &&& after.children[to as int] == container.children[to as int].hover(true)
                    &&& after.children[from] == asked.hover(false)
                    &&& forall|i: int|
                        0 <= i < container.children.len() && i != from && i != to
                            ==> after.children[i] == container.children[i]
                },
                None => {
                    &&& response is Sibling
                    &&& after == container.with_selected_child(asked)
                    &&& if forward {
                        from == container.children.len() - 1
                    } else {
                        from == 0
                    }
                },
            }
        }),
{
}

/// A cursor inside a list stands, after at most `len` steps, as many places
/// further round the list.
proof fn lemma_cursor_walk(start: nat, len: nat, forward: bool, times: nat)
    requires
        start < len,
        times <= len,
    ensures
        forward ==> cursor_walk(Some(start), len, forward, times) == Some(
            if start + times < len {
                start + times
            } else {
                (start + times - len) as nat
            },
        ),
        !forward ==> cursor_walk(Some(start), len, forward, times) == Some(
            if times <= start {
                (start - times) as nat
            } else {
                (start + len - times) as nat
            },
        ),
    decreases times,
{
    if times > 0 {
        lemma_cursor_walk(start, len, forward, (times - 1) as nat);
    }
}

/// The wrap law of list cursors. A cursor inside a list of `len` values is
/// back where it started after `len` steps in one direction, and one step
/// backward from the first value leads to the last.
pub proof fn law_cursor_wraps(start: nat, len: nat, forward: bool)
    requires
        start < len,
    ensures
        cursor_walk(Some(start), len, forward, len) == Some(start),
        cursor_step(Some(0), len, false) == len - 1,
        cursor_step(Some((len - 1) as nat), len, true) == 0,
{
    lemma_cursor_walk(start, len, forward, len);
}

/// An open filter list moves nothing but its cursor on vertical motions.
proof fn lemma_list_walk(list: StatefulListView, forward: bool, times: nat)
    requires
        list.selected is Selected,
    ensures
        list.shift_times(Axis::Vertical, forward, times) == (StatefulListView {
            cursor: cursor_walk(list.cursor, list.items.len(), forward, times),
            ..list
        }),
    decreases times,
{
    if times > 0 {
        lemma_list_walk(list, forward, (times - 1) as nat);
    }
}

/// An open result list moves nothing but its cursor on vertical motions.
proof fn lemma_results_walk(list: SearchResultsView, forward: bool, times: nat)
    requires
        list.selected is Selected,
    ensures
        list.shift_times(Axis::Vertical, forward, times) == (SearchResultsView {
            cursor: cursor_walk(list.cursor, list.len, forward, times),
            ..list
        }),
    decreases times,
{
    if times > 0 {
        lemma_results_walk(list, forward, (times - 1) as nat);
    }
}

/// The wrap law of the filter list. An open list of `n` values whose cursor
/// points at one of them is unchanged after `n` calls of `next`, and after
/// `n` calls of `previous`; one `previous` from the first value leads to
/// the last.
pub proof fn law_list_wraps(list: StatefulListView, forward: bool)
    requires
        list.selected is Selected,
        list.cursor matches Some(i) && i < list.items.len(),
    ensures
        list.shift_times(Axis::Vertical, forward, list.items.len()) == list,
        list.cursor == Some(0nat) ==> list.shift(Axis::Vertical, false).0.cursor == Some(
            (list.items.len() - 1) as nat,
        ),
{
    lemma_list_walk(list, forward, list.items.len());
    law_cursor_wraps(list.cursor.unwrap(), list.items.len(), forward);
}

/// The wrap law of the result list: as [`law_list_wraps`], over the number
/// of records.
pub proof fn law_results_wrap(list: SearchResultsView, forward: bool)
    requires
        list.selected is Selected,
        list.cursor matches Some(i) && i < list.len,
    ensures
        list.shift_times(Axis::Vertical, forward, list.len) == list,
        list.cursor == Some(0nat) ==> list.shift(Axis::Vertical, false).0.cursor == Some(
            (list.len - 1) as nat,
        ),
{
    lemma_results_walk(list, forward, list.len);
    law_cursor_wraps(list.cursor.unwrap(), list.len, forward);
}

/// The clamp law of the level stepper. An open stepper that is sent `next`
/// any number of times counts up and stops at 20; sent `previous`, it
/// counts down and stops at 0. It never wraps, and nothing else in it
/// changes.
pub proof fn law_level_clamps(level: LevelView, axis: Axis, forward: bool, times: nat)
    requires
        level.selected is Selected,
    ensures
        forward ==> level.shift_times(axis, forward, times) == (LevelView {
            level: if level.level >= MAX_LEVEL {
                level.level
            } else if level.level + times <= MAX_LEVEL {
                level.level + times
            } else {
                MAX_LEVEL as int
            },
            ..level
        }),
        !forward ==> level.shift_times(axis, forward, times) == (LevelView {
            level: if level.level <= 0 {
                level.level
            } else if level.level - times >= 0 {
                level.level - times
            } else {
                0
            },
            ..level
        }),
    decreases times,
{
    if times > 0 {
        law_level_clamps(level, axis, forward, (times - 1) as nat);
    }
}

} // verus!
