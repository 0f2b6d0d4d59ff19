//! Which callbacks the nodes of a window have, and which of them a click or a move calls.
use crate::platform::Platform;
use std::collections::BTreeMap;
use vstd::prelude::*;

verus! {

/// Whether a callback wants the screen to be drawn again.
#[derive(Clone, Copy, Debug, PartialEq, Eq, Structural)]
pub enum UpdateScreen {
    /// Draw the screen again.
    Redraw,
    /// Leave the screen as it is.
    DontRedraw,
}

/// What the layout of a window produced.
pub struct UiState<P: Platform> {
    /// The nodes.
    pub dom: P::Dom,
    /// For each tag of a node, the IDs of the callbacks of that node, in the order of the events
    /// that they are registered for.
    pub node_ids_to_callbacks_list: BTreeMap<u64, Vec<u64>>,
    /// The callbacks, by their ID.
    pub callback_list: BTreeMap<u64, P::Callback>,
}

/// A node under the cursor: its tag, and the bits of the point in the viewport where it was hit.
#[derive(Clone, Copy, Debug, PartialEq, Eq)]
pub struct HitTestItem {
    pub tag: u64,
    pub point_in_viewport: (u32, u32),
}

/// What a callback is told about the event that it is called for.
#[derive(Clone, Copy, Debug, PartialEq, Eq)]
pub struct WindowEvent {
    /// The window that the event happened in.
    pub window: usize,
    /// How many siblings come before the node that was hit, where that is known.
    pub number_of_previous_siblings: Option<usize>,
    /// The bits of the position of the cursor, relative to the node.
    pub cursor_relative_to_item: (u32, u32),
    /// The bits of the position of the cursor in the viewport.
    pub cursor_in_viewport: (u32, u32),
}

/// A callback that is to be called.
#[derive(Clone, Copy, Debug, PartialEq, Eq)]
pub struct CallbackCall {
    pub callback_id: u64,
    pub window_event: WindowEvent,
}

/// What the callbacks of a node that was hit are told.
pub open spec fn event_of(window: usize, item: HitTestItem) -> WindowEvent {
    WindowEvent {
        window,
        number_of_previous_siblings: None,
        cursor_relative_to_item: item.point_in_viewport,
        cursor_in_viewport: item.point_in_viewport,
    }
}

/// The IDs of the callbacks of a node; none where the tag is unknown.
pub open spec fn callbacks_of<P: Platform>(ui_state: UiState<P>, tag: u64) -> Seq<u64> {
    if ui_state.node_ids_to_callbacks_list@.contains_key(tag) {
        ui_state.node_ids_to_callbacks_list@[tag]@
    } else {
        Seq::empty()
    }
}

/// The calls for one node that was hit: all its callbacks, in order.
pub open spec fn calls_of<P: Platform>(
    ui_state: UiState<P>,
    window: usize,
    item: HitTestItem,
) -> Seq<CallbackCall> {
    callbacks_of(ui_state, item.tag).map_values(
        |id: u64| CallbackCall { callback_id: id, window_event: event_of(window, item) },
    )
}

/// The calls for all nodes that were hit: node after node, from front to back.
pub open spec fn planned_calls<P: Platform>(
    ui_state: UiState<P>,
    window: usize,
    items: Seq<HitTestItem>,
) -> Seq<CallbackCall>
    decreases items.len(),
{
    if items.len() == 0 {
        Seq::empty()
    } else {
        planned_calls(ui_state, window, items.drop_last()) + calls_of(
            ui_state,
            window,
            items.last(),
        )
    }
}

/// Lists the calls that a hit test leads to.
pub fn plan_calls<P: Platform>(
    ui_state: &UiState<P>,
    window: usize,
    items: &Vec<HitTestItem>,
) -> (calls: Vec<CallbackCall>)
    ensures
        calls@ == planned_calls(*ui_state, window, items@),
{
    broadcast use vstd::std_specs::btree::group_btree_axioms;

    let mut calls: Vec<CallbackCall> = Vec::new();
    let mut i: usize = 0;
    assert(items@.take(0) =~= Seq::<HitTestItem>::empty());
    while i < items.len()
        invariant
            i <= items@.len(),
            calls@ == planned_calls(*ui_state, window, items@.take(i as int)),
        decreases items@.len() - i,
    {
        let item = items[i];
        let ghost before = calls@;
        let ghost of_item = calls_of(*ui_state, window, item);
        assert(items@.take(i + 1).drop_last() =~= items@.take(i as int));
        if let Some(callback_list) = ui_state.node_ids_to_callbacks_list.get(&item.tag) {
            let window_event = WindowEvent {
                window,
                number_of_previous_siblings: None,
                cursor_relative_to_item: item.point_in_viewport,
                cursor_in_viewport: item.point_in_viewport,
            };
            let mut j: usize = 0;
            assert(of_item.take(0) =~= Seq::<CallbackCall>::empty());
            assert(before + of_item.take(0) =~= before);
            while j < callback_list.len()
                invariant
                    j <= callback_list@.len(),
                    callback_list@ == callbacks_of(*ui_state, item.tag),
                    window_event == event_of(window, item),
                    of_item == calls_of(*ui_state, window, item),
                    calls@ == before + of_item.take(j as int),
                decreases callback_list@.len() - j,
            {
                calls.push(CallbackCall { callback_id: callback_list[j], window_event });
                assert(calls@ =~= before + of_item.take(j + 1));
                j = j + 1;
            }
            assert(of_item.take(j as int) =~= of_item);
        } else {
            assert(before + of_item =~= before);
        }
        i = i + 1;
    }
    assert(items@.take(i as int) =~= items@);
    calls
}

/// Whether every call is for a callback that the window has.
pub open spec fn calls_known<P: Platform>(ui_state: UiState<P>, calls: Seq<CallbackCall>) -> bool {
    forall|i: int|
        0 <= i < calls.len() ==> ui_state.callback_list@.contains_key(
            (#[trigger] calls[i]).callback_id,
        )
}

/// Checks that every call is for a callback that the window has.
pub fn knows_calls<P: Platform>(ui_state: &UiState<P>, calls: &Vec<CallbackCall>) -> (known: bool)
    ensures
        known == calls_known(*ui_state, calls@),
{
    broadcast use vstd::std_specs::btree::group_btree_axioms;

    let mut i: usize = 0;
    while i < calls.len()
        invariant
            i <= calls@.len(),
            forall|j: int|
                0 <= j < i ==> ui_state.callback_list@.contains_key(
                    (#[trigger] calls@[j]).callback_id,
                ),
        decreases calls@.len() - i,
    {
        if !ui_state.callback_list.contains_key(&calls[i].callback_id) {
            return false;
        }
        i = i + 1;
    }
    true
}

/// A hit test calls exactly the callbacks of the nodes that were hit: every callback of every such
/// node is called with the point at which that node was hit, and no other call is made.
pub proof fn law_exactly_the_callbacks_of_hit_nodes_are_called<P: Platform>(
    ui_state: UiState<P>,
    window: usize,
    items: Seq<HitTestItem>,
    call: CallbackCall,
)
    ensures
        planned_calls(ui_state, window, items).contains(call) <==> exists|k: int|
            0 <= k < items.len() && callbacks_of(ui_state, (#[trigger] items[k]).tag).contains(
                call.callback_id,
            ) && call.window_event == event_of(window, items[k]),
    decreases items.len(),
{
    let calls = planned_calls(ui_state, window, items);
    if items.len() > 0 {
        let front = items.drop_last();
        let last = items.last();
        let before = planned_calls(ui_state, window, front);
        let of_last = calls_of(ui_state, window, last);
        let ids = callbacks_of(ui_state, last.tag);
        law_exactly_the_callbacks_of_hit_nodes_are_called(ui_state, window, front, call);
        assert(items[items.len() - 1] == last);
        if calls.contains(call) {
            let j = choose|j: int| 0 <= j < calls.len() && calls[j] == call;
            if j < before.len() {
                assert(before[j] == call);
                let k = choose|k: int|
                    0 <= k < front.len() && callbacks_of(
                        ui_state,
                        (#[trigger] front[k]).tag,
                    ).contains(call.callback_id) && call.window_event == event_of(window, front[k]);
                assert(items[k] == front[k]);
            } else {
                assert(of_last[j - before.len()] == call);
                assert(ids[j - before.len()] == call.callback_id);
            }
        }
        if exists|k: int|
            0 <= k < items.len() && callbacks_of(ui_state, (#[trigger] items[k]).tag).contains(
                call.callback_id,
            ) && call.window_event == event_of(window, items[k]) {
            let k = choose|k: int|
                0 <= k < items.len() && callbacks_of(ui_state, (#[trigger] items[k]).tag).contains(
                    call.callback_id,
                ) && call.window_event == event_of(window, items[k]);
            if k < front.len() {
                assert(front[k] == items[k]);
                let j = choose|j: int| 0 <= j < before.len() && before[j] == call;
                assert(calls[j] == call);
            } else {
                let j = choose|j: int| 0 <= j < ids.len() && ids[j] == call.callback_id;
                assert(of_last[j] == call);
                assert(calls[before.len() + j] == call);
            }
        }
    }
}

/// Nodes that were hit one after the other have their callbacks called one after the other.
pub proof fn law_hit_nodes_are_served_in_order<P: Platform>(
    ui_state: UiState<P>,
    window: usize,
    front: Seq<HitTestItem>,
    back: Seq<HitTestItem>,
)
    ensures
        planned_calls(ui_state, window, front + back) == planned_calls(ui_state, window, front)
            + planned_calls(ui_state, window, back),
    decreases back.len(),
{
    if back.len() == 0 {
        assert(front + back =~= front);
        assert(planned_calls(ui_state, window, front + back) =~= planned_calls(
            ui_state,
            window,
            front,
        ) + planned_calls(ui_state, window, back));
    } else {
        assert((front + back).drop_last() =~= front + back.drop_last());
        law_hit_nodes_are_served_in_order(ui_state, window, front, back.drop_last());
        assert(planned_calls(ui_state, window, front + back) =~= planned_calls(
            ui_state,
            window,
            front,
        ) + planned_calls(ui_state, window, back));
    }
}

/// The calls for one node that was hit: one call for each of its callbacks, in their order, told
/// that window and that point. A node without callbacks leads to no call, and no node to none.
pub proof fn law_the_calls_for_one_node<P: Platform>(
    ui_state: UiState<P>,
    window: usize,
    item: HitTestItem,
)
    ensures
        planned_calls(ui_state, window, Seq::<HitTestItem>::empty()).len() == 0,
        !ui_state.node_ids_to_callbacks_list@.contains_key(item.tag) ==> planned_calls(
            ui_state,
            window,
            seq![item],
        ).len() == 0,
        ui_state.node_ids_to_callbacks_list@.contains_key(item.tag) ==> {
            let ids = ui_state.node_ids_to_callbacks_list@[item.tag]@;
            let calls = planned_calls(ui_state, window, seq![item]);
            &&& calls.len() == ids.len()
            &&& forall|k: int|
                0 <= k < ids.len() ==> {
                    &&& (#[trigger] calls[k]).callback_id == ids[k]
                    &&& calls[k].window_event.window == window
                    &&& calls[k].window_event.number_of_previous_siblings is None
                    &&& calls[k].window_event.cursor_relative_to_item == item.point_in_viewport
                    &&& calls[k].window_event.cursor_in_viewport == item.point_in_viewport
                }
        },
{
    assert(seq![item].drop_last() =~= Seq::<HitTestItem>::empty());
    assert(planned_calls(ui_state, window, seq![item].drop_last()).len() == 0);
    assert(planned_calls(ui_state, window, seq![item]) =~= calls_of(ui_state, window, item));
}

/// Calls can be made exactly if the callback of each of them exists.
pub proof fn law_calls_are_known_one_by_one<P: Platform>(
    ui_state: UiState<P>,
    calls: Seq<CallbackCall>,
    call: CallbackCall,
)
    ensures
        calls_known(ui_state, Seq::<CallbackCall>::empty()),
        calls_known(ui_state, calls.push(call)) == (calls_known(ui_state, calls)
            && ui_state.callback_list@.contains_key(call.callback_id)),
{
    let more = calls.push(call);
    assert(more[calls.len() as int] == call);
    assert(forall|i: int| 0 <= i < calls.len() ==> #[trigger] calls[i] == more[i]);
}

} // verus!
