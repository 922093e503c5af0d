use crate::components::{BHoverState, BMouseOverState, BPressState};
use crate::events::{edges_of, emitted, BHoverEvent, BMouseOverEvent, BPressEvent};
use crate::interaction::{Interaction, InteractionKind};
use bevy::ecs::entity::Entity;
use vstd::prelude::*;

verus! {

/// The transition pass of the press kind: one tick for every row of the query,
/// a row being an element's raw signal and its press state. Signals are only
/// read.
pub fn update_press_state(query: &mut Vec<(Interaction, BPressState)>)
    ensures
        final(query)@.len() == old(query)@.len(),
        forall|i: int|
            0 <= i < old(query)@.len() ==> {
                &&& (#[trigger] final(query)@[i]).0 == old(query)@[i].0
                &&& final(query)@[i].1@ == old(query)@[i].1@.advance(
                    InteractionKind::Press.active_on(old(query)@[i].0),
                )
                &&& final(query)@[i].1@.well_formed()
            },
{
    let mut index: usize = 0;
    while index < query.len()
        invariant
            index <= query@.len(),
            query@.len() == old(query)@.len(),
            forall|i: int|
                0 <= i < index ==> {
                    &&& (#[trigger] query@[i]).0 == old(query)@[i].0
                    &&& query@[i].1@ == old(query)@[i].1@.advance(
                        InteractionKind::Press.active_on(old(query)@[i].0),
                    )
                },
            forall|i: int| index <= i < query@.len() ==> query@[i] == old(query)@[i],
        decreases query@.len() - index,
    {
        let row = &mut query[index];
        row.1.update(row.0);
        index += 1;
    }
}

/// The transition pass of the hover kind: one tick for every row of the query,
/// a row being an element's raw signal and its hover state. Signals are only
/// read.
pub fn update_hover_state(query: &mut Vec<(Interaction, BHoverState)>)
    ensures
        final(query)@.len() == old(query)@.len(),
        forall|i: int|
            0 <= i < old(query)@.len() ==> {
                &&& (#[trigger] final(query)@[i]).0 == old(query)@[i].0
                &&& final(query)@[i].1@ == old(query)@[i].1@.advance(
                    InteractionKind::Hover.active_on(old(query)@[i].0),
                )
                &&& final(query)@[i].1@.well_formed()
            },
{
    let mut index: usize = 0;
    while index < query.len()
        invariant
            index <= query@.len(),
            query@.len() == old(query)@.len(),
            forall|i: int|
                0 <= i < index ==> {
                    &&& (#[trigger] query@[i]).0 == old(query)@[i].0
                    &&& query@[i].1@ == old(query)@[i].1@.advance(
                        InteractionKind::Hover.active_on(old(query)@[i].0),
                    )
                },
            forall|i: int| index <= i < query@.len() ==> query@[i] == old(query)@[i],
        decreases query@.len() - index,
    {
        let row = &mut query[index];
        row.1.update(row.0);
        index += 1;
    }
}

/// The transition pass of the mouse-over kind: one tick for every row of the query,
/// a row being an element's raw signal and its mouse-over state. Signals are only
/// read.
pub fn update_mouse_over_state(query: &mut Vec<(Interaction, BMouseOverState)>)
    ensures
        final(query)@.len() == old(query)@.len(),
        forall|i: int|
            0 <= i < old(query)@.len() ==> {
                &&& (#[trigger] final(query)@[i]).0 == old(query)@[i].0
                &&& final(query)@[i].1@ == old(query)@[i].1@.advance(
                    InteractionKind::MouseOver.active_on(old(query)@[i].0),
                )
                &&& final(query)@[i].1@.well_formed()
            },
{
    let mut index: usize = 0;
    while index < query.len()
        invariant
            index <= query@.len(),
            query@.len() == old(query)@.len(),
            forall|i: int|
                0 <= i < index ==> {
                    &&& (#[trigger] query@[i]).0 == old(query)@[i].0
                    &&& query@[i].1@ == old(query)@[i].1@.advance(
                        InteractionKind::MouseOver.active_on(old(query)@[i].0),
                    )
                },
            forall|i: int| index <= i < query@.len() ==> query@[i] == old(query)@[i],
        decreases query@.len() - index,
    {
        let row = &mut query[index];
        row.1.update(row.0);
        index += 1;
    }
}

/// The emission pass of the press kind: appends to the event queue, row by row,
/// the event for each flag that is set, entry before exit. A row is an element's
/// handle and its press state; the states are only read.
pub fn generate_press_events(
    query: &Vec<(Entity, BPressState)>,
    event_writer: &mut Vec<BPressEvent>,
)
    ensures
        final(event_writer)@ == old(event_writer)@ + BPressEvent::from_edges(emitted(query@)),
{
    let mut index: usize = 0;
    while index < query.len()
        invariant
            index <= query@.len(),
            event_writer@ == old(event_writer)@ + BPressEvent::from_edges(
                emitted(query@.take(index as int)),
            ),
        decreases query@.len() - index,
    {
        let entity = query[index].0;
        let press_state = &query[index].1;
        if press_state.just_entered {
            event_writer.push(BPressEvent::JustEntered { entity });
        }
        if press_state.just_exited {
            event_writer.push(BPressEvent::JustExited { entity });
        }
        proof {
            let done = query@.take(index as int);
            let next = query@.take(index + 1);
            assert(next.drop_last() == done);
            assert(BPressEvent::from_edges(emitted(next)) == BPressEvent::from_edges(emitted(done))
                + BPressEvent::from_edges(edges_of(entity, press_state@)));
        }
        index += 1;
    }
    assert(query@.take(index as int) == query@);
}

/// The emission pass of the hover kind: appends to the event queue, row by row,
/// the event for each flag that is set, entry before exit. A row is an element's
/// handle and its hover state; the states are only read.
pub fn generate_hover_events(
    query: &Vec<(Entity, BHoverState)>,
    event_writer: &mut Vec<BHoverEvent>,
)
    ensures
        final(event_writer)@ == old(event_writer)@ + BHoverEvent::from_edges(emitted(query@)),
{
    let mut index: usize = 0;
    while index < query.len()
        invariant
            index <= query@.len(),
            event_writer@ == old(event_writer)@ + BHoverEvent::from_edges(
                emitted(query@.take(index as int)),
            ),
        decreases query@.len() - index,
    {
        let entity = query[index].0;
        let hover_state = &query[index].1;
        if hover_state.just_entered {
            event_writer.push(BHoverEvent::JustEntered { entity });
        }
        if hover_state.just_exited {
            event_writer.push(BHoverEvent::JustExited { entity });
        }
        proof {
            let done = query@.take(index as int);
            let next = query@.take(index + 1);
            assert(next.drop_last() == done);
            assert(BHoverEvent::from_edges(emitted(next)) == BHoverEvent::from_edges(emitted(done))
                + BHoverEvent::from_edges(edges_of(entity, hover_state@)));
        }
        index += 1;
    }
    assert(query@.take(index as int) == query@);
}

/// The emission pass of the mouse-over kind: appends to the event queue, row by row,
/// the event for each flag that is set, entry before exit. A row is an element's
/// handle and its mouse-over state; the states are only read.
pub fn generate_mouse_over_events(
    query: &Vec<(Entity, BMouseOverState)>,
    event_writer: &mut Vec<BMouseOverEvent>,
)
    ensures
        final(event_writer)@ == old(event_writer)@ + BMouseOverEvent::from_edges(emitted(query@)),
{
    let mut index: usize = 0;
    while index < query.len()
        invariant
            index <= query@.len(),
            event_writer@ == old(event_writer)@ + BMouseOverEvent::from_edges(
                emitted(query@.take(index as int)),
            ),
        decreases query@.len() - index,
    {
        let entity = query[index].0;
        let mouse_over_state = &query[index].1;
        if mouse_over_state.just_entered {
            event_writer.push(BMouseOverEvent::JustEntered { entity });
        }
        if mouse_over_state.just_exited {
            event_writer.push(BMouseOverEvent::JustExited { entity });
        }
        proof {
            let done = query@.take(index as int);
            let next = query@.take(index + 1);
            assert(next.drop_last() == done);
            assert(BMouseOverEvent::from_edges(emitted(next)) == BMouseOverEvent::from_edges(emitted(done))
                + BMouseOverEvent::from_edges(edges_of(entity, mouse_over_state@)));
        }
        index += 1;
    }
    assert(query@.take(index as int) == query@);
}

} // verus!
