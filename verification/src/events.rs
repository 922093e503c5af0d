use crate::record::StateRecord;
use bevy::ecs::entity::Entity;
use vstd::prelude::*;
use vstd::seq_lib::lemma_seq_concat_contains_all_elements;

verus! {

/// `bevy::ecs::entity::Entity`, the host's handle of an element. It is declared
/// without its fields: the passes carry a handle from a query row into an event and
/// never look inside, and nothing is assumed of what it holds.
#[verifier::external_type_specification]
#[verifier::external_body]
pub struct ExEntity(Entity);

/// An edge of one element's state record, whatever the interaction kind.
pub enum EdgeEvent {
    JustEntered { entity: Entity },
    JustExited { entity: Entity },
}

/// The edges that one element's record announces: entry before exit.
pub open spec fn edges_of(entity: Entity, record: StateRecord) -> Seq<EdgeEvent> {
    let entered = if record.just_entered {
        seq![EdgeEvent::JustEntered { entity }]
    } else {
        Seq::empty()
    };
    let exited = if record.just_exited {
        seq![EdgeEvent::JustExited { entity }]
    } else {
        Seq::empty()
    };
    entered + exited
}

/// The edges that an emission pass over `rows` announces, in the order of the rows.
pub open spec fn emitted<S: View<V = StateRecord>>(rows: Seq<(Entity, S)>) -> Seq<EdgeEvent>
    decreases rows.len(),
{
    if rows.len() == 0 {
        Seq::empty()
    } else {
        emitted(rows.drop_last()) + edges_of(rows.last().0, rows.last().1@)
    }
}

/// A pass announces that an element entered exactly if some row of that element has
/// `just_entered` set, and that it exited exactly if some row of it has
/// `just_exited` set.
pub proof fn lemma_emitted_iff_flag_set<S: View<V = StateRecord>>(
    rows: Seq<(Entity, S)>,
    entity: Entity,
)
    ensures
        emitted(rows).contains(EdgeEvent::JustEntered { entity }) <==> exists|i: int|
            0 <= i < rows.len() && (#[trigger] rows[i]).0 == entity && rows[i].1@.just_entered,
        emitted(rows).contains(EdgeEvent::JustExited { entity }) <==> exists|i: int|
            0 <= i < rows.len() && (#[trigger] rows[i]).0 == entity && rows[i].1@.just_exited,
    decreases rows.len(),
{
    if rows.len() > 0 {
        let rest = rows.drop_last();
        let row = rows.last();
        let announced = edges_of(row.0, row.1@);
        let entered = EdgeEvent::JustEntered { entity };
        let exited = EdgeEvent::JustExited { entity };
        lemma_emitted_iff_flag_set(rest, entity);
        lemma_seq_concat_contains_all_elements(emitted(rest), announced, entered);
        lemma_seq_concat_contains_all_elements(emitted(rest), announced, exited);
        assert(announced.contains(entered) <==> row.0 == entity && row.1@.just_entered) by {
            if row.0 == entity && row.1@.just_entered {
                assert(announced[0] == entered);
            }
        }
        assert(announced.contains(exited) <==> row.0 == entity && row.1@.just_exited) by {
            if row.0 == entity && row.1@.just_exited {
                assert(announced.last() == exited);
            }
        }
        assert(forall|i: int| 0 <= i < rest.len() ==> rest[i] == rows[i]);
        assert(rows[rows.len() - 1] == row);
    }
}

/// Where every element has one row and no record has both flags set, no pass
/// announces of one element both that it entered and that it exited.
pub proof fn lemma_emitted_one_direction<S: View<V = StateRecord>>(
    rows: Seq<(Entity, S)>,
    entity: Entity,
)
    requires
        forall|i: int, j: int|
            0 <= i < j < rows.len() ==> (#[trigger] rows[i]).0 != (#[trigger] rows[j]).0,
        forall|i: int|
            0 <= i < rows.len() ==> !((#[trigger] rows[i]).1@.just_entered
                && rows[i].1@.just_exited),
    ensures
        !(emitted(rows).contains(EdgeEvent::JustEntered { entity }) && emitted(rows).contains(
            EdgeEvent::JustExited { entity },
        )),
{
    lemma_emitted_iff_flag_set(rows, entity);
}

/// The events of a tick are its flips. Let a transition pass take the records of
/// `before` to those of `after`, row `i` under the active condition
/// `conditions[i]`. Then the emission pass over `after` announces that an element
/// entered exactly if a row of it went from inactive to active, and that it exited
/// exactly if a row of it went from active to inactive.
pub proof fn lemma_events_mark_flips<S: View<V = StateRecord>>(
    before: Seq<(Entity, S)>,
    conditions: Seq<bool>,
    after: Seq<(Entity, S)>,
    entity: Entity,
)
    requires
        before.len() == after.len(),
        conditions.len() == after.len(),
        forall|i: int|
            0 <= i < after.len() ==> {
                &&& (#[trigger] after[i]).0 == before[i].0
                &&& after[i].1@ == before[i].1@.advance(conditions[i])
            },
    ensures
        emitted(after).contains(EdgeEvent::JustEntered { entity }) <==> exists|i: int|
            0 <= i < before.len() && (#[trigger] before[i]).0 == entity && !before[i].1@.active
                && conditions[i],
        emitted(after).contains(EdgeEvent::JustExited { entity }) <==> exists|i: int|
            0 <= i < before.len() && (#[trigger] before[i]).0 == entity && before[i].1@.active
                && !conditions[i],
{
    lemma_emitted_iff_flag_set(after, entity);
    assert forall|i: int| 0 <= i < before.len() implies {
        &&& (#[trigger] before[i]).0 == after[i].0
        &&& after[i].1@.just_entered == (!before[i].1@.active && conditions[i])
        &&& after[i].1@.just_exited == (before[i].1@.active && !conditions[i])
    } by {
        assert(after[i].1@ == before[i].1@.advance(conditions[i]));
    }
}

/// Sent when an element starts or stops being pressed.
#[derive(Debug, Clone, Copy, PartialEq, Eq)]
pub enum BPressEvent {
    JustEntered { entity: Entity },
    JustExited { entity: Entity },
}

impl BPressEvent {
    /// The press event that announces `edge`.
    pub open spec fn from_edge(edge: EdgeEvent) -> Self {
        match edge {
            EdgeEvent::JustEntered { entity } => BPressEvent::JustEntered { entity },
            EdgeEvent::JustExited { entity } => BPressEvent::JustExited { entity },
        }
    }

    /// The press events that announce `edges`, one for one.
    pub open spec fn from_edges(edges: Seq<EdgeEvent>) -> Seq<Self> {
        edges.map_values(|edge: EdgeEvent| Self::from_edge(edge))
    }
}

/// Sent when the pointer starts or stops resting on an element that is not
/// being pressed.
#[derive(Debug, Clone, Copy, PartialEq, Eq)]
pub enum BHoverEvent {
    JustEntered { entity: Entity },
    JustExited { entity: Entity },
}

impl BHoverEvent {
    /// The hover event that announces `edge`.
    pub open spec fn from_edge(edge: EdgeEvent) -> Self {
        match edge {
            EdgeEvent::JustEntered { entity } => BHoverEvent::JustEntered { entity },
            EdgeEvent::JustExited { entity } => BHoverEvent::JustExited { entity },
        }
    }

    /// The hover events that announce `edges`, one for one.
    pub open spec fn from_edges(edges: Seq<EdgeEvent>) -> Seq<Self> {
        edges.map_values(|edge: EdgeEvent| Self::from_edge(edge))
    }
}

/// Sent when the pointer comes over an element or leaves it.
#[derive(Debug, Clone, Copy, PartialEq, Eq)]
pub enum BMouseOverEvent {
    JustEntered { entity: Entity },
    JustExited { entity: Entity },
}

impl BMouseOverEvent {
    /// The mouse-over event that announces `edge`.
    pub open spec fn from_edge(edge: EdgeEvent) -> Self {
        match edge {
            EdgeEvent::JustEntered { entity } => BMouseOverEvent::JustEntered { entity },
            EdgeEvent::JustExited { entity } => BMouseOverEvent::JustExited { entity },
        }
    }

    /// The mouse-over events that announce `edges`, one for one.
    pub open spec fn from_edges(edges: Seq<EdgeEvent>) -> Seq<Self> {
        edges.map_values(|edge: EdgeEvent| Self::from_edge(edge))
    }
}

} // verus!
