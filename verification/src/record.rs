use crate::interaction::{Interaction, InteractionKind};
use vstd::prelude::*;

verus! {

/// What every state component stands for: whether the element is active, and
/// whether it became so, or ceased to be so, in the last tick.
pub struct StateRecord {
    pub active: bool,
    pub just_entered: bool,
    pub just_exited: bool,
}

impl StateRecord {
    /// The record of a freshly created element.
    pub open spec fn created() -> Self {
        StateRecord { active: false, just_entered: false, just_exited: false }
    }

    /// A flag is only ever set together with the value of `active` that it
    /// announces, so the two flags exclude each other.
    pub open spec fn well_formed(self) -> bool {
        &&& self.just_entered ==> self.active
        &&& self.just_exited ==> !self.active
    }

    /// One tick: the record that follows `self` when the active condition
    /// evaluates to `active`.
    pub open spec fn advance(self, active: bool) -> Self {
        StateRecord {
            active,
            just_entered: active && !self.active,
            just_exited: !active && self.active,
        }
    }

    /// The record after one tick per signal, oldest first.
    pub open spec fn replay(self, kind: InteractionKind, signals: Seq<Interaction>) -> Self
        decreases signals.len(),
    {
        if signals.len() == 0 {
            self
        } else {
            self.replay(kind, signals.drop_last()).advance(kind.active_on(signals.last()))
        }
    }
}

/// After any tick, `active` is what the kind's active condition says of that
/// tick's signal, whatever the record and the signals before it were.
pub proof fn lemma_active_is_last_condition(
    init: StateRecord,
    kind: InteractionKind,
    signals: Seq<Interaction>,
)
    requires
        signals.len() > 0,
    ensures
        init.replay(kind, signals).active == kind.active_on(signals.last()),
{
}

/// After any tick the record is well formed, and so `just_entered` and
/// `just_exited` are never set together. The same holds before the first tick of
/// a record that started out well formed, as a created one does.
pub proof fn lemma_flags_exclude_each_other(
    init: StateRecord,
    kind: InteractionKind,
    signals: Seq<Interaction>,
)
    requires
        signals.len() > 0 || init.well_formed(),
    ensures
        init.replay(kind, signals).well_formed(),
        !(init.replay(kind, signals).just_entered && init.replay(kind, signals).just_exited),
{
}

/// In every tick, `just_entered` is set exactly if `active` went from false to
/// true in that tick, and `just_exited` exactly if it went from true to false. A
/// tick that leaves `active` as it was leaves both flags clear. Creation is no
/// tick: a created record has both flags clear, and keeps them so until its first
/// tick.
pub proof fn lemma_flags_mark_flips(
    init: StateRecord,
    kind: InteractionKind,
    signals: Seq<Interaction>,
)
    ensures
        signals.len() > 0 ==> ({
            let before = init.replay(kind, signals.drop_last());
            let after = init.replay(kind, signals);
            &&& after.just_entered <==> !before.active && after.active
            &&& after.just_exited <==> before.active && !after.active
            &&& before.active == after.active ==> !after.just_entered && !after.just_exited
        }),
        signals.len() == 0 ==> init.replay(kind, signals) == init,
        !StateRecord::created().just_entered && !StateRecord::created().just_exited,
{
}

/// While the active condition holds tick after tick, the element stays active and
/// never exits. It enters in the first of these ticks if it was inactive before
/// them, and in no other: one tick with `just_entered` set, and both flags clear
/// in all that follow.
pub proof fn lemma_held_active_enters_once(
    init: StateRecord,
    kind: InteractionKind,
    signals: Seq<Interaction>,
)
    requires
        signals.len() >= 1,
        forall|i: int| 0 <= i < signals.len() ==> kind.active_on(#[trigger] signals[i]),
    ensures
        forall|k: int|
            1 <= k <= signals.len() ==> {
                let record = #[trigger] init.replay(kind, signals.take(k));
                &&& record.active
                &&& record.just_entered <==> k == 1 && !init.active
                &&& !record.just_exited
            },
{
    assert forall|k: int| 1 <= k <= signals.len() implies ({
        let record = #[trigger] init.replay(kind, signals.take(k));
        &&& record.active
        &&& record.just_entered <==> k == 1 && !init.active
        &&& !record.just_exited
    }) by {
        let ticks = signals.take(k);
        assert(ticks.last() == signals[k - 1]);
        assert(ticks.drop_last() == signals.take(k - 1));
        if k > 1 {
            lemma_active_is_last_condition(init, kind, signals.take(k - 1));
        } else {
            assert(init.replay(kind, signals.take(0)) == init);
        }
    }
}

} // verus!
