use better_button::bundles::BButtonBundle;
use better_button::components::{BHoverState, BMouseOverState, BPressState};
use better_button::events::{BHoverEvent, BMouseOverEvent, BPressEvent};
use better_button::interaction::Interaction;
use better_button::systems::{
    generate_hover_events, generate_mouse_over_events, generate_press_events, update_press_state,
};
use bevy::ecs::entity::Entity;

/// One tick of the press kind for the given elements: the transition pass over
/// all of them, then the emission pass. Returns the events of that tick.
fn press_tick(
    elements: &mut Vec<(Entity, BPressState)>,
    signals: &[Interaction],
) -> Vec<BPressEvent> {
    let mut rows: Vec<(Interaction, BPressState)> =
        elements.iter().zip(signals).map(|(element, signal)| (*signal, element.1)).collect();
    update_press_state(&mut rows);
    for (element, row) in elements.iter_mut().zip(&rows) {
        element.1 = row.1;
    }
    let mut events = Vec::new();
    generate_press_events(elements, &mut events);
    events
}

#[test]
fn press_sequence_emits_entry_then_exit() {
    let button = Entity::from_raw(7);
    let mut elements = vec![(button, BPressState::default())];
    let mut per_tick = Vec::new();
    for signal in [Interaction::Idle, Interaction::Pressed, Interaction::Pressed, Interaction::Idle]
    {
        per_tick.push(press_tick(&mut elements, &[signal]));
    }
    assert_eq!(
        per_tick,
        vec![
            vec![],
            vec![BPressEvent::JustEntered { entity: button }],
            vec![],
            vec![BPressEvent::JustExited { entity: button }],
        ]
    );
}

#[test]
fn two_elements_in_one_batch() {
    let a = Entity::from_raw(1);
    let b = Entity::from_raw(2);
    let mut elements = vec![(a, BPressState::default()), (b, BPressState::default())];

    let first = press_tick(&mut elements, &[Interaction::Idle, Interaction::Pressed]);
    assert_eq!(first, vec![BPressEvent::JustEntered { entity: b }]);

    let second = press_tick(&mut elements, &[Interaction::Pressed, Interaction::Pressed]);
    assert_eq!(second, vec![BPressEvent::JustEntered { entity: a }]);
}

#[test]
fn mouse_over_emits_nothing_while_the_pointer_stays() {
    let button = Entity::from_raw(3);
    let mut state = BMouseOverState::default();
    state.update(Interaction::Hovered);
    let mut events = Vec::new();
    for signal in [Interaction::Hovered, Interaction::Pressed, Interaction::Hovered] {
        state.update(signal);
        generate_mouse_over_events(&vec![(button, state)], &mut events);
    }
    assert_eq!(events, vec![]);
}

#[test]
fn events_mirror_the_flags() {
    let entity = Entity::from_raw(11);
    for just_entered in [false, true] {
        for just_exited in [false, true] {
            for active in [false, true] {
                let mut press = Vec::new();
                generate_press_events(
                    &vec![(entity, BPressState { active, just_entered, just_exited })],
                    &mut press,
                );
                assert_eq!(press.contains(&BPressEvent::JustEntered { entity }), just_entered);
                assert_eq!(press.contains(&BPressEvent::JustExited { entity }), just_exited);
                assert_eq!(press.len(), usize::from(just_entered) + usize::from(just_exited));

                let mut hover = Vec::new();
                generate_hover_events(
                    &vec![(entity, BHoverState { active, just_entered, just_exited })],
                    &mut hover,
                );
                assert_eq!(hover.contains(&BHoverEvent::JustEntered { entity }), just_entered);
                assert_eq!(hover.contains(&BHoverEvent::JustExited { entity }), just_exited);
                assert_eq!(hover.len(), usize::from(just_entered) + usize::from(just_exited));

                let mut over = Vec::new();
                generate_mouse_over_events(
                    &vec![(entity, BMouseOverState { active, just_entered, just_exited })],
                    &mut over,
                );
                assert_eq!(over.contains(&BMouseOverEvent::JustEntered { entity }), just_entered);
                assert_eq!(over.contains(&BMouseOverEvent::JustExited { entity }), just_exited);
                assert_eq!(over.len(), usize::from(just_entered) + usize::from(just_exited));
            }
        }
    }
}

#[test]
fn entry_is_announced_before_exit() {
    let entity = Entity::from_raw(5);
    let mut events = Vec::new();
    generate_hover_events(
        &vec![(entity, BHoverState { active: false, just_entered: true, just_exited: true })],
        &mut events,
    );
    assert_eq!(
        events,
        vec![BHoverEvent::JustEntered { entity }, BHoverEvent::JustExited { entity }]
    );
}

#[test]
fn events_follow_the_order_of_the_rows() {
    let first = Entity::from_raw(20);
    let second = Entity::from_raw(10);
    let third = Entity::from_raw(30);
    let query = vec![
        (first, BMouseOverState { active: false, just_entered: false, just_exited: true }),
        (second, BMouseOverState { active: true, just_entered: false, just_exited: false }),
        (third, BMouseOverState { active: true, just_entered: true, just_exited: false }),
    ];
    let mut events = Vec::new();
    generate_mouse_over_events(&query, &mut events);
    assert_eq!(
        events,
        vec![
            BMouseOverEvent::JustExited { entity: first },
            BMouseOverEvent::JustEntered { entity: third },
        ]
    );
}

#[test]
fn emission_appends_to_the_queue() {
    let earlier = Entity::from_raw(1);
    let later = Entity::from_raw(2);
    let mut events = vec![BPressEvent::JustExited { entity: earlier }];
    generate_press_events(
        &vec![(later, BPressState { active: true, just_entered: true, just_exited: false })],
        &mut events,
    );
    assert_eq!(
        events,
        vec![
            BPressEvent::JustExited { entity: earlier },
            BPressEvent::JustEntered { entity: later },
        ]
    );
}

#[test]
fn emission_over_no_rows_leaves_the_queue() {
    let entity = Entity::from_raw(4);
    let mut events = vec![BHoverEvent::JustEntered { entity }];
    generate_hover_events(&Vec::new(), &mut events);
    assert_eq!(events, vec![BHoverEvent::JustEntered { entity }]);
}

#[test]
fn emission_leaves_the_states_alone() {
    let entity = Entity::from_raw(9);
    let query = vec![(entity, BPressState { active: true, just_entered: true, just_exited: false })];
    let mut events = Vec::new();
    generate_press_events(&query, &mut events);
    generate_press_events(&query, &mut events);
    assert_eq!(
        query,
        vec![(entity, BPressState { active: true, just_entered: true, just_exited: false })]
    );
    assert_eq!(events.len(), 2);
}

#[test]
fn new_bundle_keeps_the_signal_and_starts_all_false() {
    let bundle = BButtonBundle::new(Interaction::Hovered);
    assert_eq!(bundle.interaction, Interaction::Hovered);
    assert_eq!(bundle.press_state, BPressState::default());
    assert_eq!(bundle.hover_state, BHoverState::default());
    assert_eq!(bundle.mouse_over_state, BMouseOverState::default());
}

#[test]
fn default_bundle_is_idle() {
    assert_eq!(BButtonBundle::default(), BButtonBundle::new(Interaction::Idle));
}
