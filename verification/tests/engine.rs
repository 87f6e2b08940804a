use xinputdj::input_mapper::{
    get_current_cc, handle_controller_events, process_button, process_snapshot, process_stick,
    start_mapping, stop_mapping, update_cc_if_changed, DeckState, DispatcherState, Lifecycle,
};
use xinputdj::mapping::{DeckType, MappingConfig};
use xinputdj::midi_handler::MidiMessage;
use xinputdj::xinput_handler::{
    ButtonState, ControllerState, StickPosition, StickState, FULL_DEFLECTION, HALF_TURN,
};

const DEGREE: i32 = 1_000_000;

fn centre() -> StickPosition {
    StickPosition { radius: 0, bearing: 0 }
}

fn rim(bearing: i32) -> StickPosition {
    StickPosition { radius: FULL_DEFLECTION, bearing }
}

fn snapshot(left: StickPosition, right: StickPosition, buttons: ButtonState) -> ControllerState {
    ControllerState { sticks: StickState { left, right }, buttons }
}

fn buttons_only(buttons: ButtonState) -> ControllerState {
    snapshot(centre(), centre(), buttons)
}

fn cc(channel: u8, controller: u8, value: u8) -> MidiMessage {
    MidiMessage::ControlChange { channel, controller, value }
}

#[test]
fn engine_starts_with_configured_defaults() {
    let config = MappingConfig::standard();
    let state = DispatcherState::new(&config);
    assert_eq!(get_current_cc(&state, DeckType::Left), 28);
    assert_eq!(get_current_cc(&state, DeckType::Right), 28);
    assert_eq!(state.left.last_position, centre());
    assert_eq!(state.right.last_position, centre());
    assert!(!state.left.note_on);
    assert!(!state.right.note_on);
    assert_eq!(state.last_buttons, ButtonState::released());
}

#[test]
fn six_o_clock_on_the_left_deck_sends_the_top_value() {
    let config = MappingConfig::standard();
    let mut state = DispatcherState::new(&config);
    let snap = snapshot(rim(HALF_TURN), centre(), ButtonState::released());
    let dispatch = process_snapshot(&mut state, &config, &snap);
    assert_eq!(dispatch.messages, vec![cc(0, 28, 127)]);
    assert!(dispatch.left_change.is_none());
    assert!(dispatch.right_change.is_none());
}

#[test]
fn six_o_clock_from_the_left_sends_the_bottom_value() {
    let config = MappingConfig::standard();
    let mut state = DispatcherState::new(&config);
    let snap = snapshot(rim(-HALF_TURN), centre(), ButtonState::released());
    let dispatch = process_snapshot(&mut state, &config, &snap);
    assert_eq!(dispatch.messages, vec![cc(0, 28, 0)]);
    let settled = StickPosition::from_polar(FULL_DEFLECTION, -HALF_TURN);
    let snap = snapshot(settled, centre(), ButtonState::released());
    let dispatch = process_snapshot(&mut state, &config, &snap);
    assert_eq!(dispatch.messages, vec![cc(0, 28, 127)]);
}

#[test]
fn both_sticks_send_left_first() {
    let config = MappingConfig::standard();
    let mut state = DispatcherState::new(&config);
    let snap = snapshot(rim(90 * DEGREE), rim(-90 * DEGREE), ButtonState::released());
    let dispatch = process_snapshot(&mut state, &config, &snap);
    assert_eq!(dispatch.messages, vec![cc(0, 28, 101), cc(1, 28, 25)]);
}

#[test]
fn held_up_button_reassigns_once_and_the_stick_follows() {
    let config = MappingConfig::standard();
    let mut state = DispatcherState::new(&config);
    let up = ButtonState { up: true, ..ButtonState::released() };
    let snap = snapshot(rim(0), centre(), up);

    let first = process_snapshot(&mut state, &config, &snap);
    let change = first.left_change.expect("the first press reassigns");
    assert_eq!(change.cc_number, Some(24));
    assert_eq!(change.description, "Up");
    assert_eq!(change.deck, DeckType::Left);
    assert!(first.right_change.is_none());
    assert_eq!(first.messages, vec![cc(0, 24, 63)]);
    assert_eq!(get_current_cc(&state, DeckType::Left), 24);

    for _ in 0..2 {
        let held = process_snapshot(&mut state, &config, &snap);
        assert!(held.left_change.is_none());
        assert_eq!(held.messages, vec![cc(0, 24, 63)]);
    }

    let let_go = snapshot(rim(90 * DEGREE), centre(), ButtonState::released());
    let after = process_snapshot(&mut state, &config, &let_go);
    assert!(after.left_change.is_none());
    assert_eq!(after.messages, vec![cc(0, 24, 101)]);
    assert_eq!(get_current_cc(&state, DeckType::Left), 24);
    assert_eq!(get_current_cc(&state, DeckType::Right), 28);
}

#[test]
fn first_pressed_entry_wins_per_deck() {
    let config = MappingConfig::standard();
    let mut state = DispatcherState::new(&config);
    let both = ButtonState { up: true, down: true, north: true, rt: true, ..ButtonState::released() };
    let outcome = process_button(&mut state, &config, &buttons_only(both));
    assert!(outcome.messages.is_empty());
    assert_eq!(outcome.left_change.map(|e| e.cc_number), Some(Some(25)));
    assert_eq!(outcome.right_change.map(|e| e.cc_number), Some(Some(24)));
    assert_eq!(get_current_cc(&state, DeckType::Left), 25);
    assert_eq!(get_current_cc(&state, DeckType::Right), 24);
    assert_eq!(state.last_buttons, both);
}

#[test]
fn first_pressed_entry_that_names_the_current_controller_blocks_later_ones() {
    let config = MappingConfig::standard();
    let mut state = DispatcherState::new(&config);
    let down = ButtonState { down: true, ..ButtonState::released() };
    process_button(&mut state, &config, &buttons_only(down));
    assert_eq!(get_current_cc(&state, DeckType::Left), 25);
    let down_and_up = ButtonState { down: true, up: true, ..ButtonState::released() };
    let outcome = process_button(&mut state, &config, &buttons_only(down_and_up));
    assert!(outcome.left_change.is_none());
    assert_eq!(get_current_cc(&state, DeckType::Left), 25);
}

#[test]
fn note_entry_fires_once_per_edge() {
    let config = MappingConfig::standard();
    let mut state = DispatcherState::new(&config);
    let start = ButtonState { start: true, ..ButtonState::released() };
    let start_down = ButtonState { start: true, down: true, ..ButtonState::released() };
    let mut sent: Vec<Vec<MidiMessage>> = Vec::new();
    for buttons in [start, start_down, start_down, start] {
        sent.push(process_snapshot(&mut state, &config, &buttons_only(buttons)).messages);
    }
    assert_eq!(sent[0], vec![]);
    assert_eq!(sent[1], vec![MidiMessage::NoteOn { channel: 0, note: 0, velocity: 127 }]);
    assert_eq!(sent[2], vec![]);
    assert_eq!(sent[3], vec![MidiMessage::NoteOff { channel: 0, note: 0 }]);
}

#[test]
fn notes_come_in_table_order_on_their_decks_channels() {
    let config = MappingConfig::standard();
    let mut state = DispatcherState::new(&config);
    let many = ButtonState {
        select: true,
        r_stick: true,
        south: true,
        l_stick: true,
        up: true,
        ..ButtonState::released()
    };
    let outcome = process_button(&mut state, &config, &buttons_only(many));
    assert_eq!(
        outcome.messages,
        vec![
            MidiMessage::NoteOn { channel: 0, note: 27, velocity: 127 },
            MidiMessage::NoteOn { channel: 15, note: 7, velocity: 127 },
            MidiMessage::NoteOn { channel: 1, note: 0, velocity: 127 },
            MidiMessage::NoteOn { channel: 15, note: 7, velocity: 127 },
        ]
    );
    assert!(outcome.left_change.is_none());
    assert!(outcome.right_change.is_none());
    let fewer = ButtonState { select: true, south: true, ..ButtonState::released() };
    let outcome = process_button(&mut state, &config, &buttons_only(fewer));
    assert_eq!(
        outcome.messages,
        vec![
            MidiMessage::NoteOff { channel: 0, note: 27 },
            MidiMessage::NoteOff { channel: 15, note: 7 },
            MidiMessage::NoteOff { channel: 15, note: 7 },
        ]
    );
}

#[test]
fn layer_switch_takes_effect_within_the_same_snapshot() {
    let config = MappingConfig::standard();
    let mut state = DispatcherState::new(&config);
    let up = ButtonState { up: true, ..ButtonState::released() };
    let up_start = ButtonState { up: true, start: true, ..ButtonState::released() };
    let start = ButtonState { start: true, ..ButtonState::released() };
    let start_down = ButtonState { start: true, down: true, ..ButtonState::released() };
    let down = ButtonState { down: true, ..ButtonState::released() };

    let a = process_snapshot(&mut state, &config, &buttons_only(up));
    assert!(a.messages.is_empty());
    assert_eq!(get_current_cc(&state, DeckType::Left), 24);

    let b = process_snapshot(&mut state, &config, &buttons_only(up_start));
    assert!(b.messages.is_empty());
    assert!(b.left_change.is_none());

    let c = process_snapshot(&mut state, &config, &buttons_only(start));
    assert_eq!(c.messages, vec![MidiMessage::NoteOff { channel: 0, note: 27 }]);

    let d = process_snapshot(&mut state, &config, &buttons_only(start_down));
    assert_eq!(d.messages, vec![MidiMessage::NoteOn { channel: 0, note: 0, velocity: 127 }]);
    assert_eq!(get_current_cc(&state, DeckType::Left), 24);

    let e = process_snapshot(&mut state, &config, &buttons_only(down));
    assert!(e.messages.is_empty());
    assert_eq!(e.left_change.map(|m| m.cc_number), Some(Some(25)));
    assert_eq!(get_current_cc(&state, DeckType::Left), 25);

    let f = process_snapshot(&mut state, &config, &buttons_only(ButtonState::released()));
    assert!(f.messages.is_empty());
}

#[test]
fn secondary_layer_turns_sticks_into_jog_steps() {
    let config = MappingConfig::standard();
    let mut state = DispatcherState::new(&config);
    let select = ButtonState { select: true, ..ButtonState::released() };
    let first = process_snapshot(&mut state, &config, &snapshot(rim(0), rim(0), select));
    assert!(first.messages.is_empty());
    let second = process_snapshot(
        &mut state,
        &config,
        &snapshot(rim(60 * DEGREE), rim(-90 * DEGREE), select),
    );
    assert_eq!(second.messages, vec![cc(15, 0, 2), cc(15, 0, 125)]);
    assert_eq!(state.left.last_position, rim(60 * DEGREE));
    assert_eq!(state.right.last_position, rim(-90 * DEGREE));
    let third = process_snapshot(
        &mut state,
        &config,
        &snapshot(rim(80 * DEGREE), rim(-90 * DEGREE), select),
    );
    assert!(third.messages.is_empty());
    assert_eq!(state.left.last_position, rim(60 * DEGREE));
}

#[test]
fn stick_entry_plays_its_note_with_hysteresis() {
    let config = MappingConfig::standard();
    let mut state = DispatcherState::new(&config);
    let press = ButtonState { l_stick: true, ..ButtonState::released() };
    let first = process_snapshot(&mut state, &config, &buttons_only(press));
    assert_eq!(first.left_change.map(|m| m.cc_number), Some(Some(6)));
    assert!(first.messages.is_empty());

    let at = |radius: u32, bearing: i32| {
        snapshot(StickPosition { radius, bearing }, centre(), ButtonState::released())
    };
    let on = process_snapshot(&mut state, &config, &at(750_001, 0));
    assert_eq!(on.messages, vec![MidiMessage::NoteOn { channel: 0, note: 6, velocity: 127 }]);
    assert!(state.left.note_on);
    let turn = process_snapshot(&mut state, &config, &at(900_000, 10 * DEGREE));
    assert_eq!(turn.messages, vec![cc(0, 6, 10)]);
    let sag = process_snapshot(&mut state, &config, &at(700_000, 10 * DEGREE));
    assert!(sag.messages.is_empty());
    assert!(state.left.note_on);
    let off = process_snapshot(&mut state, &config, &at(699_999, 10 * DEGREE));
    assert_eq!(off.messages, vec![MidiMessage::NoteOff { channel: 0, note: 6 }]);
    assert!(!state.left.note_on);
    let edge = process_snapshot(&mut state, &config, &at(750_000, 10 * DEGREE));
    assert!(edge.messages.is_empty());
    assert!(!state.left.note_on);
}

#[test]
fn stick_without_a_bound_entry_sends_nothing() {
    let config = MappingConfig::standard();
    let mut deck = DeckState { current_cc: 99, last_position: centre(), note_on: false };
    let before = deck;
    let messages = process_stick(&mut deck, &config, DeckType::Left, rim(0));
    assert!(messages.is_empty());
    assert_eq!(deck, before);
}

#[test]
fn update_reports_whether_the_controller_changed() {
    let config = MappingConfig::standard();
    let mut state = DispatcherState::new(&config);
    assert!(!update_cc_if_changed(&mut state, DeckType::Right, 28));
    assert!(update_cc_if_changed(&mut state, DeckType::Right, 9));
    assert_eq!(get_current_cc(&state, DeckType::Right), 9);
    assert_eq!(get_current_cc(&state, DeckType::Left), 28);
    assert!(!update_cc_if_changed(&mut state, DeckType::Right, 9));
}

#[test]
fn start_is_idempotent_and_stop_stops() {
    let config = MappingConfig::standard();
    let mut lifecycle = Lifecycle::new();
    assert!(!lifecycle.should_receive());
    let fresh = start_mapping(&mut lifecycle, &config);
    assert_eq!(fresh, Some(DispatcherState::new(&config)));
    assert!(lifecycle.should_receive());
    assert_eq!(start_mapping(&mut lifecycle, &config), None);
    assert!(lifecycle.should_receive());
    stop_mapping(&mut lifecycle);
    assert!(!lifecycle.should_receive());
    stop_mapping(&mut lifecycle);
    assert!(!lifecycle.should_receive());
    assert!(start_mapping(&mut lifecycle, &config).is_some());
}

#[test]
fn restart_resets_the_memory() {
    let config = MappingConfig::standard();
    let mut lifecycle = Lifecycle::new();
    let mut state = start_mapping(&mut lifecycle, &config).expect("stopped before");
    let up = ButtonState { up: true, ..ButtonState::released() };
    process_snapshot(&mut state, &config, &buttons_only(up));
    assert_eq!(get_current_cc(&state, DeckType::Left), 24);
    stop_mapping(&mut lifecycle);
    let again = start_mapping(&mut lifecycle, &config).expect("stopped before");
    assert_eq!(get_current_cc(&again, DeckType::Left), 28);
}

#[test]
fn loop_turn_finishes_a_snapshot_and_stops_on_a_closed_channel() {
    let config = MappingConfig::standard();
    let mut lifecycle = Lifecycle::new();
    let mut state = start_mapping(&mut lifecycle, &config).expect("stopped before");
    stop_mapping(&mut lifecycle);
    let snap = snapshot(rim(0), centre(), ButtonState::released());
    let dispatch = handle_controller_events(&mut lifecycle, &mut state, &config, Some(snap));
    assert_eq!(dispatch.map(|d| d.messages), Some(vec![cc(0, 28, 63)]));
    assert!(!lifecycle.should_receive());

    let mut lifecycle = Lifecycle::new();
    let mut state = start_mapping(&mut lifecycle, &config).expect("stopped before");
    let before = state;
    assert!(handle_controller_events(&mut lifecycle, &mut state, &config, None).is_none());
    assert!(!lifecycle.should_receive());
    assert_eq!(state, before);
}
