use xinputdj::midi_handler::{
    close_midi_port, get_midi_ports, open_midi_port, send_cc_change, send_message, send_note_off,
    send_note_on, MidiLink, MidiMessage, PortProbe,
};

const OPEN: MidiLink = MidiLink { connected: true };
const CLOSED: MidiLink = MidiLink { connected: false };

#[test]
fn controller_change_bytes() {
    assert_eq!(send_cc_change(&OPEN, 0, 28, 127), Ok([0xB0, 28, 127]));
    assert_eq!(send_cc_change(&OPEN, 1, 6, 0), Ok([0xB1, 6, 0]));
    assert_eq!(send_cc_change(&OPEN, 15, 0, 64), Ok([0xBF, 0, 64]));
}

#[test]
fn controller_change_masks_what_does_not_fit() {
    assert_eq!(send_cc_change(&OPEN, 17, 200, 255), Ok([0xB1, 72, 127]));
    assert_eq!(send_cc_change(&OPEN, 0xF0, 128, 128), Ok([0xB0, 0, 0]));
}

#[test]
fn note_bytes() {
    assert_eq!(send_note_on(&OPEN, 0, 27, 127), Ok([0x90, 27, 127]));
    assert_eq!(send_note_on(&OPEN, 31, 255, 129), Ok([0x9F, 127, 1]));
    assert_eq!(send_note_off(&OPEN, 15, 7), Ok([0x8F, 7, 0]));
    assert_eq!(send_note_off(&OPEN, 16, 135), Ok([0x80, 7, 0]));
}

#[test]
fn every_message_kind_is_encoded() {
    let change = MidiMessage::ControlChange { channel: 1, controller: 24, value: 63 };
    assert_eq!(send_message(&OPEN, &change), Ok([0xB1, 24, 63]));
    let on = MidiMessage::NoteOn { channel: 15, note: 7, velocity: 127 };
    assert_eq!(send_message(&OPEN, &on), Ok([0x9F, 7, 127]));
    let off = MidiMessage::NoteOff { channel: 0, note: 2 };
    assert_eq!(send_message(&OPEN, &off), Ok([0x80, 2, 0]));
}

#[test]
fn nothing_is_sent_without_a_connection() {
    let refusal = Err("No MIDI connection available".to_string());
    assert_eq!(send_cc_change(&CLOSED, 0, 28, 127), refusal);
    assert_eq!(send_note_on(&CLOSED, 0, 27, 127), refusal);
    assert_eq!(send_note_off(&CLOSED, 0, 27), refusal);
    let on = MidiMessage::NoteOn { channel: 15, note: 7, velocity: 127 };
    assert_eq!(send_message(&CLOSED, &on), refusal);
}

#[test]
fn opening_a_found_port_connects() {
    let mut link = CLOSED;
    let reply = open_midi_port(&mut link, "14:0".to_string(), Ok(Some("Synth".to_string())));
    assert_eq!(reply, Ok("Connected to MIDI device: Synth".to_string()));
    assert!(link.connected);
}

#[test]
fn opening_an_unknown_port_is_refused() {
    let mut link = CLOSED;
    let reply = open_midi_port(&mut link, "14:0".to_string(), Ok(None));
    assert_eq!(reply, Err("MIDI port 14:0 not found".to_string()));
    assert!(!link.connected);
    let mut link = OPEN;
    let reply = open_midi_port(&mut link, String::new(), Ok(None));
    assert_eq!(reply, Err("MIDI port  not found".to_string()));
    assert!(link.connected);
}

#[test]
fn a_transport_failure_is_passed_on() {
    let mut link = CLOSED;
    let reply = open_midi_port(&mut link, "14:0".to_string(), Err("busy".to_string()));
    assert_eq!(reply, Err("busy".to_string()));
    assert!(!link.connected);
}

#[test]
fn closing_lets_go_of_the_connection() {
    let mut link = OPEN;
    close_midi_port(&mut link);
    assert!(!link.connected);
    close_midi_port(&mut link);
    assert!(!link.connected);
    assert!(send_cc_change(&link, 0, 0, 0).is_err());
}

#[test]
fn ports_without_a_name_are_not_listed() {
    let probes = vec![
        PortProbe { id: "a".to_string(), name: Some("Alpha".to_string()) },
        PortProbe { id: "b".to_string(), name: None },
        PortProbe { id: "c".to_string(), name: Some("Gamma".to_string()) },
    ];
    let devices = get_midi_ports(&probes);
    assert_eq!(devices.len(), 2);
    assert_eq!(devices[0].id, "a");
    assert_eq!(devices[0].name, "Alpha");
    assert_eq!(devices[1].id, "c");
    assert_eq!(devices[1].name, "Gamma");
    assert!(get_midi_ports(&Vec::new()).is_empty());
}
