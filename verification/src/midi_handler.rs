//! MIDI messages, their wire form, and the state of the output port.
//!
//! Nothing here touches a device: the functions say which bytes go out and
//! what the caller is told, and leave the transport to the caller.

use vstd::prelude::*;
use vstd::string::StringExecFns;

verus! {

/// An output port as the transport lists it.
#[derive(Debug)]
pub struct MidiDevice {
    pub id: String,
    pub name: String,
}

/// What a lookup of one listed port brought: its identifier, and its name
/// where the transport could tell it.
#[derive(Debug)]
pub struct PortProbe {
    pub id: String,
    pub name: Option<String>,
}

/// One outbound message.
#[derive(Clone, Copy, Debug, PartialEq, Eq, Structural)]
pub enum MidiMessage {
    ControlChange { channel: u8, controller: u8, value: u8 },
    NoteOn { channel: u8, note: u8, velocity: u8 },
    NoteOff { channel: u8, note: u8 },
}

/// Whether an output connection is held.
#[derive(Clone, Copy, Debug, PartialEq, Eq, Structural)]
pub struct MidiLink {
    pub connected: bool,
}

/// The three bytes of a controller change: status `0xB0` plus the channel's
/// low four bits, then controller and value, seven bits each.
pub open spec fn cc_bytes(channel: u8, controller: u8, value: u8) -> Seq<u8> {
    seq![(0xB0 + channel % 16) as u8, controller % 128, value % 128]
}

/// The three bytes of a note on: status `0x90` plus the channel's low four
/// bits, then note and velocity, seven bits each.
pub open spec fn note_on_bytes(channel: u8, note: u8, velocity: u8) -> Seq<u8> {
    seq![(0x90 + channel % 16) as u8, note % 128, velocity % 128]
}

/// The three bytes of a note off: status `0x80` plus the channel's low four
/// bits, then the note, seven bits, and a release velocity of zero.
pub open spec fn note_off_bytes(channel: u8, note: u8) -> Seq<u8> {
    seq![(0x80 + channel % 16) as u8, note % 128, 0u8]
}

impl MidiMessage {
    /// The message on the wire.
    pub open spec fn wire(self) -> Seq<u8> {
        match self {
            MidiMessage::ControlChange { channel, controller, value } => cc_bytes(
                channel,
                controller,
                value,
            ),
            MidiMessage::NoteOn { channel, note, velocity } => note_on_bytes(
                channel,
                note,
                velocity,
            ),
            MidiMessage::NoteOff { channel, note } => note_off_bytes(channel, note),
        }
    }
}

/// The text of the refusal to send without a connection.
pub open spec fn no_connection_text() -> Seq<char> {
    "No MIDI connection available"@
}

/// What a send hands back for the bytes `wire`: the bytes while a connection
/// is held, the refusal otherwise.
pub open spec fn send_result(link: MidiLink, wire: Seq<u8>, result: Result<[u8; 3], String>) -> bool {
    if link.connected {
        result matches Ok(bytes) && bytes@ == wire
    } else {
        result matches Err(text) && text@ == no_connection_text()
    }
}

fn status_byte(kind: u8, channel: u8) -> (status: u8)
    requires
        kind == 0x80 || kind == 0x90 || kind == 0xB0,
    ensures
        status == kind + channel % 16,
{
    assert(kind | (channel & 0x0F) == kind + channel % 16) by (bit_vector)
        requires
            kind == 0x80 || kind == 0x90 || kind == 0xB0,
    ;
    kind | (channel & 0x0F)
}

fn data_byte(value: u8) -> (data: u8)
    ensures
        data == value % 128,
{
    assert(value & 0x7F == value % 128) by (bit_vector);
    value & 0x7F
}

fn refusal() -> (result: Result<[u8; 3], String>)
    ensures
        result matches Err(text) && text@ == no_connection_text(),
{
    Err(String::from_str("No MIDI connection available"))
}

/// Encodes a controller change for the held connection. The caller puts the
/// bytes on the wire.
pub fn send_cc_change(link: &MidiLink, channel: u8, controller: u8, value: u8) -> (result: Result<
    [u8; 3],
    String,
>)
    ensures
        send_result(*link, cc_bytes(channel, controller, value), result),
{
    if link.connected {
        let bytes: [u8; 3] = [status_byte(0xB0, channel), data_byte(controller), data_byte(value)];
        assert(bytes@ =~= cc_bytes(channel, controller, value));
        Ok(bytes)
    } else {
        refusal()
    }
}

/// Encodes a note on for the held connection.
pub fn send_note_on(link: &MidiLink, channel: u8, note: u8, velocity: u8) -> (result: Result<
    [u8; 3],
    String,
>)
    ensures
        send_result(*link, note_on_bytes(channel, note, velocity), result),
{
    if link.connected {
        let bytes: [u8; 3] = [status_byte(0x90, channel), data_byte(note), data_byte(velocity)];
        assert(bytes@ =~= note_on_bytes(channel, note, velocity));
        Ok(bytes)
    } else {
        refusal()
    }
}

/// Encodes a note off for the held connection.
pub fn send_note_off(link: &MidiLink, channel: u8, note: u8) -> (result: Result<[u8; 3], String>)
    ensures
        send_result(*link, note_off_bytes(channel, note), result),
{
    if link.connected {
        let bytes: [u8; 3] = [status_byte(0x80, channel), data_byte(note), 0];
        assert(bytes@ =~= note_off_bytes(channel, note));
        Ok(bytes)
    } else {
        refusal()
    }
}

/// Encodes any message for the held connection.
pub fn send_message(link: &MidiLink, message: &MidiMessage) -> (result: Result<[u8; 3], String>)
    ensures
        send_result(*link, message.wire(), result),
{
    match *message {
        MidiMessage::ControlChange { channel, controller, value } => send_cc_change(
            link,
            channel,
            controller,
            value,
        ),
        MidiMessage::NoteOn { channel, note, velocity } => send_note_on(
            link,
            channel,
            note,
            velocity,
        ),
        MidiMessage::NoteOff { channel, note } => send_note_off(link, channel, note),
    }
}

/// What the caller is told once a port is connected.
pub open spec fn connected_text(name: Seq<char>) -> Seq<char> {
    "Connected to MIDI device: "@ + name
}

/// What the caller is told when no port has the identifier asked for.
pub open spec fn not_found_text(port_id: Seq<char>) -> Seq<char> {
    "MIDI port "@ + port_id + " not found"@
}

/// Settles an attempt to open the port `port_id`.
///
/// `attempt` is what the transport brought: `Ok(Some(name))` once a
/// connection to the port of that name stands, `Ok(None)` where no port has
/// the identifier, `Err(text)` where the transport failed. Only the first
/// marks the link as connected; the others leave it as it was.
pub fn open_midi_port(link: &mut MidiLink, port_id: String, attempt: Result<Option<String>, String>) -> (reply:
    Result<String, String>)
    ensures
        match attempt {
            Ok(Some(name)) => {
                &&& final(link).connected
                &&& reply matches Ok(text) && text@ == connected_text(name@)
            },
            Ok(None) => {
                &&& *final(link) == *old(link)
                &&& reply matches Err(text) && text@ == not_found_text(port_id@)
            },
            Err(failure) => {
                &&& *final(link) == *old(link)
                &&& reply == Err::<String, String>(failure)
            },
        },
{
    match attempt {
        Ok(Some(name)) => {
            link.connected = true;
            let mut text = String::from_str("Connected to MIDI device: ");
            text.append(name.as_str());
            Ok(text)
        },
        Ok(None) => {
            let mut text = String::from_str("MIDI port ");
            text.append(port_id.as_str());
            text.append(" not found");
            Err(text)
        },
        Err(failure) => Err(failure),
    }
}

/// Lets go of the connection.
pub fn close_midi_port(link: &mut MidiLink)
    ensures
        !final(link).connected,
{
    link.connected = false;
}

/// The devices to list for `probes`: one for each probe that has a name, in
/// the order of the probes.
pub open spec fn listed_devices(probes: Seq<PortProbe>) -> Seq<MidiDevice>
    decreases probes.len(),
{
    if probes.len() == 0 {
        Seq::empty()
    } else {
        let earlier = listed_devices(probes.drop_last());
        match probes.last().name {
            Some(name) => earlier.push(MidiDevice { id: probes.last().id, name }),
            None => earlier,
        }
    }
}

/// Lists the ports that could be named; a port whose name the transport
/// could not tell is left out.
pub fn get_midi_ports(probes: &Vec<PortProbe>) -> (devices: Vec<MidiDevice>)
    ensures
        devices@ == listed_devices(probes@),
{
    let mut devices: Vec<MidiDevice> = Vec::new();
    let mut i: usize = 0;
    assert(probes@.take(0) =~= Seq::<PortProbe>::empty());
    while i < probes.len()
        invariant
            i <= probes@.len(),
            devices@ == listed_devices(probes@.take(i as int)),
        decreases probes@.len() - i,
    {
        assert(probes@.take(i + 1).drop_last() =~= probes@.take(i as int));
        match &probes[i].name {
            Some(name) => {
                devices.push(MidiDevice { id: probes[i].id.clone(), name: name.clone() });
            },
            None => {},
        }
        i = i + 1;
    }
    assert(probes@.take(probes@.len() as int) =~= probes@);
    devices
}

} // verus!
