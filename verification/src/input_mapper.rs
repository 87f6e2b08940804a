//! The mapping engine: what one controller snapshot does to the dispatcher's
//! memory and which messages it sends.

use crate::mapping::{
    active_layer, get_active_mappings, is_first_bound, is_first_selected, layer_of, none_selected,
    offers, secondary_entry_is_known, Behavior, CCMapping, DeckType, Layer, MappingConfig,
};
use crate::midi_handler::MidiMessage;
use crate::transform::{
    absolute_output, calculate_midi_cc_value_absolute, calculate_midi_cc_value_relative,
    relative_memory, relative_output,
};
use crate::xinput_handler::{get_button, ButtonState, ControllerState, StickPosition};
use vstd::prelude::*;

verus! {

/// The controller the secondary layer's jog is sent on.
pub const JOG_CONTROLLER: u8 = 0;

/// The velocity of every note on.
pub const NOTE_VELOCITY: u8 = 127;

/// What the dispatcher remembers of one stick deck.
#[derive(Clone, Copy, Debug, PartialEq, Eq, Structural)]
pub struct DeckState {
    /// The controller the deck's stick drives.
    pub current_cc: u8,
    /// The position the relative transform measures from.
    pub last_position: StickPosition,
    /// Whether the stick's own note is sounding.
    pub note_on: bool,
}

/// What the dispatcher remembers between snapshots.
#[derive(Clone, Copy, Debug, PartialEq, Eq, Structural)]
pub struct DispatcherState {
    pub left: DeckState,
    pub right: DeckState,
    /// The buttons of the snapshot before this one.
    pub last_buttons: ButtonState,
}

/// Whether the dispatch loop is to go on.
#[derive(Clone, Copy, Debug, PartialEq, Eq, Structural)]
pub struct Lifecycle {
    pub running: bool,
}

impl DeckState {
    /// A deck at start: the given controller, no angle yet, no note.
    pub open spec fn fresh(control: u8) -> DeckState {
        DeckState { current_cc: control, last_position: StickPosition::origin(), note_on: false }
    }

    /// The deck with another controller.
    pub open spec fn with_cc(self, control: u8) -> DeckState {
        DeckState { current_cc: control, last_position: self.last_position, note_on: self.note_on }
    }

    /// The deck with another remembered position.
    pub open spec fn with_position(self, position: StickPosition) -> DeckState {
        DeckState { current_cc: self.current_cc, last_position: position, note_on: self.note_on }
    }

}

impl DispatcherState {
    /// The memory the engine starts with.
    pub open spec fn initial(config: MappingConfig) -> DispatcherState {
        DispatcherState {
            left: DeckState::fresh(config.initial_left),
            right: DeckState::fresh(config.initial_right),
            last_buttons: ButtonState::all_released(),
        }
    }

    /// The memory of a stick deck.
    pub open spec fn deck(self, deck: DeckType) -> DeckState
        recommends
            deck != DeckType::Common,
    {
        if deck == DeckType::Left {
            self.left
        } else {
            self.right
        }
    }

    /// The memory with one stick deck's controller replaced.
    pub open spec fn with_cc(self, deck: DeckType, control: u8) -> DispatcherState
        recommends
            deck != DeckType::Common,
    {
        if deck == DeckType::Left {
            DispatcherState {
                left: self.left.with_cc(control),
                right: self.right,
                last_buttons: self.last_buttons,
            }
        } else {
            DispatcherState {
                left: self.left,
                right: self.right.with_cc(control),
                last_buttons: self.last_buttons,
            }
        }
    }

    /// Whether each deck drives a controller that the primary table knows
    /// for it.
    pub open spec fn assignments_known(self, config: MappingConfig) -> bool {
        &&& offers(config.primary@, DeckType::Left, self.left.current_cc)
        &&& offers(config.primary@, DeckType::Right, self.right.current_cc)
    }

    pub fn new(config: &MappingConfig) -> (state: DispatcherState)
        ensures
            state == Self::initial(*config),
            config.wf() ==> state.assignments_known(*config),
    {
        DispatcherState {
            left: DeckState {
                current_cc: config.initial_left,
                last_position: StickPosition::centered(),
                note_on: false,
            },
            right: DeckState {
                current_cc: config.initial_right,
                last_position: StickPosition::centered(),
                note_on: false,
            },
            last_buttons: ButtonState::released(),
        }
    }
}

/// The controller a stick deck drives. `Common` has none.
pub fn get_current_cc(state: &DispatcherState, deck: DeckType) -> (control: u8)
    requires
        deck != DeckType::Common,
    ensures
        control == state.deck(deck).current_cc,
{
    match deck {
        DeckType::Left => state.left.current_cc,
        _ => state.right.current_cc,
    }
}

fn set_current_cc(state: &mut DispatcherState, deck: DeckType, control: u8)
    requires
        deck != DeckType::Common,
    ensures
        *final(state) == old(state).with_cc(deck, control),
{
    match deck {
        DeckType::Left => {
            state.left.current_cc = control;
        },
        _ => {
            state.right.current_cc = control;
        },
    }
}

/// Hands a stick deck to `new_control_number` and says whether that changed
/// anything.
pub fn update_cc_if_changed(state: &mut DispatcherState, deck: DeckType, new_control_number: u8) -> (changed:
    bool)
    requires
        deck != DeckType::Common,
    ensures
        changed == (new_control_number != old(state).deck(deck).current_cc),
        *final(state) == old(state).with_cc(deck, new_control_number),
{
    if new_control_number != get_current_cc(state, deck) {
        set_current_cc(state, deck, new_control_number);
        true
    } else {
        false
    }
}

/// The first entry of `table` that asks for `deck`'s controller under
/// `buttons`, if there is one.
pub open spec fn first_selected(table: Seq<CCMapping>, deck: DeckType, buttons: ButtonState) -> Option<
    int,
> {
    if exists|i: int| is_first_selected(table, deck, buttons, i) {
        Some(choose|i: int| is_first_selected(table, deck, buttons, i))
    } else {
        None
    }
}

/// The first entry of `table` bound to `control` on `deck`, if there is one.
pub open spec fn first_bound(table: Seq<CCMapping>, deck: DeckType, control: u8) -> Option<int> {
    if exists|i: int| is_first_bound(table, deck, control, i) {
        Some(choose|i: int| is_first_bound(table, deck, control, i))
    } else {
        None
    }
}

/// The controller a deck drives after the buttons were looked at: that of
/// the first entry asking for it, else the one it drove before.
pub open spec fn next_cc(table: Seq<CCMapping>, deck: DeckType, buttons: ButtonState, before: u8) -> u8 {
    match first_selected(table, deck, buttons) {
        Some(i) => table[i].cc_number.unwrap(),
        None => before,
    }
}

/// The entry to report as having changed a deck's controller: the first one
/// asking for it, where it names another controller than before.
pub open spec fn change_of(
    table: Seq<CCMapping>,
    deck: DeckType,
    buttons: ButtonState,
    before: u8,
) -> Option<CCMapping> {
    match first_selected(table, deck, buttons) {
        Some(i) => if table[i].cc_number.unwrap() != before {
            Some(table[i])
        } else {
            None
        },
        None => None,
    }
}

/// What one note entry sends between two button states: note on where its
/// button went down, note off where it came up, nothing where it stayed.
pub open spec fn note_edge(entry: CCMapping, before: ButtonState, now: ButtonState) -> Seq<
    MidiMessage,
> {
    match entry.note_number {
        Some(note) if entry.behavior == Behavior::Note => {
            if now.pressed(entry.button) && !before.pressed(entry.button) {
                seq![
                    MidiMessage::NoteOn {
                        channel: entry.deck.channel(),
                        note,
                        velocity: NOTE_VELOCITY,
                    },
                ]
            } else if !now.pressed(entry.button) && before.pressed(entry.button) {
                seq![MidiMessage::NoteOff { channel: entry.deck.channel(), note }]
            } else {
                Seq::empty()
            }
        },
        _ => Seq::empty(),
    }
}

/// What the entries of `table` send between two button states, in table
/// order.
pub open spec fn button_messages(table: Seq<CCMapping>, before: ButtonState, now: ButtonState) -> Seq<
    MidiMessage,
>
    decreases table.len(),
{
    if table.len() == 0 {
        Seq::empty()
    } else {
        button_messages(table.drop_last(), before, now) + note_edge(table.last(), before, now)
    }
}

/// The dispatcher's memory once the buttons of `snapshot` were looked at.
pub open spec fn after_buttons(
    state: DispatcherState,
    config: MappingConfig,
    snapshot: ControllerState,
) -> DispatcherState {
    let table = config.table(layer_of(snapshot.buttons));
    DispatcherState {
        left: state.left.with_cc(
            next_cc(table, DeckType::Left, snapshot.buttons, state.left.current_cc),
        ),
        right: state.right.with_cc(
            next_cc(table, DeckType::Right, snapshot.buttons, state.right.current_cc),
        ),
        last_buttons: snapshot.buttons,
    }
}

/// `first_selected` names the first asking entry where there is one, and
/// there is none exactly where no entry asks.
pub proof fn lemma_first_selected(table: Seq<CCMapping>, deck: DeckType, buttons: ButtonState)
    ensures
        match first_selected(table, deck, buttons) {
            Some(i) => is_first_selected(table, deck, buttons, i),
            None => none_selected(table, deck, buttons),
        },
        forall|i: int|
            is_first_selected(table, deck, buttons, i) ==> first_selected(table, deck, buttons)
                == Some(i),
{
    if exists|i: int| is_first_selected(table, deck, buttons, i) {
        let k = choose|i: int| is_first_selected(table, deck, buttons, i);
        assert forall|i: int| is_first_selected(table, deck, buttons, i) implies i == k by {
            if i < k {
                assert(!table[i].selects(deck, buttons));
            } else if k < i {
                assert(!table[k].selects(deck, buttons));
            }
        }
    } else {
        assert forall|j: int| 0 <= j < table.len() implies !(#[trigger] table[j]).selects(
            deck,
            buttons,
        ) by {
            if table[j].selects(deck, buttons) {
                lemma_some_selected(table, deck, buttons, j);
            }
        }
    }
}

/// Where an entry asks, some entry is the first to ask.
proof fn lemma_some_selected(table: Seq<CCMapping>, deck: DeckType, buttons: ButtonState, j: int)
    requires
        0 <= j < table.len(),
        table[j].selects(deck, buttons),
    ensures
        exists|i: int| is_first_selected(table, deck, buttons, i),
    decreases j,
{
    if forall|k: int| 0 <= k < j ==> !(#[trigger] table[k]).selects(deck, buttons) {
        assert(is_first_selected(table, deck, buttons, j));
    } else {
        let k = choose|k: int| 0 <= k < j && (#[trigger] table[k]).selects(deck, buttons);
        lemma_some_selected(table, deck, buttons, k);
    }
}

/// `first_bound` names the first bound entry where there is one, and there
/// is none exactly where the table does not offer the controller.
pub proof fn lemma_first_bound(table: Seq<CCMapping>, deck: DeckType, control: u8)
    ensures
        match first_bound(table, deck, control) {
            Some(i) => is_first_bound(table, deck, control, i),
            None => !offers(table, deck, control),
        },
        forall|i: int|
            is_first_bound(table, deck, control, i) ==> first_bound(table, deck, control) == Some(
                i,
            ),
{
    if exists|i: int| is_first_bound(table, deck, control, i) {
        let k = choose|i: int| is_first_bound(table, deck, control, i);
        assert forall|i: int| is_first_bound(table, deck, control, i) implies i == k by {
            if i < k {
                assert(!table[i].binds(deck, control));
            } else if k < i {
                assert(!table[k].binds(deck, control));
            }
        }
    } else {
        if offers(table, deck, control) {
            let j = choose|j: int| 0 <= j < table.len() && (#[trigger] table[j]).binds(
                deck,
                control,
            );
            lemma_some_bound(table, deck, control, j);
        }
    }
}

/// Where an entry is bound, some entry is the first bound one.
proof fn lemma_some_bound(table: Seq<CCMapping>, deck: DeckType, control: u8, j: int)
    requires
        0 <= j < table.len(),
        table[j].binds(deck, control),
    ensures
        exists|i: int| is_first_bound(table, deck, control, i),
    decreases j,
{
    if forall|k: int| 0 <= k < j ==> !(#[trigger] table[k]).binds(deck, control) {
        assert(is_first_bound(table, deck, control, j));
    } else {
        let k = choose|k: int| 0 <= k < j && (#[trigger] table[k]).binds(deck, control);
        lemma_some_bound(table, deck, control, k);
    }
}

/// What looking at the buttons of one snapshot brought.
#[derive(Debug)]
pub struct ButtonOutcome {
    /// The notes to send, in table order.
    pub messages: Vec<MidiMessage>,
    /// The entry that changed the left deck's controller, if one did.
    pub left_change: Option<CCMapping>,
    /// The entry that changed the right deck's controller, if one did.
    pub right_change: Option<CCMapping>,
}

/// Finds the first entry of `table` that asks for `deck`'s controller.
fn find_selected(table: &Vec<CCMapping>, deck: DeckType, buttons: &ButtonState) -> (found: Option<
    usize,
>)
    ensures
        match found {
            Some(i) => first_selected(table@, deck, *buttons) == Some(i as int),
            None => first_selected(table@, deck, *buttons) is None,
        },
{
    let mut i: usize = 0;
    while i < table.len()
        invariant
            i <= table@.len(),
            forall|k: int| 0 <= k < i ==> !(#[trigger] table@[k]).selects(deck, *buttons),
        decreases table@.len() - i,
    {
        if table[i].is_selected(deck, buttons) {
            proof {
                assert(is_first_selected(table@, deck, *buttons, i as int));
                lemma_first_selected(table@, deck, *buttons);
            }
            return Some(i);
        }
        i = i + 1;
    }
    proof {
        lemma_first_selected(table@, deck, *buttons);
        if first_selected(table@, deck, *buttons) is Some {
            let k = first_selected(table@, deck, *buttons).unwrap();
            assert(table@[k].selects(deck, *buttons));
        }
    }
    None
}

/// Lets the first asking entry, if any, take over a stick deck, and names
/// the entry where that changed the deck's controller.
fn reassign_deck(
    state: &mut DispatcherState,
    table: &Vec<CCMapping>,
    deck: DeckType,
    buttons: &ButtonState,
) -> (change: Option<CCMapping>)
    requires
        deck != DeckType::Common,
    ensures
        *final(state) == old(state).with_cc(
            deck,
            next_cc(table@, deck, *buttons, old(state).deck(deck).current_cc),
        ),
        change == change_of(table@, deck, *buttons, old(state).deck(deck).current_cc),
{
    match find_selected(table, deck, buttons) {
        Some(i) => {
            let entry = table[i];
            proof {
                lemma_first_selected(table@, deck, *buttons);
            }
            match entry.cc_number {
                Some(control) => {
                    if update_cc_if_changed(state, deck, control) {
                        Some(entry)
                    } else {
                        None
                    }
                },
                None => None,
            }
        },
        None => None,
    }
}

/// What one entry sends for the step from `before` to `now`.
fn entry_messages(entry: &CCMapping, before: &ButtonState, now: &ButtonState) -> (message: Option<
    MidiMessage,
>)
    ensures
        match message {
            Some(m) => note_edge(*entry, *before, *now) == seq![m],
            None => note_edge(*entry, *before, *now) == Seq::<MidiMessage>::empty(),
        },
{
    match entry.behavior {
        Behavior::Note => match entry.note_number {
            Some(note) => {
                let current_pressed = get_button(now, entry.button);
                let was_pressed = get_button(before, entry.button);
                if current_pressed && !was_pressed {
                    Some(
                        MidiMessage::NoteOn {
                            channel: entry.deck.midi_channel(),
                            note,
                            velocity: NOTE_VELOCITY,
                        },
                    )
                } else if !current_pressed && was_pressed {
                    Some(MidiMessage::NoteOff { channel: entry.deck.midi_channel(), note })
                } else {
                    None
                }
            },
            None => None,
        },
        _ => None,
    }
}

/// Looks at the buttons of one snapshot, under the table its layer selects.
///
/// Every note entry is held against the snapshot before: a button that went
/// down sends one note on, one that came up one note off. For each stick
/// deck the first pressed entry that carries a controller takes the deck
/// over. The snapshot's buttons are then remembered for the next call.
pub fn process_button(
    state: &mut DispatcherState,
    config: &MappingConfig,
    snapshot: &ControllerState,
) -> (outcome: ButtonOutcome)
    ensures
        *final(state) == after_buttons(*old(state), *config, *snapshot),
        outcome.messages@ == button_messages(
            config.table(layer_of(snapshot.buttons)),
            old(state).last_buttons,
            snapshot.buttons,
        ),
        outcome.left_change == change_of(
            config.table(layer_of(snapshot.buttons)),
            DeckType::Left,
            snapshot.buttons,
            old(state).left.current_cc,
        ),
        outcome.right_change == change_of(
            config.table(layer_of(snapshot.buttons)),
            DeckType::Right,
            snapshot.buttons,
            old(state).right.current_cc,
        ),
        config.wf() && old(state).assignments_known(*config) ==> final(state).assignments_known(
            *config,
        ),
{
    let table = get_active_mappings(config, snapshot);
    let before = state.last_buttons;
    let mut messages: Vec<MidiMessage> = Vec::new();
    let mut i: usize = 0;
    assert(table@.take(0) =~= Seq::<CCMapping>::empty());
    while i < table.len()
        invariant
            i <= table@.len(),
            messages@ == button_messages(table@.take(i as int), before, snapshot.buttons),
        decreases table@.len() - i,
    {
        assert(table@.take(i + 1).drop_last() =~= table@.take(i as int));
        match entry_messages(&table[i], &before, &snapshot.buttons) {
            Some(message) => {
                messages.push(message);
            },
            None => {},
        }
        i = i + 1;
    }
    assert(table@.take(table@.len() as int) =~= table@);
    let left_change = reassign_deck(state, table, DeckType::Left, &snapshot.buttons);
    let right_change = reassign_deck(state, table, DeckType::Right, &snapshot.buttons);
    state.last_buttons = snapshot.buttons;
    proof {
        if config.wf() && old(state).assignments_known(*config) {
            lemma_assignment_stays_known(*config, DeckType::Left, snapshot.buttons, old(state).left.current_cc);
            lemma_assignment_stays_known(*config, DeckType::Right, snapshot.buttons, old(state).right.current_cc);
        }
    }
    ButtonOutcome { messages, left_change, right_change }
}

/// A deck that drives a controller the primary table knows for it still
/// does so after any button state, under either layer.
pub proof fn lemma_assignment_stays_known(
    config: MappingConfig,
    deck: DeckType,
    buttons: ButtonState,
    before: u8,
)
    requires
        config.wf(),
        deck != DeckType::Common,
        offers(config.primary@, deck, before),
    ensures
        offers(
            config.primary@,
            deck,
            next_cc(config.table(layer_of(buttons)), deck, buttons, before),
        ),
{
    let table = config.table(layer_of(buttons));
    lemma_first_selected(table, deck, buttons);
    match first_selected(table, deck, buttons) {
        Some(i) => {
            let entry = table[i];
            assert(entry.reassigns(deck));
            if layer_of(buttons) == Layer::Primary {
                assert(config.primary@[i].binds(deck, entry.cc_number.unwrap()));
            } else {
                assert(secondary_entry_is_known(config.primary@, config.secondary@[i]));
            }
        },
        None => {},
    }
}

/// Whether a stick at `radius` holds its note: an open note stays open down
/// to `deadzone_off`, a closed one opens only beyond `deadzone_on`.
pub open spec fn gate_open(config: MappingConfig, note_on: bool, radius: u32) -> bool {
    if note_on {
        radius >= config.deadzone_off
    } else {
        radius > config.deadzone_on
    }
}

/// Whether the stick's note sounds after the stick was looked at under
/// `entry`: entries without a note leave it as it was.
pub open spec fn stick_note_after(
    config: MappingConfig,
    entry: CCMapping,
    deck: DeckState,
    pos: StickPosition,
) -> bool {
    if entry.note_number is Some {
        gate_open(config, deck.note_on, pos.radius)
    } else {
        deck.note_on
    }
}

/// The note message a stick sends on `channel` under `entry`: note on where
/// its gate opened, note off where it closed.
pub open spec fn stick_note(
    config: MappingConfig,
    entry: CCMapping,
    channel: u8,
    deck: DeckState,
    pos: StickPosition,
) -> Seq<MidiMessage> {
    match entry.note_number {
        Some(note) => {
            let sounding = gate_open(config, deck.note_on, pos.radius);
            if sounding && !deck.note_on {
                seq![MidiMessage::NoteOn { channel, note, velocity: NOTE_VELOCITY }]
            } else if !sounding && deck.note_on {
                seq![MidiMessage::NoteOff { channel, note }]
            } else {
                Seq::empty()
            }
        },
        None => Seq::empty(),
    }
}

/// The controller value a stick yields under `entry`.
pub open spec fn stick_value(
    config: MappingConfig,
    entry: CCMapping,
    deck: DeckState,
    pos: StickPosition,
) -> Option<u8> {
    match entry.behavior {
        Behavior::CCAbsolute => absolute_output(pos, config.deadzone_cc),
        Behavior::CCRelative => relative_output(
            pos,
            config.deadzone_cc,
            config.primary_steps,
            deck.last_position,
        ),
        Behavior::Note => None,
    }
}

/// The controller change that carries `value`, if there is a value.
pub open spec fn cc_message(channel: u8, controller: u8, value: Option<u8>) -> Seq<MidiMessage> {
    match value {
        Some(v) => seq![MidiMessage::ControlChange { channel, controller, value: v }],
        None => Seq::empty(),
    }
}

/// What a stick deck sends for one stick position in the primary layer: the
/// entry bound to the deck's controller decides; without one, nothing.
pub open spec fn stick_messages(
    config: MappingConfig,
    which: DeckType,
    deck: DeckState,
    pos: StickPosition,
) -> Seq<MidiMessage> {
    match first_bound(config.primary@, which, deck.current_cc) {
        Some(i) => {
            let entry = config.primary@[i];
            stick_note(config, entry, which.channel(), deck, pos) + cc_message(
                which.channel(),
                deck.current_cc,
                stick_value(config, entry, deck, pos),
            )
        },
        None => Seq::empty(),
    }
}

/// A stick deck's memory after one stick position in the primary layer.
pub open spec fn stick_next(
    config: MappingConfig,
    which: DeckType,
    deck: DeckState,
    pos: StickPosition,
) -> DeckState {
    match first_bound(config.primary@, which, deck.current_cc) {
        Some(i) => {
            let entry = config.primary@[i];
            DeckState {
                current_cc: deck.current_cc,
                last_position: if entry.behavior == Behavior::CCRelative {
                    relative_memory(
                        pos,
                        config.deadzone_cc,
                        config.primary_steps,
                        deck.last_position,
                    )
                } else {
                    deck.last_position
                },
                note_on: stick_note_after(config, entry, deck, pos),
            }
        },
        None => deck,
    }
}

/// Finds the first entry of `table` bound to `control` on `deck`.
fn find_bound(table: &Vec<CCMapping>, deck: DeckType, control: u8) -> (found: Option<usize>)
    ensures
        match found {
            Some(i) => first_bound(table@, deck, control) == Some(i as int),
            None => first_bound(table@, deck, control) is None,
        },
{
    let mut i: usize = 0;
    while i < table.len()
        invariant
            i <= table@.len(),
            forall|k: int| 0 <= k < i ==> !(#[trigger] table@[k]).binds(deck, control),
        decreases table@.len() - i,
    {
        if table[i].is_bound_to(deck, control) {
            proof {
                assert(is_first_bound(table@, deck, control, i as int));
                lemma_first_bound(table@, deck, control);
            }
            return Some(i);
        }
        i = i + 1;
    }
    proof {
        lemma_first_bound(table@, deck, control);
        if first_bound(table@, deck, control) is Some {
            let k = first_bound(table@, deck, control).unwrap();
            assert(table@[k].binds(deck, control));
        }
    }
    None
}

/// Looks at one stick in the primary layer.
///
/// The entry of the primary table that is bound to the deck's controller
/// says how: where it carries a note, the stick's deflection opens and
/// closes that note with hysteresis; its behavior turns the position into a
/// controller value, which goes out on the deck's channel under the deck's
/// controller.
pub fn process_stick(
    deck: &mut DeckState,
    config: &MappingConfig,
    which: DeckType,
    pos: StickPosition,
) -> (messages: Vec<MidiMessage>)
    requires
        which != DeckType::Common,
    ensures
        messages@ == stick_messages(*config, which, *old(deck), pos),
        *final(deck) == stick_next(*config, which, *old(deck), pos),
{
    let mut messages: Vec<MidiMessage> = Vec::new();
    let control = deck.current_cc;
    match find_bound(&config.primary, which, control) {
        Some(i) => {
            let entry = config.primary[i];
            let channel = which.midi_channel();
            match entry.note_number {
                Some(note) => {
                    let is_pressed = if deck.note_on {
                        pos.radius >= config.deadzone_off
                    } else {
                        pos.radius > config.deadzone_on
                    };
                    if is_pressed && !deck.note_on {
                        deck.note_on = true;
                        messages.push(
                            MidiMessage::NoteOn { channel, note, velocity: NOTE_VELOCITY },
                        );
                    } else if !is_pressed && deck.note_on {
                        deck.note_on = false;
                        messages.push(MidiMessage::NoteOff { channel, note });
                    }
                },
                None => {},
            }
            let ghost notes = messages@;
            let midi_value = match entry.behavior {
                Behavior::CCAbsolute => calculate_midi_cc_value_absolute(pos, config.deadzone_cc),
                Behavior::CCRelative => {
                    let mut last = deck.last_position;
                    let value = calculate_midi_cc_value_relative(
                        pos,
                        config.deadzone_cc,
                        config.primary_steps,
                        &mut last,
                    );
                    deck.last_position = last;
                    value
                },
                Behavior::Note => None,
            };
            match midi_value {
                Some(value) => {
                    messages.push(MidiMessage::ControlChange { channel, controller: control, value });
                },
                None => {},
            }
            assert(messages@ =~= notes + cc_message(channel, control, midi_value));
        },
        None => {},
    }
    messages
}

/// Whether a message is a jog step: a controller change on the common
/// channel under the jog controller.
pub open spec fn is_jog(message: MidiMessage) -> bool {
    message matches MidiMessage::ControlChange { channel, controller, .. } && channel
        == DeckType::Common.channel() && controller == JOG_CONTROLLER
}

/// What one stick sends in the secondary layer: its motion as a jog step on
/// the common channel, whatever controller its deck drives.
pub open spec fn jog_messages(config: MappingConfig, deck: DeckState, pos: StickPosition) -> Seq<
    MidiMessage,
> {
    cc_message(
        DeckType::Common.channel(),
        JOG_CONTROLLER,
        relative_output(pos, config.deadzone_cc, config.secondary_steps, deck.last_position),
    )
}

/// A stick deck's memory after one stick position in the secondary layer.
pub open spec fn jog_next(config: MappingConfig, deck: DeckState, pos: StickPosition) -> DeckState {
    deck.with_position(
        relative_memory(pos, config.deadzone_cc, config.secondary_steps, deck.last_position),
    )
}

/// The dispatcher's memory after the whole of `snapshot`: first the
/// buttons, then the two sticks under the layer the snapshot selects.
pub open spec fn next_state(
    state: DispatcherState,
    config: MappingConfig,
    snapshot: ControllerState,
) -> DispatcherState {
    let mid = after_buttons(state, config, snapshot);
    match layer_of(snapshot.buttons) {
        Layer::Primary => DispatcherState {
            left: stick_next(config, DeckType::Left, mid.left, snapshot.sticks.left),
            right: stick_next(config, DeckType::Right, mid.right, snapshot.sticks.right),
            last_buttons: mid.last_buttons,
        },
        Layer::Secondary => DispatcherState {
            left: jog_next(config, mid.left, snapshot.sticks.left),
            right: jog_next(config, mid.right, snapshot.sticks.right),
            last_buttons: mid.last_buttons,
        },
    }
}

/// What the two sticks of `snapshot` send, the left one first, once the
/// buttons were looked at.
pub open spec fn sticks_messages(
    mid: DispatcherState,
    config: MappingConfig,
    snapshot: ControllerState,
) -> Seq<MidiMessage> {
    match layer_of(snapshot.buttons) {
        Layer::Primary => stick_messages(config, DeckType::Left, mid.left, snapshot.sticks.left)
            + stick_messages(config, DeckType::Right, mid.right, snapshot.sticks.right),
        Layer::Secondary => jog_messages(config, mid.left, snapshot.sticks.left) + jog_messages(
            config,
            mid.right,
            snapshot.sticks.right,
        ),
    }
}

/// Everything `snapshot` sends: the notes of the buttons, then the sticks.
pub open spec fn snapshot_messages(
    state: DispatcherState,
    config: MappingConfig,
    snapshot: ControllerState,
) -> Seq<MidiMessage> {
    button_messages(
        config.table(layer_of(snapshot.buttons)),
        state.last_buttons,
        snapshot.buttons,
    ) + sticks_messages(after_buttons(state, config, snapshot), config, snapshot)
}

/// What one snapshot brought.
#[derive(Debug)]
pub struct Dispatch {
    /// The messages to send, in order.
    pub messages: Vec<MidiMessage>,
    /// The entry that changed the left deck's controller, if one did.
    pub left_change: Option<CCMapping>,
    /// The entry that changed the right deck's controller, if one did.
    pub right_change: Option<CCMapping>,
}

/// Sends one stick's motion as a jog step.
fn process_jog(deck: &mut DeckState, config: &MappingConfig, pos: StickPosition, messages: &mut Vec<
    MidiMessage,
>)
    ensures
        final(messages)@ == old(messages)@ + jog_messages(*config, *old(deck), pos),
        *final(deck) == jog_next(*config, *old(deck), pos),
{
    let mut last = deck.last_position;
    let value = calculate_midi_cc_value_relative(
        pos,
        config.deadzone_cc,
        config.secondary_steps,
        &mut last,
    );
    deck.last_position = last;
    match value {
        Some(v) => {
            messages.push(
                MidiMessage::ControlChange {
                    channel: DeckType::Common.midi_channel(),
                    controller: JOG_CONTROLLER,
                    value: v,
                },
            );
        },
        None => {
            assert(messages@ =~= old(messages)@ + Seq::<MidiMessage>::empty());
        },
    }
}

/// Moves every message of `more` to the end of `messages`.
fn append_messages(messages: &mut Vec<MidiMessage>, more: &Vec<MidiMessage>)
    ensures
        final(messages)@ == old(messages)@ + more@,
{
    let mut i: usize = 0;
    assert(more@.take(0) =~= Seq::<MidiMessage>::empty());
    assert(messages@ =~= old(messages)@ + more@.take(0));
    while i < more.len()
        invariant
            i <= more@.len(),
            messages@ == old(messages)@ + more@.take(i as int),
        decreases more@.len() - i,
    {
        messages.push(more[i]);
        assert(more@.take(i + 1) =~= more@.take(i as int).push(more@[i as int]));
        assert(messages@ =~= old(messages)@ + more@.take(i + 1));
        i = i + 1;
    }
    assert(more@.take(more@.len() as int) =~= more@);
}

/// Runs one snapshot through the engine: layer selection, buttons, sticks.
pub fn process_snapshot(
    state: &mut DispatcherState,
    config: &MappingConfig,
    snapshot: &ControllerState,
) -> (dispatch: Dispatch)
    ensures
        *final(state) == next_state(*old(state), *config, *snapshot),
        dispatch.messages@ == snapshot_messages(*old(state), *config, *snapshot),
        dispatch.left_change == change_of(
            config.table(layer_of(snapshot.buttons)),
            DeckType::Left,
            snapshot.buttons,
            old(state).left.current_cc,
        ),
        dispatch.right_change == change_of(
            config.table(layer_of(snapshot.buttons)),
            DeckType::Right,
            snapshot.buttons,
            old(state).right.current_cc,
        ),
        final(state).last_buttons == snapshot.buttons,
        config.wf() && old(state).assignments_known(*config) ==> final(state).assignments_known(
            *config,
        ),
{
    let outcome = process_button(state, config, snapshot);
    let ButtonOutcome { messages, left_change, right_change } = outcome;
    let mut messages = messages;
    let ghost mid = *state;
    proof {
        lemma_sticks_keep_assignment(*config, mid, *snapshot);
    }
    match active_layer(snapshot) {
        Layer::Secondary => {
            let mut left = state.left;
            process_jog(&mut left, config, snapshot.sticks.left, &mut messages);
            state.left = left;
            let mut right = state.right;
            process_jog(&mut right, config, snapshot.sticks.right, &mut messages);
            state.right = right;
        },
        Layer::Primary => {
            let mut left = state.left;
            let left_messages = process_stick(&mut left, config, DeckType::Left, snapshot.sticks.left);
            state.left = left;
            append_messages(&mut messages, &left_messages);
            let mut right = state.right;
            let right_messages = process_stick(
                &mut right,
                config,
                DeckType::Right,
                snapshot.sticks.right,
            );
            state.right = right;
            append_messages(&mut messages, &right_messages);
        },
    }
    assert(messages@ =~= snapshot_messages(*old(state), *config, *snapshot));
    Dispatch { messages, left_change, right_change }
}

/// Looking at the sticks never changes the controller a deck drives.
pub proof fn lemma_sticks_keep_assignment(
    config: MappingConfig,
    mid: DispatcherState,
    snapshot: ControllerState,
)
    ensures
        stick_next(config, DeckType::Left, mid.left, snapshot.sticks.left).current_cc
            == mid.left.current_cc,
        stick_next(config, DeckType::Right, mid.right, snapshot.sticks.right).current_cc
            == mid.right.current_cc,
        jog_next(config, mid.left, snapshot.sticks.left).current_cc == mid.left.current_cc,
        jog_next(config, mid.right, snapshot.sticks.right).current_cc == mid.right.current_cc,
{
}

impl Lifecycle {
    /// The lifecycle before the first start.
    pub open spec fn stopped() -> Lifecycle {
        Lifecycle { running: false }
    }

    pub fn new() -> (lifecycle: Lifecycle)
        ensures
            lifecycle == Self::stopped(),
    {
        Lifecycle { running: false }
    }

    /// Whether the dispatch loop may wait for another snapshot. The loop asks
    /// before each receive, so a snapshot in flight is always finished.
    pub fn should_receive(&self) -> (go_on: bool)
        ensures
            go_on == self.running,
    {
        self.running
    }
}

/// Starts the engine. A stopped engine is set running and gets the memory
/// its configuration prescribes; a running one is left alone and `None`
/// comes back.
pub fn start_mapping(lifecycle: &mut Lifecycle, config: &MappingConfig) -> (fresh: Option<
    DispatcherState,
>)
    ensures
        final(lifecycle).running,
        old(lifecycle).running ==> fresh is None,
        !old(lifecycle).running ==> fresh == Some(DispatcherState::initial(*config)),
        config.wf() ==> (fresh matches Some(state) ==> state.assignments_known(*config)),
{
    if lifecycle.running {
        None
    } else {
        lifecycle.running = true;
        Some(DispatcherState::new(config))
    }
}

/// Stops the engine; the dispatch loop leaves before its next receive.
pub fn stop_mapping(lifecycle: &mut Lifecycle)
    ensures
        !final(lifecycle).running,
{
    lifecycle.running = false;
}

/// One turn of the dispatch loop, for what the receive brought.
///
/// A snapshot is run through the engine and its dispatch handed back; the
/// lifecycle is not consulted, so a stop that came while the loop waited
/// does not drop the snapshot. `None` stands for a closed input channel: the
/// engine stops and nothing is sent.
pub fn handle_controller_events(
    lifecycle: &mut Lifecycle,
    state: &mut DispatcherState,
    config: &MappingConfig,
    received: Option<ControllerState>,
) -> (dispatch: Option<Dispatch>)
    ensures
        match received {
            Some(snapshot) => {
                &&& *final(lifecycle) == *old(lifecycle)
                &&& *final(state) == next_state(*old(state), *config, snapshot)
                &&& dispatch matches Some(d) && d.messages@ == snapshot_messages(
                    *old(state),
                    *config,
                    snapshot,
                ) && d.left_change == change_of(
                    config.table(layer_of(snapshot.buttons)),
                    DeckType::Left,
                    snapshot.buttons,
                    old(state).left.current_cc,
                ) && d.right_change == change_of(
                    config.table(layer_of(snapshot.buttons)),
                    DeckType::Right,
                    snapshot.buttons,
                    old(state).right.current_cc,
                )
            },
            None => {
                &&& !final(lifecycle).running
                &&& *final(state) == *old(state)
                &&& dispatch is None
            },
        },
        config.wf() && old(state).assignments_known(*config) ==> final(state).assignments_known(
            *config,
        ),
{
    match received {
        Some(snapshot) => Some(process_snapshot(state, config, &snapshot)),
        None => {
            stop_mapping(lifecycle);
            None
        },
    }
}

/// A note entry whose button goes down, is held and comes up again sends one
/// note on at the press, nothing while held, and one note off at the
/// release.
pub proof fn law_button_edges(
    entry: CCMapping,
    released: ButtonState,
    pressed: ButtonState,
    held: ButtonState,
    back: ButtonState,
)
    requires
        entry.behavior == Behavior::Note,
        entry.note_number is Some,
        !released.pressed(entry.button),
        pressed.pressed(entry.button),
        held.pressed(entry.button),
        !back.pressed(entry.button),
    ensures
        note_edge(entry, released, pressed) == seq![
            MidiMessage::NoteOn {
                channel: entry.deck.channel(),
                note: entry.note_number.unwrap(),
                velocity: NOTE_VELOCITY,
            },
        ],
        note_edge(entry, pressed, held) == Seq::<MidiMessage>::empty(),
        note_edge(entry, held, back) == seq![
            MidiMessage::NoteOff { channel: entry.deck.channel(), note: entry.note_number.unwrap() },
        ],
{
}

/// Buttons that did not change since the snapshot before send nothing,
/// whatever the table.
pub proof fn law_unchanged_buttons_are_silent(table: Seq<CCMapping>, buttons: ButtonState)
    ensures
        button_messages(table, buttons, buttons) == Seq::<MidiMessage>::empty(),
    decreases table.len(),
{
    if table.len() > 0 {
        law_unchanged_buttons_are_silent(table.drop_last(), buttons);
        assert(note_edge(table.last(), buttons, buttons) == Seq::<MidiMessage>::empty());
        assert(button_messages(table, buttons, buttons) =~= Seq::<MidiMessage>::empty());
    }
}

/// The layer is chosen from the current snapshot alone, and the buttons are
/// held against the snapshot right before, whichever layer that one was in:
/// after any snapshot the remembered buttons are its own, so the notes of
/// the next one are those of its own layer's table between the two.
pub proof fn law_layer_switch(
    state: DispatcherState,
    config: MappingConfig,
    first: ControllerState,
    second: ControllerState,
)
    ensures
        next_state(state, config, first).last_buttons == first.buttons,
        snapshot_messages(next_state(state, config, first), config, second).subrange(
            0,
            button_messages(
                config.table(layer_of(second.buttons)),
                first.buttons,
                second.buttons,
            ).len() as int,
        ) == button_messages(
            config.table(layer_of(second.buttons)),
            first.buttons,
            second.buttons,
        ),
        layer_of(second.buttons) == Layer::Secondary <==> second.buttons.start
            || second.buttons.select,
{
    let mid = next_state(state, config, first);
    let notes = button_messages(
        config.table(layer_of(second.buttons)),
        first.buttons,
        second.buttons,
    );
    let rest = sticks_messages(after_buttons(mid, config, second), config, second);
    assert((notes + rest).subrange(0, notes.len() as int) =~= notes);
}

/// The secondary layer never looks a deck's controller up for its sticks and
/// never touches a stick's note: whatever the sticks do there goes out as a
/// jog on the common channel.
pub proof fn law_secondary_sticks_are_jog(
    state: DispatcherState,
    config: MappingConfig,
    snapshot: ControllerState,
)
    requires
        layer_of(snapshot.buttons) == Layer::Secondary,
    ensures
        next_state(state, config, snapshot).left.note_on == state.left.note_on,
        next_state(state, config, snapshot).right.note_on == state.right.note_on,
        forall|k: int|
            0 <= k < sticks_messages(after_buttons(state, config, snapshot), config, snapshot).len()
                ==> is_jog(
                #[trigger] sticks_messages(
                    after_buttons(state, config, snapshot),
                    config,
                    snapshot,
                )[k],
            ),
{
}

/// A deck's controller follows the first pressed entry that carries one, in
/// the same snapshot, and stays with the deck for as long as no such entry
/// is pressed: the sticks of every later snapshot are sent under it.
pub proof fn law_assignment_persists(
    state: DispatcherState,
    config: MappingConfig,
    press: ControllerState,
    later: ControllerState,
    i: int,
)
    requires
        is_first_selected(
            config.table(layer_of(press.buttons)),
            DeckType::Left,
            press.buttons,
            i,
        ),
        none_selected(config.table(layer_of(later.buttons)), DeckType::Left, later.buttons),
    ensures
        next_state(state, config, press).left.current_cc == config.table(
            layer_of(press.buttons),
        )[i].cc_number.unwrap(),
        next_state(next_state(state, config, press), config, later).left.current_cc == next_state(
            state,
            config,
            press,
        ).left.current_cc,
{
    lemma_first_selected(config.table(layer_of(press.buttons)), DeckType::Left, press.buttons);
    lemma_first_selected(config.table(layer_of(later.buttons)), DeckType::Left, later.buttons);
    lemma_sticks_keep_assignment(config, after_buttons(state, config, press), press);
    let mid = next_state(state, config, press);
    lemma_sticks_keep_assignment(config, after_buttons(mid, config, later), later);
}

} // verus!
