//! Decks, behaviors and the layered table that binds buttons to MIDI numbers.

use crate::xinput_handler::{get_button, ButtonId, ButtonState, ControllerState};
use vstd::prelude::*;

verus! {

/// A logical output target. `Left` and `Right` each own one stick and one
/// reassignable controller number; `Common` carries fixed auxiliary messages.
#[derive(Clone, Copy, Debug, PartialEq, Eq, Structural)]
pub enum DeckType {
    Left,
    Right,
    Common,
}

impl DeckType {
    /// The MIDI channel a deck sends on.
    pub open spec fn channel(self) -> u8 {
        match self {
            DeckType::Left => 0,
            DeckType::Right => 1,
            DeckType::Common => 15,
        }
    }

    pub fn midi_channel(&self) -> (channel: u8)
        ensures
            channel == self.channel(),
    {
        match self {
            DeckType::Left => 0,
            DeckType::Right => 1,
            DeckType::Common => 15,
        }
    }
}

/// How an entry turns input into output.
#[derive(Clone, Copy, Debug, PartialEq, Eq, Structural)]
pub enum Behavior {
    /// The stick's angle becomes the controller value.
    CCAbsolute,
    /// The stick's angular motion becomes a signed step.
    CCRelative,
    /// The button's edges become note on and note off.
    Note,
}

/// One row of a mapping table.
#[derive(Clone, Copy, Debug)]
pub struct CCMapping {
    /// The button the entry listens to.
    pub button: ButtonId,
    /// The controller the deck's stick drives once this entry is chosen.
    pub cc_number: Option<u8>,
    /// The note the entry plays.
    pub note_number: Option<u8>,
    /// A label for logs.
    pub description: &'static str,
    pub deck: DeckType,
    pub behavior: Behavior,
}

impl CCMapping {
    /// A row that hands the deck's stick to `cc`, read as an absolute angle.
    pub open spec fn absolute_row(
        button: ButtonId,
        cc: u8,
        description: &'static str,
        deck: DeckType,
    ) -> CCMapping {
        CCMapping {
            button,
            cc_number: Some(cc),
            note_number: None,
            description,
            deck,
            behavior: Behavior::CCAbsolute,
        }
    }

    /// A row that hands the deck's stick to `cc`, read as angular steps, and
    /// lets the stick's deflection play `note`.
    pub open spec fn relative_row(
        button: ButtonId,
        cc: u8,
        note: u8,
        description: &'static str,
        deck: DeckType,
    ) -> CCMapping {
        CCMapping {
            button,
            cc_number: Some(cc),
            note_number: Some(note),
            description,
            deck,
            behavior: Behavior::CCRelative,
        }
    }

    /// A row that plays `note` on the button's edges.
    pub open spec fn note_row(
        button: ButtonId,
        note: u8,
        description: &'static str,
        deck: DeckType,
    ) -> CCMapping {
        CCMapping {
            button,
            cc_number: None,
            note_number: Some(note),
            description,
            deck,
            behavior: Behavior::Note,
        }
    }

    pub fn absolute(button: ButtonId, cc: u8, description: &'static str, deck: DeckType) -> (row:
        CCMapping)
        ensures
            row == Self::absolute_row(button, cc, description, deck),
    {
        CCMapping {
            button,
            cc_number: Some(cc),
            note_number: None,
            description,
            deck,
            behavior: Behavior::CCAbsolute,
        }
    }

    pub fn relative(
        button: ButtonId,
        cc: u8,
        note: u8,
        description: &'static str,
        deck: DeckType,
    ) -> (row: CCMapping)
        ensures
            row == Self::relative_row(button, cc, note, description, deck),
    {
        CCMapping {
            button,
            cc_number: Some(cc),
            note_number: Some(note),
            description,
            deck,
            behavior: Behavior::CCRelative,
        }
    }

    pub fn note(button: ButtonId, note: u8, description: &'static str, deck: DeckType) -> (row:
        CCMapping)
        ensures
            row == Self::note_row(button, note, description, deck),
    {
        CCMapping {
            button,
            cc_number: None,
            note_number: Some(note),
            description,
            deck,
            behavior: Behavior::Note,
        }
    }

    /// Whether the entry names `control` as a controller of `deck`.
    pub open spec fn binds(self, deck: DeckType, control: u8) -> bool {
        self.deck == deck && self.cc_number == Some(control)
    }

    /// Whether pressing the entry's button can change `deck`'s controller.
    pub open spec fn reassigns(self, deck: DeckType) -> bool {
        self.behavior != Behavior::Note && self.cc_number is Some && self.deck == deck
    }

    /// Whether the entry asks for `deck`'s controller under `buttons`.
    pub open spec fn selects(self, deck: DeckType, buttons: ButtonState) -> bool {
        self.reassigns(deck) && buttons.pressed(self.button)
    }

    /// Exec form of `binds`.
    pub fn is_bound_to(&self, deck: DeckType, control: u8) -> (bound: bool)
        ensures
            bound == self.binds(deck, control),
    {
        self.deck == deck && match self.cc_number {
            Some(cc) => cc == control,
            None => false,
        }
    }

    /// Exec form of `selects`.
    pub fn is_selected(&self, deck: DeckType, buttons: &ButtonState) -> (selected: bool)
        ensures
            selected == self.selects(deck, *buttons),
    {
        self.behavior != Behavior::Note && self.cc_number.is_some() && self.deck == deck
            && get_button(buttons, self.button)
    }
}

/// The two alternative tables.
#[derive(Clone, Copy, Debug, PartialEq, Eq, Structural)]
pub enum Layer {
    Primary,
    Secondary,
}

/// The layer a button state selects: `Secondary` while `start` or `select`
/// is held, `Primary` otherwise.
pub open spec fn layer_of(buttons: ButtonState) -> Layer {
    if buttons.start || buttons.select {
        Layer::Secondary
    } else {
        Layer::Primary
    }
}

/// Chooses the layer from the current snapshot alone.
pub fn active_layer(state: &ControllerState) -> (layer: Layer)
    ensures
        layer == layer_of(state.buttons),
{
    if state.buttons.start || state.buttons.select {
        Layer::Secondary
    } else {
        Layer::Primary
    }
}

/// Whether some entry of `table` names `control` as a controller of `deck`.
pub open spec fn offers(table: Seq<CCMapping>, deck: DeckType, control: u8) -> bool {
    exists|i: int| 0 <= i < table.len() && (#[trigger] table[i]).binds(deck, control)
}

/// Whether `i` is the first entry of `table` bound to `control` on `deck`.
pub open spec fn is_first_bound(table: Seq<CCMapping>, deck: DeckType, control: u8, i: int) -> bool {
    &&& 0 <= i < table.len()
    &&& table[i].binds(deck, control)
    &&& forall|j: int| 0 <= j < i ==> !(#[trigger] table[j]).binds(deck, control)
}

/// Whether `i` is the first entry of `table` that asks for `deck`'s
/// controller under `buttons`.
pub open spec fn is_first_selected(
    table: Seq<CCMapping>,
    deck: DeckType,
    buttons: ButtonState,
    i: int,
) -> bool {
    &&& 0 <= i < table.len()
    &&& table[i].selects(deck, buttons)
    &&& forall|j: int| 0 <= j < i ==> !(#[trigger] table[j]).selects(deck, buttons)
}

/// Whether no entry of `table` asks for `deck`'s controller under `buttons`.
pub open spec fn none_selected(table: Seq<CCMapping>, deck: DeckType, buttons: ButtonState) -> bool {
    forall|j: int| 0 <= j < table.len() ==> !(#[trigger] table[j]).selects(deck, buttons)
}

/// The primary table: every button picks the controller its deck's stick
/// drives.
pub open spec fn primary_table() -> Seq<CCMapping> {
    seq![
        CCMapping::absolute_row(ButtonId::Down, 25, "Down", DeckType::Left),
        CCMapping::absolute_row(ButtonId::Left, 26, "Left", DeckType::Left),
        CCMapping::absolute_row(ButtonId::Up, 24, "Up", DeckType::Left),
        CCMapping::absolute_row(ButtonId::Right, 23, "Right", DeckType::Left),
        CCMapping::absolute_row(ButtonId::L, 28, "L", DeckType::Left),
        CCMapping::absolute_row(ButtonId::Lt, 9, "LT", DeckType::Left),
        CCMapping::relative_row(ButtonId::LStick, 6, 6, "L stick", DeckType::Left),
        CCMapping::absolute_row(ButtonId::South, 25, "South", DeckType::Right),
        CCMapping::absolute_row(ButtonId::East, 26, "East", DeckType::Right),
        CCMapping::absolute_row(ButtonId::North, 24, "North", DeckType::Right),
        CCMapping::absolute_row(ButtonId::West, 23, "West", DeckType::Right),
        CCMapping::absolute_row(ButtonId::R, 28, "R", DeckType::Right),
        CCMapping::absolute_row(ButtonId::Rt, 9, "RT", DeckType::Right),
        CCMapping::relative_row(ButtonId::RStick, 6, 6, "R stick", DeckType::Right),
    ]
}

/// The secondary table: every button plays a note.
pub open spec fn secondary_table() -> Seq<CCMapping> {
    seq![
        CCMapping::note_row(ButtonId::Down, 0, "Down (Note 0)", DeckType::Left),
        CCMapping::note_row(ButtonId::Left, 1, "Left (Note 1)", DeckType::Left),
        CCMapping::note_row(ButtonId::Up, 27, "Up (Note 27)", DeckType::Left),
        CCMapping::note_row(ButtonId::Right, 2, "Right (Note 2)", DeckType::Left),
        CCMapping::note_row(ButtonId::L, 20, "L (Note 20)", DeckType::Left),
        CCMapping::note_row(ButtonId::Lt, 21, "LT (Note 21)", DeckType::Left),
        CCMapping::note_row(ButtonId::LStick, 7, "L stick (Note 7)", DeckType::Common),
        CCMapping::note_row(ButtonId::South, 0, "A (Note 0)", DeckType::Right),
        CCMapping::note_row(ButtonId::East, 2, "B (Note 2)", DeckType::Right),
        CCMapping::note_row(ButtonId::North, 27, "Y (Note 27)", DeckType::Right),
        CCMapping::note_row(ButtonId::West, 1, "X (Note 1)", DeckType::Right),
        CCMapping::note_row(ButtonId::R, 20, "R (Note 20)", DeckType::Right),
        CCMapping::note_row(ButtonId::Rt, 21, "RT (Note 21)", DeckType::Right),
        CCMapping::note_row(ButtonId::RStick, 7, "R stick (Note 7)", DeckType::Common),
    ]
}

pub fn primary_mappings() -> (table: Vec<CCMapping>)
    ensures
        table@ == primary_table(),
{
    let mut table: Vec<CCMapping> = Vec::new();
    table.push(CCMapping::absolute(ButtonId::Down, 25, "Down", DeckType::Left));
    table.push(CCMapping::absolute(ButtonId::Left, 26, "Left", DeckType::Left));
    table.push(CCMapping::absolute(ButtonId::Up, 24, "Up", DeckType::Left));
    table.push(CCMapping::absolute(ButtonId::Right, 23, "Right", DeckType::Left));
    table.push(CCMapping::absolute(ButtonId::L, 28, "L", DeckType::Left));
    table.push(CCMapping::absolute(ButtonId::Lt, 9, "LT", DeckType::Left));
    table.push(CCMapping::relative(ButtonId::LStick, 6, 6, "L stick", DeckType::Left));
    table.push(CCMapping::absolute(ButtonId::South, 25, "South", DeckType::Right));
    table.push(CCMapping::absolute(ButtonId::East, 26, "East", DeckType::Right));
    table.push(CCMapping::absolute(ButtonId::North, 24, "North", DeckType::Right));
    table.push(CCMapping::absolute(ButtonId::West, 23, "West", DeckType::Right));
    table.push(CCMapping::absolute(ButtonId::R, 28, "R", DeckType::Right));
    table.push(CCMapping::absolute(ButtonId::Rt, 9, "RT", DeckType::Right));
    table.push(CCMapping::relative(ButtonId::RStick, 6, 6, "R stick", DeckType::Right));
    table
}

pub fn secondary_mappings() -> (table: Vec<CCMapping>)
    ensures
        table@ == secondary_table(),
{
    let mut table: Vec<CCMapping> = Vec::new();
    table.push(CCMapping::note(ButtonId::Down, 0, "Down (Note 0)", DeckType::Left));
    table.push(CCMapping::note(ButtonId::Left, 1, "Left (Note 1)", DeckType::Left));
    table.push(CCMapping::note(ButtonId::Up, 27, "Up (Note 27)", DeckType::Left));
    table.push(CCMapping::note(ButtonId::Right, 2, "Right (Note 2)", DeckType::Left));
    table.push(CCMapping::note(ButtonId::L, 20, "L (Note 20)", DeckType::Left));
    table.push(CCMapping::note(ButtonId::Lt, 21, "LT (Note 21)", DeckType::Left));
    table.push(CCMapping::note(ButtonId::LStick, 7, "L stick (Note 7)", DeckType::Common));
    table.push(CCMapping::note(ButtonId::South, 0, "A (Note 0)", DeckType::Right));
    table.push(CCMapping::note(ButtonId::East, 2, "B (Note 2)", DeckType::Right));
    table.push(CCMapping::note(ButtonId::North, 27, "Y (Note 27)", DeckType::Right));
    table.push(CCMapping::note(ButtonId::West, 1, "X (Note 1)", DeckType::Right));
    table.push(CCMapping::note(ButtonId::R, 20, "R (Note 20)", DeckType::Right));
    table.push(CCMapping::note(ButtonId::Rt, 21, "RT (Note 21)", DeckType::Right));
    table.push(CCMapping::note(ButtonId::RStick, 7, "R stick (Note 7)", DeckType::Common));
    table
}

/// Everything the engine is started with.
pub struct MappingConfig {
    /// The table in force while neither `start` nor `select` is held.
    pub primary: Vec<CCMapping>,
    /// The table in force while `start` or `select` is held.
    pub secondary: Vec<CCMapping>,
    /// Radius below which a stick sends no controller value.
    pub deadzone_cc: u32,
    /// Radius a stick has to exceed to open its note.
    pub deadzone_on: u32,
    /// Radius below which an open stick note closes.
    pub deadzone_off: u32,
    /// Steps to the revolution for relative entries of the primary table.
    pub primary_steps: u32,
    /// Steps to the revolution for the secondary layer's jog.
    pub secondary_steps: u32,
    /// The controller the left stick drives at start.
    pub initial_left: u8,
    /// The controller the right stick drives at start.
    pub initial_right: u8,
}

impl MappingConfig {
    /// The table of a layer.
    pub open spec fn table(self, layer: Layer) -> Seq<CCMapping> {
        match layer {
            Layer::Primary => self.primary@,
            Layer::Secondary => self.secondary@,
        }
    }

    /// Whether every controller a deck can come to drive is one the primary
    /// table knows for that deck: the two initial ones, and each one a
    /// secondary entry can assign.
    pub open spec fn wf(self) -> bool {
        &&& offers(self.primary@, DeckType::Left, self.initial_left)
        &&& offers(self.primary@, DeckType::Right, self.initial_right)
        &&& forall|i: int|
            0 <= i < self.secondary@.len() ==> secondary_entry_is_known(
                self.primary@,
                #[trigger] self.secondary@[i],
            )
    }

    /// The configuration the controller ships with.
    pub open spec fn is_standard(self) -> bool {
        &&& self.primary@ == primary_table()
        &&& self.secondary@ == secondary_table()
        &&& self.deadzone_cc == 750_000
        &&& self.deadzone_on == 750_000
        &&& self.deadzone_off == 700_000
        &&& self.primary_steps == 360
        &&& self.secondary_steps == 12
        &&& self.initial_left == 28
        &&& self.initial_right == 28
    }

    pub fn standard() -> (config: MappingConfig)
        ensures
            config.is_standard(),
            config.wf(),
    {
        let config = MappingConfig {
            primary: primary_mappings(),
            secondary: secondary_mappings(),
            deadzone_cc: 750_000,
            deadzone_on: 750_000,
            deadzone_off: 700_000,
            primary_steps: 360,
            secondary_steps: 12,
            initial_left: 28,
            initial_right: 28,
        };
        proof {
            assert(config.primary@[4].binds(DeckType::Left, 28));
            assert(config.primary@[11].binds(DeckType::Right, 28));
        }
        config
    }

    /// Checks `wf` at run time.
    pub fn is_valid(&self) -> (valid: bool)
        ensures
            valid == self.wf(),
    {
        if !table_offers(&self.primary, DeckType::Left, self.initial_left) {
            return false;
        }
        if !table_offers(&self.primary, DeckType::Right, self.initial_right) {
            return false;
        }
        let mut i: usize = 0;
        while i < self.secondary.len()
            invariant
                i <= self.secondary@.len(),
                forall|k: int|
                    0 <= k < i ==> secondary_entry_is_known(
                        self.primary@,
                        #[trigger] self.secondary@[k],
                    ),
            decreases self.secondary@.len() - i,
        {
            let entry = self.secondary[i];
            if entry.behavior != Behavior::Note {
                match entry.cc_number {
                    Some(cc) => {
                        if entry.deck != DeckType::Common && !table_offers(
                            &self.primary,
                            entry.deck,
                            cc,
                        ) {
                            assert(!secondary_entry_is_known(self.primary@, self.secondary@[i as int]));
                            return false;
                        }
                    },
                    None => {},
                }
            }
            i = i + 1;
        }
        true
    }
}

/// Whether a secondary entry, where it can assign a controller to a stick
/// deck, assigns one that the primary table knows for that deck.
pub open spec fn secondary_entry_is_known(primary: Seq<CCMapping>, entry: CCMapping) -> bool {
    &&& entry.reassigns(DeckType::Left) ==> offers(
        primary,
        DeckType::Left,
        entry.cc_number.unwrap(),
    )
    &&& entry.reassigns(DeckType::Right) ==> offers(
        primary,
        DeckType::Right,
        entry.cc_number.unwrap(),
    )
}

/// Exec form of `offers`.
pub fn table_offers(table: &Vec<CCMapping>, deck: DeckType, control: u8) -> (found: bool)
    ensures
        found == offers(table@, deck, control),
{
    let mut i: usize = 0;
    while i < table.len()
        invariant
            i <= table@.len(),
            forall|k: int| 0 <= k < i ==> !(#[trigger] table@[k]).binds(deck, control),
        decreases table@.len() - i,
    {
        if table[i].is_bound_to(deck, control) {
            return true;
        }
        i = i + 1;
    }
    false
}

/// Hands out the table in force for a snapshot.
pub fn get_active_mappings<'a>(config: &'a MappingConfig, state: &ControllerState) -> (table:
    &'a Vec<CCMapping>)
    ensures
        table@ == config.table(layer_of(state.buttons)),
{
    match active_layer(state) {
        Layer::Primary => &config.primary,
        Layer::Secondary => &config.secondary,
    }
}

/// The entries of `table` that belong to `deck`, in table order.
pub fn entries_for_deck(table: &Vec<CCMapping>, deck: DeckType) -> (entries: Vec<CCMapping>)
    ensures
        entries@ == table@.filter(|e: CCMapping| e.deck == deck),
{
    let ghost wanted = |e: CCMapping| e.deck == deck;
    let mut entries: Vec<CCMapping> = Vec::new();
    let mut i: usize = 0;
    assert(table@.take(0) =~= Seq::<CCMapping>::empty());
    while i < table.len()
        invariant
            i <= table@.len(),
            wanted == |e: CCMapping| e.deck == deck,
            entries@ == table@.take(i as int).filter(wanted),
        decreases table@.len() - i,
    {
        let entry = table[i];
        proof {
            assert(table@.take(i + 1).drop_last() =~= table@.take(i as int));
            assert(table@.take(i + 1).last() == entry);
            reveal(Seq::filter);
        }
        if entry.deck == deck {
            entries.push(entry);
        }
        i = i + 1;
    }
    assert(table@.take(table@.len() as int) =~= table@);
    entries
}

} // verus!
