//! The closed union of what the display layer can be asked to show: one
//! fully-decoded entity record, or nothing.

use crate::armor::ArmorInfo;
use crate::items::ItemInfo;
use crate::weapons::WeaponInfo;
use vstd::prelude::*;

verus! {

/// What is currently selected for display.
pub enum EntryDisplayState {
    Nothing,
    Armor(ArmorInfo),
    Weapon(WeaponInfo),
    Item(ItemInfo),
}

/// The window title for each display state.
pub open spec fn entry_title(s: EntryDisplayState) -> Seq<char> {
    match s {
        EntryDisplayState::Nothing => "<Nothing Selected>"@,
        EntryDisplayState::Armor(_) => "Armor Info"@,
        EntryDisplayState::Weapon(_) => "Weapon Info"@,
        EntryDisplayState::Item(_) => "Item Info"@,
    }
}

impl EntryDisplayState {
    pub fn title(&self) -> (r: &'static str)
        ensures
            r@ == entry_title(*self),
    {
        match self {
            EntryDisplayState::Nothing => "<Nothing Selected>",
            EntryDisplayState::Armor(_) => "Armor Info",
            EntryDisplayState::Weapon(_) => "Weapon Info",
            EntryDisplayState::Item(_) => "Item Info",
        }
    }
}

impl Default for EntryDisplayState {
    fn default() -> (r: Self)
        ensures
            r is Nothing,
    {
        EntryDisplayState::Nothing
    }
}

} // verus!
