//! Record pieces shared by the armor and weapon schemas, and the event the
//! search core emits toward the display layer.

use crate::entry_display::EntryDisplayState;
use crate::items::ItemInfo;
use crate::text::dec_int;
use vstd::prelude::*;

verus! {

/// An elemental damage or resistance kind.
#[derive(Clone, Copy, PartialEq, Eq, Structural, Debug)]
pub enum Element {
    Fire,
    Water,
    Ice,
    Thunder,
    Dragon,
    Blast,
    Poison,
    Sleep,
    Paralysis,
}

/// The display name of an element.
pub open spec fn element_label(e: Element) -> Seq<char> {
    match e {
        Element::Fire => "Fire"@,
        Element::Water => "Water"@,
        Element::Ice => "Ice"@,
        Element::Thunder => "Thunder"@,
        Element::Dragon => "Dragon"@,
        Element::Blast => "Blast"@,
        Element::Poison => "Poison"@,
        Element::Sleep => "Sleep"@,
        Element::Paralysis => "Paralysis"@,
    }
}

impl Element {
    pub fn label(&self) -> (r: &'static str)
        ensures
            r@ == element_label(*self),
    {
        match self {
            Element::Fire => "Fire",
            Element::Water => "Water",
            Element::Ice => "Ice",
            Element::Thunder => "Thunder",
            Element::Dragon => "Dragon",
            Element::Blast => "Blast",
            Element::Poison => "Poison",
            Element::Sleep => "Sleep",
            Element::Paralysis => "Paralysis",
        }
    }
}

/// One entry of a crafting recipe: an item and how many of it are needed.
#[derive(Debug)]
pub struct CraftingCost {
    pub quantity: i32,
    pub item: ItemInfo,
}

/// A decoration slot of a given rank.
#[derive(Clone, Copy, PartialEq, Eq, Structural, Debug)]
pub struct Slot {
    pub rank: i32,
}

/// One rank of a skill granted by an armor piece.
#[derive(Debug)]
pub struct SkillRank {
    pub id: i32,
    pub level: i32,
    pub description: String,
    pub skill: i32,
    pub skill_name: String,
}

/// The crafting table: one row per recipe entry, the item name beside the
/// needed quantity.
pub open spec fn crafting_cells(mats: Seq<CraftingCost>) -> Seq<Seq<char>>
    decreases mats.len(),
{
    if mats.len() == 0 {
        Seq::<Seq<char>>::empty()
    } else {
        seq![mats.first().item.name@, dec_int(mats.first().quantity as int)] + crafting_cells(
            mats.drop_first(),
        )
    }
}

/// What the search core pushes toward the display layer: show this entry
/// (or nothing) next frame.
pub enum MhwEvent {
    ShowState(EntryDisplayState),
}

} // verus!
