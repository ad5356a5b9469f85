//! The item record fetched from the remote database.

use vstd::prelude::*;

verus! {

/// A full item record; absent optional wire fields default to
/// type-appropriate zero values when decoded.
#[derive(Debug)]
pub struct ItemInfo {
    pub id: i32,
    pub name: String,
    pub description: String,
    pub rarity: u32,
    pub carry_limit: u32,
    pub value: u32,
}

impl Default for ItemInfo {
    fn default() -> (r: Self)
        ensures
            r.id == 0,
            r.name@ == Seq::<char>::empty(),
            r.description@ == Seq::<char>::empty(),
            r.rarity == 0,
            r.carry_limit == 0,
            r.value == 0,
    {
        ItemInfo {
            id: 0,
            name: String::new(),
            description: String::new(),
            rarity: 0,
            carry_limit: 0,
            value: 0,
        }
    }
}

} // verus!
