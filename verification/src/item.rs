//! A minimal all-signed item record kept for callers that want every field
//! as the same integer type.

use vstd::prelude::*;

verus! {

/// An item record with every numeric field signed.
#[derive(Debug)]
pub struct Item {
    pub id: i32,
    pub name: String,
    pub description: String,
    pub rarity: i32,
    pub carry_limit: i32,
    pub value: i32,
}

impl Default for Item {
    fn default() -> (r: Self)
        ensures
            r.id == 0,
            r.name@ == Seq::<char>::empty(),
            r.description@ == Seq::<char>::empty(),
            r.rarity == 0,
            r.carry_limit == 0,
            r.value == 0,
    {
        Item {
            id: 0,
            name: String::new(),
            description: String::new(),
            rarity: 0,
            carry_limit: 0,
            value: 0,
        }
    }
}

} // verus!
