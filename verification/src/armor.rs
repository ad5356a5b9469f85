//! The armor record and the table models its attribute groups flatten into.

use crate::common::crafting_cells;
use crate::common::CraftingCost;
use crate::common::SkillRank;
use crate::common::Slot;
use crate::table::SimpleTableDataModel;
use crate::text::dec_int;
use crate::text::i32_to_dec;
use vstd::prelude::*;
use vstd::string::StringExecFns;

verus! {

/// Which body part an armor piece covers.
#[derive(Clone, Copy, PartialEq, Eq, Structural, Debug)]
pub enum ArmorType {
    Head,
    Chest,
    Gloves,
    Waist,
    Legs,
}

/// The display name of an armor type.
pub open spec fn armor_type_label(t: ArmorType) -> Seq<char> {
    match t {
        ArmorType::Head => "Head"@,
        ArmorType::Chest => "Chest"@,
        ArmorType::Gloves => "Gloves"@,
        ArmorType::Waist => "Waist"@,
        ArmorType::Legs => "Legs"@,
    }
}

impl ArmorType {
    pub fn label(&self) -> (r: &'static str)
        ensures
            r@ == armor_type_label(*self),
    {
        match self {
            ArmorType::Head => "Head",
            ArmorType::Chest => "Chest",
            ArmorType::Gloves => "Gloves",
            ArmorType::Waist => "Waist",
            ArmorType::Legs => "Legs",
        }
    }
}

/// Low-rank or high-rank gear.
#[derive(Clone, Copy, PartialEq, Eq, Structural, Debug)]
pub enum ArmorRank {
    Low,
    High,
}

/// The display name of an armor rank.
pub open spec fn armor_rank_label(r: ArmorRank) -> Seq<char> {
    match r {
        ArmorRank::Low => "Low"@,
        ArmorRank::High => "High"@,
    }
}

impl ArmorRank {
    pub fn label(&self) -> (r: &'static str)
        ensures
            r@ == armor_rank_label(*self),
    {
        match self {
            ArmorRank::Low => "Low",
            ArmorRank::High => "High",
        }
    }
}

/// Base, maximum and augmented defense values.
#[derive(Clone, Copy, PartialEq, Eq, Structural, Debug)]
pub struct Defense {
    pub base: i32,
    pub max: i32,
    pub augmented: i32,
}

/// Elemental resistance values; zero means no resistance either way.
#[derive(Clone, Copy, PartialEq, Eq, Structural, Debug)]
pub struct Resistances {
    pub fire: i32,
    pub water: i32,
    pub ice: i32,
    pub thunder: i32,
    pub dragon: i32,
}

/// The armor set a piece belongs to.
#[derive(Debug)]
pub struct SetInfo {
    pub id: i32,
    pub name: String,
    pub rank: ArmorRank,
    pub pieces: Vec<i32>,
}

/// Image asset links for an armor piece.
#[derive(Debug)]
pub struct ArmorAssets {
    pub image_male: Option<String>,
    pub image_female: Option<String>,
}

/// The crafting recipe of an armor piece.
#[derive(Debug)]
pub struct ArmorCraftingInfo {
    pub materials: Vec<CraftingCost>,
}

/// The gender an armor piece is restricted to, when it is.
#[derive(Clone, Copy, PartialEq, Eq, Structural, Debug)]
pub enum Gender {
    Male,
    Female,
}

/// The display name of a gender restriction.
pub open spec fn gender_label(g: Gender) -> Seq<char> {
    match g {
        Gender::Male => "Male"@,
        Gender::Female => "Female"@,
    }
}

impl Gender {
    pub fn label(&self) -> (r: &'static str)
        ensures
            r@ == gender_label(*self),
    {
        match self {
            Gender::Male => "Male",
            Gender::Female => "Female",
        }
    }
}

/// Irregular optional attributes of an armor piece.
#[derive(Debug)]
pub struct ArmorAttributes {
    pub required_gender: Option<Gender>,
}

/// A name/value row for one resistance, omitted entirely when the value is
/// zero.
pub open spec fn resistance_pair(name: Seq<char>, v: int) -> Seq<Seq<char>> {
    if v != 0 {
        seq![name, dec_int(v)]
    } else {
        Seq::<Seq<char>>::empty()
    }
}

/// The resistances table: one row per non-zero resistance, in the fixed
/// element order.
pub open spec fn resistance_cells(r: Resistances) -> Seq<Seq<char>> {
    resistance_pair("Fire"@, r.fire as int) + resistance_pair("Water"@, r.water as int)
        + resistance_pair("Ice"@, r.ice as int) + resistance_pair("Thunder"@, r.thunder as int)
        + resistance_pair("Dragon"@, r.dragon as int)
}

/// The skills table: one row per skill, its name beside its level.
pub open spec fn skill_cells(skills: Seq<SkillRank>) -> Seq<Seq<char>>
    decreases skills.len(),
{
    if skills.len() == 0 {
        Seq::<Seq<char>>::empty()
    } else {
        seq![skills.first().skill_name@, dec_int(skills.first().level as int)] + skill_cells(
            skills.drop_first(),
        )
    }
}

/// The misc-attributes table: a single row for the gender restriction when
/// there is one.
pub open spec fn other_cells(a: ArmorAttributes) -> Seq<Seq<char>> {
    match a.required_gender {
        Some(g) => seq!["Required Gender"@, gender_label(g)],
        None => Seq::<Seq<char>>::empty(),
    }
}

/// A full armor record, with the lazily-built table models of its attribute
/// groups.  A cache with no columns configured is "unbuilt"; building is
/// idempotent and happens on first access.
#[derive(Debug)]
pub struct ArmorInfo {
    pub id: i32,
    pub name: String,
    pub type_val: ArmorType,
    pub rank: ArmorRank,
    pub rarity: u32,
    pub defense: Defense,
    pub resistances: Resistances,
    pub slots: Vec<Slot>,
    pub skills: Vec<SkillRank>,
    pub armor_set: Option<SetInfo>,
    pub assets: ArmorAssets,
    pub crafting: ArmorCraftingInfo,
    pub attributes: ArmorAttributes,
    pub resistances_cache: SimpleTableDataModel,
    pub skills_cache: SimpleTableDataModel,
    pub crafting_cache: SimpleTableDataModel,
    pub other_cache: SimpleTableDataModel,
}

/// Appends one resistance row when its value is non-zero.
fn push_resistance_row(t: &mut SimpleTableDataModel, label: &'static str, v: i32)
    requires
        !old(t).spec_is_empty(),
    ensures
        final(t).spec_col_count() == old(t).spec_col_count(),
        final(t).cells() == old(t).cells() + resistance_pair(label@, v as int),
{
    if v != 0 {
        t.push(label.to_owned());
        t.push(i32_to_dec(v));
        proof {
            assert(t.cells() =~= old(t).cells() + seq![label@, dec_int(v as int)]);
        }
    } else {
        proof {
            assert(t.cells() =~= old(t).cells() + Seq::<Seq<char>>::empty());
        }
    }
}

impl ArmorInfo {
    /// Builds the two-column resistances table on first call; once built it
    /// is never rebuilt.
    pub fn resistances_data(&mut self)
        ensures
            *final(self) == (ArmorInfo {
                resistances_cache: final(self).resistances_cache,
                ..*old(self)
            }),
            old(self).resistances_cache.spec_is_empty() ==> final(self).resistances_cache.spec_col_count() == 2 && final(self).resistances_cache.cells()
                =~= resistance_cells(old(self).resistances),
            !old(self).resistances_cache.spec_is_empty() ==> final(self).resistances_cache == old(self).resistances_cache,
    {
        if self.resistances_cache.is_empty() {
            let mut t = SimpleTableDataModel::new(2);
            proof {
                assert(Seq::<Seq<char>>::empty() + resistance_pair(
                    "Fire"@,
                    self.resistances.fire as int,
                ) =~= resistance_pair("Fire"@, self.resistances.fire as int));
            }
            push_resistance_row(&mut t, "Fire", self.resistances.fire);
            push_resistance_row(&mut t, "Water", self.resistances.water);
            push_resistance_row(&mut t, "Ice", self.resistances.ice);
            push_resistance_row(&mut t, "Thunder", self.resistances.thunder);
            push_resistance_row(&mut t, "Dragon", self.resistances.dragon);
            proof {
                assert(t.cells() == resistance_cells(self.resistances));
            }
            self.resistances_cache = t;
        }
    }

    /// Builds the two-column skills table on first call.
    pub fn skills_data(&mut self)
        ensures
            *final(self) == (ArmorInfo { skills_cache: final(self).skills_cache, ..*old(self) }),
            old(self).skills_cache.spec_is_empty() ==> final(self).skills_cache.spec_col_count()
                == 2 && final(self).skills_cache.cells() =~= skill_cells(old(self).skills@),
            !old(self).skills_cache.spec_is_empty() ==> final(self).skills_cache == old(self).skills_cache,
    {
        if self.skills_cache.is_empty() {
            self.skills_cache = SimpleTableDataModel::new(2);
            let n = self.skills.len();
            let mut i: usize = 0;
            proof {
                assert(self.skills@.skip(0) =~= self.skills@);
            }
            while i < n
                invariant
                    i <= n,
                    n == self.skills@.len(),
                    *self == (ArmorInfo { skills_cache: self.skills_cache, ..*old(self) }),
                    !self.skills_cache.spec_is_empty(),
                    self.skills_cache.spec_col_count() == 2,
                    skill_cells(self.skills@) =~= self.skills_cache.cells() + skill_cells(
                        self.skills@.skip(i as int),
                    ),
                decreases n - i,
            {
                proof {
                    assert(self.skills@.skip(i as int).first() == self.skills@[i as int]);
                    assert(self.skills@.skip(i as int).drop_first() =~= self.skills@.skip(
                        i as int + 1,
                    ));
                }
                let name = self.skills[i].skill_name.clone();
                let level = self.skills[i].level;
                self.skills_cache.push(name);
                self.skills_cache.push(i32_to_dec(level));
                i = i + 1;
            }
            proof {
                assert(self.skills@.skip(n as int) =~= Seq::<SkillRank>::empty());
            }
        }
    }

    /// Builds the two-column crafting table on first call.
    pub fn crafting_data(&mut self)
        ensures
            *final(self) == (ArmorInfo { crafting_cache: final(self).crafting_cache, ..*old(self) }),
            old(self).crafting_cache.spec_is_empty() ==> final(self).crafting_cache.spec_col_count() == 2 && final(self).crafting_cache.cells()
                =~= crafting_cells(old(self).crafting.materials@),
            !old(self).crafting_cache.spec_is_empty() ==> final(self).crafting_cache == old(self).crafting_cache,
    {
        if self.crafting_cache.is_empty() {
            self.crafting_cache = SimpleTableDataModel::new(2);
            let n = self.crafting.materials.len();
            let mut i: usize = 0;
            proof {
                assert(self.crafting.materials@.skip(0) =~= self.crafting.materials@);
            }
            while i < n
                invariant
                    i <= n,
                    n == self.crafting.materials@.len(),
                    *self == (ArmorInfo { crafting_cache: self.crafting_cache, ..*old(self) }),
                    !self.crafting_cache.spec_is_empty(),
                    self.crafting_cache.spec_col_count() == 2,
                    crafting_cells(self.crafting.materials@) =~= self.crafting_cache.cells()
                        + crafting_cells(self.crafting.materials@.skip(i as int)),
                decreases n - i,
            {
                proof {
                    assert(self.crafting.materials@.skip(i as int).first()
                        == self.crafting.materials@[i as int]);
                    assert(self.crafting.materials@.skip(i as int).drop_first()
                        =~= self.crafting.materials@.skip(i as int + 1));
                }
                let name = self.crafting.materials[i].item.name.clone();
                let quantity = self.crafting.materials[i].quantity;
                self.crafting_cache.push(name);
                self.crafting_cache.push(i32_to_dec(quantity));
                i = i + 1;
            }
            proof {
                assert(self.crafting.materials@.skip(n as int) =~= Seq::<CraftingCost>::empty());
            }
        }
    }

    /// Builds the two-column misc-attributes table on first call.
    pub fn other_data(&mut self)
        ensures
            *final(self) == (ArmorInfo { other_cache: final(self).other_cache, ..*old(self) }),
            old(self).other_cache.spec_is_empty() ==> final(self).other_cache.spec_col_count() == 2
                && final(self).other_cache.cells() =~= other_cells(old(self).attributes),
            !old(self).other_cache.spec_is_empty() ==> final(self).other_cache == old(self).other_cache,
    {
        if self.other_cache.is_empty() {
            self.other_cache = SimpleTableDataModel::new(2);
            match &self.attributes.required_gender {
                Some(g) => {
                    let label = g.label();
                    self.other_cache.push(String::from_str("Required Gender"));
                    self.other_cache.push(String::from_str(label));
                },
                None => {},
            }
            proof {
                assert(self.other_cache.cells() =~= other_cells(self.attributes));
            }
        }
    }
}

} // verus!
