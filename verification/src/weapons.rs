//! The weapon record, its enumerated attribute kinds, and the parsers for
//! the wire fields that mix an enumerated tag with an embedded number in one
//! string (phial types such as `"dragon 300"`, shelling types such as
//! `"Normal Lv2"`).

use crate::common::crafting_cells;
use crate::common::CraftingCost;
use crate::common::Element;
use crate::common::Slot;
use crate::table::SimpleTableDataModel;
use crate::text::dec_digits;
use crate::text::dec_int;
use crate::text::i32_to_dec;
use crate::text::range_eq;
use crate::text::to_char_vec;
use crate::text::usize_to_dec;
use vstd::prelude::*;
use vstd::string::StringExecFns;

verus! {

/// The fourteen weapon classes.
#[derive(Clone, Copy, PartialEq, Eq, Structural, Debug)]
pub enum WeaponType {
    GreatSword,
    LongSword,
    SwordAndShield,
    DualBlades,
    Hammer,
    HuntingHorn,
    Lance,
    Gunlance,
    SwitchAxe,
    ChargeBlade,
    InsectGlaive,
    LightBowgun,
    HeavyBowgun,
    Bow,
}

/// The display name of a weapon class.
pub open spec fn weapon_type_label(t: WeaponType) -> Seq<char> {
    match t {
        WeaponType::GreatSword => "Great Sword"@,
        WeaponType::LongSword => "Long Sword"@,
        WeaponType::SwordAndShield => "Sword and Shield"@,
        WeaponType::DualBlades => "Dual Blades"@,
        WeaponType::Hammer => "Hammer"@,
        WeaponType::HuntingHorn => "Hunting Horn"@,
        WeaponType::Lance => "Lance"@,
        WeaponType::Gunlance => "Gunlance"@,
        WeaponType::SwitchAxe => "Switch Axe"@,
        WeaponType::ChargeBlade => "Charge Blade"@,
        WeaponType::InsectGlaive => "Insect Glaive"@,
        WeaponType::LightBowgun => "Light Bowgun"@,
        WeaponType::HeavyBowgun => "Heavy Bowgun"@,
        WeaponType::Bow => "Bow"@,
    }
}

impl WeaponType {
    pub fn label(&self) -> (r: &'static str)
        ensures
            r@ == weapon_type_label(*self),
    {
        match self {
            WeaponType::GreatSword => "Great Sword",
            WeaponType::LongSword => "Long Sword",
            WeaponType::SwordAndShield => "Sword and Shield",
            WeaponType::DualBlades => "Dual Blades",
            WeaponType::Hammer => "Hammer",
            WeaponType::HuntingHorn => "Hunting Horn",
            WeaponType::Lance => "Lance",
            WeaponType::Gunlance => "Gunlance",
            WeaponType::SwitchAxe => "Switch Axe",
            WeaponType::ChargeBlade => "Charge Blade",
            WeaponType::InsectGlaive => "Insect Glaive",
            WeaponType::LightBowgun => "Light Bowgun",
            WeaponType::HeavyBowgun => "Heavy Bowgun",
            WeaponType::Bow => "Bow",
        }
    }
}

/// Displayed and raw attack values.
#[derive(Clone, Copy, PartialEq, Eq, Structural, Debug)]
pub struct Attack {
    pub display: i32,
    pub raw: i32,
}

/// How a weapon is obtained: crafted directly and/or upgraded from a
/// previous weapon.
#[derive(Debug)]
pub struct WeaponCraftingInfo {
    pub craftable: bool,
    pub previous: Option<i32>,
    pub branches: Vec<i32>,
    pub crafting_materials: Vec<CraftingCost>,
    pub upgrade_materials: Vec<CraftingCost>,
}

/// One elemental damage entry of a weapon.
#[derive(Clone, Copy, PartialEq, Eq, Structural, Debug)]
pub struct WeaponElement {
    pub elememt: Element,
    pub damage: i32,
    pub hidden: bool,
}

/// Image asset links for a weapon.
#[derive(Debug)]
pub struct WeaponAssets {
    pub icon: Option<String>,
    pub image: Option<String>,
}

/// One sharpness bar: segment widths out of a total of 400.
#[derive(Clone, Copy, PartialEq, Eq, Structural, Debug)]
pub struct WeaponSharpness {
    pub red: i32,
    pub orange: i32,
    pub yellow: i32,
    pub green: i32,
    pub blue: i32,
    pub white: i32,
}

/// The twenty bowgun ammo kinds.
#[derive(Clone, Copy, PartialEq, Eq, Structural, Debug)]
pub enum AmmoType {
    Normal,
    Flaming,
    Piercing,
    Water,
    Spread,
    Freeze,
    Sticky,
    Thunder,
    Cluster,
    Dragon,
    Recover,
    Slicing,
    Poison,
    Wyvern,
    Paralysis,
    Demon,
    Sleep,
    Armor,
    Exhaust,
    Tranq,
}

/// The display name of an ammo kind.
pub open spec fn ammo_type_label(a: AmmoType) -> Seq<char> {
    match a {
        AmmoType::Normal => "Normal"@,
        AmmoType::Flaming => "Flaming"@,
        AmmoType::Piercing => "Piercing"@,
        AmmoType::Water => "Water"@,
        AmmoType::Spread => "Spread"@,
        AmmoType::Freeze => "Freeze"@,
        AmmoType::Sticky => "Sticky"@,
        AmmoType::Thunder => "Thunder"@,
        AmmoType::Cluster => "Cluster"@,
        AmmoType::Dragon => "Dragon"@,
        AmmoType::Recover => "Recover"@,
        AmmoType::Slicing => "Slicing"@,
        AmmoType::Poison => "Poison"@,
        AmmoType::Wyvern => "Wyvern"@,
        AmmoType::Paralysis => "Paralysis"@,
        AmmoType::Demon => "Demon"@,
        AmmoType::Sleep => "Sleep"@,
        AmmoType::Armor => "Armor"@,
        AmmoType::Exhaust => "Exhaust"@,
        AmmoType::Tranq => "Tranq"@,
    }
}

impl AmmoType {
    pub fn label(&self) -> (r: &'static str)
        ensures
            r@ == ammo_type_label(*self),
    {
        match self {
            AmmoType::Normal => "Normal",
            AmmoType::Flaming => "Flaming",
            AmmoType::Piercing => "Piercing",
            AmmoType::Water => "Water",
            AmmoType::Spread => "Spread",
            AmmoType::Freeze => "Freeze",
            AmmoType::Sticky => "Sticky",
            AmmoType::Thunder => "Thunder",
            AmmoType::Cluster => "Cluster",
            AmmoType::Dragon => "Dragon",
            AmmoType::Recover => "Recover",
            AmmoType::Slicing => "Slicing",
            AmmoType::Poison => "Poison",
            AmmoType::Wyvern => "Wyvern",
            AmmoType::Paralysis => "Paralysis",
            AmmoType::Demon => "Demon",
            AmmoType::Sleep => "Sleep",
            AmmoType::Armor => "Armor",
            AmmoType::Exhaust => "Exhaust",
            AmmoType::Tranq => "Tranq",
        }
    }
}

/// Insect-glaive kinsect boosts.
#[derive(Clone, Copy, PartialEq, Eq, Structural, Debug)]
pub enum BoostType {
    Sever,
    Speed,
    Element,
    Health,
    Stamina,
    Blunt,
}

/// The display name of a boost kind.
pub open spec fn boost_type_label(b: BoostType) -> Seq<char> {
    match b {
        BoostType::Sever => "Sever"@,
        BoostType::Speed => "Speed"@,
        BoostType::Element => "Element"@,
        BoostType::Health => "Health"@,
        BoostType::Stamina => "Stamina"@,
        BoostType::Blunt => "Blunt"@,
    }
}

impl BoostType {
    pub fn label(&self) -> (r: &'static str)
        ensures
            r@ == boost_type_label(*self),
    {
        match self {
            BoostType::Sever => "Sever",
            BoostType::Speed => "Speed",
            BoostType::Element => "Element",
            BoostType::Health => "Health",
            BoostType::Stamina => "Stamina",
            BoostType::Blunt => "Blunt",
        }
    }
}

/// Bow coating kinds.
#[derive(Clone, Copy, PartialEq, Eq, Structural, Debug)]
pub enum Coating {
    CloseRange,
    Paralysis,
    Poison,
    Sleep,
    Blast,
    Power,
}

/// The display name of a coating.
pub open spec fn coating_label(c: Coating) -> Seq<char> {
    match c {
        Coating::CloseRange => "CloseRange"@,
        Coating::Paralysis => "Paralysis"@,
        Coating::Poison => "Poison"@,
        Coating::Sleep => "Sleep"@,
        Coating::Blast => "Blast"@,
        Coating::Power => "Power"@,
    }
}

impl Coating {
    pub fn label(&self) -> (r: &'static str)
        ensures
            r@ == coating_label(*self),
    {
        match self {
            Coating::CloseRange => "CloseRange",
            Coating::Paralysis => "Paralysis",
            Coating::Poison => "Poison",
            Coating::Sleep => "Sleep",
            Coating::Blast => "Blast",
            Coating::Power => "Power",
        }
    }
}

/// The kind of damage a weapon deals.
#[derive(Clone, Copy, PartialEq, Eq, Structural, Debug)]
pub enum DamageType {
    Blunt,
    Piercing,
    Slashing,
    Sever,
    Projectile,
}

/// The display name of a damage kind.
pub open spec fn damage_type_label(d: DamageType) -> Seq<char> {
    match d {
        DamageType::Blunt => "Blunt"@,
        DamageType::Piercing => "Piercing"@,
        DamageType::Slashing => "Slashing"@,
        DamageType::Sever => "Sever"@,
        DamageType::Projectile => "Projectile"@,
    }
}

impl DamageType {
    pub fn label(&self) -> (r: &'static str)
        ensures
            r@ == damage_type_label(*self),
    {
        match self {
            DamageType::Blunt => "Blunt",
            DamageType::Piercing => "Piercing",
            DamageType::Slashing => "Slashing",
            DamageType::Sever => "Sever",
            DamageType::Projectile => "Projectile",
        }
    }
}

/// Bowgun shot deviation.
#[derive(Clone, Copy, PartialEq, Eq, Structural, Debug)]
pub enum Deviation {
    Zero,
    Low,
    Average,
    High,
}

/// The display name of a deviation level.
pub open spec fn deviation_label(d: Deviation) -> Seq<char> {
    match d {
        Deviation::Zero => "None"@,
        Deviation::Low => "Low"@,
        Deviation::Average => "Average"@,
        Deviation::High => "High"@,
    }
}

impl Deviation {
    pub fn label(&self) -> (r: &'static str)
        ensures
            r@ == deviation_label(*self),
    {
        match self {
            Deviation::Zero => "None",
            Deviation::Low => "Low",
            Deviation::Average => "Average",
            Deviation::High => "High",
        }
    }
}

/// Elderseal strength.
#[derive(Clone, Copy, PartialEq, Eq, Structural, Debug)]
pub enum Elderseal {
    Low,
    Average,
    High,
}

/// The display name of an elderseal strength.
pub open spec fn elderseal_label(e: Elderseal) -> Seq<char> {
    match e {
        Elderseal::Low => "Low"@,
        Elderseal::Average => "Average"@,
        Elderseal::High => "High"@,
    }
}

impl Elderseal {
    pub fn label(&self) -> (r: &'static str)
        ensures
            r@ == elderseal_label(*self),
    {
        match self {
            Elderseal::Low => "Low",
            Elderseal::Average => "Average",
            Elderseal::High => "High",
        }
    }
}

/// Bowgun special ammo.
#[derive(Clone, Copy, PartialEq, Eq, Structural, Debug)]
pub enum SpecialAmmoType {
    Blast,
    Heart,
    Snipe,
}

/// The display name of a special ammo kind.
pub open spec fn special_ammo_label(a: SpecialAmmoType) -> Seq<char> {
    match a {
        SpecialAmmoType::Blast => "Wyvern Blast"@,
        SpecialAmmoType::Heart => "Wyvern Heart"@,
        SpecialAmmoType::Snipe => "Wyvern Snipe"@,
    }
}

impl SpecialAmmoType {
    pub fn label(&self) -> (r: &'static str)
        ensures
            r@ == special_ammo_label(*self),
    {
        match self {
            SpecialAmmoType::Blast => "Wyvern Blast",
            SpecialAmmoType::Heart => "Wyvern Heart",
            SpecialAmmoType::Snipe => "Wyvern Snipe",
        }
    }
}

/// A field-level decode failure: the offending raw string together with the
/// set of accepted formats.
#[derive(Debug, PartialEq, Eq)]
pub struct DecodeError {
    pub value: String,
    pub expected: Vec<&'static str>,
}

//
// Shared character-level parsing machinery.
//

/// True for an ASCII decimal digit.
pub open spec fn is_digit(c: char) -> bool {
    48 <= c as u32 <= 57
}

/// The numeric value of a digit character.
pub open spec fn digit_value(c: char) -> int {
    c as u32 - 48
}

/// True when every character of `s` is a decimal digit.
pub open spec fn all_digits(s: Seq<char>) -> bool {
    forall|k: int| 0 <= k < s.len() ==> is_digit(#[trigger] s[k])
}

/// The number the digit string `s` spells, most significant digit first.
pub open spec fn dec_value(s: Seq<char>) -> int
    decreases s.len(),
{
    if s.len() == 0 {
        0
    } else {
        dec_value(s.drop_last()) * 10 + digit_value(s.last())
    }
}

proof fn lemma_dec_value_nonneg(s: Seq<char>)
    requires
        all_digits(s),
    ensures
        dec_value(s) >= 0,
    decreases s.len(),
{
    if s.len() > 0 {
        assert(all_digits(s.drop_last()));
        lemma_dec_value_nonneg(s.drop_last());
        assert(is_digit(s.last()));
    }
}

/// A longer digit prefix never spells a smaller number.
proof fn lemma_dec_value_prefix_le(s: Seq<char>, i: int, j: int)
    requires
        0 <= i <= j <= s.len(),
        all_digits(s),
    ensures
        dec_value(s.take(i)) <= dec_value(s.take(j)),
    decreases j - i,
{
    if i < j {
        lemma_dec_value_prefix_le(s, i, j - 1);
        assert(s.take(j).drop_last() =~= s.take(j - 1));
        assert(s.take(j).last() == s[j - 1]);
        assert(all_digits(s.take(j - 1)));
        lemma_dec_value_nonneg(s.take(j - 1));
        assert(is_digit(s[j - 1]));
    }
}

fn is_digit_char(c: char) -> (r: bool)
    ensures
        r == is_digit(c),
{
    let u = c as u32;
    48 <= u && u <= 57
}

/// Checks that everything from `start` on is a decimal digit.
fn all_digits_from(v: &Vec<char>, start: usize) -> (r: bool)
    requires
        start <= v@.len(),
    ensures
        r == all_digits(v@.skip(start as int)),
{
    let ghost s = v@.skip(start as int);
    let n = v.len();
    let mut i: usize = start;
    while i < n
        invariant
            start <= i <= n,
            n == v@.len(),
            s == v@.skip(start as int),
            forall|k: int| 0 <= k < i - start ==> is_digit(#[trigger] s[k]),
        decreases n - i,
    {
        let c = v[i];
        if !is_digit_char(c) {
            proof {
                assert(s[i - start] == v@[i as int]);
            }
            return false;
        }
        i = i + 1;
    }
    true
}

/// Reads the number the digits from `start` on spell; `None` when it does
/// not fit the payload type.  An empty digit run reads as zero.
fn digits_to_i32(v: &Vec<char>, start: usize) -> (r: Option<i32>)
    requires
        start <= v@.len(),
        all_digits(v@.skip(start as int)),
    ensures
        match r {
            Some(m) => m as int == dec_value(v@.skip(start as int)),
            None => dec_value(v@.skip(start as int)) > i32::MAX,
        },
{
    let ghost s = v@.skip(start as int);
    let n = v.len();
    let mut acc: i32 = 0;
    let mut i: usize = start;
    while i < n
        invariant
            start <= i <= n,
            n == v@.len(),
            s == v@.skip(start as int),
            all_digits(s),
            acc >= 0,
            acc as int == dec_value(s.take(i - start)),
        decreases n - i,
    {
        let c = v[i];
        let u = c as u32;
        proof {
            assert(s[i - start] == v@[i as int]);
            assert(is_digit(s[(i - start) as int]));
            assert(s.take(i - start + 1).drop_last() =~= s.take(i - start));
            assert(s.take(i - start + 1).last() == s[i - start]);
        }
        let d = (u - 48) as i32;
        let stepped = match acc.checked_mul(10) {
            Some(a) => a.checked_add(d),
            None => None,
        };
        match stepped {
            Some(b) => {
                acc = b;
            },
            None => {
                proof {
                    assert(dec_value(s.take(i - start + 1)) > i32::MAX);
                    lemma_dec_value_prefix_le(s, i - start + 1, s.len() as int);
                    assert(s.take(s.len() as int) =~= s);
                }
                return None;
            },
        }
        i = i + 1;
    }
    proof {
        assert(s.take((n - start) as int) =~= s);
    }
    Some(acc)
}

/// The index of the first space in `s`, or its length when there is none.
pub open spec fn first_space(s: Seq<char>) -> int
    decreases s.len(),
{
    if s.len() == 0 {
        0
    } else if s.first() == ' ' {
        0
    } else {
        1 + first_space(s.drop_first())
    }
}

proof fn lemma_first_space_at(s: Seq<char>, i: int)
    requires
        0 <= i <= s.len(),
        forall|k: int| 0 <= k < i ==> s[k] != ' ',
        i < s.len() ==> s[i] == ' ',
    ensures
        first_space(s) == i,
    decreases i,
{
    if i == 0 {
    } else {
        assert(s.first() != ' ');
        lemma_first_space_at(s.drop_first(), i - 1);
    }
}

/// The index of the first decimal digit in `s`, or its length when there is
/// none.
pub open spec fn first_digit_idx(s: Seq<char>) -> int
    decreases s.len(),
{
    if s.len() == 0 {
        0
    } else if is_digit(s.first()) {
        0
    } else {
        1 + first_digit_idx(s.drop_first())
    }
}

proof fn lemma_first_digit_at(s: Seq<char>, i: int)
    requires
        0 <= i <= s.len(),
        forall|k: int| 0 <= k < i ==> !is_digit(#[trigger] s[k]),
        i < s.len() ==> is_digit(s[i]),
    ensures
        first_digit_idx(s) == i,
    decreases i,
{
    if i == 0 {
    } else {
        assert(!is_digit(s.first()));
        lemma_first_digit_at(s.drop_first(), i - 1);
    }
}

/// `s` with its trailing spaces removed.
pub open spec fn trim_trailing_spaces(s: Seq<char>) -> Seq<char>
    decreases s.len(),
{
    if s.len() == 0 {
        s
    } else if s.last() == ' ' {
        trim_trailing_spaces(s.drop_last())
    } else {
        s
    }
}

proof fn lemma_trim_spaces_at(s: Seq<char>, t: int)
    requires
        0 <= t <= s.len(),
        forall|k: int| t <= k < s.len() ==> s[k] == ' ',
        t > 0 ==> s[t - 1] != ' ',
    ensures
        trim_trailing_spaces(s) == s.take(t),
    decreases s.len() - t,
{
    if t == s.len() {
        if s.len() > 0 {
            assert(s.last() != ' ');
        }
        assert(s.take(t) =~= s);
    } else {
        assert(s.last() == ' ');
        lemma_trim_spaces_at(s.drop_last(), t);
        assert(s.drop_last().take(t) =~= s.take(t));
    }
}

//
// Shelling type.
//

/// A gunlance shelling kind with its level.
#[derive(Clone, Copy, PartialEq, Eq, Structural, Debug)]
pub enum ShellingType {
    Normal(i32),
    Long(i32),
    Wide(i32),
}

/// The level a shelling suffix spells: the token after the space must be
/// `Lv` followed by digits that fit the payload type.
pub open spec fn shelling_level(rest: Seq<char>) -> Option<int> {
    if rest.len() >= 3 && rest[0] == 'L' && rest[1] == 'v' && all_digits(rest.skip(2)) && dec_value(
        rest.skip(2),
    ) <= i32::MAX {
        Some(dec_value(rest.skip(2)))
    } else {
        None
    }
}

/// What the shelling parser accepts: `"<Label> Lv<N>"` with the label one of
/// `Normal`, `Long`, `Wide` (matched case-sensitively); any deviation is a
/// decode failure.
pub open spec fn spec_parse_shelling(s: Seq<char>) -> Option<ShellingType> {
    let i = first_space(s);
    if i >= s.len() {
        None
    } else {
        let label = s.take(i);
        match shelling_level(s.skip(i + 1)) {
            Some(lv) => if label == "Normal"@ {
                Some(ShellingType::Normal(lv as i32))
            } else if label == "Long"@ {
                Some(ShellingType::Long(lv as i32))
            } else if label == "Wide"@ {
                Some(ShellingType::Wide(lv as i32))
            } else {
                None
            },
            None => None,
        }
    }
}

/// The accepted shelling formats, quoted in decode failures.
pub open spec fn shelling_formats() -> Seq<Seq<char>> {
    seq!["Normal LvN"@, "Long LvN"@, "Wide LvN"@]
}

fn shelling_error(value: &str) -> (e: DecodeError)
    ensures
        e.value@ == value@,
        e.expected@.map_values(|f: &str| f@) =~= shelling_formats(),
{
    let mut expected: Vec<&'static str> = Vec::new();
    expected.push("Normal LvN");
    expected.push("Long LvN");
    expected.push("Wide LvN");
    DecodeError { value: value.to_owned(), expected }
}

/// The display rendering of a shelling type, the level in parentheses.
pub open spec fn shelling_label(t: ShellingType) -> Seq<char> {
    match t {
        ShellingType::Normal(lv) => "Normal("@ + dec_int(lv as int) + ")"@,
        ShellingType::Long(lv) => "Long("@ + dec_int(lv as int) + ")"@,
        ShellingType::Wide(lv) => "Wide("@ + dec_int(lv as int) + ")"@,
    }
}

impl ShellingType {
    /// Decodes a wire string such as `"Normal Lv2"`.
    pub fn parse(value: &str) -> (r: Result<ShellingType, DecodeError>)
        ensures
            match r {
                Ok(v) => spec_parse_shelling(value@) == Some(v),
                Err(e) => spec_parse_shelling(value@) is None && e.value@ == value@
                    && e.expected@.map_values(|f: &str| f@) =~= shelling_formats(),
            },
    {
        let cs = to_char_vec(value);
        let n = cs.len();
        let mut sp: usize = 0;
        while sp < n && cs[sp] != ' '
            invariant
                sp <= n,
                n == cs@.len(),
                cs@ == value@,
                forall|k: int| 0 <= k < sp ==> value@[k] != ' ',
            decreases n - sp,
        {
            sp = sp + 1;
        }
        proof {
            lemma_first_space_at(value@, sp as int);
        }
        if sp == n {
            return Err(shelling_error(value));
        }
        let rest_start = sp + 1;
        let ghost rest = value@.skip(rest_start as int);
        if n - rest_start < 3 {
            return Err(shelling_error(value));
        }
        if !(cs[rest_start] == 'L' && cs[rest_start + 1] == 'v') {
            proof {
                assert(rest[0] == value@[rest_start as int]);
                assert(rest[1] == value@[rest_start as int + 1]);
            }
            return Err(shelling_error(value));
        }
        proof {
            assert(rest[0] == value@[rest_start as int]);
            assert(rest[1] == value@[rest_start as int + 1]);
            assert(rest.skip(2) =~= value@.skip(rest_start as int + 2));
        }
        if !all_digits_from(&cs, rest_start + 2) {
            return Err(shelling_error(value));
        }
        let lv = match digits_to_i32(&cs, rest_start + 2) {
            Some(lv) => lv,
            None => {
                return Err(shelling_error(value));
            },
        };
        proof {
            assert(value@.take(sp as int) =~= cs@.subrange(0, sp as int));
        }
        if range_eq(&cs, 0, sp, "Normal") {
            Ok(ShellingType::Normal(lv))
        } else if range_eq(&cs, 0, sp, "Long") {
            Ok(ShellingType::Long(lv))
        } else if range_eq(&cs, 0, sp, "Wide") {
            Ok(ShellingType::Wide(lv))
        } else {
            Err(shelling_error(value))
        }
    }

    /// Renders this shelling type for display.
    pub fn label(&self) -> (r: String)
        ensures
            r@ == shelling_label(*self),
    {
        proof {
            reveal_strlit("Normal(");
            reveal_strlit("Long(");
            reveal_strlit("Wide(");
            reveal_strlit(")");
        }
        let mut s = match self {
            ShellingType::Normal(_) => String::from_str("Normal("),
            ShellingType::Long(_) => String::from_str("Long("),
            ShellingType::Wide(_) => String::from_str("Wide("),
        };
        let lv = match self {
            ShellingType::Normal(lv) => *lv,
            ShellingType::Long(lv) => *lv,
            ShellingType::Wide(lv) => *lv,
        };
        let digits = i32_to_dec(lv);
        s.append(digits.as_str());
        s.append(")");
        proof {
            assert(s@ =~= shelling_label(*self));
        }
        s
    }
}

//
// Phial type.
//

/// A switch-axe or charge-blade phial kind; the four status kinds carry a
/// magnitude.
#[derive(Clone, Copy, PartialEq, Eq, Structural, Debug)]
pub enum PhialType {
    Impact,
    Element,
    Power,
    PowerElement,
    Dragon(i32),
    Exhaust(i32),
    Paralysis(i32),
    Poison(i32),
}

/// ASCII lower-casing of one character.
pub open spec fn lower_char(c: char) -> char {
    if 'A' <= c && c <= 'Z' {
        ((c as u8) + 32) as char
    } else {
        c
    }
}

/// The normalized tag of a phial string: the leading non-digit text with
/// trailing spaces trimmed, folded to lower case, with an optional
/// `" phial"` suffix removed.
pub open spec fn phial_tag(text: Seq<char>) -> Seq<char> {
    let folded = trim_trailing_spaces(text).map_values(|c: char| lower_char(c));
    if folded.len() >= 6 && folded.skip(folded.len() - 6) == " phial"@ {
        folded.take(folded.len() - 6)
    } else {
        folded
    }
}

/// What the phial parser accepts: leading non-digit text naming a tag from
/// the fixed vocabulary, optionally followed by a trailing digit run.  The
/// status tags require a magnitude that fits the payload type; the others
/// carry none.
pub open spec fn spec_parse_phial(s: Seq<char>) -> Option<PhialType> {
    let d = first_digit_idx(s);
    let text = s.take(d);
    let digits = s.skip(d);
    if d == 0 || !all_digits(digits) {
        None
    } else {
        let tag = phial_tag(text);
        let has_mag = digits.len() > 0 && dec_value(digits) <= i32::MAX;
        if tag == "impact"@ {
            Some(PhialType::Impact)
        } else if tag == "element"@ {
            Some(PhialType::Element)
        } else if tag == "power"@ {
            Some(PhialType::Power)
        } else if tag == "power element"@ {
            Some(PhialType::PowerElement)
        } else if tag == "dragon"@ {
            if has_mag {
                Some(PhialType::Dragon(dec_value(digits) as i32))
            } else {
                None
            }
        } else if tag == "exhaust"@ {
            if has_mag {
                Some(PhialType::Exhaust(dec_value(digits) as i32))
            } else {
                None
            }
        } else if tag == "paralysis"@ {
            if has_mag {
                Some(PhialType::Paralysis(dec_value(digits) as i32))
            } else {
                None
            }
        } else if tag == "poison"@ {
            if has_mag {
                Some(PhialType::Poison(dec_value(digits) as i32))
            } else {
                None
            }
        } else {
            None
        }
    }
}

/// The accepted phial formats, quoted in decode failures.
pub open spec fn phial_formats() -> Seq<Seq<char>> {
    seq![
        "Impact"@,
        "Element"@,
        "Power"@,
        "Power Element"@,
        "Dragon XXX"@,
        "Exhaust XXX"@,
        "Paralysis XXX"@,
        "Poison XXX"@,
    ]
}

fn phial_error(value: &str) -> (e: DecodeError)
    ensures
        e.value@ == value@,
        e.expected@.map_values(|f: &str| f@) =~= phial_formats(),
{
    let mut expected: Vec<&'static str> = Vec::new();
    expected.push("Impact");
    expected.push("Element");
    expected.push("Power");
    expected.push("Power Element");
    expected.push("Dragon XXX");
    expected.push("Exhaust XXX");
    expected.push("Paralysis XXX");
    expected.push("Poison XXX");
    DecodeError { value: value.to_owned(), expected }
}

fn lower_char_exec(c: char) -> (r: char)
    ensures
        r == lower_char(c),
{
    let u = c as u32;
    if 65 <= u && u <= 90 {
        ((c as u8) + 32) as char
    } else {
        c
    }
}

/// The display rendering of a phial type, any magnitude in parentheses.
pub open spec fn phial_label(p: PhialType) -> Seq<char> {
    match p {
        PhialType::Impact => "Impact"@,
        PhialType::Element => "Element"@,
        PhialType::Power => "Power"@,
        PhialType::PowerElement => "PowerElement"@,
        PhialType::Dragon(v) => "Dragon("@ + dec_int(v as int) + ")"@,
        PhialType::Exhaust(v) => "Exhaust("@ + dec_int(v as int) + ")"@,
        PhialType::Paralysis(v) => "Paralysis("@ + dec_int(v as int) + ")"@,
        PhialType::Poison(v) => "Poison("@ + dec_int(v as int) + ")"@,
    }
}

impl PhialType {
    /// Decodes a wire string such as `"impact"`, `"dragon 300"` or
    /// `"power element phial"`.
    pub fn parse(value: &str) -> (r: Result<PhialType, DecodeError>)
        ensures
            match r {
                Ok(v) => spec_parse_phial(value@) == Some(v),
                Err(e) => spec_parse_phial(value@) is None && e.value@ == value@
                    && e.expected@.map_values(|f: &str| f@) =~= phial_formats(),
            },
    {
        let cs = to_char_vec(value);
        let n = cs.len();
        let mut d: usize = 0;
        while d < n && !is_digit_char(cs[d])
            invariant
                d <= n,
                n == cs@.len(),
                cs@ == value@,
                forall|k: int| 0 <= k < d ==> !is_digit(#[trigger] value@[k]),
            decreases n - d,
        {
            d = d + 1;
        }
        proof {
            lemma_first_digit_at(value@, d as int);
        }
        if d == 0 {
            return Err(phial_error(value));
        }
        if !all_digits_from(&cs, d) {
            return Err(phial_error(value));
        }
        let mag = digits_to_i32(&cs, d);
        let has_digits = d < n;
        // trim trailing spaces off the text portion
        let mut t: usize = d;
        while t > 0 && cs[t - 1] == ' '
            invariant
                t <= d,
                d <= n,
                n == cs@.len(),
                cs@ == value@,
                forall|k: int| t <= k < d ==> value@[k] == ' ',
            decreases t,
        {
            t = t - 1;
        }
        proof {
            lemma_trim_spaces_at(value@.take(d as int), t as int);
        }
        // fold the trimmed text to lower case
        let mut tag: Vec<char> = Vec::new();
        let mut i: usize = 0;
        while i < t
            invariant
                i <= t,
                t <= n,
                n == cs@.len(),
                cs@ == value@,
                tag@ =~= value@.take(t as int).map_values(|c: char| lower_char(c)).take(i as int),
            decreases t - i,
        {
            tag.push(lower_char_exec(cs[i]));
            i = i + 1;
            proof {
                assert(tag@ =~= value@.take(t as int).map_values(|c: char| lower_char(c)).take(
                    i as int,
                ));
            }
        }
        let ghost folded = value@.take(t as int).map_values(|c: char| lower_char(c));
        proof {
            assert(folded.take(t as int) =~= folded);
            assert(tag@ == folded);
            assert(trim_trailing_spaces(value@.take(d as int)) == value@.take(d as int).take(
                t as int,
            ));
            assert(value@.take(d as int).take(t as int) =~= value@.take(t as int));
        }
        // strip an optional " phial" suffix
        let tag_len = tag.len();
        let end: usize = if tag_len >= 6 && range_eq(&tag, tag_len - 6, tag_len, " phial") {
            proof {
                assert(tag@.subrange(tag_len - 6, tag_len as int) =~= folded.skip(
                    folded.len() - 6,
                ));
            }
            tag_len - 6
        } else {
            proof {
                if tag_len >= 6 {
                    assert(tag@.subrange(tag_len - 6, tag_len as int) =~= folded.skip(
                        folded.len() - 6,
                    ));
                }
            }
            tag_len
        };
        proof {
            assert(tag@.subrange(0, end as int) =~= phial_tag(value@.take(d as int)));
        }
        if range_eq(&tag, 0, end, "impact") {
            Ok(PhialType::Impact)
        } else if range_eq(&tag, 0, end, "element") {
            Ok(PhialType::Element)
        } else if range_eq(&tag, 0, end, "power") {
            Ok(PhialType::Power)
        } else if range_eq(&tag, 0, end, "power element") {
            Ok(PhialType::PowerElement)
        } else if range_eq(&tag, 0, end, "dragon") {
            match (has_digits, mag) {
                (true, Some(v)) => Ok(PhialType::Dragon(v)),
                _ => Err(phial_error(value)),
            }
        } else if range_eq(&tag, 0, end, "exhaust") {
            match (has_digits, mag) {
                (true, Some(v)) => Ok(PhialType::Exhaust(v)),
                _ => Err(phial_error(value)),
            }
        } else if range_eq(&tag, 0, end, "paralysis") {
            match (has_digits, mag) {
                (true, Some(v)) => Ok(PhialType::Paralysis(v)),
                _ => Err(phial_error(value)),
            }
        } else if range_eq(&tag, 0, end, "poison") {
            match (has_digits, mag) {
                (true, Some(v)) => Ok(PhialType::Poison(v)),
                _ => Err(phial_error(value)),
            }
        } else {
            Err(phial_error(value))
        }
    }

    /// Renders this phial type for display.
    pub fn label(&self) -> (r: String)
        ensures
            r@ == phial_label(*self),
    {
        proof {
            reveal_strlit("Impact");
            reveal_strlit("Element");
            reveal_strlit("Power");
            reveal_strlit("PowerElement");
            reveal_strlit("Dragon(");
            reveal_strlit("Exhaust(");
            reveal_strlit("Paralysis(");
            reveal_strlit("Poison(");
            reveal_strlit(")");
        }
        match self {
            PhialType::Impact => String::from_str("Impact"),
            PhialType::Element => String::from_str("Element"),
            PhialType::Power => String::from_str("Power"),
            PhialType::PowerElement => String::from_str("PowerElement"),
            PhialType::Dragon(v) => {
                let mut s = String::from_str("Dragon(");
                let digits = i32_to_dec(*v);
                s.append(digits.as_str());
                s.append(")");
                proof {
                    assert(s@ =~= phial_label(*self));
                }
                s
            },
            PhialType::Exhaust(v) => {
                let mut s = String::from_str("Exhaust(");
                let digits = i32_to_dec(*v);
                s.append(digits.as_str());
                s.append(")");
                proof {
                    assert(s@ =~= phial_label(*self));
                }
                s
            },
            PhialType::Paralysis(v) => {
                let mut s = String::from_str("Paralysis(");
                let digits = i32_to_dec(*v);
                s.append(digits.as_str());
                s.append(")");
                proof {
                    assert(s@ =~= phial_label(*self));
                }
                s
            },
            PhialType::Poison(v) => {
                let mut s = String::from_str("Poison(");
                let digits = i32_to_dec(*v);
                s.append(digits.as_str());
                s.append(")");
                proof {
                    assert(s@ =~= phial_label(*self));
                }
                s
            },
        }
    }
}

//
// The weapon record and its table models.
//

/// Per-level capacities of one ammo kind, in level order; zero marks a
/// level where the ammo is unavailable.
#[derive(Debug)]
pub struct AmmoCapacity {
    pub ammo: AmmoType,
    pub capacities: Vec<i32>,
}

/// Irregular optional attributes of a weapon; most apply to a few weapon
/// classes only.
#[derive(Debug)]
pub struct WeaponAttributes {
    pub ammo_capacities: Option<Vec<AmmoCapacity>>,
    pub affinity: Option<i32>,
    pub boost_type: Option<BoostType>,
    pub coatings: Option<Vec<Coating>>,
    pub damage_type: Option<DamageType>,
    pub defense: Option<i32>,
    pub deviation: Option<Deviation>,
    pub elderseal: Option<Elderseal>,
    pub phial_type: Option<PhialType>,
    pub shelling_type: Option<ShellingType>,
    pub special_ammo: Option<SpecialAmmoType>,
}

/// Each label followed by an empty spacer cell, so a run of labels shares
/// the left column with its heading row.
pub open spec fn label_pairs(ls: Seq<Seq<char>>) -> Seq<Seq<char>>
    decreases ls.len(),
{
    if ls.len() == 0 {
        Seq::<Seq<char>>::empty()
    } else {
        seq![ls.first(), Seq::<char>::empty()] + label_pairs(ls.drop_first())
    }
}

/// Capacities with the trailing run of zero levels removed; interior zero
/// levels are kept.
pub open spec fn trim_zeros(caps: Seq<i32>) -> Seq<i32>
    decreases caps.len(),
{
    if caps.len() == 0 {
        caps
    } else if caps.last() == 0 {
        trim_zeros(caps.drop_last())
    } else {
        caps
    }
}

proof fn lemma_trim_zeros_at(caps: Seq<i32>, t: int)
    requires
        0 <= t <= caps.len(),
        forall|k: int| t <= k < caps.len() ==> caps[k] == 0,
        t > 0 ==> caps[t - 1] != 0,
    ensures
        trim_zeros(caps) == caps.take(t),
    decreases caps.len() - t,
{
    if t == caps.len() {
        if caps.len() > 0 {
            assert(caps.last() != 0);
        }
        assert(caps.take(t) =~= caps);
    } else {
        assert(caps.last() == 0);
        lemma_trim_zeros_at(caps.drop_last(), t);
        assert(caps.drop_last().take(t) =~= caps.take(t));
    }
}

/// The display cell for one capacity level.
pub open spec fn lv_label(idx: int, c: i32) -> Seq<char> {
    "  Lv"@ + dec_digits((idx + 1) as nat) + ": "@ + dec_int(c as int)
}

/// The display cells for a run of capacity levels numbered from `base`.
pub open spec fn level_labels(caps: Seq<i32>, base: int) -> Seq<Seq<char>>
    decreases caps.len(),
{
    if caps.len() == 0 {
        Seq::<Seq<char>>::empty()
    } else {
        seq![lv_label(base, caps.first())] + level_labels(caps.drop_first(), base + 1)
    }
}

/// The rows of one ammo entry: omitted entirely when every level capacity
/// is zero, otherwise the indented ammo name followed by the compact
/// non-trailing-zero level run.
pub open spec fn ammo_entry_cells(a: AmmoCapacity) -> Seq<Seq<char>> {
    let run = trim_zeros(a.capacities@);
    if run.len() == 0 {
        Seq::<Seq<char>>::empty()
    } else {
        seq!["    "@ + ammo_type_label(a.ammo)] + label_pairs(level_labels(run, 0)).drop_last()
    }
}

pub open spec fn ammo_entries_cells(s: Seq<AmmoCapacity>) -> Seq<Seq<char>>
    decreases s.len(),
{
    if s.len() == 0 {
        Seq::<Seq<char>>::empty()
    } else {
        ammo_entry_cells(s.first()) + ammo_entries_cells(s.drop_first())
    }
}

/// The ammo-capacities section: a heading row followed by every ammo kind
/// that is available at some level.
pub open spec fn ammo_section(o: Option<Vec<AmmoCapacity>>) -> Seq<Seq<char>> {
    match o {
        Some(list) => seq!["Ammo Capacities"@, Seq::<char>::empty()] + ammo_entries_cells(list@),
        None => Seq::<Seq<char>>::empty(),
    }
}

/// The coatings section: a heading cell followed by the coating labels,
/// spaced into the value column.
pub open spec fn coatings_section(o: Option<Vec<Coating>>) -> Seq<Seq<char>> {
    match o {
        Some(cs) => if cs.len() == 0 {
            Seq::<Seq<char>>::empty()
        } else {
            seq!["Coatings"@] + label_pairs(
                cs@.map_values(|c: Coating| coating_label(c)),
            ).drop_last()
        },
        None => Seq::<Seq<char>>::empty(),
    }
}

/// The whole attributes table: the ammo section, then one name/value row
/// per present attribute, in the fixed attribute order.
pub open spec fn weapon_attr_cells(a: WeaponAttributes) -> Seq<Seq<char>> {
    ammo_section(a.ammo_capacities) + (match a.affinity {
        Some(v) => seq!["Affinity"@, dec_int(v as int)],
        None => Seq::<Seq<char>>::empty(),
    }) + (match a.boost_type {
        Some(b) => seq!["Boost Type"@, boost_type_label(b)],
        None => Seq::<Seq<char>>::empty(),
    }) + coatings_section(a.coatings) + (match a.damage_type {
        Some(d) => seq!["Damage Type"@, damage_type_label(d)],
        None => Seq::<Seq<char>>::empty(),
    }) + (match a.defense {
        Some(v) => seq!["Defense"@, dec_int(v as int)],
        None => Seq::<Seq<char>>::empty(),
    }) + (match a.deviation {
        Some(d) => seq!["Deviation"@, deviation_label(d)],
        None => Seq::<Seq<char>>::empty(),
    }) + (match a.elderseal {
        Some(e) => seq!["Elderseal"@, elderseal_label(e)],
        None => Seq::<Seq<char>>::empty(),
    }) + (match a.phial_type {
        Some(p) => seq!["Phial Type"@, phial_label(p)],
        None => Seq::<Seq<char>>::empty(),
    }) + (match a.shelling_type {
        Some(t) => seq!["Shelling Type"@, shelling_label(t)],
        None => Seq::<Seq<char>>::empty(),
    }) + (match a.special_ammo {
        Some(t) => seq!["Special Ammo"@, special_ammo_label(t)],
        None => Seq::<Seq<char>>::empty(),
    })
}

fn push_ammo_section(t: &mut SimpleTableDataModel, o: &Option<Vec<AmmoCapacity>>)
    requires
        !old(t).spec_is_empty(),
    ensures
        final(t).spec_col_count() == old(t).spec_col_count(),
        final(t).cells() =~= old(t).cells() + ammo_section(*o),
{
    proof {
        reveal_strlit("Ammo Capacities");
        reveal_strlit("    ");
        reveal_strlit("  Lv");
        reveal_strlit(": ");
    }
    let list = match o {
        Some(list) => list,
        None => {
            return ;
        },
    };
    t.push(String::from_str("Ammo Capacities"));
    t.push(String::new());
    let ghost base = old(t).cells() + seq!["Ammo Capacities"@, Seq::<char>::empty()];
    let n = list.len();
    let mut i: usize = 0;
    proof {
        assert(list@.skip(0) =~= list@);
        assert(t.cells() =~= base);
    }
    while i < n
        invariant
            i <= n,
            n == list@.len(),
            !t.spec_is_empty(),
            t.spec_col_count() == old(t).spec_col_count(),
            base == old(t).cells() + seq!["Ammo Capacities"@, Seq::<char>::empty()],
            base + ammo_entries_cells(list@) =~= t.cells() + ammo_entries_cells(
                list@.skip(i as int),
            ),
        decreases n - i,
    {
        proof {
            assert(list@.skip(i as int).first() == list@[i as int]);
            assert(list@.skip(i as int).drop_first() =~= list@.skip(i as int + 1));
            assert(ammo_entries_cells(list@.skip(i as int)) == ammo_entry_cells(list@[i as int])
                + ammo_entries_cells(list@.skip(i as int + 1)));
        }
        let ghost cells0 = t.cells();
        let entry = &list[i];
        let caps = &entry.capacities;
        let mut k = caps.len();
        while k > 0 && caps[k - 1] == 0
            invariant
                k <= caps@.len(),
                forall|j: int| k <= j < caps@.len() ==> caps@[j] == 0,
            decreases k,
        {
            k = k - 1;
        }
        proof {
            lemma_trim_zeros_at(caps@, k as int);
        }
        let ghost run = trim_zeros(caps@);
        if k > 0 {
            let mut lab = String::from_str("    ");
            lab.append(entry.ammo.label());
            proof {
                assert(lab@ =~= "    "@ + ammo_type_label(entry.ammo));
            }
            t.push(lab);
            let ghost entry_base = t.cells();
            let mut j: usize = 0;
            proof {
                assert(run.skip(0) =~= run);
            }
            while j < k
                invariant
                    j <= k,
                    k <= caps@.len(),
                    run == trim_zeros(caps@),
                    run == caps@.take(k as int),
                    !t.spec_is_empty(),
                    t.spec_col_count() == old(t).spec_col_count(),
                    entry_base + label_pairs(level_labels(run, 0)) =~= t.cells() + label_pairs(
                        level_labels(run.skip(j as int), j as int),
                    ),
                decreases k - j,
            {
                proof {
                    let rem = run.skip(j as int);
                    assert(rem.first() == run[j as int]);
                    assert(run[j as int] == caps@[j as int]);
                    assert(rem.drop_first() =~= run.skip(j as int + 1));
                    assert(level_labels(rem, j as int) == seq![lv_label(j as int, rem.first())]
                        + level_labels(rem.drop_first(), j as int + 1));
                    let ll = seq![lv_label(j as int, rem.first())] + level_labels(
                        rem.drop_first(),
                        j as int + 1,
                    );
                    assert(ll.first() == lv_label(j as int, caps@[j as int]));
                    assert(ll.drop_first() =~= level_labels(run.skip(j as int + 1), j as int + 1));
                    assert(label_pairs(ll) == seq![
                        lv_label(j as int, caps@[j as int]),
                        Seq::<char>::empty(),
                    ] + label_pairs(level_labels(run.skip(j as int + 1), j as int + 1)));
                }
                let mut cell = String::from_str("  Lv");
                let num = usize_to_dec(j + 1);
                cell.append(num.as_str());
                cell.append(": ");
                let cap_str = i32_to_dec(caps[j]);
                cell.append(cap_str.as_str());
                proof {
                    assert(cell@ =~= lv_label(j as int, caps@[j as int]));
                }
                t.push(cell);
                t.push(String::new());
                j = j + 1;
            }
            proof {
                assert(run.skip(k as int) =~= Seq::<i32>::empty());
                assert(level_labels(Seq::<i32>::empty(), k as int) =~= Seq::<Seq<char>>::empty());
                assert(label_pairs(Seq::<Seq<char>>::empty()) =~= Seq::<Seq<char>>::empty());
                assert(t.cells() =~= entry_base + label_pairs(level_labels(run, 0)));
                assert(run.len() > 0);
                assert(level_labels(run, 0).len() >= 1);
                assert(label_pairs(level_labels(run, 0)).len() >= 2);
            }
            t.pop();
            proof {
                assert(t.cells() =~= entry_base + label_pairs(level_labels(run, 0)).drop_last());
                assert(t.cells() =~= cells0 + ammo_entry_cells(list@[i as int]));
            }
        } else {
            proof {
                assert(run.len() == 0);
                assert(ammo_entry_cells(list@[i as int]) =~= Seq::<Seq<char>>::empty());
                assert(t.cells() =~= cells0 + ammo_entry_cells(list@[i as int]));
            }
        }
        i = i + 1;
    }
    proof {
        assert(list@.skip(n as int) =~= Seq::<AmmoCapacity>::empty());
        assert(ammo_entries_cells(Seq::<AmmoCapacity>::empty()) =~= Seq::<Seq<char>>::empty());
        assert(t.cells() =~= old(t).cells() + ammo_section(*o));
    }
}

fn push_coatings_section(t: &mut SimpleTableDataModel, o: &Option<Vec<Coating>>)
    requires
        !old(t).spec_is_empty(),
    ensures
        final(t).spec_col_count() == old(t).spec_col_count(),
        final(t).cells() =~= old(t).cells() + coatings_section(*o),
{
    proof {
        reveal_strlit("Coatings");
    }
    let cs = match o {
        Some(cs) => cs,
        None => {
            return ;
        },
    };
    t.push(String::from_str("Coatings"));
    let ghost base = old(t).cells() + seq!["Coatings"@];
    let ghost labels = cs@.map_values(|c: Coating| coating_label(c));
    let n = cs.len();
    let mut i: usize = 0;
    proof {
        assert(labels.skip(0) =~= labels);
        assert(t.cells() =~= base);
    }
    while i < n
        invariant
            i <= n,
            n == cs@.len(),
            labels == cs@.map_values(|c: Coating| coating_label(c)),
            !t.spec_is_empty(),
            t.spec_col_count() == old(t).spec_col_count(),
            base == old(t).cells() + seq!["Coatings"@],
            base + label_pairs(labels) =~= t.cells() + label_pairs(labels.skip(i as int)),
        decreases n - i,
    {
        proof {
            assert(labels.skip(i as int).first() == labels[i as int]);
            assert(labels.skip(i as int).drop_first() =~= labels.skip(i as int + 1));
            assert(label_pairs(labels.skip(i as int)) == seq![
                labels[i as int],
                Seq::<char>::empty(),
            ] + label_pairs(labels.skip(i as int + 1)));
        }
        let lab = cs[i].label();
        t.push(String::from_str(lab));
        t.push(String::new());
        i = i + 1;
    }
    proof {
        assert(labels.skip(n as int) =~= Seq::<Seq<char>>::empty());
        assert(label_pairs(Seq::<Seq<char>>::empty()) =~= Seq::<Seq<char>>::empty());
        assert(t.cells() =~= base + label_pairs(labels));
        if n > 0 {
            assert(labels.len() > 0);
            assert(label_pairs(labels).len() >= 2);
        }
    }
    t.pop();
    proof {
        if n > 0 {
            assert((base + label_pairs(labels)).drop_last() =~= base + label_pairs(
                labels,
            ).drop_last());
        } else {
            assert(base.drop_last() =~= old(t).cells());
        }
        assert(t.cells() =~= old(t).cells() + coatings_section(*o));
    }
}

/// Appends one name/value row when the value is present.
fn push_opt_row(t: &mut SimpleTableDataModel, label: &'static str, v: Option<String>)
    requires
        !old(t).spec_is_empty(),
    ensures
        final(t).spec_col_count() == old(t).spec_col_count(),
        final(t).cells() == old(t).cells() + (match v {
            Some(s) => seq![label@, s@],
            None => Seq::<Seq<char>>::empty(),
        }),
{
    match v {
        Some(s) => {
            t.push(label.to_owned());
            t.push(s);
            proof {
                assert(t.cells() =~= old(t).cells() + seq![label@, s@]);
            }
        },
        None => {
            proof {
                assert(t.cells() =~= old(t).cells() + Seq::<Seq<char>>::empty());
            }
        },
    }
}

/// Builds the whole two-column attributes table for `attribs`.
#[verifier::rlimit(100)]
fn build_attribute_cells(attribs: &WeaponAttributes) -> (t: SimpleTableDataModel)
    ensures
        t.spec_col_count() == 2,
        t.cells() == weapon_attr_cells(*attribs),
{
    let mut t = SimpleTableDataModel::new(2);
    push_ammo_section(&mut t, &attribs.ammo_capacities);
    let ghost s1 = ammo_section(attribs.ammo_capacities);
    proof {
        assert(Seq::<Seq<char>>::empty() + s1 =~= s1);
        assert(t.cells() == s1);
    }
    let affinity = match &attribs.affinity {
        Some(v) => Some(i32_to_dec(*v)),
        None => None,
    };
    push_opt_row(&mut t, "Affinity", affinity);
    let boost = match &attribs.boost_type {
        Some(b) => Some(b.label().to_owned()),
        None => None,
    };
    push_opt_row(&mut t, "Boost Type", boost);
    push_coatings_section(&mut t, &attribs.coatings);
    let damage = match &attribs.damage_type {
        Some(d) => Some(d.label().to_owned()),
        None => None,
    };
    push_opt_row(&mut t, "Damage Type", damage);
    let defense = match &attribs.defense {
        Some(v) => Some(i32_to_dec(*v)),
        None => None,
    };
    push_opt_row(&mut t, "Defense", defense);
    let deviation = match &attribs.deviation {
        Some(d) => Some(d.label().to_owned()),
        None => None,
    };
    push_opt_row(&mut t, "Deviation", deviation);
    let elderseal = match &attribs.elderseal {
        Some(e) => Some(e.label().to_owned()),
        None => None,
    };
    push_opt_row(&mut t, "Elderseal", elderseal);
    let phial = match &attribs.phial_type {
        Some(p) => Some(p.label()),
        None => None,
    };
    push_opt_row(&mut t, "Phial Type", phial);
    let shelling = match &attribs.shelling_type {
        Some(st) => Some(st.label()),
        None => None,
    };
    push_opt_row(&mut t, "Shelling Type", shelling);
    let special = match &attribs.special_ammo {
        Some(sa) => Some(sa.label().to_owned()),
        None => None,
    };
    push_opt_row(&mut t, "Special Ammo", special);
    proof {
        assert(t.cells() == weapon_attr_cells(*attribs));
    }
    t
}

/// A full weapon record, with the lazily-built table models of its
/// attribute groups.  A cache with no columns configured is "unbuilt";
/// building is idempotent and happens on first access.
#[derive(Debug)]
pub struct WeaponInfo {
    pub id: i32,
    pub name: String,
    pub type_val: WeaponType,
    pub rarity: u32,
    pub attack: Attack,
    pub slots: Vec<Slot>,
    pub elements: Vec<WeaponElement>,
    pub crafting: WeaponCraftingInfo,
    pub assets: WeaponAssets,
    pub durability: Vec<WeaponSharpness>,
    pub attributes: WeaponAttributes,
    pub crafting_cache: SimpleTableDataModel,
    pub upgrade_cache: SimpleTableDataModel,
    pub attributes_cache: SimpleTableDataModel,
}

impl WeaponInfo {
    /// Builds the two-column crafting-materials table on first call; once
    /// built it is never rebuilt.
    pub fn crafting_data(&mut self)
        ensures
            *final(self) == (WeaponInfo { crafting_cache: final(self).crafting_cache, ..*old(self) }),
            old(self).crafting_cache.spec_is_empty() ==> final(self).crafting_cache.spec_col_count() == 2
                && final(self).crafting_cache.cells() =~= crafting_cells(old(self).crafting.crafting_materials@),
            !old(self).crafting_cache.spec_is_empty() ==> final(self).crafting_cache == old(self).crafting_cache,
    {
        if self.crafting_cache.is_empty() {
            self.crafting_cache = SimpleTableDataModel::new(2);
            let n = self.crafting.crafting_materials.len();
            let mut i: usize = 0;
            proof {
                assert(self.crafting.crafting_materials@.skip(0)
                    =~= self.crafting.crafting_materials@);
            }
            while i < n
                invariant
                    i <= n,
                    n == self.crafting.crafting_materials@.len(),
                    *self == (WeaponInfo { crafting_cache: self.crafting_cache, ..*old(self) }),
                    !self.crafting_cache.spec_is_empty(),
                    self.crafting_cache.spec_col_count() == 2,
                    crafting_cells(self.crafting.crafting_materials@)
                        =~= self.crafting_cache.cells() + crafting_cells(
                        self.crafting.crafting_materials@.skip(i as int),
                    ),
                decreases n - i,
            {
                proof {
                    assert(self.crafting.crafting_materials@.skip(i as int).first()
                        == self.crafting.crafting_materials@[i as int]);
                    assert(self.crafting.crafting_materials@.skip(i as int).drop_first()
                        =~= self.crafting.crafting_materials@.skip(i as int + 1));
                }
                let name = self.crafting.crafting_materials[i].item.name.clone();
                let quantity = self.crafting.crafting_materials[i].quantity;
                self.crafting_cache.push(name);
                self.crafting_cache.push(i32_to_dec(quantity));
                i = i + 1;
            }
            proof {
                assert(self.crafting.crafting_materials@.skip(n as int) =~= Seq::<
                    CraftingCost,
                >::empty());
            }
        }
    }

    /// Builds the two-column upgrade-materials table on first call.
    pub fn upgrading_data(&mut self)
        ensures
            *final(self) == (WeaponInfo { upgrade_cache: final(self).upgrade_cache, ..*old(self) }),
            old(self).upgrade_cache.spec_is_empty() ==> final(self).upgrade_cache.spec_col_count() == 2
                && final(self).upgrade_cache.cells() =~= crafting_cells(old(self).crafting.upgrade_materials@),
            !old(self).upgrade_cache.spec_is_empty() ==> final(self).upgrade_cache == old(self).upgrade_cache,
    {
        if self.upgrade_cache.is_empty() {
            self.upgrade_cache = SimpleTableDataModel::new(2);
            let n = self.crafting.upgrade_materials.len();
            let mut i: usize = 0;
            proof {
                assert(self.crafting.upgrade_materials@.skip(0)
                    =~= self.crafting.upgrade_materials@);
            }
            while i < n
                invariant
                    i <= n,
                    n == self.crafting.upgrade_materials@.len(),
                    *self == (WeaponInfo { upgrade_cache: self.upgrade_cache, ..*old(self) }),
                    !self.upgrade_cache.spec_is_empty(),
                    self.upgrade_cache.spec_col_count() == 2,
                    crafting_cells(self.crafting.upgrade_materials@) =~= self.upgrade_cache.cells()
                        + crafting_cells(self.crafting.upgrade_materials@.skip(i as int)),
                decreases n - i,
            {
                proof {
                    assert(self.crafting.upgrade_materials@.skip(i as int).first()
                        == self.crafting.upgrade_materials@[i as int]);
                    assert(self.crafting.upgrade_materials@.skip(i as int).drop_first()
                        =~= self.crafting.upgrade_materials@.skip(i as int + 1));
                }
                let name = self.crafting.upgrade_materials[i].item.name.clone();
                let quantity = self.crafting.upgrade_materials[i].quantity;
                self.upgrade_cache.push(name);
                self.upgrade_cache.push(i32_to_dec(quantity));
                i = i + 1;
            }
            proof {
                assert(self.crafting.upgrade_materials@.skip(n as int) =~= Seq::<
                    CraftingCost,
                >::empty());
            }
        }
    }

    /// Builds the two-column attributes table on first call.
    pub fn attribute_data(&mut self)
        ensures
            *final(self) == (WeaponInfo {
                attributes_cache: final(self).attributes_cache,
                ..*old(self)
            }),
            old(self).attributes_cache.spec_is_empty() ==> final(self).attributes_cache.spec_col_count() == 2
                && final(self).attributes_cache.cells() =~= weapon_attr_cells(old(self).attributes),
            !old(self).attributes_cache.spec_is_empty() ==> final(self).attributes_cache == old(self).attributes_cache,
    {
        if self.attributes_cache.is_empty() {
            let t = build_attribute_cells(&self.attributes);
            self.attributes_cache = t;
        }
    }
}

} // verus!
