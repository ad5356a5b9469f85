use mhw_companion::armor::ArmorAssets;
use mhw_companion::armor::ArmorAttributes;
use mhw_companion::armor::ArmorCraftingInfo;
use mhw_companion::armor::ArmorInfo;
use mhw_companion::armor::ArmorRank;
use mhw_companion::armor::ArmorType;
use mhw_companion::armor::Defense;
use mhw_companion::armor::Gender;
use mhw_companion::armor::Resistances;
use mhw_companion::common::CraftingCost;
use mhw_companion::common::SkillRank;
use mhw_companion::items::ItemInfo;
use mhw_companion::table::SimpleTableDataModel;
use mhw_companion::weapons::AmmoCapacity;
use mhw_companion::weapons::AmmoType;
use mhw_companion::weapons::Attack;
use mhw_companion::weapons::Coating;
use mhw_companion::weapons::PhialType;
use mhw_companion::weapons::ShellingType;
use mhw_companion::weapons::WeaponAssets;
use mhw_companion::weapons::WeaponAttributes;
use mhw_companion::weapons::WeaponCraftingInfo;
use mhw_companion::weapons::WeaponInfo;
use mhw_companion::weapons::WeaponType;

fn item(name: &str) -> ItemInfo {
    let mut i = ItemInfo::default();
    i.name = name.to_owned();
    i
}

fn armor_base() -> ArmorInfo {
    ArmorInfo {
        id: 159,
        name: "Rathalos Helm".to_owned(),
        type_val: ArmorType::Head,
        rank: ArmorRank::High,
        rarity: 6,
        defense: Defense { base: 54, max: 64, augmented: 70 },
        resistances: Resistances { fire: 0, water: 0, ice: 0, thunder: 0, dragon: 0 },
        slots: vec![],
        skills: vec![],
        armor_set: None,
        assets: ArmorAssets { image_male: None, image_female: None },
        crafting: ArmorCraftingInfo { materials: vec![] },
        attributes: ArmorAttributes { required_gender: None },
        resistances_cache: SimpleTableDataModel::default(),
        skills_cache: SimpleTableDataModel::default(),
        crafting_cache: SimpleTableDataModel::default(),
        other_cache: SimpleTableDataModel::default(),
    }
}

fn cells_of(t: &SimpleTableDataModel) -> Vec<String> {
    let mut out = vec![];
    for row in 0..t.row_count() {
        for col in 0..t.col_count() {
            if let Some(c) = t.cell_at(col, row) {
                out.push(c);
            }
        }
    }
    out
}

#[test]
fn resistances_table_skips_zero_values() {
    let mut armor = armor_base();
    armor.resistances = Resistances { fire: 3, water: -5, ice: 0, thunder: 0, dragon: 2 };
    armor.resistances_data();
    assert_eq!(armor.resistances_cache.col_count(), 2);
    assert_eq!(cells_of(&armor.resistances_cache), vec!["Fire", "3", "Water", "-5", "Dragon", "2"]);
}

#[test]
fn all_zero_resistances_build_an_open_but_empty_table() {
    let mut armor = armor_base();
    armor.resistances_data();
    assert!(!armor.resistances_cache.is_empty());
    assert_eq!(armor.resistances_cache.row_count(), 0);
}

#[test]
fn building_is_idempotent() {
    let mut armor = armor_base();
    armor.resistances = Resistances { fire: 3, water: 0, ice: 0, thunder: 0, dragon: 0 };
    armor.resistances_data();
    armor.resistances = Resistances { fire: 9, water: 9, ice: 9, thunder: 9, dragon: 9 };
    armor.resistances_data();
    // once built, the cache is never rebuilt for this record
    assert_eq!(cells_of(&armor.resistances_cache), vec!["Fire", "3"]);
}

#[test]
fn skills_table_pairs_names_with_levels() {
    let mut armor = armor_base();
    armor.skills = vec![
        SkillRank {
            id: 1,
            level: 2,
            description: "".to_owned(),
            skill: 10,
            skill_name: "Attack Boost".to_owned(),
        },
        SkillRank {
            id: 2,
            level: 1,
            description: "".to_owned(),
            skill: 11,
            skill_name: "Fire Resistance".to_owned(),
        },
    ];
    armor.skills_data();
    assert_eq!(
        cells_of(&armor.skills_cache),
        vec!["Attack Boost", "2", "Fire Resistance", "1"]
    );
}

#[test]
fn crafting_table_pairs_items_with_quantities() {
    let mut armor = armor_base();
    armor.crafting = ArmorCraftingInfo {
        materials: vec![
            CraftingCost { quantity: 2, item: item("Rathalos Scale") },
            CraftingCost { quantity: 1, item: item("Rathalos Plate") },
        ],
    };
    armor.crafting_data();
    assert_eq!(
        cells_of(&armor.crafting_cache),
        vec!["Rathalos Scale", "2", "Rathalos Plate", "1"]
    );
}

#[test]
fn other_table_shows_the_gender_restriction() {
    let mut armor = armor_base();
    armor.attributes = ArmorAttributes { required_gender: Some(Gender::Female) };
    armor.other_data();
    assert_eq!(cells_of(&armor.other_cache), vec!["Required Gender", "Female"]);

    let mut plain = armor_base();
    plain.other_data();
    assert_eq!(plain.other_cache.row_count(), 0);
}

fn weapon_base() -> WeaponInfo {
    WeaponInfo {
        id: 1616,
        name: "Royal Venom Blade".to_owned(),
        type_val: WeaponType::SwordAndShield,
        rarity: 6,
        attack: Attack { display: 252, raw: 180 },
        slots: vec![],
        elements: vec![],
        crafting: WeaponCraftingInfo {
            craftable: true,
            previous: None,
            branches: vec![],
            crafting_materials: vec![],
            upgrade_materials: vec![],
        },
        assets: WeaponAssets { icon: None, image: None },
        durability: vec![],
        attributes: WeaponAttributes {
            ammo_capacities: None,
            affinity: None,
            boost_type: None,
            coatings: None,
            damage_type: None,
            defense: None,
            deviation: None,
            elderseal: None,
            phial_type: None,
            shelling_type: None,
            special_ammo: None,
        },
        crafting_cache: SimpleTableDataModel::default(),
        upgrade_cache: SimpleTableDataModel::default(),
        attributes_cache: SimpleTableDataModel::default(),
    }
}

#[test]
fn weapon_crafting_tables() {
    let mut w = weapon_base();
    w.crafting.crafting_materials = vec![CraftingCost { quantity: 3, item: item("Iron Ore") }];
    w.crafting.upgrade_materials = vec![CraftingCost { quantity: 5, item: item("Monster Bone") }];
    w.crafting_data();
    w.upgrading_data();
    assert_eq!(cells_of(&w.crafting_cache), vec!["Iron Ore", "3"]);
    assert_eq!(cells_of(&w.upgrade_cache), vec!["Monster Bone", "5"]);
}

#[test]
fn ammo_capacities_keep_interior_zeros_and_drop_trailing_ones() {
    let mut w = weapon_base();
    w.attributes.ammo_capacities = Some(vec![
        AmmoCapacity { ammo: AmmoType::Normal, capacities: vec![1, 0, 2, 0] },
        AmmoCapacity { ammo: AmmoType::Flaming, capacities: vec![0, 0, 0] },
        AmmoCapacity { ammo: AmmoType::Sticky, capacities: vec![3] },
    ]);
    w.attribute_data();
    assert_eq!(
        cells_of(&w.attributes_cache),
        vec![
            "Ammo Capacities",
            "",
            "    Normal",
            "  Lv1: 1",
            "",
            "  Lv2: 0",
            "",
            "  Lv3: 2",
            "    Sticky",
            "  Lv1: 3",
        ]
    );
}

#[test]
fn attribute_rows_appear_in_fixed_order() {
    let mut w = weapon_base();
    w.attributes.affinity = Some(10);
    w.attributes.coatings = Some(vec![Coating::CloseRange, Coating::Power]);
    w.attributes.defense = Some(-10);
    w.attributes.phial_type = Some(PhialType::Dragon(300));
    w.attributes.shelling_type = Some(ShellingType::Normal(2));
    w.attribute_data();
    assert_eq!(
        cells_of(&w.attributes_cache),
        vec![
            "Affinity",
            "10",
            "Coatings",
            "CloseRange",
            "",
            "Power",
            "Defense",
            "-10",
            "Phial Type",
            "Dragon(300)",
            "Shelling Type",
            "Normal(2)",
        ]
    );
}

#[test]
fn empty_attributes_build_an_open_but_empty_table() {
    let mut w = weapon_base();
    w.attribute_data();
    assert!(!w.attributes_cache.is_empty());
    assert_eq!(w.attributes_cache.row_count(), 0);
}

#[test]
fn weapon_type_labels_are_spaced_words() {
    assert_eq!(WeaponType::SwordAndShield.label(), "Sword and Shield");
    assert_eq!(WeaponType::ChargeBlade.label(), "Charge Blade");
    assert_eq!(WeaponType::Bow.label(), "Bow");
}
