use mplus_leaderboard::json::{FactionType, LeadingGroup, Member, Specialization};
use mplus_leaderboard::model::{
    DpsSpecialization, Dungeon, Faction, HealerSpecialization, Region, TankSpecialization,
};
use mplus_leaderboard::row::DataRow;

fn member(faction: &str, id: u32) -> Member {
    Member {
        faction: FactionType { _type: faction.to_string() },
        specialization: Specialization { id },
    }
}

fn group(members: Vec<Member>) -> LeadingGroup {
    LeadingGroup {
        ranking: 1,
        duration: 1_800_000,
        keystone_level: 15,
        completed_timestamp: 1_546_300_800_000,
        members,
    }
}

#[test]
fn new_row_records_where_and_when() {
    let g = group(vec![]);
    let row = DataRow::new(Region::Eu, Dungeon::Freehold, &g);
    assert_eq!(row.region, Some(Region::Eu));
    assert_eq!(row.dungeon, Some(Dungeon::Freehold));
    assert_eq!(row.timestamp, 1_546_300_800_000);
    assert_eq!(row.duration, 1_800_000);
    assert_eq!(row.keystone_level, 15);
    assert_eq!(row.faction, None);
    assert_eq!(row.tank, None);
    assert_eq!(row.healer, None);
    assert_eq!(row.num_arcane_mage, 0);
}

#[test]
fn new_row_keeps_first_tank_and_healer_and_counts_dps() {
    let g = group(vec![
        member("horde", 66),
        member("horde", 65),
        member("horde", 62),
        member("horde", 62),
        member("horde", 73),
        member("horde", 256),
        member("horde", 577),
        member("horde", 9999),
    ]);
    let row = DataRow::new(Region::Us, Dungeon::AtalDazar, &g);
    assert_eq!(row.tank, Some(TankSpecialization::ProtectionPaladin));
    assert_eq!(row.healer, Some(HealerSpecialization::HolyPaladin));
    assert_eq!(row.num_arcane_mage, 2);
    assert_eq!(row.num_havoc_dh, 1);
    assert_eq!(row.num_fire_mage, 0);
    assert_eq!(row.dps_counter(DpsSpecialization::ArcaneMage), 2);
    assert_eq!(row.faction, Some(Faction::HORDE));
}

#[test]
fn new_row_takes_last_known_faction() {
    let g = group(vec![member("Horde", 62), member("alliance", 63), member("neutral", 64)]);
    let row = DataRow::new(Region::Us, Dungeon::AtalDazar, &g);
    assert_eq!(row.faction, Some(Faction::ALLIANCE));
}

#[test]
fn update_faction_upper_cases_the_name() {
    let mut row = DataRow::default();
    assert!(row.update_faction(&"alliance".to_string()));
    assert_eq!(row.faction, Some(Faction::ALLIANCE));
    assert!(row.update_faction(&"hOrDe".to_string()));
    assert_eq!(row.faction, Some(Faction::HORDE));
    assert!(!row.update_faction(&"pandaren".to_string()));
    assert_eq!(row.faction, Some(Faction::HORDE));
}

#[test]
fn update_faction_uses_unicode_case_mapping() {
    // U+0131 (dotless i) upper-cases to 'I'.
    let mut row = DataRow::default();
    assert!(row.update_faction(&"allıance".to_string()));
    assert_eq!(row.faction, Some(Faction::ALLIANCE));
}

#[test]
fn update_group_composition_accepts_one_tank_and_one_healer() {
    let mut row = DataRow::default();
    assert!(row.update_group_composition(250));
    assert_eq!(row.tank, Some(TankSpecialization::BloodDk));
    assert!(!row.update_group_composition(104));
    assert_eq!(row.tank, Some(TankSpecialization::BloodDk));
    assert!(row.update_group_composition(105));
    assert!(!row.update_group_composition(264));
    assert_eq!(row.healer, Some(HealerSpecialization::RestorationDruid));
    assert!(row.update_group_composition(269));
    assert_eq!(row.num_windwalker_monk, 1);
    assert!(!row.update_group_composition(1));
}

#[test]
fn has_room_for_group_bounds_each_counter() {
    let full = group((0..255).map(|_| member("horde", 62)).collect());
    assert!(DataRow::has_room_for_group(&full));
    let row = DataRow::new(Region::Us, Dungeon::Freehold, &full);
    assert_eq!(row.num_arcane_mage, 255);
    let over = group((0..256).map(|_| member("horde", 62)).collect());
    assert!(!DataRow::has_room_for_group(&over));
    let mut mixed: Vec<Member> = (0..255).map(|_| member("horde", 62)).collect();
    mixed.extend((0..255).map(|_| member("horde", 63)));
    mixed.push(member("horde", 66));
    assert!(DataRow::has_room_for_group(&group(mixed)));
}
