use mplus_leaderboard::model::{
    DpsSpecialization, Dungeon, Faction, HealerSpecialization, Region, Role, TankSpecialization,
};

#[test]
fn region_query_str_gives_codes() {
    assert_eq!(Region::Eu.query_str(), "eu");
    assert_eq!(Region::Us.query_str(), "us");
    assert_eq!(Region::Apac.query_str(), "apac");
}

#[test]
fn dungeon_from_str_knows_the_season() {
    let names = [
        ("Atal'Dazar", Dungeon::AtalDazar),
        ("Freehold", Dungeon::Freehold),
        ("Tol Dagor", Dungeon::TolDagor),
        ("The MOTHERLODE!!", Dungeon::TheMotherlode),
        ("Waycrest Manor", Dungeon::WaycrestManor),
        ("Kings' Rest", Dungeon::KingsRest),
        ("Temple of Sethraliss", Dungeon::TempleOfSethraliss),
        ("The Underrot", Dungeon::TheUnderrot),
        ("Shrine of the Storm", Dungeon::ShrineOfTheStorms),
        ("Siege of Boralus", Dungeon::SiegeOfBoralus),
    ];
    for (name, dungeon) in names.iter() {
        assert_eq!(Dungeon::from_str(name), Ok(*dungeon));
    }
}

#[test]
fn dungeon_from_str_rejects_other_names() {
    assert_eq!(Dungeon::from_str("Shrine of the Storms"), Err("Missing entry"));
    assert_eq!(Dungeon::from_str("freehold"), Err("Missing entry"));
    assert_eq!(Dungeon::from_str(""), Err("Missing entry"));
}

#[test]
fn faction_from_upper_needs_upper_case() {
    assert_eq!(Faction::from_upper("ALLIANCE"), Some(Faction::ALLIANCE));
    assert_eq!(Faction::from_upper("HORDE"), Some(Faction::HORDE));
    assert_eq!(Faction::from_upper("Horde"), None);
    assert_eq!(Faction::from_upper("NEUTRAL"), None);
}

#[test]
fn role_of_specialization_follows_the_api_ids() {
    assert_eq!(Role::of_specialization(62), Some(Role::Dps(DpsSpecialization::ArcaneMage)));
    assert_eq!(Role::of_specialization(66), Some(Role::Tank(TankSpecialization::ProtectionPaladin)));
    assert_eq!(Role::of_specialization(65), Some(Role::Healer(HealerSpecialization::HolyPaladin)));
    assert_eq!(Role::of_specialization(581), Some(Role::Tank(TankSpecialization::VengenceDh)));
    assert_eq!(Role::of_specialization(577), Some(Role::Dps(DpsSpecialization::HavocDh)));
    assert_eq!(Role::of_specialization(270), Some(Role::Healer(HealerSpecialization::MistweaverMonk)));
    assert_eq!(Role::of_specialization(0), None);
    assert_eq!(Role::of_specialization(67), None);
}
