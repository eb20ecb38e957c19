//! The game's vocabulary: regions, dungeons, factions and specializations.
use vstd::prelude::*;

use crate::text::same_text;

verus! {

/// Tank specializations.
#[derive(Clone, Copy, Debug, PartialEq, Eq, Structural)]
pub enum TankSpecialization {
    ProtectionPaladin,
    ProtectionWarrior,
    BloodDk,
    VengenceDh,
    GuardianDruid,
    BrewmasterMonk,
}

/// Healer specializations.
#[derive(Clone, Copy, Debug, PartialEq, Eq, Structural)]
pub enum HealerSpecialization {
    RestorationDruid,
    MistweaverMonk,
    HolyPaladin,
    DisciplinePriest,
    HolyPriest,
    RestorationShaman,
}

/// Damage-dealer specializations; each has a counter in a data row.
#[derive(Clone, Copy, Debug, PartialEq, Eq, Structural)]
pub enum DpsSpecialization {
    FrostDk,
    UnholyDk,
    HavocDh,
    BalanceDruid,
    FeralDruid,
    BeastMasterHunter,
    MarksmanshipHunter,
    SurvivalHunter,
    ArcaneMage,
    FireMage,
    FrostMage,
    WindwalkerMonk,
    RetributionPaladin,
    ShadowPriest,
    AssassinationRogue,
    OutlawRogue,
    SubtletyRogue,
    ElementalShaman,
    EnhancementShaman,
    AfflictionWarlock,
    DemonologyWarlock,
    DestructionWarlock,
    ArmsWarrior,
    FuryWarrior,
}

/// The part a specialization plays in a group.
#[derive(Clone, Copy, Debug, PartialEq, Eq, Structural)]
pub enum Role {
    Tank(TankSpecialization),
    Healer(HealerSpecialization),
    Dps(DpsSpecialization),
}

/// The role of the specialization with the API identifier `id`, if known.
pub open spec fn role_of(id: u32) -> Option<Role> {
    match id {
        62 => Some(Role::Dps(DpsSpecialization::ArcaneMage)),
        63 => Some(Role::Dps(DpsSpecialization::FireMage)),
        64 => Some(Role::Dps(DpsSpecialization::FrostMage)),
        65 => Some(Role::Healer(HealerSpecialization::HolyPaladin)),
        66 => Some(Role::Tank(TankSpecialization::ProtectionPaladin)),
        70 => Some(Role::Dps(DpsSpecialization::RetributionPaladin)),
        71 => Some(Role::Dps(DpsSpecialization::ArmsWarrior)),
        72 => Some(Role::Dps(DpsSpecialization::FuryWarrior)),
        73 => Some(Role::Tank(TankSpecialization::ProtectionWarrior)),
        102 => Some(Role::Dps(DpsSpecialization::BalanceDruid)),
        103 => Some(Role::Dps(DpsSpecialization::FeralDruid)),
        104 => Some(Role::Tank(TankSpecialization::GuardianDruid)),
        105 => Some(Role::Healer(HealerSpecialization::RestorationDruid)),
        250 => Some(Role::Tank(TankSpecialization::BloodDk)),
        251 => Some(Role::Dps(DpsSpecialization::FrostDk)),
        252 => Some(Role::Dps(DpsSpecialization::UnholyDk)),
        253 => Some(Role::Dps(DpsSpecialization::BeastMasterHunter)),
        254 => Some(Role::Dps(DpsSpecialization::MarksmanshipHunter)),
        255 => Some(Role::Dps(DpsSpecialization::SurvivalHunter)),
        256 => Some(Role::Healer(HealerSpecialization::DisciplinePriest)),
        257 => Some(Role::Healer(HealerSpecialization::HolyPriest)),
        258 => Some(Role::Dps(DpsSpecialization::ShadowPriest)),
        259 => Some(Role::Dps(DpsSpecialization::AssassinationRogue)),
        260 => Some(Role::Dps(DpsSpecialization::OutlawRogue)),
        261 => Some(Role::Dps(DpsSpecialization::SubtletyRogue)),
        262 => Some(Role::Dps(DpsSpecialization::ElementalShaman)),
        263 => Some(Role::Dps(DpsSpecialization::EnhancementShaman)),
        264 => Some(Role::Healer(HealerSpecialization::RestorationShaman)),
        265 => Some(Role::Dps(DpsSpecialization::AfflictionWarlock)),
        266 => Some(Role::Dps(DpsSpecialization::DemonologyWarlock)),
        267 => Some(Role::Dps(DpsSpecialization::DestructionWarlock)),
        268 => Some(Role::Tank(TankSpecialization::BrewmasterMonk)),
        269 => Some(Role::Dps(DpsSpecialization::WindwalkerMonk)),
        270 => Some(Role::Healer(HealerSpecialization::MistweaverMonk)),
        577 => Some(Role::Dps(DpsSpecialization::HavocDh)),
        581 => Some(Role::Tank(TankSpecialization::VengenceDh)),
        _ => None,
    }
}

/// The API identifiers of the specializations: damage dealers 62 Arcane,
/// 63 Fire and 64 Frost Mage, 70 Retribution Paladin, 71 Arms and 72 Fury
/// Warrior, 102 Balance and 103 Feral Druid, 251 Frost and 252 Unholy Death
/// Knight, 253 Beast Mastery, 254 Marksmanship and 255 Survival Hunter, 258
/// Shadow Priest, 259 Assassination, 260 Outlaw and 261 Subtlety Rogue, 262
/// Elemental and 263 Enhancement Shaman, 265 Affliction, 266 Demonology and
/// 267 Destruction Warlock, 269 Windwalker Monk, 577 Havoc Demon Hunter;
/// tanks 66 Protection Paladin, 73 Protection Warrior, 104 Guardian Druid,
/// 250 Blood Death Knight, 268 Brewmaster Monk, 581 Vengeance Demon Hunter;
/// healers 65 Holy Paladin, 105 Restoration Druid, 256 Discipline and 257
/// Holy Priest, 264 Restoration Shaman, 270 Mistweaver Monk. No other
/// identifier has a role.
pub proof fn law_specialization_ids()
    ensures
        role_of(62) == Some(Role::Dps(DpsSpecialization::ArcaneMage)),
        role_of(63) == Some(Role::Dps(DpsSpecialization::FireMage)),
        role_of(64) == Some(Role::Dps(DpsSpecialization::FrostMage)),
        role_of(65) == Some(Role::Healer(HealerSpecialization::HolyPaladin)),
        role_of(66) == Some(Role::Tank(TankSpecialization::ProtectionPaladin)),
        role_of(70) == Some(Role::Dps(DpsSpecialization::RetributionPaladin)),
        role_of(71) == Some(Role::Dps(DpsSpecialization::ArmsWarrior)),
        role_of(72) == Some(Role::Dps(DpsSpecialization::FuryWarrior)),
        role_of(73) == Some(Role::Tank(TankSpecialization::ProtectionWarrior)),
        role_of(102) == Some(Role::Dps(DpsSpecialization::BalanceDruid)),
        role_of(103) == Some(Role::Dps(DpsSpecialization::FeralDruid)),
        role_of(104) == Some(Role::Tank(TankSpecialization::GuardianDruid)),
        role_of(105) == Some(Role::Healer(HealerSpecialization::RestorationDruid)),
        role_of(250) == Some(Role::Tank(TankSpecialization::BloodDk)),
        role_of(251) == Some(Role::Dps(DpsSpecialization::FrostDk)),
        role_of(252) == Some(Role::Dps(DpsSpecialization::UnholyDk)),
        role_of(253) == Some(Role::Dps(DpsSpecialization::BeastMasterHunter)),
        role_of(254) == Some(Role::Dps(DpsSpecialization::MarksmanshipHunter)),
        role_of(255) == Some(Role::Dps(DpsSpecialization::SurvivalHunter)),
        role_of(256) == Some(Role::Healer(HealerSpecialization::DisciplinePriest)),
        role_of(257) == Some(Role::Healer(HealerSpecialization::HolyPriest)),
        role_of(258) == Some(Role::Dps(DpsSpecialization::ShadowPriest)),
        role_of(259) == Some(Role::Dps(DpsSpecialization::AssassinationRogue)),
        role_of(260) == Some(Role::Dps(DpsSpecialization::OutlawRogue)),
        role_of(261) == Some(Role::Dps(DpsSpecialization::SubtletyRogue)),
        role_of(262) == Some(Role::Dps(DpsSpecialization::ElementalShaman)),
        role_of(263) == Some(Role::Dps(DpsSpecialization::EnhancementShaman)),
        role_of(264) == Some(Role::Healer(HealerSpecialization::RestorationShaman)),
        role_of(265) == Some(Role::Dps(DpsSpecialization::AfflictionWarlock)),
        role_of(266) == Some(Role::Dps(DpsSpecialization::DemonologyWarlock)),
        role_of(267) == Some(Role::Dps(DpsSpecialization::DestructionWarlock)),
        role_of(268) == Some(Role::Tank(TankSpecialization::BrewmasterMonk)),
        role_of(269) == Some(Role::Dps(DpsSpecialization::WindwalkerMonk)),
        role_of(270) == Some(Role::Healer(HealerSpecialization::MistweaverMonk)),
        role_of(577) == Some(Role::Dps(DpsSpecialization::HavocDh)),
        role_of(581) == Some(Role::Tank(TankSpecialization::VengenceDh)),
        forall|id: u32|
            id != 62 && id != 63 && id != 64 && id != 65 && id != 66 && id != 70 && id != 71 && id != 72 && id != 73 && id != 102 && id != 103 && id != 104 && id != 105 && id != 250 && id != 251 && id != 252 && id != 253 && id != 254 && id != 255 && id != 256 && id != 257 && id != 258 && id != 259 && id != 260 && id != 261 && id != 262 && id != 263 && id != 264 && id != 265 && id != 266 && id != 267 && id != 268 && id != 269 && id != 270 && id != 577 && id != 581 ==> #[trigger] role_of(id) is None,
{
}

impl Role {
    /// The role of the specialization with the API identifier `id`.
    pub fn of_specialization(id: u32) -> (r: Option<Role>)
        ensures
            r == role_of(id),
    {
        match id {
            62 => Some(Role::Dps(DpsSpecialization::ArcaneMage)),
            63 => Some(Role::Dps(DpsSpecialization::FireMage)),
            64 => Some(Role::Dps(DpsSpecialization::FrostMage)),
            65 => Some(Role::Healer(HealerSpecialization::HolyPaladin)),
            66 => Some(Role::Tank(TankSpecialization::ProtectionPaladin)),
            70 => Some(Role::Dps(DpsSpecialization::RetributionPaladin)),
            71 => Some(Role::Dps(DpsSpecialization::ArmsWarrior)),
            72 => Some(Role::Dps(DpsSpecialization::FuryWarrior)),
            73 => Some(Role::Tank(TankSpecialization::ProtectionWarrior)),
            102 => Some(Role::Dps(DpsSpecialization::BalanceDruid)),
            103 => Some(Role::Dps(DpsSpecialization::FeralDruid)),
            104 => Some(Role::Tank(TankSpecialization::GuardianDruid)),
            105 => Some(Role::Healer(HealerSpecialization::RestorationDruid)),
            250 => Some(Role::Tank(TankSpecialization::BloodDk)),
            251 => Some(Role::Dps(DpsSpecialization::FrostDk)),
            252 => Some(Role::Dps(DpsSpecialization::UnholyDk)),
            253 => Some(Role::Dps(DpsSpecialization::BeastMasterHunter)),
            254 => Some(Role::Dps(DpsSpecialization::MarksmanshipHunter)),
            255 => Some(Role::Dps(DpsSpecialization::SurvivalHunter)),
            256 => Some(Role::Healer(HealerSpecialization::DisciplinePriest)),
            257 => Some(Role::Healer(HealerSpecialization::HolyPriest)),
            258 => Some(Role::Dps(DpsSpecialization::ShadowPriest)),
            259 => Some(Role::Dps(DpsSpecialization::AssassinationRogue)),
            260 => Some(Role::Dps(DpsSpecialization::OutlawRogue)),
            261 => Some(Role::Dps(DpsSpecialization::SubtletyRogue)),
            262 => Some(Role::Dps(DpsSpecialization::ElementalShaman)),
            263 => Some(Role::Dps(DpsSpecialization::EnhancementShaman)),
            264 => Some(Role::Healer(HealerSpecialization::RestorationShaman)),
            265 => Some(Role::Dps(DpsSpecialization::AfflictionWarlock)),
            266 => Some(Role::Dps(DpsSpecialization::DemonologyWarlock)),
            267 => Some(Role::Dps(DpsSpecialization::DestructionWarlock)),
            268 => Some(Role::Tank(TankSpecialization::BrewmasterMonk)),
            269 => Some(Role::Dps(DpsSpecialization::WindwalkerMonk)),
            270 => Some(Role::Healer(HealerSpecialization::MistweaverMonk)),
            577 => Some(Role::Dps(DpsSpecialization::HavocDh)),
            581 => Some(Role::Tank(TankSpecialization::VengenceDh)),
            _ => None,
        }
    }
}

/// The Battle.net API region a request is addressed to.
#[derive(Clone, Copy, Debug, PartialEq, Eq, Structural)]
pub enum Region {
    Eu,
    Us,
    Apac,
}

impl Region {
    /// The region's code as it appears in host names and namespaces.
    pub open spec fn code(self) -> Seq<char> {
        match self {
            Region::Eu => "eu"@,
            Region::Us => "us"@,
            Region::Apac => "apac"@,
        }
    }

    /// The region's code, for host names and API namespaces.
    pub fn query_str(&self) -> (s: &'static str)
        ensures
            s@ == self.code(),
    {
        match self {
            Region::Eu => "eu",
            Region::Us => "us",
            Region::Apac => "apac",
        }
    }
}

/// The region codes: "eu", "us" and "apac".
pub proof fn law_region_codes()
    ensures
        Region::Eu.code() == "eu"@,
        Region::Us.code() == "us"@,
        Region::Apac.code() == "apac"@,
{
}

/// The Mythic+ dungeons of the season.
#[derive(Clone, Copy, Debug, PartialEq, Eq, Structural)]
pub enum Dungeon {
    AtalDazar,
    Freehold,
    KingsRest,
    ShrineOfTheStorms,
    SiegeOfBoralus,
    TempleOfSethraliss,
    TheMotherlode,
    TheUnderrot,
    TolDagor,
    WaycrestManor,
}

/// The dungeon that the API calls `name`, if it is one of the season's.
pub open spec fn dungeon_named(name: Seq<char>) -> Option<Dungeon> {
    if name == "Atal'Dazar"@ {
        Some(Dungeon::AtalDazar)
    } else if name == "Freehold"@ {
        Some(Dungeon::Freehold)
    } else if name == "Tol Dagor"@ {
        Some(Dungeon::TolDagor)
    } else if name == "The MOTHERLODE!!"@ {
        Some(Dungeon::TheMotherlode)
    } else if name == "Waycrest Manor"@ {
        Some(Dungeon::WaycrestManor)
    } else if name == "Kings' Rest"@ {
        Some(Dungeon::KingsRest)
    } else if name == "Temple of Sethraliss"@ {
        Some(Dungeon::TempleOfSethraliss)
    } else if name == "The Underrot"@ {
        Some(Dungeon::TheUnderrot)
    } else if name == "Shrine of the Storm"@ {
        Some(Dungeon::ShrineOfTheStorms)
    } else if name == "Siege of Boralus"@ {
        Some(Dungeon::SiegeOfBoralus)
    } else {
        None
    }
}

/// The API's name of each dungeon of the season: "Atal'Dazar", "Freehold",
/// "Tol Dagor", "The MOTHERLODE!!", "Waycrest Manor", "Kings' Rest", "Temple
/// of Sethraliss", "The Underrot", "Shrine of the Storm", "Siege of Boralus";
/// no other name is one of them.
pub proof fn law_dungeon_names(name: Seq<char>)
    ensures
        (name != "Atal'Dazar"@ && name != "Freehold"@ && name != "Tol Dagor"@ && name != "The MOTHERLODE!!"@ && name != "Waycrest Manor"@ && name != "Kings' Rest"@ && name != "Temple of Sethraliss"@ && name != "The Underrot"@ && name != "Shrine of the Storm"@ && name != "Siege of Boralus"@) ==> dungeon_named(name) is None,
        dungeon_named("Atal'Dazar"@) == Some(Dungeon::AtalDazar),
        dungeon_named("Freehold"@) == Some(Dungeon::Freehold),
        dungeon_named("Tol Dagor"@) == Some(Dungeon::TolDagor),
        dungeon_named("The MOTHERLODE!!"@) == Some(Dungeon::TheMotherlode),
        dungeon_named("Waycrest Manor"@) == Some(Dungeon::WaycrestManor),
        dungeon_named("Kings' Rest"@) == Some(Dungeon::KingsRest),
        dungeon_named("Temple of Sethraliss"@) == Some(Dungeon::TempleOfSethraliss),
        dungeon_named("The Underrot"@) == Some(Dungeon::TheUnderrot),
        dungeon_named("Shrine of the Storm"@) == Some(Dungeon::ShrineOfTheStorms),
        dungeon_named("Siege of Boralus"@) == Some(Dungeon::SiegeOfBoralus),
{
    reveal_strlit("Atal'Dazar");
    reveal_strlit("Freehold");
    reveal_strlit("Tol Dagor");
    reveal_strlit("The MOTHERLODE!!");
    reveal_strlit("Waycrest Manor");
    reveal_strlit("Kings' Rest");
    reveal_strlit("Temple of Sethraliss");
    reveal_strlit("The Underrot");
    reveal_strlit("Shrine of the Storm");
    reveal_strlit("Siege of Boralus");
    assert("Atal'Dazar"@.len() == 10);
    assert("Freehold"@.len() == 8);
    assert("Tol Dagor"@.len() == 9);
    assert("The MOTHERLODE!!"@.len() == 16);
    assert("Waycrest Manor"@.len() == 14);
    assert("Kings' Rest"@.len() == 11);
    assert("Temple of Sethraliss"@.len() == 20);
    assert("The Underrot"@.len() == 12);
    assert("Shrine of the Storm"@.len() == 19);
    assert("Siege of Boralus"@.len() == 16);
    assert("The MOTHERLODE!!"@[0] != "Siege of Boralus"@[0]);
}

impl Dungeon {
    /// Looks a dungeon up by the name the API gives it; fails with
    /// "Missing entry" for any other name.
    pub fn from_str(s: &str) -> (r: Result<Dungeon, &'static str>)
        ensures
            dungeon_named(s@) matches Some(d) ==> r == Ok::<Dungeon, &'static str>(d),
            dungeon_named(s@) is None ==> (r matches Err(e) && e@ == "Missing entry"@),
    {
        if same_text(s, "Atal'Dazar") {
            Ok(Dungeon::AtalDazar)
        } else if same_text(s, "Freehold") {
            Ok(Dungeon::Freehold)
        } else if same_text(s, "Tol Dagor") {
            Ok(Dungeon::TolDagor)
        } else if same_text(s, "The MOTHERLODE!!") {
            Ok(Dungeon::TheMotherlode)
        } else if same_text(s, "Waycrest Manor") {
            Ok(Dungeon::WaycrestManor)
        } else if same_text(s, "Kings' Rest") {
            Ok(Dungeon::KingsRest)
        } else if same_text(s, "Temple of Sethraliss") {
            Ok(Dungeon::TempleOfSethraliss)
        } else if same_text(s, "The Underrot") {
            Ok(Dungeon::TheUnderrot)
        } else if same_text(s, "Shrine of the Storm") {
            Ok(Dungeon::ShrineOfTheStorms)
        } else if same_text(s, "Siege of Boralus") {
            Ok(Dungeon::SiegeOfBoralus)
        } else {
            Err("Missing entry")
        }
    }
}

/// The two factions.
#[allow(non_camel_case_types)]
#[derive(Clone, Copy, Debug, PartialEq, Eq, Structural)]
pub enum Faction {
    ALLIANCE,
    HORDE,
}

/// The faction whose upper-case name is `upper`, if any.
pub open spec fn faction_named(upper: Seq<char>) -> Option<Faction> {
    if upper == "ALLIANCE"@ {
        Some(Faction::ALLIANCE)
    } else if upper == "HORDE"@ {
        Some(Faction::HORDE)
    } else {
        None
    }
}

/// "ALLIANCE" and "HORDE" name the two factions; no other upper-case name
/// names one.
pub proof fn law_faction_names(upper: Seq<char>)
    ensures
        faction_named("ALLIANCE"@) == Some(Faction::ALLIANCE),
        faction_named("HORDE"@) == Some(Faction::HORDE),
        upper != "ALLIANCE"@ && upper != "HORDE"@ ==> faction_named(upper) is None,
{
    reveal_strlit("ALLIANCE");
    reveal_strlit("HORDE");
    assert("ALLIANCE"@ != "HORDE"@) by {
        assert("ALLIANCE"@.len() != "HORDE"@.len());
    }
}

impl Faction {
    /// The faction named by an upper-case faction name.
    pub fn from_upper(upper: &str) -> (r: Option<Faction>)
        ensures
            r == faction_named(upper@),
    {
        if same_text(upper, "ALLIANCE") {
            Some(Faction::ALLIANCE)
        } else if same_text(upper, "HORDE") {
            Some(Faction::HORDE)
        } else {
            None
        }
    }
}

} // verus!
