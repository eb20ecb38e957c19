//! One output row per leading group: where and when the key was completed,
//! and the composition of the group.
use vstd::prelude::*;

use crate::json::{LeadingGroup, Member};
use crate::model::{
    faction_named, role_of, DpsSpecialization, Dungeon, Faction, HealerSpecialization, Region,
    Role, TankSpecialization,
};
use crate::text::{to_uppercase, unicode_uppercase};

verus! {

/// The record written for one leading group.
#[derive(Debug)]
pub struct DataRow {
    pub region: Option<Region>,
    pub faction: Option<Faction>,
    pub dungeon: Option<Dungeon>,
    pub timestamp: u64,
    pub duration: u32,
    pub keystone_level: u32,
    pub tank: Option<TankSpecialization>,
    pub healer: Option<HealerSpecialization>,
    pub num_frost_dk: u8,
    pub num_unholy_dk: u8,
    pub num_havoc_dh: u8,
    pub num_balance_druid: u8,
    pub num_feral_druid: u8,
    pub num_beast_master_hunter: u8,
    pub num_marksmanship_hunter: u8,
    pub num_survival_hunter: u8,
    pub num_arcane_mage: u8,
    pub num_fire_mage: u8,
    pub num_frost_mage: u8,
    pub num_windwalker_monk: u8,
    pub num_retribution_paladin: u8,
    pub num_shadow_priest: u8,
    pub num_assassination_rogue: u8,
    pub num_outlaw_rogue: u8,
    pub num_subtlety_rogue: u8,
    pub num_elemental_shaman: u8,
    pub num_enhancement_shaman: u8,
    pub num_affliction_warlock: u8,
    pub num_demonology_warlock: u8,
    pub num_destruction_warlock: u8,
    pub num_arms_warrior: u8,
    pub num_fury_warrior: u8,
}

/// Counts one more damage dealer.
fn add_dps(indicator: &mut u8) -> (r: bool)
    requires
        *old(indicator) < 255,
    ensures
        *final(indicator) == *old(indicator) + 1,
        r,
{
    *indicator += 1;
    return true;
}

/// The number of members of `members` whose specialization is the damage
/// dealer `d`.
pub open spec fn dps_members(members: Seq<Member>, d: DpsSpecialization) -> nat
    decreases members.len(),
{
    if members.len() == 0 {
        0
    } else {
        dps_members(members.drop_last(), d) + if role_of(members.last().specialization.id)
            == Some(Role::Dps(d)) {
            1nat
        } else {
            0nat
        }
    }
}

/// No damage-dealer specialization occurs more than 255 times in `members`.
pub open spec fn counters_fit(members: Seq<Member>) -> bool {
    forall|d: DpsSpecialization| #[trigger] dps_members(members, d) <= 255
}

/// The tank specialization of the first member of `members` who is a tank.
pub open spec fn first_tank(members: Seq<Member>) -> Option<TankSpecialization>
    decreases members.len(),
{
    if members.len() == 0 {
        None
    } else {
        match first_tank(members.drop_last()) {
            Some(t) => Some(t),
            None => match role_of(members.last().specialization.id) {
                Some(Role::Tank(t)) => Some(t),
                _ => None,
            },
        }
    }
}

/// The healer specialization of the first member of `members` who is a healer.
pub open spec fn first_healer(members: Seq<Member>) -> Option<HealerSpecialization>
    decreases members.len(),
{
    if members.len() == 0 {
        None
    } else {
        match first_healer(members.drop_last()) {
            Some(h) => Some(h),
            None => match role_of(members.last().specialization.id) {
                Some(Role::Healer(h)) => Some(h),
                _ => None,
            },
        }
    }
}

/// The faction of the last member of `members` whose faction name, in upper
/// case, is a known faction.
pub open spec fn last_faction(members: Seq<Member>) -> Option<Faction>
    decreases members.len(),
{
    if members.len() == 0 {
        None
    } else {
        match faction_named(unicode_uppercase(members.last().faction._type@)) {
            Some(f) => Some(f),
            None => last_faction(members.drop_last()),
        }
    }
}

/// The position of the counter of `d` among a row's counters.
pub open spec fn dps_index(d: DpsSpecialization) -> int {
    match d {
        DpsSpecialization::FrostDk => 0,
        DpsSpecialization::UnholyDk => 1,
        DpsSpecialization::HavocDh => 2,
        DpsSpecialization::BalanceDruid => 3,
        DpsSpecialization::FeralDruid => 4,
        DpsSpecialization::BeastMasterHunter => 5,
        DpsSpecialization::MarksmanshipHunter => 6,
        DpsSpecialization::SurvivalHunter => 7,
        DpsSpecialization::ArcaneMage => 8,
        DpsSpecialization::FireMage => 9,
        DpsSpecialization::FrostMage => 10,
        DpsSpecialization::WindwalkerMonk => 11,
        DpsSpecialization::RetributionPaladin => 12,
        DpsSpecialization::ShadowPriest => 13,
        DpsSpecialization::AssassinationRogue => 14,
        DpsSpecialization::OutlawRogue => 15,
        DpsSpecialization::SubtletyRogue => 16,
        DpsSpecialization::ElementalShaman => 17,
        DpsSpecialization::EnhancementShaman => 18,
        DpsSpecialization::AfflictionWarlock => 19,
        DpsSpecialization::DemonologyWarlock => 20,
        DpsSpecialization::DestructionWarlock => 21,
        DpsSpecialization::ArmsWarrior => 22,
        DpsSpecialization::FuryWarrior => 23,
    }
}

/// The damage dealer whose counter stands at position `k`.
spec fn dps_at(k: int) -> DpsSpecialization {
    if k == 0 {
        DpsSpecialization::FrostDk
    } else if k == 1 {
        DpsSpecialization::UnholyDk
    } else if k == 2 {
        DpsSpecialization::HavocDh
    } else if k == 3 {
        DpsSpecialization::BalanceDruid
    } else if k == 4 {
        DpsSpecialization::FeralDruid
    } else if k == 5 {
        DpsSpecialization::BeastMasterHunter
    } else if k == 6 {
        DpsSpecialization::MarksmanshipHunter
    } else if k == 7 {
        DpsSpecialization::SurvivalHunter
    } else if k == 8 {
        DpsSpecialization::ArcaneMage
    } else if k == 9 {
        DpsSpecialization::FireMage
    } else if k == 10 {
        DpsSpecialization::FrostMage
    } else if k == 11 {
        DpsSpecialization::WindwalkerMonk
    } else if k == 12 {
        DpsSpecialization::RetributionPaladin
    } else if k == 13 {
        DpsSpecialization::ShadowPriest
    } else if k == 14 {
        DpsSpecialization::AssassinationRogue
    } else if k == 15 {
        DpsSpecialization::OutlawRogue
    } else if k == 16 {
        DpsSpecialization::SubtletyRogue
    } else if k == 17 {
        DpsSpecialization::ElementalShaman
    } else if k == 18 {
        DpsSpecialization::EnhancementShaman
    } else if k == 19 {
        DpsSpecialization::AfflictionWarlock
    } else if k == 20 {
        DpsSpecialization::DemonologyWarlock
    } else if k == 21 {
        DpsSpecialization::DestructionWarlock
    } else if k == 22 {
        DpsSpecialization::ArmsWarrior
    } else {
        DpsSpecialization::FuryWarrior
    }
}

proof fn lemma_dps_index_inverse(d: DpsSpecialization)
    ensures
        dps_at(dps_index(d)) == d,
{
    match d {
        DpsSpecialization::FrostDk => {},
        DpsSpecialization::UnholyDk => {},
        DpsSpecialization::HavocDh => {},
        DpsSpecialization::BalanceDruid => {},
        DpsSpecialization::FeralDruid => {},
        DpsSpecialization::BeastMasterHunter => {},
        DpsSpecialization::MarksmanshipHunter => {},
        DpsSpecialization::SurvivalHunter => {},
        DpsSpecialization::ArcaneMage => {},
        DpsSpecialization::FireMage => {},
        DpsSpecialization::FrostMage => {},
        DpsSpecialization::WindwalkerMonk => {},
        DpsSpecialization::RetributionPaladin => {},
        DpsSpecialization::ShadowPriest => {},
        DpsSpecialization::AssassinationRogue => {},
        DpsSpecialization::OutlawRogue => {},
        DpsSpecialization::SubtletyRogue => {},
        DpsSpecialization::ElementalShaman => {},
        DpsSpecialization::EnhancementShaman => {},
        DpsSpecialization::AfflictionWarlock => {},
        DpsSpecialization::DemonologyWarlock => {},
        DpsSpecialization::DestructionWarlock => {},
        DpsSpecialization::ArmsWarrior => {},
        DpsSpecialization::FuryWarrior => {},
    }
}

impl DataRow {
    /// The damage-dealer counters, in the order of `DpsSpecialization`.
    pub open spec fn counters(self) -> Seq<u8> {
        seq![
            self.num_frost_dk,
            self.num_unholy_dk,
            self.num_havoc_dh,
            self.num_balance_druid,
            self.num_feral_druid,
            self.num_beast_master_hunter,
            self.num_marksmanship_hunter,
            self.num_survival_hunter,
            self.num_arcane_mage,
            self.num_fire_mage,
            self.num_frost_mage,
            self.num_windwalker_monk,
            self.num_retribution_paladin,
            self.num_shadow_priest,
            self.num_assassination_rogue,
            self.num_outlaw_rogue,
            self.num_subtlety_rogue,
            self.num_elemental_shaman,
            self.num_enhancement_shaman,
            self.num_affliction_warlock,
            self.num_demonology_warlock,
            self.num_destruction_warlock,
            self.num_arms_warrior,
            self.num_fury_warrior,
        ]
    }

    /// The counter of the damage dealer `d`.
    pub open spec fn dps_count(self, d: DpsSpecialization) -> u8 {
        self.counters()[dps_index(d)]
    }

    /// This row with one more damage dealer `d`.
    pub open spec fn with_dps_added(self, d: DpsSpecialization) -> DataRow {
        match d {
            DpsSpecialization::FrostDk => DataRow { num_frost_dk: (self.num_frost_dk + 1) as u8, ..self },
            DpsSpecialization::UnholyDk => DataRow { num_unholy_dk: (self.num_unholy_dk + 1) as u8, ..self },
            DpsSpecialization::HavocDh => DataRow { num_havoc_dh: (self.num_havoc_dh + 1) as u8, ..self },
            DpsSpecialization::BalanceDruid => DataRow { num_balance_druid: (self.num_balance_druid + 1) as u8, ..self },
            DpsSpecialization::FeralDruid => DataRow { num_feral_druid: (self.num_feral_druid + 1) as u8, ..self },
            DpsSpecialization::BeastMasterHunter => DataRow { num_beast_master_hunter: (self.num_beast_master_hunter + 1) as u8, ..self },
            DpsSpecialization::MarksmanshipHunter => DataRow { num_marksmanship_hunter: (self.num_marksmanship_hunter + 1) as u8, ..self },
            DpsSpecialization::SurvivalHunter => DataRow { num_survival_hunter: (self.num_survival_hunter + 1) as u8, ..self },
            DpsSpecialization::ArcaneMage => DataRow { num_arcane_mage: (self.num_arcane_mage + 1) as u8, ..self },
            DpsSpecialization::FireMage => DataRow { num_fire_mage: (self.num_fire_mage + 1) as u8, ..self },
            DpsSpecialization::FrostMage => DataRow { num_frost_mage: (self.num_frost_mage + 1) as u8, ..self },
            DpsSpecialization::WindwalkerMonk => DataRow { num_windwalker_monk: (self.num_windwalker_monk + 1) as u8, ..self },
            DpsSpecialization::RetributionPaladin => DataRow { num_retribution_paladin: (self.num_retribution_paladin + 1) as u8, ..self },
            DpsSpecialization::ShadowPriest => DataRow { num_shadow_priest: (self.num_shadow_priest + 1) as u8, ..self },
            DpsSpecialization::AssassinationRogue => DataRow { num_assassination_rogue: (self.num_assassination_rogue + 1) as u8, ..self },
            DpsSpecialization::OutlawRogue => DataRow { num_outlaw_rogue: (self.num_outlaw_rogue + 1) as u8, ..self },
            DpsSpecialization::SubtletyRogue => DataRow { num_subtlety_rogue: (self.num_subtlety_rogue + 1) as u8, ..self },
            DpsSpecialization::ElementalShaman => DataRow { num_elemental_shaman: (self.num_elemental_shaman + 1) as u8, ..self },
            DpsSpecialization::EnhancementShaman => DataRow { num_enhancement_shaman: (self.num_enhancement_shaman + 1) as u8, ..self },
            DpsSpecialization::AfflictionWarlock => DataRow { num_affliction_warlock: (self.num_affliction_warlock + 1) as u8, ..self },
            DpsSpecialization::DemonologyWarlock => DataRow { num_demonology_warlock: (self.num_demonology_warlock + 1) as u8, ..self },
            DpsSpecialization::DestructionWarlock => DataRow { num_destruction_warlock: (self.num_destruction_warlock + 1) as u8, ..self },
            DpsSpecialization::ArmsWarrior => DataRow { num_arms_warrior: (self.num_arms_warrior + 1) as u8, ..self },
            DpsSpecialization::FuryWarrior => DataRow { num_fury_warrior: (self.num_fury_warrior + 1) as u8, ..self },
        }
    }

    /// This row after a member with the specialization `id` joined it.
    pub open spec fn with_specialization(self, id: u32) -> DataRow {
        match role_of(id) {
            Some(Role::Dps(d)) => self.with_dps_added(d),
            Some(Role::Tank(t)) => if self.tank is None {
                DataRow { tank: Some(t), ..self }
            } else {
                self
            },
            Some(Role::Healer(h)) => if self.healer is None {
                DataRow { healer: Some(h), ..self }
            } else {
                self
            },
            None => self,
        }
    }

    /// Whether a member with the specialization `id` is taken into the row:
    /// a known damage dealer always, a tank or healer while there is none yet.
    pub open spec fn accepts(self, id: u32) -> bool {
        match role_of(id) {
            Some(Role::Dps(_)) => true,
            Some(Role::Tank(_)) => self.tank is None,
            Some(Role::Healer(_)) => self.healer is None,
            None => false,
        }
    }

    /// Adding the specialization `id` does not overflow a counter.
    pub open spec fn has_room_for(self, id: u32) -> bool {
        match role_of(id) {
            Some(Role::Dps(d)) => self.dps_count(d) < 255,
            _ => true,
        }
    }

    /// This row after a member whose faction is named `name` joined it.
    pub open spec fn with_faction_name(self, name: Seq<char>) -> DataRow {
        match faction_named(unicode_uppercase(name)) {
            Some(f) => DataRow { faction: Some(f), ..self },
            None => self,
        }
    }

    /// This row after each of `members` joined it, in order.
    pub open spec fn with_members(self, members: Seq<Member>) -> DataRow
        decreases members.len(),
    {
        if members.len() == 0 {
            self
        } else {
            let m = members.last();
            self.with_members(members.drop_last()).with_specialization(
                m.specialization.id,
            ).with_faction_name(m.faction._type@)
        }
    }

    /// The row of `group` before any member joined it.
    pub open spec fn start_of(region: Region, dungeon: Dungeon, group: LeadingGroup) -> DataRow {
        DataRow {
            region: Some(region),
            faction: None,
            dungeon: Some(dungeon),
            timestamp: group.completed_timestamp,
            duration: group.duration,
            keystone_level: group.keystone_level,
            ..DataRow::empty()
        }
    }

    /// The row with no field set and every counter at zero.
    pub open spec fn empty() -> DataRow {
        DataRow {
            region: None,
            faction: None,
            dungeon: None,
            timestamp: 0,
            duration: 0,
            keystone_level: 0,
            tank: None,
            healer: None,
            num_frost_dk: 0,
            num_unholy_dk: 0,
            num_havoc_dh: 0,
            num_balance_druid: 0,
            num_feral_druid: 0,
            num_beast_master_hunter: 0,
            num_marksmanship_hunter: 0,
            num_survival_hunter: 0,
            num_arcane_mage: 0,
            num_fire_mage: 0,
            num_frost_mage: 0,
            num_windwalker_monk: 0,
            num_retribution_paladin: 0,
            num_shadow_priest: 0,
            num_assassination_rogue: 0,
            num_outlaw_rogue: 0,
            num_subtlety_rogue: 0,
            num_elemental_shaman: 0,
            num_enhancement_shaman: 0,
            num_affliction_warlock: 0,
            num_demonology_warlock: 0,
            num_destruction_warlock: 0,
            num_arms_warrior: 0,
            num_fury_warrior: 0,
        }
    }

    /// The row of a leading group of `dungeon` in `region`.
    pub open spec fn spec_new(region: Region, dungeon: Dungeon, group: LeadingGroup) -> DataRow {
        DataRow::start_of(region, dungeon, group).with_members(group.members@)
    }

    /// The counter of the damage dealer `d`.
    pub fn dps_counter(&self, d: DpsSpecialization) -> (c: u8)
        ensures
            c == self.dps_count(d),
    {
        match d {
            DpsSpecialization::FrostDk => self.num_frost_dk,
            DpsSpecialization::UnholyDk => self.num_unholy_dk,
            DpsSpecialization::HavocDh => self.num_havoc_dh,
            DpsSpecialization::BalanceDruid => self.num_balance_druid,
            DpsSpecialization::FeralDruid => self.num_feral_druid,
            DpsSpecialization::BeastMasterHunter => self.num_beast_master_hunter,
            DpsSpecialization::MarksmanshipHunter => self.num_marksmanship_hunter,
            DpsSpecialization::SurvivalHunter => self.num_survival_hunter,
            DpsSpecialization::ArcaneMage => self.num_arcane_mage,
            DpsSpecialization::FireMage => self.num_fire_mage,
            DpsSpecialization::FrostMage => self.num_frost_mage,
            DpsSpecialization::WindwalkerMonk => self.num_windwalker_monk,
            DpsSpecialization::RetributionPaladin => self.num_retribution_paladin,
            DpsSpecialization::ShadowPriest => self.num_shadow_priest,
            DpsSpecialization::AssassinationRogue => self.num_assassination_rogue,
            DpsSpecialization::OutlawRogue => self.num_outlaw_rogue,
            DpsSpecialization::SubtletyRogue => self.num_subtlety_rogue,
            DpsSpecialization::ElementalShaman => self.num_elemental_shaman,
            DpsSpecialization::EnhancementShaman => self.num_enhancement_shaman,
            DpsSpecialization::AfflictionWarlock => self.num_affliction_warlock,
            DpsSpecialization::DemonologyWarlock => self.num_demonology_warlock,
            DpsSpecialization::DestructionWarlock => self.num_destruction_warlock,
            DpsSpecialization::ArmsWarrior => self.num_arms_warrior,
            DpsSpecialization::FuryWarrior => self.num_fury_warrior,
        }
    }

    fn set_healer(&mut self, spec: HealerSpecialization) -> (r: bool)
        ensures
            old(self).healer is Some ==> *final(self) == *old(self) && !r,
            old(self).healer is None ==> *final(self) == (DataRow { healer: Some(spec), ..*old(self) }) && r,
    {
        if self.healer.is_some() {
            return false;
        }
        self.healer = Some(spec);
        return true;
    }

    fn set_tank(&mut self, spec: TankSpecialization) -> (r: bool)
        ensures
            old(self).tank is Some ==> *final(self) == *old(self) && !r,
            old(self).tank is None ==> *final(self) == (DataRow { tank: Some(spec), ..*old(self) }) && r,
    {
        if self.tank.is_some() {
            return false;
        }
        self.tank = Some(spec);
        return true;
    }

    /// Records the faction of a member whose faction is named `faction_name`
    /// (in any case); returns whether the name is a known faction.
    pub fn update_faction(&mut self, faction_name: &String) -> (r: bool)
        ensures
            *final(self) == old(self).with_faction_name(faction_name@),
            r == faction_named(unicode_uppercase(faction_name@)) is Some,
    {
        let upper = to_uppercase(faction_name.as_str());
        match Faction::from_upper(upper.as_str()) {
            Some(f) => {
                self.faction = Some(f);
                true
            },
            None => false,
        }
    }

    /// Records a member with the specialization `id`; returns whether the
    /// member was taken into the row.
    pub fn update_group_composition(&mut self, id: u32) -> (r: bool)
        requires
            old(self).has_room_for(id),
        ensures
            *final(self) == old(self).with_specialization(id),
            r == old(self).accepts(id),
    {
        match id {
            62 => add_dps(&mut self.num_arcane_mage),
            63 => add_dps(&mut self.num_fire_mage),
            64 => add_dps(&mut self.num_frost_mage),
            65 => self.set_healer(HealerSpecialization::HolyPaladin),
            66 => self.set_tank(TankSpecialization::ProtectionPaladin),
            70 => add_dps(&mut self.num_retribution_paladin),
            71 => add_dps(&mut self.num_arms_warrior),
            72 => add_dps(&mut self.num_fury_warrior),
            73 => self.set_tank(TankSpecialization::ProtectionWarrior),
            102 => add_dps(&mut self.num_balance_druid),
            103 => add_dps(&mut self.num_feral_druid),
            104 => self.set_tank(TankSpecialization::GuardianDruid),
            105 => self.set_healer(HealerSpecialization::RestorationDruid),
            250 => self.set_tank(TankSpecialization::BloodDk),
            251 => add_dps(&mut self.num_frost_dk),
            252 => add_dps(&mut self.num_unholy_dk),
            253 => add_dps(&mut self.num_beast_master_hunter),
            254 => add_dps(&mut self.num_marksmanship_hunter),
            255 => add_dps(&mut self.num_survival_hunter),
            256 => self.set_healer(HealerSpecialization::DisciplinePriest),
            257 => self.set_healer(HealerSpecialization::HolyPriest),
            258 => add_dps(&mut self.num_shadow_priest),
            259 => add_dps(&mut self.num_assassination_rogue),
            260 => add_dps(&mut self.num_outlaw_rogue),
            261 => add_dps(&mut self.num_subtlety_rogue),
            262 => add_dps(&mut self.num_elemental_shaman),
            263 => add_dps(&mut self.num_enhancement_shaman),
            264 => self.set_healer(HealerSpecialization::RestorationShaman),
            265 => add_dps(&mut self.num_affliction_warlock),
            266 => add_dps(&mut self.num_demonology_warlock),
            267 => add_dps(&mut self.num_destruction_warlock),
            268 => self.set_tank(TankSpecialization::BrewmasterMonk),
            269 => add_dps(&mut self.num_windwalker_monk),
            270 => self.set_healer(HealerSpecialization::MistweaverMonk),
            577 => add_dps(&mut self.num_havoc_dh),
            581 => self.set_tank(TankSpecialization::VengenceDh),
            _ => false,
        }
    }
}

impl Default for DataRow {
    fn default() -> (r: DataRow)
        ensures
            r == DataRow::empty(),
    {
        DataRow {
            region: None,
            faction: None,
            dungeon: None,
            timestamp: 0,
            duration: 0,
            keystone_level: 0,
            tank: None,
            healer: None,
            num_frost_dk: 0,
            num_unholy_dk: 0,
            num_havoc_dh: 0,
            num_balance_druid: 0,
            num_feral_druid: 0,
            num_beast_master_hunter: 0,
            num_marksmanship_hunter: 0,
            num_survival_hunter: 0,
            num_arcane_mage: 0,
            num_fire_mage: 0,
            num_frost_mage: 0,
            num_windwalker_monk: 0,
            num_retribution_paladin: 0,
            num_shadow_priest: 0,
            num_assassination_rogue: 0,
            num_outlaw_rogue: 0,
            num_subtlety_rogue: 0,
            num_elemental_shaman: 0,
            num_enhancement_shaman: 0,
            num_affliction_warlock: 0,
            num_demonology_warlock: 0,
            num_destruction_warlock: 0,
            num_arms_warrior: 0,
            num_fury_warrior: 0,
        }
    }
}

proof fn lemma_dps_added(row: DataRow, added: DpsSpecialization, d: DpsSpecialization)
    requires
        row.dps_count(added) < 255,
    ensures
        row.with_dps_added(added).dps_count(d) == row.dps_count(d) + if added == d {
            1int
        } else {
            0int
        },
{
    let k = dps_index(added);
    assert(row.with_dps_added(added).counters() =~= row.counters().update(
        k,
        (row.counters()[k] + 1) as u8,
    )) by {
        match added {
            DpsSpecialization::FrostDk => {},
            DpsSpecialization::UnholyDk => {},
            DpsSpecialization::HavocDh => {},
            DpsSpecialization::BalanceDruid => {},
            DpsSpecialization::FeralDruid => {},
            DpsSpecialization::BeastMasterHunter => {},
            DpsSpecialization::MarksmanshipHunter => {},
            DpsSpecialization::SurvivalHunter => {},
            DpsSpecialization::ArcaneMage => {},
            DpsSpecialization::FireMage => {},
            DpsSpecialization::FrostMage => {},
            DpsSpecialization::WindwalkerMonk => {},
            DpsSpecialization::RetributionPaladin => {},
            DpsSpecialization::ShadowPriest => {},
            DpsSpecialization::AssassinationRogue => {},
            DpsSpecialization::OutlawRogue => {},
            DpsSpecialization::SubtletyRogue => {},
            DpsSpecialization::ElementalShaman => {},
            DpsSpecialization::EnhancementShaman => {},
            DpsSpecialization::AfflictionWarlock => {},
            DpsSpecialization::DemonologyWarlock => {},
            DpsSpecialization::DestructionWarlock => {},
            DpsSpecialization::ArmsWarrior => {},
            DpsSpecialization::FuryWarrior => {},
        }
    }
    lemma_dps_index_inverse(added);
    lemma_dps_index_inverse(d);
}

proof fn lemma_specialization_counts(row: DataRow, id: u32, d: DpsSpecialization)
    requires
        row.has_room_for(id),
    ensures
        row.with_specialization(id).dps_count(d) == row.dps_count(d) + if role_of(id) == Some(
            Role::Dps(d),
        ) {
            1int
        } else {
            0int
        },
{
    match role_of(id) {
        Some(Role::Dps(added)) => lemma_dps_added(row, added, d),
        _ => {},
    }
}

proof fn lemma_dps_members_prefix(members: Seq<Member>, k: int, d: DpsSpecialization)
    requires
        0 <= k <= members.len(),
    ensures
        dps_members(members.take(k), d) <= dps_members(members, d),
    decreases members.len(),
{
    if k < members.len() {
        lemma_dps_members_prefix(members.drop_last(), k, d);
        assert(members.drop_last().take(k) =~= members.take(k));
    } else {
        assert(members.take(k) =~= members);
    }
}

proof fn lemma_prefix_fits(members: Seq<Member>, k: int)
    requires
        0 <= k <= members.len(),
        counters_fit(members),
    ensures
        counters_fit(members.take(k)),
{
    assert forall|d: DpsSpecialization| #[trigger] dps_members(members.take(k), d) <= 255 by {
        lemma_dps_members_prefix(members, k, d);
        assert(dps_members(members, d) <= 255);
    }
}

/// Everything but the counters: which row-level fields a joining member
/// with the specialization `id` changes.
proof fn lemma_specialization_fields(row: DataRow, id: u32)
    ensures
        ({
            let next = row.with_specialization(id);
            &&& next.region == row.region
            &&& next.dungeon == row.dungeon
            &&& next.timestamp == row.timestamp
            &&& next.duration == row.duration
            &&& next.keystone_level == row.keystone_level
            &&& next.faction == row.faction
            &&& next.tank == match role_of(id) {
                Some(Role::Tank(t)) => if row.tank is None {
                    Some(t)
                } else {
                    row.tank
                },
                _ => row.tank,
            }
            &&& next.healer == match role_of(id) {
                Some(Role::Healer(h)) => if row.healer is None {
                    Some(h)
                } else {
                    row.healer
                },
                _ => row.healer,
            }
        }),
{
    match role_of(id) {
        Some(Role::Dps(d)) => lemma_dps_added_keeps(row, d),
        _ => {},
    }
}

proof fn lemma_dps_added_keeps(row: DataRow, d: DpsSpecialization)
    ensures
        ({
            let next = row.with_dps_added(d);
            &&& next.region == row.region
            &&& next.dungeon == row.dungeon
            &&& next.timestamp == row.timestamp
            &&& next.duration == row.duration
            &&& next.keystone_level == row.keystone_level
            &&& next.faction == row.faction
            &&& next.tank == row.tank
            &&& next.healer == row.healer
        }),
{
    match d {
        DpsSpecialization::FrostDk => {},
        DpsSpecialization::UnholyDk => {},
        DpsSpecialization::HavocDh => {},
        DpsSpecialization::BalanceDruid => {},
        DpsSpecialization::FeralDruid => {},
        DpsSpecialization::BeastMasterHunter => {},
        DpsSpecialization::MarksmanshipHunter => {},
        DpsSpecialization::SurvivalHunter => {},
        DpsSpecialization::ArcaneMage => {},
        DpsSpecialization::FireMage => {},
        DpsSpecialization::FrostMage => {},
        DpsSpecialization::WindwalkerMonk => {},
        DpsSpecialization::RetributionPaladin => {},
        DpsSpecialization::ShadowPriest => {},
        DpsSpecialization::AssassinationRogue => {},
        DpsSpecialization::OutlawRogue => {},
        DpsSpecialization::SubtletyRogue => {},
        DpsSpecialization::ElementalShaman => {},
        DpsSpecialization::EnhancementShaman => {},
        DpsSpecialization::AfflictionWarlock => {},
        DpsSpecialization::DemonologyWarlock => {},
        DpsSpecialization::DestructionWarlock => {},
        DpsSpecialization::ArmsWarrior => {},
        DpsSpecialization::FuryWarrior => {},
    }
}

/// The counters of a row that starts at zero count the damage dealers among
/// the members that joined it.
proof fn lemma_members_counts(start: DataRow, members: Seq<Member>)
    requires
        counters_fit(members),
        forall|d: DpsSpecialization| #[trigger] start.dps_count(d) == 0,
    ensures
        forall|d: DpsSpecialization| #[trigger] start.with_members(members).dps_count(d)
            == dps_members(members, d),
    decreases members.len(),
{
    if members.len() > 0 {
        let prev = members.drop_last();
        let m = members.last();
        let id = m.specialization.id;
        assert(prev =~= members.take(members.len() - 1));
        lemma_prefix_fits(members, members.len() - 1);
        lemma_members_counts(start, prev);
        let row = start.with_members(prev);
        assert(row.has_room_for(id)) by {
            match role_of(id) {
                Some(Role::Dps(d)) => {
                    assert(dps_members(members, d) <= 255);
                },
                _ => {},
            }
        }
        assert forall|d: DpsSpecialization| #[trigger] start.with_members(members).dps_count(d)
            == dps_members(members, d) by {
            lemma_specialization_counts(row, id, d);
        }
    }
}

/// What joining `members` does to the other fields of a row that starts
/// with no tank, healer or faction.
proof fn lemma_members_fields(start: DataRow, members: Seq<Member>)
    requires
        start.tank is None,
        start.healer is None,
        start.faction is None,
    ensures
        start.with_members(members).tank == first_tank(members),
        start.with_members(members).healer == first_healer(members),
        start.with_members(members).faction == last_faction(members),
        start.with_members(members).region == start.region,
        start.with_members(members).dungeon == start.dungeon,
        start.with_members(members).timestamp == start.timestamp,
        start.with_members(members).duration == start.duration,
        start.with_members(members).keystone_level == start.keystone_level,
    decreases members.len(),
{
    if members.len() > 0 {
        let prev = members.drop_last();
        lemma_members_fields(start, prev);
        lemma_specialization_fields(start.with_members(prev), members.last().specialization.id);
    }
}

/// What joining `members` does to a row that starts with no tank, healer or
/// faction and all counters at zero.
proof fn lemma_with_members(start: DataRow, members: Seq<Member>)
    requires
        counters_fit(members),
        forall|d: DpsSpecialization| #[trigger] start.dps_count(d) == 0,
        start.tank is None,
        start.healer is None,
        start.faction is None,
    ensures
        forall|d: DpsSpecialization| #[trigger] start.with_members(members).dps_count(d)
            == dps_members(members, d),
        start.with_members(members).tank == first_tank(members),
        start.with_members(members).healer == first_healer(members),
        start.with_members(members).faction == last_faction(members),
        start.with_members(members).region == start.region,
        start.with_members(members).dungeon == start.dungeon,
        start.with_members(members).timestamp == start.timestamp,
        start.with_members(members).duration == start.duration,
        start.with_members(members).keystone_level == start.keystone_level,
{
    lemma_members_counts(start, members);
    lemma_members_fields(start, members);
}

/// The number of members of `members` whose specialization has the API
/// identifier `id`.
pub open spec fn members_with_id(members: Seq<Member>, id: u32) -> nat
    decreases members.len(),
{
    if members.len() == 0 {
        0
    } else {
        members_with_id(members.drop_last(), id) + if members.last().specialization.id == id {
            1nat
        } else {
            0nat
        }
    }
}

proof fn lemma_dps_members_by_id(members: Seq<Member>, d: DpsSpecialization, id: u32)
    requires
        forall|x: u32| #[trigger] role_of(x) == Some(Role::Dps(d)) <==> x == id,
    ensures
        dps_members(members, d) == members_with_id(members, id),
    decreases members.len(),
{
    if members.len() > 0 {
        lemma_dps_members_by_id(members.drop_last(), d, id);
        assert(role_of(members.last().specialization.id) == Some(Role::Dps(d)) <==> members.last().specialization.id == id);
    }
}

/// Each damage-dealer column of a group's row counts the members whose
/// specialization has that column's API identifier: Frost Death Knight 251,
/// Unholy 252, Havoc Demon Hunter 577, Balance Druid 102, Feral 103, Beast
/// Mastery Hunter 253, Marksmanship 254, Survival 255, Arcane Mage 62, Fire
/// 63, Frost 64, Windwalker Monk 269, Retribution Paladin 70, Shadow Priest
/// 258, Assassination Rogue 259, Outlaw 260, Subtlety 261, Elemental Shaman
/// 262, Enhancement 263, Affliction Warlock 265, Demonology 266, Destruction
/// 267, Arms Warrior 71, Fury 72.
pub proof fn law_counter_columns(region: Region, dungeon: Dungeon, group: LeadingGroup)
    requires
        counters_fit(group.members@),
    ensures
        ({
            let row = DataRow::spec_new(region, dungeon, group);
            let members = group.members@;
        &&& row.num_frost_dk == members_with_id(members, 251)
        &&& row.num_unholy_dk == members_with_id(members, 252)
        &&& row.num_havoc_dh == members_with_id(members, 577)
        &&& row.num_balance_druid == members_with_id(members, 102)
        &&& row.num_feral_druid == members_with_id(members, 103)
        &&& row.num_beast_master_hunter == members_with_id(members, 253)
        &&& row.num_marksmanship_hunter == members_with_id(members, 254)
        &&& row.num_survival_hunter == members_with_id(members, 255)
        &&& row.num_arcane_mage == members_with_id(members, 62)
        &&& row.num_fire_mage == members_with_id(members, 63)
        &&& row.num_frost_mage == members_with_id(members, 64)
        &&& row.num_windwalker_monk == members_with_id(members, 269)
        &&& row.num_retribution_paladin == members_with_id(members, 70)
        &&& row.num_shadow_priest == members_with_id(members, 258)
        &&& row.num_assassination_rogue == members_with_id(members, 259)
        &&& row.num_outlaw_rogue == members_with_id(members, 260)
        &&& row.num_subtlety_rogue == members_with_id(members, 261)
        &&& row.num_elemental_shaman == members_with_id(members, 262)
        &&& row.num_enhancement_shaman == members_with_id(members, 263)
        &&& row.num_affliction_warlock == members_with_id(members, 265)
        &&& row.num_demonology_warlock == members_with_id(members, 266)
        &&& row.num_destruction_warlock == members_with_id(members, 267)
        &&& row.num_arms_warrior == members_with_id(members, 71)
        &&& row.num_fury_warrior == members_with_id(members, 72)
        }),
{
    let members = group.members@;
    let start = DataRow::start_of(region, dungeon, group);
    lemma_with_members(start, members);
    lemma_dps_members_by_id(members, DpsSpecialization::FrostDk, 251);
    lemma_dps_members_by_id(members, DpsSpecialization::UnholyDk, 252);
    lemma_dps_members_by_id(members, DpsSpecialization::HavocDh, 577);
    lemma_dps_members_by_id(members, DpsSpecialization::BalanceDruid, 102);
    lemma_dps_members_by_id(members, DpsSpecialization::FeralDruid, 103);
    lemma_dps_members_by_id(members, DpsSpecialization::BeastMasterHunter, 253);
    lemma_dps_members_by_id(members, DpsSpecialization::MarksmanshipHunter, 254);
    lemma_dps_members_by_id(members, DpsSpecialization::SurvivalHunter, 255);
    lemma_dps_members_by_id(members, DpsSpecialization::ArcaneMage, 62);
    lemma_dps_members_by_id(members, DpsSpecialization::FireMage, 63);
    lemma_dps_members_by_id(members, DpsSpecialization::FrostMage, 64);
    lemma_dps_members_by_id(members, DpsSpecialization::WindwalkerMonk, 269);
    lemma_dps_members_by_id(members, DpsSpecialization::RetributionPaladin, 70);
    lemma_dps_members_by_id(members, DpsSpecialization::ShadowPriest, 258);
    lemma_dps_members_by_id(members, DpsSpecialization::AssassinationRogue, 259);
    lemma_dps_members_by_id(members, DpsSpecialization::OutlawRogue, 260);
    lemma_dps_members_by_id(members, DpsSpecialization::SubtletyRogue, 261);
    lemma_dps_members_by_id(members, DpsSpecialization::ElementalShaman, 262);
    lemma_dps_members_by_id(members, DpsSpecialization::EnhancementShaman, 263);
    lemma_dps_members_by_id(members, DpsSpecialization::AfflictionWarlock, 265);
    lemma_dps_members_by_id(members, DpsSpecialization::DemonologyWarlock, 266);
    lemma_dps_members_by_id(members, DpsSpecialization::DestructionWarlock, 267);
    lemma_dps_members_by_id(members, DpsSpecialization::ArmsWarrior, 71);
    lemma_dps_members_by_id(members, DpsSpecialization::FuryWarrior, 72);
    let row = DataRow::spec_new(region, dungeon, group);
    assert(row.num_frost_dk == row.dps_count(DpsSpecialization::FrostDk));
    assert(row.num_unholy_dk == row.dps_count(DpsSpecialization::UnholyDk));
    assert(row.num_havoc_dh == row.dps_count(DpsSpecialization::HavocDh));
    assert(row.num_balance_druid == row.dps_count(DpsSpecialization::BalanceDruid));
    assert(row.num_feral_druid == row.dps_count(DpsSpecialization::FeralDruid));
    assert(row.num_beast_master_hunter == row.dps_count(DpsSpecialization::BeastMasterHunter));
    assert(row.num_marksmanship_hunter == row.dps_count(DpsSpecialization::MarksmanshipHunter));
    assert(row.num_survival_hunter == row.dps_count(DpsSpecialization::SurvivalHunter));
    assert(row.num_arcane_mage == row.dps_count(DpsSpecialization::ArcaneMage));
    assert(row.num_fire_mage == row.dps_count(DpsSpecialization::FireMage));
    assert(row.num_frost_mage == row.dps_count(DpsSpecialization::FrostMage));
    assert(row.num_windwalker_monk == row.dps_count(DpsSpecialization::WindwalkerMonk));
    assert(row.num_retribution_paladin == row.dps_count(DpsSpecialization::RetributionPaladin));
    assert(row.num_shadow_priest == row.dps_count(DpsSpecialization::ShadowPriest));
    assert(row.num_assassination_rogue == row.dps_count(DpsSpecialization::AssassinationRogue));
    assert(row.num_outlaw_rogue == row.dps_count(DpsSpecialization::OutlawRogue));
    assert(row.num_subtlety_rogue == row.dps_count(DpsSpecialization::SubtletyRogue));
    assert(row.num_elemental_shaman == row.dps_count(DpsSpecialization::ElementalShaman));
    assert(row.num_enhancement_shaman == row.dps_count(DpsSpecialization::EnhancementShaman));
    assert(row.num_affliction_warlock == row.dps_count(DpsSpecialization::AfflictionWarlock));
    assert(row.num_demonology_warlock == row.dps_count(DpsSpecialization::DemonologyWarlock));
    assert(row.num_destruction_warlock == row.dps_count(DpsSpecialization::DestructionWarlock));
    assert(row.num_arms_warrior == row.dps_count(DpsSpecialization::ArmsWarrior));
    assert(row.num_fury_warrior == row.dps_count(DpsSpecialization::FuryWarrior));
}

/// Joining one more member to a row is joining the members before it, then
/// this member's specialization and faction.
pub proof fn law_members_step(row: DataRow, members: Seq<Member>, member: Member)
    ensures
        row.with_members(members.push(member)) == row.with_members(members).with_specialization(
            member.specialization.id,
        ).with_faction_name(member.faction._type@),
        row.with_members(Seq::<Member>::empty()) == row,
{
    assert(members.push(member).drop_last() =~= members);
}

/// A member is taken into a row exactly when joining changes the row: a
/// damage dealer always adds to a counter, a tank or healer only fills an
/// empty slot, and an unknown specialization changes nothing.
pub proof fn law_accepts_iff_changed(row: DataRow, id: u32)
    requires
        row.has_room_for(id),
    ensures
        row.accepts(id) <==> row.with_specialization(id) != row,
{
    match role_of(id) {
        Some(Role::Dps(d)) => {
            lemma_dps_added(row, d, d);
        },
        _ => {},
    }
}

/// A group's tank is its first member who plays a tank specialization: no
/// member before that one plays a tank; where no member does, there is none.
pub proof fn law_first_tank(members: Seq<Member>)
    ensures
        first_tank(members) matches Some(t) ==> exists|i: int|
            0 <= i < members.len() && role_of(#[trigger] members[i].specialization.id) == Some(
                Role::Tank(t),
            ) && forall|j: int|
                0 <= j < i ==> !(role_of(#[trigger] members[j].specialization.id) matches Some(
                    Role::Tank(_),
                )),
        first_tank(members) is None ==> forall|i: int|
            0 <= i < members.len() ==> !(role_of(#[trigger] members[i].specialization.id) matches Some(
                Role::Tank(_),
            )),
    decreases members.len(),
{
    if members.len() > 0 {
        let prev = members.drop_last();
        law_first_tank(prev);
        let last = members.len() - 1;
        assert(members[last] == members.last());
        match first_tank(prev) {
            Some(t) => {
                let i = choose|i: int|
                    0 <= i < prev.len() && role_of(#[trigger] prev[i].specialization.id) == Some(
                        Role::Tank(t),
                    ) && forall|j: int|
                        0 <= j < i ==> !(role_of(#[trigger] prev[j].specialization.id) matches Some(
                            Role::Tank(_),
                        ));
                assert(members[i] == prev[i]);
                assert forall|j: int| 0 <= j < i implies !(role_of(
                    #[trigger] members[j].specialization.id,
                ) matches Some(Role::Tank(_))) by {
                    assert(members[j] == prev[j]);
                }
            },
            None => {
                assert forall|j: int| 0 <= j < last implies !(role_of(
                    #[trigger] members[j].specialization.id,
                ) matches Some(Role::Tank(_))) by {
                    assert(members[j] == prev[j]);
                }
            },
        }
    }
}

/// A group's healer is its first member who plays a healer specialization:
/// no member before that one plays a healer; where no member does, there is
/// none.
pub proof fn law_first_healer(members: Seq<Member>)
    ensures
        first_healer(members) matches Some(t) ==> exists|i: int|
            0 <= i < members.len() && role_of(#[trigger] members[i].specialization.id) == Some(
                Role::Healer(t),
            ) && forall|j: int|
                0 <= j < i ==> !(role_of(#[trigger] members[j].specialization.id) matches Some(
                    Role::Healer(_),
                )),
        first_healer(members) is None ==> forall|i: int|
            0 <= i < members.len() ==> !(role_of(#[trigger] members[i].specialization.id) matches Some(
                Role::Healer(_),
            )),
    decreases members.len(),
{
    if members.len() > 0 {
        let prev = members.drop_last();
        law_first_healer(prev);
        let last = members.len() - 1;
        assert(members[last] == members.last());
        match first_healer(prev) {
            Some(t) => {
                let i = choose|i: int|
                    0 <= i < prev.len() && role_of(#[trigger] prev[i].specialization.id) == Some(
                        Role::Healer(t),
                    ) && forall|j: int|
                        0 <= j < i ==> !(role_of(#[trigger] prev[j].specialization.id) matches Some(
                            Role::Healer(_),
                        ));
                assert(members[i] == prev[i]);
                assert forall|j: int| 0 <= j < i implies !(role_of(
                    #[trigger] members[j].specialization.id,
                ) matches Some(Role::Healer(_))) by {
                    assert(members[j] == prev[j]);
                }
            },
            None => {
                assert forall|j: int| 0 <= j < last implies !(role_of(
                    #[trigger] members[j].specialization.id,
                ) matches Some(Role::Healer(_))) by {
                    assert(members[j] == prev[j]);
                }
            },
        }
    }
}

/// A group's faction is that of its last member whose faction name, in upper
/// case, is a faction: no member after that one names a faction; where no
/// member does, there is none.
pub proof fn law_last_faction(members: Seq<Member>)
    ensures
        last_faction(members) matches Some(f) ==> exists|i: int|
            0 <= i < members.len() && faction_named(
                unicode_uppercase(#[trigger] members[i].faction._type@),
            ) == Some(f) && forall|j: int|
                i < j < members.len() ==> faction_named(
                    unicode_uppercase(#[trigger] members[j].faction._type@),
                ) is None,
        last_faction(members) is None ==> forall|i: int|
            0 <= i < members.len() ==> faction_named(
                unicode_uppercase(#[trigger] members[i].faction._type@),
            ) is None,
    decreases members.len(),
{
    if members.len() > 0 {
        let prev = members.drop_last();
        law_last_faction(prev);
        let last = members.len() - 1;
        assert(members[last] == members.last());
        match faction_named(unicode_uppercase(members.last().faction._type@)) {
            Some(f) => {},
            None => {
                match last_faction(prev) {
                    Some(f) => {
                        let i = choose|i: int|
                            0 <= i < prev.len() && faction_named(
                                unicode_uppercase(#[trigger] prev[i].faction._type@),
                            ) == Some(f) && forall|j: int|
                                i < j < prev.len() ==> faction_named(
                                    unicode_uppercase(#[trigger] prev[j].faction._type@),
                                ) is None;
                        assert(members[i] == prev[i]);
                        assert forall|j: int| i < j < members.len() implies faction_named(
                            unicode_uppercase(#[trigger] members[j].faction._type@),
                        ) is None by {
                            if j < last {
                                assert(members[j] == prev[j]);
                            }
                        }
                    },
                    None => {
                        assert forall|j: int| 0 <= j < members.len() implies faction_named(
                            unicode_uppercase(#[trigger] members[j].faction._type@),
                        ) is None by {
                            if j < last {
                                assert(members[j] == prev[j]);
                            }
                        }
                    },
                }
            },
        }
    }
}

impl DataRow {
    /// Whether no counter of a row overflows when the members of `group` join
    /// it: no damage-dealer specialization occurs more than 255 times.
    pub fn has_room_for_group(group: &LeadingGroup) -> (b: bool)
        ensures
            b == counters_fit(group.members@),
    {
        let ghost members = group.members@;
        let mut counts = DataRow::default();
        let mut i: usize = 0;
        while i < group.members.len()
            invariant
                i <= members.len(),
                members == group.members@,
                forall|d: DpsSpecialization| #[trigger] counts.dps_count(d)
                    == dps_members(members.take(i as int), d),
                forall|d: DpsSpecialization| #[trigger] dps_members(members.take(i as int), d) <= 255,
            decreases members.len() - i,
        {
            let id = group.members[i].specialization.id;
            let ghost next = members.take(i + 1);
            assert(next.drop_last() =~= members.take(i as int));
            match Role::of_specialization(id) {
                Some(Role::Dps(d)) => {
                    if counts.dps_counter(d) == 255 {
                        proof {
                            lemma_dps_members_prefix(members, i + 1, d);
                        }
                        return false;
                    }
                },
                _ => {},
            }
            let ghost before = counts;
            counts.update_group_composition(id);
            assert forall|d: DpsSpecialization| #[trigger] counts.dps_count(d) == dps_members(next, d) by {
                lemma_specialization_counts(before, id, d);
            }
            assert forall|d: DpsSpecialization| #[trigger] dps_members(next, d) <= 255 by {
                assert(counts.dps_count(d) == dps_members(next, d));
            }
            i = i + 1;
        }
        assert(members.take(members.len() as int) =~= members);
        true
    }

    /// The row of a leading group of `dungeon` in `region`: where and when
    /// the key was completed, its level, the first tank and first healer of
    /// the group, the last faction named, and how many members play each
    /// damage-dealer specialization.
    pub fn new(region: Region, dungeon: Dungeon, group: &LeadingGroup) -> (row: DataRow)
        requires
            counters_fit(group.members@),
        ensures
            row == DataRow::spec_new(region, dungeon, *group),
            row.region == Some(region),
            row.dungeon == Some(dungeon),
            row.timestamp == group.completed_timestamp,
            row.duration == group.duration,
            row.keystone_level == group.keystone_level,
            forall|d: DpsSpecialization| #[trigger] row.dps_count(d) == dps_members(
                group.members@,
                d,
            ),
            row.tank == first_tank(group.members@),
            row.healer == first_healer(group.members@),
            row.faction == last_faction(group.members@),
            row.num_frost_dk == members_with_id(group.members@, 251),
            row.num_unholy_dk == members_with_id(group.members@, 252),
            row.num_havoc_dh == members_with_id(group.members@, 577),
            row.num_balance_druid == members_with_id(group.members@, 102),
            row.num_feral_druid == members_with_id(group.members@, 103),
            row.num_beast_master_hunter == members_with_id(group.members@, 253),
            row.num_marksmanship_hunter == members_with_id(group.members@, 254),
            row.num_survival_hunter == members_with_id(group.members@, 255),
            row.num_arcane_mage == members_with_id(group.members@, 62),
            row.num_fire_mage == members_with_id(group.members@, 63),
            row.num_frost_mage == members_with_id(group.members@, 64),
            row.num_windwalker_monk == members_with_id(group.members@, 269),
            row.num_retribution_paladin == members_with_id(group.members@, 70),
            row.num_shadow_priest == members_with_id(group.members@, 258),
            row.num_assassination_rogue == members_with_id(group.members@, 259),
            row.num_outlaw_rogue == members_with_id(group.members@, 260),
            row.num_subtlety_rogue == members_with_id(group.members@, 261),
            row.num_elemental_shaman == members_with_id(group.members@, 262),
            row.num_enhancement_shaman == members_with_id(group.members@, 263),
            row.num_affliction_warlock == members_with_id(group.members@, 265),
            row.num_demonology_warlock == members_with_id(group.members@, 266),
            row.num_destruction_warlock == members_with_id(group.members@, 267),
            row.num_arms_warrior == members_with_id(group.members@, 71),
            row.num_fury_warrior == members_with_id(group.members@, 72),
    {
        let ghost members = group.members@;
        let ghost start = DataRow::start_of(region, dungeon, *group);
        let mut result = DataRow {
            region: Some(region),
            faction: None,
            dungeon: Some(dungeon),
            timestamp: group.completed_timestamp,
            duration: group.duration,
            keystone_level: group.keystone_level,
            ..Default::default()
        };
        assert(result == start);
        let mut i: usize = 0;
        while i < group.members.len()
            invariant
                i <= members.len(),
                members == group.members@,
                counters_fit(members),
                start == DataRow::start_of(region, dungeon, *group),
                result == start.with_members(members.take(i as int)),
            decreases members.len() - i,
        {
            let member = &group.members[i];
            let ghost next = members.take(i + 1);
            assert(next.drop_last() =~= members.take(i as int));
            proof {
                lemma_prefix_fits(members, i + 1);
                lemma_prefix_fits(members, i as int);
                lemma_with_members(start, members.take(i as int));
                match role_of(member.specialization.id) {
                    Some(Role::Dps(d)) => {
                        assert(dps_members(next, d) <= 255);
                    },
                    _ => {},
                }
            }
            result.update_group_composition(member.specialization.id);
            result.update_faction(&member.faction._type);
            i = i + 1;
        }
        proof {
            assert(members.take(members.len() as int) =~= members);
            lemma_with_members(start, members);
            law_counter_columns(region, dungeon, *group);
        }
        result
    }
}

} // verus!
