//! The documents that the Battle.net API answers with, as plain values.
use vstd::prelude::*;

verus! {

/// An OAuth access token.
#[derive(Debug)]
pub struct AccessToken {
    pub access_token: String,
    pub token_type: String,
    pub expires_in: u32,
}

/// A link to another API document.
#[derive(Debug)]
pub struct Href {
    pub href: String,
}

/// One leaderboard of a connected realm's leaderboard index.
#[derive(Debug)]
pub struct LeaderboardIndexEntry {
    pub key: Href,
    pub name: String,
    pub id: u32,
}

/// The index of connected realms.
#[derive(Debug)]
pub struct ConnectedRealmIndex {
    pub connected_realms: Vec<Href>,
}

/// The current Mythic+ leaderboards of a connected realm.
#[derive(Debug)]
pub struct LeaderboardIndex {
    pub current_leaderboards: Vec<LeaderboardIndexEntry>,
}

/// A faction, by its type name ("ALLIANCE" or "HORDE", in any case).
#[derive(Debug)]
pub struct FactionType {
    pub _type: String,
}

/// A specialization, by its API identifier.
#[derive(Debug)]
pub struct Specialization {
    pub id: u32,
}

/// A member of a group that completed a keystone.
#[derive(Debug)]
pub struct Member {
    pub faction: FactionType,
    pub specialization: Specialization,
}

/// A group on a leaderboard.
#[derive(Debug)]
pub struct LeadingGroup {
    pub ranking: u32,
    pub duration: u32,
    pub keystone_level: u32,
    pub completed_timestamp: u64,
    pub members: Vec<Member>,
}

/// The dungeon of a leaderboard.
#[derive(Debug)]
pub struct DungeonMap {
    pub name: String,
    pub id: u32,
}

/// A keystone affix.
#[derive(Debug)]
pub struct KeystoneAffix {
    pub name: String,
}

/// A keystone affix and the keystone level from which it applies.
#[derive(Debug)]
pub struct KeystoneAffixInfo {
    pub keystone_affix: KeystoneAffix,
    pub starting_level: u32,
}

/// One Mythic+ leaderboard.
#[derive(Debug)]
pub struct Leaderboard {
    pub map: DungeonMap,
    pub leading_groups: Option<Vec<LeadingGroup>>,
    pub keystone_affixes: Vec<KeystoneAffixInfo>,
}

/// A Mythic+ period, by its identifier.
#[derive(Debug)]
pub struct PeriodId {
    pub id: u32,
}

/// The index of Mythic+ periods.
#[derive(Debug)]
pub struct PeriodIndex {
    pub current_period: PeriodId,
    pub periods: Vec<PeriodId>,
}

/// A Mythic+ period and its bounds, in milliseconds since the Unix epoch.
#[derive(Debug)]
pub struct Period {
    pub id: u32,
    pub start_timestamp: u64,
    pub end_timestamp: u64,
}

} // verus!
