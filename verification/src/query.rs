//! The requests made to the Battle.net API: document paths, URLs, headers,
//! and the pause between requests.
use vstd::prelude::*;

use crate::model::Region;
use crate::text::{decimal, push_decimal};

verus! {

/// An API document that can be asked for.
pub trait Queryable {
    /// The document's path below the API root.
    spec fn query_path(&self) -> Seq<char>;

    /// The document's path below the API root.
    fn make_query_string(&self) -> (s: String)
        ensures
            s@ == self.query_path(),
    ;
}

/// The index of connected realms.
pub struct GetConnectedRealmIndex {}

/// The Mythic+ leaderboard index of a connected realm.
pub struct GetMythicLeaderboardIndex {
    pub connected_realm_id: u32,
}

/// One Mythic+ leaderboard of a connected realm.
pub struct GetMythicLeaderboard {
    pub connected_realm_id: u32,
    pub dungeon_id: u32,
    pub period: u32,
}

impl Queryable for GetConnectedRealmIndex {
    open spec fn query_path(&self) -> Seq<char> {
        "data/wow/connected-realm/index"@
    }

    fn make_query_string(&self) -> (s: String)
        ensures
            s@ == "data/wow/connected-realm/index"@,
    {
        let mut s = String::new();
        s.append("data/wow/connected-realm/index");
        assert(s@ =~= "data/wow/connected-realm/index"@);
        s
    }
}

impl Queryable for GetMythicLeaderboardIndex {
    open spec fn query_path(&self) -> Seq<char> {
        "data/wow/connected-realm/"@ + decimal(self.connected_realm_id as nat)
            + "/mythic-leaderboard/index"@
    }

    fn make_query_string(&self) -> (s: String)
        ensures
            s@ == "data/wow/connected-realm/"@ + decimal(self.connected_realm_id as nat)
                + "/mythic-leaderboard/index"@,
    {
        let mut s = String::new();
        s.append("data/wow/connected-realm/");
        push_decimal(&mut s, self.connected_realm_id);
        s.append("/mythic-leaderboard/index");
        assert(s@ =~= self.query_path());
        s
    }
}

impl Queryable for GetMythicLeaderboard {
    open spec fn query_path(&self) -> Seq<char> {
        "data/wow/connected-realm/"@ + decimal(self.connected_realm_id as nat)
            + "/mythic-leaderboard/"@ + decimal(self.dungeon_id as nat) + "/period/"@ + decimal(
            self.period as nat,
        )
    }

    fn make_query_string(&self) -> (s: String)
        ensures
            s@ == "data/wow/connected-realm/"@ + decimal(self.connected_realm_id as nat)
                + "/mythic-leaderboard/"@ + decimal(self.dungeon_id as nat) + "/period/"@
                + decimal(self.period as nat),
    {
        let mut s = String::new();
        s.append("data/wow/connected-realm/");
        push_decimal(&mut s, self.connected_realm_id);
        s.append("/mythic-leaderboard/");
        push_decimal(&mut s, self.dungeon_id);
        s.append("/period/");
        push_decimal(&mut s, self.period);
        assert(s@ =~= self.query_path());
        s
    }
}

/// The paths of the documents: the realm index, a realm's leaderboard index
/// and one leaderboard, each identifier written in shortest decimal form.
pub proof fn law_query_paths(connected_realm_id: u32, dungeon_id: u32, period: u32)
    ensures
        (GetConnectedRealmIndex {}).query_path() == "data/wow/connected-realm/index"@,
        (GetMythicLeaderboardIndex { connected_realm_id }).query_path()
            == "data/wow/connected-realm/"@ + decimal(connected_realm_id as nat)
            + "/mythic-leaderboard/index"@,
        (GetMythicLeaderboard { connected_realm_id, dungeon_id, period }).query_path()
            == "data/wow/connected-realm/"@ + decimal(connected_realm_id as nat)
            + "/mythic-leaderboard/"@ + decimal(dungeon_id as nat) + "/period/"@ + decimal(
            period as nat,
        ),
{
}

/// The path of the index of Mythic+ periods.
pub fn period_index_query() -> (s: String)
    ensures
        s@ == "data/wow/mythic-keystone/period/index"@,
{
    let mut s = String::new();
    s.append("data/wow/mythic-keystone/period/index");
    assert(s@ =~= "data/wow/mythic-keystone/period/index"@);
    s
}

/// The path of the Mythic+ period `id`.
pub fn period_query(id: u32) -> (s: String)
    ensures
        s@ == "data/wow/mythic-keystone/period/"@ + decimal(id as nat),
{
    let mut s = String::new();
    s.append("data/wow/mythic-keystone/period/");
    push_decimal(&mut s, id);
    assert(s@ =~= "data/wow/mythic-keystone/period/"@ + decimal(id as nat));
    s
}

/// The URL of the document at `query` in the dynamic namespace of `region`.
pub open spec fn request_url_text(region: Region, query: Seq<char>) -> Seq<char> {
    "https://"@ + region.code() + ".api.blizzard.com/"@ + query + "?namespace=dynamic-"@
        + region.code() + "&locale=en_US"@
}

/// A request goes to the region's API host and asks for the dynamic
/// namespace of the same region, in the en_US locale; a token request goes
/// to the region's OAuth host with the client's credentials.
pub proof fn law_request_urls(
    region: Region,
    query: Seq<char>,
    client_id: Seq<char>,
    client_secret: Seq<char>,
)
    ensures
        request_url_text(region, query) == "https://"@ + region.code() + ".api.blizzard.com/"@
            + query + "?namespace=dynamic-"@ + region.code() + "&locale=en_US"@,
        token_url_text(region, client_id, client_secret) == "https://"@ + region.code()
            + ".battle.net/oauth/token?grant_type=client_credentials&client_id="@ + client_id
            + "&client_secret="@ + client_secret,
{
}

/// The URL of the document at `query` in the dynamic namespace of `region`.
pub fn request_url(region: Region, query: &str) -> (s: String)
    ensures
        s@ == request_url_text(region, query@),
        s@ == "https://"@ + region.code() + ".api.blizzard.com/"@ + query@ + "?namespace=dynamic-"@
            + region.code() + "&locale=en_US"@,
{
    let code = region.query_str();
    let mut s = String::new();
    s.append("https://");
    s.append(code);
    s.append(".api.blizzard.com/");
    s.append(query);
    s.append("?namespace=dynamic-");
    s.append(code);
    s.append("&locale=en_US");
    assert(s@ =~= request_url_text(region, query@));
    s
}

/// The header that authorizes a request with the access token `token`.
pub fn authorization_header(token: &str) -> (s: String)
    ensures
        s@ == "Authorization: Bearer "@ + token@,
{
    let mut s = String::new();
    s.append("Authorization: Bearer ");
    s.append(token);
    assert(s@ =~= "Authorization: Bearer "@ + token@);
    s
}

/// The URL that asks `region`'s OAuth service for a client-credentials token.
pub open spec fn token_url_text(region: Region, client_id: Seq<char>, client_secret: Seq<char>) -> Seq<
    char,
> {
    "https://"@ + region.code() + ".battle.net/oauth/token?grant_type=client_credentials&client_id="@
        + client_id + "&client_secret="@ + client_secret
}

/// The URL that asks `region`'s OAuth service for a client-credentials token.
pub fn token_url(region: Region, client_id: &str, client_secret: &str) -> (s: String)
    ensures
        s@ == token_url_text(region, client_id@, client_secret@),
        s@ == "https://"@ + region.code()
            + ".battle.net/oauth/token?grant_type=client_credentials&client_id="@ + client_id@
            + "&client_secret="@ + client_secret@,
{
    let mut s = String::new();
    s.append("https://");
    s.append(region.query_str());
    s.append(".battle.net/oauth/token?grant_type=client_credentials&client_id=");
    s.append(client_id);
    s.append("&client_secret=");
    s.append(client_secret);
    assert(s@ =~= token_url_text(region, client_id@, client_secret@));
    s
}

/// How long to pause before the next request, in nanoseconds, when
/// `elapsed` nanoseconds have passed since the previous one and requests
/// are spaced by `interval`: the time by which `elapsed` exceeds `interval`,
/// if it does.
pub fn throttle_pause(elapsed: u128, interval: u128) -> (pause: Option<u128>)
    ensures
        elapsed > interval ==> pause == Some((elapsed - interval) as u128),
        elapsed <= interval ==> pause is None,
{
    if elapsed > interval {
        Some(elapsed - interval)
    } else {
        None
    }
}

} // verus!
