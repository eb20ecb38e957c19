use mplus_leaderboard::model::Region;
use mplus_leaderboard::query::{
    authorization_header, period_index_query, period_query, request_url, throttle_pause,
    token_url, GetConnectedRealmIndex, GetMythicLeaderboard, GetMythicLeaderboardIndex,
    Queryable,
};

#[test]
fn query_strings_name_the_documents() {
    assert_eq!(GetConnectedRealmIndex {}.make_query_string(), "data/wow/connected-realm/index");
    assert_eq!(
        GetMythicLeaderboardIndex { connected_realm_id: 11 }.make_query_string(),
        "data/wow/connected-realm/11/mythic-leaderboard/index"
    );
    assert_eq!(
        GetMythicLeaderboard { connected_realm_id: 3657, dungeon_id: 244, period: 659 }
            .make_query_string(),
        "data/wow/connected-realm/3657/mythic-leaderboard/244/period/659"
    );
    assert_eq!(period_index_query(), "data/wow/mythic-keystone/period/index");
    assert_eq!(period_query(676), "data/wow/mythic-keystone/period/676");
    assert_eq!(period_query(0), "data/wow/mythic-keystone/period/0");
}

#[test]
fn request_url_uses_region_host_and_namespace() {
    assert_eq!(
        request_url(Region::Eu, "data/wow/connected-realm/index"),
        "https://eu.api.blizzard.com/data/wow/connected-realm/index?namespace=dynamic-eu&locale=en_US"
    );
}

#[test]
fn authorization_header_carries_the_token() {
    assert_eq!(authorization_header("abc"), "Authorization: Bearer abc");
}

#[test]
fn token_url_carries_the_credentials() {
    assert_eq!(
        token_url(Region::Apac, "id", "SECRET-REDACTED"),
        "https://apac.battle.net/oauth/token?grant_type=client_credentials&client_id=id&client_secret=SECRET-REDACTED"
    );
}

#[test]
fn throttle_pause_is_the_excess_over_the_interval() {
    assert_eq!(throttle_pause(150, 100), Some(50));
    assert_eq!(throttle_pause(100, 100), None);
    assert_eq!(throttle_pause(20, 100), None);
}
