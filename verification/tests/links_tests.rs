use mplus_leaderboard::error::FetchError;
use mplus_leaderboard::json::{ConnectedRealmIndex, Href, LeaderboardIndex, LeaderboardIndexEntry};
use mplus_leaderboard::links::{
    captures_stop, connected_realm_ids, entries_from_captures, leaderboard_entries,
    leaderboard_index_stops, read_match, realm_ids_from_captures, realm_links_stop,
    try_connected_realm_ids, try_leaderboard_entries, LeaderboardEntry, Outcome,
};
use mplus_leaderboard::model::Dungeon;
use mplus_leaderboard::text::NumberError;

fn href(s: &str) -> Href {
    Href { href: s.to_string() }
}

fn entry(name: &str, id: u32, link: &str) -> LeaderboardIndexEntry {
    LeaderboardIndexEntry { key: href(link), name: name.to_string(), id }
}

fn row(cells: &[Option<&str>]) -> Vec<Option<String>> {
    cells.iter().map(|c| c.map(|s| s.to_string())).collect()
}

#[test]
fn connected_realm_ids_reads_links_in_order() {
    let index = ConnectedRealmIndex {
        connected_realms: vec![
            href("https://us.api.blizzard.com/data/wow/connected-realm/11?namespace=dynamic-us"),
            href("https://us.api.blizzard.com/data/wow/connected-realm/1136?namespace=dynamic-us"),
            href("https://us.api.blizzard.com/data/wow/realm/5?namespace=dynamic-us"),
        ],
    };
    assert!(!realm_links_stop(&index));
    assert_eq!(connected_realm_ids(&index), Ok(vec![11, 1136]));
    assert_eq!(try_connected_realm_ids(&index), Some(Ok(vec![11, 1136])));
}

#[test]
fn connected_realm_ids_takes_every_match_of_a_link() {
    let index = ConnectedRealmIndex {
        connected_realms: vec![href("/data/wow/connected-realm/3/data/wow/connected-realm/4")],
    };
    assert_eq!(connected_realm_ids(&index), Ok(vec![3, 4]));
}

#[test]
fn connected_realm_ids_fails_on_numbers_out_of_range() {
    let index = ConnectedRealmIndex {
        connected_realms: vec![
            href("/data/wow/connected-realm/7"),
            href("/data/wow/connected-realm/99999999999"),
        ],
    };
    assert_eq!(
        connected_realm_ids(&index),
        Err(FetchError::Number(NumberError::PosOverflow))
    );
}

#[test]
fn connected_realm_ids_fails_on_non_ascii_digits() {
    let index = ConnectedRealmIndex {
        connected_realms: vec![href("/data/wow/connected-realm/\u{0661}\u{0662}")],
    };
    assert_eq!(
        try_connected_realm_ids(&index),
        Some(Err(FetchError::Number(NumberError::InvalidDigit)))
    );
}

#[test]
fn realm_ids_from_captures_skips_missing_groups() {
    let captures = vec![row(&[Some("5")]), row(&[None]), row(&[]), row(&[Some("+6")])];
    assert_eq!(realm_ids_from_captures(&captures), Ok(vec![5, 6]));
    let bad = vec![row(&[Some("5")]), row(&[Some("x")])];
    assert_eq!(
        realm_ids_from_captures(&bad),
        Err(FetchError::Number(NumberError::InvalidDigit))
    );
    let empty = vec![row(&[Some("")])];
    assert_eq!(realm_ids_from_captures(&empty), Err(FetchError::Number(NumberError::Empty)));
}

#[test]
fn leaderboard_entries_reads_dungeon_and_period() {
    let index = LeaderboardIndex {
        current_leaderboards: vec![
            entry(
                "Atal'Dazar",
                244,
                "https://us.api.blizzard.com/data/wow/connected-realm/11/mythic-leaderboard/244/period/676?namespace=dynamic-us",
            ),
            entry(
                "Freehold",
                245,
                "https://us.api.blizzard.com/data/wow/connected-realm/11/mythic-leaderboard/245/period/676?namespace=dynamic-us",
            ),
        ],
    };
    assert!(!leaderboard_index_stops(&index));
    assert_eq!(
        try_leaderboard_entries(&index),
        Some(Ok(vec![
            LeaderboardEntry { dungeon_name: Dungeon::AtalDazar, dungeon_id: 244, period: 676 },
            LeaderboardEntry { dungeon_name: Dungeon::Freehold, dungeon_id: 245, period: 676 },
        ]))
    );
}

#[test]
fn leaderboard_entries_rejects_unknown_dungeons() {
    let index = LeaderboardIndex {
        current_leaderboards: vec![entry("Uldir", 1, "/mythic-leaderboard/1/period/2")],
    };
    assert_eq!(leaderboard_entries(&index), Err(FetchError::MissingEntry));
}

#[test]
fn leaderboard_index_stops_on_links_to_other_dungeons() {
    let index = LeaderboardIndex {
        current_leaderboards: vec![
            entry("Atal'Dazar", 244, "/mythic-leaderboard/244/period/676"),
            entry("Freehold", 245, "/mythic-leaderboard/244/period/676"),
        ],
    };
    assert!(leaderboard_index_stops(&index));
    assert_eq!(try_leaderboard_entries(&index), None);
}

#[test]
fn leaderboard_index_failure_before_mismatch_decides() {
    let index = LeaderboardIndex {
        current_leaderboards: vec![
            entry("Uldir", 1, "/mythic-leaderboard/1/period/2"),
            entry("Freehold", 245, "/mythic-leaderboard/244/period/676"),
        ],
    };
    assert!(!leaderboard_index_stops(&index));
    assert_eq!(try_leaderboard_entries(&index), Some(Err(FetchError::MissingEntry)));
}

#[test]
fn leaderboard_entries_fails_on_bad_period() {
    let index = LeaderboardIndex {
        current_leaderboards: vec![entry(
            "Freehold",
            245,
            "/mythic-leaderboard/245/period/99999999999",
        )],
    };
    assert_eq!(
        leaderboard_entries(&index),
        Err(FetchError::Number(NumberError::PosOverflow))
    );
}

#[test]
fn leaderboard_entries_ignores_links_without_a_match() {
    let index = LeaderboardIndex {
        current_leaderboards: vec![entry("Tol Dagor", 246, "/somewhere/else")],
    };
    assert_eq!(leaderboard_entries(&index), Ok(vec![]));
}

#[test]
fn read_match_covers_each_outcome() {
    let d = Dungeon::KingsRest;
    match read_match(d, 9, &row(&[Some("9"), Some("3")])) {
        Outcome::Done(e) => assert_eq!(e, LeaderboardEntry { dungeon_name: d, dungeon_id: 9, period: 3 }),
        _ => panic!("expected an entry"),
    }
    assert!(matches!(read_match(d, 9, &row(&[Some("8"), Some("3")])), Outcome::Stops));
    assert!(matches!(read_match(d, 9, &row(&[None, Some("3")])), Outcome::Stops));
    assert!(matches!(read_match(d, 9, &row(&[Some("9")])), Outcome::Stops));
    assert!(matches!(
        read_match(d, 9, &row(&[Some("q"), Some("3")])),
        Outcome::Fails(FetchError::Number(NumberError::InvalidDigit))
    ));
    assert!(matches!(
        read_match(d, 9, &row(&[Some("9"), Some("q")])),
        Outcome::Fails(FetchError::Number(NumberError::InvalidDigit))
    ));
}

#[test]
fn first_failing_match_decides() {
    let d = Dungeon::TheUnderrot;
    let fails_first = vec![row(&[Some("x"), Some("1")]), row(&[Some("2"), Some("1")])];
    assert!(!captures_stop(d, 1, &fails_first));
    assert_eq!(
        entries_from_captures(d, 1, &fails_first),
        Err(FetchError::Number(NumberError::InvalidDigit))
    );
    let stops_first = vec![row(&[Some("2"), Some("1")]), row(&[Some("x"), Some("1")])];
    assert!(captures_stop(d, 1, &stops_first));
    let fine = vec![row(&[Some("1"), Some("5")]), row(&[Some("1"), Some("6")])];
    assert!(!captures_stop(d, 1, &fine));
    assert_eq!(
        entries_from_captures(d, 1, &fine),
        Ok(vec![
            LeaderboardEntry { dungeon_name: d, dungeon_id: 1, period: 5 },
            LeaderboardEntry { dungeon_name: d, dungeon_id: 1, period: 6 },
        ])
    );
}
