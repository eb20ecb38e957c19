//! Reading connected-realm identifiers and leaderboard coordinates out of
//! the links that API documents hold.
use vstd::prelude::*;

use crate::error::FetchError;
use crate::json::{ConnectedRealmIndex, Href, LeaderboardIndex, LeaderboardIndexEntry};
use crate::model::{dungeon_named, Dungeon};
use crate::text::{parse_u32, parsed_u32, NumberError};

verus! {

/// Names what the regex crate reports when `pattern` is searched in
/// `haystack`: `None` when `pattern` does not compile; otherwise, for each
/// successive non-overlapping match, in order, the text that each of the
/// named `groups` matched there (`None` for a group that took no part in it).
pub uninterp spec fn regex_named_captures(
    pattern: Seq<char>,
    groups: Seq<Seq<char>>,
    haystack: Seq<char>,
) -> Option<Seq<Seq<Option<Seq<char>>>>>;

/// Calls `regex::Regex::new` on `pattern`, then `Regex::captures_iter` on
/// `haystack`, and for each match `Captures::name` for each of `groups`
/// (`Match::as_str` for the text). Claimed: the result is the function named
/// `regex_named_captures` of the three arguments, and each match yields one
/// entry per group. The regex semantics themselves are not stated.
#[verifier::external_body]
fn named_captures(pattern: &str, groups: &Vec<&str>, haystack: &str) -> (r: Option<
    Vec<Vec<Option<String>>>,
>)
    ensures
        r.deep_view() == regex_named_captures(pattern@, groups.deep_view(), haystack@),
        r matches Some(rows) ==> forall|i: int|
            0 <= i < rows@.len() ==> #[trigger] rows@[i]@.len() == groups@.len(),
{
    match regex::Regex::new(pattern) {
        Ok(re) => Some(
            re.captures_iter(haystack).map(
                |caps| groups.iter().map(|g| caps.name(g).map(|m| m.as_str().to_string())).collect(),
            ).collect(),
        ),
        Err(_) => None,
    }
}

/// The pattern of a connected realm's link.
pub const REALM_PATTERN: &'static str = r"/data/wow/connected-realm/(?P<connectedRealmId>\d+)";

/// The group of `REALM_PATTERN` that holds the realm's identifier.
pub const REALM_GROUP: &'static str = "connectedRealmId";

/// The pattern of a leaderboard's link.
pub const LEADERBOARD_PATTERN: &'static str =
    r"/mythic-leaderboard/(?P<dungeonId>\d+)/period/(?P<period>\d+)";

/// The group of `LEADERBOARD_PATTERN` that holds the dungeon's identifier.
pub const DUNGEON_GROUP: &'static str = "dungeonId";

/// The group of `LEADERBOARD_PATTERN` that holds the period.
pub const PERIOD_GROUP: &'static str = "period";

/// The text of the `k`-th group of one match, if it took part.
pub open spec fn group_text(row: Seq<Option<Seq<char>>>, k: int) -> Option<Seq<char>> {
    if 0 <= k < row.len() {
        row[k]
    } else {
        None
    }
}

/// How reading a piece of data ends: with a value, with a failure, or by
/// stopping because the data cannot be processed at all.
pub enum Outcome<T> {
    Done(T),
    Fails(FetchError),
    Stops,
}

/// The realm identifiers that the matches `captures` (with the realm group
/// first) hold, in order; matches without the group are passed over. Fails at
/// the first identifier that is not a number.
pub open spec fn realm_ids_in(captures: Seq<Seq<Option<Seq<char>>>>) -> Result<Seq<u32>, FetchError>
    decreases captures.len(),
{
    if captures.len() == 0 {
        Ok(seq![])
    } else {
        match realm_ids_in(captures.drop_last()) {
            Err(e) => Err(e),
            Ok(ids) => match group_text(captures.last(), 0) {
                None => Ok(ids),
                Some(text) => match parsed_u32(text) {
                    Ok(n) => Ok(ids.push(n)),
                    Err(e) => Err(FetchError::Number(e)),
                },
            },
        }
    }
}

/// The realm identifiers of all the links `hrefs`, in order; the first link
/// that fails or stops decides. The processing stops at a link where the
/// realm pattern does not compile.
pub open spec fn realm_ids_of(hrefs: Seq<Href>) -> Outcome<Seq<u32>>
    decreases hrefs.len(),
{
    if hrefs.len() == 0 {
        Outcome::Done(seq![])
    } else {
        match realm_ids_of(hrefs.drop_last()) {
            Outcome::Done(ids) => match regex_named_captures(
                REALM_PATTERN@,
                seq![REALM_GROUP@],
                hrefs.last().href@,
            ) {
                None => Outcome::Stops,
                Some(captures) => match realm_ids_in(captures) {
                    Ok(more) => Outcome::Done(ids + more),
                    Err(e) => Outcome::Fails(e),
                },
            },
            Outcome::Fails(e) => Outcome::Fails(e),
            Outcome::Stops => Outcome::Stops,
        }
    }
}

/// The realm identifiers that the matches `captures` hold (see
/// `realm_ids_in`).
pub fn realm_ids_from_captures(captures: &Vec<Vec<Option<String>>>) -> (r: Result<
    Vec<u32>,
    FetchError,
>)
    ensures
        match r {
            Ok(ids) => realm_ids_in(captures.deep_view()) == Ok::<Seq<u32>, FetchError>(ids@),
            Err(e) => realm_ids_in(captures.deep_view()) == Err::<Seq<u32>, FetchError>(e),
        },
{
    let ghost all = captures.deep_view();
    let mut ids: Vec<u32> = Vec::new();
    let mut i: usize = 0;
    while i < captures.len()
        invariant
            i <= captures@.len(),
            all == captures.deep_view(),
            realm_ids_in(all.take(i as int)) == Ok::<Seq<u32>, FetchError>(ids@),
        decreases captures@.len() - i,
    {
        let row = &captures[i];
        let ghost next = all.take(i + 1);
        assert(next.drop_last() =~= all.take(i as int));
        assert(next.last() == row.deep_view());
        if row.len() > 0 {
            match &row[0] {
                Some(text) => {
                    match parse_u32(text.as_str()) {
                        Ok(n) => {
                            ids.push(n);
                        },
                        Err(e) => {
                            proof {
                                lemma_realm_ids_error_persists(all, i + 1);
                            }
                            return Err(FetchError::Number(e));
                        },
                    }
                },
                None => {},
            }
        }
        i = i + 1;
    }
    assert(all.take(captures@.len() as int) =~= all);
    Ok(ids)
}

proof fn lemma_realm_ids_error_persists(captures: Seq<Seq<Option<Seq<char>>>>, k: int)
    requires
        0 <= k <= captures.len(),
        realm_ids_in(captures.take(k)) is Err,
    ensures
        realm_ids_in(captures) == realm_ids_in(captures.take(k)),
    decreases captures.len(),
{
    if k < captures.len() {
        assert(captures.drop_last().take(k) =~= captures.take(k));
        lemma_realm_ids_error_persists(captures.drop_last(), k);
    } else {
        assert(captures.take(k) =~= captures);
    }
}

proof fn lemma_realm_hrefs_end_persists(hrefs: Seq<Href>, k: int)
    requires
        0 <= k <= hrefs.len(),
        !(realm_ids_of(hrefs.take(k)) is Done),
    ensures
        realm_ids_of(hrefs) == realm_ids_of(hrefs.take(k)),
    decreases hrefs.len(),
{
    if k < hrefs.len() {
        assert(hrefs.drop_last().take(k) =~= hrefs.take(k));
        lemma_realm_hrefs_end_persists(hrefs.drop_last(), k);
    } else {
        assert(hrefs.take(k) =~= hrefs);
    }
}

/// The identifiers of the connected realms that `index` links to, in order,
/// on an index whose processing does not stop (see `realm_ids_of`).
pub fn connected_realm_ids(index: &ConnectedRealmIndex) -> (r: Result<Vec<u32>, FetchError>)
    requires
        !(realm_ids_of(index.connected_realms@) is Stops),
    ensures
        match realm_ids_of(index.connected_realms@) {
            Outcome::Done(ids) => r matches Ok(v) && v@ == ids,
            Outcome::Fails(e) => r == Err::<Vec<u32>, FetchError>(e),
            Outcome::Stops => false,
        },
{
    let ghost hrefs = index.connected_realms@;
    let groups: Vec<&str> = vec![REALM_GROUP];
    assert(groups.deep_view() =~= seq![REALM_GROUP@]);
    let mut result: Vec<u32> = Vec::new();
    let mut i: usize = 0;
    while i < index.connected_realms.len()
        invariant
            i <= hrefs.len(),
            hrefs == index.connected_realms@,
            !(realm_ids_of(hrefs) is Stops),
            groups.deep_view() == seq![REALM_GROUP@],
            realm_ids_of(hrefs.take(i as int)) == Outcome::Done(result@),
        decreases hrefs.len() - i,
    {
        let href = &index.connected_realms[i];
        let ghost next = hrefs.take(i + 1);
        assert(next.drop_last() =~= hrefs.take(i as int));
        match named_captures(REALM_PATTERN, &groups, href.href.as_str()) {
            None => {
                proof {
                    lemma_realm_hrefs_end_persists(hrefs, i + 1);
                }
                return Err(FetchError::MissingEntry);
            },
            Some(captures) => match realm_ids_from_captures(&captures) {
                Ok(more) => {
                    let mut more = more;
                    result.append(&mut more);
                },
                Err(e) => {
                    proof {
                        lemma_realm_hrefs_end_persists(hrefs, i + 1);
                    }
                    return Err(e);
                },
            },
        }
        i = i + 1;
    }
    assert(hrefs.take(hrefs.len() as int) =~= hrefs);
    Ok(result)
}

/// Whether the processing of the links of `index` stops (see
/// `realm_ids_of`).
pub fn realm_links_stop(index: &ConnectedRealmIndex) -> (b: bool)
    ensures
        b == (realm_ids_of(index.connected_realms@) is Stops),
{
    let ghost hrefs = index.connected_realms@;
    let groups: Vec<&str> = vec![REALM_GROUP];
    assert(groups.deep_view() =~= seq![REALM_GROUP@]);
    let ghost mut found: Seq<u32> = seq![];
    let mut i: usize = 0;
    while i < index.connected_realms.len()
        invariant
            i <= hrefs.len(),
            hrefs == index.connected_realms@,
            groups.deep_view() == seq![REALM_GROUP@],
            realm_ids_of(hrefs.take(i as int)) == Outcome::Done(found),
        decreases hrefs.len() - i,
    {
        let href = &index.connected_realms[i];
        let ghost next = hrefs.take(i + 1);
        assert(next.drop_last() =~= hrefs.take(i as int));
        match named_captures(REALM_PATTERN, &groups, href.href.as_str()) {
            None => {
                proof {
                    lemma_realm_hrefs_end_persists(hrefs, i + 1);
                }
                return true;
            },
            Some(captures) => match realm_ids_from_captures(&captures) {
                Ok(more) => {
                    proof {
                        found = found + more@;
                    }
                },
                Err(e) => {
                    proof {
                        lemma_realm_hrefs_end_persists(hrefs, i + 1);
                    }
                    return false;
                },
            },
        }
        i = i + 1;
    }
    assert(hrefs.take(hrefs.len() as int) =~= hrefs);
    false
}

/// The identifiers of the connected realms that `index` links to, in order;
/// `None` where the processing of the links stops (see `realm_ids_of`).
pub fn try_connected_realm_ids(index: &ConnectedRealmIndex) -> (r: Option<
    Result<Vec<u32>, FetchError>,
>)
    ensures
        match realm_ids_of(index.connected_realms@) {
            Outcome::Done(ids) => r matches Some(Ok(v)) && v@ == ids,
            Outcome::Fails(e) => r == Some(Err::<Vec<u32>, FetchError>(e)),
            Outcome::Stops => r is None,
        },
{
    if realm_links_stop(index) {
        None
    } else {
        Some(connected_realm_ids(index))
    }
}

/// One leaderboard of a connected realm: its dungeon and period.
#[derive(Clone, Copy, Debug, PartialEq, Eq, Structural)]
pub struct LeaderboardEntry {
    pub dungeon_name: Dungeon,
    pub dungeon_id: u32,
    pub period: u32,
}

/// What one match of `LEADERBOARD_PATTERN` (dungeon group first, then period
/// group) gives for the leaderboard of `dungeon` with identifier
/// `dungeon_id`: the processing stops where a group is missing or the link
/// names another dungeon identifier.
pub open spec fn entry_from_match(
    dungeon: Dungeon,
    dungeon_id: u32,
    row: Seq<Option<Seq<char>>>,
) -> Outcome<LeaderboardEntry> {
    match group_text(row, 0) {
        None => Outcome::Stops,
        Some(id_text) => match parsed_u32(id_text) {
            Err(e) => Outcome::Fails(FetchError::Number(e)),
            Ok(linked_id) => if linked_id != dungeon_id {
                Outcome::Stops
            } else {
                match group_text(row, 1) {
                    None => Outcome::Stops,
                    Some(period_text) => match parsed_u32(period_text) {
                        Err(e) => Outcome::Fails(FetchError::Number(e)),
                        Ok(period) => Outcome::Done(
                            LeaderboardEntry { dungeon_name: dungeon, dungeon_id, period },
                        ),
                    },
                }
            },
        },
    }
}

/// What the matches `captures` give for the leaderboard of `dungeon` with
/// identifier `dungeon_id`, in order; the first match that fails or stops
/// decides.
pub open spec fn entries_from(
    dungeon: Dungeon,
    dungeon_id: u32,
    captures: Seq<Seq<Option<Seq<char>>>>,
) -> Outcome<Seq<LeaderboardEntry>>
    decreases captures.len(),
{
    if captures.len() == 0 {
        Outcome::Done(seq![])
    } else {
        match entries_from(dungeon, dungeon_id, captures.drop_last()) {
            Outcome::Done(entries) => match entry_from_match(dungeon, dungeon_id, captures.last()) {
                Outcome::Done(entry) => Outcome::Done(entries.push(entry)),
                Outcome::Fails(e) => Outcome::Fails(e),
                Outcome::Stops => Outcome::Stops,
            },
            Outcome::Fails(e) => Outcome::Fails(e),
            Outcome::Stops => Outcome::Stops,
        }
    }
}

/// What one entry of a leaderboard index gives: its dungeon must be known,
/// then each match of the leaderboard pattern in its link gives one entry.
pub open spec fn index_entry_outcome(entry: LeaderboardIndexEntry) -> Outcome<
    Seq<LeaderboardEntry>,
> {
    match dungeon_named(entry.name@) {
        None => Outcome::Fails(FetchError::MissingEntry),
        Some(dungeon) => match regex_named_captures(
            LEADERBOARD_PATTERN@,
            seq![DUNGEON_GROUP@, PERIOD_GROUP@],
            entry.key.href@,
        ) {
            None => Outcome::Stops,
            Some(captures) => entries_from(dungeon, entry.id, captures),
        },
    }
}

/// What the entries of a leaderboard index give, in order; the first entry
/// that fails or stops decides.
pub open spec fn index_outcome(entries: Seq<LeaderboardIndexEntry>) -> Outcome<
    Seq<LeaderboardEntry>,
>
    decreases entries.len(),
{
    if entries.len() == 0 {
        Outcome::Done(seq![])
    } else {
        match index_outcome(entries.drop_last()) {
            Outcome::Done(found) => match index_entry_outcome(entries.last()) {
                Outcome::Done(more) => Outcome::Done(found + more),
                Outcome::Fails(e) => Outcome::Fails(e),
                Outcome::Stops => Outcome::Stops,
            },
            Outcome::Fails(e) => Outcome::Fails(e),
            Outcome::Stops => Outcome::Stops,
        }
    }
}

proof fn lemma_entries_end_persists(
    dungeon: Dungeon,
    dungeon_id: u32,
    captures: Seq<Seq<Option<Seq<char>>>>,
    k: int,
)
    requires
        0 <= k <= captures.len(),
        !(entries_from(dungeon, dungeon_id, captures.take(k)) is Done),
    ensures
        entries_from(dungeon, dungeon_id, captures) == entries_from(
            dungeon,
            dungeon_id,
            captures.take(k),
        ),
    decreases captures.len(),
{
    if k < captures.len() {
        assert(captures.drop_last().take(k) =~= captures.take(k));
        lemma_entries_end_persists(dungeon, dungeon_id, captures.drop_last(), k);
    } else {
        assert(captures.take(k) =~= captures);
    }
}

proof fn lemma_index_end_persists(entries: Seq<LeaderboardIndexEntry>, k: int)
    requires
        0 <= k <= entries.len(),
        !(index_outcome(entries.take(k)) is Done),
    ensures
        index_outcome(entries) == index_outcome(entries.take(k)),
    decreases entries.len(),
{
    if k < entries.len() {
        assert(entries.drop_last().take(k) =~= entries.take(k));
        lemma_index_end_persists(entries.drop_last(), k);
    } else {
        assert(entries.take(k) =~= entries);
    }
}

/// Reads one match of `LEADERBOARD_PATTERN` (see `entry_from_match`).
pub fn read_match(dungeon: Dungeon, dungeon_id: u32, row: &Vec<Option<String>>) -> (r: Outcome<
    LeaderboardEntry,
>)
    ensures
        r == entry_from_match(dungeon, dungeon_id, row.deep_view()),
{
    if row.len() < 1 {
        return Outcome::Stops;
    }
    let id_text = match &row[0] {
        Some(t) => t,
        None => {
            return Outcome::Stops;
        },
    };
    let linked_id = match parse_u32(id_text.as_str()) {
        Ok(n) => n,
        Err(e) => {
            return Outcome::Fails(FetchError::Number(e));
        },
    };
    if linked_id != dungeon_id {
        return Outcome::Stops;
    }
    if row.len() < 2 {
        return Outcome::Stops;
    }
    let period_text = match &row[1] {
        Some(t) => t,
        None => {
            return Outcome::Stops;
        },
    };
    match parse_u32(period_text.as_str()) {
        Ok(period) => Outcome::Done(LeaderboardEntry { dungeon_name: dungeon, dungeon_id, period }),
        Err(e) => Outcome::Fails(FetchError::Number(e)),
    }
}

/// Whether the processing of the matches `captures` for the leaderboard of
/// `dungeon` with identifier `dungeon_id` stops (see `entries_from`).
pub fn captures_stop(dungeon: Dungeon, dungeon_id: u32, captures: &Vec<Vec<Option<String>>>) -> (b:
    bool)
    ensures
        b == (entries_from(dungeon, dungeon_id, captures.deep_view()) is Stops),
{
    let ghost all = captures.deep_view();
    let mut i: usize = 0;
    while i < captures.len()
        invariant
            i <= captures@.len(),
            all == captures.deep_view(),
            entries_from(dungeon, dungeon_id, all.take(i as int)) is Done,
        decreases captures@.len() - i,
    {
        let ghost next = all.take(i + 1);
        assert(next.drop_last() =~= all.take(i as int));
        assert(next.last() == captures@[i as int].deep_view());
        match read_match(dungeon, dungeon_id, &captures[i]) {
            Outcome::Done(_) => {},
            Outcome::Fails(_) => {
                proof {
                    lemma_entries_end_persists(dungeon, dungeon_id, all, i + 1);
                }
                return false;
            },
            Outcome::Stops => {
                proof {
                    lemma_entries_end_persists(dungeon, dungeon_id, all, i + 1);
                }
                return true;
            },
        }
        i = i + 1;
    }
    assert(all.take(captures@.len() as int) =~= all);
    false
}

/// The leaderboard entries that the matches `captures` give for the
/// leaderboard of `dungeon` with identifier `dungeon_id` (see
/// `entries_from`), on matches whose processing does not stop.
pub fn entries_from_captures(
    dungeon: Dungeon,
    dungeon_id: u32,
    captures: &Vec<Vec<Option<String>>>,
) -> (r: Result<Vec<LeaderboardEntry>, FetchError>)
    requires
        !(entries_from(dungeon, dungeon_id, captures.deep_view()) is Stops),
    ensures
        match entries_from(dungeon, dungeon_id, captures.deep_view()) {
            Outcome::Done(entries) => r matches Ok(v) && v@ == entries,
            Outcome::Fails(e) => r == Err::<Vec<LeaderboardEntry>, FetchError>(e),
            Outcome::Stops => false,
        },
{
    let ghost all = captures.deep_view();
    let mut result: Vec<LeaderboardEntry> = Vec::new();
    let mut i: usize = 0;
    while i < captures.len()
        invariant
            i <= captures@.len(),
            all == captures.deep_view(),
            !(entries_from(dungeon, dungeon_id, all) is Stops),
            entries_from(dungeon, dungeon_id, all.take(i as int)) == Outcome::Done(result@),
        decreases captures@.len() - i,
    {
        let ghost next = all.take(i + 1);
        assert(next.drop_last() =~= all.take(i as int));
        assert(next.last() == captures@[i as int].deep_view());
        match read_match(dungeon, dungeon_id, &captures[i]) {
            Outcome::Done(entry) => {
                result.push(entry);
            },
            Outcome::Fails(e) => {
                proof {
                    lemma_entries_end_persists(dungeon, dungeon_id, all, i + 1);
                }
                return Err(e);
            },
            Outcome::Stops => {
                proof {
                    lemma_entries_end_persists(dungeon, dungeon_id, all, i + 1);
                }
                return Err(FetchError::MissingEntry);
            },
        }
        i = i + 1;
    }
    assert(all.take(captures@.len() as int) =~= all);
    Ok(result)
}

/// The leaderboards that a connected realm's leaderboard index lists, on an
/// index whose processing does not stop (see `index_outcome`).
pub fn leaderboard_entries(index: &LeaderboardIndex) -> (r: Result<Vec<LeaderboardEntry>, FetchError>)
    requires
        !(index_outcome(index.current_leaderboards@) is Stops),
    ensures
        match index_outcome(index.current_leaderboards@) {
            Outcome::Done(entries) => r matches Ok(v) && v@ == entries,
            Outcome::Fails(e) => r == Err::<Vec<LeaderboardEntry>, FetchError>(e),
            Outcome::Stops => false,
        },
{
    let ghost entries = index.current_leaderboards@;
    let groups: Vec<&str> = vec![DUNGEON_GROUP, PERIOD_GROUP];
    assert(groups.deep_view() =~= seq![DUNGEON_GROUP@, PERIOD_GROUP@]);
    let mut result: Vec<LeaderboardEntry> = Vec::new();
    let mut i: usize = 0;
    while i < index.current_leaderboards.len()
        invariant
            i <= entries.len(),
            entries == index.current_leaderboards@,
            !(index_outcome(entries) is Stops),
            groups.deep_view() == seq![DUNGEON_GROUP@, PERIOD_GROUP@],
            index_outcome(entries.take(i as int)) == Outcome::Done(result@),
        decreases entries.len() - i,
    {
        let entry = &index.current_leaderboards[i];
        let ghost next = entries.take(i + 1);
        assert(next.drop_last() =~= entries.take(i as int));
        let dungeon = match Dungeon::from_str(entry.name.as_str()) {
            Ok(d) => d,
            Err(_) => {
                proof {
                    lemma_index_end_persists(entries, i + 1);
                }
                return Err(FetchError::MissingEntry);
            },
        };
        let captures = match named_captures(LEADERBOARD_PATTERN, &groups, entry.key.href.as_str()) {
            Some(c) => c,
            None => {
                proof {
                    lemma_index_end_persists(entries, i + 1);
                }
                return Err(FetchError::MissingEntry);
            },
        };
        proof {
            if entries_from(dungeon, entry.id, captures.deep_view()) is Stops {
                lemma_index_end_persists(entries, i + 1);
            }
        }
        match entries_from_captures(dungeon, entry.id, &captures) {
            Ok(more) => {
                let mut more = more;
                result.append(&mut more);
            },
            Err(e) => {
                proof {
                    lemma_index_end_persists(entries, i + 1);
                }
                return Err(e);
            },
        }
        i = i + 1;
    }
    assert(entries.take(entries.len() as int) =~= entries);
    Ok(result)
}

/// Whether the processing of a leaderboard index stops (see
/// `index_outcome`): where a link's pattern does not compile, a match lacks
/// a group, or a link names another dungeon identifier than its entry,
/// before any failure.
pub fn leaderboard_index_stops(index: &LeaderboardIndex) -> (b: bool)
    ensures
        b == (index_outcome(index.current_leaderboards@) is Stops),
{
    let ghost entries = index.current_leaderboards@;
    let groups: Vec<&str> = vec![DUNGEON_GROUP, PERIOD_GROUP];
    assert(groups.deep_view() =~= seq![DUNGEON_GROUP@, PERIOD_GROUP@]);
    let ghost mut found: Seq<LeaderboardEntry> = seq![];
    let mut i: usize = 0;
    while i < index.current_leaderboards.len()
        invariant
            i <= entries.len(),
            entries == index.current_leaderboards@,
            groups.deep_view() == seq![DUNGEON_GROUP@, PERIOD_GROUP@],
            index_outcome(entries.take(i as int)) == Outcome::Done(found),
        decreases entries.len() - i,
    {
        let entry = &index.current_leaderboards[i];
        let ghost next = entries.take(i + 1);
        assert(next.drop_last() =~= entries.take(i as int));
        let dungeon = match Dungeon::from_str(entry.name.as_str()) {
            Ok(d) => d,
            Err(_) => {
                proof {
                    lemma_index_end_persists(entries, i + 1);
                }
                return false;
            },
        };
        let captures = match named_captures(LEADERBOARD_PATTERN, &groups, entry.key.href.as_str()) {
            Some(c) => c,
            None => {
                proof {
                    lemma_index_end_persists(entries, i + 1);
                }
                return true;
            },
        };
        if captures_stop(dungeon, entry.id, &captures) {
            proof {
                lemma_index_end_persists(entries, i + 1);
            }
            return true;
        }
        match entries_from_captures(dungeon, entry.id, &captures) {
            Ok(more) => {
                proof {
                    found = found + more@;
                }
            },
            Err(_) => {
                proof {
                    lemma_index_end_persists(entries, i + 1);
                }
                return false;
            },
        }
        i = i + 1;
    }
    assert(entries.take(entries.len() as int) =~= entries);
    false
}

/// The leaderboards that a connected realm's leaderboard index lists; `None`
/// where the processing of the index stops (see `index_outcome`).
pub fn try_leaderboard_entries(index: &LeaderboardIndex) -> (r: Option<
    Result<Vec<LeaderboardEntry>, FetchError>,
>)
    ensures
        match index_outcome(index.current_leaderboards@) {
            Outcome::Done(entries) => r matches Some(Ok(v)) && v@ == entries,
            Outcome::Fails(e) => r == Some(Err::<Vec<LeaderboardEntry>, FetchError>(e)),
            Outcome::Stops => r is None,
        },
{
    if leaderboard_index_stops(index) {
        None
    } else {
        Some(leaderboard_entries(index))
    }
}

/// Reading one more link: the realm identifiers of `hrefs` followed by
/// `href` are those of `hrefs` and then those of `href`'s matches, unless
/// an earlier link already failed or stopped; no links give no identifiers.
pub proof fn law_realm_links_step(hrefs: Seq<Href>, href: Href)
    ensures
        realm_ids_of(Seq::<Href>::empty()) == Outcome::<Seq<u32>>::Done(seq![]),
        realm_ids_of(hrefs.push(href)) == match realm_ids_of(hrefs) {
            Outcome::Done(ids) => match regex_named_captures(
                REALM_PATTERN@,
                seq![REALM_GROUP@],
                href.href@,
            ) {
                None => Outcome::Stops,
                Some(captures) => match realm_ids_in(captures) {
                    Ok(more) => Outcome::Done(ids + more),
                    Err(e) => Outcome::Fails(e),
                },
            },
            Outcome::Fails(e) => Outcome::Fails(e),
            Outcome::Stops => Outcome::Stops,
        },
{
    assert(hrefs.push(href).drop_last() =~= hrefs);
}

/// Reading one more match of the realm pattern: a match with the realm
/// group adds the number it holds (or fails on text that is not one), a
/// match without it adds nothing; no matches give no identifiers.
pub proof fn law_realm_matches_step(
    captures: Seq<Seq<Option<Seq<char>>>>,
    row: Seq<Option<Seq<char>>>,
)
    ensures
        realm_ids_in(Seq::<Seq<Option<Seq<char>>>>::empty()) == Ok::<Seq<u32>, FetchError>(seq![]),
        realm_ids_in(captures) is Ok && (row.len() == 0 || row[0] is None) ==> realm_ids_in(
            captures.push(row),
        ) == realm_ids_in(captures),
        realm_ids_in(captures) is Ok && row.len() > 0 && row[0] is Some ==> realm_ids_in(
            captures.push(row),
        ) == match parsed_u32(row[0]->Some_0) {
            Ok(n) => Ok::<Seq<u32>, FetchError>(realm_ids_in(captures)->Ok_0.push(n)),
            Err(e) => Err(FetchError::Number(e)),
        },
        realm_ids_in(captures) is Err ==> realm_ids_in(captures.push(row)) == realm_ids_in(
            captures,
        ),
{
    assert(captures.push(row).drop_last() =~= captures);
}

/// One match of the leaderboard pattern: with a dungeon identifier equal to
/// the entry's and a period, both numbers, it gives the entry with that
/// period; with another dungeon identifier, or a group missing, the
/// processing stops; text that is not a number fails.
pub proof fn law_entry_from_match(
    dungeon: Dungeon,
    dungeon_id: u32,
    id_text: Seq<char>,
    period_text: Seq<char>,
)
    ensures
        ({
            let row = seq![Some(id_text), Some(period_text)];
            &&& parsed_u32(id_text) == Ok::<u32, NumberError>(dungeon_id) ==> match parsed_u32(
                period_text,
            ) {
                Ok(period) => entry_from_match(dungeon, dungeon_id, row) == Outcome::Done(
                    LeaderboardEntry { dungeon_name: dungeon, dungeon_id, period },
                ),
                Err(e) => entry_from_match(dungeon, dungeon_id, row) == Outcome::<
                    LeaderboardEntry,
                >::Fails(FetchError::Number(e)),
            }
            &&& (parsed_u32(id_text) is Ok && parsed_u32(id_text)->Ok_0 != dungeon_id)
                ==> entry_from_match(dungeon, dungeon_id, row) == Outcome::<LeaderboardEntry>::Stops
            &&& parsed_u32(id_text) is Err ==> entry_from_match(dungeon, dungeon_id, row)
                == Outcome::<LeaderboardEntry>::Fails(FetchError::Number(parsed_u32(id_text)->Err_0))
            &&& entry_from_match(dungeon, dungeon_id, seq![None, Some(period_text)])
                == Outcome::<LeaderboardEntry>::Stops
            &&& parsed_u32(id_text) == Ok::<u32, NumberError>(dungeon_id) ==> entry_from_match(
                dungeon,
                dungeon_id,
                seq![Some(id_text), None],
            ) == Outcome::<LeaderboardEntry>::Stops
        }),
{
}

/// Reading one more match for a leaderboard: its entry follows those of the
/// matches before it, unless an earlier match already failed or stopped;
/// no matches give no entries.
pub proof fn law_entries_step(
    dungeon: Dungeon,
    dungeon_id: u32,
    captures: Seq<Seq<Option<Seq<char>>>>,
    row: Seq<Option<Seq<char>>>,
)
    ensures
        entries_from(dungeon, dungeon_id, Seq::<Seq<Option<Seq<char>>>>::empty())
            == Outcome::<Seq<LeaderboardEntry>>::Done(seq![]),
        entries_from(dungeon, dungeon_id, captures.push(row)) == match entries_from(
            dungeon,
            dungeon_id,
            captures,
        ) {
            Outcome::Done(entries) => match entry_from_match(dungeon, dungeon_id, row) {
                Outcome::Done(entry) => Outcome::Done(entries.push(entry)),
                Outcome::Fails(e) => Outcome::Fails(e),
                Outcome::Stops => Outcome::Stops,
            },
            Outcome::Fails(e) => Outcome::Fails(e),
            Outcome::Stops => Outcome::Stops,
        },
{
    assert(captures.push(row).drop_last() =~= captures);
}

/// One entry of a leaderboard index: an unknown dungeon name fails with
/// `MissingEntry`; otherwise the entry gives what the matches of the
/// leaderboard pattern in its link give for its dungeon and identifier, and
/// the processing stops where that pattern does not compile.
pub proof fn law_index_entry(entry: LeaderboardIndexEntry)
    ensures
        dungeon_named(entry.name@) is None ==> index_entry_outcome(entry) == Outcome::<
            Seq<LeaderboardEntry>,
        >::Fails(FetchError::MissingEntry),
        dungeon_named(entry.name@) matches Some(dungeon) ==> index_entry_outcome(entry)
            == match regex_named_captures(
            LEADERBOARD_PATTERN@,
            seq![DUNGEON_GROUP@, PERIOD_GROUP@],
            entry.key.href@,
        ) {
            None => Outcome::Stops,
            Some(captures) => entries_from(dungeon, entry.id, captures),
        },
{
}

/// Every entry of a leaderboard index is read, in order: the entries of an
/// index followed by `entry` are those of the index and then those of
/// `entry`, unless an earlier entry already failed or stopped; an empty index
/// gives no entries.
pub proof fn law_index_step(entries: Seq<LeaderboardIndexEntry>, entry: LeaderboardIndexEntry)
    ensures
        index_outcome(Seq::<LeaderboardIndexEntry>::empty()) == Outcome::<
            Seq<LeaderboardEntry>,
        >::Done(seq![]),
        index_outcome(entries.push(entry)) == match index_outcome(entries) {
            Outcome::Done(found) => match index_entry_outcome(entry) {
                Outcome::Done(more) => Outcome::Done(found + more),
                Outcome::Fails(e) => Outcome::Fails(e),
                Outcome::Stops => Outcome::Stops,
            },
            Outcome::Fails(e) => Outcome::Fails(e),
            Outcome::Stops => Outcome::Stops,
        },
{
    assert(entries.push(entry).drop_last() =~= entries);
}

} // verus!
