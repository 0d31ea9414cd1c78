//! Implementation for the GetUserStatsForGame endpoint

use vstd::prelude::*;
use crate::client::{
    classification, classify_response, has_other_status, has_status, params_view, HttpOutcome,
    QueryValue, QueryValueView, SteamClient, SteamRequest,
};
use crate::errors::{RequestFailure, SteamError};
use crate::json::{
    array_member, decode_each, envelope_payload, integer_of, items_of, lemma_decode_each_fails,
    lemma_decode_each_holds, member, open_envelope, text_member, text_of, unsigned_member, within,
    Json,
};

verus! {

/// The Steam API "GetUserStatsForGame (v0002) endpoint
pub const ENDPOINT_USER_STATS_FOR_GAME: &'static str =
    "https://api.steampowered.com/ISteamUserStats/GetUserStatsForGame/v0002";

/// A single achievement.
#[derive(Debug)]
pub struct Achievement {
    /// Name of the achievement.
    pub name: String,
}

impl View for Achievement {
    /// The name.
    type V = Seq<char>;

    open spec fn view(&self) -> Seq<char> {
        self.name@
    }
}

/// A stat.
#[derive(Debug)]
pub struct Stat {
    /// Name of the stat.
    pub name: String,
    /// Value of the stat.
    pub value: u16,
}

/// A stat, as the contracts see it.
pub struct StatView {
    pub name: Seq<char>,
    pub value: u16,
}

impl View for Stat {
    type V = StatView;

    open spec fn view(&self) -> StatView {
        StatView { name: self.name@, value: self.value }
    }
}

/// The views of a list of achievements.
pub open spec fn achievements_view(a: Seq<Achievement>) -> Seq<Seq<char>> {
    a.map_values(|x: Achievement| x@)
}

/// The views of a list of stats.
pub open spec fn stats_view(s: Seq<Stat>) -> Seq<StatView> {
    s.map_values(|x: Stat| x@)
}

/// This struct holds the player statistics.
#[derive(Debug)]
pub struct PlayerStats {
    /// Name of the game
    pub game_name: String,
    /// List of achievements
    pub achievements: Vec<Achievement>,
    /// List of other stats
    pub stats: Vec<Stat>,
}

/// A player's stats, as the contracts see them.
pub struct PlayerStatsView {
    pub game_name: Seq<char>,
    pub achievements: Seq<Seq<char>>,
    pub stats: Seq<StatView>,
}

impl View for PlayerStats {
    type V = PlayerStatsView;

    open spec fn view(&self) -> PlayerStatsView {
        PlayerStatsView {
            game_name: self.game_name@,
            achievements: achievements_view(self.achievements@),
            stats: stats_view(self.stats@),
        }
    }
}

/// The view of stats with no game name, no achievements and no stats.
pub open spec fn empty_player_stats() -> PlayerStatsView {
    PlayerStatsView { game_name: Seq::empty(), achievements: Seq::empty(), stats: Seq::empty() }
}

impl Default for PlayerStats {
    fn default() -> (r: Self)
        ensures
            r@ == empty_player_stats(),
    {
        let r = PlayerStats { game_name: String::new(), achievements: Vec::new(), stats: Vec::new() };
        assert(achievements_view(r.achievements@) =~= Seq::<Seq<char>>::empty());
        assert(stats_view(r.stats@) =~= Seq::<StatView>::empty());
        r
    }
}

/// An achievement as its JSON object gives it: its "name".
pub open spec fn achievement_of(j: Json) -> Option<Seq<char>> {
    text_of(member(j, "name"@))
}

/// A stat as its JSON object gives it: "name" and "value".
pub open spec fn stat_of(j: Json) -> Option<StatView> {
    match (text_of(member(j, "name"@)), within(integer_of(member(j, "value"@)), 0, u16::MAX as int)) {
        (Some(name), Some(value)) => Some(StatView { name, value: value as u16 }),
        _ => None,
    }
}

/// A JSON array of achievements.
pub open spec fn achievements_of(items: Seq<Json>) -> Option<Seq<Seq<char>>> {
    decode_each(items, |j: Json| achievement_of(j))
}

/// A JSON array of stats.
pub open spec fn stats_of(items: Seq<Json>) -> Option<Seq<StatView>> {
    decode_each(items, |j: Json| stat_of(j))
}

/// The stats in a "playerstats" payload: "gameName", "achievements" and "stats".
pub open spec fn player_stats_of(p: Json) -> Option<PlayerStatsView> {
    match (
        text_of(member(p, "gameName"@)),
        items_of(member(p, "achievements"@)),
        items_of(member(p, "stats"@)),
    ) {
        (Some(game_name), Some(a), Some(s)) => match (achievements_of(a), stats_of(s)) {
            (Some(achievements), Some(stats)) => Some(
                PlayerStatsView { game_name, achievements, stats },
            ),
            _ => None,
        },
        _ => None,
    }
}

/// What a GetUserStatsForGame document says: the stats in its "playerstats"
/// envelope; empty ones where that payload is absent or null; NoData where the
/// document has another shape.
pub open spec fn player_stats_answer(j: Json) -> Result<PlayerStatsView, SteamError> {
    match envelope_payload(j, "playerstats"@) {
        None => Err(SteamError::NoData),
        Some(None) => Ok(empty_player_stats()),
        Some(Some(p)) => match player_stats_of(p) {
            Some(v) => Ok(v),
            None => Err(SteamError::NoData),
        },
    }
}

/// What a GetUserStatsForGame request came to.
pub open spec fn player_stats_response(outcome: HttpOutcome) -> Result<PlayerStatsView, SteamError> {
    match classification(outcome) {
        Ok(j) => player_stats_answer(j),
        Err(e) => Err(e),
    }
}

fn decode_achievements(items: &Vec<Json>) -> (r: Option<Vec<Achievement>>)
    ensures
        match r {
            Some(v) => achievements_of(items@) == Some(achievements_view(v@)),
            None => achievements_of(items@) is None,
        },
{
    let mut out: Vec<Achievement> = Vec::new();
    let mut i: usize = 0;
    while i < items.len()
        invariant
            i <= items@.len(),
            out@.len() == i,
            forall|k: int| 0 <= k < i ==> achievement_of(items@[k]) == Some(#[trigger] out@[k]@),
        decreases items@.len() - i,
    {
        match text_member(&items[i], "name") {
            Some(name) => out.push(Achievement { name }),
            None => {
                proof {
                    lemma_decode_each_fails(items@, |j: Json| achievement_of(j), i as int);
                }
                return None;
            },
        }
        i = i + 1;
    }
    proof {
        lemma_decode_each_holds(items@, |j: Json| achievement_of(j), achievements_view(out@));
    }
    Some(out)
}

fn decode_stat(j: &Json) -> (r: Option<Stat>)
    ensures
        match r {
            Some(s) => stat_of(*j) == Some(s@),
            None => stat_of(*j) is None,
        },
{
    let name = match text_member(j, "name") {
        Some(s) => s,
        None => return None,
    };
    let value = match unsigned_member(j, "value", u16::MAX as u64) {
        Some(n) => n as u16,
        None => return None,
    };
    Some(Stat { name, value })
}

fn decode_stats(items: &Vec<Json>) -> (r: Option<Vec<Stat>>)
    ensures
        match r {
            Some(v) => stats_of(items@) == Some(stats_view(v@)),
            None => stats_of(items@) is None,
        },
{
    let mut out: Vec<Stat> = Vec::new();
    let mut i: usize = 0;
    while i < items.len()
        invariant
            i <= items@.len(),
            out@.len() == i,
            forall|k: int| 0 <= k < i ==> stat_of(items@[k]) == Some(#[trigger] out@[k]@),
        decreases items@.len() - i,
    {
        match decode_stat(&items[i]) {
            Some(s) => out.push(s),
            None => {
                proof {
                    lemma_decode_each_fails(items@, |j: Json| stat_of(j), i as int);
                }
                return None;
            },
        }
        i = i + 1;
    }
    proof {
        lemma_decode_each_holds(items@, |j: Json| stat_of(j), stats_view(out@));
    }
    Some(out)
}

/// Reads a GetUserStatsForGame document: the stats in its "playerstats"
/// envelope, empty ones where that payload is absent or null.
pub fn player_stats_from_json(j: &Json) -> (r: Result<PlayerStats, SteamError>)
    ensures
        match r {
            Ok(stats) => player_stats_answer(*j) == Ok::<PlayerStatsView, SteamError>(stats@),
            Err(e) => player_stats_answer(*j) == Err::<PlayerStatsView, SteamError>(e),
        },
        envelope_payload(*j, "playerstats"@) == Some(None::<Json>) ==> (r matches Ok(stats)
            && stats@ == empty_player_stats()),
{
    match open_envelope(j, "playerstats") {
        None => Err(SteamError::NoData),
        Some(None) => Ok(PlayerStats::default()),
        Some(Some(p)) => {
            let game_name = match text_member(p, "gameName") {
                Some(s) => s,
                None => return Err(SteamError::NoData),
            };
            let a = match array_member(p, "achievements") {
                Some(items) => items,
                None => return Err(SteamError::NoData),
            };
            let s = match array_member(p, "stats") {
                Some(items) => items,
                None => return Err(SteamError::NoData),
            };
            let achievements = match decode_achievements(a) {
                Some(v) => v,
                None => return Err(SteamError::NoData),
            };
            match decode_stats(s) {
                Some(stats) => Ok(PlayerStats { game_name, achievements, stats }),
                None => Err(SteamError::NoData),
            }
        },
    }
}

impl SteamClient {
    /// The GetUserStatsForGame request for the stats of `steam_id` in `app_id`.
    pub fn player_stats_request(&self, steam_id: &str, app_id: &str) -> (r: SteamRequest)
        ensures
            r.endpoint@ == ENDPOINT_USER_STATS_FOR_GAME@,
            r.query_view() == seq![
                ("key"@, QueryValueView::Text(self@)),
                ("steamid"@, QueryValueView::Text(steam_id@)),
                ("appid"@, QueryValueView::Text(app_id@)),
            ],
    {
        let params = vec![
            ("steamid".to_owned(), QueryValue::Text(steam_id.to_owned())),
            ("appid".to_owned(), QueryValue::Text(app_id.to_owned())),
        ];
        let ghost p = params@;
        let r = self.build_request(ENDPOINT_USER_STATS_FOR_GAME, params);
        assert(params_view(p) =~= seq![
            ("steamid"@, QueryValueView::Text(steam_id@)),
            ("appid"@, QueryValueView::Text(app_id@)),
        ]);
        assert(r.query_view() =~= seq![
            ("key"@, QueryValueView::Text(self@)),
            ("steamid"@, QueryValueView::Text(steam_id@)),
            ("appid"@, QueryValueView::Text(app_id@)),
        ]);
        r
    }
}

/// Gets the stats that a GetUserStatsForGame request came to.
pub fn player_stats_from_response(outcome: &HttpOutcome) -> (r: Result<PlayerStats, SteamError>)
    ensures
        match r {
            Ok(stats) => player_stats_response(*outcome) == Ok::<PlayerStatsView, SteamError>(
                stats@,
            ),
            Err(e) => player_stats_response(*outcome) == Err::<PlayerStatsView, SteamError>(e),
        },
        has_status(*outcome, 401) ==> r == Err::<PlayerStats, SteamError>(
            SteamError::Unauthorized,
        ),
        has_other_status(*outcome) ==> r matches Err(SteamError::FailedRequest(
            RequestFailure::Status(_),
        )),
{
    match classify_response(outcome) {
        Ok(j) => player_stats_from_json(&j),
        Err(e) => Err(e),
    }
}

} // verus!
