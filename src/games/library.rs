//! This module deals with a user's games library.

use vstd::prelude::*;
use crate::client::{
    classification, classify_response, has_other_status, has_status, params_view, HttpOutcome,
    QueryValue, QueryValueView, SteamClient, SteamRequest,
};
use crate::errors::{RequestFailure, SteamError};
use crate::json::{
    array_member, decode_each, envelope_payload, integer_of, items_of, lemma_decode_each_fails,
    lemma_decode_each_holds, member, open_envelope, text_member, text_of, unsigned_member, within,
    Json,
};

verus! {

/// The Steam API "GetOwnedGames (v0001)" endpoint
pub const ENDPOINT_OWNED_GAMES: &'static str =
    "https://api.steampowered.com/IPlayerService/GetOwnedGames/v0001";

/// Represents a game and its metadata.
#[derive(Debug)]
pub struct Game {
    /// Game ID
    pub app_id: u64,
    /// Name of the game
    pub name: String,
    /// Total playtime in minutes
    pub playtime_forever: u64,
    /// Playtime in minutes on Windows
    pub playtime_windows_forever: u64,
    /// Playtime in minutes on Mac
    pub playtime_mac_forever: u64,
    /// Playtime in minutes on Linux
    pub playtime_linux_forever: u64,
}

/// A game, as the contracts see it.
pub struct GameView {
    pub app_id: u64,
    pub name: Seq<char>,
    pub playtime_forever: u64,
    pub playtime_windows_forever: u64,
    pub playtime_mac_forever: u64,
    pub playtime_linux_forever: u64,
}

impl View for Game {
    type V = GameView;

    open spec fn view(&self) -> GameView {
        GameView {
            app_id: self.app_id,
            name: self.name@,
            playtime_forever: self.playtime_forever,
            playtime_windows_forever: self.playtime_windows_forever,
            playtime_mac_forever: self.playtime_mac_forever,
            playtime_linux_forever: self.playtime_linux_forever,
        }
    }
}

/// Two games are equal exactly when their app IDs are.
impl PartialEq for Game {
    fn eq(&self, other: &Game) -> (r: bool)
        ensures
            r == (self.app_id == other.app_id),
    {
        self.app_id == other.app_id
    }
}

impl vstd::std_specs::cmp::PartialEqSpecImpl for Game {
    open spec fn obeys_eq_spec() -> bool {
        true
    }

    open spec fn eq_spec(&self, other: &Game) -> bool {
        self.app_id == other.app_id
    }
}

impl Default for Game {
    /// A placeholder game: app ID 0, named "default", never played.
    fn default() -> (r: Self)
        ensures
            r.app_id == 0,
            r.name@ == "default"@,
            r.playtime_forever == 0,
            r.playtime_windows_forever == 0,
            r.playtime_mac_forever == 0,
            r.playtime_linux_forever == 0,
    {
        Game {
            app_id: 0,
            name: "default".to_owned(),
            playtime_forever: 0,
            playtime_windows_forever: 0,
            playtime_mac_forever: 0,
            playtime_linux_forever: 0,
        }
    }
}

/// The views of a list of games.
pub open spec fn games_view(games: Seq<Game>) -> Seq<GameView> {
    games.map_values(|g: Game| g@)
}

/// This is the response that comes from the GetOwnedGames API.
#[derive(Debug)]
pub struct Library {
    /// Number of games in a user's library
    pub game_count: u32,
    /// List of [`Game`]s in a user's library
    pub games: Vec<Game>,
}

/// The games that a user owns.
pub type OwnedGames = Library;

/// A library, as the contracts see it.
pub struct LibraryView {
    pub game_count: u32,
    pub games: Seq<GameView>,
}

impl View for Library {
    type V = LibraryView;

    open spec fn view(&self) -> LibraryView {
        LibraryView { game_count: self.game_count, games: games_view(self.games@) }
    }
}

impl Default for Library {
    fn default() -> (r: Self)
        ensures
            r@ == (LibraryView { game_count: 0, games: Seq::empty() }),
    {
        let r = Library { game_count: 0, games: Vec::new() };
        assert(games_view(r.games@) =~= Seq::<GameView>::empty());
        r
    }
}

/// A non-negative integer member of at most 64 bits.
pub open spec fn u64_member(j: Json, key: Seq<char>) -> Option<int> {
    within(integer_of(member(j, key)), 0, u64::MAX as int)
}

/// A game as its JSON object gives it: "appid" is the app ID, "name" the
/// name, and the playtimes stand under their own names.
pub open spec fn game_of(j: Json) -> Option<GameView> {
    match (
        u64_member(j, "appid"@),
        text_of(member(j, "name"@)),
        u64_member(j, "playtime_forever"@),
        u64_member(j, "playtime_windows_forever"@),
        u64_member(j, "playtime_mac_forever"@),
        u64_member(j, "playtime_linux_forever"@),
    ) {
        (Some(app_id), Some(name), Some(total), Some(windows), Some(mac), Some(linux)) => Some(
            GameView {
                app_id: app_id as u64,
                name,
                playtime_forever: total as u64,
                playtime_windows_forever: windows as u64,
                playtime_mac_forever: mac as u64,
                playtime_linux_forever: linux as u64,
            },
        ),
        _ => None,
    }
}

/// A JSON array of games.
pub open spec fn games_of(items: Seq<Json>) -> Option<Seq<GameView>> {
    decode_each(items, |j: Json| game_of(j))
}

/// The library in a "response" payload: "game_count" and "games".
pub open spec fn library_of(p: Json) -> Option<LibraryView> {
    match (within(integer_of(member(p, "game_count"@)), 0, u32::MAX as int), items_of(member(p, "games"@))) {
        (Some(count), Some(items)) => match games_of(items) {
            Some(games) => Some(LibraryView { game_count: count as u32, games }),
            None => None,
        },
        _ => None,
    }
}

/// What a GetOwnedGames document says: the library in its "response"
/// envelope; an empty one where that payload is absent or null; NoData where
/// the document has another shape.
pub open spec fn library_answer(j: Json) -> Result<LibraryView, SteamError> {
    match envelope_payload(j, "response"@) {
        None => Err(SteamError::NoData),
        Some(None) => Ok(LibraryView { game_count: 0, games: Seq::empty() }),
        Some(Some(p)) => match library_of(p) {
            Some(v) => Ok(v),
            None => Err(SteamError::NoData),
        },
    }
}

/// What a GetOwnedGames request came to.
pub open spec fn library_response(outcome: HttpOutcome) -> Result<LibraryView, SteamError> {
    match classification(outcome) {
        Ok(j) => library_answer(j),
        Err(e) => Err(e),
    }
}

fn decode_game(j: &Json) -> (r: Option<Game>)
    ensures
        match r {
            Some(g) => game_of(*j) == Some(g@),
            None => game_of(*j) is None,
        },
{
    let app_id = match unsigned_member(j, "appid", u64::MAX) {
        Some(n) => n,
        None => return None,
    };
    let name = match text_member(j, "name") {
        Some(s) => s,
        None => return None,
    };
    let playtime_forever = match unsigned_member(j, "playtime_forever", u64::MAX) {
        Some(n) => n,
        None => return None,
    };
    let playtime_windows_forever = match unsigned_member(j, "playtime_windows_forever", u64::MAX) {
        Some(n) => n,
        None => return None,
    };
    let playtime_mac_forever = match unsigned_member(j, "playtime_mac_forever", u64::MAX) {
        Some(n) => n,
        None => return None,
    };
    let playtime_linux_forever = match unsigned_member(j, "playtime_linux_forever", u64::MAX) {
        Some(n) => n,
        None => return None,
    };
    Some(
        Game {
            app_id,
            name,
            playtime_forever,
            playtime_windows_forever,
            playtime_mac_forever,
            playtime_linux_forever,
        },
    )
}

fn decode_games(items: &Vec<Json>) -> (r: Option<Vec<Game>>)
    ensures
        match r {
            Some(v) => games_of(items@) == Some(games_view(v@)),
            None => games_of(items@) is None,
        },
{
    let mut games: Vec<Game> = Vec::new();
    let mut i: usize = 0;
    while i < items.len()
        invariant
            i <= items@.len(),
            games@.len() == i,
            forall|k: int| 0 <= k < i ==> game_of(items@[k]) == Some(#[trigger] games@[k]@),
        decreases items@.len() - i,
    {
        match decode_game(&items[i]) {
            Some(g) => games.push(g),
            None => {
                proof {
                    lemma_decode_each_fails(items@, |j: Json| game_of(j), i as int);
                }
                return None;
            },
        }
        i = i + 1;
    }
    proof {
        lemma_decode_each_holds(items@, |j: Json| game_of(j), games_view(games@));
    }
    Some(games)
}

/// Reads a GetOwnedGames document: the library in its "response" envelope,
/// an empty one where that payload is absent or null.
pub fn library_from_json(j: &Json) -> (r: Result<Library, SteamError>)
    ensures
        match r {
            Ok(lib) => library_answer(*j) == Ok::<LibraryView, SteamError>(lib@),
            Err(e) => library_answer(*j) == Err::<LibraryView, SteamError>(e),
        },
        envelope_payload(*j, "response"@) == Some(None::<Json>) ==> (r matches Ok(lib)
            && lib@ == (LibraryView { game_count: 0, games: Seq::empty() })),
{
    match open_envelope(j, "response") {
        None => Err(SteamError::NoData),
        Some(None) => Ok(Library::default()),
        Some(Some(p)) => {
            let game_count = match unsigned_member(p, "game_count", u32::MAX as u64) {
                Some(n) => n as u32,
                None => return Err(SteamError::NoData),
            };
            match array_member(p, "games") {
                Some(items) => match decode_games(items) {
                    Some(games) => Ok(Library { game_count, games }),
                    None => Err(SteamError::NoData),
                },
                None => Err(SteamError::NoData),
            }
        },
    }
}

impl SteamClient {
    /// The GetOwnedGames request for the games of `steam_id`, with app info
    /// and played free games included.
    pub fn library_request(&self, steam_id: &str) -> (r: SteamRequest)
        ensures
            r.endpoint@ == ENDPOINT_OWNED_GAMES@,
            r.query_view() == seq![
                ("key"@, QueryValueView::Text(self@)),
                ("steamid"@, QueryValueView::Text(steam_id@)),
                ("include_appInfo"@, QueryValueView::Text("true"@)),
                ("include_played_free_games"@, QueryValueView::Text("true"@)),
            ],
    {
        let params = vec![
            ("steamid".to_owned(), QueryValue::Text(steam_id.to_owned())),
            ("include_appInfo".to_owned(), QueryValue::Text("true".to_owned())),
            ("include_played_free_games".to_owned(), QueryValue::Text("true".to_owned())),
        ];
        let ghost p = params@;
        let r = self.build_request(ENDPOINT_OWNED_GAMES, params);
        assert(params_view(p) =~= seq![
            ("steamid"@, QueryValueView::Text(steam_id@)),
            ("include_appInfo"@, QueryValueView::Text("true"@)),
            ("include_played_free_games"@, QueryValueView::Text("true"@)),
        ]);
        assert(r.query_view() =~= seq![
            ("key"@, QueryValueView::Text(self@)),
            ("steamid"@, QueryValueView::Text(steam_id@)),
            ("include_appInfo"@, QueryValueView::Text("true"@)),
            ("include_played_free_games"@, QueryValueView::Text("true"@)),
        ]);
        r
    }
}

/// Gets the library that a GetOwnedGames request came to.
pub fn library_from_response(outcome: &HttpOutcome) -> (r: Result<Library, SteamError>)
    ensures
        match r {
            Ok(lib) => library_response(*outcome) == Ok::<LibraryView, SteamError>(lib@),
            Err(e) => library_response(*outcome) == Err::<LibraryView, SteamError>(e),
        },
        has_status(*outcome, 401) ==> r == Err::<Library, SteamError>(SteamError::Unauthorized),
        has_other_status(*outcome) ==> r matches Err(SteamError::FailedRequest(
            RequestFailure::Status(_),
        )),
{
    match classify_response(outcome) {
        Ok(j) => library_from_json(&j),
        Err(e) => Err(e),
    }
}

} // verus!
