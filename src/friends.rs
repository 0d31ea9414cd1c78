//! Functionality dealing with an account's friends

use vstd::prelude::*;
use crate::client::{
    classification, classify_response, has_other_status, has_status, params_view, HttpOutcome,
    QueryValue, QueryValueView, SteamClient, SteamRequest,
};
use crate::errors::{RequestFailure, SteamError};
use crate::json::{
    decode_each, envelope_payload, integer_of, items_of, lemma_decode_each_fails,
    lemma_decode_each_holds, member, open_envelope, array_member, signed_member, text_member,
    text_of, within, Json,
};

verus! {

/// The "GetFriendList (v0001)" endpoint
pub const ENDPOINT_GET_FRIENDLIST: &'static str =
    "https://api.steampowered.com/ISteamUser/GetFriendList/v0001";

/// Enumeration of possible relationship qualifiers.
#[derive(Debug, Clone, Copy, PartialEq, Eq, Structural)]
#[non_exhaustive]
pub enum SteamRelationship {
    /// You are friends with that person
    Friend,
}

/// Represents a Steam friend and its metadata
#[derive(Debug, PartialEq)]
pub struct Friend {
    /// The friend's Steam ID
    pub steam_id: String,
    /// The relationship you have with the Steam user
    pub relationship: SteamRelationship,
    /// Unix timestamp of the time when the relationship was created.
    pub friend_since: i64,
}

/// A friend, as the contracts see it.
pub struct FriendView {
    pub steam_id: Seq<char>,
    pub relationship: SteamRelationship,
    pub friend_since: i64,
}

impl View for Friend {
    type V = FriendView;

    open spec fn view(&self) -> FriendView {
        FriendView {
            steam_id: self.steam_id@,
            relationship: self.relationship,
            friend_since: self.friend_since,
        }
    }
}

/// The views of a list of friends.
pub open spec fn friends_view(friends: Seq<Friend>) -> Seq<FriendView> {
    friends.map_values(|f: Friend| f@)
}

/// This is the response that comes from the GetFriendList API.
#[derive(Debug)]
pub struct FriendsList {
    /// A list of [`Friend`]s
    pub friends: Vec<Friend>,
}

impl View for FriendsList {
    type V = Seq<FriendView>;

    open spec fn view(&self) -> Seq<FriendView> {
        friends_view(self.friends@)
    }
}

impl Default for FriendsList {
    fn default() -> (r: Self)
        ensures
            r@ == Seq::<FriendView>::empty(),
    {
        FriendsList { friends: Vec::new() }
    }
}

/// The relationship that a string value names: only "friend" is known.
pub open spec fn relationship_of(v: Option<Json>) -> Option<SteamRelationship> {
    if text_of(v) == Some("friend"@) {
        Some(SteamRelationship::Friend)
    } else {
        None
    }
}

/// A friend as its JSON object gives it: "steamid" is the Steam ID,
/// "relationship" the relationship, "friend_since" the timestamp.
pub open spec fn friend_of(j: Json) -> Option<FriendView> {
    match (
        text_of(member(j, "steamid"@)),
        relationship_of(member(j, "relationship"@)),
        within(integer_of(member(j, "friend_since"@)), i64::MIN as int, i64::MAX as int),
    ) {
        (Some(steam_id), Some(relationship), Some(since)) => Some(
            FriendView { steam_id, relationship, friend_since: since as i64 },
        ),
        _ => None,
    }
}

/// A JSON array of friends.
pub open spec fn friends_of(items: Seq<Json>) -> Option<Seq<FriendView>> {
    decode_each(items, |j: Json| friend_of(j))
}

/// The friends in a "friendslist" payload: its member "friends".
pub open spec fn friends_list_of(p: Json) -> Option<Seq<FriendView>> {
    match items_of(member(p, "friends"@)) {
        Some(items) => friends_of(items),
        None => None,
    }
}

/// What a GetFriendList document says: the friends in its "friendslist"
/// envelope; none where that payload is absent or null; NoData where the
/// document has another shape.
pub open spec fn friends_answer(j: Json) -> Result<Seq<FriendView>, SteamError> {
    match envelope_payload(j, "friendslist"@) {
        None => Err(SteamError::NoData),
        Some(None) => Ok(Seq::empty()),
        Some(Some(p)) => match friends_list_of(p) {
            Some(v) => Ok(v),
            None => Err(SteamError::NoData),
        },
    }
}

/// What a GetFriendList request came to.
pub open spec fn friends_response(outcome: HttpOutcome) -> Result<Seq<FriendView>, SteamError> {
    match classification(outcome) {
        Ok(j) => friends_answer(j),
        Err(e) => Err(e),
    }
}

fn relationship_member(j: &Json, key: &str) -> (r: Option<SteamRelationship>)
    ensures
        r == relationship_of(member(*j, key@)),
{
    match text_member(j, key) {
        Some(s) => {
            if s == "friend".to_owned() {
                Some(SteamRelationship::Friend)
            } else {
                None
            }
        },
        None => None,
    }
}

fn decode_friend(j: &Json) -> (r: Option<Friend>)
    ensures
        match r {
            Some(f) => friend_of(*j) == Some(f@),
            None => friend_of(*j) is None,
        },
{
    let steam_id = match text_member(j, "steamid") {
        Some(s) => s,
        None => return None,
    };
    let relationship = match relationship_member(j, "relationship") {
        Some(r) => r,
        None => return None,
    };
    let friend_since = match signed_member(j, "friend_since", i64::MIN, i64::MAX) {
        Some(n) => n,
        None => return None,
    };
    Some(Friend { steam_id, relationship, friend_since })
}

fn decode_friends(items: &Vec<Json>) -> (r: Option<Vec<Friend>>)
    ensures
        match r {
            Some(v) => friends_of(items@) == Some(friends_view(v@)),
            None => friends_of(items@) is None,
        },
{
    let mut friends: Vec<Friend> = Vec::new();
    let mut i: usize = 0;
    while i < items.len()
        invariant
            i <= items@.len(),
            friends@.len() == i,
            forall|k: int| 0 <= k < i ==> friend_of(items@[k]) == Some(#[trigger] friends@[k]@),
        decreases items@.len() - i,
    {
        match decode_friend(&items[i]) {
            Some(f) => friends.push(f),
            None => {
                proof {
                    lemma_decode_each_fails(items@, |j: Json| friend_of(j), i as int);
                }
                return None;
            },
        }
        i = i + 1;
    }
    proof {
        lemma_decode_each_holds(items@, |j: Json| friend_of(j), friends_view(friends@));
    }
    Some(friends)
}

/// Reads a GetFriendList document: the friends in its "friendslist" envelope,
/// none where that payload is absent or null.
pub fn friends_from_json(j: &Json) -> (r: Result<FriendsList, SteamError>)
    ensures
        match r {
            Ok(list) => friends_answer(*j) == Ok::<Seq<FriendView>, SteamError>(list@),
            Err(e) => friends_answer(*j) == Err::<Seq<FriendView>, SteamError>(e),
        },
        envelope_payload(*j, "friendslist"@) == Some(None::<Json>) ==> (r matches Ok(list)
            && list@ == Seq::<FriendView>::empty()),
{
    match open_envelope(j, "friendslist") {
        None => Err(SteamError::NoData),
        Some(None) => Ok(FriendsList::default()),
        Some(Some(p)) => match array_member(p, "friends") {
            Some(items) => match decode_friends(items) {
                Some(friends) => Ok(FriendsList { friends }),
                None => Err(SteamError::NoData),
            },
            None => Err(SteamError::NoData),
        },
    }
}

impl SteamClient {
    /// The GetFriendList request for the friends of `steam_id`.
    pub fn friends_request(&self, steam_id: &str) -> (r: SteamRequest)
        ensures
            r.endpoint@ == ENDPOINT_GET_FRIENDLIST@,
            r.query_view() == seq![
                ("key"@, QueryValueView::Text(self@)),
                ("steamid"@, QueryValueView::Text(steam_id@)),
                ("relationship"@, QueryValueView::Text("friend"@)),
            ],
    {
        let params = vec![
            ("steamid".to_owned(), QueryValue::Text(steam_id.to_owned())),
            ("relationship".to_owned(), QueryValue::Text("friend".to_owned())),
        ];
        let ghost p = params@;
        let r = self.build_request(ENDPOINT_GET_FRIENDLIST, params);
        assert(params_view(p) =~= seq![
            ("steamid"@, QueryValueView::Text(steam_id@)),
            ("relationship"@, QueryValueView::Text("friend"@)),
        ]);
        assert(r.query_view() =~= seq![
            ("key"@, QueryValueView::Text(self@)),
            ("steamid"@, QueryValueView::Text(steam_id@)),
            ("relationship"@, QueryValueView::Text("friend"@)),
        ]);
        r
    }
}

/// Gets the friends that a GetFriendList request came to.
pub fn friends_from_response(outcome: &HttpOutcome) -> (r: Result<Vec<Friend>, SteamError>)
    ensures
        match r {
            Ok(v) => friends_response(*outcome) == Ok::<Seq<FriendView>, SteamError>(
                friends_view(v@),
            ),
            Err(e) => friends_response(*outcome) == Err::<Seq<FriendView>, SteamError>(e),
        },
        has_status(*outcome, 401) ==> r == Err::<Vec<Friend>, SteamError>(
            SteamError::Unauthorized,
        ),
        has_other_status(*outcome) ==> r matches Err(SteamError::FailedRequest(
            RequestFailure::Status(_),
        )),
{
    match classify_response(outcome) {
        Ok(j) => match friends_from_json(&j) {
            Ok(list) => Ok(list.friends),
            Err(e) => Err(e),
        },
        Err(e) => Err(e),
    }
}

} // verus!
