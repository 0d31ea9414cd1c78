//! Apps on Steam and news about them.

use vstd::prelude::*;
use crate::client::{
    classification, classify_response, has_other_status, has_status, params_view, HttpOutcome,
    QueryValue, QueryValueView, SteamClient, SteamRequest,
};
use crate::errors::{RequestFailure, SteamError};
use crate::json::{
    array_member, decode_each, envelope_payload, integer_of, items_of, lemma_decode_each_fails,
    lemma_decode_each_holds, member, open_envelope, signed_member, text_member, text_of, within,
    Json,
};

verus! {

/// The Steam API "GetNewsForApp (v0002)" endpoint
pub const ENDPOINT_GAME_NEWS: &'static str =
    "https://api.steampowered.com/ISteamNews/GetNewsForApp/v0002";

/// A Steam news object
#[derive(Debug)]
pub struct News {
    /// News ID
    pub news_id: String,
    /// Title
    pub title: String,
    /// URL
    pub url: String,
    /// News author
    pub author: String,
    /// News content
    pub contents: String,
    /// Date as UNIX timestamp
    pub date: i64,
    /// Name of the feed
    pub feed_name: String,
}

/// A news article, as the contracts see it.
pub struct NewsView {
    pub news_id: Seq<char>,
    pub title: Seq<char>,
    pub url: Seq<char>,
    pub author: Seq<char>,
    pub contents: Seq<char>,
    pub date: i64,
    pub feed_name: Seq<char>,
}

impl View for News {
    type V = NewsView;

    open spec fn view(&self) -> NewsView {
        NewsView {
            news_id: self.news_id@,
            title: self.title@,
            url: self.url@,
            author: self.author@,
            contents: self.contents@,
            date: self.date,
            feed_name: self.feed_name@,
        }
    }
}

/// The views of a list of articles.
pub open spec fn news_view(news: Seq<News>) -> Seq<NewsView> {
    news.map_values(|n: News| n@)
}

/// Response from the GetNewsForApp API
#[derive(Debug)]
pub struct GameNews {
    /// List of [`News`] for a given game ID
    pub game_news: Vec<News>,
    /// The total number of available news for the given game ID
    pub count: i16,
}

/// The news of a game, as the contracts see them.
pub struct GameNewsView {
    pub game_news: Seq<NewsView>,
    pub count: i16,
}

impl View for GameNews {
    type V = GameNewsView;

    open spec fn view(&self) -> GameNewsView {
        GameNewsView { game_news: news_view(self.game_news@), count: self.count }
    }
}

impl Default for GameNews {
    fn default() -> (r: Self)
        ensures
            r@ == (GameNewsView { game_news: Seq::empty(), count: 0 }),
    {
        let r = GameNews { game_news: Vec::new(), count: 0 };
        assert(news_view(r.game_news@) =~= Seq::<NewsView>::empty());
        r
    }
}

/// An article as its JSON object gives it: "gid" is the news ID, "feedname"
/// the feed's name, and the other fields stand under their own names.
pub open spec fn article_of(j: Json) -> Option<NewsView> {
    match (
        text_of(member(j, "gid"@)),
        text_of(member(j, "title"@)),
        text_of(member(j, "url"@)),
        text_of(member(j, "author"@)),
        text_of(member(j, "contents"@)),
        within(integer_of(member(j, "date"@)), i64::MIN as int, i64::MAX as int),
        text_of(member(j, "feedname"@)),
    ) {
        (
            Some(news_id),
            Some(title),
            Some(url),
            Some(author),
            Some(contents),
            Some(date),
            Some(feed_name),
        ) => Some(NewsView { news_id, title, url, author, contents, date: date as i64, feed_name }),
        _ => None,
    }
}

/// A JSON array of articles.
pub open spec fn articles_of(items: Seq<Json>) -> Option<Seq<NewsView>> {
    decode_each(items, |j: Json| article_of(j))
}

/// The news in an "appnews" payload: "newsitems" and "count".
pub open spec fn game_news_of(p: Json) -> Option<GameNewsView> {
    match (
        items_of(member(p, "newsitems"@)),
        within(integer_of(member(p, "count"@)), i16::MIN as int, i16::MAX as int),
    ) {
        (Some(items), Some(count)) => match articles_of(items) {
            Some(game_news) => Some(GameNewsView { game_news, count: count as i16 }),
            None => None,
        },
        _ => None,
    }
}

/// What a GetNewsForApp document says: the news in its "appnews" envelope;
/// none where that payload is absent or null; NoData where the document has
/// another shape.
pub open spec fn game_news_answer(j: Json) -> Result<GameNewsView, SteamError> {
    match envelope_payload(j, "appnews"@) {
        None => Err(SteamError::NoData),
        Some(None) => Ok(GameNewsView { game_news: Seq::empty(), count: 0 }),
        Some(Some(p)) => match game_news_of(p) {
            Some(v) => Ok(v),
            None => Err(SteamError::NoData),
        },
    }
}

/// What a GetNewsForApp request came to.
pub open spec fn game_news_response(outcome: HttpOutcome) -> Result<GameNewsView, SteamError> {
    match classification(outcome) {
        Ok(j) => game_news_answer(j),
        Err(e) => Err(e),
    }
}

fn decode_article(j: &Json) -> (r: Option<News>)
    ensures
        match r {
            Some(n) => article_of(*j) == Some(n@),
            None => article_of(*j) is None,
        },
{
    let news_id = match text_member(j, "gid") {
        Some(s) => s,
        None => return None,
    };
    let title = match text_member(j, "title") {
        Some(s) => s,
        None => return None,
    };
    let url = match text_member(j, "url") {
        Some(s) => s,
        None => return None,
    };
    let author = match text_member(j, "author") {
        Some(s) => s,
        None => return None,
    };
    let contents = match text_member(j, "contents") {
        Some(s) => s,
        None => return None,
    };
    let date = match signed_member(j, "date", i64::MIN, i64::MAX) {
        Some(n) => n,
        None => return None,
    };
    let feed_name = match text_member(j, "feedname") {
        Some(s) => s,
        None => return None,
    };
    Some(News { news_id, title, url, author, contents, date, feed_name })
}

fn decode_articles(items: &Vec<Json>) -> (r: Option<Vec<News>>)
    ensures
        match r {
            Some(v) => articles_of(items@) == Some(news_view(v@)),
            None => articles_of(items@) is None,
        },
{
    let mut news: Vec<News> = Vec::new();
    let mut i: usize = 0;
    while i < items.len()
        invariant
            i <= items@.len(),
            news@.len() == i,
            forall|k: int| 0 <= k < i ==> article_of(items@[k]) == Some(#[trigger] news@[k]@),
        decreases items@.len() - i,
    {
        match decode_article(&items[i]) {
            Some(n) => news.push(n),
            None => {
                proof {
                    lemma_decode_each_fails(items@, |j: Json| article_of(j), i as int);
                }
                return None;
            },
        }
        i = i + 1;
    }
    proof {
        lemma_decode_each_holds(items@, |j: Json| article_of(j), news_view(news@));
    }
    Some(news)
}

/// Reads a GetNewsForApp document: the news in its "appnews" envelope, none
/// where that payload is absent or null.
pub fn game_news_from_json(j: &Json) -> (r: Result<GameNews, SteamError>)
    ensures
        match r {
            Ok(news) => game_news_answer(*j) == Ok::<GameNewsView, SteamError>(news@),
            Err(e) => game_news_answer(*j) == Err::<GameNewsView, SteamError>(e),
        },
        envelope_payload(*j, "appnews"@) == Some(None::<Json>) ==> (r matches Ok(news)
            && news@ == (GameNewsView { game_news: Seq::empty(), count: 0 })),
{
    match open_envelope(j, "appnews") {
        None => Err(SteamError::NoData),
        Some(None) => Ok(GameNews::default()),
        Some(Some(p)) => {
            let items = match array_member(p, "newsitems") {
                Some(items) => items,
                None => return Err(SteamError::NoData),
            };
            let count = match signed_member(p, "count", i16::MIN as i64, i16::MAX as i64) {
                Some(n) => n as i16,
                None => return Err(SteamError::NoData),
            };
            match decode_articles(items) {
                Some(game_news) => Ok(GameNews { game_news, count }),
                None => Err(SteamError::NoData),
            }
        },
    }
}

impl SteamClient {
    /// The GetNewsForApp request for at most `news_count` articles about
    /// `app_id`, with contents cut near `max_length` characters.
    pub fn game_news_request(&self, app_id: &str, news_count: u16, max_length: u16) -> (r:
        SteamRequest)
        ensures
            r.endpoint@ == ENDPOINT_GAME_NEWS@,
            r.query_view() == seq![
                ("key"@, QueryValueView::Text(self@)),
                ("appid"@, QueryValueView::Text(app_id@)),
                ("count"@, QueryValueView::Number(news_count as u64)),
                ("maxlength"@, QueryValueView::Number(max_length as u64)),
            ],
    {
        let params = vec![
            ("appid".to_owned(), QueryValue::Text(app_id.to_owned())),
            ("count".to_owned(), QueryValue::Number(news_count as u64)),
            ("maxlength".to_owned(), QueryValue::Number(max_length as u64)),
        ];
        let ghost p = params@;
        let r = self.build_request(ENDPOINT_GAME_NEWS, params);
        assert(params_view(p) =~= seq![
            ("appid"@, QueryValueView::Text(app_id@)),
            ("count"@, QueryValueView::Number(news_count as u64)),
            ("maxlength"@, QueryValueView::Number(max_length as u64)),
        ]);
        assert(r.query_view() =~= seq![
            ("key"@, QueryValueView::Text(self@)),
            ("appid"@, QueryValueView::Text(app_id@)),
            ("count"@, QueryValueView::Number(news_count as u64)),
            ("maxlength"@, QueryValueView::Number(max_length as u64)),
        ]);
        r
    }
}

/// Gets the news that a GetNewsForApp request came to.
pub fn game_news_from_response(outcome: &HttpOutcome) -> (r: Result<GameNews, SteamError>)
    ensures
        match r {
            Ok(news) => game_news_response(*outcome) == Ok::<GameNewsView, SteamError>(news@),
            Err(e) => game_news_response(*outcome) == Err::<GameNewsView, SteamError>(e),
        },
        has_status(*outcome, 401) ==> r == Err::<GameNews, SteamError>(SteamError::Unauthorized),
        has_other_status(*outcome) ==> r matches Err(SteamError::FailedRequest(
            RequestFailure::Status(_),
        )),
{
    match classify_response(outcome) {
        Ok(j) => game_news_from_json(&j),
        Err(e) => Err(e),
    }
}

} // verus!
