use steamr::client::HttpOutcome;
use steamr::errors::SteamError;
use steamr::games::library::{library_from_response, Game};
use steamr::games::news::game_news_from_response;
use steamr::games::stats::player_stats_from_response;
use steamr::games::{GameNews, Library, OwnedGames, PlayerStats};

fn ok(body: &str) -> HttpOutcome {
    HttpOutcome::Received { status: 200, body: body.to_string() }
}

fn game(app_id: u64, name: &str, total: u64) -> Game {
    Game {
        app_id,
        name: name.to_string(),
        playtime_forever: total,
        playtime_windows_forever: total,
        playtime_mac_forever: 0,
        playtime_linux_forever: 0,
    }
}

#[test]
fn games_equal_by_app_id_alone() {
    assert!(game(10, "Counter-Strike", 5) == game(10, "Another name", 999));
    assert!(game(10, "Counter-Strike", 5) != game(20, "Counter-Strike", 5));
}

#[test]
fn game_default_is_a_placeholder() {
    let g = Game::default();
    assert_eq!(g.app_id, 0);
    assert_eq!(g.name, "default");
    assert_eq!(g.playtime_forever, 0);
    assert_eq!(g.playtime_linux_forever, 0);
}

#[test]
fn library_fields_map_one_to_one() {
    let body = r#"{"response":{"game_count":2,"games":[
        {"appid":10,"name":"Counter-Strike","playtime_forever":32,"img_icon_url":"x",
         "playtime_windows_forever":30,"playtime_mac_forever":1,"playtime_linux_forever":2},
        {"appid":1086940,"name":"Baldur's Gate 3","playtime_forever":6000,
         "playtime_windows_forever":0,"playtime_mac_forever":0,"playtime_linux_forever":6000}]}}"#;
    let lib: OwnedGames = library_from_response(&ok(body)).unwrap();
    assert_eq!(lib.game_count, 2);
    assert_eq!(lib.games.len(), 2);
    let g = &lib.games[0];
    assert_eq!(g.app_id, 10);
    assert_eq!(g.name, "Counter-Strike");
    assert_eq!(g.playtime_forever, 32);
    assert_eq!(g.playtime_windows_forever, 30);
    assert_eq!(g.playtime_mac_forever, 1);
    assert_eq!(g.playtime_linux_forever, 2);
    assert_eq!(lib.games[1].app_id, 1086940);
    assert_eq!(lib.games[1].name, "Baldur's Gate 3");
    assert_eq!(lib.games[1].playtime_linux_forever, 6000);
}

#[test]
fn library_absent_payload_is_empty() {
    let lib: Library = library_from_response(&ok(r#"{"response": null}"#)).unwrap();
    assert_eq!(lib.game_count, 0);
    assert!(lib.games.is_empty());
    let lib = library_from_response(&ok(r#"{"other": 1}"#)).unwrap();
    assert_eq!(lib.game_count, 0);
    assert!(lib.games.is_empty());
}

#[test]
fn library_largest_values() {
    let body = r#"{"response":{"game_count":4294967295,"games":[
        {"appid":18446744073709551615,"name":"","playtime_forever":0,
         "playtime_windows_forever":0,"playtime_mac_forever":0,"playtime_linux_forever":0}]}}"#;
    let lib = library_from_response(&ok(body)).unwrap();
    assert_eq!(lib.game_count, u32::MAX);
    assert_eq!(lib.games[0].app_id, u64::MAX);
    let too_many = r#"{"response":{"game_count":4294967296,"games":[]}}"#;
    assert!(matches!(library_from_response(&ok(too_many)), Err(SteamError::NoData)));
}

#[test]
fn library_game_missing_a_field_is_no_data() {
    let body = r#"{"response":{"game_count":1,"games":[{"appid":10,"name":"x"}]}}"#;
    assert!(matches!(library_from_response(&ok(body)), Err(SteamError::NoData)));
    let negative = r#"{"response":{"game_count":1,"games":[{"appid":-1,"name":"x",
        "playtime_forever":0,"playtime_windows_forever":0,"playtime_mac_forever":0,
        "playtime_linux_forever":0}]}}"#;
    assert!(matches!(library_from_response(&ok(negative)), Err(SteamError::NoData)));
}

fn article(i: u32) -> String {
    format!(
        r#"{{"gid":"{i}","title":"T{i}","url":"https://x/{i}","is_external_url":true,
        "author":"A","contents":"C","feedlabel":"L","date":{},"feedname":"steam_community","appid":10}}"#,
        1700000000 + i
    )
}

#[test]
fn five_news_for_app_10() {
    let items: Vec<String> = (0..5).map(article).collect();
    let body = format!(
        r#"{{"appnews":{{"appid":10,"newsitems":[{}],"count":300}}}}"#,
        items.join(",")
    );
    let news: GameNews = game_news_from_response(&ok(&body)).unwrap();
    assert_eq!(news.game_news.len(), 5);
    assert!(news.game_news.len() <= 5);
    assert!(news.count as usize >= news.game_news.len());
    assert_eq!(news.count, 300);
    let n = &news.game_news[2];
    assert_eq!(n.news_id, "2");
    assert_eq!(n.title, "T2");
    assert_eq!(n.url, "https://x/2");
    assert_eq!(n.author, "A");
    assert_eq!(n.contents, "C");
    assert_eq!(n.date, 1700000002);
    assert_eq!(n.feed_name, "steam_community");
}

#[test]
fn news_count_must_fit_sixteen_bits() {
    let body = r#"{"appnews":{"newsitems":[],"count":-32768}}"#;
    assert_eq!(game_news_from_response(&ok(body)).unwrap().count, i16::MIN);
    let body = r#"{"appnews":{"newsitems":[],"count":32768}}"#;
    assert!(matches!(game_news_from_response(&ok(body)), Err(SteamError::NoData)));
    let empty = game_news_from_response(&ok("{}")).unwrap();
    assert_eq!(empty.count, 0);
    assert!(empty.game_news.is_empty());
}

#[test]
fn player_stats_fields_map_one_to_one() {
    let body = r#"{"playerstats":{"steamID":"7","gameName":"Baldur's Gate 3",
        "achievements":[{"name":"FIRST","achieved":1},{"name":"SECOND","achieved":1}],
        "stats":[{"name":"kills","value":65535}]}}"#;
    let stats: PlayerStats = player_stats_from_response(&ok(body)).unwrap();
    assert_eq!(stats.game_name, "Baldur's Gate 3");
    assert_eq!(stats.achievements.len(), 2);
    assert_eq!(stats.achievements[0].name, "FIRST");
    assert_eq!(stats.achievements[1].name, "SECOND");
    assert_eq!(stats.stats.len(), 1);
    assert_eq!(stats.stats[0].name, "kills");
    assert_eq!(stats.stats[0].value, 65535);
}

#[test]
fn player_stats_value_out_of_range_is_no_data() {
    let body = r#"{"playerstats":{"gameName":"G","achievements":[],
        "stats":[{"name":"kills","value":65536}]}}"#;
    assert!(matches!(player_stats_from_response(&ok(body)), Err(SteamError::NoData)));
    let fraction = r#"{"playerstats":{"gameName":"G","achievements":[],
        "stats":[{"name":"kills","value":1.5}]}}"#;
    assert!(matches!(player_stats_from_response(&ok(fraction)), Err(SteamError::NoData)));
}

#[test]
fn player_stats_null_payload_is_empty() {
    let stats = player_stats_from_response(&ok(r#"{"playerstats": null}"#)).unwrap();
    assert_eq!(stats.game_name, "");
    assert!(stats.achievements.is_empty());
    assert!(stats.stats.is_empty());
}
