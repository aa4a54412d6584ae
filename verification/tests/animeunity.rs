use fas::animeunity::{
    anime_from_record, anime_from_records, episode_count, episode_from_record, episode_urls,
    get_anime_episodes, get_episodes_link, info_url, page_url, page_urls, read_state, search,
    search_url, video_from_page,
};
use fas::json::Json;
use fas::{Anime, AnimeEpisodes, AnimeInfo, AnimeState, Episode, Sites};

fn text(s: &str) -> Json {
    Json::Text(s.to_string())
}

fn number(n: u64) -> Json {
    Json::Number { unsigned: Some(n), decimal: Some(format!("{}", n)) }
}

fn object(members: Vec<(&str, Json)>) -> Json {
    Json::Object(members.into_iter().map(|(k, v)| (k.to_string(), v)).collect())
}

fn one_piece() -> Anime {
    Anime::new(
        Sites::AnimeUnity,
        "/anime/12-one-piece".to_string(),
        AnimeInfo::new(
            "".to_string(),
            "".to_string(),
            AnimeState::NonValido,
            "".to_string(),
            Vec::new(),
            "".to_string(),
            "".to_string(),
            "".to_string(),
            "".to_string(),
            "".to_string(),
        ),
    )
}

const ARCHIVE: &str = r#"<html><body><archivio records='[
{"id":12,"slug":"one-piece","title_eng":"One Piece","date":"1999","status":"In Corso",
 "genres":[{"name":"Action"},{"name":"Adventure"}],"studio":"Toei","score":"8.7",
 "plot":"Pirates","imageurl":"https://img/c.jpg","cover":"https://img/f.jpg",
 "imageurl_cover":"https://img/b.jpg"},
{"id":13,"slug":"other","title_eng":"Other","date":"2001","status":"Terminato",
 "genres":[],"score":"7","plot":"p","imageurl":"i","cover":null}
]'></archivio></body></html>"#;

#[test]
fn test_search_animeunity() {
    assert_eq!(
        search_url("one piece"),
        "https://www.animeunity.to/archivio?title=one piece"
    );
    let names = search(Some(ARCHIVE));
    assert_eq!(names.len(), 2);
    let first = &names[0];
    assert_eq!(*first.get_site(), Sites::AnimeUnity);
    assert_eq!(first.get_link(), "/anime/12-one-piece");
    let info = first.get_info();
    assert_eq!(info.get_name(), "One Piece");
    assert_eq!(info.get_year(), "1999");
    assert_eq!(*info.get_state(), AnimeState::InCorso);
    assert_eq!(info.get_description(), "Pirates");
    assert_eq!(*info.get_genres(), vec!["Action".to_string(), "Adventure".to_string()]);
    assert_eq!(info.get_studio(), "Toei");
    assert_eq!(info.get_stars(), "8.7");
    assert_eq!(info.get_cover(), "https://img/c.jpg");
    assert_eq!(info.get_cover_full(), "https://img/f.jpg");
    assert_eq!(info.get_banner(), "https://img/b.jpg");
}

#[test]
fn search_reads_a_record_without_studio_as_unknown_studio() {
    let names = search(Some(ARCHIVE));
    assert_eq!(names.len(), 2);
    let second = &names[1];
    assert_eq!(second.get_link(), "/anime/13-other");
    assert_eq!(second.get_info().get_studio(), "");
    assert_eq!(*second.get_info().get_state(), AnimeState::Finito);
    assert!(second.get_info().get_genres().is_empty());
    assert_eq!(second.get_info().get_cover_full(), "");
    assert_eq!(second.get_info().get_banner(), "");
}

#[test]
fn search_answers_a_failed_request_with_nothing() {
    assert!(search(None).is_empty());
}

#[test]
fn search_answers_a_page_without_records_with_nothing() {
    assert!(search(Some("")).is_empty());
    assert!(search(Some("<html><body><p>nothing</p></body></html>")).is_empty());
    assert!(search(Some("<archivio></archivio>")).is_empty());
    assert!(search(Some("<archivio records='not json'></archivio>")).is_empty());
    assert!(search(Some("<archivio records='{\"id\":1}'></archivio>")).is_empty());
    assert!(search(Some("<archivio records='[]'></archivio>")).is_empty());
}

#[test]
fn search_twice_gives_the_same_titles() {
    let first = search(Some(ARCHIVE));
    let second = search(Some(ARCHIVE));
    assert_eq!(format!("{:?}", first), format!("{:?}", second));
}

#[test]
fn a_malformed_record_is_left_out_and_the_others_stay() {
    let page = r#"<archivio records='[
        {"id":1,"slug":"a","title_eng":"A"},
        {"id":"two","slug":"b","title_eng":"B"},
        {"id":3,"slug":"c","title_eng":7},
        {"id":4,"slug":"d","genres":[{"title":"no name"}]},
        {"id":5,"slug":"e","title_eng":"E"}
    ]'></archivio>"#;
    let names = search(Some(page));
    let links: Vec<&str> = names.iter().map(|a| a.get_link().as_str()).collect();
    assert_eq!(links, vec!["/anime/1-a", "/anime/5-e"]);
}

#[test]
fn a_record_of_the_wrong_kind_for_every_field_list() {
    let good = object(vec![("id", number(12)), ("slug", text("one-piece"))]);
    assert_eq!(anime_from_record(&good).unwrap().get_link(), "/anime/12-one-piece");
    for key in ["slug", "title_eng", "date", "status", "studio", "score", "plot", "imageurl"] {
        let bad = object(vec![("id", number(1)), (key, Json::Null)]);
        assert!(anime_from_record(&bad).is_none());
    }
    let bad_id = object(vec![("id", text("1"))]);
    assert!(anime_from_record(&bad_id).is_none());
    let float_id = object(vec![(
        "id",
        Json::Number { unsigned: None, decimal: Some("1.5".to_string()) },
    )]);
    assert!(anime_from_record(&float_id).is_none());
    let bad_genres = object(vec![("genres", text("Action"))]);
    assert!(anime_from_record(&bad_genres).is_none());
    let lenient = object(vec![("cover", Json::Bool(true)), ("imageurl_cover", number(3))]);
    let anime = anime_from_record(&lenient).unwrap();
    assert_eq!(anime.get_info().get_cover_full(), "");
    assert_eq!(anime.get_info().get_banner(), "");
}

#[test]
fn a_value_that_is_no_object_reads_as_a_record_without_fields() {
    let anime = anime_from_record(&Json::Null).unwrap();
    assert_eq!(anime.get_link(), "/anime/-");
    assert_eq!(anime.get_info().get_name(), "");
    assert_eq!(*anime.get_info().get_state(), AnimeState::NonValido);
    let all = anime_from_records(&vec![Json::Bool(true), Json::Array(Vec::new())]);
    assert_eq!(all.len(), 2);
}

#[test]
fn read_state_knows_the_status_texts_of_animeunity() {
    assert_eq!(read_state("In Corso"), AnimeState::InCorso);
    assert_eq!(read_state("Terminato"), AnimeState::Finito);
    assert_eq!(read_state("In corso"), AnimeState::NonValido);
    assert_eq!(read_state(""), AnimeState::NonValido);
}

#[test]
fn info_url_uses_the_numeric_characters_of_the_link() {
    assert_eq!(info_url(&one_piece()), "https://www.animeunity.to/info_api/12/");
}

#[test]
fn episode_count_is_read_from_the_info_response() {
    assert_eq!(episode_count(Some(r#"{"id":12,"episodes_count":245,"slug":"x"}"#)), Some(245));
    assert_eq!(episode_count(Some(r#"{"episodes_count":0}"#)), Some(0));
    assert_eq!(episode_count(Some(r#"{"id":12}"#)), None);
    assert_eq!(episode_count(Some(r#"{"episodes_count":"245"}"#)), None);
    assert_eq!(
        episode_count(Some(r#"{"episodes_count":99999999999999999999999999}"#)),
        None
    );
    assert_eq!(episode_count(None), None);
}

#[test]
fn page_urls_cover_245_episodes_with_three_windows() {
    let urls = page_urls(&one_piece(), Some(r#"{"episodes_count":245}"#));
    assert_eq!(
        urls,
        vec![
            "https://www.animeunity.to/info_api/12/1?start_range=1&end_range=120".to_string(),
            "https://www.animeunity.to/info_api/12/1?start_range=121&end_range=240".to_string(),
            "https://www.animeunity.to/info_api/12/1?start_range=241&end_range=360".to_string(),
        ]
    );
    assert_eq!(page_url(&one_piece(), 3), urls[2]);
}

#[test]
fn page_urls_are_none_without_an_episode_count() {
    assert!(page_urls(&one_piece(), None).is_empty());
    assert!(page_urls(&one_piece(), Some("{}")).is_empty());
    assert!(page_urls(&one_piece(), Some(r#"{"episodes_count":0}"#)).is_empty());
    assert_eq!(page_urls(&one_piece(), Some(r#"{"episodes_count":120}"#)).len(), 1);
    assert_eq!(page_urls(&one_piece(), Some(r#"{"episodes_count":121}"#)).len(), 2);
}

const PAGE_ONE: &str = r#"{"episodes":[
    {"id":76314,"number":"1089"},
    {"id":76414,"number":"1090"},
    {"id":76514,"number":"1091"}]}"#;

const PAGE_TWO: &str = r#"{"episodes":[
    {"id":76612,"number":"1092"},
    {"id":1,"number":"12.5"},
    {"number":"1093"},
    {"id":"x","number":"1094"},
    {"id":76999,"number":"1800"},
    {"id":77000,"number":"1801"}]}"#;

fn numbers_and_ids(list: &AnimeEpisodes) -> Vec<(usize, String)> {
    list.get_episodes().iter().map(|e| (e.get_number(), e.get_episode_id().clone())).collect()
}

#[test]
fn test_get_anime_episodes_no_range_animeunity() {
    let pages = vec![Some(PAGE_ONE.to_string()), Some(PAGE_TWO.to_string())];
    let episodes = get_anime_episodes(one_piece(), None, &pages);
    assert_eq!(*episodes.get_site(), Sites::AnimeUnity);
    assert_eq!(episodes.get_link(), "/anime/12-one-piece");
    assert_eq!(
        numbers_and_ids(&episodes),
        vec![
            (1089, "76314".to_string()),
            (1090, "76414".to_string()),
            (1091, "76514".to_string()),
            (1092, "76612".to_string()),
            (1800, "76999".to_string()),
            (1801, "77000".to_string()),
        ]
    );
}

#[test]
fn test_get_anime_episodes_range_animeunity() {
    let pages = vec![Some(PAGE_ONE.to_string()), Some(PAGE_TWO.to_string())];
    let episodes = get_anime_episodes(one_piece(), Some(1090..=1800), &pages);
    assert_eq!(episodes.get_link(), "/anime/12-one-piece");
    assert_eq!(
        numbers_and_ids(&episodes),
        vec![
            (1090, "76414".to_string()),
            (1091, "76514".to_string()),
            (1092, "76612".to_string()),
            (1800, "76999".to_string()),
        ]
    );
}

#[test]
fn a_page_that_failed_contributes_no_episodes() {
    let pages = vec![None, Some("not json".to_string()), Some(PAGE_ONE.to_string()), None];
    let episodes = get_anime_episodes(one_piece(), None, &pages);
    assert_eq!(episodes.get_episodes().len(), 3);
    let none = get_anime_episodes(one_piece(), None, &Vec::new());
    assert!(none.get_episodes().is_empty());
    assert_eq!(none.get_link(), "/anime/12-one-piece");
    let odd = vec![Some("{}".to_string()), Some(r#"{"episodes":5}"#.to_string()), Some(String::new())];
    assert!(get_anime_episodes(one_piece(), None, &odd).get_episodes().is_empty());
}

#[test]
fn episode_from_record_needs_number_and_identifier() {
    let record = object(vec![("id", number(76414)), ("number", text("1090"))]);
    let episode = episode_from_record(&record, &None).unwrap();
    assert_eq!(episode.get_number(), 1090);
    assert_eq!(episode.get_episode_id(), "76414");
    assert!(episode_from_record(&record, &Some(1091..=1092)).is_none());
    assert!(episode_from_record(&record, &Some(1090..=1090)).is_some());
    let no_id = object(vec![("number", text("1090"))]);
    assert!(episode_from_record(&no_id, &None).is_none());
    let no_number = object(vec![("id", number(1))]);
    assert!(episode_from_record(&no_number, &None).is_none());
    let numeric_number = object(vec![("id", number(1)), ("number", number(2))]);
    assert!(episode_from_record(&numeric_number, &None).is_none());
}

fn fixture_list() -> AnimeEpisodes {
    AnimeEpisodes::new(
        Sites::AnimeUnity,
        "/anime/12-one-piece".to_string(),
        vec![
            Episode::new(1090, "76414".to_string()),
            Episode::new(1091, "76514".to_string()),
            Episode::new(1092, "76612".to_string()),
        ],
    )
}

#[test]
fn test_get_episodes_link_animeunity() {
    let anime_episodes = fixture_list();
    let urls = episode_urls(&anime_episodes, 1090..=1092);
    assert_eq!(
        urls,
        vec![
            "https://www.animeunity.to/anime/12-one-piece/76414".to_string(),
            "https://www.animeunity.to/anime/12-one-piece/76514".to_string(),
            "https://www.animeunity.to/anime/12-one-piece/76612".to_string(),
        ]
    );
    let pages: Vec<Option<String>> = urls
        .iter()
        .map(|url| Some(format!("<video-player embed_url=\"{}?embed\"></video-player>", url)))
        .collect();
    let videos = get_episodes_link(&pages);
    let links: Vec<&str> = videos.iter().map(|v| v.get_link().as_str()).collect();
    assert_eq!(
        links,
        vec![
            "https://www.animeunity.to/anime/12-one-piece/76414?embed",
            "https://www.animeunity.to/anime/12-one-piece/76514?embed",
            "https://www.animeunity.to/anime/12-one-piece/76612?embed",
        ]
    );
}

#[test]
fn episode_urls_follow_the_range() {
    assert_eq!(episode_urls(&fixture_list(), 1091..=1091).len(), 1);
    assert!(episode_urls(&fixture_list(), 1..=10).is_empty());
    assert_eq!(episode_urls(&fixture_list(), 0..=usize::MAX).len(), 3);
}

#[test]
fn an_episode_page_without_player_is_dropped() {
    let pages = vec![
        Some("<video-player embed_url=\"https://v/1\"></video-player>".to_string()),
        None,
        Some("<video-player></video-player>".to_string()),
        Some("<p>gone</p>".to_string()),
        Some(
            "<video-player embed_url=\"https://v/5\"></video-player>\
             <video-player embed_url=\"https://v/6\"></video-player>"
                .to_string(),
        ),
    ];
    let videos = get_episodes_link(&pages);
    let links: Vec<&str> = videos.iter().map(|v| v.get_link().as_str()).collect();
    assert_eq!(links, vec!["https://v/1", "https://v/5"]);
    assert!(video_from_page(&None).is_none());
    assert!(get_episodes_link(&Vec::new()).is_empty());
}
