use fas::animeworld::{
    anime_from_page, episodes_from_elements, get_anime_episodes, get_episodes_link, page_url,
    read_state, result_links, search, search_url,
};
use fas::html::Element;
use fas::{Anime, AnimeEpisodes, AnimeInfo, AnimeState, Episode, Sites};

fn one_piece() -> Anime {
    Anime::new(
        Sites::AnimeWorld,
        "/play/one-piece-subita.qzG-LE".to_string(),
        AnimeInfo::new(
            "".to_string(),
            "".to_string(),
            AnimeState::NonValido,
            "".to_string(),
            Vec::new(),
            "".to_string(),
            "".to_string(),
            "".to_string(),
            "".to_string(),
            "".to_string(),
        ),
    )
}

const RESULTS: &str = r#"<html><body><div class="widget-body"><div class="film-list">
<div class="item"><a class="name" href="/play/one-piece-subita.qzG-LE">One Piece</a></div>
<div class="item"><a class="name">No link</a></div>
<div class="item"><a class="name" href="/play/other.abc">Other</a></div>
</div></div><a class="name" href="/play/outside">Outside the list</a></body></html>"#;

const TITLE_PAGE: &str = "<html><body><div class=\"widget info\"><div class=\"widget-body\">\
<div class=\"row\">\
<div class=\"thumb\"><img src=\"https://img/cover.jpg\"></div>\
<div class=\"head\"><h2 class=\"title\">One Piece</h2></div>\
<div class=\"row\"><dl>Data di Uscita: 20 Ottobre 1999\nStato: In corso \n\
Genere: Azione, Avventura\nStudio: Toei Animation\nVoto: 8.72 /10</dl></div>\
<div class=\"desc\">Pirates <b>sail</b>.</div>\
</div></div></div></body></html>";

#[test]
fn test_search_animeworld() {
    assert_eq!(search_url("one piece"), "https://animeworld.so/search?keyword=one piece");
    let links = result_links(Some(RESULTS));
    assert_eq!(
        links,
        vec!["/play/one-piece-subita.qzG-LE".to_string(), "/play/other.abc".to_string()]
    );
    assert_eq!(page_url(&links[0]), "https://animeworld.so/play/one-piece-subita.qzG-LE");
    let pages = vec![
        (links[0].clone(), Some(TITLE_PAGE.to_string())),
        (links[1].clone(), Some("<p>no info box</p>".to_string())),
    ];
    let names = search(&pages);
    assert_eq!(names.len(), 1);
    let anime = &names[0];
    assert_eq!(*anime.get_site(), Sites::AnimeWorld);
    assert_eq!(anime.get_link(), "/play/one-piece-subita.qzG-LE");
    let info = anime.get_info();
    assert_eq!(info.get_name(), "One Piece");
    assert_eq!(info.get_year(), "20 Ottobre 1999");
    assert_eq!(*info.get_state(), AnimeState::InCorso);
    assert_eq!(info.get_description(), "Pirates sail.");
    assert_eq!(*info.get_genres(), vec!["Azione".to_string(), "Avventura".to_string()]);
    assert_eq!(info.get_studio(), "Toei Animation");
    assert_eq!(info.get_stars(), "8.72");
    assert_eq!(info.get_cover(), "https://img/cover.jpg");
    assert_eq!(info.get_cover_full(), "");
    assert_eq!(info.get_banner(), "");
}

#[test]
fn result_links_of_a_failed_request_are_none() {
    assert!(result_links(None).is_empty());
    assert!(result_links(Some("")).is_empty());
}

#[test]
fn search_with_a_failed_page_request_finds_nothing() {
    let pages = vec![
        ("/play/a".to_string(), Some(TITLE_PAGE.to_string())),
        ("/play/b".to_string(), None),
        ("/play/c".to_string(), Some(TITLE_PAGE.to_string())),
    ];
    assert!(search(&pages).is_empty());
    assert!(search(&Vec::new()).is_empty());
}

#[test]
fn a_malformed_page_is_left_out_and_the_others_stay() {
    let without_stars = TITLE_PAGE.replace("Voto: 8.72 /10", "");
    let pages = vec![
        ("/play/a".to_string(), Some(TITLE_PAGE.to_string())),
        ("/play/b".to_string(), Some(without_stars)),
        ("/play/c".to_string(), Some(String::new())),
        ("/play/d".to_string(), Some(TITLE_PAGE.to_string())),
    ];
    let names = search(&pages);
    let links: Vec<&str> = names.iter().map(|a| a.get_link().as_str()).collect();
    assert_eq!(links, vec!["/play/a", "/play/d"]);
}

#[test]
fn search_twice_on_the_same_pages_gives_the_same_titles() {
    let pages = vec![("/play/a".to_string(), Some(TITLE_PAGE.to_string()))];
    assert_eq!(format!("{:?}", search(&pages)), format!("{:?}", search(&pages)));
}

#[test]
fn a_page_needs_every_field_but_the_genres() {
    assert!(anime_from_page("/play/a", TITLE_PAGE).is_some());
    let without_genres = TITLE_PAGE.replace("Genere: Azione, Avventura\n", "");
    let anime = anime_from_page("/play/a", &without_genres).unwrap();
    assert!(anime.get_info().get_genres().is_empty());
    assert_eq!(anime.get_info().get_studio(), "Toei Animation");
    for missing in [
        "Data di Uscita: 20 Ottobre 1999\n",
        "Stato: In corso \n",
        "Studio: Toei Animation\n",
        "Voto: 8.72 /10",
        "<div class=\"head\"><h2 class=\"title\">One Piece</h2></div>",
        "<div class=\"desc\">Pirates <b>sail</b>.</div>",
        "<div class=\"thumb\"><img src=\"https://img/cover.jpg\"></div>",
        " src=\"https://img/cover.jpg\"",
    ] {
        assert!(TITLE_PAGE.contains(missing));
        assert!(anime_from_page("/play/a", &TITLE_PAGE.replace(missing, "")).is_none());
    }
}

#[test]
fn the_state_follows_the_status_text() {
    let finished = TITLE_PAGE.replace("Stato: In corso ", "Stato: Finito");
    let anime = anime_from_page("/play/a", &finished).unwrap();
    assert_eq!(*anime.get_info().get_state(), AnimeState::Finito);
    let unknown = TITLE_PAGE.replace("Stato: In corso ", "Stato: Sospeso");
    let anime = anime_from_page("/play/a", &unknown).unwrap();
    assert_eq!(*anime.get_info().get_state(), AnimeState::NonValido);
    assert_eq!(read_state("In corso"), AnimeState::InCorso);
    assert_eq!(read_state("Finito"), AnimeState::Finito);
    assert_eq!(read_state("In Corso"), AnimeState::NonValido);
}

const EPISODES_PAGE: &str = r#"<html><body>
<div class="server"><ul class="episodes"><li class="episode"><a data-id="hidden">1</a></li></ul></div>
<div class="server active"><ul class="episodes">
<li class="episode"><a data-id="id-1">1</a></li>
<li class="episode"><a data-id="id-2">2</a></li>
<li class="episode"><a>3</a></li>
<li class="episode"><a data-id="id-4">4</a></li>
<li class="episode"><a data-id="id-5">5</a></li>
</ul></div></body></html>"#;

fn numbers_and_ids(list: &AnimeEpisodes) -> Vec<(usize, String)> {
    list.get_episodes().iter().map(|e| (e.get_number(), e.get_episode_id().clone())).collect()
}

#[test]
fn test_get_anime_episodes_no_range_animeworld() {
    let episodes = get_anime_episodes(one_piece(), None, Some(EPISODES_PAGE));
    assert_eq!(*episodes.get_site(), Sites::AnimeWorld);
    assert_eq!(episodes.get_link(), "/play/one-piece-subita.qzG-LE");
    assert_eq!(
        numbers_and_ids(&episodes),
        vec![
            (1, "id-1".to_string()),
            (2, "id-2".to_string()),
            (4, "id-4".to_string()),
            (5, "id-5".to_string()),
        ]
    );
}

#[test]
fn test_get_anime_episodes_range_animeworld() {
    let mut page = String::from("<div class=\"server active\"><ul class=\"episodes\">");
    for n in 1..=1095 {
        page.push_str(&format!("<li class=\"episode\"><a data-id=\"id-{}\">{}</a></li>", n, n));
    }
    page.push_str("</ul></div>");
    let episodes = get_anime_episodes(one_piece(), Some(1090..=2000), Some(&page));
    assert_eq!(episodes.get_link(), "/play/one-piece-subita.qzG-LE");
    assert_eq!(
        numbers_and_ids(&episodes),
        vec![
            (1090, "id-1090".to_string()),
            (1091, "id-1091".to_string()),
            (1092, "id-1092".to_string()),
            (1093, "id-1093".to_string()),
            (1094, "id-1094".to_string()),
            (1095, "id-1095".to_string()),
        ]
    );
}

#[test]
fn episodes_of_a_failed_request_are_none() {
    let episodes = get_anime_episodes(one_piece(), None, None);
    assert!(episodes.get_episodes().is_empty());
    assert_eq!(episodes.get_link(), "/play/one-piece-subita.qzG-LE");
    assert!(get_anime_episodes(one_piece(), Some(1..=3), Some("")).get_episodes().is_empty());
}

#[test]
fn episodes_are_numbered_by_their_place() {
    let elements = vec![
        Element::new(Some("a".to_string()), Vec::new()),
        Element::new(None, vec!["2".to_string()]),
        Element::new(Some("c".to_string()), Vec::new()),
    ];
    let all = episodes_from_elements(&elements, &None);
    let pairs: Vec<(usize, &str)> =
        all.iter().map(|e| (e.get_number(), e.get_episode_id().as_str())).collect();
    assert_eq!(pairs, vec![(1, "a"), (3, "c")]);
    let last = episodes_from_elements(&elements, &Some(3..=3));
    assert_eq!(last.len(), 1);
    assert_eq!(last[0].get_number(), 3);
    assert!(episodes_from_elements(&elements, &Some(2..=2)).is_empty());
}

#[test]
fn get_episodes_link_builds_one_link_per_episode_in_range() {
    let anime_episodes = AnimeEpisodes::new(
        Sites::AnimeWorld,
        "/play/one-piece-subita.qzG-LE".to_string(),
        vec![
            Episode::new(1089, "a".to_string()),
            Episode::new(1090, "b".to_string()),
            Episode::new(1091, "c".to_string()),
            Episode::new(1092, "d".to_string()),
            Episode::new(1093, "e".to_string()),
        ],
    );
    let videos = get_episodes_link(anime_episodes, 1090..=1092);
    let links: Vec<&str> = videos.iter().map(|v| v.get_link().as_str()).collect();
    assert_eq!(
        links,
        vec![
            "https://animeworld.so/api/episode/serverPlayerAnimeWorld?id=b",
            "https://animeworld.so/api/episode/serverPlayerAnimeWorld?id=c",
            "https://animeworld.so/api/episode/serverPlayerAnimeWorld?id=d",
        ]
    );
}

#[test]
fn get_episodes_link_of_an_empty_list_or_range_is_empty() {
    let empty = AnimeEpisodes::new(Sites::AnimeWorld, "/play/x".to_string(), Vec::new());
    assert!(get_episodes_link(empty, 1..=10).is_empty());
    let list = AnimeEpisodes::new(
        Sites::AnimeWorld,
        "/play/x".to_string(),
        vec![Episode::new(1, "a".to_string())],
    );
    assert!(get_episodes_link(list, 2..=1).is_empty());
}
