//! AniPlay: a search is answered by a JSON endpoint; the episodes of a title,
//! and the streaming links of all its episodes, are written in the last
//! script block of a page, as a list of records between square brackets.

use vstd::prelude::*;
use vstd::string::*;
use std::ops::RangeInclusive;
use crate::{
    Anime, AnimeEpisodes, AnimeEpisodesView, AnimeInfo, AnimeInfoView, AnimeState, AnimeView,
    Episode, EpisodeView, Sites, Video,
};
use crate::episodes::{is_wanted, wanted};
use crate::html::{select, selected};
use crate::json::{json_of, parse, Json, JsonView};
use crate::pattern::{capture, first_group};
use crate::records::{
    first_name_field, float_field, lenient_text_field, names_field, read_first_name, read_float,
    read_lenient_text, read_names, read_text, read_unsigned, text_field, unsigned_field,
};
use crate::seqs::{lemma_filter_map_loses_only_rejected, rejected, rejects, view_of, views};
use crate::text::{join, number_of, parse_number, replace, replaced_text, same_text, split, split_text};

verus! {

/// The state that AniPlay's status text stands for.
pub open spec fn state_of(status: Seq<char>) -> AnimeState {
    if status == "In corso"@ {
        AnimeState::InCorso
    } else if status == "Completato"@ {
        AnimeState::Finito
    } else {
        AnimeState::NonValido
    }
}

/// The state that AniPlay's status text stands for.
pub fn read_state(status: &str) -> (state: AnimeState)
    ensures
        state == state_of(status@),
{
    if same_text(status, "In corso") {
        AnimeState::InCorso
    } else if same_text(status, "Completato") {
        AnimeState::Finito
    } else {
        AnimeState::NonValido
    }
}

/// The URL of the endpoint that lists the titles matching `keywords`.
pub open spec fn search_url_text(keywords: Seq<char>) -> Seq<char> {
    "https://api.aniplay.co/api/series/advancedSearch?sort=1&page=1&_q="@ + keywords
}

/// The URL to request for a search of `keywords`.
pub fn search_url(keywords: &str) -> (url: String)
    ensures
        url@ == search_url_text(keywords@),
{
    join("https://api.aniplay.co/api/series/advancedSearch?sort=1&page=1&_q=", keywords)
}

/// The title that one record of a search describes; nothing for a malformed
/// record, that is one with a field of the wrong kind.
pub open spec fn record_anime(record: JsonView) -> Option<AnimeView> {
    let id = unsigned_field(record, "id"@);
    let name = text_field(record, "title"@);
    let year = text_field(record, "release_date"@);
    let status = text_field(record, "status"@);
    let genres = names_field(record, "genres"@);
    let studio = first_name_field(record, "studios"@);
    let description = text_field(record, "description"@);
    let cover = text_field(record, "cover"@);
    if id is Some && name is Some && year is Some && status is Some && genres is Some
        && studio is Some && description is Some && cover is Some {
        Some(
            AnimeView {
                site: Sites::AniPlay,
                link: "/series/"@ + id.unwrap(),
                info: AnimeInfoView {
                    name: name.unwrap(),
                    year: year.unwrap(),
                    state: state_of(status.unwrap()),
                    description: description.unwrap(),
                    genres: genres.unwrap(),
                    studio: studio.unwrap(),
                    stars: float_field(record, "score"@),
                    cover: cover.unwrap(),
                    cover_full: lenient_text_field(record, "main_image"@),
                    banner: Seq::empty(),
                },
            },
        )
    } else {
        None
    }
}

/// [`record_anime`] as a function value.
pub open spec fn record_reader() -> spec_fn(JsonView) -> Option<AnimeView> {
    |record: JsonView| record_anime(record)
}

/// Reads the title that one record of a search describes.
pub fn anime_from_record(record: &Json) -> (r: Option<Anime>)
    ensures
        view_of(r) == record_anime(record@),
{
    let id = match read_unsigned(record, "id") {
        Some(t) => t,
        None => {
            return None;
        },
    };
    let name = match read_text(record, "title") {
        Some(t) => t,
        None => {
            return None;
        },
    };
    let year = match read_text(record, "release_date") {
        Some(t) => t,
        None => {
            return None;
        },
    };
    let status = match read_text(record, "status") {
        Some(t) => t,
        None => {
            return None;
        },
    };
    let genres = match read_names(record, "genres") {
        Some(t) => t,
        None => {
            return None;
        },
    };
    let studio = match read_first_name(record, "studios") {
        Some(t) => t,
        None => {
            return None;
        },
    };
    let description = match read_text(record, "description") {
        Some(t) => t,
        None => {
            return None;
        },
    };
    let cover = match read_text(record, "cover") {
        Some(t) => t,
        None => {
            return None;
        },
    };
    let stars = read_float(record, "score");
    let cover_full = read_lenient_text(record, "main_image");
    let state = read_state(status.as_str());
    let link = join("/series/", id.as_str());
    Some(
        Anime::new(
            Sites::AniPlay,
            link,
            AnimeInfo::new(
                name,
                year,
                state,
                description,
                genres,
                studio,
                stars,
                cover,
                cover_full,
                String::new(),
            ),
        ),
    )
}

/// Reads the titles that the records of a search describe, in their order,
/// leaving out the malformed records.
pub fn anime_from_records(records: &Vec<Json>) -> (found: Vec<Anime>)
    ensures
        views(found@) == views(records@).filter_map(record_reader()),
{
    let mut found: Vec<Anime> = Vec::new();
    let ghost all = views(records@);
    assert(views(found@) =~= all.take(0).filter_map(record_reader()));
    for i in 0..records.len()
        invariant
            all == views(records@),
            views(found@) == all.take(i as int).filter_map(record_reader()),
    {
        proof {
            all.lemma_filter_map_take_succ(record_reader(), i as int);
        }
        match anime_from_record(&records[i]) {
            Some(anime) => {
                proof {
                    crate::seqs::lemma_views_push(found@, anime);
                }
                found.push(anime);
            },
            None => {},
        }
    }
    assert(all.take(records.len() as int) =~= all);
    found
}

/// The first text of the body of `page`, read as an HTML document.
pub open spec fn body_text(page: Seq<char>) -> Option<Seq<char>> {
    match selected(page, "body"@, ""@) {
        Some(elements) => if elements.len() > 0 && elements[0].text.len() > 0 {
            Some(elements[0].text[0])
        } else {
            None
        },
        None => None,
    }
}

/// The records that a search response carries: the items of the array `data`
/// of the JSON object that is the first text of its body.
pub open spec fn records_of(page: Seq<char>) -> Option<Seq<JsonView>> {
    match body_text(page) {
        Some(text) => match json_of(text) {
            Some(json) => match json.member("data"@) {
                Some(list) => list.items(),
                None => None,
            },
            None => None,
        },
        None => None,
    }
}

/// What a search answers to the response of the endpoint: the titles of the
/// well-formed records, in the response's order; nothing at all where the
/// response failed or carries no records.
pub open spec fn search_result(response: Option<Seq<char>>) -> Seq<AnimeView> {
    match response {
        Some(page) => match records_of(page) {
            Some(records) => records.filter_map(record_reader()),
            None => Seq::empty(),
        },
        None => Seq::empty(),
    }
}

/// Reads the titles found by a search from the response to the request for
/// [`search_url`]; `None` stands for a request that failed.
pub fn search(response: Option<&str>) -> (found: Vec<Anime>)
    ensures
        views(found@) == search_result(view_of(response)),
        response is None ==> found@.len() == 0,
{
    let empty: Vec<Anime> = Vec::new();
    assert(views(empty@) =~= Seq::<AnimeView>::empty());
    let page = match response {
        Some(page) => page,
        None => {
            return empty;
        },
    };
    let elements = match select(page, "body", "") {
        Some(elements) => elements,
        None => {
            return empty;
        },
    };
    if elements.len() == 0 {
        return empty;
    }
    let text = elements[0].get_text();
    if text.len() == 0 {
        return empty;
    }
    assert(views(text@)[0] == text@[0]@);
    let json = match parse(text[0].as_str()) {
        Some(json) => json,
        None => {
            return empty;
        },
    };
    let list = match json.get("data") {
        Some(list) => list,
        None => {
            return empty;
        },
    };
    match list.as_items() {
        Some(records) => anime_from_records(records),
        None => empty,
    }
}

/// The URL of the page of the title at `link`.
pub open spec fn page_url_text(link: Seq<char>) -> Seq<char> {
    "https://aniplay.co"@ + link
}

/// The URL to request when listing the episodes of `anime`.
pub fn page_url(anime: &Anime) -> (url: String)
    ensures
        url@ == page_url_text(anime@.link),
{
    join("https://aniplay.co", anime.get_link().as_str())
}

/// The first text of the last script block of `page`.
pub open spec fn script_of(page: Seq<char>) -> Option<Seq<char>> {
    match selected(page, "script"@, ""@) {
        Some(elements) => if elements.len() > 0 && elements.last().text.len() > 0 {
            Some(elements.last().text[0])
        } else {
            None
        },
        None => None,
    }
}

/// The episode records that `script` lists: what stands between the square
/// brackets after `episodes:`, cut at each `},{`.
pub open spec fn pieces_of(script: Seq<char>) -> Option<Seq<Seq<char>>> {
    match first_group("episodes:\\s*\\[(.*?)\\]"@, script) {
        Some(list) => Some(split_text(replaced_text(list, "episodes:["@, ""@), "},{"@)),
        None => None,
    }
}

/// The episode records that the response for a page lists; nothing where the
/// response failed or lists none.
pub open spec fn response_pieces(response: Option<Seq<char>>) -> Option<Seq<Seq<char>>> {
    match response {
        Some(page) => match script_of(page) {
            Some(script) => pieces_of(script),
            None => None,
        },
        None => None,
    }
}

/// The number that an episode record names.
pub open spec fn piece_number(piece: Seq<char>) -> Option<usize> {
    match first_group("number:\"(\\d+)\""@, piece) {
        Some(digits) => number_of(digits),
        None => None,
    }
}

/// The episode that one record describes, where `range` asks for it; nothing
/// for a record without a readable number or identifier.
pub open spec fn piece_episode(piece: Seq<char>, range: Option<RangeInclusive<usize>>) -> Option<
    EpisodeView,
> {
    let id = first_group("id:(\\d+)"@, piece);
    let number = piece_number(piece);
    if id is Some && number is Some && wanted(range, number.unwrap()) {
        Some(EpisodeView { number: number.unwrap(), episode_id: id.unwrap() })
    } else {
        None
    }
}

/// [`piece_episode`] for a given range, as a function value.
pub open spec fn episode_reader(range: Option<RangeInclusive<usize>>) -> spec_fn(
    Seq<char>,
) -> Option<EpisodeView> {
    |piece: Seq<char>| piece_episode(piece, range)
}

/// The streaming link that one record names, where `range` asks for its
/// episode; nothing for a record without a readable number or link.
pub open spec fn piece_link(piece: Seq<char>, range: Option<RangeInclusive<usize>>) -> Option<
    Seq<char>,
> {
    let link = first_group("streaming_link:\"([^\"]+)\""@, piece);
    let number = piece_number(piece);
    if link is Some && number is Some && wanted(range, number.unwrap()) {
        link
    } else {
        None
    }
}

/// [`piece_link`] for a given range, as a function value.
pub open spec fn link_reader(range: Option<RangeInclusive<usize>>) -> spec_fn(Seq<char>) -> Option<
    Seq<char>,
> {
    |piece: Seq<char>| piece_link(piece, range)
}

/// Reads the number that an episode record names.
fn read_piece_number(piece: &str) -> (r: Option<usize>)
    ensures
        r == piece_number(piece@),
{
    match capture("number:\"(\\d+)\"", piece) {
        Some(digits) => parse_number(digits.as_str()),
        None => None,
    }
}

/// Reads the episode that one record describes.
pub fn episode_from_piece(piece: &str, range: &Option<RangeInclusive<usize>>) -> (r: Option<
    Episode,
>)
    ensures
        view_of(r) == piece_episode(piece@, *range),
{
    let id = match capture("id:(\\d+)", piece) {
        Some(id) => id,
        None => {
            return None;
        },
    };
    let number = match read_piece_number(piece) {
        Some(number) => number,
        None => {
            return None;
        },
    };
    if is_wanted(range, number) {
        Some(Episode::new(number, id))
    } else {
        None
    }
}

/// Reads the streaming link that one record names.
pub fn video_from_piece(piece: &str, range: &Option<RangeInclusive<usize>>) -> (r: Option<Video>)
    ensures
        view_of(r) == piece_link(piece@, *range),
{
    let link = match capture("streaming_link:\"([^\"]+)\"", piece) {
        Some(link) => link,
        None => {
            return None;
        },
    };
    let number = match read_piece_number(piece) {
        Some(number) => number,
        None => {
            return None;
        },
    };
    if is_wanted(range, number) {
        Some(Video::new(link))
    } else {
        None
    }
}

/// Reads the episode records that the response for a page lists.
fn read_pieces(response: Option<&str>) -> (r: Option<Vec<String>>)
    ensures
        match r {
            Some(pieces) => response_pieces(view_of(response)) == Some(views(pieces@)),
            None => response_pieces(view_of(response)) is None,
        },
{
    let page = match response {
        Some(page) => page,
        None => {
            return None;
        },
    };
    let elements = match select(page, "script", "") {
        Some(elements) => elements,
        None => {
            return None;
        },
    };
    if elements.len() == 0 {
        return None;
    }
    let last = &elements[elements.len() - 1];
    assert(views(elements@).last() == last@);
    let text = last.get_text();
    if text.len() == 0 {
        return None;
    }
    assert(views(text@)[0] == text@[0]@);
    let list = match capture("episodes:\\s*\\[(.*?)\\]", text[0].as_str()) {
        Some(list) => list,
        None => {
            return None;
        },
    };
    let cleaned = replace(list.as_str(), "episodes:[", "");
    Some(split(cleaned.as_str(), "},{"))
}

/// Reads the episodes that `range` asks for from the records of a page.
pub fn episodes_from_pieces(pieces: &Vec<String>, range: &Option<RangeInclusive<usize>>) -> (found:
    Vec<Episode>)
    ensures
        views(found@) == views(pieces@).filter_map(episode_reader(*range)),
{
    let mut found: Vec<Episode> = Vec::new();
    let ghost all = views(pieces@);
    assert(views(found@) =~= all.take(0).filter_map(episode_reader(*range)));
    for i in 0..pieces.len()
        invariant
            all == views(pieces@),
            views(found@) == all.take(i as int).filter_map(episode_reader(*range)),
    {
        proof {
            all.lemma_filter_map_take_succ(episode_reader(*range), i as int);
        }
        match episode_from_piece(pieces[i].as_str(), range) {
            Some(episode) => {
                proof {
                    crate::seqs::lemma_views_push(found@, episode);
                }
                found.push(episode);
            },
            None => {},
        }
    }
    assert(all.take(pieces.len() as int) =~= all);
    found
}

/// Reads the streaming links of the episodes that `range` asks for from the
/// records of a page.
pub fn videos_from_pieces(pieces: &Vec<String>, range: &Option<RangeInclusive<usize>>) -> (found:
    Vec<Video>)
    ensures
        views(found@) == views(pieces@).filter_map(link_reader(*range)),
{
    let mut found: Vec<Video> = Vec::new();
    let ghost all = views(pieces@);
    assert(views(found@) =~= all.take(0).filter_map(link_reader(*range)));
    for i in 0..pieces.len()
        invariant
            all == views(pieces@),
            views(found@) == all.take(i as int).filter_map(link_reader(*range)),
    {
        proof {
            all.lemma_filter_map_take_succ(link_reader(*range), i as int);
        }
        match video_from_piece(pieces[i].as_str(), range) {
            Some(video) => {
                proof {
                    crate::seqs::lemma_views_push(found@, video);
                }
                found.push(video);
            },
            None => {},
        }
    }
    assert(all.take(pieces.len() as int) =~= all);
    found
}

/// The episodes that the response for a title page yields: those that its
/// records describe and `range` asks for; none where the response failed or
/// lists no records.
pub open spec fn listed(response: Option<Seq<char>>, range: Option<RangeInclusive<usize>>) -> Seq<
    EpisodeView,
> {
    match response_pieces(response) {
        Some(pieces) => pieces.filter_map(episode_reader(range)),
        None => Seq::empty(),
    }
}

/// Lists the episodes of `anime` that `range` asks for, from the response to
/// the request for [`page_url`]; `None` stands for a request that failed.
pub fn get_anime_episodes(
    anime: Anime,
    range: Option<RangeInclusive<usize>>,
    response: Option<&str>,
) -> (list: AnimeEpisodes)
    ensures
        list@ == (AnimeEpisodesView {
            site: Sites::AniPlay,
            link: anime@.link,
            episodes: listed(view_of(response), range),
        }),
{
    let episodes = match read_pieces(response) {
        Some(pieces) => episodes_from_pieces(&pieces, &range),
        None => {
            let none: Vec<Episode> = Vec::new();
            assert(views(none@) =~= Seq::<EpisodeView>::empty());
            none
        },
    };
    AnimeEpisodes::new(Sites::AniPlay, anime.get_link().clone(), episodes)
}

/// The URL of the page on which the episode `id` plays.
pub open spec fn watch_url_text(id: Seq<char>) -> Seq<char> {
    "https://aniplay.co/watch/"@ + id
}

/// The URL to request for the streaming links of `list`: the page of its last
/// episode, which is taken to name the links of all episodes. There is none
/// for a list without episodes.
pub fn watch_url(list: &AnimeEpisodes) -> (url: Option<String>)
    ensures
        view_of(url) == if list@.episodes.len() > 0 {
            Some(watch_url_text(list@.episodes.last().episode_id))
        } else {
            None
        },
{
    let episodes = list.get_episodes();
    if episodes.len() == 0 {
        None
    } else {
        let last = &episodes[episodes.len() - 1];
        assert(views(episodes@).last() == last@);
        Some(join("https://aniplay.co/watch/", last.get_episode_id().as_str()))
    }
}

/// The streaming links that the response for a watch page yields: those of
/// its records whose episode number lies in `range`; none where the response
/// failed or lists no records.
pub open spec fn linked(response: Option<Seq<char>>, range: RangeInclusive<usize>) -> Seq<
    Seq<char>,
> {
    match response_pieces(response) {
        Some(pieces) => pieces.filter_map(link_reader(Some(range))),
        None => Seq::empty(),
    }
}

/// Reads the streaming links of the episodes whose number lies in `range`
/// from the response to the request for [`watch_url`]; `None` stands for a
/// request that failed.
pub fn get_episodes_link(range: RangeInclusive<usize>, response: Option<&str>) -> (videos: Vec<
    Video,
>)
    ensures
        views(videos@) == linked(view_of(response), range),
        response is None ==> videos@.len() == 0,
{
    match read_pieces(response) {
        Some(pieces) => videos_from_pieces(&pieces, &Some(range)),
        None => {
            let none: Vec<Video> = Vec::new();
            assert(views(none@) =~= Seq::<Seq<char>>::empty());
            none
        },
    }
}

/// A malformed record costs a search only itself: the titles found are as
/// many as the records less the malformed ones, and none is found only where
/// every record is malformed.
pub proof fn lemma_malformed_records_cost_only_themselves(records: Seq<JsonView>)
    ensures
        records.filter_map(record_reader()).len() + rejected(records, record_reader())
            == records.len(),
        records.filter_map(record_reader()).len() == 0 <==> forall|i: int|
            0 <= i < records.len() ==> record_anime(#[trigger] records[i]) is None,
{
    lemma_filter_map_loses_only_rejected(records, record_reader());
    assert forall|i: int| 0 <= i < records.len() implies (rejects(
        record_reader(),
        #[trigger] records[i],
    ) <==> record_anime(records[i]) is None) by {}
}

/// Two searches on the same response find the same titles in the same order.
pub proof fn lemma_search_repeats(
    response: Option<Seq<char>>,
    first: Seq<AnimeView>,
    second: Seq<AnimeView>,
)
    requires
        first == search_result(response),
        second == search_result(response),
    ensures
        first == second,
{
}

} // verus!
