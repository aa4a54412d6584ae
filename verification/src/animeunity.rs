//! AnimeUnity: search results come as a JSON array in an attribute of the
//! archive page; episodes are listed page by page through a JSON endpoint; the
//! player URL of an episode stands in an attribute of the episode's page.

use vstd::prelude::*;
use vstd::string::*;
use std::ops::RangeInclusive;
use crate::{
    Anime, AnimeEpisodes, AnimeEpisodesView, AnimeInfo, AnimeInfoView, AnimeState, AnimeView,
    Episode, EpisodeView, Sites, Video,
};
use crate::episodes::{is_wanted, keep_wanted, kept, wanted};
use crate::html::{rewrite, rewritten, select, selected};
use crate::json::{json_of, parse, Json, JsonView};
use crate::pages::{page_count, page_window, pages_needed, window};
use crate::pattern::{capture, first_group};
use crate::records::{
    names_field, read_names, read_text, read_lenient_text, read_unsigned, text_field,
    lenient_text_field, unsigned_field,
};
use crate::seqs::{lemma_filter_map_loses_only_rejected, rejected, rejects, responses, view_of, views};
use crate::text::{decimal, decimal_text, number_of, numeric, numeric_part, parse_number, same_text};

verus! {

/// The state that AnimeUnity's status text stands for.
pub open spec fn state_of(status: Seq<char>) -> AnimeState {
    if status == "In Corso"@ {
        AnimeState::InCorso
    } else if status == "Terminato"@ {
        AnimeState::Finito
    } else {
        AnimeState::NonValido
    }
}

/// The state that AnimeUnity's status text stands for.
pub fn read_state(status: &str) -> (state: AnimeState)
    ensures
        state == state_of(status@),
{
    if same_text(status, "In Corso") {
        AnimeState::InCorso
    } else if same_text(status, "Terminato") {
        AnimeState::Finito
    } else {
        AnimeState::NonValido
    }
}

/// The URL of the archive page that lists the titles matching `keywords`.
pub open spec fn search_url_text(keywords: Seq<char>) -> Seq<char> {
    "https://www.animeunity.to/archivio?title="@ + keywords
}

/// The URL to request for a search of `keywords`.
pub fn search_url(keywords: &str) -> (url: String)
    ensures
        url@ == search_url_text(keywords@),
{
    crate::text::join("https://www.animeunity.to/archivio?title=", keywords)
}

/// The title that one record of the archive describes; nothing for a
/// malformed record, that is one with a field of the wrong kind.
pub open spec fn record_anime(record: JsonView) -> Option<AnimeView> {
    let id = unsigned_field(record, "id"@);
    let slug = text_field(record, "slug"@);
    let name = text_field(record, "title_eng"@);
    let year = text_field(record, "date"@);
    let status = text_field(record, "status"@);
    let genres = names_field(record, "genres"@);
    let studio = text_field(record, "studio"@);
    let stars = text_field(record, "score"@);
    let description = text_field(record, "plot"@);
    let cover = text_field(record, "imageurl"@);
    if id is Some && slug is Some && name is Some && year is Some && status is Some
        && genres is Some && studio is Some && stars is Some && description is Some
        && cover is Some {
        Some(
            AnimeView {
                site: Sites::AnimeUnity,
                link: "/anime/"@ + id.unwrap() + "-"@ + slug.unwrap(),
                info: AnimeInfoView {
                    name: name.unwrap(),
                    year: year.unwrap(),
                    state: state_of(status.unwrap()),
                    description: description.unwrap(),
                    genres: genres.unwrap(),
                    studio: studio.unwrap(),
                    stars: stars.unwrap(),
                    cover: cover.unwrap(),
                    cover_full: lenient_text_field(record, "cover"@),
                    banner: lenient_text_field(record, "imageurl_cover"@),
                },
            },
        )
    } else {
        None
    }
}

/// [`record_anime`] as a function value.
pub open spec fn record_reader() -> spec_fn(JsonView) -> Option<AnimeView> {
    |record: JsonView| record_anime(record)
}

/// Reads the title that one record of the archive describes.
pub fn anime_from_record(record: &Json) -> (r: Option<Anime>)
    ensures
        view_of(r) == record_anime(record@),
{
    let id = match read_unsigned(record, "id") {
        Some(t) => t,
        None => {
            return None;
        },
    };
    let slug = match read_text(record, "slug") {
        Some(t) => t,
        None => {
            return None;
        },
    };
    let name = match read_text(record, "title_eng") {
        Some(t) => t,
        None => {
            return None;
        },
    };
    let year = match read_text(record, "date") {
        Some(t) => t,
        None => {
            return None;
        },
    };
    let status = match read_text(record, "status") {
        Some(t) => t,
        None => {
            return None;
        },
    };
    let genres = match read_names(record, "genres") {
        Some(t) => t,
        None => {
            return None;
        },
    };
    let studio = match read_text(record, "studio") {
        Some(t) => t,
        None => {
            return None;
        },
    };
    let stars = match read_text(record, "score") {
        Some(t) => t,
        None => {
            return None;
        },
    };
    let description = match read_text(record, "plot") {
        Some(t) => t,
        None => {
            return None;
        },
    };
    let cover = match read_text(record, "imageurl") {
        Some(t) => t,
        None => {
            return None;
        },
    };
    let cover_full = read_lenient_text(record, "cover");
    let banner = read_lenient_text(record, "imageurl_cover");
    let state = read_state(status.as_str());
    let mut link = String::from_str("/anime/");
    link.append(id.as_str());
    link.append("-");
    link.append(slug.as_str());
    Some(
        Anime::new(
            Sites::AnimeUnity,
            link,
            AnimeInfo::new(
                name,
                year,
                state,
                description,
                genres,
                studio,
                stars,
                cover,
                cover_full,
                banner,
            ),
        ),
    )
}

/// Reads the titles that the records of the archive describe, in their order,
/// leaving out the malformed records.
pub fn anime_from_records(records: &Vec<Json>) -> (found: Vec<Anime>)
    ensures
        views(found@) == views(records@).filter_map(record_reader()),
{
    let mut found: Vec<Anime> = Vec::new();
    let ghost all = views(records@);
    assert(views(found@) =~= all.take(0).filter_map(record_reader()));
    for i in 0..records.len()
        invariant
            all == views(records@),
            views(found@) == all.take(i as int).filter_map(record_reader()),
    {
        proof {
            all.lemma_filter_map_take_succ(record_reader(), i as int);
        }
        match anime_from_record(&records[i]) {
            Some(anime) => {
                proof {
                    crate::seqs::lemma_views_push(found@, anime);
                }
                found.push(anime);
            },
            None => {},
        }
    }
    assert(all.take(records.len() as int) =~= all);
    found
}

/// The records that the archive page `page` carries: the items of the JSON
/// array in the attribute `records` of its first `archivio` element.
pub open spec fn records_of(page: Seq<char>) -> Option<Seq<JsonView>> {
    match selected(page, "archivio"@, "records"@) {
        Some(elements) => if elements.len() > 0 {
            match elements[0].attr {
                Some(text) => match json_of(text) {
                    Some(json) => json.items(),
                    None => None,
                },
                None => None,
            }
        } else {
            None
        },
        None => None,
    }
}

/// What a search answers to the response for its archive page: the titles of
/// the well-formed records, in the page's order; nothing at all where the
/// response failed or carries no records.
pub open spec fn search_result(response: Option<Seq<char>>) -> Seq<AnimeView> {
    match response {
        Some(page) => match records_of(page) {
            Some(records) => records.filter_map(record_reader()),
            None => Seq::empty(),
        },
        None => Seq::empty(),
    }
}

/// Reads the titles found by a search from the response to the request for
/// [`search_url`]; `None` stands for a request that failed.
pub fn search(response: Option<&str>) -> (found: Vec<Anime>)
    ensures
        views(found@) == search_result(view_of(response)),
        response is None ==> found@.len() == 0,
{
    let empty: Vec<Anime> = Vec::new();
    assert(views(empty@) =~= Seq::<AnimeView>::empty());
    let page = match response {
        Some(page) => page,
        None => {
            return empty;
        },
    };
    let elements = match select(page, "archivio", "records") {
        Some(elements) => elements,
        None => {
            return empty;
        },
    };
    if elements.len() == 0 {
        return empty;
    }
    let text = match elements[0].get_attr() {
        Some(text) => text,
        None => {
            return empty;
        },
    };
    let json = match parse(text.as_str()) {
        Some(json) => json,
        None => {
            return empty;
        },
    };
    match json.as_items() {
        Some(records) => anime_from_records(records),
        None => empty,
    }
}

/// The numeric identifier of a title: the numeric characters of its link.
pub open spec fn anime_id(link: Seq<char>) -> Seq<char> {
    link.filter(|c: char| numeric(c))
}

/// The URL of the endpoint that reports how many episodes the title at `link`
/// has.
pub open spec fn info_url_text(link: Seq<char>) -> Seq<char> {
    "https://www.animeunity.to/info_api/"@ + anime_id(link) + "/"@
}

/// The URL to request first when listing the episodes of `anime`.
pub fn info_url(anime: &Anime) -> (url: String)
    ensures
        url@ == info_url_text(anime@.link),
{
    let id = numeric_part(anime.get_link().as_str());
    let mut url = String::from_str("https://www.animeunity.to/info_api/");
    url.append(id.as_str());
    url.append("/");
    url
}

/// The pattern that finds the episode count in the response of the info
/// endpoint.
pub open spec fn count_pattern() -> Seq<char> {
    "\"episodes_count\":(\\d+)"@
}

/// The episode count that the response of the info endpoint reports, read
/// from the response as an HTML parser writes it out again. There is none
/// where the request failed, where the response names no count, or where the
/// count does not fit a `usize`.
pub open spec fn counted(info: Option<Seq<char>>) -> Option<usize> {
    match info {
        Some(page) => match first_group(count_pattern(), rewritten(page)) {
            Some(digits) => number_of(digits),
            None => None,
        },
        None => None,
    }
}

/// Reads the episode count from the response to the request for [`info_url`].
pub fn episode_count(info: Option<&str>) -> (count: Option<usize>)
    ensures
        count == counted(view_of(info)),
{
    match info {
        Some(page) => {
            let document = rewrite(page);
            match capture("\"episodes_count\":(\\d+)", document.as_str()) {
                Some(digits) => parse_number(digits.as_str()),
                None => None,
            }
        },
        None => None,
    }
}

/// The URL of page `page` of the episodes of the title at `link`.
pub open spec fn page_url_text(link: Seq<char>, page: int) -> Seq<char> {
    "https://www.animeunity.to/info_api/"@ + anime_id(link) + "/1?start_range="@ + decimal_text(
        window(page).0 as nat,
    ) + "&end_range="@ + decimal_text(window(page).1 as nat)
}

/// The URL of page `page` of the episodes of `anime`, pages counted from 1.
pub fn page_url(anime: &Anime, page: usize) -> (url: String)
    requires
        page >= 1,
    ensures
        url@ == page_url_text(anime@.link, page as int),
{
    let id = numeric_part(anime.get_link().as_str());
    let (first, last) = page_window(page);
    let mut url = String::from_str("https://www.animeunity.to/info_api/");
    url.append(id.as_str());
    url.append("/1?start_range=");
    url.append(decimal(first).as_str());
    url.append("&end_range=");
    url.append(decimal(last).as_str());
    url
}

/// The URLs of the pages that cover `count` episodes of the title at `link`:
/// one for each page from 1 to `pages_needed(count)`, in that order.
pub open spec fn page_url_texts(link: Seq<char>, count: int) -> Seq<Seq<char>> {
    Seq::new(pages_needed(count) as nat, |i: int| page_url_text(link, i + 1))
}

/// The URLs to request, in order, for the episodes of `anime`, given the
/// response to the request for [`info_url`]: none where that response reports
/// no episode count.
pub fn page_urls(anime: &Anime, info: Option<&str>) -> (urls: Vec<String>)
    ensures
        views(urls@) == match counted(view_of(info)) {
            Some(count) => page_url_texts(anime@.link, count as int),
            None => Seq::empty(),
        },
        info is None ==> urls@.len() == 0,
{
    let mut urls: Vec<String> = Vec::new();
    let count = match episode_count(info) {
        Some(count) => count,
        None => {
            assert(views(urls@) =~= Seq::<Seq<char>>::empty());
            return urls;
        },
    };
    let pages = page_count(count);
    let mut page: usize = 0;
    while page < pages
        invariant
            page <= pages,
            pages == pages_needed(count as int),
            urls@.len() == page,
            forall|i: int| 0 <= i < page ==> (#[trigger] urls@[i])@ == page_url_text(
                anime@.link,
                i + 1,
            ),
        decreases pages - page,
    {
        page = page + 1;
        let url = page_url(anime, page);
        urls.push(url);
    }
    assert(views(urls@) =~= page_url_texts(anime@.link, count as int));
    urls
}

/// The number of an episode record: its `number`, a string, read in decimal.
pub open spec fn record_number(record: JsonView) -> Option<usize> {
    match record.member("number"@) {
        Some(value) => match value.text() {
            Some(digits) => number_of(digits),
            None => None,
        },
        None => None,
    }
}

/// The identifier of an episode record: its `id`, an unsigned integer.
pub open spec fn record_id(record: JsonView) -> Option<u64> {
    match record.member("id"@) {
        Some(value) => value.unsigned(),
        None => None,
    }
}

/// The episode that one record of a page describes, where `range` asks for
/// it; nothing for a record without a readable number or identifier.
pub open spec fn record_episode(record: JsonView, range: Option<RangeInclusive<usize>>) -> Option<
    EpisodeView,
> {
    let number = record_number(record);
    let id = record_id(record);
    if number is Some && id is Some && wanted(range, number.unwrap()) {
        Some(
            EpisodeView {
                number: number.unwrap(),
                episode_id: decimal_text(id.unwrap() as nat),
            },
        )
    } else {
        None
    }
}

/// [`record_episode`] for a given range, as a function value.
pub open spec fn episode_reader(range: Option<RangeInclusive<usize>>) -> spec_fn(
    JsonView,
) -> Option<EpisodeView> {
    |record: JsonView| record_episode(record, range)
}

/// Reads the episode that one record of a page describes.
pub fn episode_from_record(record: &Json, range: &Option<RangeInclusive<usize>>) -> (r: Option<
    Episode,
>)
    ensures
        view_of(r) == record_episode(record@, *range),
{
    let number = match record.get("number") {
        Some(value) => match value.as_text() {
            Some(digits) => match parse_number(digits) {
                Some(number) => number,
                None => {
                    return None;
                },
            },
            None => {
                return None;
            },
        },
        None => {
            return None;
        },
    };
    let id = match record.get("id") {
        Some(value) => match value.as_unsigned() {
            Some(id) => id,
            None => {
                return None;
            },
        },
        None => {
            return None;
        },
    };
    if is_wanted(range, number) {
        Some(Episode::new(number, decimal(id as u128)))
    } else {
        None
    }
}

/// Appends to `out` the episodes that the records of one page describe and
/// `range` asks for, in the records' order.
pub fn episodes_from_records(
    records: &Vec<Json>,
    range: &Option<RangeInclusive<usize>>,
    out: &mut Vec<Episode>,
)
    ensures
        views(final(out)@) == views(old(out)@) + views(records@).filter_map(
            episode_reader(*range),
        ),
{
    let ghost before = views(out@);
    let ghost all = views(records@);
    assert(views(out@) =~= before + all.take(0).filter_map(episode_reader(*range)));
    for i in 0..records.len()
        invariant
            all == views(records@),
            views(out@) == before + all.take(i as int).filter_map(episode_reader(*range)),
    {
        proof {
            all.lemma_filter_map_take_succ(episode_reader(*range), i as int);
        }
        match episode_from_record(&records[i], range) {
            Some(episode) => {
                proof {
                    crate::seqs::lemma_views_push(out@, episode);
                    assert(views(out@).push(episode@) =~= before + (all.take(
                        i as int,
                    ).filter_map(episode_reader(*range)) + seq![episode@]));
                }
                out.push(episode);
            },
            None => {
                assert(all.take(i as int).filter_map(episode_reader(*range))
                    + Seq::<EpisodeView>::empty() =~= all.take(i as int).filter_map(
                    episode_reader(*range),
                ));
            },
        }
    }
    assert(all.take(records.len() as int) =~= all);
}

/// The episode records that one page of the listing carries: the items of the
/// array `episodes` of the JSON object that is the first text of the page's
/// body.
pub open spec fn page_records(page: Seq<char>) -> Option<Seq<JsonView>> {
    match selected(page, "body"@, ""@) {
        Some(elements) => if elements.len() > 0 && elements[0].text.len() > 0 {
            match json_of(elements[0].text[0]) {
                Some(json) => match json.member("episodes"@) {
                    Some(list) => list.items(),
                    None => None,
                },
                None => None,
            }
        } else {
            None
        },
        None => None,
    }
}

/// The episodes that the response for one page yields: those that its
/// records describe and `range` asks for; none where the response failed or
/// carries no records.
pub open spec fn page_episodes(
    response: Option<Seq<char>>,
    range: Option<RangeInclusive<usize>>,
) -> Seq<EpisodeView> {
    match response {
        Some(page) => match page_records(page) {
            Some(records) => records.filter_map(episode_reader(range)),
            None => Seq::empty(),
        },
        None => Seq::empty(),
    }
}

/// The episodes that the responses for all pages yield, page after page.
pub open spec fn listed(
    responses: Seq<Option<Seq<char>>>,
    range: Option<RangeInclusive<usize>>,
) -> Seq<EpisodeView>
    decreases responses.len(),
{
    if responses.len() == 0 {
        Seq::empty()
    } else {
        listed(responses.drop_last(), range) + page_episodes(responses.last(), range)
    }
}

/// Appends to `out` the episodes that the response for one page yields.
fn episodes_from_page(page: &str, range: &Option<RangeInclusive<usize>>, out: &mut Vec<Episode>)
    ensures
        views(final(out)@) == views(old(out)@) + page_episodes(Some(page@), *range),
{
    assert(views(out@) + Seq::<EpisodeView>::empty() =~= views(out@));
    let elements = match select(page, "body", "") {
        Some(elements) => elements,
        None => {
            return ;
        },
    };
    if elements.len() == 0 {
        return ;
    }
    let text = elements[0].get_text();
    if text.len() == 0 {
        return ;
    }
    assert(views(text@)[0] == text@[0]@);
    let json = match parse(text[0].as_str()) {
        Some(json) => json,
        None => {
            return ;
        },
    };
    let list = match json.get("episodes") {
        Some(list) => list,
        None => {
            return ;
        },
    };
    match list.as_items() {
        Some(records) => episodes_from_records(records, range, out),
        None => {},
    }
}

/// Lists the episodes of `anime` that `range` asks for, from the responses to
/// the requests for [`page_urls`], in that order; `None` stands for a request
/// that failed, and such a page contributes nothing.
pub fn get_anime_episodes(
    anime: Anime,
    range: Option<RangeInclusive<usize>>,
    pages: &Vec<Option<String>>,
) -> (list: AnimeEpisodes)
    ensures
        list@ == (AnimeEpisodesView {
            site: Sites::AnimeUnity,
            link: anime@.link,
            episodes: listed(responses(pages@), range),
        }),
{
    let mut episodes: Vec<Episode> = Vec::new();
    let ghost all = responses(pages@);
    assert(views(episodes@) =~= listed(all.take(0), range));
    for i in 0..pages.len()
        invariant
            all == responses(pages@),
            views(episodes@) == listed(all.take(i as int), range),
    {
        proof {
            assert(all.take(i + 1).drop_last() =~= all.take(i as int));
            assert(all.take(i + 1).last() == view_of(pages@[i as int]));
        }
        match &pages[i] {
            Some(page) => {
                episodes_from_page(page.as_str(), &range, &mut episodes);
            },
            None => {
                assert(views(episodes@) + Seq::<EpisodeView>::empty() =~= views(episodes@));
            },
        }
    }
    assert(all.take(pages.len() as int) =~= all);
    AnimeEpisodes::new(Sites::AnimeUnity, anime.get_link().clone(), episodes)
}

/// The URL of the page of the episode `id` of the title at `link`.
pub open spec fn episode_url_text(link: Seq<char>, id: Seq<char>) -> Seq<char> {
    "https://www.animeunity.to"@ + link + "/"@ + id
}

/// The URLs of the pages of `episodes`, in order.
pub open spec fn episode_url_texts(link: Seq<char>, episodes: Seq<EpisodeView>) -> Seq<Seq<char>> {
    episodes.map_values(|e: EpisodeView| episode_url_text(link, e.episode_id))
}

/// The URLs to request, in order, for the player links of the episodes of
/// `list` whose number lies in `range`.
pub fn episode_urls(list: &AnimeEpisodes, range: RangeInclusive<usize>) -> (urls: Vec<String>)
    ensures
        views(urls@) == episode_url_texts(list@.link, kept(list@.episodes, Some(range))),
{
    let chosen = keep_wanted(list.get_episodes(), &Some(range));
    let mut urls: Vec<String> = Vec::new();
    for i in 0..chosen.len()
        invariant
            urls@.len() == i,
            forall|k: int| 0 <= k < i ==> (#[trigger] urls@[k])@ == episode_url_text(
                list@.link,
                chosen@[k]@.episode_id,
            ),
    {
        let mut url = String::from_str("https://www.animeunity.to");
        url.append(list.get_link().as_str());
        url.append("/");
        url.append(chosen[i].get_episode_id().as_str());
        urls.push(url);
    }
    assert(views(urls@) =~= episode_url_texts(list@.link, views(chosen@)));
    urls
}

/// The player URL that the response for an episode's page carries: the
/// attribute `embed_url` of its first `video-player` element.
pub open spec fn embed_of(response: Option<Seq<char>>) -> Option<Seq<char>> {
    match response {
        Some(page) => match selected(page, "video-player"@, "embed_url"@) {
            Some(elements) => if elements.len() > 0 {
                elements[0].attr
            } else {
                None
            },
            None => None,
        },
        None => None,
    }
}

/// [`embed_of`] as a function value.
pub open spec fn embed_reader() -> spec_fn(Option<Seq<char>>) -> Option<Seq<char>> {
    |response: Option<Seq<char>>| embed_of(response)
}

/// Reads the player URL from the response for an episode's page.
pub fn video_from_page(response: &Option<String>) -> (r: Option<Video>)
    ensures
        view_of(r) == embed_of(view_of(*response)),
{
    let page = match response {
        Some(page) => page,
        None => {
            return None;
        },
    };
    let elements = match select(page.as_str(), "video-player", "embed_url") {
        Some(elements) => elements,
        None => {
            return None;
        },
    };
    if elements.len() == 0 {
        return None;
    }
    match elements[0].get_attr() {
        Some(url) => Some(Video::new(url.clone())),
        None => None,
    }
}

/// Reads the player links from the responses to the requests for
/// [`episode_urls`], in that order. A response that failed, or that carries
/// no player URL, is left out.
pub fn get_episodes_link(pages: &Vec<Option<String>>) -> (videos: Vec<Video>)
    ensures
        views(videos@) == responses(pages@).filter_map(embed_reader()),
{
    let mut videos: Vec<Video> = Vec::new();
    let ghost all = responses(pages@);
    assert(views(videos@) =~= all.take(0).filter_map(embed_reader()));
    for i in 0..pages.len()
        invariant
            all == responses(pages@),
            views(videos@) == all.take(i as int).filter_map(embed_reader()),
    {
        proof {
            all.lemma_filter_map_take_succ(embed_reader(), i as int);
        }
        match video_from_page(&pages[i]) {
            Some(video) => {
                proof {
                    crate::seqs::lemma_views_push(videos@, video);
                }
                videos.push(video);
            },
            None => {},
        }
    }
    assert(all.take(pages.len() as int) =~= all);
    videos
}

/// A malformed record costs a search only itself: the titles found are as
/// many as the records less the malformed ones, and none is found only where
/// every record is malformed.
pub proof fn lemma_malformed_records_cost_only_themselves(records: Seq<JsonView>)
    ensures
        records.filter_map(record_reader()).len() + rejected(records, record_reader())
            == records.len(),
        records.filter_map(record_reader()).len() == 0 <==> forall|i: int|
            0 <= i < records.len() ==> record_anime(#[trigger] records[i]) is None,
{
    lemma_filter_map_loses_only_rejected(records, record_reader());
    assert forall|i: int| 0 <= i < records.len() implies (rejects(
        record_reader(),
        #[trigger] records[i],
    ) <==> record_anime(records[i]) is None) by {}
}

/// Two searches on the same response find the same titles in the same order.
pub proof fn lemma_search_repeats(
    response: Option<Seq<char>>,
    first: Seq<AnimeView>,
    second: Seq<AnimeView>,
)
    requires
        first == search_result(response),
        second == search_result(response),
    ensures
        first == second,
{
}

} // verus!
