//! AnimeWorld: a search lists links to title pages, each of which describes
//! one title in its info box; the episodes of a title are the anchors of the
//! active server on its page, numbered in document order; the player link of
//! an episode is built from its identifier alone.

use vstd::prelude::*;
use vstd::string::*;
use std::ops::RangeInclusive;
use crate::{
    Anime, AnimeEpisodes, AnimeEpisodesView, AnimeInfo, AnimeInfoView, AnimeState, AnimeView,
    Episode, EpisodeView, Sites, Video,
};
use crate::episodes::{is_wanted, keep_wanted, kept, wanted};
use crate::html::{
    group_views, select, select_within, selected, selected_within, Element, ElementView,
};
use crate::pattern::{capture, first_group};
use crate::seqs::{lemma_filter_map_loses_only_rejected, rejected, rejects, view_of, views};
use crate::text::{concat, concat_all, join, same_text, split, split_text, trim, trimmed};

verus! {

/// The state that AnimeWorld's status text stands for.
pub open spec fn state_of(status: Seq<char>) -> AnimeState {
    if status == "In corso"@ {
        AnimeState::InCorso
    } else if status == "Finito"@ {
        AnimeState::Finito
    } else {
        AnimeState::NonValido
    }
}

/// The state that AnimeWorld's status text stands for.
pub fn read_state(status: &str) -> (state: AnimeState)
    ensures
        state == state_of(status@),
{
    if same_text(status, "In corso") {
        AnimeState::InCorso
    } else if same_text(status, "Finito") {
        AnimeState::Finito
    } else {
        AnimeState::NonValido
    }
}

/// The URL of the page that lists the titles matching `keywords`.
pub open spec fn search_url_text(keywords: Seq<char>) -> Seq<char> {
    "https://animeworld.so/search?keyword="@ + keywords
}

/// The URL to request for a search of `keywords`.
pub fn search_url(keywords: &str) -> (url: String)
    ensures
        url@ == search_url_text(keywords@),
{
    join("https://animeworld.so/search?keyword=", keywords)
}

/// The URL of the page at `link`, a path on the site.
pub open spec fn page_url_text(link: Seq<char>) -> Seq<char> {
    "https://animeworld.so"@ + link
}

/// The URL to request for the page at `link`.
pub fn page_url(link: &str) -> (url: String)
    ensures
        url@ == page_url_text(link@),
{
    join("https://animeworld.so", link)
}

/// The attribute that a query read of `element`.
pub open spec fn attr_of(element: ElementView) -> Option<Seq<char>> {
    element.attr
}

/// [`attr_of`] as a function value.
pub open spec fn attr_reader() -> spec_fn(ElementView) -> Option<Seq<char>> {
    |element: ElementView| attr_of(element)
}

/// The links that a search's result page lists: the `href` of each result
/// that has one, in the page's order; none where the response failed.
pub open spec fn listed_links(response: Option<Seq<char>>) -> Seq<Seq<char>> {
    match response {
        Some(page) => match selected(page, ".widget-body .film-list .item .name"@, "href"@) {
            Some(elements) => elements.filter_map(attr_reader()),
            None => Seq::empty(),
        },
        None => Seq::empty(),
    }
}

/// Reads the links of the titles found by a search from the response to the
/// request for [`search_url`]; `None` stands for a request that failed.
pub fn result_links(response: Option<&str>) -> (links: Vec<String>)
    ensures
        views(links@) == listed_links(view_of(response)),
        response is None ==> links@.len() == 0,
{
    let mut links: Vec<String> = Vec::new();
    assert(views(links@) =~= Seq::<Seq<char>>::empty());
    let page = match response {
        Some(page) => page,
        None => {
            return links;
        },
    };
    let elements = match select(page, ".widget-body .film-list .item .name", "href") {
        Some(elements) => elements,
        None => {
            return links;
        },
    };
    let ghost all = views(elements@);
    assert(views(links@) =~= all.take(0).filter_map(attr_reader()));
    for i in 0..elements.len()
        invariant
            all == views(elements@),
            views(links@) == all.take(i as int).filter_map(attr_reader()),
    {
        proof {
            all.lemma_filter_map_take_succ(attr_reader(), i as int);
        }
        match elements[i].get_attr() {
            Some(link) => {
                let link = link.clone();
                proof {
                    crate::seqs::lemma_views_push(links@, link);
                }
                links.push(link);
            },
            None => {},
        }
    }
    assert(all.take(elements.len() as int) =~= all);
    links
}

/// The selector of a title page's info box.
pub open spec fn info_selector() -> Seq<char> {
    ".widget.info .widget-body .row"@
}

/// The text of the first element that `inner` matches in the info box of
/// `page`; nothing where the page has no info box or the box no such element.
pub open spec fn info_text(page: Seq<char>, inner: Seq<char>) -> Option<Seq<char>> {
    match selected_within(page, info_selector(), inner, ""@) {
        Some(groups) => if groups.len() > 0 && groups[0].len() > 0 {
            Some(concat(groups[0][0].text))
        } else {
            None
        },
        None => None,
    }
}

/// The texts of `elements`, one after the other.
pub open spec fn joined_text(elements: Seq<ElementView>) -> Seq<char>
    decreases elements.len(),
{
    if elements.len() == 0 {
        Seq::empty()
    } else {
        joined_text(elements.drop_last()) + concat(elements.last().text)
    }
}

/// The text of all rows in the info box of `page`, one after the other;
/// nothing where the page has no info box.
pub open spec fn info_rows(page: Seq<char>) -> Option<Seq<char>> {
    match selected_within(page, info_selector(), ".row"@, ""@) {
        Some(groups) => if groups.len() > 0 {
            Some(joined_text(groups[0]))
        } else {
            None
        },
        None => None,
    }
}

/// The address of the cover image in the info box of `page`; nothing where
/// the page has no info box or the box no image with an address.
pub open spec fn info_cover(page: Seq<char>) -> Option<Seq<char>> {
    match selected_within(page, info_selector(), ".thumb img"@, "src"@) {
        Some(groups) => if groups.len() > 0 && groups[0].len() > 0 {
            groups[0][0].attr
        } else {
            None
        },
        None => None,
    }
}

/// What `pattern` captures in `rows`, trimmed.
pub open spec fn captured(rows: Seq<char>, pattern: Seq<char>) -> Option<Seq<char>> {
    match first_group(pattern, rows) {
        Some(found) => Some(trimmed(found)),
        None => None,
    }
}

/// Each of `parts`, trimmed.
pub open spec fn all_trimmed(parts: Seq<Seq<char>>) -> Seq<Seq<char>> {
    parts.map_values(|part: Seq<char>| trimmed(part))
}

/// The genres that `rows` names: the comma-separated items after `Genere:`,
/// each trimmed; none where the rows name no genres.
pub open spec fn genres_in(rows: Seq<char>) -> Seq<Seq<char>> {
    match first_group("Genere:\\s*([\\w\\s,]+)\\n"@, rows) {
        Some(found) => all_trimmed(split_text(found, ","@)),
        None => Seq::empty(),
    }
}

/// The title that the page at `link` describes; nothing for a malformed page,
/// that is one that lacks the info box or one of the fields read from it
/// other than the genres.
pub open spec fn page_anime(link: Seq<char>, page: Seq<char>) -> Option<AnimeView> {
    let name = info_text(page, ".head .title"@);
    let rows = info_rows(page);
    let description = info_text(page, ".desc"@);
    let cover = info_cover(page);
    if name is Some && rows is Some && description is Some && cover is Some {
        let year = captured(rows.unwrap(), "Data di Uscita:\\s*([\\w\\s]+)\\n"@);
        let status = captured(rows.unwrap(), "Stato:\\s*(.*)"@);
        let studio = captured(rows.unwrap(), "Studio:\\s*([\\w\\s]+)\\n"@);
        let stars = captured(rows.unwrap(), "Voto:\\s*([\\d.]+)"@);
        if year is Some && status is Some && studio is Some && stars is Some {
            Some(
                AnimeView {
                    site: Sites::AnimeWorld,
                    link,
                    info: AnimeInfoView {
                        name: name.unwrap(),
                        year: year.unwrap(),
                        state: state_of(status.unwrap()),
                        description: description.unwrap(),
                        genres: genres_in(rows.unwrap()),
                        studio: studio.unwrap(),
                        stars: stars.unwrap(),
                        cover: cover.unwrap(),
                        cover_full: Seq::empty(),
                        banner: Seq::empty(),
                    },
                },
            )
        } else {
            None
        }
    } else {
        None
    }
}

/// Reads the text of the first element that `inner` matches in the info box.
fn read_info_text(page: &str, inner: &str) -> (r: Option<String>)
    ensures
        view_of(r) == info_text(page@, inner@),
{
    let groups = match select_within(page, ".widget.info .widget-body .row", inner, "") {
        Some(groups) => groups,
        None => {
            return None;
        },
    };
    if groups.len() == 0 {
        return None;
    }
    if groups[0].len() == 0 {
        return None;
    }
    assert(group_views(groups@)[0] == views(groups@[0]@));
    assert(views(groups@[0]@)[0] == groups@[0]@[0]@);
    Some(concat_all(groups[0][0].get_text()))
}

/// Reads the text of all rows in the info box.
fn read_info_rows(page: &str) -> (r: Option<String>)
    ensures
        view_of(r) == info_rows(page@),
{
    let groups = match select_within(page, ".widget.info .widget-body .row", ".row", "") {
        Some(groups) => groups,
        None => {
            return None;
        },
    };
    if groups.len() == 0 {
        return None;
    }
    let rows = &groups[0];
    assert(group_views(groups@)[0] == views(rows@));
    let ghost all = views(rows@);
    let mut text = String::new();
    assert(all.take(0) =~= Seq::<ElementView>::empty());
    for i in 0..rows.len()
        invariant
            all == views(rows@),
            text@ == joined_text(all.take(i as int)),
    {
        assert(all.take(i + 1).drop_last() =~= all.take(i as int));
        assert(all.take(i + 1).last() == rows@[i as int]@);
        let row = concat_all(rows[i].get_text());
        text.append(row.as_str());
    }
    assert(all.take(rows.len() as int) =~= all);
    Some(text)
}

/// Reads the address of the cover image in the info box.
fn read_info_cover(page: &str) -> (r: Option<String>)
    ensures
        view_of(r) == info_cover(page@),
{
    let groups = match select_within(page, ".widget.info .widget-body .row", ".thumb img", "src") {
        Some(groups) => groups,
        None => {
            return None;
        },
    };
    if groups.len() == 0 {
        return None;
    }
    if groups[0].len() == 0 {
        return None;
    }
    assert(group_views(groups@)[0] == views(groups@[0]@));
    assert(views(groups@[0]@)[0] == groups@[0]@[0]@);
    match groups[0][0].get_attr() {
        Some(address) => Some(address.clone()),
        None => None,
    }
}

/// Reads what `pattern` captures in `rows`, trimmed.
fn read_captured(rows: &str, pattern: &str) -> (r: Option<String>)
    ensures
        view_of(r) == captured(rows@, pattern@),
{
    match capture(pattern, rows) {
        Some(found) => Some(String::from_str(trim(found.as_str()))),
        None => None,
    }
}

/// Reads the genres that `rows` names.
fn read_genres(rows: &str) -> (genres: Vec<String>)
    ensures
        views(genres@) == genres_in(rows@),
{
    let mut genres: Vec<String> = Vec::new();
    let found = match capture("Genere:\\s*([\\w\\s,]+)\\n", rows) {
        Some(found) => found,
        None => {
            assert(views(genres@) =~= Seq::<Seq<char>>::empty());
            return genres;
        },
    };
    let parts = split(found.as_str(), ",");
    for i in 0..parts.len()
        invariant
            genres@.len() == i,
            forall|k: int| 0 <= k < i ==> (#[trigger] genres@[k])@ == trimmed(parts@[k]@),
    {
        let genre = String::from_str(trim(parts[i].as_str()));
        genres.push(genre);
    }
    assert(views(genres@) =~= all_trimmed(views(parts@)));
    genres
}

/// Reads the title that the page at `link` describes.
pub fn anime_from_page(link: &str, page: &str) -> (r: Option<Anime>)
    ensures
        view_of(r) == page_anime(link@, page@),
{
    let name = match read_info_text(page, ".head .title") {
        Some(t) => t,
        None => {
            return None;
        },
    };
    let rows = match read_info_rows(page) {
        Some(t) => t,
        None => {
            return None;
        },
    };
    let description = match read_info_text(page, ".desc") {
        Some(t) => t,
        None => {
            return None;
        },
    };
    let cover = match read_info_cover(page) {
        Some(t) => t,
        None => {
            return None;
        },
    };
    let year = match read_captured(rows.as_str(), "Data di Uscita:\\s*([\\w\\s]+)\\n") {
        Some(t) => t,
        None => {
            return None;
        },
    };
    let status = match read_captured(rows.as_str(), "Stato:\\s*(.*)") {
        Some(t) => t,
        None => {
            return None;
        },
    };
    let studio = match read_captured(rows.as_str(), "Studio:\\s*([\\w\\s]+)\\n") {
        Some(t) => t,
        None => {
            return None;
        },
    };
    let stars = match read_captured(rows.as_str(), "Voto:\\s*([\\d.]+)") {
        Some(t) => t,
        None => {
            return None;
        },
    };
    let genres = read_genres(rows.as_str());
    let state = read_state(status.as_str());
    Some(
        Anime::new(
            Sites::AnimeWorld,
            String::from_str(link),
            AnimeInfo::new(
                name,
                year,
                state,
                description,
                genres,
                studio,
                stars,
                cover,
                String::new(),
                String::new(),
            ),
        ),
    )
}

/// A visit to a title page: the link that was followed and the response to
/// the request for its page, if one arrived.
pub open spec fn visits(pages: Seq<(String, Option<String>)>) -> Seq<
    (Seq<char>, Option<Seq<char>>),
> {
    pages.map_values(|visit: (String, Option<String>)| (visit.0@, view_of(visit.1)))
}

/// Whether every visit got a response.
pub open spec fn all_arrived(visits: Seq<(Seq<char>, Option<Seq<char>>)>) -> bool {
    forall|i: int| 0 <= i < visits.len() ==> (#[trigger] visits[i]).1 is Some
}

/// The title that a visit found.
pub open spec fn visit_anime(visit: (Seq<char>, Option<Seq<char>>)) -> Option<AnimeView> {
    match visit.1 {
        Some(page) => page_anime(visit.0, page),
        None => None,
    }
}

/// [`visit_anime`] as a function value.
pub open spec fn visit_reader() -> spec_fn((Seq<char>, Option<Seq<char>>)) -> Option<AnimeView> {
    |visit: (Seq<char>, Option<Seq<char>>)| visit_anime(visit)
}

/// What a search answers to its visits: the titles of the well-formed pages,
/// in the visits' order; nothing at all where a request failed.
pub open spec fn search_result(visits: Seq<(Seq<char>, Option<Seq<char>>)>) -> Seq<AnimeView> {
    if all_arrived(visits) {
        visits.filter_map(visit_reader())
    } else {
        Seq::empty()
    }
}

/// Reads the titles found by a search. `pages` pairs each link of
/// [`result_links`] with the response to the request for its [`page_url`];
/// `None` stands for a request that failed.
pub fn search(pages: &Vec<(String, Option<String>)>) -> (found: Vec<Anime>)
    ensures
        views(found@) == search_result(visits(pages@)),
{
    let mut found: Vec<Anime> = Vec::new();
    let ghost all = visits(pages@);
    for i in 0..pages.len()
        invariant
            all == visits(pages@),
            found@.len() == 0,
            forall|k: int| 0 <= k < i ==> (#[trigger] all[k]).1 is Some,
    {
        if pages[i].1.is_none() {
            assert(all[i as int].1 is None);
            assert(views(found@) =~= Seq::<AnimeView>::empty());
            return found;
        }
    }
    assert(all_arrived(all));
    assert(views(found@) =~= all.take(0).filter_map(visit_reader()));
    for i in 0..pages.len()
        invariant
            all == visits(pages@),
            views(found@) == all.take(i as int).filter_map(visit_reader()),
    {
        proof {
            all.lemma_filter_map_take_succ(visit_reader(), i as int);
        }
        let visit = &pages[i];
        let anime = match &visit.1 {
            Some(page) => anime_from_page(visit.0.as_str(), page.as_str()),
            None => None,
        };
        match anime {
            Some(anime) => {
                proof {
                    crate::seqs::lemma_views_push(found@, anime);
                }
                found.push(anime);
            },
            None => {},
        }
    }
    assert(all.take(pages.len() as int) =~= all);
    found
}

/// The episodes among the first `n` of `elements` that `range` asks for. An
/// element stands for the episode numbered by its place, counted from 1, and
/// carries the episode's identifier as its attribute; one without identifier
/// is left out.
pub open spec fn numbered(
    elements: Seq<ElementView>,
    range: Option<RangeInclusive<usize>>,
    n: nat,
) -> Seq<EpisodeView>
    decreases n,
{
    if n == 0 {
        Seq::empty()
    } else {
        let before = numbered(elements, range, (n - 1) as nat);
        let element = elements[n - 1];
        if wanted(range, n as usize) && element.attr is Some {
            before.push(EpisodeView { number: n as usize, episode_id: element.attr.unwrap() })
        } else {
            before
        }
    }
}

/// Reads the episodes that `range` asks for from the episode anchors of a
/// title page, given in document order.
pub fn episodes_from_elements(elements: &Vec<Element>, range: &Option<RangeInclusive<usize>>) -> (
    found: Vec<Episode>
)
    ensures
        views(found@) == numbered(views(elements@), *range, elements@.len()),
{
    let mut found: Vec<Episode> = Vec::new();
    let ghost all = views(elements@);
    assert(views(found@) =~= numbered(all, *range, 0));
    for i in 0..elements.len()
        invariant
            all == views(elements@),
            views(found@) == numbered(all, *range, i as nat),
    {
        assert(all[i as int] == elements@[i as int]@);
        if is_wanted(range, i + 1) {
            match elements[i].get_attr() {
                Some(id) => {
                    let episode = Episode::new(i + 1, id.clone());
                    proof {
                        crate::seqs::lemma_views_push(found@, episode);
                    }
                    found.push(episode);
                },
                None => {},
            }
        }
    }
    found
}

/// The episodes that the response for a title page yields: those of its
/// episode anchors that `range` asks for; none where the response failed.
pub open spec fn listed(response: Option<Seq<char>>, range: Option<RangeInclusive<usize>>) -> Seq<
    EpisodeView,
> {
    match response {
        Some(page) => match selected(page, ".server.active .episodes .episode a"@, "data-id"@) {
            Some(elements) => numbered(elements, range, elements.len()),
            None => Seq::empty(),
        },
        None => Seq::empty(),
    }
}

/// Lists the episodes of `anime` that `range` asks for, from the response to
/// the request for the [`page_url`] of its link; `None` stands for a request
/// that failed.
pub fn get_anime_episodes(
    anime: Anime,
    range: Option<RangeInclusive<usize>>,
    response: Option<&str>,
) -> (list: AnimeEpisodes)
    ensures
        list@ == (AnimeEpisodesView {
            site: Sites::AnimeWorld,
            link: anime@.link,
            episodes: listed(view_of(response), range),
        }),
{
    let elements = match response {
        Some(page) => select(page, ".server.active .episodes .episode a", "data-id"),
        None => None,
    };
    let episodes = match elements {
        Some(elements) => episodes_from_elements(&elements, &range),
        None => {
            let none: Vec<Episode> = Vec::new();
            assert(views(none@) =~= Seq::<EpisodeView>::empty());
            none
        },
    };
    AnimeEpisodes::new(Sites::AnimeWorld, anime.get_link().clone(), episodes)
}

/// The player link of the episode with identifier `id`.
pub open spec fn player_url_text(id: Seq<char>) -> Seq<char> {
    "https://animeworld.so/api/episode/serverPlayerAnimeWorld?id="@ + id
}

/// The player links of `episodes`, in order.
pub open spec fn player_url_texts(episodes: Seq<EpisodeView>) -> Seq<Seq<char>> {
    episodes.map_values(|e: EpisodeView| player_url_text(e.episode_id))
}

/// The player links of the episodes of `anime_episodes` whose number lies in
/// `range`, in the list's order.
pub fn get_episodes_link(anime_episodes: AnimeEpisodes, range: RangeInclusive<usize>) -> (videos:
    Vec<Video>)
    ensures
        views(videos@) == player_url_texts(kept(anime_episodes@.episodes, Some(range))),
{
    let chosen = keep_wanted(anime_episodes.get_episodes(), &Some(range));
    let mut videos: Vec<Video> = Vec::new();
    for i in 0..chosen.len()
        invariant
            videos@.len() == i,
            forall|k: int| 0 <= k < i ==> (#[trigger] videos@[k])@ == player_url_text(
                chosen@[k]@.episode_id,
            ),
    {
        let link = join(
            "https://animeworld.so/api/episode/serverPlayerAnimeWorld?id=",
            chosen[i].get_episode_id().as_str(),
        );
        videos.push(Video::new(link));
    }
    assert(views(videos@) =~= player_url_texts(views(chosen@)));
    videos
}

/// A malformed title page costs a search only itself: where every request got
/// a response, the titles found are as many as the pages less the malformed
/// ones, and none is found only where every page is malformed.
pub proof fn lemma_malformed_pages_cost_only_themselves(visits: Seq<(Seq<char>, Option<Seq<char>>)>)
    requires
        all_arrived(visits),
    ensures
        search_result(visits).len() + rejected(visits, visit_reader()) == visits.len(),
        search_result(visits).len() == 0 <==> forall|i: int|
            0 <= i < visits.len() ==> visit_anime(#[trigger] visits[i]) is None,
{
    lemma_filter_map_loses_only_rejected(visits, visit_reader());
    assert forall|i: int| 0 <= i < visits.len() implies (rejects(
        visit_reader(),
        #[trigger] visits[i],
    ) <==> visit_anime(visits[i]) is None) by {}
}

/// Two searches on the same visits find the same titles in the same order.
pub proof fn lemma_search_repeats(
    visits: Seq<(Seq<char>, Option<Seq<char>>)>,
    first: Seq<AnimeView>,
    second: Seq<AnimeView>,
)
    requires
        first == search_result(visits),
        second == search_result(visits),
    ensures
        first == second,
{
}

} // verus!
