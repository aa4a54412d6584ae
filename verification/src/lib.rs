//! Scrapers for anime streaming sites, written so that everything they decide
//! is checked by Verus.
//!
//! The crate never touches the network. Each site module says which URL to
//! request and turns the text of a response into values of the shared model
//! defined here; a host application performs the requests in between. A
//! response that could not be fetched is passed as `None`, and every operation
//! answers it with an empty collection rather than an error.

use vstd::prelude::*;

pub mod animeunity;
pub mod animeworld;
pub mod aniplay;
pub mod episodes;
pub mod html;
pub mod json;
pub mod pages;
pub mod pattern;
pub mod records;
pub mod seqs;
pub mod text;

verus! {

/// The streaming sites this crate knows how to read.
#[derive(Debug, Clone, Copy, PartialEq, Eq, Structural)]
pub enum Sites {
    AnimeWorld,
    AnimeUnity,
    AniPlay,
}

/// Airing state of a title, as far as a site's status text could be understood.
#[derive(Debug, Clone, Copy, PartialEq, Eq, Structural)]
pub enum AnimeState {
    /// Still airing.
    InCorso,
    /// Completed.
    Finito,
    /// The site's status text was missing or not one this crate recognises.
    NonValido,
}

/// Mathematical value of an [`AnimeInfo`]. An empty text means "unknown".
pub struct AnimeInfoView {
    pub name: Seq<char>,
    pub year: Seq<char>,
    pub state: AnimeState,
    pub description: Seq<char>,
    pub genres: Seq<Seq<char>>,
    pub studio: Seq<char>,
    pub stars: Seq<char>,
    pub cover: Seq<char>,
    pub cover_full: Seq<char>,
    pub banner: Seq<char>,
}

/// Descriptive metadata of a title.
#[derive(Debug)]
pub struct AnimeInfo {
    name: String,
    year: String,
    state: AnimeState,
    description: String,
    genres: Vec<String>,
    studio: String,
    stars: String,
    cover: String,
    cover_full: String,
    banner: String,
}

impl View for AnimeInfo {
    type V = AnimeInfoView;

    closed spec fn view(&self) -> AnimeInfoView {
        AnimeInfoView {
            name: self.name@,
            year: self.year@,
            state: self.state,
            description: self.description@,
            genres: seqs::views(self.genres@),
            studio: self.studio@,
            stars: self.stars@,
            cover: self.cover@,
            cover_full: self.cover_full@,
            banner: self.banner@,
        }
    }
}

impl AnimeInfo {
    pub fn new(
        name: String,
        year: String,
        state: AnimeState,
        description: String,
        genres: Vec<String>,
        studio: String,
        stars: String,
        cover: String,
        cover_full: String,
        banner: String,
    ) -> (info: Self)
        ensures
            info@ == (AnimeInfoView {
                name: name@,
                year: year@,
                state,
                description: description@,
                genres: seqs::views(genres@),
                studio: studio@,
                stars: stars@,
                cover: cover@,
                cover_full: cover_full@,
                banner: banner@,
            }),
    {
        Self {
            name,
            year,
            state,
            description,
            genres,
            studio,
            stars,
            cover,
            cover_full,
            banner,
        }
    }

    pub fn get_name(&self) -> (r: &String)
        ensures
            r@ == self@.name,
    {
        &self.name
    }

    pub fn get_year(&self) -> (r: &String)
        ensures
            r@ == self@.year,
    {
        &self.year
    }

    pub fn get_description(&self) -> (r: &String)
        ensures
            r@ == self@.description,
    {
        &self.description
    }

    pub fn get_genres(&self) -> (r: &Vec<String>)
        ensures
            seqs::views(r@) == self@.genres,
    {
        &self.genres
    }

    pub fn get_cover(&self) -> (r: &String)
        ensures
            r@ == self@.cover,
    {
        &self.cover
    }

    pub fn get_cover_full(&self) -> (r: &String)
        ensures
            r@ == self@.cover_full,
    {
        &self.cover_full
    }

    pub fn get_banner(&self) -> (r: &String)
        ensures
            r@ == self@.banner,
    {
        &self.banner
    }

    pub fn get_state(&self) -> (r: &AnimeState)
        ensures
            *r == self@.state,
    {
        &self.state
    }

    pub fn get_stars(&self) -> (r: &String)
        ensures
            r@ == self@.stars,
    {
        &self.stars
    }

    pub fn get_studio(&self) -> (r: &String)
        ensures
            r@ == self@.studio,
    {
        &self.studio
    }
}

/// Mathematical value of an [`Anime`].
pub struct AnimeView {
    pub site: Sites,
    pub link: Seq<char>,
    pub info: AnimeInfoView,
}

/// One title on one site. `link` is a path relative to the site's base URL.
#[derive(Debug)]
pub struct Anime {
    site: Sites,
    link: String,
    info: AnimeInfo,
}

impl View for Anime {
    type V = AnimeView;

    closed spec fn view(&self) -> AnimeView {
        AnimeView { site: self.site, link: self.link@, info: self.info@ }
    }
}

impl Anime {
    pub fn new(site: Sites, link: String, info: AnimeInfo) -> (anime: Self)
        ensures
            anime@ == (AnimeView { site, link: link@, info: info@ }),
    {
        Self { site, link, info }
    }

    pub fn get_site(&self) -> (r: &Sites)
        ensures
            *r == self@.site,
    {
        &self.site
    }

    pub fn get_link(&self) -> (r: &String)
        ensures
            r@ == self@.link,
    {
        &self.link
    }

    pub fn get_info(&self) -> (r: &AnimeInfo)
        ensures
            r@ == self@.info,
    {
        &self.info
    }
}

/// Mathematical value of an [`Episode`].
pub struct EpisodeView {
    pub number: usize,
    pub episode_id: Seq<char>,
}

/// One episode of a title: its number and the identifier the site uses for it.
#[derive(Debug)]
pub struct Episode {
    number: usize,
    episode_id: String,
}

impl View for Episode {
    type V = EpisodeView;

    closed spec fn view(&self) -> EpisodeView {
        EpisodeView { number: self.number, episode_id: self.episode_id@ }
    }
}

impl Episode {
    pub fn new(number: usize, episode_id: String) -> (episode: Self)
        ensures
            episode@ == (EpisodeView { number, episode_id: episode_id@ }),
    {
        Self { number, episode_id }
    }

    pub fn get_number(&self) -> (n: usize)
        ensures
            n == self@.number,
    {
        self.number
    }

    pub fn get_episode_id(&self) -> (r: &String)
        ensures
            r@ == self@.episode_id,
    {
        &self.episode_id
    }
}

/// Mathematical value of an [`AnimeEpisodes`].
pub struct AnimeEpisodesView {
    pub site: Sites,
    pub link: Seq<char>,
    pub episodes: Seq<EpisodeView>,
}

/// The episodes of one title on one site, in the order the site reports them.
/// Numbers need be neither unique nor contiguous.
#[derive(Debug)]
pub struct AnimeEpisodes {
    site: Sites,
    link: String,
    episodes: Vec<Episode>,
}

impl View for AnimeEpisodes {
    type V = AnimeEpisodesView;

    closed spec fn view(&self) -> AnimeEpisodesView {
        AnimeEpisodesView {
            site: self.site,
            link: self.link@,
            episodes: seqs::views(self.episodes@),
        }
    }
}

impl AnimeEpisodes {
    pub fn new(site: Sites, link: String, episodes: Vec<Episode>) -> (list: Self)
        ensures
            list@ == (AnimeEpisodesView {
                site,
                link: link@,
                episodes: seqs::views(episodes@),
            }),
    {
        Self { site, link, episodes }
    }

    pub fn get_site(&self) -> (r: &Sites)
        ensures
            *r == self@.site,
    {
        &self.site
    }

    pub fn get_link(&self) -> (r: &String)
        ensures
            r@ == self@.link,
    {
        &self.link
    }

    pub fn get_episodes(&self) -> (r: &Vec<Episode>)
        ensures
            seqs::views(r@) == self@.episodes,
    {
        &self.episodes
    }
}

/// A playback link. Its view is the URL text.
#[derive(Debug)]
pub struct Video {
    link: String,
}

impl View for Video {
    type V = Seq<char>;

    closed spec fn view(&self) -> Seq<char> {
        self.link@
    }
}

impl Video {
    pub fn new(link: String) -> (video: Self)
        ensures
            video@ == link@,
    {
        Self { link }
    }

    pub fn get_link(&self) -> (r: &String)
        ensures
            r@ == self@,
    {
        &self.link
    }
}

} // verus!
