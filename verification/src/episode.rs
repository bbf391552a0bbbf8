use vstd::prelude::*;

verus! {

/// A raw episode record as the feed collaborator yields it from a search:
/// every text field is a plain string and may be empty.
pub struct ApiEpisode {
    pub id: i64,
    pub title: String,
    pub description: String,
    pub link: String,
    pub image: String,
    pub enclosure_url: String,
    pub date_published: i64,
    pub feed_id: i64,
}

/// A persisted episode record as the repository collaborator yields it:
/// the optional text fields are already absent-or-present, and the queued
/// ordinal was assigned when the record was stored.
pub struct Episode {
    pub id: i64,
    pub title: Option<String>,
    pub description: Option<String>,
    pub url: Option<String>,
    pub image_url: Option<String>,
    pub media_url: String,
    pub queued: i64,
    pub date_published: i64,
    pub show_id: i64,
}

/// The mathematical content of an episode adapter: each text field as a
/// sequence of characters, absent fields as `None`.
pub ghost struct EpisodeData {
    pub id: i64,
    pub title: Option<Seq<char>>,
    pub description: Option<Seq<char>>,
    pub url: Option<Seq<char>>,
    pub image_url: Option<Seq<char>>,
    pub media_url: Seq<char>,
    pub queued: i64,
    pub date_published: i64,
    pub show_id: i64,
}

/// The content of an optional text field.
pub open spec fn opt_text(o: Option<String>) -> Option<Seq<char>> {
    match o {
        Option::Some(s) => Option::Some(s@),
        Option::None => Option::None,
    }
}

/// The content of a persisted record, taken verbatim.
pub open spec fn record_data(e: Episode) -> EpisodeData {
    EpisodeData {
        id: e.id,
        title: opt_text(e.title),
        description: opt_text(e.description),
        url: opt_text(e.url),
        image_url: opt_text(e.image_url),
        media_url: e.media_url@,
        queued: e.queued,
        date_published: e.date_published,
        show_id: e.show_id,
    }
}

/// A present-but-empty text field is normalized to absent.
pub open spec fn normalized(s: Seq<char>) -> Option<Seq<char>> {
    if s.len() == 0 {
        Option::None
    } else {
        Option::Some(s)
    }
}

/// The content of the adapter built from a raw feed record: the identifier,
/// title, media URL, publish timestamp and owning show identifier are copied
/// verbatim; description, link and artwork are normalized to absent when
/// empty; the queued ordinal of a freshly fetched record is 0.
pub open spec fn api_data(e: ApiEpisode) -> EpisodeData {
    EpisodeData {
        id: e.id,
        title: Option::Some(e.title@),
        description: normalized(e.description@),
        url: normalized(e.link@),
        image_url: normalized(e.image@),
        media_url: e.enclosure_url@,
        queued: 0,
        date_published: e.date_published,
        show_id: e.feed_id,
    }
}

/// A construct-only adapter over an episode record: every field is fixed at
/// construction and read through accessors. An update never mutates an
/// adapter; it constructs a new one and replaces the old one in its owning
/// collection.
pub struct EpisodeObject {
    id: i64,
    title: Option<String>,
    description: Option<String>,
    url: Option<String>,
    image_url: Option<String>,
    media_url: String,
    queued: i64,
    date_published: i64,
    show_id: i64,
}

impl View for EpisodeObject {
    type V = EpisodeData;

    closed spec fn view(&self) -> EpisodeData {
        EpisodeData {
            id: self.id,
            title: opt_text(self.title),
            description: opt_text(self.description),
            url: opt_text(self.url),
            image_url: opt_text(self.image_url),
            media_url: self.media_url@,
            queued: self.queued,
            date_published: self.date_published,
            show_id: self.show_id,
        }
    }
}

impl EpisodeObject {
    /// Adapter construction from a raw feed record: empty description, link
    /// and artwork become absent; everything else is copied verbatim; the
    /// queued ordinal defaults to 0 for a not-yet-persisted record.
    pub fn from_api(episode: ApiEpisode) -> (r: Self)
        ensures
            r@ == api_data(episode),
    {
        EpisodeObject {
            id: episode.id,
            title: Some(episode.title),
            description: if episode.description.as_str().is_empty() {
                None
            } else {
                Some(episode.description)
            },
            url: if episode.link.as_str().is_empty() {
                None
            } else {
                Some(episode.link)
            },
            image_url: if episode.image.as_str().is_empty() {
                None
            } else {
                Some(episode.image)
            },
            media_url: episode.enclosure_url,
            queued: 0,
            date_published: episode.date_published,
            show_id: episode.feed_id,
        }
    }

    /// Adapter construction from an already-persisted record: every field is
    /// copied verbatim, the queued ordinal included.
    pub fn from_record(episode: Episode) -> (r: Self)
        ensures
            r@ == record_data(episode),
    {
        EpisodeObject {
            id: episode.id,
            title: episode.title,
            description: episode.description,
            url: episode.url,
            image_url: episode.image_url,
            media_url: episode.media_url,
            queued: episode.queued,
            date_published: episode.date_published,
            show_id: episode.show_id,
        }
    }

    pub fn id(&self) -> (r: i64)
        ensures
            r == self@.id,
    {
        self.id
    }

    pub fn title(&self) -> (r: &Option<String>)
        ensures
            opt_text(*r) == self@.title,
    {
        &self.title
    }

    pub fn description(&self) -> (r: &Option<String>)
        ensures
            opt_text(*r) == self@.description,
    {
        &self.description
    }

    pub fn url(&self) -> (r: &Option<String>)
        ensures
            opt_text(*r) == self@.url,
    {
        &self.url
    }

    pub fn image_url(&self) -> (r: &Option<String>)
        ensures
            opt_text(*r) == self@.image_url,
    {
        &self.image_url
    }

    pub fn media_url(&self) -> (r: &String)
        ensures
            r@ == self@.media_url,
    {
        &self.media_url
    }

    pub fn queued(&self) -> (r: i64)
        ensures
            r == self@.queued,
    {
        self.queued
    }

    pub fn date_published(&self) -> (r: i64)
        ensures
            r == self@.date_published,
    {
        self.date_published
    }

    pub fn show_id(&self) -> (r: i64)
        ensures
            r == self@.show_id,
    {
        self.show_id
    }
}

impl Default for EpisodeObject {
    /// The all-default adapter: absent text fields, empty media URL, zero
    /// identifiers and ordinals.
    fn default() -> (r: Self)
        ensures
            r@ == (EpisodeData {
                id: 0,
                title: Option::None,
                description: Option::None,
                url: Option::None,
                image_url: Option::None,
                media_url: Seq::<char>::empty(),
                queued: 0,
                date_published: 0,
                show_id: 0,
            }),
    {
        EpisodeObject {
            id: 0,
            title: None,
            description: None,
            url: None,
            image_url: None,
            media_url: String::new(),
            queued: 0,
            date_published: 0,
            show_id: 0,
        }
    }
}

/// An adapter built from a raw record whose description is empty and whose
/// link is not reports the description as absent and the link as present and
/// equal to the original value.
pub proof fn lemma_api_normalization(episode: ApiEpisode)
    requires
        episode.description@.len() == 0,
        episode.link@.len() > 0,
    ensures
        api_data(episode).description is None,
        api_data(episode).url == Option::Some(episode.link@),
{
}

} // verus!
