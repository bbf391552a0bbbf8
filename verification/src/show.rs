use vstd::prelude::*;

use crate::episode::{normalized, opt_text};

verus! {

/// A raw show record as the feed collaborator yields it from a search:
/// every text field is a plain string and may be empty.
pub struct ApiShow {
    pub id: i64,
    pub title: String,
    pub description: String,
    pub url: String,
    pub image: String,
}

/// The mathematical content of a show adapter.
pub ghost struct ShowData {
    pub id: i64,
    pub title: Option<Seq<char>>,
    pub description: Option<Seq<char>>,
    pub url: Option<Seq<char>>,
    pub image_url: Option<Seq<char>>,
    pub subscribed: bool,
}

/// The content of the adapter built from a raw feed record: the identifier
/// is copied verbatim; title, description, feed URL and artwork are
/// normalized to absent when empty; a freshly fetched show is not
/// subscribed.
pub open spec fn api_show_data(s: ApiShow) -> ShowData {
    ShowData {
        id: s.id,
        title: normalized(s.title@),
        description: normalized(s.description@),
        url: normalized(s.url@),
        image_url: normalized(s.image@),
        subscribed: false,
    }
}

/// A construct-only adapter over a show record: every field is fixed at
/// construction and read through accessors; an update constructs a new
/// adapter and replaces the old one.
pub struct ShowObject {
    id: i64,
    title: Option<String>,
    description: Option<String>,
    url: Option<String>,
    image_url: Option<String>,
    subscribed: bool,
}

impl View for ShowObject {
    type V = ShowData;

    closed spec fn view(&self) -> ShowData {
        ShowData {
            id: self.id,
            title: opt_text(self.title),
            description: opt_text(self.description),
            url: opt_text(self.url),
            image_url: opt_text(self.image_url),
            subscribed: self.subscribed,
        }
    }
}

fn clone_opt_string(o: &Option<String>) -> (r: Option<String>)
    ensures
        opt_text(r) == opt_text(*o),
{
    match o {
        Some(s) => Some(s.clone()),
        None => None,
    }
}

impl Clone for ShowObject {
    /// A clone carries the same content; the adapters are immutable, so the
    /// copy is indistinguishable from the original.
    fn clone(&self) -> (r: Self)
        ensures
            r@ == self@,
    {
        ShowObject {
            id: self.id,
            title: clone_opt_string(&self.title),
            description: clone_opt_string(&self.description),
            url: clone_opt_string(&self.url),
            image_url: clone_opt_string(&self.image_url),
            subscribed: self.subscribed,
        }
    }
}

impl ShowObject {
    /// Adapter construction from a raw feed record: empty text fields become
    /// absent; the identifier is copied verbatim.
    pub fn from_api(show: ApiShow) -> (r: Self)
        ensures
            r@ == api_show_data(show),
    {
        ShowObject {
            id: show.id,
            title: if show.title.as_str().is_empty() {
                None
            } else {
                Some(show.title)
            },
            description: if show.description.as_str().is_empty() {
                None
            } else {
                Some(show.description)
            },
            url: if show.url.as_str().is_empty() {
                None
            } else {
                Some(show.url)
            },
            image_url: if show.image.as_str().is_empty() {
                None
            } else {
                Some(show.image)
            },
            subscribed: false,
        }
    }

    pub fn id(&self) -> (r: i64)
        ensures
            r == self@.id,
    {
        self.id
    }

    pub fn title(&self) -> (r: &Option<String>)
        ensures
            opt_text(*r) == self@.title,
    {
        &self.title
    }

    pub fn description(&self) -> (r: &Option<String>)
        ensures
            opt_text(*r) == self@.description,
    {
        &self.description
    }

    pub fn url(&self) -> (r: &Option<String>)
        ensures
            opt_text(*r) == self@.url,
    {
        &self.url
    }

    pub fn image_url(&self) -> (r: &Option<String>)
        ensures
            opt_text(*r) == self@.image_url,
    {
        &self.image_url
    }

    pub fn subscribed(&self) -> (r: bool)
        ensures
            r == self@.subscribed,
    {
        self.subscribed
    }
}

} // verus!
