use vstd::prelude::*;

use crate::episode::EpisodeObject;

verus! {

/// The text rendered for a publish timestamp by the fixed human-readable
/// pattern: month abbreviation, zero-padded day, four-digit year.
pub uninterp spec fn date_text_of(timestamp: i64) -> Seq<char>;

/// Whether a timestamp lies in the fixed range of second counts that can be
/// interpreted as a valid instant.
pub uninterp spec fn date_representable(timestamp: i64) -> bool;

/// Relies on chrono's `DateTime::from_timestamp` and its `%b %d, %Y`
/// formatter: the call returns nothing exactly on an out-of-range number of
/// seconds, a fixed range, and otherwise renders text that depends on the
/// timestamp alone.
#[verifier::external_body]
fn format_timestamp(timestamp: i64) -> (r: Option<String>)
    ensures
        r is Some <==> date_representable(timestamp),
        r matches Some(s) ==> s@ == date_text_of(timestamp),
{
    chrono::DateTime::from_timestamp(timestamp, 0)
        .map(|date| format!("{}", date.format("%b %d, %Y")))
}

/// The date label derived from what the formatter returned: the formatted
/// text when the timestamp was interpretable, a blank field otherwise.
pub fn date_label_from(formatted: Option<String>) -> (r: String)
    ensures
        formatted matches Some(s) ==> r@ == s@,
        formatted is None ==> r@ == Seq::<char>::empty(),
{
    match formatted {
        Some(s) => s,
        None => String::new(),
    }
}

/// The date label for a publish timestamp: the formatted text, or a blank
/// field when the timestamp cannot be interpreted as a valid instant.
pub fn format_publish_date(timestamp: i64) -> (r: String)
    ensures
        date_representable(timestamp) ==> r@ == date_text_of(timestamp),
        !date_representable(timestamp) ==> r@ == Seq::<char>::empty(),
{
    date_label_from(format_timestamp(timestamp))
}

/// The display label for an episode: its title when present, else a fixed
/// placeholder.
pub open spec fn display_label(title: Option<Seq<char>>) -> Seq<char> {
    match title {
        Option::Some(t) => t,
        Option::None => "Untitled"@,
    }
}

/// The two text labels a library row shows for one episode.
pub struct EpisodeRow {
    episode_title: String,
    episode_date: String,
}

impl EpisodeRow {
    pub closed spec fn title_text(self) -> Seq<char> {
        self.episode_title@
    }

    pub closed spec fn date_text(self) -> Seq<char> {
        self.episode_date@
    }

    pub fn new() -> (row: Self)
        ensures
            row.title_text() == Seq::<char>::empty(),
            row.date_text() == Seq::<char>::empty(),
    {
        EpisodeRow { episode_title: String::new(), episode_date: String::new() }
    }

    /// Renders one episode into its row: the title label is the episode's
    /// title or the placeholder, and the date label is the formatted publish
    /// date or blank when the timestamp is out of range. The rendering is
    /// derived state: the adapter itself is left untouched.
    pub fn from_episode(episode: &EpisodeObject) -> (row: Self)
        ensures
            row.title_text() == display_label(episode@.title),
            date_representable(episode@.date_published) ==> row.date_text() == date_text_of(
                episode@.date_published,
            ),
            !date_representable(episode@.date_published) ==> row.date_text()
                == Seq::<char>::empty(),
    {
        let title: String = match episode.title() {
            Some(t) => t.clone(),
            None => "Untitled".to_owned(),
        };
        let date = format_publish_date(episode.date_published());
        EpisodeRow { episode_title: title, episode_date: date }
    }

    pub fn title_label(&self) -> (r: &String)
        ensures
            r@ == self.title_text(),
    {
        &self.episode_title
    }

    pub fn date_label(&self) -> (r: &String)
        ensures
            r@ == self.date_text(),
    {
        &self.episode_date
    }
}

impl Default for EpisodeRow {
    fn default() -> (row: Self)
        ensures
            row.title_text() == Seq::<char>::empty(),
            row.date_text() == Seq::<char>::empty(),
    {
        EpisodeRow::new()
    }
}

} // verus!
