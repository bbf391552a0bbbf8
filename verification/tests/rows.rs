use bolt::card::ExploreCard;
use bolt::episode::{Episode, EpisodeObject};
use bolt::episode_row::EpisodeRow;

fn record(title: Option<&str>, date_published: i64) -> Episode {
    Episode {
        id: 1,
        title: title.map(|t| t.to_string()),
        description: None,
        url: None,
        image_url: None,
        media_url: "https://example.org/1.mp3".to_string(),
        queued: 0,
        date_published,
        show_id: 1,
    }
}

#[test]
fn row_formats_publish_date() {
    let adapter = EpisodeObject::from_record(record(Some("A Title"), 1431648000));
    let row = EpisodeRow::from_episode(&adapter);
    assert_eq!(row.title_label().as_str(), "A Title");
    assert_eq!(row.date_label().as_str(), "May 15, 2015");
}

#[test]
fn row_date_has_zero_padded_day() {
    let adapter = EpisodeObject::from_record(record(Some("t"), 1704153600));
    let row = EpisodeRow::from_episode(&adapter);
    assert_eq!(row.date_label().as_str(), "Jan 02, 2024");
}

#[test]
fn row_without_title_shows_placeholder() {
    let adapter = EpisodeObject::from_record(record(None, 1431648000));
    let row = EpisodeRow::from_episode(&adapter);
    assert_eq!(row.title_label().as_str(), "Untitled");
}

#[test]
fn unrepresentable_timestamp_leaves_date_blank() {
    let adapter = EpisodeObject::from_record(record(Some("t"), i64::MIN));
    let row = EpisodeRow::from_episode(&adapter);
    assert_eq!(row.date_label().as_str(), "");
}

#[test]
fn fresh_row_has_empty_labels() {
    let row = EpisodeRow::new();
    assert_eq!(row.title_label().as_str(), "");
    assert_eq!(row.date_label().as_str(), "");
}

#[test]
fn card_setters_replace_labels() {
    let mut card = ExploreCard::new();
    assert_eq!(card.name().as_str(), "");
    assert_eq!(card.description().as_str(), "");
    card.set_name("A Show");
    card.set_description("about things");
    assert_eq!(card.name().as_str(), "A Show");
    assert_eq!(card.description().as_str(), "about things");
    card.set_name("Renamed");
    assert_eq!(card.name().as_str(), "Renamed");
    assert_eq!(card.description().as_str(), "about things");
}
