use bolt::episode::{ApiEpisode, Episode, EpisodeObject};
use bolt::show::{ApiShow, ShowObject};

fn api_episode(description: &str, link: &str, image: &str) -> ApiEpisode {
    ApiEpisode {
        id: 7,
        title: "Signals".to_string(),
        description: description.to_string(),
        link: link.to_string(),
        image: image.to_string(),
        enclosure_url: "https://example.org/media/7.mp3".to_string(),
        date_published: 1431648000,
        feed_id: 42,
    }
}

#[test]
fn empty_description_is_absent_and_link_is_kept() {
    let adapter = EpisodeObject::from_api(api_episode("", "https://example.org/7", "img"));
    assert!(adapter.description().is_none());
    assert_eq!(
        adapter.url().as_ref().map(|s| s.as_str()),
        Some("https://example.org/7")
    );
}

#[test]
fn api_fields_copied_verbatim() {
    let adapter = EpisodeObject::from_api(api_episode("words", "link", "img"));
    assert_eq!(adapter.id(), 7);
    assert_eq!(adapter.title().as_ref().map(|s| s.as_str()), Some("Signals"));
    assert_eq!(
        adapter.description().as_ref().map(|s| s.as_str()),
        Some("words")
    );
    assert_eq!(
        adapter.media_url().as_str(),
        "https://example.org/media/7.mp3"
    );
    assert_eq!(adapter.date_published(), 1431648000);
    assert_eq!(adapter.show_id(), 42);
}

#[test]
fn fresh_record_queued_ordinal_defaults_to_zero() {
    let adapter = EpisodeObject::from_api(api_episode("words", "link", "img"));
    assert_eq!(adapter.queued(), 0);
}

#[test]
fn empty_image_and_link_are_absent() {
    let adapter = EpisodeObject::from_api(api_episode("words", "", ""));
    assert!(adapter.url().is_none());
    assert!(adapter.image_url().is_none());
}

#[test]
fn empty_title_from_feed_stays_present() {
    let mut raw = api_episode("words", "link", "img");
    raw.title = String::new();
    let adapter = EpisodeObject::from_api(raw);
    assert_eq!(adapter.title().as_ref().map(|s| s.as_str()), Some(""));
}

#[test]
fn persisted_record_copied_verbatim() {
    let record = Episode {
        id: 11,
        title: None,
        description: Some("kept".to_string()),
        url: None,
        image_url: Some("art".to_string()),
        media_url: "https://example.org/11.mp3".to_string(),
        queued: 3,
        date_published: 99,
        show_id: 5,
    };
    let adapter = EpisodeObject::from_record(record);
    assert_eq!(adapter.id(), 11);
    assert!(adapter.title().is_none());
    assert_eq!(
        adapter.description().as_ref().map(|s| s.as_str()),
        Some("kept")
    );
    assert!(adapter.url().is_none());
    assert_eq!(adapter.queued(), 3);
    assert_eq!(adapter.date_published(), 99);
    assert_eq!(adapter.show_id(), 5);
}

#[test]
fn default_adapter_is_all_empty() {
    let adapter = EpisodeObject::default();
    assert_eq!(adapter.id(), 0);
    assert!(adapter.title().is_none());
    assert!(adapter.description().is_none());
    assert!(adapter.url().is_none());
    assert!(adapter.image_url().is_none());
    assert_eq!(adapter.media_url().as_str(), "");
    assert_eq!(adapter.queued(), 0);
    assert_eq!(adapter.date_published(), 0);
    assert_eq!(adapter.show_id(), 0);
}

#[test]
fn show_adapter_normalizes_empty_fields() {
    let adapter = ShowObject::from_api(ApiShow {
        id: 42,
        title: "A Show".to_string(),
        description: String::new(),
        url: "https://example.org/feed".to_string(),
        image: String::new(),
    });
    assert_eq!(adapter.id(), 42);
    assert_eq!(adapter.title().as_ref().map(|s| s.as_str()), Some("A Show"));
    assert!(adapter.description().is_none());
    assert_eq!(
        adapter.url().as_ref().map(|s| s.as_str()),
        Some("https://example.org/feed")
    );
    assert!(adapter.image_url().is_none());
    assert!(!adapter.subscribed());
}

#[test]
fn show_adapter_clone_preserves_content() {
    let adapter = ShowObject::from_api(ApiShow {
        id: 8,
        title: "Twin".to_string(),
        description: "same".to_string(),
        url: String::new(),
        image: "cover".to_string(),
    });
    let copy = adapter.clone();
    assert_eq!(copy.id(), 8);
    assert_eq!(copy.title().as_ref().map(|s| s.as_str()), Some("Twin"));
    assert_eq!(
        copy.description().as_ref().map(|s| s.as_str()),
        Some("same")
    );
    assert!(copy.url().is_none());
    assert_eq!(copy.image_url().as_ref().map(|s| s.as_str()), Some("cover"));
}
