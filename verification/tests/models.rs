use youtube_proxy::models::channel::Channel;
use youtube_proxy::models::channel_stats::ChannelStats;
use youtube_proxy::models::content_type::ContentType;
use youtube_proxy::models::playlist::Playlist;
use youtube_proxy::models::video::Video;
use youtube_proxy::models::youtube::items::list_item::ListItem;
use youtube_proxy::models::youtube::items::playlist_item::PlaylistItem;
use youtube_proxy::models::youtube::items::search_item::SearchItem;
use youtube_proxy::models::youtube::parts::content_details::{ContentDetails, RelatedPlaylists};
use youtube_proxy::models::youtube::parts::id::Id;
use youtube_proxy::models::youtube::parts::kind::Kind;
use youtube_proxy::models::youtube::parts::resource_id::ResourceId;
use youtube_proxy::models::youtube::parts::snippet::Snippet;
use youtube_proxy::models::youtube::parts::stats::Stats;
use youtube_proxy::models::youtube::parts::thumbnails::{Thumbnail, Thumbnails};
use youtube_proxy::models::youtube::ConversionError;

fn text(value: &str) -> Option<String> {
    Some(value.to_string())
}

fn thumbnails(high: Option<&str>, medium: Option<&str>, default: &str) -> Thumbnails {
    Thumbnails {
        high: high.map(|url| Thumbnail { url: url.to_string() }),
        medium: medium.map(|url| Thumbnail { url: url.to_string() }),
        default: Thumbnail { url: default.to_string() },
    }
}

fn snippet() -> Snippet {
    Snippet {
        title: "A title".to_string(),
        channel_id: text("UC1"),
        channel_title: text("A channel"),
        description: text("words"),
        published_at: text("2020-01-01T00:00:00Z"),
        thumbnails: Some(thumbnails(Some("high.jpg"), Some("medium.jpg"), "default.jpg")),
        resource_id: None,
    }
}

fn id(kind: &str) -> Id {
    Id {
        kind: Kind(kind.to_string()),
        channel_id: text("UC1"),
        playlist_id: text("PL1"),
        video_id: text("v1"),
    }
}

fn search_item(kind: &str) -> SearchItem {
    SearchItem { snippet: snippet(), statistics: None, id: id(kind) }
}

fn list_item(kind: &str) -> ListItem {
    ListItem {
        kind: Kind(kind.to_string()),
        snippet: snippet(),
        statistics: Some(Stats { video_count: "42".to_string() }),
        id: "an-id".to_string(),
        content_details: Some(ContentDetails {
            related_playlists: RelatedPlaylists { uploads: "UU1".to_string() },
        }),
    }
}

fn playlist_item(kind: &str) -> PlaylistItem {
    let mut snippet = snippet();
    snippet.resource_id =
        Some(ResourceId { kind: Kind(kind.to_string()), video_id: "v9".to_string() });
    PlaylistItem { snippet, id: "item-1".to_string() }
}

#[test]
fn content_types_are_read_from_their_names() {
    assert!(matches!(ContentType::from_string("channel"), Ok(ContentType::CHANNEL)));
    assert!(matches!(ContentType::from_string("video"), Ok(ContentType::VIDEO)));
    assert!(matches!(ContentType::from_string("playlist"), Ok(ContentType::PLAYLIST)));
    for word in ["", "Channel", "videos", "play list", "channel "] {
        match ContentType::from_string(word) {
            Err(error) => assert_eq!(error.value, word),
            Ok(_) => panic!("{:?} names no content type", word),
        }
    }
}

#[test]
fn kinds_are_told_apart_by_their_upstream_names() {
    let channel = Kind("youtube#channel".to_string());
    assert!(channel.is_channel() && !channel.is_video() && !channel.is_playlist());
    let video = Kind("youtube#video".to_string());
    assert!(!video.is_channel() && video.is_video() && !video.is_playlist());
    let playlist = Kind("youtube#playlist".to_string());
    assert!(!playlist.is_channel() && !playlist.is_video() && playlist.is_playlist());
    let other = Kind("youtube#playlistItem".to_string());
    assert!(!other.is_channel() && !other.is_video() && !other.is_playlist());
}

#[test]
fn an_id_answers_with_the_identifier_of_its_kind() {
    assert!(id("youtube#channel").is_channel());
    assert_eq!(id("youtube#channel").get_id(), "UC1");
    assert!(id("youtube#video").is_video());
    assert_eq!(id("youtube#video").get_id(), "v1");
    assert!(id("youtube#playlist").is_playlist());
    assert_eq!(id("youtube#playlist").get_id(), "PL1");
}

#[test]
fn the_best_thumbnail_is_high_before_medium_before_default() {
    assert_eq!(thumbnails(Some("h"), Some("m"), "d").get_url(), "h");
    assert_eq!(thumbnails(Some("h"), None, "d").get_url(), "h");
    assert_eq!(thumbnails(None, Some("m"), "d").get_url(), "m");
    assert_eq!(thumbnails(None, None, "d").get_url(), "d");
    let empty = Thumbnails::empty();
    assert!(empty.high.is_none() && empty.medium.is_none());
    assert_eq!(empty.get_url(), "");
}

#[test]
fn statistics_count_videos() {
    assert_eq!(Stats { video_count: "42".to_string() }.get_video_count(), 42);
    assert_eq!(Stats { video_count: "0".to_string() }.get_video_count(), 0);
    assert_eq!(Stats { video_count: "".to_string() }.get_video_count(), 0);
    assert_eq!(Stats { video_count: "many".to_string() }.get_video_count(), 0);
    assert_eq!(Stats { video_count: "-3".to_string() }.get_video_count(), 0);
    assert_eq!(Stats { video_count: "18446744073709551616".to_string() }.get_video_count(), 0);
    assert_eq!(Stats::default().video_count, "0");
    assert_eq!(Stats::default().get_video_count(), 0);
    let stats = ChannelStats::from(Stats { video_count: "17".to_string() });
    assert_eq!(stats.youtube_video_count, 17);
}

#[test]
fn content_details_name_the_uploads() {
    let details =
        ContentDetails { related_playlists: RelatedPlaylists { uploads: "UU7".to_string() } };
    assert_eq!(details.get_upload_playlist_id(), text("UU7"));
}

#[test]
fn entities_are_made_of_their_parts() {
    let channel = Channel::new("c".to_string(), "t".to_string(), "u".to_string(), Some(3), text("UU"));
    assert_eq!(channel.id, "c");
    assert_eq!(channel.title, "t");
    assert_eq!(channel.thumbnail, "u");
    assert_eq!(channel.video_count, Some(3));
    assert_eq!(channel.get_all_videos_playlist_id(), text("UU"));
    let bare = Channel::new("c".to_string(), "t".to_string(), "u".to_string(), None, None);
    assert_eq!(bare.get_all_videos_playlist_id(), None);
    let video = Video::new(
        "v".to_string(),
        "t".to_string(),
        "d".to_string(),
        "u".to_string(),
        "c".to_string(),
        "ct".to_string(),
        text("words"),
    );
    assert_eq!(
        (video.id, video.title, video.date, video.thumbnail, video.channel_id, video.channel_title, video.description),
        ("v".to_string(), "t".to_string(), "d".to_string(), "u".to_string(), "c".to_string(), "ct".to_string(), text("words"))
    );
    let playlist = Playlist::new("p".to_string(), "t".to_string(), "u".to_string(), "c".to_string(), "ct".to_string());
    assert_eq!(
        (playlist.id, playlist.title, playlist.thumbnail, playlist.channel_id, playlist.channel_title),
        ("p".to_string(), "t".to_string(), "u".to_string(), "c".to_string(), "ct".to_string())
    );
}

#[test]
fn a_search_item_becomes_the_entity_of_its_kind() {
    let channel = search_item("youtube#channel").into_channel().unwrap();
    assert_eq!(channel.id, "UC1");
    assert_eq!(channel.title, "A title");
    assert_eq!(channel.thumbnail, "high.jpg");
    assert_eq!(channel.video_count, None);
    assert_eq!(channel.upload_playlist_id, None);

    let video = search_item("youtube#video").into_video().unwrap();
    assert_eq!(video.id, "v1");
    assert_eq!(video.title, "A title");
    assert_eq!(video.date, "2020-01-01T00:00:00Z");
    assert_eq!(video.thumbnail, "high.jpg");
    assert_eq!(video.channel_id, "UC1");
    assert_eq!(video.channel_title, "A channel");
    assert_eq!(video.description, text("words"));

    let playlist = search_item("youtube#playlist").into_playlist().unwrap();
    assert_eq!(playlist.id, "PL1");
    assert_eq!(playlist.title, "A title");
    assert_eq!(playlist.thumbnail, "high.jpg");
    assert_eq!(playlist.channel_id, "UC1");
    assert_eq!(playlist.channel_title, "A channel");
}

#[test]
fn a_search_item_of_another_kind_is_refused() {
    assert_eq!(search_item("youtube#video").into_channel().err(), Some(ConversionError::NotAChannel));
    assert_eq!(search_item("youtube#channel").into_video().err(), Some(ConversionError::NotAVideo));
    assert_eq!(search_item("youtube#channel").into_playlist().err(), Some(ConversionError::NotAPlaylist));
    assert_eq!(search_item("").into_channel().err(), Some(ConversionError::NotAChannel));
}

#[test]
fn a_search_item_that_lacks_a_part_is_refused() {
    let mut item = search_item("youtube#channel");
    item.id.channel_id = None;
    assert_eq!(item.into_channel().err(), Some(ConversionError::MissingPart));
    let mut item = search_item("youtube#channel");
    item.snippet.thumbnails = None;
    assert_eq!(item.into_channel().err(), Some(ConversionError::MissingPart));
    let mut item = search_item("youtube#video");
    item.snippet.published_at = None;
    assert_eq!(item.into_video().err(), Some(ConversionError::MissingPart));
    let mut item = search_item("youtube#video");
    item.snippet.channel_title = None;
    assert_eq!(item.into_video().err(), Some(ConversionError::MissingPart));
    let mut item = search_item("youtube#playlist");
    item.snippet.channel_id = None;
    assert_eq!(item.into_playlist().err(), Some(ConversionError::MissingPart));
}

#[test]
fn a_playlist_without_thumbnails_gets_an_empty_address() {
    let mut item = search_item("youtube#playlist");
    item.snippet.thumbnails = None;
    assert_eq!(item.into_playlist().unwrap().thumbnail, "");
    let mut item = list_item("youtube#playlist");
    item.snippet.thumbnails = None;
    assert_eq!(item.into_playlist().unwrap().thumbnail, "");
}

#[test]
fn a_video_may_lack_its_description() {
    let mut item = search_item("youtube#video");
    item.snippet.description = None;
    assert_eq!(item.into_video().unwrap().description, None);
}

#[test]
fn a_list_item_becomes_the_entity_of_its_kind() {
    let channel = list_item("youtube#channel").into_channel().unwrap();
    assert_eq!(channel.id, "an-id");
    assert_eq!(channel.title, "A title");
    assert_eq!(channel.thumbnail, "high.jpg");
    assert_eq!(channel.video_count, Some(42));
    assert_eq!(channel.upload_playlist_id, text("UU1"));

    let video = list_item("youtube#video").into_video().unwrap();
    assert_eq!(video.id, "an-id");
    assert_eq!(video.date, "2020-01-01T00:00:00Z");
    assert_eq!(video.channel_id, "UC1");

    let playlist = list_item("youtube#playlist").into_playlist().unwrap();
    assert_eq!(playlist.id, "an-id");
    assert_eq!(playlist.channel_title, "A channel");
}

#[test]
fn a_channel_without_statistics_counts_no_videos() {
    let mut item = list_item("youtube#channel");
    item.statistics = None;
    item.content_details = None;
    let channel = item.into_channel().unwrap();
    assert_eq!(channel.video_count, Some(0));
    assert_eq!(channel.upload_playlist_id, None);
    let mut item = list_item("youtube#channel");
    item.statistics = Some(Stats { video_count: "n/a".to_string() });
    assert_eq!(item.into_channel().unwrap().video_count, Some(0));
}

#[test]
fn a_list_item_of_another_kind_or_without_a_part_is_refused() {
    assert_eq!(list_item("youtube#video").into_channel().err(), Some(ConversionError::NotAChannel));
    assert_eq!(list_item("youtube#playlist").into_video().err(), Some(ConversionError::NotAVideo));
    assert_eq!(list_item("youtube#video").into_playlist().err(), Some(ConversionError::NotAPlaylist));
    let mut item = list_item("youtube#channel");
    item.snippet.thumbnails = None;
    assert_eq!(item.into_channel().err(), Some(ConversionError::MissingPart));
    let mut item = list_item("youtube#video");
    item.snippet.channel_id = None;
    assert_eq!(item.into_video().err(), Some(ConversionError::MissingPart));
    let mut item = list_item("youtube#playlist");
    item.snippet.channel_title = None;
    assert_eq!(item.into_playlist().err(), Some(ConversionError::MissingPart));
}

#[test]
fn a_playlist_item_becomes_the_video_it_points_to() {
    let video = playlist_item("youtube#video").into_video().unwrap();
    assert_eq!(video.id, "v9");
    assert_eq!(video.title, "A title");
    assert_eq!(video.thumbnail, "high.jpg");
    assert_eq!(
        playlist_item("youtube#channel").into_video().err(),
        Some(ConversionError::NotAVideoInPlaylist)
    );
    let mut item = playlist_item("youtube#video");
    item.snippet.resource_id = None;
    assert_eq!(item.into_video().err(), Some(ConversionError::MissingPart));
    let mut item = playlist_item("youtube#video");
    item.snippet.thumbnails = None;
    assert_eq!(item.into_video().err(), Some(ConversionError::MissingPart));
}
