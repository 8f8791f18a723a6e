use youtube_proxy::endpoints::single::{process_single_result, RouteError};
use youtube_proxy::endpoints::videos::{uploads_of, Listing, PlaylistVideos};
use youtube_proxy::models::channel::Channel;
use youtube_proxy::models::video::Video;
use youtube_proxy::youtube_client::{DispatchError, Operation};
use youtube_proxy::key_manager::KeyManager;
use youtube_proxy::youtube_manager::YoutubeManager;
use youtube_proxy::{alive, ApiKey};

fn video(id: &str) -> Video {
    Video::new(
        id.to_string(),
        "title".to_string(),
        "date".to_string(),
        "thumbnail".to_string(),
        "channel".to_string(),
        "channel title".to_string(),
        None,
    )
}

fn ids(videos: &[Video]) -> Vec<&str> {
    videos.iter().map(|video| video.id.as_str()).collect()
}

#[test]
fn alive_answers_ok() {
    assert_eq!(alive(), "OK");
}

#[test]
fn statuses_have_their_numbers() {
    assert_eq!(RouteError::Unauthorized.code(), 401);
    assert_eq!(RouteError::NotFound.code(), 404);
    assert_eq!(RouteError::InternalServerError.code(), 500);
}

#[test]
fn a_single_result_is_served_or_refused() {
    assert_eq!(process_single_result::<u8, DispatchError>(Ok(Some(5))), Ok(5));
    assert_eq!(process_single_result::<u8, DispatchError>(Ok(None)), Err(RouteError::NotFound));
    let failures = [
        DispatchError::KeysExhausted { operation: Operation::Single },
        DispatchError::InvalidUrl,
        DispatchError::Transport,
        DispatchError::Upstream { status: 404 },
        DispatchError::Decode,
    ];
    for failure in failures {
        assert_eq!(
            process_single_result::<u8, DispatchError>(Err(failure)),
            Err(RouteError::InternalServerError)
        );
    }
}

#[test]
fn without_a_configured_key_every_request_is_admitted() {
    assert!(ApiKey::from_request(&None, &vec![]).is_ok());
    assert!(ApiKey::from_request(&None, &vec!["anything".to_string()]).is_ok());
}

#[test]
fn with_a_configured_key_the_first_presented_key_decides() {
    let expected = Some("test".to_string());
    assert!(ApiKey::from_request(&expected, &vec!["test".to_string()]).is_ok());
    assert!(ApiKey::from_request(&expected, &vec!["test".to_string(), "other".to_string()]).is_ok());
    assert_eq!(ApiKey::from_request(&expected, &vec![]).err(), Some(RouteError::Unauthorized));
    assert_eq!(
        ApiKey::from_request(&expected, &vec!["Test".to_string()]).err(),
        Some(RouteError::Unauthorized)
    );
    assert_eq!(
        ApiKey::from_request(&expected, &vec!["other".to_string(), "test".to_string()]).err(),
        Some(RouteError::Unauthorized)
    );
    assert_eq!(
        ApiKey::from_request(&expected, &vec!["".to_string()]).err(),
        Some(RouteError::Unauthorized)
    );
}

fn more(step: Listing<DispatchError>) -> PlaylistVideos {
    match step {
        Listing::More { listing } => listing,
        _ => panic!("the listing should go on"),
    }
}

fn done(step: Listing<DispatchError>) -> Vec<Video> {
    match step {
        Listing::Done { videos } => videos,
        _ => panic!("the listing should be done"),
    }
}

#[test]
fn a_listing_gathers_its_pages_in_order() {
    let listing = PlaylistVideos::new("PL1".to_string());
    assert_eq!(listing.next_page(), ("PL1".to_string(), None));
    let listing = more(listing.accept(Ok((vec![video("a"), video("b")], Some("page2".to_string())))));
    assert_eq!(listing.next_page(), ("PL1".to_string(), Some("page2".to_string())));
    let listing = more(listing.accept(Ok((vec![], Some("page3".to_string())))));
    assert_eq!(listing.next_page(), ("PL1".to_string(), Some("page3".to_string())));
    let videos = done(listing.accept(Ok((vec![video("c")], None))));
    assert_eq!(ids(&videos), vec!["a", "b", "c"]);
}

#[test]
fn a_listing_of_one_page() {
    let listing = PlaylistVideos::new("PL1".to_string());
    let videos = done(listing.accept(Ok((vec![video("only")], None))));
    assert_eq!(ids(&videos), vec!["only"]);
    let listing = PlaylistVideos::new("PL2".to_string());
    assert!(done(listing.accept(Ok((vec![], None)))).is_empty());
}

#[test]
fn a_failed_page_ends_the_listing_with_its_error() {
    let listing = PlaylistVideos::new("PL1".to_string());
    let listing = more(listing.accept(Ok((vec![video("a")], Some("page2".to_string())))));
    let failure = DispatchError::Upstream { status: 503 };
    match listing.accept(Err(failure)) {
        Listing::Failed { error } => assert_eq!(error, failure),
        _ => panic!("the listing should have failed"),
    }
    let listing = PlaylistVideos::new("PL1".to_string());
    let exhausted = DispatchError::KeysExhausted { operation: Operation::PlaylistItems };
    assert!(matches!(
        listing.accept(Err(exhausted)),
        Listing::Failed { error } if error == exhausted
    ));
}

#[test]
fn the_uploads_of_a_channel() {
    let with = Channel::new("c".to_string(), "t".to_string(), "u".to_string(), None, Some("UU1".to_string()));
    assert_eq!(uploads_of(Some(with)), Ok("UU1".to_string()));
    let without = Channel::new("c".to_string(), "t".to_string(), "u".to_string(), None, None);
    assert_eq!(uploads_of(Some(without)), Err(RouteError::InternalServerError));
    assert_eq!(uploads_of(None), Err(RouteError::NotFound));
}

fn make_manager(keys: Vec<&'static str>) -> YoutubeManager {
    let keys = keys.iter().map(|s| s.to_string()).collect();
    YoutubeManager::new(KeyManager::new(keys), "http://127.0.0.1:1234".to_string())
}

#[test]
fn test_alive() {
    //WHEN asking whether the server is alive
    let body = alive();
    //THEN response is ok
    assert_eq!(body.to_string(), "OK".to_string());
}

#[test]
fn test_auth_endpoints() {
    //GIVEN the api key is set
    let api_key = Some(String::from("test"));
    //WHEN making requests that present no key
    let status = ApiKey::from_request(&api_key, &vec![]);
    let search_channel = ApiKey::from_request(&api_key, &vec![]);
    let search_video = ApiKey::from_request(&api_key, &vec![]);
    let search_playlist = ApiKey::from_request(&api_key, &vec![]);
    //THEN all requests should return unauth
    assert_eq!(status.err().map(|error| error.code()), Some(401));
    assert_eq!(search_channel.err().map(|error| error.code()), Some(401));
    assert_eq!(search_video.err().map(|error| error.code()), Some(401));
    assert_eq!(search_playlist.err().map(|error| error.code()), Some(401));
}

#[test]
fn test_status_1_full_key() {
    //GIVEN manager with one key
    let manager = make_manager(vec!["key1"]);
    //WHEN asking for the status
    let status = manager.get_key_status();
    //THEN response is as expected
    let entries: Vec<String> =
        status.iter().map(|(position, quota)| format!("\"{}\":{}", position, quota)).collect();
    assert_eq!(format!("{{{}}}", entries.join(",")), r#"{"0":10000}"#.to_string());
}
