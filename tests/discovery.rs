use mpris_idle_inhibit::discovery::{is_no_active_player, NO_ACTIVE_PLAYER_MESSAGE};
use mpris_idle_inhibit::{find_active_player, first_playing, FindingError, PlaybackStatus, StatusReport};

use PlaybackStatus::{Paused, Playing, Stopped};

#[test]
fn first_playing_player_wins() {
    let reports: Vec<StatusReport> = vec![Ok(Paused), Ok(Playing), Ok(Playing)];
    assert_eq!(first_playing(&reports), Some(1));
    assert!(matches!(find_active_player(Ok(reports)), Ok(Some(1))));
}

#[test]
fn failed_status_query_is_skipped() {
    let reports: Vec<StatusReport> = vec![Err("no reply".to_string()), Ok(Playing)];
    assert!(matches!(find_active_player(Ok(reports)), Ok(Some(1))));
}

#[test]
fn no_playing_player_gives_none() {
    let reports: Vec<StatusReport> = vec![Ok(Paused), Err("gone".to_string()), Ok(Stopped)];
    assert!(matches!(find_active_player(Ok(reports)), Ok(None)));
}

#[test]
fn empty_listing_gives_none() {
    assert!(matches!(find_active_player(Ok(Vec::new())), Ok(None)));
}

#[test]
fn playing_first_is_chosen() {
    let reports: Vec<StatusReport> = vec![Ok(Playing), Ok(Paused)];
    assert_eq!(first_playing(&reports), Some(0));
}

#[test]
fn no_active_player_message_means_no_player() {
    let e = FindingError::Transport(Some(NO_ACTIVE_PLAYER_MESSAGE.to_string()));
    assert!(is_no_active_player(&e));
    assert!(matches!(find_active_player(Err(e)), Ok(None)));
    let e = FindingError::Transport(Some(
        "No player is being controlled by playerctld".to_string(),
    ));
    assert!(matches!(find_active_player(Err(e)), Ok(None)));
}

#[test]
fn other_transport_message_is_an_error() {
    let e = FindingError::Transport(Some("No player is being controlled".to_string()));
    assert!(!is_no_active_player(&e));
    match find_active_player(Err(e)) {
        Err(FindingError::Transport(Some(m))) => assert_eq!(m, "No player is being controlled"),
        _ => panic!("the failure should be passed on"),
    }
}

#[test]
fn transport_error_without_message_is_an_error() {
    assert!(matches!(
        find_active_player(Err(FindingError::Transport(None))),
        Err(FindingError::Transport(None))
    ));
}

#[test]
fn other_finding_errors_are_passed_on() {
    assert!(matches!(
        find_active_player(Err(FindingError::NoPlayerFound)),
        Err(FindingError::NoPlayerFound)
    ));
    let e = FindingError::Other("No player is being controlled by playerctld".to_string());
    assert!(matches!(find_active_player(Err(e)), Err(FindingError::Other(_))));
}
