use vstd::prelude::*;

verus! {

/// Message with which the player-multiplexing daemon answers when it
/// controls no player.
pub const NO_ACTIVE_PLAYER_MESSAGE: &'static str = "No player is being controlled by playerctld";

/// Playback status that a media player reports.
#[derive(Clone, Copy, Debug, PartialEq, Eq, Structural)]
pub enum PlaybackStatus {
    Playing,
    Paused,
    Stopped,
}

/// The outcome of asking one player for its status: the status, or the
/// message of the failed query.
pub type StatusReport = Result<PlaybackStatus, String>;

/// Why the players could not be listed.
#[derive(Clone, Debug)]
pub enum FindingError {
    /// No player matched.
    NoPlayerFound,
    /// The bus transport failed, with the message the bus gave, if any.
    Transport(Option<String>),
    /// Any other bus failure, described.
    Other(String),
}

/// The report says the player is playing.
pub open spec fn reports_playing(r: StatusReport) -> bool {
    r == Ok::<PlaybackStatus, String>(PlaybackStatus::Playing)
}

/// `found` is the position of the first playing player among `reports`, or
/// `None` when no report says playing.
pub open spec fn selects_first_playing(reports: Seq<StatusReport>, found: Option<usize>) -> bool {
    match found {
        Some(i) => {
            &&& i < reports.len()
            &&& reports_playing(reports[i as int])
            &&& forall|j: int| 0 <= j < i ==> !reports_playing(#[trigger] reports[j])
        },
        None => forall|j: int| 0 <= j < reports.len() ==> !reports_playing(#[trigger] reports[j]),
    }
}

/// The failure is the daemon's answer that it controls no player.
pub open spec fn names_no_active_player(e: FindingError) -> bool {
    match e {
        FindingError::Transport(Some(m)) => m@ == NO_ACTIVE_PLAYER_MESSAGE@,
        _ => false,
    }
}

/// `r` is what discovery answers for the player listing `listing`.
pub open spec fn discovers(
    listing: Result<Vec<StatusReport>, FindingError>,
    r: Result<Option<usize>, FindingError>,
) -> bool {
    match listing {
        Ok(reports) => match r {
            Ok(found) => selects_first_playing(reports@, found),
            Err(_) => false,
        },
        Err(e) => if names_no_active_player(e) {
            r == Ok::<Option<usize>, FindingError>(None)
        } else {
            r == Err::<Option<usize>, FindingError>(e)
        },
    }
}

/// Position of the first report that says playing; failed queries count as
/// not playing.
pub fn first_playing(reports: &Vec<StatusReport>) -> (found: Option<usize>)
    ensures
        selects_first_playing(reports@, found),
{
    let mut i: usize = 0;
    while i < reports.len()
        invariant
            i <= reports.len(),
            forall|j: int| 0 <= j < i ==> !reports_playing(#[trigger] reports@[j]),
        decreases reports.len() - i,
    {
        let playing = match &reports[i] {
            Ok(PlaybackStatus::Playing) => true,
            _ => false,
        };
        if playing {
            return Some(i);
        }
        i = i + 1;
    }
    None
}

/// Whether the failure is the daemon's answer that it controls no player.
pub fn is_no_active_player(e: &FindingError) -> (r: bool)
    ensures
        r == names_no_active_player(*e),
{
    match e {
        FindingError::Transport(Some(m)) => {
            let expected: String = NO_ACTIVE_PLAYER_MESSAGE.to_owned();
            *m == expected
        },
        _ => false,
    }
}

/// Picks the player to watch from a listing of the players' status reports:
/// the first that is playing. A failed listing is passed on, except the
/// daemon's answer that it controls no player, which means no player.
pub fn find_active_player(listing: Result<Vec<StatusReport>, FindingError>) -> (r: Result<
    Option<usize>,
    FindingError,
>)
    ensures
        discovers(listing, r),
{
    match listing {
        Ok(reports) => Ok(first_playing(&reports)),
        Err(e) => {
            if is_no_active_player(&e) {
                Ok(None)
            } else {
                Err(e)
            }
        },
    }
}

/// The daemon's answer that it controls no player gives the same result as
/// an empty player listing: no player, and no error.
pub proof fn lemma_no_active_player_is_empty_listing(
    e: FindingError,
    empty: Vec<StatusReport>,
    r: Result<Option<usize>, FindingError>,
)
    requires
        names_no_active_player(e),
        empty@.len() == 0,
    ensures
        discovers(Err(e), r) <==> discovers(Ok(empty), r),
        discovers(Err(e), r) <==> r == Ok::<Option<usize>, FindingError>(None),
{
}

/// A player whose status query failed is passed over without ending
/// discovery: where some player at or after it is playing, a playing player
/// is still found, never one whose query failed.
pub proof fn lemma_failed_query_passed_over(
    reports: Vec<StatusReport>,
    k: int,
    r: Result<Option<usize>, FindingError>,
)
    requires
        0 <= k < reports@.len(),
        reports_playing(reports@[k]),
        discovers(Ok(reports), r),
    ensures
        r matches Ok(Some(i)) && i <= k && reports@[i as int] is Ok && reports_playing(
            reports@[i as int],
        ),
{
}

} // verus!
