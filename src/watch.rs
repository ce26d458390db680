use vstd::prelude::*;

verus! {

/// The kind of an event on a player's event stream.
#[derive(Clone, Copy, Debug, PartialEq, Eq, Structural)]
pub enum EventKind {
    /// The player process went away.
    PlayerShutDown,
    Paused,
    Playing,
    Stopped,
    /// Track, volume, position and similar changes.
    Other,
}

/// One item read from a player's event stream.
#[derive(Clone, Debug)]
pub enum StreamItem {
    Event(EventKind),
    /// Reading the stream failed, with the failure's message.
    Failed(String),
}

/// Why the watch of a player ended. Every end allows the session to idle
/// again, unless discovery finds a player still playing.
#[derive(Clone, Debug)]
pub enum WatchEnd {
    /// The player stopped, paused or shut down.
    PlaybackEnded,
    /// The stream failed, with the failure's message.
    StreamFailed(String),
    /// The stream ended without a qualifying event.
    StreamClosed,
}

/// Events after which the player no longer plays.
pub open spec fn ends_playback(kind: EventKind) -> bool {
    kind == EventKind::PlayerShutDown || kind == EventKind::Stopped || kind == EventKind::Paused
}

/// How the watch ends at the stream position `next` (`None`: the stream has
/// ended), or `None` when it goes on reading.
pub open spec fn step_end(next: Option<StreamItem>) -> Option<WatchEnd> {
    match next {
        None => Some(WatchEnd::StreamClosed),
        Some(StreamItem::Failed(m)) => Some(WatchEnd::StreamFailed(m)),
        Some(StreamItem::Event(kind)) => if ends_playback(kind) {
            Some(WatchEnd::PlaybackEnded)
        } else {
            None
        },
    }
}

/// How the watch ends on a stream that yields `items` and then ends.
pub open spec fn watch_outcome(items: Seq<StreamItem>) -> WatchEnd
    decreases items.len(),
{
    if items.len() == 0 {
        WatchEnd::StreamClosed
    } else {
        match step_end(Some(items[0])) {
            Some(end) => end,
            None => watch_outcome(items.drop_first()),
        }
    }
}

/// Whether the event kind ends playback.
pub fn is_playback_end(kind: EventKind) -> (r: bool)
    ensures
        r == ends_playback(kind),
{
    match kind {
        EventKind::PlayerShutDown | EventKind::Stopped | EventKind::Paused => true,
        _ => false,
    }
}

/// Takes the next position of a player's event stream, the item read or
/// `None` at its end, and says whether the watch ends there and why.
/// Errors and the end of the stream end it too: the watch never waits on a
/// stream it can no longer read.
pub fn watch_step(next: Option<StreamItem>) -> (r: Option<WatchEnd>)
    ensures
        r == step_end(next),
{
    match next {
        None => Some(WatchEnd::StreamClosed),
        Some(StreamItem::Failed(m)) => Some(WatchEnd::StreamFailed(m)),
        Some(StreamItem::Event(kind)) => {
            if is_playback_end(kind) {
                Some(WatchEnd::PlaybackEnded)
            } else {
                None
            }
        },
    }
}

/// Every finite stream ends the watch: on the first event that ends
/// playback, on the first error (when it comes before such an event), and
/// otherwise when the stream ends, also where it never held a qualifying
/// event.
pub proof fn lemma_watch_fails_open(items: Seq<StreamItem>)
    ensures
        (forall|i: int| 0 <= i < items.len() ==> step_end(Some(#[trigger] items[i])) is None)
            ==> watch_outcome(items) == WatchEnd::StreamClosed,
        forall|i: int|
            0 <= i < items.len() && step_end(Some(#[trigger] items[i])) is Some && (forall|j: int|
                0 <= j < i ==> step_end(Some(#[trigger] items[j])) is None) ==> watch_outcome(items)
                == step_end(Some(items[i]))->Some_0,
    decreases items.len(),
{
    if items.len() > 0 {
        let rest = items.drop_first();
        lemma_watch_fails_open(rest);
        assert forall|i: int|
            0 <= i < items.len() && step_end(Some(#[trigger] items[i])) is Some && (forall|j: int|
                0 <= j < i ==> step_end(Some(#[trigger] items[j])) is None) implies watch_outcome(items)
            == step_end(Some(items[i]))->Some_0 by {
            if i > 0 {
                assert(step_end(Some(items[0])) is None);
                assert forall|j: int| 0 <= j < i - 1 implies step_end(Some(#[trigger] rest[j])) is None by {
                    assert(rest[j] == items[j + 1]);
                }
                assert(rest[i - 1] == items[i]);
            }
        }
        if forall|i: int| 0 <= i < items.len() ==> step_end(Some(#[trigger] items[i])) is None {
            assert(step_end(Some(items[0])) is None);
            assert forall|j: int| 0 <= j < rest.len() implies step_end(Some(#[trigger] rest[j])) is None by {
                assert(rest[j] == items[j + 1]);
            }
        }
    }
}

} // verus!
