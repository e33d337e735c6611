//! The playback queue engine.
//!
//! A [`Player`] owns the track list, the order in which the tracks play, the
//! position in that order, and the record of a resolution that runs in the
//! background for the track that plays next. It decides; the caller drives the
//! audio output and the network and reports back.

use vstd::prelude::*;
use rand::seq::SliceRandom;
use crate::api::endpoints::playlists_text;
use crate::api::likes::{fetched, liked_music_tracks, music_only};
use crate::api::types::{AccountStatus, Track, TrackData, TrackID};
use crate::error::ApiError;

verus! {

/// Whether a queue names every track of a list of that length exactly once.
pub open spec fn is_permutation(queue: Seq<usize>, len: nat) -> bool {
    &&& queue.len() == len
    &&& forall|i: int| 0 <= i < queue.len() ==> (#[trigger] queue[i]) < len
    &&& queue.no_duplicates()
}

/// The queue that plays a list of that length in its own order.
pub open spec fn identity_queue(len: nat) -> Seq<usize> {
    Seq::new(len, |i: int| i as usize)
}

/// What a player holds, as plain values.
pub struct QueueState {
    /// The tracks, in the order in which they were loaded.
    pub tracks: Seq<Track>,
    /// The order of play: indices into `tracks`.
    pub queue: Seq<usize>,
    /// How far play has come in `queue`.
    pub position: nat,
    /// The track that is being resolved in the background, if one is.
    pub prefetch: Option<TrackID>,
}

/// What the caller is to do after a tick.
#[derive(Debug, Clone, Copy, PartialEq, Eq, Structural)]
pub enum TickAction {
    /// Wait for the background resolution of this track and report its result.
    AwaitPrefetch(TrackID),
    /// Resolve this track now and report the result.
    ResolveNow(TrackID),
    /// Start resolving this track in the background and keep the handle.
    StartPrefetch(TrackID),
    /// Nothing: audio is playing and the next track is on its way.
    Idle,
}

/// What the caller is to do with the audio output after a skip.
#[derive(Debug, Clone, Copy, PartialEq, Eq, Structural)]
pub enum SinkCommand {
    /// Leave the output as it is.
    Keep,
    /// Stop the output and put a fresh one in its place, with the volume and
    /// speed of the old one. The handle of a background resolution goes only
    /// where the player's record of it was cleared.
    Swap,
}

/// What the caller is to do with the audio output to toggle playback.
#[derive(Debug, Clone, Copy, PartialEq, Eq, Structural)]
pub enum PlaybackCommand {
    Play,
    Pause,
}

/// The result of a resolution that a tick asked for.
pub enum Resolved {
    /// What waiting for the background resolution gave.
    Prefetched(Result<TrackData, ApiError>),
    /// What resolving in the foreground gave.
    Direct(Result<TrackData, ApiError>),
}

impl QueueState {
    /// The queue names every track exactly once.
    pub open spec fn wf(self) -> bool {
        is_permutation(self.queue, self.tracks.len())
    }

    /// Whether the position names a track.
    pub open spec fn has_current(self) -> bool {
        self.position < self.queue.len()
    }

    /// The track a number of places after the position.
    pub open spec fn track_at(self, offset: nat) -> Track
        recommends
            self.position + offset < self.queue.len(),
    {
        self.tracks[self.queue[(self.position + offset) as int] as int]
    }

    /// The track at the position: the one that plays next.
    pub open spec fn current(self) -> Track
        recommends
            self.has_current(),
    {
        self.track_at(0)
    }

    /// A fresh state for a track list: played in the list's order, from the
    /// start, with nothing in the background.
    pub open spec fn loaded(tracks: Seq<Track>) -> QueueState {
        QueueState { tracks, queue: identity_queue(tracks.len()), position: 0, prefetch: None }
    }

    /// The state one position further.
    pub open spec fn advanced(self) -> QueueState {
        QueueState { position: self.position + 1, ..self }
    }

    /// The state at the start of the queue, with nothing in the background.
    pub open spec fn rewound(self) -> QueueState {
        QueueState { position: 0, prefetch: None, ..self }
    }

    /// The state with another queue, at its start.
    pub open spec fn with_queue(self, queue: Seq<usize>) -> QueueState {
        QueueState { queue, position: 0, prefetch: None, ..self }
    }

    /// Whether a step back moves: only from the third position on.
    pub open spec fn can_step_back(self) -> bool {
        self.position >= 2
    }

    /// The state after a step back: two positions earlier and with nothing in
    /// the background where it moves, unchanged where it does not.
    pub open spec fn stepped_back(self) -> QueueState {
        if self.can_step_back() {
            QueueState { position: (self.position - 2) as nat, prefetch: None, ..self }
        } else {
            self
        }
    }

    /// What a tick asks of the caller.
    pub open spec fn tick_action(self, sink_empty: bool) -> TickAction
        recommends
            self.has_current(),
    {
        match (sink_empty, self.prefetch) {
            (true, Some(id)) => TickAction::AwaitPrefetch(id),
            (true, None) => TickAction::ResolveNow(self.current().id),
            (false, None) => TickAction::StartPrefetch(self.current().id),
            (false, Some(_)) => TickAction::Idle,
        }
    }

    /// The state after a tick.
    pub open spec fn ticked(self, sink_empty: bool) -> QueueState
        recommends
            self.has_current(),
    {
        match (sink_empty, self.prefetch) {
            (true, _) => QueueState { prefetch: None, ..self },
            (false, None) => QueueState { prefetch: Some(self.current().id), ..self },
            (false, Some(_)) => self,
        }
    }

    /// The state after a whole tick: after the tick itself and, where the tick
    /// found the output empty and asked for a resolution, after its result.
    pub open spec fn after_tick(self, sink_empty: bool, event: Resolved) -> QueueState {
        if sink_empty {
            self.ticked(true).resolved(event)
        } else {
            self.ticked(false)
        }
    }

    /// The state after a number of ticks that all find the output busy.
    pub open spec fn busy_ticks(self, ticks: nat) -> QueueState
        decreases ticks,
    {
        if ticks == 0 {
            self
        } else {
            self.ticked(false).busy_ticks((ticks - 1) as nat)
        }
    }

    /// The audio to play once a resolution has reported.
    pub open spec fn audio_of(event: Resolved) -> Option<TrackData> {
        match event {
            Resolved::Prefetched(Ok(blob)) => Some(blob),
            Resolved::Direct(Ok(blob)) => Some(blob),
            _ => None,
        }
    }

    /// The state once a resolution has reported. Audio that arrived plays and
    /// the position moves on. A failure in the foreground skips the track. A
    /// failure in the background changes nothing: the next tick resolves the
    /// track in the foreground.
    pub open spec fn resolved(self, event: Resolved) -> QueueState {
        match event {
            Resolved::Prefetched(Err(_)) => self,
            _ => self.advanced(),
        }
    }
}

#[verifier::external_type_specification]
#[verifier::external_body]
pub struct ExThreadRng(rand::rngs::ThreadRng);

/// Calls `rand::seq::SliceRandom::shuffle` on the queue. Which order comes out
/// is left open. The contract claims what holds of every outcome: the call
/// only swaps items, so the same indices are there as often as before.
#[verifier::external_body]
fn shuffle_indices(queue: &mut Vec<usize>, rng: &mut rand::rngs::ThreadRng)
    ensures
        final(queue)@.to_multiset() == old(queue)@.to_multiset(),
{
    queue.shuffle(rng)
}

/// A tick moves the position by one or not at all: the tick itself leaves it,
/// the result of a resolution moves it by one at most, and a tick that found
/// the output busy asks for no result.
pub proof fn lemma_tick_moves_by_at_most_one(state: QueueState, sink_empty: bool, event: Resolved)
    ensures
        state.ticked(sink_empty).position == state.position,
        state.after_tick(sink_empty, event).position == state.position || state.after_tick(
            sink_empty,
            event,
        ).position == state.position + 1,
        state.after_tick(sink_empty, event).position == state.position + 1 ==> sink_empty,
{
}

/// Once a background resolution is on its way, ticks that find the output busy
/// ask for nothing and change nothing.
pub proof fn lemma_busy_ticks_keep_prefetch(state: QueueState, ticks: nat)
    requires
        state.prefetch is Some,
    ensures
        state.busy_ticks(ticks) == state,
        state.tick_action(false) == TickAction::Idle,
    decreases ticks,
{
    if ticks > 0 {
        lemma_busy_ticks_keep_prefetch(state, (ticks - 1) as nat);
    }
}

/// A background resolution that a tick started is the one that is waited for
/// when the output runs empty, however many ticks pass in between: the track
/// is not resolved a second time.
pub proof fn lemma_prefetch_is_awaited(state: QueueState, ticks: nat)
    requires
        state.has_current(),
        state.prefetch is None,
    ensures
        state.tick_action(false) == TickAction::StartPrefetch(state.current().id),
        state.ticked(false).busy_ticks(ticks).tick_action(true) == TickAction::AwaitPrefetch(
            state.current().id,
        ),
        state.ticked(false).busy_ticks(ticks).ticked(true) == state,
{
    lemma_busy_ticks_keep_prefetch(state.ticked(false), ticks);
}

/// A track list with the order in which it plays.
struct Playlist {
    tracks: Vec<Track>,
    queue: Vec<usize>,
}

impl Playlist {
    #[verifier::type_invariant]
    spec fn inv(self) -> bool {
        is_permutation(self.queue@, self.tracks@.len())
    }

    /// A track list that plays in its own order.
    fn new(tracks: Vec<Track>) -> (playlist: Playlist)
        ensures
            playlist.tracks@ == tracks@,
            playlist.queue@ == identity_queue(tracks@.len()),
            is_permutation(playlist.queue@, tracks@.len()),
    {
        let mut queue: Vec<usize> = Vec::new();
        let mut i: usize = 0;
        while i < tracks.len()
            invariant
                i <= tracks@.len(),
                queue@ == identity_queue(i as nat),
            decreases tracks@.len() - i,
        {
            queue.push(i);
            assert(queue@ =~= identity_queue((i + 1) as nat));
            i += 1;
        }
        Playlist { tracks, queue }
    }
}

/// The queue engine of one session.
pub struct Player {
    account: AccountStatus,
    playlist: Playlist,
    queue_position: usize,
    prefetch: Option<TrackID>,
}

impl View for Player {
    type V = QueueState;

    closed spec fn view(&self) -> QueueState {
        QueueState {
            tracks: self.playlist.tracks@,
            queue: self.playlist.queue@,
            position: self.queue_position as nat,
            prefetch: self.prefetch,
        }
    }
}

/// A queue with the same indices as a permutation, each as often, is a
/// permutation of the same length.
pub proof fn lemma_shuffled_is_permutation(before: Seq<usize>, after: Seq<usize>, len: nat)
    requires
        is_permutation(before, len),
        after.to_multiset() == before.to_multiset(),
    ensures
        is_permutation(after, len),
        after.len() == before.len(),
{
    before.to_multiset_ensures();
    after.to_multiset_ensures();
    before.lemma_multiset_has_no_duplicates();
    after.lemma_multiset_has_no_duplicates_conv();
    assert forall|i: int| 0 <= i < after.len() implies (#[trigger] after[i]) < len by {
        assert(after.contains(after[i]));
        assert(before.to_multiset().count(after[i]) > 0);
        assert(before.contains(after[i]));
    }
}

/// A permutation names every index below its length.
pub proof fn lemma_permutation_is_onto(queue: Seq<usize>, len: nat, index: usize)
    requires
        is_permutation(queue, len),
        index < len,
    ensures
        queue.contains(index),
    decreases len,
{
    let top = (len - 1) as usize;
    if !queue.contains(top) {
        // Without the largest index, the queue less its last entry is a
        // permutation one shorter, and so holds that last entry already.
        let shorter = queue.drop_last();
        assert forall|i: int| 0 <= i < shorter.len() implies (#[trigger] shorter[i]) < len - 1 by {
            assert(shorter[i] == queue[i]);
            assert(queue.contains(queue[i]));
        }
        assert(queue.contains(queue.last()));
        lemma_permutation_is_onto(shorter, (len - 1) as nat, queue.last());
        let i = shorter.index_of(queue.last());
        assert(queue[i] == queue[len - 1]);
        assert(false);
    }
    if index != top {
        let at = queue.index_of(top);
        let rest = queue.remove(at);
        assert forall|i: int| 0 <= i < rest.len() implies (#[trigger] rest[i]) < len - 1 by {
            if i < at {
                assert(rest[i] == queue[i]);
            } else {
                assert(rest[i] == queue[i + 1]);
            }
        }
        assert forall|i: int, j: int| 0 <= i < rest.len() && 0 <= j < rest.len() && i != j implies rest[i]
            != rest[j] by {
            let from_i = if i < at {
                i
            } else {
                i + 1
            };
            let from_j = if j < at {
                j
            } else {
                j + 1
            };
            assert(rest[i] == queue[from_i] && rest[j] == queue[from_j]);
        }
        lemma_permutation_is_onto(rest, (len - 1) as nat, index);
        let i = rest.index_of(index);
        assert(queue[if i < at {
            i
        } else {
            i + 1
        }] == index);
    }
}

/// The queue in a list's own order is a permutation.
pub proof fn lemma_identity_is_permutation(len: nat)
    requires
        len <= usize::MAX,
    ensures
        is_permutation(identity_queue(len), len),
{
}

impl Player {
    /// The account that the session belongs to.
    pub closed spec fn account_view(self) -> AccountStatus {
        self.account
    }

    /// The account that the session belongs to.
    pub fn account(&self) -> (account: &AccountStatus)
        ensures
            *account == self.account_view(),
    {
        &self.account
    }

    /// The tracks, in the order in which they were loaded.
    pub fn tracks(&self) -> (tracks: &Vec<Track>)
        ensures
            tracks@ == self@.tracks,
            self@.wf(),
    {
        proof {
            use_type_invariant(&self.playlist);
        }
        &self.playlist.tracks
    }

    /// The order of play.
    pub fn queue(&self) -> (queue: &Vec<usize>)
        ensures
            queue@ == self@.queue,
            self@.wf(),
    {
        proof {
            use_type_invariant(&self.playlist);
        }
        &self.playlist.queue
    }

    /// How far play has come in the queue.
    pub fn queue_position(&self) -> (position: usize)
        ensures
            position == self@.position,
    {
        self.queue_position
    }

    /// The track that is being resolved in the background, if one is.
    pub fn prefetch(&self) -> (prefetch: Option<TrackID>)
        ensures
            prefetch == self@.prefetch,
    {
        self.prefetch
    }

    /// Whether the position names a track.
    pub fn has_next_track(&self) -> (has: bool)
        ensures
            has == self@.has_current(),
    {
        self.queue_position < self.playlist.queue.len()
    }

    /// The track that plays next. The position must name a track.
    pub fn next_track<'a>(&'a self) -> (track: &'a Track)
        requires
            self@.has_current(),
        ensures
            *track == self@.current(),
    {
        proof {
            use_type_invariant(&self.playlist);
        }
        &self.playlist.tracks[self.playlist.queue[self.queue_position]]
    }

    /// The track a number of places after the one that plays next. The queue
    /// must reach that far.
    pub fn track_after_n<'a>(&'a self, n: usize) -> (track: &'a Track)
        requires
            self@.position + n < self@.queue.len(),
        ensures
            *track == self@.track_at(n as nat),
    {
        proof {
            use_type_invariant(&self.playlist);
            assert(self.playlist.queue@.len() == self.playlist.queue.len());
        }
        &self.playlist.tracks[self.playlist.queue[self.queue_position + n]]
    }

    /// Moves the position on by one, as far as the machine can count.
    pub fn advance(&mut self)
        requires
            old(self)@.position < usize::MAX,
        ensures
            final(self)@ == old(self)@.advanced(),
            final(self).account_view() == old(self).account_view(),
    {
        self.queue_position = self.queue_position + 1;
    }

    /// Skips what is playing: the output is swapped, so that the next tick finds
    /// it empty and plays the track at the position. The player itself does not
    /// change.
    pub fn move_next(&mut self) -> (command: SinkCommand)
        ensures
            command == SinkCommand::Swap,
            *final(self) == *old(self),
    {
        SinkCommand::Swap
    }

    /// Steps back to the track before the one that is playing. The position is
    /// already past the playing track, so it moves back by two, and only where
    /// it can.
    pub fn move_prev(&mut self) -> (command: SinkCommand)
        ensures
            final(self)@ == old(self)@.stepped_back(),
            final(self).account_view() == old(self).account_view(),
            command == if old(self)@.can_step_back() {
                SinkCommand::Swap
            } else {
                SinkCommand::Keep
            },
    {
        if self.queue_position > 1 {
            self.queue_position = self.queue_position - 2;
            self.prefetch = None;
            SinkCommand::Swap
        } else {
            SinkCommand::Keep
        }
    }

    /// Pauses an output that plays and resumes one that is paused.
    pub fn toggle_playback(&self, paused: bool) -> (command: PlaybackCommand)
        ensures
            command == if paused {
                PlaybackCommand::Play
            } else {
                PlaybackCommand::Pause
            },
    {
        if paused {
            PlaybackCommand::Play
        } else {
            PlaybackCommand::Pause
        }
    }

    /// Goes back to the start of the queue and forgets the background
    /// resolution.
    pub fn reset(&mut self)
        ensures
            final(self)@ == old(self)@.rewound(),
            final(self).account_view() == old(self).account_view(),
    {
        self.queue_position = 0;
        self.prefetch = None;
    }

    /// Replaces the order of play and starts it from the beginning. The new
    /// order must name every track exactly once.
    pub fn set_queue(&mut self, queue: Vec<usize>)
        requires
            is_permutation(queue@, old(self)@.tracks.len()),
        ensures
            final(self)@ == old(self)@.with_queue(queue@),
            final(self)@.wf(),
            final(self).account_view() == old(self).account_view(),
    {
        proof {
            use_type_invariant(&self.playlist);
        }
        self.playlist.queue = queue;
        self.reset();
    }

    /// Puts the queue into a random order and starts it from the beginning.
    pub fn shuffle_tracks(&mut self, rng: &mut rand::rngs::ThreadRng)
        ensures
            final(self)@.queue.to_multiset() == old(self)@.queue.to_multiset(),
            final(self)@ == old(self)@.with_queue(final(self)@.queue),
            final(self)@.wf(),
            final(self).account_view() == old(self).account_view(),
    {
        proof {
            use_type_invariant(&self.playlist);
        }
        let mut queue = self.playlist.queue.clone();
        shuffle_indices(&mut queue, rng);
        proof {
            lemma_shuffled_is_permutation(
                self.playlist.queue@,
                queue@,
                self.playlist.tracks@.len(),
            );
        }
        self.set_queue(queue);
    }
}

/// Tells whether a queue names every track of a list of that length exactly
/// once, which is what [`Player::set_queue`] asks of a queue.
pub fn is_valid_queue(queue: &Vec<usize>, len: usize) -> (valid: bool)
    ensures
        valid == is_permutation(queue@, len as nat),
{
    if queue.len() != len {
        return false;
    }
    let mut seen: Vec<bool> = Vec::new();
    let mut k: usize = 0;
    while k < len
        invariant
            k <= len,
            seen@.len() == k,
            forall|j: int| 0 <= j < k ==> !seen@[j],
        decreases len - k,
    {
        seen.push(false);
        k += 1;
    }
    let mut i: usize = 0;
    while i < len
        invariant
            i <= len,
            queue@.len() == len,
            seen@.len() == len,
            forall|k: int| 0 <= k < i ==> (#[trigger] queue@[k]) < len,
            forall|k: int, l: int| 0 <= k < l < i ==> queue@[k] != queue@[l],
            forall|j: int|
                0 <= j < len ==> (#[trigger] seen@[j] <==> exists|k: int|
                    0 <= k < i && queue@[k] == j),
        decreases len - i,
    {
        let index = queue[i];
        if index >= len {
            return false;
        }
        if seen[index] {
            let ghost first = choose|k: int| 0 <= k < i && queue@[k] == index;
            assert(queue@[first] == queue@[i as int]);
            return false;
        }
        seen.set(index, true);
        proof {
            assert forall|j: int| 0 <= j < len implies (#[trigger] seen@[j] <==> exists|k: int|
                0 <= k < i + 1 && queue@[k] == j) by {
                if j == index {
                    assert(queue@[i as int] == j);
                } else if seen@[j] {
                    let k = choose|k: int| 0 <= k < i && queue@[k] == j;
                    assert(0 <= k < i + 1 && queue@[k] == j);
                }
            }
        }
        i += 1;
    }
    true
}

/// Starts a session: the tracks play in their own order, from the first.
pub fn init_player(account: AccountStatus, tracks: Vec<Track>) -> (player: Player)
    ensures
        player@ == QueueState::loaded(tracks@),
        player@.wf(),
        player.account_view() == account,
{
    Player { account, playlist: Playlist::new(tracks), queue_position: 0, prefetch: None }
}

/// Puts the tracks of a playlist in the place of the player's tracks.
pub fn load_playlist_into_player(player: &mut Player, tracks: Vec<Track>)
    ensures
        final(player)@ == QueueState::loaded(tracks@),
        final(player)@.wf(),
        final(player).account_view() == old(player).account_view(),
{
    player.playlist = Playlist::new(tracks);
    player.reset();
}

/// Puts the liked music tracks in the place of the player's tracks: of the
/// fetches of the liked tracks, those that succeeded and whose first album is a
/// music album.
pub fn load_favorites_into_player(player: &mut Player, results: Vec<Result<Track, ApiError>>)
    ensures
        final(player)@ == QueueState::loaded(music_only(fetched(results@))),
        final(player)@.wf(),
        final(player).account_view() == old(player).account_view(),
{
    load_playlist_into_player(player, liked_music_tracks(results));
}

/// The address of the list of playlists of the player's account.
pub fn playlists_url(player: &Player) -> (url: String)
    ensures
        url@ == playlists_text(player.account_view().uid as nat),
{
    crate::api::endpoints::playlists_url(player.account.uid)
}

/// One tick. With the output empty, the next track is due: it comes from the
/// background resolution where one runs, and is resolved now where none does.
/// With the output busy, a background resolution of the next track is started
/// unless one runs already. The position must name a track.
pub fn update_player(player: &mut Player, sink_empty: bool) -> (action: TickAction)
    requires
        old(player)@.has_current(),
    ensures
        action == old(player)@.tick_action(sink_empty),
        final(player)@ == old(player)@.ticked(sink_empty),
        final(player).account_view() == old(player).account_view(),
{
    if sink_empty {
        let pending = player.prefetch;
        player.prefetch = None;
        match pending {
            Some(id) => TickAction::AwaitPrefetch(id),
            None => TickAction::ResolveNow(player.next_track().id),
        }
    } else {
        match player.prefetch {
            Some(_) => TickAction::Idle,
            None => {
                let id = player.next_track().id;
                player.prefetch = Some(id);
                TickAction::StartPrefetch(id)
            },
        }
    }
}

/// Takes the result of the resolution that the last tick asked for, and hands
/// back the audio to play, if there is any. The position must name a track, as
/// it did at that tick.
pub fn track_resolved(player: &mut Player, event: Resolved) -> (audio: Option<TrackData>)
    requires
        old(player)@.has_current(),
    ensures
        audio == QueueState::audio_of(event),
        final(player)@ == old(player)@.resolved(event),
        final(player).account_view() == old(player).account_view(),
{
    assert(player.playlist.queue@.len() == player.playlist.queue.len());
    match event {
        Resolved::Prefetched(Ok(blob)) => {
            player.advance();
            Some(blob)
        },
        Resolved::Direct(Ok(blob)) => {
            player.advance();
            Some(blob)
        },
        Resolved::Direct(Err(_)) => {
            player.advance();
            None
        },
        Resolved::Prefetched(Err(_)) => None,
    }
}

} // verus!
