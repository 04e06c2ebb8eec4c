//! The transport state machine: an append-only track queue with a cursor,
//! play/pause, skip and previous-track policy, and clamped volume.
//!
//! The audio output collaborator is injected as an [`AudioSink`] capability.
//! Its answers (does it still hold audio, is it paused, did a track decode)
//! are outside this library's control, so every contract here states what
//! holds of the transport state for every possible answer, and the
//! [`TransportModel`] transition functions pin down each operation exactly
//! for a given answer.

use vstd::prelude::*;

use crate::song::Song;

verus! {

/// The audio output collaborator: a mixer that accepts decoded tracks and
/// reports its own state. Implementations live outside the library (a real
/// audio device in the application, a scripted double in tests), so no
/// behaviour is assumed of these methods beyond their signatures.
pub trait AudioSink {
    /// Does the sink still hold audio that has not finished playing?
    fn has_pending(&self) -> bool;

    /// Open and decode the file at `path` and hand its audio to the sink.
    /// Returns `false` when the track is unreadable (missing file,
    /// unsupported codec, corrupt stream).
    fn append_track(&mut self, path: &str) -> bool;

    /// Stop the track that is currently sounding, keeping any queued audio.
    fn terminate_current(&mut self);

    fn pause(&mut self);

    fn resume(&mut self);

    fn is_paused(&self) -> bool;

    /// Apply a volume in hundredths of full scale, already clamped to 0..=100.
    fn set_volume_percent(&mut self, percent: u8);

    /// Elapsed playback position of the current track, in milliseconds.
    fn elapsed_ms(&self) -> u64;
}

/// What one driving-loop tick did to the transport.
#[derive(Debug)]
pub enum AdvanceOutcome {
    /// The sink still had unfinished audio; nothing was touched.
    Unchanged,
    /// The queue is exhausted: the cursor sits at the end and nothing plays.
    Exhausted,
    /// The given track was loaded and is now playing.
    Advanced(Song),
}

/// A transport command queued by the surrounding application's input layer.
#[derive(Debug)]
pub enum PlayerCommand {
    Skip,
    Prev,
    PlayPause,
    VolumeUp,
    VolumeDown,
}

/// Which tag of the current track a caller wants to display.
#[derive(Debug)]
pub enum MetadataType {
    Title,
    TrackArtist,
    Album,
}

/// The mathematical state of the transport: everything the controller owns
/// apart from the sink itself.
pub ghost struct TransportModel {
    /// The queued tracks, in insertion order.
    pub queue: Seq<Song>,
    /// The cursor: index of the next track to load, in `[0, queue.len()]`.
    pub next_index: int,
    /// Snapshot of the track currently loaded in the sink, if any.
    pub current: Option<Song>,
    /// Volume in hundredths of full scale, in `[0, 100]`.
    pub volume: int,
}

/// The transport invariant: the cursor stays within the queue (it may sit
/// one past the last track, meaning exhausted) and the volume stays clamped.
pub open spec fn wf_model(m: TransportModel) -> bool {
    &&& 0 <= m.next_index <= m.queue.len()
    &&& 0 <= m.volume <= 100
}

/// The state of a freshly constructed transport.
pub open spec fn initial_model() -> TransportModel {
    TransportModel { queue: Seq::empty(), next_index: 0, current: None, volume: 100 }
}

/// Appending a track to the queue; the cursor and everything else stay put.
pub open spec fn enqueue_t(m: TransportModel, song: Song) -> TransportModel {
    TransportModel { queue: m.queue.push(song), ..m }
}

/// The previous-track cursor rule: no change at 0, one step back at 1, two
/// steps back everywhere else. The asymmetry is deliberate: the following
/// tick increments the cursor again, so stepping back by two nets one track
/// backwards, while at the boundary a single step avoids going negative.
pub open spec fn prev_index(i: int) -> int {
    if i <= 1 {
        0
    } else {
        i - 2
    }
}

/// The previous-track operation: the cursor rule when the sink was active,
/// a no-op when it was idle.
pub open spec fn prev_t(m: TransportModel, active: bool) -> TransportModel {
    if active {
        TransportModel { next_index: prev_index(m.next_index), ..m }
    } else {
        m
    }
}

/// Clearing the queue: empties it and rewinds the cursor, but only while the
/// sink is active; when idle it is a no-op.
pub open spec fn clear_t(m: TransportModel, active: bool) -> TransportModel {
    if active {
        TransportModel { queue: Seq::empty(), next_index: 0, ..m }
    } else {
        m
    }
}

/// Volume clamped to `[0, 100]` hundredths.
pub open spec fn clamp_volume(v: int) -> int {
    if v < 0 {
        0
    } else if v > 100 {
        100
    } else {
        v
    }
}

/// A relative volume change, clamped.
pub open spec fn volume_t(m: TransportModel, amount: int) -> TransportModel {
    TransportModel { volume: clamp_volume(m.volume + amount), ..m }
}

/// One driving-loop tick. `pending` is the sink's answer to "do you still
/// hold audio"; `unreadable` is how many consecutive queued tracks failed to
/// decode before one loaded. A pending sink leaves everything unchanged;
/// otherwise the first readable track from the cursor onwards is loaded, and
/// if none is left the cursor parks at the end with nothing playing.
pub open spec fn tick_t(m: TransportModel, pending: bool, unreadable: nat) -> TransportModel {
    if pending {
        m
    } else if m.next_index + unreadable >= m.queue.len() {
        TransportModel { next_index: m.queue.len() as int, current: None, ..m }
    } else {
        let loaded = m.next_index + unreadable;
        TransportModel { next_index: loaded + 1, current: Some(m.queue[loaded]), ..m }
    }
}

/// One transport operation, abstracted over the answers the sink gave while
/// it ran: the model-level counterpart of the methods on [`Player`].
pub ghost enum TransportOp {
    Enqueue(Song),
    Tick { pending: bool, unreadable: nat },
    Skip,
    Previous { active: bool },
    ClearQueue { active: bool },
    ChangeVolume { amount: int },
    PlayPause,
}

/// Whether an operation empties the queue.
pub open spec fn clears_queue(op: TransportOp) -> bool {
    match op {
        TransportOp::ClearQueue { active } => active,
        _ => false,
    }
}

/// The transition of one transport operation on the model.
pub open spec fn apply_op(m: TransportModel, op: TransportOp) -> TransportModel {
    match op {
        TransportOp::Enqueue(s) => enqueue_t(m, s),
        TransportOp::Tick { pending, unreadable } => tick_t(m, pending, unreadable),
        TransportOp::Skip => m,
        TransportOp::Previous { active } => prev_t(m, active),
        TransportOp::ClearQueue { active } => clear_t(m, active),
        TransportOp::ChangeVolume { amount } => volume_t(m, amount),
        TransportOp::PlayPause => m,
    }
}

/// The state after a whole sequence of transport operations, first to last.
pub open spec fn apply_ops(m: TransportModel, ops: Seq<TransportOp>) -> TransportModel
    decreases ops.len(),
{
    if ops.len() == 0 {
        m
    } else {
        apply_ops(apply_op(m, ops[0]), ops.drop_first())
    }
}

/// The tracks enqueued by a sequence of operations, in order.
pub open spec fn enqueued_tracks(ops: Seq<TransportOp>) -> Seq<Song>
    decreases ops.len(),
{
    if ops.len() == 0 {
        Seq::empty()
    } else {
        let rest = enqueued_tracks(ops.drop_first());
        match ops[0] {
            TransportOp::Enqueue(s) => seq![s] + rest,
            _ => rest,
        }
    }
}

/// One transport operation preserves the invariant: the cursor never leaves
/// `[0, queue length]` and the volume never leaves `[0, 100]`.
pub proof fn lemma_op_preserves_wf(m: TransportModel, op: TransportOp)
    requires
        wf_model(m),
    ensures
        wf_model(apply_op(m, op)),
{
}

/// The cursor invariant `0 <= next_index <= queue length` (and the volume
/// clamp) holds after every operation, for any interleaving of ticks, skips,
/// previous-track steps, enqueues, queue clears and volume changes.
pub proof fn lemma_transport_invariant(m: TransportModel, ops: Seq<TransportOp>)
    requires
        wf_model(m),
    ensures
        wf_model(apply_ops(m, ops)),
    decreases ops.len(),
{
    if ops.len() > 0 {
        lemma_op_preserves_wf(m, ops[0]);
        lemma_transport_invariant(apply_op(m, ops[0]), ops.drop_first());
    }
}

/// Insertion order: any interleaving of transport operations that never
/// clears the queue leaves it equal to the starting queue followed by the
/// enqueued tracks in the order they were enqueued. Cursor movement neither
/// reorders, drops nor duplicates tracks.
pub proof fn lemma_queue_insertion_order(m: TransportModel, ops: Seq<TransportOp>)
    requires
        forall|i: int| 0 <= i < ops.len() ==> !clears_queue(#[trigger] ops[i]),
    ensures
        apply_ops(m, ops).queue == m.queue + enqueued_tracks(ops),
    decreases ops.len(),
{
    if ops.len() == 0 {
        assert(apply_ops(m, ops).queue =~= m.queue + enqueued_tracks(ops));
    } else {
        let m1 = apply_op(m, ops[0]);
        assert(forall|i: int|
            0 <= i < ops.drop_first().len() ==> !clears_queue(#[trigger] ops.drop_first()[i]));
        lemma_queue_insertion_order(m1, ops.drop_first());
        match ops[0] {
            TransportOp::Enqueue(s) => {
                assert(m1.queue + enqueued_tracks(ops.drop_first()) =~= m.queue + enqueued_tracks(
                    ops,
                ));
            },
            _ => {
                assert(m1.queue == m.queue);
                assert(enqueued_tracks(ops) == enqueued_tracks(ops.drop_first()));
            },
        }
    }
}

/// The previous-track rule composed with the following tick: with the cursor
/// at `n >= 2` and an active track, `previous` moves the cursor to `n - 2`,
/// and an idle-sink tick then loads the track at index `n - 2` and leaves the
/// cursor at `n - 1`: one net step backwards.
pub proof fn lemma_previous_then_tick(m: TransportModel)
    requires
        wf_model(m),
        2 <= m.next_index <= m.queue.len(),
    ensures
        prev_t(m, true).next_index == m.next_index - 2,
        tick_t(prev_t(m, true), false, 0).current == Some(m.queue[m.next_index - 2]),
        tick_t(prev_t(m, true), false, 0).next_index == m.next_index - 1,
{
}

/// The previous-track rule at the boundary: at cursor 1 it rewinds to 0, and
/// at cursor 0 it changes nothing at all.
pub proof fn lemma_previous_at_start(m: TransportModel)
    ensures
        m.next_index == 1 ==> prev_t(m, true).next_index == 0,
        m.next_index == 0 ==> prev_t(m, true) == m,
{
}

/// The tag string shown for a track: title, artist or album.
pub open spec fn metadata_view(s: Song, t: MetadataType) -> Seq<char> {
    match t {
        MetadataType::Title => s.title@,
        MetadataType::TrackArtist => s.artist@,
        MetadataType::Album => s.album@,
    }
}

/// Picks the requested tag out of a track record.
pub fn metadata_text(song: &Song, metadata_type: &MetadataType) -> (r: String)
    ensures
        r@ == metadata_view(*song, *metadata_type),
{
    match metadata_type {
        MetadataType::Album => song.album_clone(),
        MetadataType::Title => song.title_clone(),
        MetadataType::TrackArtist => song.artist_clone(),
    }
}

/// Minutes and whole seconds of a millisecond position.
pub fn split_minutes(ms: u64) -> (r: (u64, u64))
    ensures
        r.0 == ms / 60000,
        r.1 == (ms / 1000) % 60,
        r.1 < 60,
{
    (ms / 60000, (ms / 1000) % 60)
}

/// The transport controller: owns the queue, the cursor, the now-playing
/// snapshot, the volume, and the injected sink capability.
pub struct Player<S: AudioSink> {
    sink: S,
    queue: Vec<Song>,
    player_index: usize,
    current_song: Option<Song>,
    volume: u8,
}

impl<S: AudioSink> View for Player<S> {
    type V = TransportModel;

    closed spec fn view(&self) -> TransportModel {
        TransportModel {
            queue: self.queue@,
            next_index: self.player_index as int,
            current: self.current_song,
            volume: self.volume as int,
        }
    }
}

impl<S: AudioSink> Player<S> {
    /// The controller invariant: the structural invariant of the model, and
    /// every queued track has usable audio properties.
    pub open spec fn wf(&self) -> bool {
        &&& wf_model(self@)
        &&& forall|i: int| 0 <= i < self@.queue.len() ==> (#[trigger] self@.queue[i]).wf()
    }

    /// A fresh transport around the given sink: empty queue, cursor at 0,
    /// nothing playing, full volume.
    pub fn new(sink: S) -> (p: Player<S>)
        ensures
            p.wf(),
            p@ == initial_model(),
    {
        let p = Player {
            sink,
            queue: Vec::new(),
            player_index: 0,
            current_song: None,
            volume: 100,
        };
        proof {
            assert(p@.queue =~= Seq::<Song>::empty());
            assert(p@ =~= initial_model());
        }
        p
    }

    /// Appends a track to the queue. Never touches the cursor, the snapshot
    /// or the volume, and always succeeds.
    pub fn add_to_queue(&mut self, song: Song)
        requires
            old(self).wf(),
            song.wf(),
        ensures
            final(self).wf(),
            final(self)@ == enqueue_t(old(self)@, song),
    {
        self.queue.push(song);
    }

    /// One driving-loop tick. While the sink still holds audio this does
    /// nothing. Otherwise it advances the cursor to the next readable track,
    /// skipping unreadable ones instead of stalling on them, loads it into
    /// the sink and snapshots it; when no readable track is left the cursor
    /// parks at the end of the queue and the snapshot is cleared.
    pub fn update(&mut self) -> (r: AdvanceOutcome)
        requires
            old(self).wf(),
        ensures
            final(self).wf(),
            final(self)@.queue == old(self)@.queue,
            final(self)@.volume == old(self)@.volume,
            old(self)@.next_index <= final(self)@.next_index,
            exists|pending: bool, unreadable: nat|
                final(self)@ == tick_t(old(self)@, pending, unreadable),
            r matches AdvanceOutcome::Unchanged ==> final(self)@ == old(self)@,
            r matches AdvanceOutcome::Exhausted ==> final(self)@.next_index
                == final(self)@.queue.len() && final(self)@.current is None,
            r matches AdvanceOutcome::Advanced(s) ==> {
                &&& old(self)@.next_index < final(self)@.next_index <= final(self)@.queue.len()
                &&& s == final(self)@.queue[final(self)@.next_index - 1]
                &&& final(self)@.current == Some(s)
                &&& s.wf()
            },
    {
        if self.sink.has_pending() {
            proof {
                assert(self@ == tick_t(old(self)@, true, 0));
            }
            return AdvanceOutcome::Unchanged;
        }
        loop
            invariant
                self.wf(),
                self@.queue == old(self)@.queue,
                self@.volume == old(self)@.volume,
                self@.current == old(self)@.current,
                old(self)@.next_index <= self@.next_index <= self@.queue.len(),
            decreases self@.queue.len() - self@.next_index,
        {
            if self.player_index >= self.queue.len() {
                self.current_song = None;
                proof {
                    let ghost skipped = (self@.next_index - old(self)@.next_index) as nat;
                    assert(self@ == tick_t(old(self)@, false, skipped));
                }
                return AdvanceOutcome::Exhausted;
            }
            let i = self.player_index;
            self.player_index = i + 1;
            let song = self.queue[i].clone();
            if self.sink.append_track(song.file_path.as_str()) {
                self.current_song = Some(song.clone());
                proof {
                    let ghost skipped = (i - old(self)@.next_index) as nat;
                    assert(self@ == tick_t(old(self)@, false, skipped));
                }
                return AdvanceOutcome::Advanced(song);
            }
        }
    }

    /// The tag of the current track, or `"Nothing"` while the sink is idle
    /// or no snapshot exists.
    pub fn get_metadata(&self, metadata_type: MetadataType) -> (r: String)
        ensures
            r@ == "Nothing"@ || (self@.current matches Some(c) && r@ == metadata_view(
                c,
                metadata_type,
            )),
    {
        if !self.sink.has_pending() {
            return "Nothing".to_owned();
        }
        match &self.current_song {
            Some(curr) => metadata_text(curr, &metadata_type),
            None => "Nothing".to_owned(),
        }
    }

    /// Ends the current track in the sink (a no-op while the sink is idle).
    /// The cursor is untouched: the *next* tick performs the actual advance.
    pub fn skip_current_song(&mut self)
        requires
            old(self).wf(),
        ensures
            final(self).wf(),
            final(self)@ == old(self)@,
    {
        if !self.sink.has_pending() {
            return;
        }
        self.sink.terminate_current();
    }

    /// Empties the queue and rewinds the cursor, but only while the sink is
    /// active; idle, it is a no-op. The now-playing snapshot is kept.
    pub fn clear_queue(&mut self)
        requires
            old(self).wf(),
        ensures
            final(self).wf(),
            final(self)@ == clear_t(old(self)@, true) || final(self)@ == clear_t(
                old(self)@,
                false,
            ),
            final(self)@.current == old(self)@.current,
            final(self)@.volume == old(self)@.volume,
    {
        if !self.sink.has_pending() {
            return;
        }
        self.queue.clear();
        self.player_index = 0;
        proof {
            assert(self@ == clear_t(old(self)@, true));
        }
    }

    /// Steps the cursor back by the previous-track rule and ends the current
    /// track, so that the following tick reloads one track earlier; a no-op
    /// while the sink is idle.
    pub fn return_last_song(&mut self)
        requires
            old(self).wf(),
        ensures
            final(self).wf(),
            final(self)@ == prev_t(old(self)@, true) || final(self)@ == prev_t(
                old(self)@,
                false,
            ),
            final(self)@.queue == old(self)@.queue,
            final(self)@.current == old(self)@.current,
            final(self)@.volume == old(self)@.volume,
            final(self)@.next_index <= old(self)@.next_index,
    {
        if !self.sink.has_pending() {
            return;
        }
        if self.player_index == 0 {
            // previous from the very start does not wrap
        } else if self.player_index == 1 {
            self.player_index = 0;
        } else {
            self.player_index = self.player_index - 2;
        }
        self.sink.terminate_current();
        proof {
            assert(self@ == prev_t(old(self)@, true));
        }
    }

    /// Applies an absolute volume, clamped to `[0, 100]` hundredths, to both
    /// the stored state and the sink.
    fn set_volume(&mut self, volume: i64)
        requires
            old(self).wf(),
        ensures
            final(self).wf(),
            final(self)@ == (TransportModel { volume: clamp_volume(volume as int), ..old(self)@ }),
    {
        if volume > 100 {
            self.volume = 100;
            self.sink.set_volume_percent(100);
        } else if volume < 0 {
            self.volume = 0;
            self.sink.set_volume_percent(0);
        } else {
            self.volume = volume as u8;
            self.sink.set_volume_percent(self.volume);
        }
    }

    /// Adds `amount` hundredths to the volume and clamps to `[0, 100]`:
    /// overshoot in either direction lands exactly on the bound.
    pub fn change_volume(&mut self, amount: i32)
        requires
            old(self).wf(),
        ensures
            final(self).wf(),
            final(self)@ == volume_t(old(self)@, amount as int),
    {
        let target = self.volume as i64 + amount as i64;
        self.set_volume(target);
    }

    /// Current volume in hundredths of full scale.
    pub fn volume(&self) -> (r: u8)
        ensures
            r == self@.volume,
    {
        self.volume
    }

    /// Toggles the sink's pause state. Cursor, queue and snapshot are
    /// untouched; the sink's own state is not modelled here.
    pub fn play_pause(&mut self)
        requires
            old(self).wf(),
        ensures
            final(self).wf(),
            final(self)@ == old(self)@,
    {
        if self.sink.is_paused() {
            self.sink.resume();
        } else {
            self.sink.pause();
        }
    }

    /// Whether the sink reports itself unpaused. Purely the sink's answer;
    /// nothing is stated of it.
    pub fn playing(&self) -> bool {
        !self.sink.is_paused()
    }

    /// Whether the sink still holds unfinished audio. Purely the sink's
    /// answer; nothing is stated of it.
    pub fn has_audio(&self) -> bool {
        self.sink.has_pending()
    }

    /// Elapsed playback position of the current track in milliseconds, as
    /// the sink reports it.
    pub fn elapsed_ms(&self) -> u64 {
        self.sink.elapsed_ms()
    }

    /// The sink's elapsed position as (minutes, seconds), seconds below 60.
    pub fn playback_time(&self) -> (r: (u64, u64))
        ensures
            r.1 < 60,
    {
        split_minutes(self.sink.elapsed_ms())
    }

    /// The queued tracks, in insertion order.
    pub fn queue(&self) -> (r: &Vec<Song>)
        ensures
            r@ == self@.queue,
    {
        &self.queue
    }

    /// The cursor: index of the next track to load.
    pub fn player_index(&self) -> (r: usize)
        ensures
            r == self@.next_index,
    {
        self.player_index
    }

    /// The now-playing snapshot, if a track is loaded.
    pub fn current_song(&self) -> (r: Option<&Song>)
        ensures
            match r {
                Some(s) => self@.current == Some(*s),
                None => self@.current is None,
            },
    {
        self.current_song.as_ref()
    }
}

} // verus!
