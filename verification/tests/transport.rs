//! Tests for the transport state machine, driven through a scripted sink.

use std::cell::RefCell;
use std::rc::Rc;

use gigr::player::{AdvanceOutcome, AudioSink, MetadataType, Player};
use gigr::song::Song;

/// Everything a scripted sink records and everything a test can force.
#[derive(Default)]
struct SinkState {
    pending: bool,
    paused: bool,
    loaded: Vec<String>,
    unreadable: Vec<String>,
    terminated: usize,
    volumes: Vec<u8>,
    elapsed: u64,
}

/// A test double for the audio output: plays nothing, records every call,
/// and lets the test force "still playing" or "finished" between ticks.
#[derive(Default)]
struct FakeSink {
    state: Rc<RefCell<SinkState>>,
}

impl FakeSink {
    fn with_handle() -> (FakeSink, Rc<RefCell<SinkState>>) {
        let state: Rc<RefCell<SinkState>> = Rc::new(RefCell::new(SinkState::default()));
        (FakeSink { state: state.clone() }, state)
    }
}

impl AudioSink for FakeSink {
    fn has_pending(&self) -> bool {
        self.state.borrow().pending
    }

    fn append_track(&mut self, path: &str) -> bool {
        let mut st = self.state.borrow_mut();
        if st.unreadable.iter().any(|p| p == path) {
            return false;
        }
        st.loaded.push(path.to_string());
        st.pending = true;
        true
    }

    fn terminate_current(&mut self) {
        let mut st = self.state.borrow_mut();
        st.terminated += 1;
        st.pending = false;
    }

    fn pause(&mut self) {
        self.state.borrow_mut().paused = true;
    }

    fn resume(&mut self) {
        self.state.borrow_mut().paused = false;
    }

    fn is_paused(&self) -> bool {
        self.state.borrow().paused
    }

    fn set_volume_percent(&mut self, percent: u8) {
        self.state.borrow_mut().volumes.push(percent);
    }

    fn elapsed_ms(&self) -> u64 {
        self.state.borrow().elapsed
    }
}

fn track(name: &str) -> Song {
    Song::new(
        name.to_string(),
        Some(format!("title of {}", name)),
        Some(format!("artist of {}", name)),
        Some(format!("album of {}", name)),
        Some(44100),
        Some(2),
    )
}

fn player_with_tracks(names: &[&str]) -> (Player<FakeSink>, Rc<RefCell<SinkState>>) {
    let (sink, state) = FakeSink::with_handle();
    let mut player = Player::new(sink);
    for name in names {
        player.add_to_queue(track(name));
    }
    (player, state)
}

#[test]
fn queue_keeps_insertion_order() {
    let (mut player, state) = player_with_tracks(&["a", "b", "c"]);
    // Cursor movement must not reorder, drop or duplicate queue entries.
    let _ = player.update();
    state.borrow_mut().pending = false;
    let _ = player.update();
    player.return_last_song();
    let _ = player.update();
    player.add_to_queue(track("d"));
    let titles: Vec<String> = player.queue().iter().map(|s| s.file_path_clone()).collect();
    assert_eq!(titles, vec!["a", "b", "c", "d"]);
}

#[test]
fn cursor_never_leaves_queue_bounds() {
    let (mut player, state) = player_with_tracks(&["a", "b"]);
    assert!(player.player_index() <= player.queue().len());
    for forced_empty in [true, false, true, true, false, true, true, true] {
        if forced_empty {
            state.borrow_mut().pending = false;
        }
        let _ = player.update();
        assert!(player.player_index() <= player.queue().len());
        player.return_last_song();
        assert!(player.player_index() <= player.queue().len());
        player.skip_current_song();
        assert!(player.player_index() <= player.queue().len());
    }
}

#[test]
fn previous_steps_back_one_net_track() {
    let (mut player, state) = player_with_tracks(&["t0", "t1", "t2"]);
    // Advance the cursor to 3: all three tracks consumed.
    for _ in 0..3 {
        state.borrow_mut().pending = false;
        let outcome = player.update();
        assert!(matches!(outcome, AdvanceOutcome::Advanced(_)));
    }
    assert_eq!(player.player_index(), 3);
    // previous: 3 -> 1, and the current track is terminated.
    player.return_last_song();
    assert_eq!(player.player_index(), 1);
    assert_eq!(state.borrow().terminated, 1);
    // The following tick loads index 1 and leaves the cursor at 2.
    let outcome = player.update();
    match outcome {
        AdvanceOutcome::Advanced(song) => assert_eq!(song.file_path, "t1"),
        other => panic!("expected Advanced, got {:?}", other),
    }
    assert_eq!(player.player_index(), 2);
}

#[test]
fn previous_at_boundary() {
    let (mut player, state) = player_with_tracks(&["t0", "t1"]);
    state.borrow_mut().pending = false;
    let _ = player.update();
    assert_eq!(player.player_index(), 1);
    // At cursor 1 previous rewinds to 0.
    player.return_last_song();
    assert_eq!(player.player_index(), 0);
    // At cursor 0 previous is a no-op on the cursor (but it still ends the
    // current track, as an active skip does).
    state.borrow_mut().pending = true;
    player.return_last_song();
    assert_eq!(player.player_index(), 0);
    // While the sink is idle previous does nothing at all.
    state.borrow_mut().pending = false;
    let terminated_before = state.borrow().terminated;
    player.return_last_song();
    assert_eq!(state.borrow().terminated, terminated_before);
}

#[test]
fn volume_is_clamped_exactly() {
    let (mut player, state) = player_with_tracks(&[]);
    assert_eq!(player.volume(), 100);
    player.change_volume(-20);
    assert_eq!(player.volume(), 80);
    // +0.50 of full scale at 0.80 lands exactly on 1.00, never overshoots.
    player.change_volume(50);
    assert_eq!(player.volume(), 100);
    player.change_volume(-80);
    assert_eq!(player.volume(), 20);
    // -0.50 at 0.20 lands exactly on 0.00.
    player.change_volume(-50);
    assert_eq!(player.volume(), 0);
    // The sink saw every clamped value in order.
    assert_eq!(state.borrow().volumes, vec![80, 100, 20, 0]);
}

#[test]
fn end_to_end_two_tracks() {
    let (mut player, state) = player_with_tracks(&["one", "two"]);
    // First tick loads track 0.
    match player.update() {
        AdvanceOutcome::Advanced(song) => assert_eq!(song.file_path, "one"),
        other => panic!("expected Advanced, got {:?}", other),
    }
    // While the sink reports pending audio a tick changes nothing.
    assert!(matches!(player.update(), AdvanceOutcome::Unchanged));
    assert_eq!(player.player_index(), 1);
    // Force the sink empty: the next tick loads track 1.
    state.borrow_mut().pending = false;
    match player.update() {
        AdvanceOutcome::Advanced(song) => assert_eq!(song.file_path, "two"),
        other => panic!("expected Advanced, got {:?}", other),
    }
    // Force empty again: the queue is exhausted and nothing plays.
    state.borrow_mut().pending = false;
    assert!(matches!(player.update(), AdvanceOutcome::Exhausted));
    assert!(player.current_song().is_none());
    assert_eq!(player.player_index(), 2);
}

#[test]
fn unreadable_track_is_skipped() {
    let (mut player, state) = player_with_tracks(&["bad", "good"]);
    state.borrow_mut().unreadable.push("bad".to_string());
    // The advance must skip the unreadable file and load the next one
    // instead of stalling or aborting.
    match player.update() {
        AdvanceOutcome::Advanced(song) => assert_eq!(song.file_path, "good"),
        other => panic!("expected Advanced, got {:?}", other),
    }
    assert_eq!(player.player_index(), 2);
    assert_eq!(state.borrow().loaded, vec!["good"]);
}

#[test]
fn all_unreadable_tracks_exhaust() {
    let (mut player, state) = player_with_tracks(&["bad1", "bad2"]);
    state.borrow_mut().unreadable.push("bad1".to_string());
    state.borrow_mut().unreadable.push("bad2".to_string());
    assert!(matches!(player.update(), AdvanceOutcome::Exhausted));
    assert!(player.current_song().is_none());
    assert_eq!(player.player_index(), 2);
}

#[test]
fn skip_only_ends_current_track() {
    let (mut player, state) = player_with_tracks(&["a", "b"]);
    // Idle sink: skip is a no-op.
    player.skip_current_song();
    assert_eq!(state.borrow().terminated, 0);
    let _ = player.update();
    assert_eq!(player.player_index(), 1);
    // Active sink: skip terminates but does not itself advance the cursor.
    player.skip_current_song();
    assert_eq!(state.borrow().terminated, 1);
    assert_eq!(player.player_index(), 1);
    // The following tick performs the actual advance.
    match player.update() {
        AdvanceOutcome::Advanced(song) => assert_eq!(song.file_path, "b"),
        other => panic!("expected Advanced, got {:?}", other),
    }
}

#[test]
fn clear_queue_only_while_active() {
    let (mut player, state) = player_with_tracks(&["a", "b"]);
    // Idle sink: clearing is a no-op.
    player.clear_queue();
    assert_eq!(player.queue().len(), 2);
    let _ = player.update();
    assert_eq!(player.player_index(), 1);
    // Active sink: the queue empties and the cursor rewinds.
    player.clear_queue();
    assert_eq!(player.queue().len(), 0);
    assert_eq!(player.player_index(), 0);
    state.borrow_mut().pending = false;
    assert!(matches!(player.update(), AdvanceOutcome::Exhausted));
}

#[test]
fn metadata_of_current_track() {
    let (mut player, state) = player_with_tracks(&["x"]);
    // Nothing plays yet.
    assert_eq!(player.get_metadata(MetadataType::Title), "Nothing");
    let _ = player.update();
    assert_eq!(player.get_metadata(MetadataType::Title), "title of x");
    assert_eq!(player.get_metadata(MetadataType::TrackArtist), "artist of x");
    assert_eq!(player.get_metadata(MetadataType::Album), "album of x");
    // When the sink empties, the display falls back again.
    state.borrow_mut().pending = false;
    assert_eq!(player.get_metadata(MetadataType::Album), "Nothing");
}

#[test]
fn play_pause_toggles() {
    let (mut player, state) = player_with_tracks(&[]);
    assert!(player.playing());
    player.play_pause();
    assert!(!player.playing());
    assert!(state.borrow().paused);
    player.play_pause();
    assert!(player.playing());
}

#[test]
fn playback_time_splits_minutes() {
    let (player, state) = player_with_tracks(&[]);
    state.borrow_mut().elapsed = 125000;
    assert_eq!(player.playback_time(), (2, 5));
    state.borrow_mut().elapsed = 59999;
    assert_eq!(player.playback_time(), (0, 59));
    assert_eq!(gigr::player::split_minutes(601000), (10, 1));
}

#[test]
fn song_defaults_apply_per_field() {
    let s = Song::new("f.mp3".to_string(), None, Some("me".to_string()), None, None, Some(0));
    assert_eq!(s.file_path, "f.mp3");
    assert_eq!(s.title, "-");
    assert_eq!(s.artist, "me");
    assert_eq!(s.album, "-");
    assert_eq!(s.samplerate, 44100);
    assert_eq!(s.channels, 2);

    let t = Song::new(
        "g.flac".to_string(),
        Some("t".to_string()),
        None,
        Some("al".to_string()),
        Some(48000),
        Some(1),
    );
    assert_eq!(t.title, "t");
    assert_eq!(t.artist, "-");
    assert_eq!(t.album, "al");
    assert_eq!(t.samplerate, 48000);
    assert_eq!(t.channels, 1);
    assert_eq!(t.title_clone(), "t");
    assert_eq!(t.album_clone(), "al");
    assert_eq!(t.artist_clone(), "-");
    assert_eq!(t.file_path_clone(), "g.flac");
}
