use ears::get_channels_format;
use ears::music::CHUNK_FRAMES;
use ears::openal::AL_FORMAT_51CHN16;
use ears::openal::AL_FORMAT_61CHN16;
use ears::openal::AL_FORMAT_71CHN16;
use ears::openal::AL_FORMAT_MONO16;
use ears::openal::AL_FORMAT_QUAD16;
use ears::openal::AL_FORMAT_STEREO16;
use ears::openal::AL_INITIAL;
use ears::openal::AL_INVALID_VALUE;
use ears::openal::AL_PAUSED;
use ears::openal::AL_PLAYING;
use ears::openal::AL_STOPPED;
use ears::states::after_pause;
use ears::states::after_play;
use ears::states::after_stop;
use ears::DurationParts;
use ears::FileInfo;
use ears::Music;
use ears::PlayAction;
use ears::SoundError;
use ears::TransportState;
use ears::WorkerState;

fn mono_file() -> FileInfo {
    FileInfo { frames: 100000, samplerate: 44100, channels: 1 }
}

fn open_mono() -> Music {
    Music::new(mono_file(), 1, [10, 11], 0).expect("Cannot create Music")
}

// A file the decoder can open, on an active context, makes a session.
#[test]
fn music_create_OK() {
    let checked = Music::open_file_check(true, Ok(mono_file()));
    let info = checked.expect("open should pass");
    let msc = Music::new(info, 1, [10, 11], 0);
    assert!(msc.is_ok());
}

// A file the decoder cannot open fails with a decode error.
#[test]
fn music_create_FAIL() {
    let decode: Result<FileInfo, String> =
        Err("sndfile: could not open toto.wav".to_string());
    let msc = Music::open_file_check(true, decode);
    assert!(msc.is_err());
}

// Opening a missing file surfaces the decoder's failure as
// DecodeError, before any backend handle would be allocated —
// nothing is leaked.
#[test]
fn open_missing_file_is_decode_error() {
    let decode: Result<FileInfo, String> = Err("missing.file: no such file".to_string());
    let r = Music::open_file_check(true, decode);
    match r {
        Err(SoundError::DecodeError(msg)) => {
            assert_eq!(msg, "missing.file: no such file");
        },
        _ => panic!("expected a decode error"),
    }
}

// Without an active audio context nothing is opened.
#[test]
fn open_without_context_is_backend_unavailable() {
    let r = Music::open_file_check(false, Ok(mono_file()));
    assert_eq!(r, Err(SoundError::BackendUnavailable));
}

// A channel count outside the backend's format table is rejected.
#[test]
fn open_unmapped_channel_count_is_unsupported_format() {
    let info = FileInfo { frames: 1000, samplerate: 44100, channels: 3 };
    let r = Music::new(info, 1, [10, 11], 0);
    assert_eq!(r, Err(SoundError::UnsupportedFormat));
}

// A backend error code pending after the allocations fails the open.
#[test]
fn open_with_backend_error_is_internal_error() {
    let r = Music::new(mono_file(), 1, [10, 11], AL_INVALID_VALUE);
    assert_eq!(r, Err(SoundError::BackendInternalError(AL_INVALID_VALUE)));
}

// The channel-count-to-format table, entry by entry.
#[test]
fn channels_format_table() {
    assert_eq!(get_channels_format(1), Some(AL_FORMAT_MONO16));
    assert_eq!(get_channels_format(2), Some(AL_FORMAT_STEREO16));
    assert_eq!(get_channels_format(4), Some(AL_FORMAT_QUAD16));
    assert_eq!(get_channels_format(5), Some(AL_FORMAT_51CHN16));
    assert_eq!(get_channels_format(6), Some(AL_FORMAT_61CHN16));
    assert_eq!(get_channels_format(7), Some(AL_FORMAT_71CHN16));
    assert_eq!(get_channels_format(0), None);
    assert_eq!(get_channels_format(3), None);
    assert_eq!(get_channels_format(8), None);
    assert_eq!(get_channels_format(-1), None);
}

// After play on a fresh mono session, both buffers are primed
// — the cursor stands at the file end without looping, at zero modulo
// the file length with looping — and the backend plays.
#[test]
fn music_play_OK() {
    let mut msc = open_mono();
    assert_eq!(msc.sample_to_read, 50000);

    let action = msc.play(TransportState::Initial);
    assert_eq!(action, PlayAction::Restart { stop_first: false, start_frame: 0 });
    assert!(msc.worker_active);

    // Priming both buffers, not looping: the cursor reaches the end.
    let mut ws = WorkerState::start(msc.is_looping(), 0);
    assert_eq!(ws.refill(100000, CHUNK_FRAMES), 50000);
    assert_eq!(ws.refill(100000, CHUNK_FRAMES), 50000);
    assert_eq!(ws.cursor, 100000);

    // Priming both buffers, looping: the cursor wraps to zero.
    let mut wl = WorkerState::start(true, 0);
    assert_eq!(wl.refill(100000, CHUNK_FRAMES), 50000);
    assert_eq!(wl.refill(100000, CHUNK_FRAMES), 50000);
    assert_eq!(wl.cursor, 0);

    // The backend's play call leaves the source playing.
    assert_eq!(after_play(TransportState::Initial), TransportState::Playing);
    assert!(msc.is_playing(true, AL_PLAYING));
}

// Resuming from pause spawns no new worker.
#[test]
fn music_play_resumes_from_pause() {
    let mut msc = open_mono();
    let action = msc.play(TransportState::Paused);
    assert_eq!(action, PlayAction::Resume);
    assert!(!msc.worker_active);
}

// A play while already playing force-stops the source first.
#[test]
fn music_play_while_playing_stops_first() {
    let mut msc = open_mono();
    let action = msc.play(TransportState::Playing);
    assert_eq!(action, PlayAction::Restart { stop_first: true, start_frame: 0 });
}

// Pausing a playing source pauses it, and the session mirrors that.
#[test]
fn music_pause_OK() {
    let msc = open_mono();
    let state = after_pause(after_play(TransportState::Initial));
    assert_eq!(state, TransportState::Paused);
    assert_eq!(msc.get_state(true, AL_PAUSED), TransportState::Paused);
}

// Pausing twice in a row leaves the state paused.
#[test]
fn music_pause_twice_stays_paused() {
    let state = after_pause(after_pause(TransportState::Playing));
    assert_eq!(state, TransportState::Paused);
}

// Stop leaves the source stopped.
#[test]
fn music_stop_OK() {
    let msc = open_mono();
    let state = after_stop(after_play(TransportState::Initial));
    assert_eq!(state, TransportState::Stopped);
    assert_eq!(msc.get_state(true, AL_STOPPED), TransportState::Stopped);
}

// Stopping an already stopped source is a no-op, not an error.
#[test]
fn music_stop_when_stopped_is_noop() {
    let state = after_stop(after_stop(TransportState::Playing));
    assert_eq!(state, TransportState::Stopped);
    assert_eq!(after_stop(TransportState::Stopped), TransportState::Stopped);
}

// The session reports playing exactly when the backend does.
#[test]
fn music_is_playing_TRUE() {
    let msc = open_mono();
    assert_eq!(msc.is_playing(true, AL_PLAYING), true);
}

#[test]
fn music_is_playing_FALSE() {
    let msc = open_mono();
    assert_eq!(msc.is_playing(true, AL_INITIAL), false);
    assert_eq!(msc.is_playing(true, AL_STOPPED), false);
    assert_eq!(msc.is_playing(false, AL_PLAYING), false);
}

// Without a context the session counts as initial.
#[test]
fn music_state_without_context_is_initial() {
    let msc = open_mono();
    assert_eq!(msc.get_state(false, AL_PLAYING), TransportState::Initial);
}

// The looping mirror answers immediately, before any worker applies it.
#[test]
fn music_is_looping_TRUE() {
    let mut msc = open_mono();
    let sent = msc.set_looping(true);
    assert_eq!(msc.is_looping(), true);
    assert_eq!(sent, None);
}

#[test]
fn music_is_looping_FALSE() {
    let mut msc = open_mono();
    msc.set_looping(false);
    assert_eq!(msc.is_looping(), false);
}

// The duration keeps the sub-second remainder exact: 100000 frames at
// 44100 Hz are 2 s plus 11800 * 1e9 / 44100 ns.
#[test]
fn music_duration_is_exact() {
    let msc = open_mono();
    let d = msc.get_duration();
    assert_eq!(d, DurationParts { secs: 2, nanos: 267573696 });

    let even = Music::new(
        FileInfo { frames: 88200, samplerate: 44100, channels: 2 },
        1,
        [10, 11],
        0,
    )
    .unwrap();
    assert_eq!(even.get_duration(), DurationParts { secs: 2, nanos: 0 });
}

// The position estimate reconciles the live cursor with the backend's
// queue state.
#[test]
fn music_get_offset_uses_live_queries() {
    let msc = open_mono();
    // Cursor at the end, two full chunks queued, backend just started
    // the first: position 0.
    assert_eq!(msc.get_offset(100000, 2, 0), 0);
    // Backend 44100 samples into the first chunk.
    assert_eq!(msc.get_offset(100000, 2, 44100), 44100);
    // One chunk played and dequeued.
    assert_eq!(msc.get_offset(100000, 1, 0), 50000);
}
