use ears::music::CHUNK_FRAMES;
use ears::states::TransportState;
use ears::worker::worker_should_exit;
use ears::ControlChannel;
use ears::ControlMessage;
use ears::FileInfo;
use ears::Music;
use ears::OffsetAction;
use ears::PlayAction;
use ears::WorkerState;

fn mono_file() -> FileInfo {
    FileInfo { frames: 100000, samplerate: 44100, channels: 1 }
}

// The channel delivers messages in send order, then runs dry.
#[test]
fn channel_is_fifo() {
    let mut ch = ControlChannel::new();
    assert_eq!(ch.try_recv(), None);
    ch.send(ControlMessage::SetLooping(true));
    ch.send(ControlMessage::SetOffset(123));
    ch.send(ControlMessage::SetLooping(false));
    assert_eq!(ch.try_recv(), Some(ControlMessage::SetLooping(true)));
    assert_eq!(ch.try_recv(), Some(ControlMessage::SetOffset(123)));
    assert_eq!(ch.try_recv(), Some(ControlMessage::SetLooping(false)));
    assert_eq!(ch.try_recv(), None);
}

// Messages drained in one poll apply in send order: of several queued
// seeks the last one wins.
#[test]
fn worker_applies_messages_in_order() {
    let mut ws = WorkerState::start(false, 0);
    let msgs = vec![
        ControlMessage::SetOffset(11111),
        ControlMessage::SetLooping(true),
        ControlMessage::SetOffset(22222),
    ];
    let stop = ws.apply_messages(&msgs);
    assert!(stop);
    assert_eq!(ws.cursor, 22222);
    assert!(ws.looping);
    assert!(ws.restart_pending);
}

// A looping toggle alone neither stops the backend nor marks a restart.
#[test]
fn worker_looping_toggle_does_not_stop_backend() {
    let mut ws = WorkerState::start(false, 500);
    let stop = ws.apply_message(ControlMessage::SetLooping(true));
    assert!(!stop);
    assert!(ws.looping);
    assert!(!ws.restart_pending);
    assert_eq!(ws.cursor, 500);
}

// The worker leaves its loop exactly when the backend reports a stopped
// source.
#[test]
fn worker_exits_on_stopped() {
    assert!(worker_should_exit(TransportState::Stopped));
    assert!(!worker_should_exit(TransportState::Playing));
    assert!(!worker_should_exit(TransportState::Paused));
    assert!(!worker_should_exit(TransportState::Initial));
}

// A seek to frame 25000 lands mid-playback. The worker's next
// poll stops the backend, moves the cursor, refills one buffer from the
// new position and resumes; the position read shortly after is within
// one chunk of the seek target.
#[test]
fn seek_mid_playback_restarts_from_new_position() {
    let mut msc = Music::new(mono_file(), 1, [10, 11], 0).expect("Cannot create Music");
    let action = msc.play(TransportState::Initial);
    assert!(matches!(action, PlayAction::Restart { .. }));

    // Priming put the cursor at the end of the non-looping file.
    let mut ws = WorkerState::start(msc.is_looping(), 0);
    ws.refill(100000, CHUNK_FRAMES);
    ws.refill(100000, CHUNK_FRAMES);
    assert_eq!(ws.cursor, 100000);

    // The control side seeks; with a worker active this travels as a
    // message.
    let mut ch = ControlChannel::new();
    match msc.set_offset(25000) {
        OffsetAction::SendMessage(m) => ch.send(m),
        OffsetAction::StoreCursor(_) => panic!("a running worker must get a message"),
    }

    // The worker's next poll drains the channel: the backend is stopped,
    // the cursor moves, a restart is pending.
    let mut msgs = Vec::new();
    while let Some(m) = ch.try_recv() {
        msgs.push(m);
    }
    let stop = ws.apply_messages(&msgs);
    assert!(stop);
    assert_eq!(ws.cursor, 25000);

    // One buffer is refilled from the new position, then playback
    // resumes exactly once.
    let filled = ws.refill(100000, CHUNK_FRAMES);
    assert_eq!(filled, 50000);
    assert_eq!(ws.cursor, 75000);
    assert!(ws.take_restart());
    assert!(!ws.take_restart());

    // Shortly after: one fresh chunk queued, backend at its start.
    let position = msc.get_offset(ws.cursor, 1, 0);
    assert_eq!(position, 25000);
    assert!((position - 25000).abs() <= CHUNK_FRAMES as i32);
}

// Looping switched on while the cursor stands at 90000 of a
// 100000-frame file — the next fill wraps, appending frames from the
// file start after the tail.
#[test]
fn looping_toggle_wraps_next_fill() {
    let mut ws = WorkerState::start(false, 90000);
    let stop = ws.apply_message(ControlMessage::SetLooping(true));
    assert!(!stop);
    let filled = ws.refill(100000, CHUNK_FRAMES);
    assert_eq!(filled, 50000);
    // [90000, 100000) and then [0, 40000): the fill wrapped.
    assert_eq!(ws.cursor, 40000);
}

// Without the toggle the same fill would have ended short at the end of
// the file.
#[test]
fn no_toggle_same_fill_ends_short() {
    let mut ws = WorkerState::start(false, 90000);
    let filled = ws.refill(100000, CHUNK_FRAMES);
    assert_eq!(filled, 10000);
    assert_eq!(ws.cursor, 100000);
}

// A seek while no worker runs goes straight to the shared cursor.
#[test]
fn seek_without_worker_stores_cursor() {
    let msc = Music::new(mono_file(), 1, [10, 11], 0).expect("Cannot create Music");
    assert_eq!(msc.set_offset(31415), OffsetAction::StoreCursor(31415));
}

// Once the worker is joined, transport commands act directly again.
#[test]
fn worker_finished_returns_to_direct_control() {
    let mut msc = Music::new(mono_file(), 1, [10, 11], 0).expect("Cannot create Music");
    msc.play(TransportState::Initial);
    assert!(msc.worker_active);
    match msc.set_looping(true) {
        Some(ControlMessage::SetLooping(v)) => assert!(v),
        _ => panic!("a running worker must get the toggle"),
    }
    msc.worker_finished();
    assert!(!msc.worker_active);
    assert_eq!(msc.set_looping(false), None);
    assert_eq!(msc.set_offset(0), OffsetAction::StoreCursor(0));
}
