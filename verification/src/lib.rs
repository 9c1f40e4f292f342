//! A verified model of a streaming audio playback engine.
//!
//! Long-form audio is streamed from a file to an output device through a
//! pair of backend buffers that a background worker keeps filled, while a
//! control thread issues transport commands (play, pause, stop, seek,
//! loop-toggle) and reads a frame-accurate playback position.
//!
//! The library holds the engine's decision and bookkeeping logic over plain
//! values: the buffer-refill and wraparound algorithm, the playback-position
//! reconciliation, the control-message handling, the transport decisions and
//! the open-time validation. The device backend and the file decoder are
//! external collaborators; a host program performs their calls and feeds the
//! observed values into the functions verified here.

pub mod channel;
pub mod context;
pub mod error;
pub mod fill;
pub mod init;
pub mod music;
pub mod offset;
pub mod openal;
pub mod recorder;
pub mod reverb_effect;
pub mod states;
pub mod worker;

pub use channel::ControlChannel;
pub use channel::ControlMessage;
pub use context::OpenAlContextError;
pub use context::OpenAlData;
pub use context::RecordContext;
pub use error::SoundError;
pub use init::init;
pub use init::init_in;
pub use music::DurationParts;
pub use music::FileInfo;
pub use music::Music;
pub use music::OffsetAction;
pub use music::PlayAction;
pub use offset::calculate_true_offset;
pub use openal::get_channels_format;
pub use openal::ALCcontext;
pub use openal::ALCdevice;
pub use recorder::Recorder;
pub use reverb_effect::ReverbEffect;
pub use states::TransportState;
pub use worker::WorkerState;
