//! A small console music player: the catalog of audio files in a folder, the
//! parsing of what the user types, and the playback session's state machine.
//! Directory reading, the audio device and the console live with the caller.

pub mod catalog;
pub mod error;
pub mod session;
pub mod text;

pub use catalog::{catalog, find_song, has_audio_extension, song_path, DirListing};
pub use error::MusicError;
pub use session::{parse_choice, parse_command, Action, Command, Notice, Phase, Reply, Session};
pub use text::{chars_of, trim};
