//! Audio trigger engine for keyboard sound packs: the key-code table used to
//! import packs, the sound-pack data model and its loader rules, and the state
//! machine that decides, for every command, what the audio device is asked to do.

pub mod audio_manager;
pub mod folders;
pub mod key;
pub mod listener;
pub mod pack;
pub mod text;
