//! Push-to-talk dictation: gated real-time audio streaming and the
//! rules around it, with every function verified against its contract.

pub mod audio;
pub mod audio_pipeline;
pub mod audio_stream;
pub mod commands;
pub mod dev_server;
pub mod elevenlabs;
pub mod elevenlabs_streaming;
pub mod error;
pub mod events;
pub mod history;
pub mod hotkey;
pub mod openai;
pub mod pcm;
pub mod session_laws;
pub mod settings;
pub mod stream_reader;
pub mod text;
pub mod transcription;
pub mod wav;
