//! DevVoice: the rules of a desktop application that speaks selected text.
//!
//! The library holds every decision of the application as a verified function:
//! how text is normalised and cut into chunks, how requests are validated and
//! queued, how the runtime status moves, how presets are named and found, and
//! which step comes next whenever the application talks to a device, a disk or
//! a network.

pub mod audio_laws;
pub mod cache;
pub mod character_laws;
pub mod chunk_laws;
pub mod config;
pub mod config_laws;
pub mod gemini;
pub mod gemini_laws;
pub mod http_api;
pub mod instructions;
pub mod instructions_laws;
pub mod mlx;
pub mod models;
pub mod naming_laws;
pub mod path_laws;
pub mod paths;
pub mod playback;
pub mod presets;
pub mod presets_laws;
pub mod queue;
pub mod request_laws;
pub mod runtime;
pub mod runtime_laws;
pub mod service_laws;
pub mod snapshot_laws;
pub mod snapshots;
pub mod speech_job;
pub mod speech_job_laws;
pub mod speech_laws;
pub mod speech_text;
pub mod spoken_laws;
pub mod state;
pub mod step_laws;
pub mod synthesis;
pub mod synthesis_laws;
pub mod text;
pub mod text_laws;
pub mod tray;
pub mod tts;
pub mod tts_laws;
pub mod wording_laws;
pub mod worker;
pub mod worker_laws;
