//! Decision logic of a local speech-to-text / text-to-speech HTTP service:
//! the voice catalogue and its listing, the routing of a speech request to a
//! language engine, the acceptance of an uploaded WAVE file, and the start-up
//! rules for the two models.



pub mod audio;
pub mod refusal;
pub mod speech;
pub mod startup;
pub mod voices;
pub mod text;
pub mod transcription;


