//! Client-side core of a cloud text-to-speech service: typed voice, region,
//! style and audio-format catalogues, and a builder that assembles a
//! speech-markup (SSML) document and renders it to its exact XML wire form.
//!
//! The rendering is pure and deterministic; its output is pinned down,
//! character for character, by the `spec_render` family of specification
//! functions. Network transport (authentication, voice listing, synthesis
//! requests) is left to an outer layer; this crate supplies the verified
//! pieces such a layer needs: endpoint strings, header values, the
//! classification of response status codes, and the token-refresh decision.

pub mod error;
pub mod ssml_serializer;
pub mod transport;
pub mod types;

pub use error::TtsError;
pub use ssml_serializer::{ExpressAs, Speak, Voice, VoiceSegment};
pub use transport::{
    bearer_header, classify_status, needs_token_refresh, synthesis_endpoint, token_endpoint,
    voices_list_endpoint,
};
pub use types::{
    AudioFormat, EnUsVoices, Region, SilenceAttributeType, Style, VoiceDescription, VoiceGender,
    VoiceSettings,
};
