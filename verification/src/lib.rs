//! A text-to-speech gateway core: voice catalog management, request
//! normalization, speech-markup construction, a synthesis pipeline state
//! machine, and a client/server fault classification for every failure mode.

pub mod errors;
pub mod markup;
pub mod model;
pub mod pipeline;
pub mod registry;

pub use errors::EngineError;
pub use errors::SynthesisError;
pub use model::ApiRequest;
pub use model::RawApiRequest;
pub use model::RawVoice;
pub use model::Voice;
pub use pipeline::EngineEvent;
pub use pipeline::EngineStep;
pub use pipeline::Stage;
pub use pipeline::StepOutcome;
pub use pipeline::SynthesisTask;
pub use registry::VoiceCatalog;
pub use registry::voices;
