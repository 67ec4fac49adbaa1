use vstd::prelude::*;
use vstd::string::StringExecFns;

verus! {

/// A failure the platform speech engine reported, as plain values: the
/// engine's numeric status code and its diagnostic message.
#[derive(Debug, Clone, PartialEq)]
pub struct EngineError {
    pub code: i32,
    pub message: String,
}

/// Every distinguishable failure of the synthesis pipeline, tagged at the
/// point it is first detected and never re-classified later.
#[derive(Debug, Clone, PartialEq)]
pub enum SynthesisError {
    /// The requested voice id matches no catalog entry.
    LookupVoice,
    /// The engine instance for this request could not be constructed.
    InitializeSpeechSynthesizer(EngineError),
    /// The engine's prosody options object was unavailable.
    GetOptionsInstance(EngineError),
    /// The engine rejected one prosody value; `property` names which.
    SetProperty { property: String, error: EngineError },
    /// The speech-markup document could not be serialized.
    SSMLError(String),
    /// Submitting the markup for synthesis failed.
    CreateSynthesizeSsmlToStreamAsync(EngineError),
    /// The awaited synthesis task itself failed.
    SynthesizeSsmlToStreamAsync(EngineError),
    /// The audio stream would not report its size.
    StreamGetSize(EngineError),
    /// A reader could not be bound to the audio stream.
    CreateDataReader(EngineError),
    /// Issuing the stream load failed.
    CreateDataReaderLoadAsync(EngineError),
    /// The awaited stream load failed.
    DataReaderLoadAsync(EngineError),
    /// Copying the loaded bytes out of the reader failed.
    DataReaderReadBytes(EngineError),
}

/// The fault classification: a failure is a client fault exactly when its
/// root cause is the supplied input (unknown voice, rejected prosody value,
/// unsupported markup or synthesis task); every environment or resource
/// failure (engine construction, stream plumbing, I/O) is a server fault.
pub open spec fn is_client_fault(e: SynthesisError) -> bool {
    match e {
        SynthesisError::LookupVoice => true,
        SynthesisError::InitializeSpeechSynthesizer(_) => false,
        SynthesisError::GetOptionsInstance(_) => false,
        SynthesisError::SetProperty { property: _, error: _ } => true,
        SynthesisError::SSMLError(_) => true,
        SynthesisError::CreateSynthesizeSsmlToStreamAsync(_) => false,
        SynthesisError::SynthesizeSsmlToStreamAsync(_) => true,
        SynthesisError::StreamGetSize(_) => false,
        SynthesisError::CreateDataReader(_) => false,
        SynthesisError::CreateDataReaderLoadAsync(_) => false,
        SynthesisError::DataReaderLoadAsync(_) => false,
        SynthesisError::DataReaderReadBytes(_) => false,
    }
}

/// The human-readable message for each failure: a fixed description of the
/// failed step, followed by the underlying cause where one exists.
pub open spec fn message_spec(e: SynthesisError) -> Seq<char> {
    match e {
        SynthesisError::LookupVoice => "Failed to lookup voice"@,
        SynthesisError::InitializeSpeechSynthesizer(err) => "Failed to initialize SpeechSynthesizer: "@
            + err.message@,
        SynthesisError::GetOptionsInstance(err) => "Failed to get options instance: "@
            + err.message@,
        SynthesisError::SetProperty { property, error } => "Failed to set property: "@ + property@
            + " "@ + error.message@,
        SynthesisError::SSMLError(m) => "Failed to encode to SSML: "@ + m@,
        SynthesisError::CreateSynthesizeSsmlToStreamAsync(err) => "Failed to create SynthesizeSsmlToStream: "@
            + err.message@,
        SynthesisError::SynthesizeSsmlToStreamAsync(err) => "Failed to SynthesizeSsmlToStream: "@
            + err.message@,
        SynthesisError::StreamGetSize(err) => "Failed to Stream.GetSize: "@ + err.message@,
        SynthesisError::CreateDataReader(err) => "Failed to CreateDataReader: "@ + err.message@,
        SynthesisError::CreateDataReaderLoadAsync(err) => "Failed to create DataReader.LoadAsync: "@
            + err.message@,
        SynthesisError::DataReaderLoadAsync(err) => "Failed to DataReader.LoadAsync: "@
            + err.message@,
        SynthesisError::DataReaderReadBytes(err) => "Failed to DataReader.ReadBytes: "@
            + err.message@,
    }
}

impl SynthesisError {
    /// The classification as executable code: true exactly for the
    /// client-fault variants.
    pub fn is_client_error(&self) -> (r: bool)
        ensures
            r == is_client_fault(*self),
    {
        match self {
            SynthesisError::LookupVoice => true,
            SynthesisError::InitializeSpeechSynthesizer(_) => false,
            SynthesisError::GetOptionsInstance(_) => false,
            SynthesisError::SetProperty { property: _, error: _ } => true,
            SynthesisError::SSMLError(_) => true,
            SynthesisError::CreateSynthesizeSsmlToStreamAsync(_) => false,
            SynthesisError::SynthesizeSsmlToStreamAsync(_) => true,
            SynthesisError::StreamGetSize(_) => false,
            SynthesisError::CreateDataReader(_) => false,
            SynthesisError::CreateDataReaderLoadAsync(_) => false,
            SynthesisError::DataReaderLoadAsync(_) => false,
            SynthesisError::DataReaderReadBytes(_) => false,
        }
    }

    /// The full diagnostic message for this failure.
    pub fn message(&self) -> (r: String)
        ensures
            r@ == message_spec(*self),
    {
        match self {
            SynthesisError::LookupVoice => String::from_str("Failed to lookup voice"),
            SynthesisError::InitializeSpeechSynthesizer(err) => String::from_str(
                "Failed to initialize SpeechSynthesizer: ",
            ).concat(err.message.as_str()),
            SynthesisError::GetOptionsInstance(err) => String::from_str(
                "Failed to get options instance: ",
            ).concat(err.message.as_str()),
            SynthesisError::SetProperty { property, error } => {
                let r = String::from_str("Failed to set property: ").concat(
                    property.as_str(),
                ).concat(" ").concat(error.message.as_str());
                proof {
                    assert(r@ =~= message_spec(*self));
                }
                r
            },
            SynthesisError::SSMLError(m) => String::from_str("Failed to encode to SSML: ").concat(
                m.as_str(),
            ),
            SynthesisError::CreateSynthesizeSsmlToStreamAsync(err) => String::from_str(
                "Failed to create SynthesizeSsmlToStream: ",
            ).concat(err.message.as_str()),
            SynthesisError::SynthesizeSsmlToStreamAsync(err) => String::from_str(
                "Failed to SynthesizeSsmlToStream: ",
            ).concat(err.message.as_str()),
            SynthesisError::StreamGetSize(err) => String::from_str(
                "Failed to Stream.GetSize: ",
            ).concat(err.message.as_str()),
            SynthesisError::CreateDataReader(err) => String::from_str(
                "Failed to CreateDataReader: ",
            ).concat(err.message.as_str()),
            SynthesisError::CreateDataReaderLoadAsync(err) => String::from_str(
                "Failed to create DataReader.LoadAsync: ",
            ).concat(err.message.as_str()),
            SynthesisError::DataReaderLoadAsync(err) => String::from_str(
                "Failed to DataReader.LoadAsync: ",
            ).concat(err.message.as_str()),
            SynthesisError::DataReaderReadBytes(err) => String::from_str(
                "Failed to DataReader.ReadBytes: ",
            ).concat(err.message.as_str()),
        }
    }
}

/// The HTTP status the transport owes for a failure: 400 for a client fault,
/// 500 for a server fault.
pub fn fault_status_code(e: &SynthesisError) -> (r: u16)
    ensures
        is_client_fault(*e) ==> r == 400,
        !is_client_fault(*e) ==> r == 500,
{
    if e.is_client_error() {
        400
    } else {
        500
    }
}

} // verus!
