use tts_gateway::EngineError;
use tts_gateway::SynthesisError;
use tts_gateway::errors::fault_status_code;

fn cause(msg: &str) -> EngineError {
    EngineError { code: -2147467259, message: msg.to_string() }
}

#[test]
fn classification_follows_the_table() {
    let e = cause("boom");
    let cases: Vec<(SynthesisError, bool)> = vec![
        (SynthesisError::LookupVoice, true),
        (SynthesisError::InitializeSpeechSynthesizer(e.clone()), false),
        (SynthesisError::GetOptionsInstance(e.clone()), false),
        (
            SynthesisError::SetProperty { property: "AudioVolume".to_string(), error: e.clone() },
            true,
        ),
        (SynthesisError::SSMLError("bad".to_string()), true),
        (SynthesisError::CreateSynthesizeSsmlToStreamAsync(e.clone()), false),
        (SynthesisError::SynthesizeSsmlToStreamAsync(e.clone()), true),
        (SynthesisError::StreamGetSize(e.clone()), false),
        (SynthesisError::CreateDataReader(e.clone()), false),
        (SynthesisError::CreateDataReaderLoadAsync(e.clone()), false),
        (SynthesisError::DataReaderLoadAsync(e.clone()), false),
        (SynthesisError::DataReaderReadBytes(e.clone()), false),
    ];
    for (error, client) in cases {
        assert_eq!(error.is_client_error(), client, "misclassified: {error:?}");
        assert_eq!(fault_status_code(&error), if client { 400 } else { 500 });
    }
}

#[test]
fn lookup_voice_message_is_exact() {
    assert_eq!(SynthesisError::LookupVoice.message(), "Failed to lookup voice");
}

#[test]
fn messages_carry_the_underlying_cause() {
    let e = SynthesisError::InitializeSpeechSynthesizer(cause("no engine"));
    assert_eq!(e.message(), "Failed to initialize SpeechSynthesizer: no engine");
    let e = SynthesisError::SetProperty {
        property: "SpeakingRate".to_string(),
        error: cause("out of range"),
    };
    assert_eq!(e.message(), "Failed to set property: SpeakingRate out of range");
    let e = SynthesisError::SSMLError("broken markup".to_string());
    assert_eq!(e.message(), "Failed to encode to SSML: broken markup");
    let e = SynthesisError::DataReaderReadBytes(cause("torn stream"));
    assert_eq!(e.message(), "Failed to DataReader.ReadBytes: torn stream");
}
