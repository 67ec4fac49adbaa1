use tts_gateway::RawApiRequest;
use tts_gateway::model::DEFAULT_PROSODY_BITS;
use tts_gateway::model::normalize;

fn raw_request(
    text: &str,
    voice_id: &str,
    volume: Option<f64>,
    rate: Option<f64>,
    pitch: Option<f64>,
) -> RawApiRequest {
    RawApiRequest {
        text: text.to_string(),
        voice_id: voice_id.to_string(),
        audio_volume: volume.map(f64::to_bits),
        speaking_rate: rate.map(f64::to_bits),
        audio_pitch: pitch.map(f64::to_bits),
    }
}

#[test]
fn default_prosody_bits_are_one() {
    assert_eq!(DEFAULT_PROSODY_BITS, 1.0f64.to_bits());
}

#[test]
fn omitted_prosody_defaults_to_one() {
    let r = normalize(raw_request("Hello world", "v-1", None, None, None));
    assert_eq!(f64::from_bits(r.audio_volume), 1.0);
    assert_eq!(f64::from_bits(r.speaking_rate), 1.0);
    assert_eq!(f64::from_bits(r.audio_pitch), 1.0);
    assert_eq!(r.text, "Hello world");
    assert_eq!(r.voice_id, "v-1");
}

#[test]
fn given_prosody_is_forwarded_untouched() {
    let r = normalize(raw_request("Hi", "v-2", Some(0.25), Some(2.0), Some(0.5)));
    assert_eq!(f64::from_bits(r.audio_volume), 0.25);
    assert_eq!(f64::from_bits(r.speaking_rate), 2.0);
    assert_eq!(f64::from_bits(r.audio_pitch), 0.5);
}

#[test]
fn partially_given_prosody_defaults_only_the_omitted() {
    let r = normalize(raw_request("Hi", "v-2", Some(0.75), None, None));
    assert_eq!(f64::from_bits(r.audio_volume), 0.75);
    assert_eq!(r.speaking_rate, DEFAULT_PROSODY_BITS);
    assert_eq!(r.audio_pitch, DEFAULT_PROSODY_BITS);
}

#[test]
fn defaulted_request_drives_unit_prosody_through_the_pipeline() {
    let catalog = tts_gateway::VoiceCatalog::load(vec![tts_gateway::RawVoice {
        display_name: "Alpha".to_string(),
        id: "v-1".to_string(),
        language: "en-US".to_string(),
        description: "an English voice".to_string(),
        gender: 0,
    }])
    .unwrap();
    let req = normalize(raw_request("Hello world", "v-1", None, None, None));
    let (task, _) = tts_gateway::SynthesisTask::start(&catalog, &req).unwrap();
    let (task, _) = match task.advance(tts_gateway::EngineEvent::Completed) {
        tts_gateway::StepOutcome::Next(t, s) => (t, s),
        other => panic!("pipeline stopped early: {other:?}"),
    };
    match task.advance(tts_gateway::EngineEvent::Completed) {
        tts_gateway::StepOutcome::Next(_, step) => {
            assert_eq!(step, tts_gateway::EngineStep::SetAudioVolume(1.0f64.to_bits()));
        }
        other => panic!("pipeline stopped early: {other:?}"),
    }
}
