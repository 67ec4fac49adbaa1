use vstd::prelude::*;

use crate::errors::EngineError;
use crate::errors::SynthesisError;
use crate::errors::is_client_fault;
use crate::markup::build_markup;
use crate::markup::speak_document;
use crate::model::ApiRequest;
use crate::registry::VoiceCatalog;

verus! {

/// Where a synthesis task stands in the pipeline: which engine action it is
/// waiting on. The stages run in this order, one engine call each.
#[derive(Debug, Clone, Copy, PartialEq, Eq, Structural)]
pub enum Stage {
    CreatingSynthesizer,
    GettingOptions,
    SettingAudioVolume,
    SettingSpeakingRate,
    SettingAudioPitch,
    SubmittingSsml,
    AwaitingSynthesis,
    GettingStreamSize,
    CreatingReader,
    IssuingLoad,
    AwaitingLoad,
    ReadingBytes,
}

/// One action the driver must perform against the platform speech engine on
/// behalf of a task. Every payload is computed from the task's own fields.
#[derive(Debug, Clone, PartialEq)]
pub enum EngineStep {
    /// Construct a fresh synthesizer for this request alone.
    CreateSynthesizer,
    /// Fetch the synthesizer's prosody options object.
    GetOptions,
    /// Set the volume multiplier (an IEEE 754 bit pattern).
    SetAudioVolume(u64),
    /// Set the speaking-rate multiplier (an IEEE 754 bit pattern).
    SetSpeakingRate(u64),
    /// Set the pitch multiplier (an IEEE 754 bit pattern).
    SetAudioPitch(u64),
    /// Submit this markup document for synthesis.
    SubmitSsml(String),
    /// Await the synthesis task's audio stream.
    AwaitSynthesis,
    /// Query the audio stream's byte size.
    GetStreamSize,
    /// Bind a reader to the audio stream.
    CreateReader,
    /// Issue the asynchronous load of this many bytes into the reader.
    IssueLoad(u32),
    /// Await the issued load.
    AwaitLoad,
    /// Copy this many loaded bytes out of the reader.
    ReadBytes(u64),
}

/// What the engine answered to the step the driver performed.
#[derive(Debug, Clone, PartialEq)]
pub enum EngineEvent {
    /// The step succeeded and carries no data.
    Completed,
    /// The stream reported this byte size.
    Size(u64),
    /// The reader handed out these bytes.
    Data(Vec<u8>),
    /// The step failed with this engine-reported error.
    Failed(EngineError),
}

/// The pipeline's verdict after one step: the next action, the finished
/// audio buffer, or a classified failure.
#[derive(Debug, Clone, PartialEq)]
pub enum StepOutcome {
    Next(SynthesisTask, EngineStep),
    Finished(Vec<u8>),
    Failed(SynthesisError),
}

/// One request's synthesis in flight. A task is a plain value: it holds its
/// own request's text, resolved language and prosody and nothing shared, so
/// concurrent tasks cannot affect one another.
#[derive(Debug, Clone, PartialEq)]
pub struct SynthesisTask {
    pub stage: Stage,
    pub text: String,
    pub language: String,
    pub audio_volume: u64,
    pub speaking_rate: u64,
    pub audio_pitch: u64,
    pub stream_size: u64,
}

/// The event kinds that answer each stage's action: a failure answers any
/// stage, a size only the size query, data only the final read, and a plain
/// completion every other stage.
pub open spec fn expects(stage: Stage, event: EngineEvent) -> bool {
    match event {
        EngineEvent::Failed(_) => true,
        EngineEvent::Completed => !(stage is GettingStreamSize) && !(stage is ReadingBytes),
        EngineEvent::Size(_) => stage is GettingStreamSize,
        EngineEvent::Data(_) => stage is ReadingBytes,
    }
}

/// The low 32 bits of a stream size: what the engine's load call accepts.
pub open spec fn low32(n: u64) -> u32 {
    (n % 0x1_0000_0000) as u32
}

impl SynthesisTask {
    /// Begins a synthesis: resolves the voice against the catalog before any
    /// engine call is made. An unknown voice id is the client fault
    /// `LookupVoice`, whatever the text and prosody; a known id yields a
    /// fresh task carrying exactly this request's text and prosody and the
    /// resolved voice's language, waiting on engine construction.
    pub fn start(catalog: &VoiceCatalog, req: &ApiRequest) -> (r: Result<
        (SynthesisTask, EngineStep),
        SynthesisError,
    >)
        ensures
            r is Err <==> !catalog.has_voice(req.voice_id@),
            r is Err ==> r->Err_0 == SynthesisError::LookupVoice,
            r is Ok ==> {
                let task = r->Ok_0.0;
                &&& r->Ok_0.1 == EngineStep::CreateSynthesizer
                &&& task.stage is CreatingSynthesizer
                &&& task.text@ == req.text@
                &&& task.audio_volume == req.audio_volume
                &&& task.speaking_rate == req.speaking_rate
                &&& task.audio_pitch == req.audio_pitch
                &&& task.stream_size == 0
                &&& exists|i: int|
                    {
                        &&& 0 <= i < catalog@.len()
                        &&& (#[trigger] catalog@[i]).id@ == req.voice_id@
                        &&& task.language@ == catalog@[i].language@
                        &&& forall|j: int| 0 <= j < i ==> (#[trigger] catalog@[j]).id@ != req.voice_id@
                    }
            },
    {
        match catalog.lookup(&req.voice_id) {
            None => Err(SynthesisError::LookupVoice),
            Some(voice) => {
                let task = SynthesisTask {
                    stage: Stage::CreatingSynthesizer,
                    text: req.text.clone(),
                    language: voice.language.clone(),
                    audio_volume: req.audio_volume,
                    speaking_rate: req.speaking_rate,
                    audio_pitch: req.audio_pitch,
                    stream_size: 0,
                };
                Ok((task, EngineStep::CreateSynthesizer))
            },
        }
    }

    /// Feeds the engine's answer to the pending step back into the pipeline.
    /// A failure event is tagged with the variant of the stage it struck —
    /// prosody rejections name their property, and classification follows
    /// the fixed client/server table. A success advances to the next stage
    /// in order: construction, options, volume, rate, pitch, markup
    /// submission, synthesis, size query, reader, load, and the final read,
    /// which finishes exactly when the reader hands back as many bytes as
    /// the stream reported.
    pub fn advance(self, event: EngineEvent) -> (r: StepOutcome)
        requires
            expects(self.stage, event),
        ensures
            (event is Failed && self.stage is CreatingSynthesizer ==> r == StepOutcome::Failed(
                SynthesisError::InitializeSpeechSynthesizer(event->Failed_0),
            )),
            (event is Failed && self.stage is GettingOptions ==> r == StepOutcome::Failed(
                SynthesisError::GetOptionsInstance(event->Failed_0),
            )),
            (event is Failed && self.stage is SettingAudioVolume ==> (r matches StepOutcome::Failed(
                SynthesisError::SetProperty { property, error },
            ) && property@ == "AudioVolume"@ && error == event->Failed_0)),
            (event is Failed && self.stage is SettingSpeakingRate ==> (r matches StepOutcome::Failed(
                SynthesisError::SetProperty { property, error },
            ) && property@ == "SpeakingRate"@ && error == event->Failed_0)),
            (event is Failed && self.stage is SettingAudioPitch ==> (r matches StepOutcome::Failed(
                SynthesisError::SetProperty { property, error },
            ) && property@ == "AudioPitch"@ && error == event->Failed_0)),
            (event is Failed && self.stage is SubmittingSsml ==> r == StepOutcome::Failed(
                SynthesisError::CreateSynthesizeSsmlToStreamAsync(event->Failed_0),
            )),
            (event is Failed && self.stage is AwaitingSynthesis ==> r == StepOutcome::Failed(
                SynthesisError::SynthesizeSsmlToStreamAsync(event->Failed_0),
            )),
            (event is Failed && self.stage is GettingStreamSize ==> r == StepOutcome::Failed(
                SynthesisError::StreamGetSize(event->Failed_0),
            )),
            (event is Failed && self.stage is CreatingReader ==> r == StepOutcome::Failed(
                SynthesisError::CreateDataReader(event->Failed_0),
            )),
            (event is Failed && self.stage is IssuingLoad ==> r == StepOutcome::Failed(
                SynthesisError::CreateDataReaderLoadAsync(event->Failed_0),
            )),
            (event is Failed && self.stage is AwaitingLoad ==> r == StepOutcome::Failed(
                SynthesisError::DataReaderLoadAsync(event->Failed_0),
            )),
            (event is Failed && self.stage is ReadingBytes ==> r == StepOutcome::Failed(
                SynthesisError::DataReaderReadBytes(event->Failed_0),
            )),
            (event is Completed && self.stage is CreatingSynthesizer ==> r == StepOutcome::Next(
                (SynthesisTask { stage: Stage::GettingOptions, ..self }),
                EngineStep::GetOptions,
            )),
            (event is Completed && self.stage is GettingOptions ==> r == StepOutcome::Next(
                (SynthesisTask { stage: Stage::SettingAudioVolume, ..self }),
                EngineStep::SetAudioVolume(self.audio_volume),
            )),
            (event is Completed && self.stage is SettingAudioVolume ==> r == StepOutcome::Next(
                (SynthesisTask { stage: Stage::SettingSpeakingRate, ..self }),
                EngineStep::SetSpeakingRate(self.speaking_rate),
            )),
            (event is Completed && self.stage is SettingSpeakingRate ==> r == StepOutcome::Next(
                (SynthesisTask { stage: Stage::SettingAudioPitch, ..self }),
                EngineStep::SetAudioPitch(self.audio_pitch),
            )),
            (event is Completed && self.stage is SettingAudioPitch ==> (r
                matches StepOutcome::Next(task, step) && task == (SynthesisTask {
                stage: Stage::SubmittingSsml,
                ..self
            }) && (step matches EngineStep::SubmitSsml(doc) && doc@ == speak_document(
                self.language@,
                self.text@,
            )))),
            (event is Completed && self.stage is SubmittingSsml ==> r == StepOutcome::Next(
                (SynthesisTask { stage: Stage::AwaitingSynthesis, ..self }),
                EngineStep::AwaitSynthesis,
            )),
            (event is Completed && self.stage is AwaitingSynthesis ==> r == StepOutcome::Next(
                (SynthesisTask { stage: Stage::GettingStreamSize, ..self }),
                EngineStep::GetStreamSize,
            )),
            (event matches EngineEvent::Size(n) ==> (self.stage is GettingStreamSize ==> r
                == StepOutcome::Next(
                (SynthesisTask { stage: Stage::CreatingReader, stream_size: n, ..self }),
                EngineStep::CreateReader,
            ))),
            (event is Completed && self.stage is CreatingReader ==> r == StepOutcome::Next(
                (SynthesisTask { stage: Stage::IssuingLoad, ..self }),
                EngineStep::IssueLoad(low32(self.stream_size)),
            )),
            (event is Completed && self.stage is IssuingLoad ==> r == StepOutcome::Next(
                (SynthesisTask { stage: Stage::AwaitingLoad, ..self }),
                EngineStep::AwaitLoad,
            )),
            (event is Completed && self.stage is AwaitingLoad ==> r == StepOutcome::Next(
                (SynthesisTask { stage: Stage::ReadingBytes, ..self }),
                EngineStep::ReadBytes(self.stream_size),
            )),
            (event matches EngineEvent::Data(data) ==> (self.stage is ReadingBytes ==> (if data@.len()
                == self.stream_size as nat {
                r == StepOutcome::Finished(data)
            } else {
                (r matches StepOutcome::Failed(e) && e is DataReaderReadBytes && !is_client_fault(e))
            }))),
            (r is Finished ==> self.stage is ReadingBytes && event is Data
                && r->Finished_0@.len() == self.stream_size as nat && (self.stream_size > 0
                ==> r->Finished_0@.len() > 0)),
    {
        match event {
            EngineEvent::Failed(err) => StepOutcome::Failed(
                match self.stage {
                    Stage::CreatingSynthesizer => SynthesisError::InitializeSpeechSynthesizer(err),
                    Stage::GettingOptions => SynthesisError::GetOptionsInstance(err),
                    Stage::SettingAudioVolume => SynthesisError::SetProperty {
                        property: String::from_str("AudioVolume"),
                        error: err,
                    },
                    Stage::SettingSpeakingRate => SynthesisError::SetProperty {
                        property: String::from_str("SpeakingRate"),
                        error: err,
                    },
                    Stage::SettingAudioPitch => SynthesisError::SetProperty {
                        property: String::from_str("AudioPitch"),
                        error: err,
                    },
                    Stage::SubmittingSsml => SynthesisError::CreateSynthesizeSsmlToStreamAsync(err),
                    Stage::AwaitingSynthesis => SynthesisError::SynthesizeSsmlToStreamAsync(err),
                    Stage::GettingStreamSize => SynthesisError::StreamGetSize(err),
                    Stage::CreatingReader => SynthesisError::CreateDataReader(err),
                    Stage::IssuingLoad => SynthesisError::CreateDataReaderLoadAsync(err),
                    Stage::AwaitingLoad => SynthesisError::DataReaderLoadAsync(err),
                    Stage::ReadingBytes => SynthesisError::DataReaderReadBytes(err),
                },
            ),
            EngineEvent::Completed => match self.stage {
                Stage::CreatingSynthesizer => StepOutcome::Next(
                    SynthesisTask { stage: Stage::GettingOptions, ..self },
                    EngineStep::GetOptions,
                ),
                Stage::GettingOptions => {
                    let bits = self.audio_volume;
                    StepOutcome::Next(
                        SynthesisTask { stage: Stage::SettingAudioVolume, ..self },
                        EngineStep::SetAudioVolume(bits),
                    )
                },
                Stage::SettingAudioVolume => {
                    let bits = self.speaking_rate;
                    StepOutcome::Next(
                        SynthesisTask { stage: Stage::SettingSpeakingRate, ..self },
                        EngineStep::SetSpeakingRate(bits),
                    )
                },
                Stage::SettingSpeakingRate => {
                    let bits = self.audio_pitch;
                    StepOutcome::Next(
                        SynthesisTask { stage: Stage::SettingAudioPitch, ..self },
                        EngineStep::SetAudioPitch(bits),
                    )
                },
                Stage::SettingAudioPitch => match build_markup(
                    self.text.as_str(),
                    self.language.as_str(),
                ) {
                    Ok(doc) => StepOutcome::Next(
                        SynthesisTask { stage: Stage::SubmittingSsml, ..self },
                        EngineStep::SubmitSsml(doc),
                    ),
                    Err(e) => StepOutcome::Failed(e),
                },
                Stage::SubmittingSsml => StepOutcome::Next(
                    SynthesisTask { stage: Stage::AwaitingSynthesis, ..self },
                    EngineStep::AwaitSynthesis,
                ),
                Stage::AwaitingSynthesis => StepOutcome::Next(
                    SynthesisTask { stage: Stage::GettingStreamSize, ..self },
                    EngineStep::GetStreamSize,
                ),
                Stage::GettingStreamSize => unreached(),
                Stage::CreatingReader => {
                    let n: u32 = (self.stream_size % 0x1_0000_0000) as u32;
                    StepOutcome::Next(
                        SynthesisTask { stage: Stage::IssuingLoad, ..self },
                        EngineStep::IssueLoad(n),
                    )
                },
                Stage::IssuingLoad => StepOutcome::Next(
                    SynthesisTask { stage: Stage::AwaitingLoad, ..self },
                    EngineStep::AwaitLoad,
                ),
                Stage::AwaitingLoad => {
                    let n = self.stream_size;
                    StepOutcome::Next(
                        SynthesisTask { stage: Stage::ReadingBytes, ..self },
                        EngineStep::ReadBytes(n),
                    )
                },
                Stage::ReadingBytes => unreached(),
            },
            EngineEvent::Size(n) => match self.stage {
                Stage::GettingStreamSize => StepOutcome::Next(
                    SynthesisTask { stage: Stage::CreatingReader, stream_size: n, ..self },
                    EngineStep::CreateReader,
                ),
                _ => unreached(),
            },
            EngineEvent::Data(data) => match self.stage {
                Stage::ReadingBytes => {
                    if data.len() as u64 == self.stream_size {
                        StepOutcome::Finished(data)
                    } else {
                        StepOutcome::Failed(
                            SynthesisError::DataReaderReadBytes(
                                EngineError {
                                    code: 0,
                                    message: String::from_str(
                                        "the reader returned a different number of bytes than the stream reported",
                                    ),
                                },
                            ),
                        )
                    }
                },
                _ => unreached(),
            },
        }
    }
}

/// An unknown voice id always classifies as a client fault: `start` owes
/// `Err(LookupVoice)` exactly when no catalog entry carries the requested
/// id — whatever the request's text — and that error is a client fault.
pub proof fn lemma_unknown_voice_is_client_fault()
    ensures
        is_client_fault(SynthesisError::LookupVoice),
{
}

/// Requests never contaminate one another: every step a task emits is a
/// function of that task's own fields alone, so tasks whose prosody differs
/// submit different prosody settings, and tasks whose resolved language or
/// text differs submit different markup documents.
pub proof fn lemma_no_cross_request_contamination(t1: SynthesisTask, t2: SynthesisTask)
    ensures
        t1.audio_volume != t2.audio_volume ==> EngineStep::SetAudioVolume(t1.audio_volume)
            != EngineStep::SetAudioVolume(t2.audio_volume),
        t1.speaking_rate != t2.speaking_rate ==> EngineStep::SetSpeakingRate(t1.speaking_rate)
            != EngineStep::SetSpeakingRate(t2.speaking_rate),
        t1.audio_pitch != t2.audio_pitch ==> EngineStep::SetAudioPitch(t1.audio_pitch)
            != EngineStep::SetAudioPitch(t2.audio_pitch),
        t1.language@ != t2.language@ || t1.text@ != t2.text@ ==> speak_document(
            t1.language@,
            t1.text@,
        ) != speak_document(t2.language@, t2.text@),
{
    if speak_document(t1.language@, t1.text@) == speak_document(t2.language@, t2.text@) {
        crate::markup::lemma_speak_document_injective(
            t1.language@,
            t1.text@,
            t2.language@,
            t2.text@,
        );
    }
}

} // verus!
