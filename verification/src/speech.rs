//! The transcription service façade: the normalized result value, the
//! configured service with its recording session, and the orchestration of
//! backend selection and completion.

use vstd::prelude::*;
use crate::errors::{SttError, SttErrorV};
use crate::modes::{
    resolve, select_backend, spec_resolve, spec_select_backend, BackendKind, EffectiveMode, SttMode,
};
use crate::recording::{
    spec_clip_file_name, spec_session_step, AudioClip, RecordingSession, RecordingState, SessionOp,
};
use crate::rest::{build_rest_request, interpret_rest_response, spec_rest_outcome, RestRequest};
use crate::stream::{
    base64_fits, build_stream_plan, run_stream, spec_collect, spec_events_view, StreamEvent,
    StreamEventV, StreamPlan,
};

verus! {

/// Mathematical view of a [`TranscriptionResult`].
pub struct TranscriptionResultV {
    pub text: Seq<char>,
    pub language: Seq<char>,
}

/// The normalized transcription returned to the caller: the text and a
/// language code. An immutable value with no identity beyond its content.
#[derive(Clone, Debug)]
pub struct TranscriptionResult {
    pub text: String,
    pub language: String,
}

impl View for TranscriptionResult {
    type V = TranscriptionResultV;

    open spec fn view(&self) -> TranscriptionResultV {
        TranscriptionResultV { text: self.text@, language: self.language@ }
    }
}

impl TranscriptionResult {
    /// Assemble a result from its parts.
    pub fn new(text: String, language: String) -> (r: Self)
        ensures
            r@ == (TranscriptionResultV { text: text@, language: language@ }),
    {
        TranscriptionResult { text, language }
    }
}

/// A transcription outcome viewed mathematically, success or tagged error.
pub open spec fn outcome_view(r: Result<TranscriptionResult, SttError>) -> Result<
    TranscriptionResultV,
    SttErrorV,
> {
    match r {
        Result::Ok(t) => Ok(t@),
        Result::Err(e) => Err(e@),
    }
}

/// Mathematical view of a [`BackendOutcome`].
pub enum BackendOutcomeV {
    Streamed(Seq<StreamEventV>, bool),
    Rested(int, Seq<char>),
    Local(TranscriptionResultV),
}

/// What the chosen backend produced, as the host hands it back: the
/// streaming session's observations (and whether the deadline cut the loop
/// off), the REST upload's status and body, or the local engine's product.
pub enum BackendOutcome {
    Streamed(Vec<StreamEvent>, bool),
    Rested(u16, String),
    Local(TranscriptionResult),
}

impl View for BackendOutcome {
    type V = BackendOutcomeV;

    open spec fn view(&self) -> BackendOutcomeV {
        match self {
            BackendOutcome::Streamed(events, deadline_hit) => BackendOutcomeV::Streamed(
                spec_events_view(events@),
                *deadline_hit,
            ),
            BackendOutcome::Rested(status, body) => BackendOutcomeV::Rested(*status as int, body@),
            BackendOutcome::Local(res) => BackendOutcomeV::Local(res@),
        }
    }
}

/// The transcription the core returns for each backend product. A local
/// product passes through unchanged; the other two are decided by the
/// backend's own outcome function.
pub open spec fn spec_finish(outcome: BackendOutcomeV) -> Result<TranscriptionResultV, SttErrorV> {
    match outcome {
        BackendOutcomeV::Streamed(events, deadline_hit) => spec_collect(
            Seq::empty(),
            events,
            deadline_hit,
        ),
        BackendOutcomeV::Rested(status, body) => spec_rest_outcome(status, body),
        BackendOutcomeV::Local(res) => Ok(res),
    }
}

/// Complete one transcription call from what the chosen backend produced.
/// Backend errors propagate unchanged to the caller.
pub fn finish_transcription(outcome: BackendOutcome) -> (r: Result<TranscriptionResult, SttError>)
    ensures
        outcome_view(r) == spec_finish(outcome@),
{
    match outcome {
        BackendOutcome::Streamed(events, deadline_hit) => run_stream(&events, deadline_hit),
        BackendOutcome::Rested(status, body) => interpret_rest_response(status, &body),
        BackendOutcome::Local(res) => Ok(res),
    }
}

/// The fixed product of the built-in local path, standing in for a local
/// model run; the engine's internals are outside this core.
pub fn local_transcription() -> (r: TranscriptionResult)
    ensures
        r@.text == "[Offline transcription placeholder - would use Candle with Whisper model]"@,
        r@.language == "en"@,
{
    TranscriptionResult {
        text: String::from_str(
            "[Offline transcription placeholder - would use Candle with Whisper model]",
        ),
        language: String::from_str("en"),
    }
}

/// The error reported when a caller-named audio file is absent.
pub fn missing_file_error(path: &String) -> (e: SttError)
    ensures
        e@ == SttErrorV::Io("Audio file not found: "@ + path@),
{
    let mut m = String::from_str("Audio file not found: ");
    m.append(path.as_str());
    SttError::IoError(m)
}

/// Relies on `std::time::SystemTime::now` and `duration_since`: the wall
/// clock's seconds since the Unix epoch (zero for a clock before it).
/// Nothing is promised of the value, which depends on the moment of the
/// call.
#[verifier::external_body]
fn now_unix_secs() -> u64 {
    match std::time::SystemTime::now().duration_since(std::time::UNIX_EPOCH) {
        Ok(d) => d.as_secs(),
        Err(_) => 0,
    }
}

/// The speech-to-text service: one recording session and one mutable
/// configured mode, plus the credentials read at initialization. The host
/// keeps the service behind an exclusive lock held only for the instant of
/// each call, never across awaited I/O.
pub struct SpeechToTextService {
    session: RecordingSession,
    mode: SttMode,
    openai_api_key: String,
    gemini_api_key: String,
}

impl SpeechToTextService {
    /// The configured transcription mode.
    pub closed spec fn spec_mode(&self) -> SttMode {
        self.mode
    }

    /// The recording session's phase.
    pub closed spec fn spec_state(&self) -> RecordingState {
        self.session.spec_state()
    }

    /// The credential of the REST fallback backend.
    pub closed spec fn spec_openai_key(&self) -> Seq<char> {
        self.openai_api_key@
    }

    /// The credential of the streaming backend.
    pub closed spec fn spec_gemini_key(&self) -> Seq<char> {
        self.gemini_api_key@
    }

    /// Initialize the service from the credentials the host found in its
    /// environment. Fails with a `ConfigurationError` naming the first
    /// absent credential; with both present, the service starts Idle in
    /// Automatic mode.
    pub fn new(openai_api_key: Option<String>, gemini_api_key: Option<String>) -> (r: Result<
        Self,
        SttError,
    >)
        ensures
            openai_api_key is None ==> (r matches Err(e) && e@ == SttErrorV::Configuration(
                "OPENAI_API_KEY not found in environment variables"@,
            )),
            openai_api_key is Some && gemini_api_key is None ==> (r matches Err(e) && e@
                == SttErrorV::Configuration("GEMINI_API_KEY not found in environment variables"@)),
            openai_api_key matches Some(ok) ==> gemini_api_key matches Some(gk) ==> (r matches Ok(
                s,
            ) && {
                &&& s.spec_mode() == SttMode::Auto
                &&& s.spec_state() == RecordingState::Idle
                &&& s.spec_openai_key() == ok@
                &&& s.spec_gemini_key() == gk@
            }),
    {
        match openai_api_key {
            None => Err(
                SttError::ConfigurationError(
                    String::from_str("OPENAI_API_KEY not found in environment variables"),
                ),
            ),
            Some(ok) => match gemini_api_key {
                None => Err(
                    SttError::ConfigurationError(
                        String::from_str("GEMINI_API_KEY not found in environment variables"),
                    ),
                ),
                Some(gk) => Ok(
                    SpeechToTextService {
                        session: RecordingSession::new(),
                        mode: SttMode::Auto,
                        openai_api_key: ok,
                        gemini_api_key: gk,
                    },
                ),
            },
        }
    }

    /// Change the configured mode; effective on the next transcription call
    /// only.
    pub fn set_mode(&mut self, mode: SttMode)
        ensures
            final(self).spec_mode() == mode,
            final(self).spec_state() == old(self).spec_state(),
            final(self).spec_openai_key() == old(self).spec_openai_key(),
            final(self).spec_gemini_key() == old(self).spec_gemini_key(),
    {
        self.mode = mode;
    }

    /// The configured mode.
    pub fn get_mode(&self) -> (m: SttMode)
        ensures
            m == self.spec_mode(),
    {
        self.mode
    }

    /// Begin a capture cycle; see [`RecordingSession::start`].
    pub fn start_recording(&mut self) -> (r: Result<(), SttError>)
        ensures
            final(self).spec_state() == spec_session_step(
                old(self).spec_state(),
                SessionOp::Start,
            ).0,
            (r is Ok) == spec_session_step(old(self).spec_state(), SessionOp::Start).1,
            r matches Err(e) ==> e@ == SttErrorV::State("Already recording"@),
            final(self).spec_mode() == old(self).spec_mode(),
            final(self).spec_openai_key() == old(self).spec_openai_key(),
            final(self).spec_gemini_key() == old(self).spec_gemini_key(),
    {
        self.session.start()
    }

    /// Close the capture cycle, naming the clip after the given capture
    /// timestamp; see [`RecordingSession::stop`].
    pub fn stop_recording_at(&mut self, captured: Vec<u8>, timestamp_secs: u64) -> (r: Result<
        AudioClip,
        SttError,
    >)
        ensures
            final(self).spec_state() == spec_session_step(
                old(self).spec_state(),
                SessionOp::Stop,
            ).0,
            (r is Ok) == spec_session_step(old(self).spec_state(), SessionOp::Stop).1,
            r matches Err(e) ==> e@ == SttErrorV::State("Not recording"@),
            r matches Ok(clip) ==> {
                &&& clip.data@ == captured@
                &&& clip.file_name@ == spec_clip_file_name(timestamp_secs as nat)
                &&& clip.timestamp_secs == timestamp_secs
            },
            final(self).spec_mode() == old(self).spec_mode(),
            final(self).spec_openai_key() == old(self).spec_openai_key(),
            final(self).spec_gemini_key() == old(self).spec_gemini_key(),
    {
        self.session.stop(captured, timestamp_secs)
    }

    /// Close the capture cycle, naming the clip after the wall clock at the
    /// moment of the call.
    pub fn stop_recording(&mut self, captured: Vec<u8>) -> (r: Result<AudioClip, SttError>)
        ensures
            final(self).spec_state() == spec_session_step(
                old(self).spec_state(),
                SessionOp::Stop,
            ).0,
            (r is Ok) == spec_session_step(old(self).spec_state(), SessionOp::Stop).1,
            r matches Err(e) ==> e@ == SttErrorV::State("Not recording"@),
            r matches Ok(clip) ==> clip.data@ == captured@ && clip.file_name@
                == spec_clip_file_name(clip.timestamp_secs as nat),
            final(self).spec_mode() == old(self).spec_mode(),
            final(self).spec_openai_key() == old(self).spec_openai_key(),
            final(self).spec_gemini_key() == old(self).spec_gemini_key(),
    {
        let ts = now_unix_secs();
        self.stop_recording_at(captured, ts)
    }

    /// Resolve this service's configured mode with the probe's live answer —
    /// fresh on every transcription call, never cached.
    pub fn resolve_mode(&self, online: bool) -> (r: EffectiveMode)
        ensures
            r == spec_resolve(self.spec_mode(), online),
    {
        resolve(self.mode, online)
    }

    /// Choose the backend for one transcription call: the configured mode
    /// resolved with the first probe, and — when that lands Offline — the
    /// offline backend's own second, independent probe.
    pub fn choose_backend(&self, auto_probe_online: bool, offline_probe_online: bool) -> (r:
        BackendKind)
        ensures
            r == spec_select_backend(
                spec_resolve(self.spec_mode(), auto_probe_online),
                offline_probe_online,
            ),
    {
        let effective = self.resolve_mode(auto_probe_online);
        select_backend(effective, offline_probe_online)
    }

    /// The outgoing half of a streaming session for a clip, under this
    /// service's credential.
    pub fn stream_plan_for(&self, clip: &AudioClip) -> (p: StreamPlan)
        requires
            base64_fits(clip.data@.len()),
        ensures
            p.url@ == crate::stream::spec_streaming_url(self.spec_gemini_key()),
            p.config_message@ == crate::stream::spec_config_message(),
            p.turn_message@ == crate::stream::spec_turn_message(clip.data@),
            p.deadline_secs == crate::stream::STREAM_DEADLINE_SECS,
    {
        build_stream_plan(&self.gemini_api_key, clip)
    }

    /// The REST upload for a clip, under this service's credential. Consumes
    /// the clip.
    pub fn rest_request_for(&self, clip: AudioClip) -> (r: RestRequest)
        ensures
            r.url@ == crate::rest::spec_rest_endpoint(),
            r.api_key@ == self.spec_openai_key(),
            r.file_name@ == clip.file_name@,
            r.mime_type@ == "audio/wav"@,
            r.model@ == "whisper-1"@,
            r.language@ == "en"@,
            r.file_bytes@ == clip.data@,
    {
        build_rest_request(&self.openai_api_key, clip)
    }
}

/// The offline backend's policy: with connectivity it delegates to, and
/// returns exactly, the REST fallback's outcome; without connectivity it
/// returns the local path's product unchanged, and no REST outcome enters
/// the completion at all.
pub proof fn lemma_offline_policy(status: int, body: Seq<char>, local: TranscriptionResultV)
    ensures
        spec_select_backend(EffectiveMode::Offline, true) == BackendKind::RestFallback,
        spec_select_backend(EffectiveMode::Offline, false) == BackendKind::LocalEngine,
        spec_finish(BackendOutcomeV::Rested(status, body)) == spec_rest_outcome(status, body),
        spec_finish(BackendOutcomeV::Local(local)) == Ok::<TranscriptionResultV, SttErrorV>(local),
{
}

/// In Automatic mode with both probes reporting offline, the local path's
/// product is returned unchanged.
pub proof fn lemma_automatic_offline_local(local: TranscriptionResultV)
    ensures
        spec_select_backend(spec_resolve(SttMode::Auto, false), false) == BackendKind::LocalEngine,
        spec_finish(BackendOutcomeV::Local(local)) == Ok::<TranscriptionResultV, SttErrorV>(local),
{
}

} // verus!
