//! The streaming online backend: the duplex wire protocol and the timed
//! receive loop's decision logic.
//!
//! One session sends a fixed configuration message, then exactly one turn
//! carrying the whole clip (binary-safe encoded), and then collects text
//! fragments until a terminal frame or the deadline — whichever first. The
//! host performs the connecting, sending, receiving and closing; the verified
//! core builds every outgoing byte ([`build_stream_plan`]) and decides the
//! outcome of every incoming one ([`StreamCollector`], [`run_stream`]).

use vstd::prelude::*;
use crate::errors::{SttError, SttErrorV};
use crate::recording::AudioClip;
use crate::speech::{outcome_view, TranscriptionResult, TranscriptionResultV};
use crate::wire::{parse_server_message, spec_message_error, spec_message_text};

verus! {

/// The receive deadline of a streaming session, in seconds.
pub const STREAM_DEADLINE_SECS: u64 = 10;

/// What `base64::encode` returns for the given bytes: standard alphabet,
/// padded. Named, not spelled out; a function of the bytes alone.
pub uninterp spec fn base64_of(bytes: Seq<u8>) -> Seq<char>;

/// Membership in the standard base64 output alphabet (with padding).
pub open spec fn is_base64_char(c: char) -> bool {
    (65 <= c as u32 && c as u32 <= 90)  // 'A'..='Z'
    || (97 <= c as u32 && c as u32 <= 122)  // 'a'..='z'
    || (48 <= c as u32 && c as u32 <= 57)  // '0'..='9'
    || c == '+' || c == '/' || c == '='
}

/// Whether the padded base64 encoding of `n` bytes fits in memory: its exact
/// length is four characters per started triple.
pub open spec fn base64_fits(n: nat) -> bool {
    4 * ((n + 2) / 3) <= usize::MAX
}

/// Relies on `base64::encode`: standard-alphabet, padded encoding whose
/// result is a function of the input bytes alone, four characters per started
/// input triple, all from the base64 alphabet.
#[verifier::external_body]
fn base64_encode(bytes: &Vec<u8>) -> (r: String)
    requires
        base64_fits(bytes@.len()),
    ensures
        r@ == base64_of(bytes@),
        r@.len() == 4 * ((bytes@.len() + 2) / 3),
        forall|i: int| 0 <= i < r@.len() ==> is_base64_char(r@[i]),
{
    base64::encode(bytes)
}

/// The configuration message of a streaming session: response modality TEXT
/// and the fixed instruction priming the remote model for transcription.
pub open spec fn spec_config_message() -> Seq<char> {
    "{\"config\":{\"response_modalities\":[\"TEXT\"],\"system_instruction\":{\"parts\":[{\"text\":\"You are a speech-to-text transcription service. Transcribe the audio accurately.\"}]}}}"@
}

/// Build the configuration message.
pub fn config_message() -> (r: String)
    ensures
        r@ == spec_config_message(),
{
    String::from_str(
        "{\"config\":{\"response_modalities\":[\"TEXT\"],\"system_instruction\":{\"parts\":[{\"text\":\"You are a speech-to-text transcription service. Transcribe the audio accurately.\"}]}}}",
    )
}

/// Everything of the turn message before the encoded audio.
pub open spec fn spec_turn_prefix() -> Seq<char> {
    "{\"clientContent\":{\"turns\":[{\"role\":\"user\",\"parts\":[{\"inline_data\":{\"mime_type\":\"audio/wav\",\"data\":\""@
}

/// Everything of the turn message after the encoded audio, marking the turn
/// complete.
pub open spec fn spec_turn_suffix() -> Seq<char> {
    "\"}}]}],\"turnComplete\":true}}"@
}

/// The single turn message of a session: the whole clip, binary-safe
/// encoded, marked complete. Exactly one turn is sent per clip.
pub open spec fn spec_turn_message(audio: Seq<u8>) -> Seq<char> {
    spec_turn_prefix() + base64_of(audio) + spec_turn_suffix()
}

/// Build the turn message for the clip's bytes.
pub fn turn_message(audio: &Vec<u8>) -> (r: String)
    requires
        base64_fits(audio@.len()),
    ensures
        r@ == spec_turn_message(audio@),
{
    let mut s = String::from_str(
        "{\"clientContent\":{\"turns\":[{\"role\":\"user\",\"parts\":[{\"inline_data\":{\"mime_type\":\"audio/wav\",\"data\":\"",
    );
    let encoded = base64_encode(audio);
    s.append(encoded.as_str());
    s.append("\"}}]}],\"turnComplete\":true}}");
    proof {
        assert(s@ =~= spec_turn_message(audio@));
    }
    s
}

/// The streaming endpoint with the credential appended.
pub open spec fn spec_streaming_url(key: Seq<char>) -> Seq<char> {
    "wss://generativelanguage.googleapis.com/v1beta/models/gemini-2.0-flash-live-001:streamGenerateContent?key="@
        + key
}

/// Build the streaming endpoint URL for the given credential.
pub fn streaming_url(api_key: &String) -> (r: String)
    ensures
        r@ == spec_streaming_url(api_key@),
{
    let mut s = String::from_str(
        "wss://generativelanguage.googleapis.com/v1beta/models/gemini-2.0-flash-live-001:streamGenerateContent?key=",
    );
    s.append(api_key.as_str());
    s
}

/// Everything the host needs to run one streaming session: where to connect,
/// the two messages to send in order, and the receive deadline.
pub struct StreamPlan {
    pub url: String,
    pub config_message: String,
    pub turn_message: String,
    pub deadline_secs: u64,
}

/// Assemble the whole outgoing half of a streaming session for a clip.
pub fn build_stream_plan(api_key: &String, clip: &AudioClip) -> (p: StreamPlan)
    requires
        base64_fits(clip.data@.len()),
    ensures
        p.url@ == spec_streaming_url(api_key@),
        p.config_message@ == spec_config_message(),
        p.turn_message@ == spec_turn_message(clip.data@),
        p.deadline_secs == STREAM_DEADLINE_SECS,
{
    StreamPlan {
        url: streaming_url(api_key),
        config_message: config_message(),
        turn_message: turn_message(&clip.data),
        deadline_secs: STREAM_DEADLINE_SECS,
    }
}

/// Mathematical view of a [`StreamEvent`].
pub enum StreamEventV {
    Text(Seq<char>),
    Close,
    Transport(Seq<char>),
    Other,
}

/// One observation of the receive loop, as the host hands it in.
pub enum StreamEvent {
    /// A text frame with a message body.
    Text(String),
    /// A close frame; terminal.
    Close,
    /// A transport-level failure, with its description; terminal.
    Transport(String),
    /// Any other frame (binary, ping, pong); ignored.
    Other,
}

impl View for StreamEvent {
    type V = StreamEventV;

    open spec fn view(&self) -> StreamEventV {
        match self {
            StreamEvent::Text(s) => StreamEventV::Text(s@),
            StreamEvent::Close => StreamEventV::Close,
            StreamEvent::Transport(s) => StreamEventV::Transport(s@),
            StreamEvent::Other => StreamEventV::Other,
        }
    }
}

/// A sequence of events viewed mathematically.
pub open spec fn spec_events_view(events: Seq<StreamEvent>) -> Seq<StreamEventV> {
    events.map_values(|e: StreamEvent| e@)
}

/// Detail of the error reported when a message carries an `error` field.
pub open spec fn spec_protocol_error_msg(detail: Seq<char>) -> Seq<char> {
    "Gemini Live API error: "@ + detail
}

/// Detail of the error reported on a transport failure.
pub open spec fn spec_transport_error_msg(detail: Seq<char>) -> Seq<char> {
    "WebSocket error: "@ + detail
}

/// Detail of the error reported when the session closes with nothing
/// accumulated.
pub open spec fn spec_no_transcription_msg() -> Seq<char> {
    "no transcription produced"@
}

/// Detail of the error reported when the deadline passes without a terminal
/// message.
pub open spec fn spec_deadline_msg() -> Seq<char> {
    "no terminal message within the deadline"@
}

/// The text fragment a message contributes: its `text` field, or nothing.
pub open spec fn spec_frag(s: Seq<char>) -> Seq<char> {
    match spec_message_text(s) {
        Some(t) => t,
        None => Seq::empty(),
    }
}

/// The outcome when the session ends cleanly with `acc` accumulated: an empty
/// accumulation is a protocol failure, never an empty success.
pub open spec fn spec_close_outcome(acc: Seq<char>) -> Result<TranscriptionResultV, SttErrorV> {
    if acc.len() == 0 {
        Err(SttErrorV::Protocol(spec_no_transcription_msg()))
    } else {
        Ok(TranscriptionResultV { text: acc, language: "en"@ })
    }
}

/// The outcome of the receive loop from accumulation `acc` over the events
/// still to come. `deadline_hit` records whether the loop stopped consuming
/// because the deadline elapsed (rather than because the stream ended).
pub open spec fn spec_collect(
    acc: Seq<char>,
    events: Seq<StreamEventV>,
    deadline_hit: bool,
) -> Result<TranscriptionResultV, SttErrorV>
    decreases events.len(),
{
    if events.len() == 0 {
        if deadline_hit {
            Err(SttErrorV::Timeout(spec_deadline_msg()))
        } else {
            spec_close_outcome(acc)
        }
    } else {
        match events.first() {
            StreamEventV::Text(s) => match spec_message_error(s) {
                Some(e) => Err(SttErrorV::Protocol(spec_protocol_error_msg(e))),
                None => spec_collect(acc + spec_frag(s), events.drop_first(), deadline_hit),
            },
            StreamEventV::Close => spec_close_outcome(acc),
            StreamEventV::Transport(e) => Err(SttErrorV::Connection(spec_transport_error_msg(e))),
            StreamEventV::Other => spec_collect(acc, events.drop_first(), deadline_hit),
        }
    }
}

/// The incremental accumulator behind the receive loop: the host feeds each
/// observation in as it arrives and stops at the first terminal outcome.
pub struct StreamCollector {
    acc: String,
}

impl StreamCollector {
    /// The text fragments accumulated so far, in arrival order.
    pub closed spec fn spec_acc(&self) -> Seq<char> {
        self.acc@
    }

    /// A collector with nothing accumulated.
    pub fn new() -> (c: Self)
        ensures
            c.spec_acc() == Seq::<char>::empty(),
    {
        StreamCollector { acc: String::new() }
    }

    /// The outcome were the session to end cleanly now.
    pub fn close_outcome(&self) -> (r: Result<TranscriptionResult, SttError>)
        ensures
            outcome_view(r) == spec_close_outcome(self.spec_acc()),
    {
        if self.acc.as_str().is_empty() {
            Err(SttError::ProtocolError(String::from_str("no transcription produced")))
        } else {
            Ok(TranscriptionResult { text: self.acc.clone(), language: String::from_str("en") })
        }
    }

    /// The outcome when the deadline has elapsed without a terminal message:
    /// a timeout, never a hang, even with fragments accumulated.
    pub fn deadline_outcome(&self) -> (r: Result<TranscriptionResult, SttError>)
        ensures
            outcome_view(r) == Err::<TranscriptionResultV, SttErrorV>(
                SttErrorV::Timeout(spec_deadline_msg()),
            ),
    {
        Err(SttError::TimeoutError(String::from_str("no terminal message within the deadline")))
    }

    /// Feed one observation. `None` means the session continues; `Some` is
    /// the terminal outcome, after which the collector is done. The step
    /// follows [`spec_collect`] exactly: an error field is terminal and
    /// authoritative and discards the accumulation, a close frame yields the
    /// accumulation (or a protocol failure if it is empty), a transport
    /// failure is terminal, and any other frame changes nothing.
    pub fn on_event(&mut self, ev: &StreamEvent) -> (step: Option<
        Result<TranscriptionResult, SttError>,
    >)
        ensures
            match ev@ {
                StreamEventV::Text(s) => match spec_message_error(s) {
                    Some(e) => step matches Some(r) && outcome_view(r) == Err::<
                        TranscriptionResultV,
                        SttErrorV,
                    >(SttErrorV::Protocol(spec_protocol_error_msg(e))),
                    None => step is None && final(self).spec_acc() == old(self).spec_acc()
                        + spec_frag(s),
                },
                StreamEventV::Close => step matches Some(r) && outcome_view(r)
                    == spec_close_outcome(old(self).spec_acc()),
                StreamEventV::Transport(e) => step matches Some(r) && outcome_view(r) == Err::<
                    TranscriptionResultV,
                    SttErrorV,
                >(SttErrorV::Connection(spec_transport_error_msg(e))),
                StreamEventV::Other => step is None && *final(self) == *old(self),
            },
    {
        match ev {
            StreamEvent::Text(body) => {
                let msg = parse_server_message(body.as_str());
                match msg.error {
                    Some(e) => {
                        let mut detail = String::from_str("Gemini Live API error: ");
                        detail.append(e.as_str());
                        Some(Err(SttError::ProtocolError(detail)))
                    },
                    None => {
                        match msg.text {
                            Some(t) => {
                                self.acc.append(t.as_str());
                            },
                            None => {
                                proof {
                                    assert(self.acc@ =~= old(self).spec_acc() + spec_frag(body@));
                                }
                            },
                        }
                        None
                    },
                }
            },
            StreamEvent::Close => Some(self.close_outcome()),
            StreamEvent::Transport(e) => {
                let mut detail = String::from_str("WebSocket error: ");
                detail.append(e.as_str());
                Some(Err(SttError::ConnectionError(detail)))
            },
            StreamEvent::Other => None,
        }
    }
}

/// Drive a collector over a whole recorded observation sequence, as the host
/// does frame by frame. The result is exactly [`spec_collect`] from an empty
/// accumulation.
pub fn run_stream(events: &Vec<StreamEvent>, deadline_hit: bool) -> (r: Result<
    TranscriptionResult,
    SttError,
>)
    ensures
        outcome_view(r) == spec_collect(Seq::empty(), spec_events_view(events@), deadline_hit),
{
    let whole: Ghost<Seq<StreamEventV>> = Ghost(spec_events_view(events@));
    let mut col = StreamCollector::new();
    let mut idx: usize = 0;
    proof {
        assert(whole@.skip(0) =~= whole@);
    }
    loop
        invariant
            idx <= events@.len(),
            whole@ == spec_events_view(events@),
            spec_collect(Seq::empty(), whole@, deadline_hit) == spec_collect(
                col.spec_acc(),
                whole@.skip(idx as int),
                deadline_hit,
            ),
        decreases events@.len() - idx,
    {
        if idx >= events.len() {
            proof {
                assert(whole@.skip(idx as int) =~= Seq::<StreamEventV>::empty());
            }
            if deadline_hit {
                return col.deadline_outcome();
            } else {
                return col.close_outcome();
            }
        }
        let ev = &events[idx];
        proof {
            assert(whole@.skip(idx as int).first() == ev@);
            assert(whole@.skip(idx as int).drop_first() =~= whole@.skip(idx as int + 1));
        }
        let step = col.on_event(ev);
        match step {
            Some(r) => {
                return r;
            },
            None => {
                idx = idx + 1;
            },
        }
    }
}

/// No event bears an error field or a transport failure.
pub open spec fn spec_clean(events: Seq<StreamEventV>) -> bool {
    forall|k: int|
        0 <= k < events.len() ==> match #[trigger] events[k] {
            StreamEventV::Text(s) => spec_message_error(s) is None,
            StreamEventV::Close => true,
            StreamEventV::Transport(_) => false,
            StreamEventV::Other => true,
        }
}

/// Some event is a close frame.
pub open spec fn spec_has_close(events: Seq<StreamEventV>) -> bool {
    exists|k: int| 0 <= k < events.len() && #[trigger] events[k] is Close
}

/// The concatenation of the text fragments of the messages, in arrival
/// order, up to the first terminal frame.
pub open spec fn spec_fragments(events: Seq<StreamEventV>) -> Seq<char>
    decreases events.len(),
{
    if events.len() == 0 {
        Seq::empty()
    } else {
        match events.first() {
            StreamEventV::Text(s) => spec_frag(s) + spec_fragments(events.drop_first()),
            StreamEventV::Close => Seq::empty(),
            StreamEventV::Transport(_) => Seq::empty(),
            StreamEventV::Other => spec_fragments(events.drop_first()),
        }
    }
}

/// When every received message lacks an error field and the transport holds,
/// the session's outcome is decided by the fragments alone: the returned text
/// is their concatenation in arrival order (a protocol failure if that is
/// empty) — unless no terminal frame arrived and the deadline was hit, in
/// which case the outcome is a timeout, fragments or not.
pub proof fn lemma_collect_clean(acc: Seq<char>, events: Seq<StreamEventV>, deadline_hit: bool)
    requires
        spec_clean(events),
    ensures
        (spec_has_close(events) || !deadline_hit) ==> spec_collect(acc, events, deadline_hit)
            == spec_close_outcome(acc + spec_fragments(events)),
        (!spec_has_close(events) && deadline_hit) ==> spec_collect(acc, events, deadline_hit)
            == Err::<TranscriptionResultV, SttErrorV>(SttErrorV::Timeout(spec_deadline_msg())),
    decreases events.len(),
{
    if events.len() == 0 {
        assert(acc + spec_fragments(events) =~= acc);
    } else {
        let rest = events.drop_first();
        assert(spec_clean(rest)) by {
            assert(forall|k: int| 0 <= k < rest.len() ==> rest[k] == events[k + 1]);
        }
        match events.first() {
            StreamEventV::Text(s) => {
                assert(spec_message_error(s) is None);
                lemma_collect_clean(acc + spec_frag(s), rest, deadline_hit);
                assert((acc + spec_frag(s)) + spec_fragments(rest) =~= acc + spec_fragments(
                    events,
                ));
                if spec_has_close(events) {
                    let k = choose|k: int|
                        0 <= k < events.len() && #[trigger] events[k] is Close;
                    assert(rest[k - 1] is Close);
                    assert(spec_has_close(rest));
                }
                if spec_has_close(rest) {
                    let k = choose|k: int| 0 <= k < rest.len() && #[trigger] rest[k] is Close;
                    assert(events[k + 1] is Close);
                    assert(spec_has_close(events));
                }
            },
            StreamEventV::Close => {
                assert(spec_fragments(events) =~= Seq::<char>::empty());
                assert(acc + spec_fragments(events) =~= acc);
                assert(events[0] is Close);
            },
            StreamEventV::Transport(_) => {
                assert(false);
            },
            StreamEventV::Other => {
                lemma_collect_clean(acc, rest, deadline_hit);
                if spec_has_close(events) {
                    let k = choose|k: int|
                        0 <= k < events.len() && #[trigger] events[k] is Close;
                    assert(rest[k - 1] is Close);
                }
                if spec_has_close(rest) {
                    let k = choose|k: int| 0 <= k < rest.len() && #[trigger] rest[k] is Close;
                    assert(events[k + 1] is Close);
                }
            },
        }
    }
}

/// An error field anywhere aborts the session with exactly that protocol
/// error, discarding every fragment accumulated before it: the outcome does
/// not depend on the accumulation at all.
pub proof fn lemma_collect_error_aborts(
    acc: Seq<char>,
    events: Seq<StreamEventV>,
    deadline_hit: bool,
    k: int,
    s: Seq<char>,
)
    requires
        0 <= k < events.len(),
        events[k] == StreamEventV::Text(s),
        spec_message_error(s) is Some,
        forall|j: int|
            0 <= j < k ==> match #[trigger] events[j] {
                StreamEventV::Text(m) => spec_message_error(m) is None,
                StreamEventV::Close => false,
                StreamEventV::Transport(_) => false,
                StreamEventV::Other => true,
            },
    ensures
        spec_collect(acc, events, deadline_hit) == Err::<TranscriptionResultV, SttErrorV>(
            SttErrorV::Protocol(spec_protocol_error_msg(spec_message_error(s)->Some_0)),
        ),
    decreases k,
{
    if k == 0 {
    } else {
        let rest = events.drop_first();
        assert(forall|j: int| 0 <= j < rest.len() ==> rest[j] == events[j + 1]);
        match events.first() {
            StreamEventV::Text(m) => {
                assert(spec_message_error(m) is None);
                lemma_collect_error_aborts(acc + spec_frag(m), rest, deadline_hit, k - 1, s);
            },
            StreamEventV::Other => {
                lemma_collect_error_aborts(acc, rest, deadline_hit, k - 1, s);
            },
            StreamEventV::Close => {
                assert(false);
            },
            StreamEventV::Transport(_) => {
                assert(false);
            },
        }
    }
}

/// If no terminal message arrives — no close frame, no transport failure, no
/// error field — and the deadline is hit, the outcome is a timeout, even with
/// partial fragments accumulated.
pub proof fn lemma_collect_deadline(acc: Seq<char>, events: Seq<StreamEventV>)
    requires
        spec_clean(events),
        !spec_has_close(events),
    ensures
        spec_collect(acc, events, true) == Err::<TranscriptionResultV, SttErrorV>(
            SttErrorV::Timeout(spec_deadline_msg()),
        ),
{
    lemma_collect_clean(acc, events, true);
}

} // verus!
