//! The REST fallback backend: a single-shot multipart upload of the clip
//! with fixed parameters, and the interpretation of the endpoint's response.
//!
//! The host performs the HTTP transfer; the verified core fixes every field
//! of the request ([`build_rest_request`]) and decides the outcome of every
//! response ([`interpret_rest_response`]).

use vstd::prelude::*;
use crate::errors::{SttError, SttErrorV};
use crate::recording::AudioClip;
use crate::speech::{outcome_view, TranscriptionResult, TranscriptionResultV};
use crate::wire::{find_field, parse_object, spec_message_text};

verus! {

/// The remote transcription endpoint.
pub open spec fn spec_rest_endpoint() -> Seq<char> {
    "https://api.openai.com/v1/audio/transcriptions"@
}

/// One fully determined upload: the endpoint, the bearer credential, and the
/// multipart fields `file` (the clip's bytes under its file name), `model`
/// and `language`.
pub struct RestRequest {
    pub url: String,
    pub api_key: String,
    pub file_name: String,
    pub mime_type: String,
    pub model: String,
    pub language: String,
    pub file_bytes: Vec<u8>,
}

/// Assemble the upload for a clip: the clip's bytes and name, the fixed
/// model identifier and language hint. The clip is consumed — ownership
/// passes from the session to the backend and the core never touches it
/// again.
pub fn build_rest_request(api_key: &String, clip: AudioClip) -> (r: RestRequest)
    ensures
        r.url@ == spec_rest_endpoint(),
        r.api_key@ == api_key@,
        r.file_name@ == clip.file_name@,
        r.mime_type@ == "audio/wav"@,
        r.model@ == "whisper-1"@,
        r.language@ == "en"@,
        r.file_bytes@ == clip.data@,
{
    RestRequest {
        url: String::from_str("https://api.openai.com/v1/audio/transcriptions"),
        api_key: api_key.clone(),
        file_name: clip.file_name,
        mime_type: String::from_str("audio/wav"),
        model: String::from_str("whisper-1"),
        language: String::from_str("en"),
        file_bytes: clip.data,
    }
}

/// The outcome the core returns for each possible response: a non-2xx status
/// is a connection failure carrying the response body; a 2xx body inside the
/// wire shape with a `text` field is the transcription (language fixed to
/// the hint); a 2xx body outside it is a protocol failure.
pub open spec fn spec_rest_outcome(status: int, body: Seq<char>) -> Result<
    TranscriptionResultV,
    SttErrorV,
> {
    if status < 200 || status >= 300 {
        Err(SttErrorV::Connection("Whisper API error: "@ + body))
    } else {
        match spec_message_text(body) {
            Some(t) => Ok(TranscriptionResultV { text: t, language: "en"@ }),
            None => Err(SttErrorV::Protocol("Failed to parse Whisper API response"@)),
        }
    }
}

/// Interpret the endpoint's HTTP status and response body.
pub fn interpret_rest_response(status: u16, body: &String) -> (r: Result<
    TranscriptionResult,
    SttError,
>)
    ensures
        outcome_view(r) == spec_rest_outcome(status as int, body@),
{
    if status < 200 || status >= 300 {
        let mut m = String::from_str("Whisper API error: ");
        m.append(body.as_str());
        Err(SttError::ConnectionError(m))
    } else {
        match parse_object(body.as_str()) {
            None => Err(
                SttError::ProtocolError(String::from_str("Failed to parse Whisper API response")),
            ),
            Some(mems) => match find_field(&mems, &String::from_str("text")) {
                Some(t) => Ok(
                    TranscriptionResult { text: t, language: String::from_str("en") },
                ),
                None => Err(
                    SttError::ProtocolError(
                        String::from_str("Failed to parse Whisper API response"),
                    ),
                ),
            },
        }
    }
}

} // verus!
