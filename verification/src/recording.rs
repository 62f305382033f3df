//! The recording session: a guarded state machine over Idle and Recording
//! that materializes one captured audio buffer per start/stop cycle.
//!
//! The real capture mechanism belongs to the host; the session guarantees the
//! state transitions and the ownership and naming of the eventual buffer. The
//! host keeps the session behind its own mutual-exclusion guard and holds that
//! guard only for the instant of each call, never across I/O.

use vstd::prelude::*;
use crate::errors::{SttError, SttErrorV};

verus! {

/// The two phases of a recording session.
#[derive(Clone, Copy, PartialEq, Eq, Structural, Debug)]
pub enum RecordingState {
    Idle,
    Recording,
}

/// One requested operation on a recording session.
#[derive(Clone, Copy, PartialEq, Eq, Structural, Debug)]
pub enum SessionOp {
    Start,
    Stop,
}

/// A single captured audio buffer produced by one start/stop cycle.
///
/// The clip owns its bytes; `file_name` is the timestamp-derived name under
/// which the host stores the bytes in its process-scoped temp directory; the
/// core never touches the clip again once transcription is issued.
pub struct AudioClip {
    pub data: Vec<u8>,
    pub file_name: String,
    pub timestamp_secs: u64,
}

impl AudioClip {
    /// A clip assembled from previously saved audio, for transcribing without
    /// a live recording.
    pub fn new(data: Vec<u8>, file_name: String, timestamp_secs: u64) -> (c: Self)
        ensures
            c.data@ == data@,
            c.file_name@ == file_name@,
            c.timestamp_secs == timestamp_secs,
    {
        AudioClip { data, file_name, timestamp_secs }
    }
}

/// The decimal digit `d` as a character.
pub open spec fn digit_char(d: int) -> char {
    if d == 0 {
        '0'
    } else if d == 1 {
        '1'
    } else if d == 2 {
        '2'
    } else if d == 3 {
        '3'
    } else if d == 4 {
        '4'
    } else if d == 5 {
        '5'
    } else if d == 6 {
        '6'
    } else if d == 7 {
        '7'
    } else if d == 8 {
        '8'
    } else {
        '9'
    }
}

/// The decimal digits of `n`, most significant first, without leading zeros
/// (a single `'0'` for zero itself).
pub open spec fn spec_decimal(n: nat) -> Seq<char>
    decreases n,
{
    if n < 10 {
        seq![digit_char(n as int)]
    } else {
        spec_decimal(n / 10) + seq![digit_char((n % 10) as int)]
    }
}

fn digit_str(d: u64) -> (r: &'static str)
    requires
        d < 10,
    ensures
        r@ == seq![digit_char(d as int)],
{
    proof {
        reveal_strlit("0");
        reveal_strlit("1");
        reveal_strlit("2");
        reveal_strlit("3");
        reveal_strlit("4");
        reveal_strlit("5");
        reveal_strlit("6");
        reveal_strlit("7");
        reveal_strlit("8");
        reveal_strlit("9");
    }
    match d {
        0 => "0",
        1 => "1",
        2 => "2",
        3 => "3",
        4 => "4",
        5 => "5",
        6 => "6",
        7 => "7",
        8 => "8",
        _ => "9",
    }
}

/// Render `n` in decimal.
pub fn u64_to_decimal(n: u64) -> (r: String)
    ensures
        r@ == spec_decimal(n as nat),
    decreases n,
{
    if n < 10 {
        String::from_str(digit_str(n))
    } else {
        let prefix = u64_to_decimal(n / 10);
        let r = prefix.concat(digit_str(n % 10));
        proof {
            assert(r@ =~= spec_decimal(n as nat));
        }
        r
    }
}

/// The name under which a clip captured at `ts` (seconds since the Unix
/// epoch) is stored.
pub open spec fn spec_clip_file_name(ts: nat) -> Seq<char> {
    "recording_"@ + spec_decimal(ts) + ".wav"@
}

/// Derive the timestamp-based file name for a clip.
pub fn clip_file_name(timestamp_secs: u64) -> (r: String)
    ensures
        r@ == spec_clip_file_name(timestamp_secs as nat),
{
    let mut s = String::from_str("recording_");
    let digits = u64_to_decimal(timestamp_secs);
    s.append(digits.as_str());
    s.append(".wav");
    proof {
        assert(s@ =~= spec_clip_file_name(timestamp_secs as nat));
    }
    s
}

proof fn lemma_decimal_len(n: nat)
    ensures
        spec_decimal(n).len() >= 1,
    decreases n,
{
    if n >= 10 {
        lemma_decimal_len(n / 10);
    }
}

/// Distinct values have distinct decimal renderings.
pub proof fn lemma_decimal_injective(m: nat, n: nat)
    requires
        spec_decimal(m) == spec_decimal(n),
    ensures
        m == n,
    decreases m,
{
    lemma_decimal_len(m);
    lemma_decimal_len(n);
    if m < 10 && n < 10 {
        assert(spec_decimal(m)[0] == digit_char(m as int));
        assert(spec_decimal(n)[0] == digit_char(n as int));
    } else if m < 10 {
        assert(spec_decimal(n).len() == spec_decimal(n / 10).len() + 1);
        assert(false);
    } else if n < 10 {
        assert(spec_decimal(m).len() == spec_decimal(m / 10).len() + 1);
        assert(false);
    } else {
        let a = spec_decimal(m / 10);
        let b = spec_decimal(n / 10);
        assert(spec_decimal(m).last() == digit_char((m % 10) as int));
        assert(spec_decimal(n).last() == digit_char((n % 10) as int));
        assert(m % 10 == n % 10);
        assert(a =~= spec_decimal(m).drop_last());
        assert(b =~= spec_decimal(n).drop_last());
        lemma_decimal_injective(m / 10, n / 10);
    }
}

/// Clips captured at different timestamps never collide on storage: their
/// derived file names differ.
pub proof fn lemma_clip_names_unique(a: nat, b: nat)
    requires
        a != b,
    ensures
        spec_clip_file_name(a) != spec_clip_file_name(b),
{
    reveal_strlit("recording_");
    reveal_strlit(".wav");
    let da = spec_decimal(a);
    let db = spec_decimal(b);
    let p = "recording_"@;
    let s = ".wav"@;
    if spec_clip_file_name(a) == spec_clip_file_name(b) {
        assert(spec_clip_file_name(a).len() == p.len() + da.len() + s.len());
        assert(spec_clip_file_name(b).len() == p.len() + db.len() + s.len());
        assert(da.len() == db.len());
        assert forall|i: int| 0 <= i < da.len() implies da[i] == db[i] by {
            assert(da[i] == spec_clip_file_name(a)[p.len() + i]);
            assert(db[i] == spec_clip_file_name(b)[p.len() + i]);
        }
        assert(da =~= db);
        lemma_decimal_injective(a, b);
    }
}

/// The transition of one session operation: next state, and whether the
/// operation succeeds. A failed operation leaves the state unchanged.
pub open spec fn spec_session_step(st: RecordingState, op: SessionOp) -> (RecordingState, bool) {
    match op {
        SessionOp::Start => if st == RecordingState::Idle {
            (RecordingState::Recording, true)
        } else {
            (st, false)
        },
        SessionOp::Stop => if st == RecordingState::Recording {
            (RecordingState::Idle, true)
        } else {
            (st, false)
        },
    }
}

/// The state after running a whole sequence of operations from `st`.
pub open spec fn spec_session_run(st: RecordingState, ops: Seq<SessionOp>) -> RecordingState
    decreases ops.len(),
{
    if ops.len() == 0 {
        st
    } else {
        spec_session_run(spec_session_step(st, ops.first()).0, ops.drop_first())
    }
}

/// The successful operations of a trace, in order.
pub open spec fn spec_session_successes(st: RecordingState, ops: Seq<SessionOp>) -> Seq<SessionOp>
    decreases ops.len(),
{
    if ops.len() == 0 {
        Seq::empty()
    } else {
        let step = spec_session_step(st, ops.first());
        let rest = spec_session_successes(step.0, ops.drop_first());
        if step.1 {
            seq![ops.first()] + rest
        } else {
            rest
        }
    }
}

/// For every sequence of start/stop calls, the state alternates strictly
/// Idle → Recording → Idle: the successful calls alternate between Start and
/// Stop (beginning with Start when the trace begins Idle), every out-of-order
/// call fails and leaves the state unchanged (built into
/// [`spec_session_step`]), and the final state is Recording exactly when an
/// odd number of calls from an Idle origin has succeeded.
pub proof fn lemma_session_alternation(st: RecordingState, ops: Seq<SessionOp>)
    ensures
        ({
            let succ = spec_session_successes(st, ops);
            let base: int = if st == RecordingState::Idle { 0int } else { 1int };
            &&& forall|k: int|
                0 <= k < succ.len() ==> ((succ[k] == SessionOp::Start) <==> (k + base) % 2 == 0)
            &&& spec_session_run(st, ops) == (if (base + succ.len()) % 2 == 0 {
                RecordingState::Idle
            } else {
                RecordingState::Recording
            })
        }),
    decreases ops.len(),
{
    let succ = spec_session_successes(st, ops);
    let base: int = if st == RecordingState::Idle { 0int } else { 1int };
    if ops.len() == 0 {
    } else {
        let step = spec_session_step(st, ops.first());
        let st2 = step.0;
        let rest = spec_session_successes(st2, ops.drop_first());
        let base2: int = if st2 == RecordingState::Idle { 0int } else { 1int };
        lemma_session_alternation(st2, ops.drop_first());
        if step.1 {
            assert(succ == seq![ops.first()] + rest);
            assert(base2 == 1 - base);
            assert forall|k: int| 0 <= k < succ.len() implies
                ((succ[k] == SessionOp::Start) <==> (k + base) % 2 == 0) by {
                if k == 0 {
                    assert(succ[0] == ops.first());
                } else {
                    assert(succ[k] == rest[k - 1]);
                    assert((k - 1 + base2) % 2 == (k + base) % 2);
                }
            }
        } else {
            assert(succ == rest);
            assert(st2 == st);
        }
    }
}

/// A guarded state machine tracking whether audio is being captured.
///
/// Exactly one session exists per service; the host wraps it in an exclusive
/// lock, so only one caller observes and flips the state at a time.
pub struct RecordingSession {
    state: RecordingState,
}

impl RecordingSession {
    /// The current phase of the session.
    pub closed spec fn spec_state(&self) -> RecordingState {
        self.state
    }

    /// A fresh session, idle and restartable.
    pub fn new() -> (s: Self)
        ensures
            s.spec_state() == RecordingState::Idle,
    {
        RecordingSession { state: RecordingState::Idle }
    }

    /// Whether a capture cycle is open.
    pub fn is_recording(&self) -> (b: bool)
        ensures
            b == (self.spec_state() == RecordingState::Recording),
    {
        self.state == RecordingState::Recording
    }

    /// Begin a capture cycle.
    ///
    /// Fails with a `StateError` (and changes nothing) if a cycle is already
    /// open; the transition follows [`spec_session_step`] exactly.
    pub fn start(&mut self) -> (r: Result<(), SttError>)
        ensures
            final(self).spec_state() == spec_session_step(
                old(self).spec_state(),
                SessionOp::Start,
            ).0,
            (r is Ok) == spec_session_step(old(self).spec_state(), SessionOp::Start).1,
            r is Err ==> *final(self) == *old(self),
            r matches Err(e) ==> e@ == SttErrorV::State("Already recording"@),
    {
        match self.state {
            RecordingState::Recording => Err(
                SttError::StateError(String::from_str("Already recording")),
            ),
            RecordingState::Idle => {
                self.state = RecordingState::Recording;
                Ok(())
            },
        }
    }

    /// Close the capture cycle and materialize the captured bytes as an
    /// [`AudioClip`] named after the capture timestamp.
    ///
    /// Fails with a `StateError` (and changes nothing, producing no clip) if
    /// no cycle is open; the transition follows [`spec_session_step`] exactly.
    pub fn stop(&mut self, captured: Vec<u8>, timestamp_secs: u64) -> (r: Result<
        AudioClip,
        SttError,
    >)
        ensures
            final(self).spec_state() == spec_session_step(
                old(self).spec_state(),
                SessionOp::Stop,
            ).0,
            (r is Ok) == spec_session_step(old(self).spec_state(), SessionOp::Stop).1,
            r is Err ==> *final(self) == *old(self),
            r matches Err(e) ==> e@ == SttErrorV::State("Not recording"@),
            r matches Ok(clip) ==> {
                &&& clip.data@ == captured@
                &&& clip.file_name@ == spec_clip_file_name(timestamp_secs as nat)
                &&& clip.timestamp_secs == timestamp_secs
            },
    {
        match self.state {
            RecordingState::Idle => Err(SttError::StateError(String::from_str("Not recording"))),
            RecordingState::Recording => {
                self.state = RecordingState::Idle;
                let name = clip_file_name(timestamp_secs);
                Ok(AudioClip { data: captured, file_name: name, timestamp_secs })
            },
        }
    }
}

} // verus!
