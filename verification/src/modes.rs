//! Mode selection: resolving a configured transcription mode plus live
//! connectivity into the concrete backend to use.
//!
//! Resolution happens fresh on every transcription call, never cached, so the
//! decision reflects connectivity at that moment. The probe itself is a
//! network reachability check that the host performs; the selector consumes
//! its boolean result.

use vstd::prelude::*;

verus! {

/// The configured transcription mode, a mutable per-service setting.
#[derive(Clone, Copy, PartialEq, Eq, Structural, Debug)]
pub enum SttMode {
    /// Always use the remote streaming backend.
    Online,
    /// Prefer the local engine (with an opportunistic network fallback, see
    /// [`spec_select_backend`]).
    Offline,
    /// Probe connectivity and choose at call time.
    Auto,
}

/// The concrete backend family derived from configured mode plus live
/// connectivity.
#[derive(Clone, Copy, PartialEq, Eq, Structural, Debug)]
pub enum EffectiveMode {
    Online,
    Offline,
}

/// The three backend variants behind one `transcribe(clip) -> result`
/// capability.
#[derive(Clone, Copy, PartialEq, Eq, Structural, Debug)]
pub enum BackendKind {
    /// The duplex streaming protocol.
    Streaming,
    /// Single-shot multipart upload to the remote transcription endpoint.
    RestFallback,
    /// The local, self-contained transcription path.
    LocalEngine,
}

/// Resolution policy: Online and Offline stand regardless of connectivity;
/// Auto goes Online exactly when the probe reported connectivity.
pub open spec fn spec_resolve(configured: SttMode, online: bool) -> EffectiveMode {
    match configured {
        SttMode::Online => EffectiveMode::Online,
        SttMode::Offline => EffectiveMode::Offline,
        SttMode::Auto => if online {
            EffectiveMode::Online
        } else {
            EffectiveMode::Offline
        },
    }
}

/// Resolve the configured mode and the probe's answer into one effective
/// mode.
pub fn resolve(configured: SttMode, online: bool) -> (r: EffectiveMode)
    ensures
        r == spec_resolve(configured, online),
{
    match configured {
        SttMode::Online => EffectiveMode::Online,
        SttMode::Offline => EffectiveMode::Offline,
        SttMode::Auto => if online {
            EffectiveMode::Online
        } else {
            EffectiveMode::Offline
        },
    }
}

/// Resolution is independent of the probe for the two explicit modes, and for
/// Auto follows the probe exactly.
pub proof fn lemma_resolve_policy(online: bool)
    ensures
        spec_resolve(SttMode::Online, online) == EffectiveMode::Online,
        spec_resolve(SttMode::Offline, online) == EffectiveMode::Offline,
        (spec_resolve(SttMode::Auto, online) == EffectiveMode::Online) <==> online,
{
}

/// Backend choice for an effective mode. An Offline decision makes a second,
/// independent probe at call time: the offline backend opportunistically
/// delegates to the REST fallback when the network is actually reachable —
/// deliberate documented policy, which makes "Offline" non-absolute.
pub open spec fn spec_select_backend(effective: EffectiveMode, offline_probe: bool) -> BackendKind {
    match effective {
        EffectiveMode::Online => BackendKind::Streaming,
        EffectiveMode::Offline => if offline_probe {
            BackendKind::RestFallback
        } else {
            BackendKind::LocalEngine
        },
    }
}

/// Choose the backend variant for an effective mode, given the offline
/// backend's own fresh connectivity probe.
pub fn select_backend(effective: EffectiveMode, offline_probe: bool) -> (r: BackendKind)
    ensures
        r == spec_select_backend(effective, offline_probe),
{
    match effective {
        EffectiveMode::Online => BackendKind::Streaming,
        EffectiveMode::Offline => if offline_probe {
            BackendKind::RestFallback
        } else {
            BackendKind::LocalEngine
        },
    }
}

} // verus!
