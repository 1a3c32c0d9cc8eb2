//! The update coordinator: the decision core of one synchronization
//! cycle and of the defer-and-retry policy.
//!
//! The surrounding daemon owns a `BirdCoordinator`, serializes cycles
//! under its own operation lock, and performs the file write, the
//! control-channel reconfiguration and the timer sleeps; every decision
//! — whether to write, what to write, whether a retry is stale, when to
//! warn about starvation — is taken here, over plain values.

use vstd::prelude::*;
use crate::bird::ExtractError;
use crate::render::{RenderOutcome, RosterRender};

verus! {

/// The daemon-level routing-integration settings: where the generated
/// configuration is written, where the routing daemon's control socket
/// lives, and whether a live reconfiguration is issued after a write.
#[derive(Debug, Clone)]
pub struct BirdSettings {
    pub generated_conf: Vec<u8>,
    pub control_sock: Vec<u8>,
    pub do_reconfigure: bool,
}

/// A retry chain whose count exceeds this many deferrals logs a
/// starvation warning (and keeps retrying).
pub const STARVATION_WARN_THRESHOLD: u32 = 50;

/// Process-wide coordination state: the freshness watermark, recording
/// the time at which the most recently requested update was initiated.
#[derive(Debug, Clone, Copy, PartialEq, Eq, Structural)]
pub struct BirdCoordinator {
    pub watermark_millis: u64,
}

/// A retry captured at `captured_millis` fires only if no newer update
/// request has advanced the watermark past it.
pub open spec fn retry_fires(c: BirdCoordinator, captured_millis: u64) -> bool {
    c.watermark_millis <= captured_millis
}

/// What a fired retry timer does.
#[derive(Debug, Clone, Copy, PartialEq, Eq, Structural)]
pub enum RetryDecision {
    /// A newer request superseded this retry: do nothing, silently.
    Drop,
    /// Run another cycle with the incremented retry count, warning
    /// first if the chain shows starvation.
    Fire { attempt: u32, warn: bool },
}

/// What one cycle does after rendering.
#[derive(Debug)]
pub enum CycleAction {
    /// The roster was contended: write nothing and schedule a delayed
    /// retry carrying this cycle's retry count. Not a failure.
    Defer { retry_count: u32 },
    /// A peer's properties did not extract: the cycle fails.
    Fail(ExtractError),
    /// Persist the artifact wholesale, then reconfigure the routing
    /// daemon if the settings ask for it.
    Write { text: Vec<u8>, reconfigure: bool },
}

impl BirdCoordinator {
    /// A fresh coordinator, its watermark at the epoch.
    pub fn new() -> (c: BirdCoordinator)
        ensures
            c.watermark_millis == 0,
    {
        BirdCoordinator { watermark_millis: 0 }
    }

    /// Record that an update was requested at `now_millis`. The
    /// watermark advances monotonically: it never moves backwards, and
    /// after the call it is at least `now_millis`.
    pub fn note_request(&mut self, now_millis: u64)
        ensures
            final(self).watermark_millis == (if now_millis > old(self).watermark_millis {
                now_millis
            } else {
                old(self).watermark_millis
            }),
            final(self).watermark_millis >= old(self).watermark_millis,
            final(self).watermark_millis >= now_millis,
    {
        if now_millis > self.watermark_millis {
            self.watermark_millis = now_millis;
        }
    }

    /// Decide what a delayed retry, captured at `captured_millis` and
    /// carrying `retry_count` deferrals, does when its timer fires: a
    /// superseded retry is dropped silently; a current one runs another
    /// cycle with the count incremented, warning exactly when the count
    /// has passed the starvation threshold.
    pub fn on_retry_timer(&self, captured_millis: u64, retry_count: u32) -> (d: RetryDecision)
        requires
            retry_count < u32::MAX,
        ensures
            d is Drop <==> !retry_fires(*self, captured_millis),
            d matches RetryDecision::Fire { attempt, warn } ==> attempt == retry_count + 1 && warn
                == (retry_count > STARVATION_WARN_THRESHOLD),
    {
        if self.watermark_millis <= captured_millis {
            RetryDecision::Fire {
                attempt: retry_count + 1,
                warn: retry_count > STARVATION_WARN_THRESHOLD,
            }
        } else {
            RetryDecision::Drop
        }
    }
}

/// Decide what the cycle does with the renderer's outcome: a rendered
/// artifact is written (and the daemon reconfigured exactly when the
/// settings ask for it), a deferral schedules a retry with the cycle's
/// current retry count and is not a failure, and an extraction error
/// fails the cycle.
pub fn plan_cycle(settings: &BirdSettings, outcome: RenderOutcome, retry_count: u32) -> (a:
    CycleAction)
    ensures
        (match a {
            CycleAction::Defer { retry_count: rc } => outcome is Deferred && rc == retry_count,
            CycleAction::Fail(e) => (outcome matches RenderOutcome::Failed(f) && f == e),
            CycleAction::Write { text, reconfigure } => (outcome matches RenderOutcome::Rendered(t)
                && text@ == t@) && reconfigure == settings.do_reconfigure,
        }),
{
    match outcome {
        RenderOutcome::Deferred => CycleAction::Defer { retry_count },
        RenderOutcome::Failed(e) => CycleAction::Fail(e),
        RenderOutcome::Rendered(text) => CycleAction::Write {
            text,
            reconfigure: settings.do_reconfigure,
        },
    }
}

/// Watermark supersession: once a newer update request (at `t2`) has
/// advanced the watermark, a retry captured at any earlier time `t1`
/// can no longer fire, so it performs no write.
pub proof fn lemma_stale_retry_dropped(c: BirdCoordinator, t1: u64, t2: u64)
    requires
        t1 < t2,
        c.watermark_millis >= t2,
    ensures
        !retry_fires(c, t1),
{
}

} // verus!
