//! The bridge itself: what passes between the phone and Codex.
use vstd::prelude::*;

use crate::config::{BridgeConfig};
use crate::text::{blank, char_pred, is_blank, trim, trim_end_by, trim_end_char, trimmed};

pub mod account;
pub mod messages;
pub mod relay;
pub mod support;
pub mod thread_runtime;

verus! {

/// How often the relay is probed.
pub const RELAY_WATCHDOG_PING_INTERVAL_MS: u64 = 10_000;

/// How long the answer to a probe may take.
pub const RELAY_WATCHDOG_STALE_AFTER_MS: u64 = 25_000;

/// How often the status is written again.
pub const BRIDGE_STATUS_HEARTBEAT_INTERVAL_MS: u64 = 5_000;

/// How often the records of the runs are looked at.
pub const ROLLOUT_POLL_INTERVAL_MS: u64 = 700;

/// How a bridge is started.
#[derive(Clone, Debug)]
pub struct StartBridgeOptions {
    pub config: Option<BridgeConfig>,
    pub print_pairing_qr: bool,
}

impl Default for StartBridgeOptions {
    fn default() -> (r: StartBridgeOptions)
        ensures
            r.config is None,
            r.print_pairing_qr,
    {
        StartBridgeOptions { config: None, print_pairing_qr: true }
    }
}

/// What a bridge starts with.
#[derive(Debug)]
pub struct StartPlan {
    pub config: BridgeConfig,
    pub relay_url: String,
    pub print_pairing_qr: bool,
    /// Codex has had its handshake already.
    pub codex_handshake_warm: bool,
    /// The runs of the desktop are mirrored.
    pub mirror_rollouts: bool,
}

/// The address of the relay as it is used.
pub open spec fn plain_relay_url(url: Seq<char>) -> Seq<char> {
    trim_end_by(trimmed(url), char_pred('/'))
}

/// What a bridge starts with, given the configuration that is taken where the options hold none.
pub fn start_bridge(options: StartBridgeOptions, default_config: BridgeConfig) -> (r: Result<
    StartPlan,
    String,
>)
    ensures
        ({
            let config = match options.config {
                Some(config) => config@,
                None => default_config@,
            };
            let relay_url = plain_relay_url(config.relay_url);
            match r {
                Ok(plan) => {
                    &&& relay_url.len() > 0
                    &&& plan.config@ == config
                    &&& plan.relay_url@ == relay_url
                    &&& plan.print_pairing_qr == options.print_pairing_qr
                    &&& plan.codex_handshake_warm == !is_blank(config.codex_endpoint)
                    &&& plan.mirror_rollouts == is_blank(config.codex_endpoint)
                },
                Err(error) => relay_url.len() == 0 && error@
                    == "[remodex] No relay URL configured. Run ./run-local-remodex.sh or set REMODEX_RELAY."@,
            }
        }),
{
    let config = match options.config {
        Some(config) => config,
        None => default_config,
    };
    let relay_url = trim_end_char(trim(config.relay_url.as_str()).as_str(), '/');
    if relay_url.as_str().is_empty() {
        return Err(
            "[remodex] No relay URL configured. Run ./run-local-remodex.sh or set REMODEX_RELAY.".to_owned(),
        );
    }
    let spawned = blank(config.codex_endpoint.as_str());
    Ok(
        StartPlan {
            config,
            relay_url,
            print_pairing_qr: options.print_pairing_qr,
            codex_handshake_warm: !spawned,
            mirror_rollouts: spawned,
        },
    )
}

/// Whether the relay still answers.
#[derive(Debug, Clone, Copy)]
pub struct RelayLivenessState {
    pub pending_ping_sent_at: Option<u64>,
}

/// What is to be done about a relay that may have fallen silent.
#[derive(Debug, PartialEq, Eq, Clone, Copy)]
pub enum RelayWatchdogAction {
    SendPing,
    Wait,
    Reconnect,
}

/// A probe was sent so long ago that its answer is missing.
pub open spec fn probe_missed(
    pending_ping_sent_at: Option<u64>,
    now_ms: u64,
    stale_after_ms: u64,
) -> bool {
    match pending_ping_sent_at {
        Some(sent_at) => if now_ms < sent_at {
            stale_after_ms == 0
        } else {
            now_ms - sent_at >= stale_after_ms
        },
        None => false,
    }
}

/// What is to be done, given the probe that is out.
pub open spec fn watchdog_action(
    pending_ping_sent_at: Option<u64>,
    now_ms: u64,
    stale_after_ms: u64,
) -> RelayWatchdogAction {
    if probe_missed(pending_ping_sent_at, now_ms, stale_after_ms) {
        RelayWatchdogAction::Reconnect
    } else if pending_ping_sent_at is Some {
        RelayWatchdogAction::Wait
    } else {
        RelayWatchdogAction::SendPing
    }
}

/// The probe that is out after that.
pub open spec fn watchdog_probe(pending_ping_sent_at: Option<u64>, now_ms: u64) -> Option<u64> {
    match pending_ping_sent_at {
        Some(sent_at) => Some(sent_at),
        None => Some(now_ms),
    }
}

impl Default for RelayLivenessState {
    fn default() -> (r: RelayLivenessState)
        ensures
            r.pending_ping_sent_at is None,
    {
        RelayLivenessState { pending_ping_sent_at: None }
    }
}

impl RelayLivenessState {
    /// The relay gave a sign of life.
    pub fn mark_activity_at(&mut self, _at_ms: u64)
        ensures
            final(self).pending_ping_sent_at is None,
    {
        self.pending_ping_sent_at = None;
    }

    /// What is to be done now.
    pub fn next_watchdog_action_at(&mut self, now_ms: u64, stale_after_ms: u64) -> (r:
        RelayWatchdogAction)
        ensures
            r == watchdog_action(old(self).pending_ping_sent_at, now_ms, stale_after_ms),
            final(self).pending_ping_sent_at == watchdog_probe(
                old(self).pending_ping_sent_at,
                now_ms,
            ),
    {
        if self.is_stale_at(now_ms, stale_after_ms) {
            return RelayWatchdogAction::Reconnect;
        }
        match self.pending_ping_sent_at {
            Some(_) => RelayWatchdogAction::Wait,
            None => {
                self.pending_ping_sent_at = Some(now_ms);
                RelayWatchdogAction::SendPing
            },
        }
    }

    /// Whether the answer to a probe is missing.
    pub fn is_stale_at(&self, now_ms: u64, stale_after_ms: u64) -> (r: bool)
        ensures
            r == probe_missed(self.pending_ping_sent_at, now_ms, stale_after_ms),
    {
        match self.pending_ping_sent_at {
            Some(sent_at) => {
                let waited: u64 = if now_ms < sent_at {
                    0
                } else {
                    now_ms - sent_at
                };
                waited >= stale_after_ms
            },
            None => false,
        }
    }
}

// What holds of every watch on the relay.

/// A probe that goes out is waited for until its deadline and no longer.
pub proof fn law_probe_has_a_deadline(sent_at: u64, now_ms: u64, stale_after_ms: u64)
    requires
        sent_at <= now_ms,
    ensures
        watchdog_action(None, sent_at, stale_after_ms) == RelayWatchdogAction::SendPing,
        watchdog_action(watchdog_probe(None, sent_at), now_ms, stale_after_ms) == if now_ms
            - sent_at >= stale_after_ms {
            RelayWatchdogAction::Reconnect
        } else {
            RelayWatchdogAction::Wait
        },
{
}

/// Waiting does not move the deadline.
pub proof fn law_waiting_keeps_the_deadline(pending: Option<u64>, now_ms: u64)
    requires
        pending is Some,
    ensures
        watchdog_probe(pending, now_ms) == pending,
{
}

} // verus!
