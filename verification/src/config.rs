//! Configuration of the proxy core.
//!
//! Durations are held as milliseconds so every timeout decision is plain
//! integer arithmetic.  The exponential connect backoff keeps its jitter
//! as a per-mille fraction for the same reason.

use crate::addr::InetAddr;
use crate::errors::ErrorKind;
use vstd::prelude::*;

verus! {

/// Settings handed to the HTTP/2 codec.
#[derive(Clone, Copy, Debug, PartialEq, Eq, Structural)]
pub struct H2Settings {
    pub initial_stream_window_size: Option<u32>,
    pub initial_connection_window_size: Option<u32>,
}

impl Default for H2Settings {
    /// The default leaves both window sizes to the codec.
    fn default() -> (r: H2Settings)
        ensures
            r.initial_stream_window_size is None,
            r.initial_connection_window_size is None,
    {
        H2Settings { initial_stream_window_size: None, initial_connection_window_size: None }
    }
}

/// Where the server listens and how its HTTP/2 side is set up.
#[derive(Clone, Copy, Debug, PartialEq, Eq, Structural)]
pub struct ServerConfig {
    pub bind_addr: InetAddr,
    pub h2_settings: H2Settings,
}

/// The connect backoff schedule: doubling delays between `min_ms` and
/// `max_ms`, with a per-mille jitter fraction.
#[derive(Clone, Copy, Debug, PartialEq, Eq, Structural)]
pub struct ExponentialBackoff {
    pub min_ms: u64,
    pub max_ms: u64,
    pub jitter_per_mille: u32,
}

/// The delay before attempt `n`: the minimum delay doubled `n` times,
/// clamped at the maximum.
pub open spec fn spec_backoff_delay(min_ms: u64, max_ms: u64, n: nat) -> int
    decreases n,
{
    if n == 0 {
        min_ms as int
    } else {
        let p = spec_backoff_delay(min_ms, max_ms, (n - 1) as nat);
        if 2 * p > max_ms {
            max_ms as int
        } else {
            2 * p
        }
    }
}

impl ExponentialBackoff {
    /// A well-formed schedule: positive, ordered bounds; jitter at most
    /// one; the cap small enough that jitter arithmetic stays exact.
    pub open spec fn wf(&self) -> bool {
        &&& 0 < self.min_ms <= self.max_ms
        &&& self.max_ms <= 1000000000
        &&& self.jitter_per_mille <= 1000
    }

    /// Builds a schedule; bounds out of order, a zero minimum, a cap past
    /// a million seconds or a jitter above one are rejected.
    pub fn new(min_ms: u64, max_ms: u64, jitter_per_mille: u32) -> (r: Result<
        ExponentialBackoff,
        ErrorKind,
    >)
        ensures
            match r {
                Ok(b) => {
                    &&& b.min_ms == min_ms
                    &&& b.max_ms == max_ms
                    &&& b.jitter_per_mille == jitter_per_mille
                    &&& b.wf()
                },
                Err(kind) => {
                    &&& kind == ErrorKind::Internal
                    &&& !(ExponentialBackoff { min_ms, max_ms, jitter_per_mille }).wf()
                },
            },
    {
        if 0 < min_ms && min_ms <= max_ms && max_ms <= 1000000000 && jitter_per_mille <= 1000 {
            Ok(ExponentialBackoff { min_ms, max_ms, jitter_per_mille })
        } else {
            Err(ErrorKind::Internal)
        }
    }

    /// The delay before attempt `n`, before jitter.
    pub fn delay_ms(&self, n: u32) -> (r: u64)
        requires
            self.wf(),
        ensures
            r == spec_backoff_delay(self.min_ms, self.max_ms, n as nat),
            self.min_ms <= r <= self.max_ms,
    {
        let mut d: u64 = self.min_ms;
        let mut i: u32 = 0;
        while i < n
            invariant
                i <= n,
                d == spec_backoff_delay(self.min_ms, self.max_ms, i as nat),
                self.min_ms <= d <= self.max_ms,
            decreases n - i,
        {
            if d > self.max_ms - d {
                d = self.max_ms;
            } else {
                d = d + d;
            }
            i = i + 1;
        }
        d
    }

    /// Adds jitter to a delay: the extra is the delay scaled by the jitter
    /// fraction and by the caller's random per-mille draw.
    pub fn jittered(&self, delay_ms: u64, draw_per_mille: u32) -> (r: u64)
        requires
            self.wf(),
            delay_ms <= self.max_ms,
            draw_per_mille <= 1000,
        ensures
            r == delay_ms + (delay_ms * ((self.jitter_per_mille * draw_per_mille) / 1000)) / 1000,
    {
        proof {
            assert((self.jitter_per_mille as int) * (draw_per_mille as int) <= 1000 * 1000)
                by (nonlinear_arith)
                requires
                    self.jitter_per_mille <= 1000,
                    draw_per_mille <= 1000,
            ;
        }
        let scale: u64 = ((self.jitter_per_mille as u64) * (draw_per_mille as u64)) / 1000;
        proof {
            assert((delay_ms as int) * (scale as int) <= 1000000000 * 1000) by (nonlinear_arith)
                requires
                    delay_ms <= 1000000000,
                    scale <= 1000,
            ;
            assert(delay_ms + (delay_ms as int) * (scale as int) / 1000 <= u64::MAX);
        }
        delay_ms + (delay_ms * scale) / 1000
    }
}

/// How outbound TCP connections are established.
#[derive(Clone, Copy, Debug, PartialEq, Eq, Structural)]
pub struct ConnectConfig {
    pub keepalive_ms: Option<u64>,
    pub timeout_ms: u64,
    pub backoff: ExponentialBackoff,
    pub h2_settings: H2Settings,
}

/// Settings shared by the inbound and outbound pipelines.
#[derive(Debug)]
pub struct ProxyConfig {
    pub server: ServerConfig,
    pub connect: ConnectConfig,
    pub buffer_capacity: usize,
    pub cache_max_idle_age_ms: u64,
    pub disable_protocol_detection_for_ports: indexmap::IndexSet<
        u16,
        std::collections::hash_map::RandomState,
    >,
    pub dispatch_timeout_ms: u64,
    pub max_in_flight_requests: usize,
    pub detect_protocol_timeout_ms: u64,
}

/// The proxy settings used when nothing else is configured.
pub fn default_proxy(orig_dst: InetAddr) -> (r: ProxyConfig)
    ensures
        r.server == default_server_spec(orig_dst),
        r.connect == default_connect_spec(),
        r.buffer_capacity == 10000,
        r.cache_max_idle_age_ms == 60000,
        crate::ports::port_set_view(r.disable_protocol_detection_for_ports) == Set::<u16>::empty(),
        r.dispatch_timeout_ms == 3000,
        r.max_in_flight_requests == 10000,
        r.detect_protocol_timeout_ms == 3000,
{
    ProxyConfig {
        server: default_server(orig_dst),
        connect: default_connect(),
        buffer_capacity: 10000,
        cache_max_idle_age_ms: 60000,
        disable_protocol_detection_for_ports: crate::ports::port_set_new(),
        dispatch_timeout_ms: 3000,
        max_in_flight_requests: 10000,
        detect_protocol_timeout_ms: 3000,
    }
}

/// The default server configuration: bound for the given original
/// destination, default HTTP/2 settings.
pub open spec fn default_server_spec(orig_dst: InetAddr) -> ServerConfig {
    ServerConfig {
        bind_addr: orig_dst,
        h2_settings: H2Settings {
            initial_stream_window_size: None,
            initial_connection_window_size: None,
        },
    }
}

/// The server configuration used when nothing else is configured.
pub fn default_server(orig_dst: InetAddr) -> (r: ServerConfig)
    ensures
        r == default_server_spec(orig_dst),
{
    ServerConfig { bind_addr: orig_dst, h2_settings: H2Settings::default() }
}

/// The default connect configuration: no keepalive, a one-second connect
/// timeout, and a 100..500 ms backoff with one-tenth jitter.
pub open spec fn default_connect_spec() -> ConnectConfig {
    ConnectConfig {
        keepalive_ms: None,
        timeout_ms: 1000,
        backoff: ExponentialBackoff { min_ms: 100, max_ms: 500, jitter_per_mille: 100 },
        h2_settings: H2Settings {
            initial_stream_window_size: None,
            initial_connection_window_size: None,
        },
    }
}

/// The connect configuration used when nothing else is configured.
pub fn default_connect() -> (r: ConnectConfig)
    ensures
        r == default_connect_spec(),
        r.backoff.wf(),
{
    ConnectConfig {
        keepalive_ms: None,
        timeout_ms: 1000,
        backoff: ExponentialBackoff { min_ms: 100, max_ms: 500, jitter_per_mille: 100 },
        h2_settings: H2Settings::default(),
    }
}

} // verus!
