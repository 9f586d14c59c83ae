use vstd::prelude::*;
use crate::queue::{BackpressurePolicy, OutboundQueue, QueueState};
use crate::sender::{SenderPump, SenderState};
use crate::heartbeat::HeartbeatState;

verus! {

/// The options of a session. Durations are in milliseconds.
#[derive(Clone, Copy, Debug)]
pub struct SessionConfig {
    pub heartbeat_interval_ms: u64,
    pub read_timeout_ms: u64,
    pub write_timeout_ms: u64,
    pub outbound_queue_capacity: usize,
    pub backpressure_policy: BackpressurePolicy,
}

/// Which option was out of range.
#[derive(Clone, Copy, Debug, PartialEq, Eq, Structural)]
pub enum ConfigError {
    ZeroHeartbeatInterval,
    ZeroReadTimeout,
    ZeroWriteTimeout,
    ZeroQueueCapacity,
}

pub const DEFAULT_HEARTBEAT_INTERVAL_MS: u64 = 5000;
pub const DEFAULT_READ_TIMEOUT_MS: u64 = 15000;
pub const DEFAULT_WRITE_TIMEOUT_MS: u64 = 5000;
pub const DEFAULT_QUEUE_CAPACITY: usize = 32;

impl SessionConfig {
    /// Every duration and the queue capacity are positive.
    pub open spec fn wf(&self) -> bool {
        self.heartbeat_interval_ms > 0 && self.read_timeout_ms > 0 && self.write_timeout_ms > 0
            && self.outbound_queue_capacity > 0
    }

    /// Checks the options in order and names the first one that is zero.
    pub fn new(
        heartbeat_interval_ms: u64,
        read_timeout_ms: u64,
        write_timeout_ms: u64,
        outbound_queue_capacity: usize,
        backpressure_policy: BackpressurePolicy,
    ) -> (r: Result<SessionConfig, ConfigError>)
        ensures
            heartbeat_interval_ms == 0 ==> r == Err::<SessionConfig, _>(
                ConfigError::ZeroHeartbeatInterval,
            ),
            heartbeat_interval_ms > 0 && read_timeout_ms == 0 ==> r == Err::<SessionConfig, _>(
                ConfigError::ZeroReadTimeout,
            ),
            heartbeat_interval_ms > 0 && read_timeout_ms > 0 && write_timeout_ms == 0 ==> r == Err::<
                SessionConfig,
                _,
            >(ConfigError::ZeroWriteTimeout),
            heartbeat_interval_ms > 0 && read_timeout_ms > 0 && write_timeout_ms > 0
                && outbound_queue_capacity == 0 ==> r == Err::<SessionConfig, _>(
                ConfigError::ZeroQueueCapacity,
            ),
            r is Ok <==> (heartbeat_interval_ms > 0 && read_timeout_ms > 0 && write_timeout_ms > 0
                && outbound_queue_capacity > 0),
            r matches Ok(c) ==> c.wf() && c == (SessionConfig {
                heartbeat_interval_ms,
                read_timeout_ms,
                write_timeout_ms,
                outbound_queue_capacity,
                backpressure_policy,
            }),
    {
        if heartbeat_interval_ms == 0 {
            Err(ConfigError::ZeroHeartbeatInterval)
        } else if read_timeout_ms == 0 {
            Err(ConfigError::ZeroReadTimeout)
        } else if write_timeout_ms == 0 {
            Err(ConfigError::ZeroWriteTimeout)
        } else if outbound_queue_capacity == 0 {
            Err(ConfigError::ZeroQueueCapacity)
        } else {
            Ok(
                SessionConfig {
                    heartbeat_interval_ms,
                    read_timeout_ms,
                    write_timeout_ms,
                    outbound_queue_capacity,
                    backpressure_policy,
                },
            )
        }
    }

    /// The defaults: a ping every five seconds, a read timeout of three
    /// heartbeat intervals, a five second write timeout, and a blocking queue
    /// of 32 frames.
    pub fn standard() -> (c: SessionConfig)
        ensures
            c.wf(),
            c.heartbeat_interval_ms == DEFAULT_HEARTBEAT_INTERVAL_MS,
            c.read_timeout_ms == DEFAULT_READ_TIMEOUT_MS,
            c.write_timeout_ms == DEFAULT_WRITE_TIMEOUT_MS,
            c.outbound_queue_capacity == DEFAULT_QUEUE_CAPACITY,
            c.backpressure_policy == BackpressurePolicy::Block,
    {
        SessionConfig {
            heartbeat_interval_ms: DEFAULT_HEARTBEAT_INTERVAL_MS,
            read_timeout_ms: DEFAULT_READ_TIMEOUT_MS,
            write_timeout_ms: DEFAULT_WRITE_TIMEOUT_MS,
            outbound_queue_capacity: DEFAULT_QUEUE_CAPACITY,
            backpressure_policy: BackpressurePolicy::Block,
        }
    }

    /// The session's one outbound queue, empty and open.
    pub fn outbound_queue(&self) -> (q: OutboundQueue)
        requires
            self.wf(),
        ensures
            q.wf(),
            q@ == (QueueState {
                items: Seq::empty(),
                capacity: self.outbound_queue_capacity as nat,
                policy: self.backpressure_policy,
                closed: false,
            }),
    {
        OutboundQueue::new(self.outbound_queue_capacity, self.backpressure_policy)
    }

    /// A live sender pump whose first heartbeat is due at `start_ms`.
    pub fn sender_pump(&self, start_ms: u64) -> (p: SenderPump)
        requires
            self.wf(),
        ensures
            p@ == (SenderState {
                heartbeat: HeartbeatState {
                    interval: self.heartbeat_interval_ms as nat,
                    next_due: start_ms as nat,
                    fired: 0,
                },
                finished: false,
            }),
    {
        SenderPump::new(start_ms, self.heartbeat_interval_ms)
    }
}

} // verus!
