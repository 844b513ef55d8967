//! Verified core of a P25 receiver's demodulation stage: raw-block decoding,
//! decimation scheduling, the baseband buffer pool and telemetry throttling.

pub mod block;
pub mod consts;
pub mod decim;
pub mod pool;
pub mod stage;
pub mod throttle;
