use vstd::prelude::*;

verus! {

/// Sample rate of the tuner, in samples per second.
pub const SDR_SAMPLE_RATE: u32 = 240_000;

/// Sample rate of the demodulated baseband, in samples per second.
pub const BASEBAND_SAMPLE_RATE: u32 = 48_000;

/// Ratio between the tuner and baseband sample rates.
pub const DECIMATION: usize = 5;

/// Number of complex samples in one raw block from the tuner.
pub const BUF_SAMPLES: usize = 32000;

/// Number of bytes in one raw block: an I byte and a Q byte per sample.
pub const BUF_BYTES: usize = 64000;

/// Number of entries in the I/Q lookup table: one per pair of bytes.
pub const IQ_TABLE_LEN: usize = 65536;

/// Number of baseband buffers that may be outstanding at once.
pub const POOL_CAPACITY: usize = 16;

/// Number of processed blocks per signal power report.
pub const POWER_REPORT_INTERVAL: usize = 4;

/// Window length of the baseband moving average.
pub const MOVING_AVG_LEN: usize = 10;

/// Expected peak frequency deviation of the FM signal, in Hz.
pub const FM_DEVIATION: u32 = 5000;

} // verus!
