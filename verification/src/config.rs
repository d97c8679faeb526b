//! Protocol-wide parameters.

use vstd::prelude::*;

verus! {

/// IEEE 754 binary64 encoding of 0.667, the default consensus threshold.
pub const DEFAULT_CONSENSUS_THRESHOLD_BITS: u64 = 0x3FE5_5810_624D_D2F2;

/// IEEE 754 binary64 encoding of 1.0, the largest threshold that is a fraction
/// of the validator set.
pub const FULL_AGREEMENT_BITS: u64 = 0x3FF0_0000_0000_0000;

/// Core configuration of the protocol.
///
/// A configuration is a plain value: nothing is checked when one is built, and
/// a different setting is a different value.
#[derive(Debug)]
pub struct QIPConfig {
    /// Number of participating validating nodes.
    pub validator_count: usize,
    /// Fraction of validator agreement required for finality, held as the
    /// IEEE 754 binary64 encoding of that fraction.
    pub consensus_threshold_bits: u64,
    /// Target latency bound for reaching finality, in milliseconds.
    pub finality_time_ms: u64,
    /// Upper bound on parallel state partitions.
    pub max_shards: usize,
}

impl QIPConfig {
    /// The configuration that `default` returns.
    pub open spec fn default_spec() -> QIPConfig {
        QIPConfig {
            validator_count: 1000,
            consensus_threshold_bits: DEFAULT_CONSENSUS_THRESHOLD_BITS,
            finality_time_ms: 800,
            max_shards: 100,
        }
    }

    /// Whether every parameter lies in the range that a deployment can work
    /// with: at least one validator and one shard, a positive finality target,
    /// and a threshold in (0.0, 1.0].
    ///
    /// The encodings of the positive finite binary64 numbers are ordered as the
    /// numbers are, zero is encoded as 0, and every negative number, infinity
    /// and NaN has an encoding above that of 1.0.
    pub open spec fn is_deployable(&self) -> bool {
        &&& self.validator_count >= 1
        &&& 0 < self.consensus_threshold_bits <= FULL_AGREEMENT_BITS
        &&& self.finality_time_ms > 0
        &&& self.max_shards >= 1
    }
}

impl Default for QIPConfig {
    /// 1000 validators, a threshold of 0.667, 800 ms to finality, 100 shards.
    fn default() -> (config: Self)
        ensures
            config == QIPConfig::default_spec(),
            config.validator_count == 1000,
            config.consensus_threshold_bits == DEFAULT_CONSENSUS_THRESHOLD_BITS,
            config.finality_time_ms == 800,
            config.max_shards == 100,
            config.is_deployable(),
    {
        QIPConfig {
            validator_count: 1000,
            consensus_threshold_bits: DEFAULT_CONSENSUS_THRESHOLD_BITS,
            finality_time_ms: 800,
            max_shards: 100,
        }
    }
}

impl Clone for QIPConfig {
    fn clone(&self) -> (copy: Self)
        ensures
            copy == *self,
    {
        QIPConfig {
            validator_count: self.validator_count,
            consensus_threshold_bits: self.consensus_threshold_bits,
            finality_time_ms: self.finality_time_ms,
            max_shards: self.max_shards,
        }
    }
}

} // verus!
