//! Device negotiation: which of the configurations a device offers is
//! used, and at which sample rate.
//!
//! The policy is fixed: among the configurations with at most two channels
//! and 32-bit floating-point samples, the first whose rate range holds the
//! target rate is taken at exactly that rate. If there is none, the first
//! such configuration is taken and the target is clamped into its range:
//! its lowest rate when the target lies below it, its highest rate
//! otherwise.

use vstd::prelude::*;

verus! {

/// Rate asked of an output device that names no default configuration.
pub const FALLBACK_OUTPUT_RATE: u32 = 48000;

/// Most channels that a usable configuration has.
pub const MAX_CHANNELS: u16 = 2;

/// How a device encodes its samples.
#[derive(Debug, Clone, Copy, PartialEq, Eq, Structural)]
pub enum SampleEncoding {
    /// 32-bit floating point, the only encoding used without conversion.
    Float32,
    /// Any other encoding.
    Other,
}

/// One configuration that a device offers, with its range of sample rates.
#[derive(Debug, Clone, Copy, PartialEq, Eq, Structural)]
pub struct ConfigRange {
    pub channels: u16,
    pub min_sample_rate: u32,
    pub max_sample_rate: u32,
    pub encoding: SampleEncoding,
}

/// The configuration chosen for a stream.
#[derive(Debug, Clone, Copy, PartialEq, Eq, Structural)]
pub struct StreamChoice {
    /// Place of the chosen configuration among those offered.
    pub index: usize,
    pub channels: u16,
    pub sample_rate: u32,
}

/// Why no configuration was chosen.
#[derive(Debug, Clone, Copy, PartialEq, Eq, Structural)]
pub enum NegotiationError {
    /// The device offers no mono or stereo floating-point configuration.
    NoFloatConfig,
}

/// The choice for an input stream.
#[derive(Debug, Clone, Copy, PartialEq, Eq, Structural)]
pub struct InputChoice {
    pub config: StreamChoice,
    /// Whether captured audio has to be converted to the target rate.
    pub needs_resampling: bool,
}

/// The choice for an output stream.
#[derive(Debug, Clone, Copy, PartialEq, Eq, Structural)]
pub struct OutputChoice {
    pub config: StreamChoice,
    /// The rate that played audio is converted to.
    pub device_sample_rate: u32,
    /// Whether played audio has to be converted at all.
    pub needs_resampling: bool,
}

impl ConfigRange {
    /// The range of rates is not empty.
    pub open spec fn wf(self) -> bool {
        self.min_sample_rate <= self.max_sample_rate
    }

    /// Mono or stereo, floating point.
    pub open spec fn usable(self) -> bool {
        self.channels <= MAX_CHANNELS && self.encoding == SampleEncoding::Float32
    }

    /// Usable, and the rate lies in the range.
    pub open spec fn supports(self, rate: u32) -> bool {
        self.usable() && self.min_sample_rate <= rate <= self.max_sample_rate
    }

    /// The rate of the range that is nearest to `rate`, which lies outside it.
    pub open spec fn clamped(self, rate: u32) -> u32 {
        if rate < self.min_sample_rate {
            self.min_sample_rate
        } else {
            self.max_sample_rate
        }
    }
}

/// Some offered configuration is usable.
pub open spec fn any_usable(configs: Seq<ConfigRange>) -> bool {
    exists|i: int| 0 <= i < configs.len() && (#[trigger] configs[i]).usable()
}

/// Some offered configuration supports the rate.
pub open spec fn any_supports(configs: Seq<ConfigRange>, rate: u32) -> bool {
    exists|i: int| 0 <= i < configs.len() && (#[trigger] configs[i]).supports(rate)
}

/// `i` is the place of the first usable configuration.
pub open spec fn first_usable(configs: Seq<ConfigRange>, i: int) -> bool {
    &&& 0 <= i < configs.len()
    &&& configs[i].usable()
    &&& forall|j: int| 0 <= j < i ==> !(#[trigger] configs[j]).usable()
}

/// `i` is the place of the first configuration that supports the rate.
pub open spec fn first_supporting(configs: Seq<ConfigRange>, rate: u32, i: int) -> bool {
    &&& 0 <= i < configs.len()
    &&& configs[i].supports(rate)
    &&& forall|j: int| 0 <= j < i ==> !(#[trigger] configs[j]).supports(rate)
}

/// `choice` is what the policy picks from `configs` for `target`.
pub open spec fn is_best_config(configs: Seq<ConfigRange>, target: u32, choice: StreamChoice) -> bool {
    &&& 0 <= choice.index < configs.len()
    &&& choice.channels == configs[choice.index as int].channels
    &&& if any_supports(configs, target) {
        first_supporting(configs, target, choice.index as int) && choice.sample_rate == target
    } else {
        first_usable(configs, choice.index as int) && choice.sample_rate
            == configs[choice.index as int].clamped(target)
    }
}

/// Picks the configuration and rate for `target_sample_rate`. It fails
/// exactly if no configuration is usable; otherwise it returns the one
/// choice that the policy allows. The chosen rate lies in the chosen range
/// unless that range is empty, with its lowest rate above its highest.
pub fn find_best_config(configs: &Vec<ConfigRange>, target_sample_rate: u32) -> (result: Result<
    StreamChoice,
    NegotiationError,
>)
    ensures
        result is Err <==> !any_usable(configs@),
        result matches Err(e) ==> e == NegotiationError::NoFloatConfig,
        result matches Ok(choice) ==> is_best_config(configs@, target_sample_rate, choice),
        result matches Ok(choice) ==> (configs@[choice.index as int].wf()
            ==> configs@[choice.index as int].min_sample_rate <= choice.sample_rate
            <= configs@[choice.index as int].max_sample_rate),
{
    let mut first: Option<usize> = None;
    let mut i: usize = 0;
    while i < configs.len()
        invariant
            i <= configs.len(),
            forall|j: int| 0 <= j < i ==> !(#[trigger] configs@[j]).supports(target_sample_rate),
            first is None ==> forall|j: int| 0 <= j < i ==> !(#[trigger] configs@[j]).usable(),
            first matches Some(k) ==> k < i && first_usable(configs@, k as int),
        decreases configs.len() - i,
    {
        let c = configs[i];
        let usable = c.channels <= MAX_CHANNELS && match c.encoding {
            SampleEncoding::Float32 => true,
            SampleEncoding::Other => false,
        };
        if usable {
            if target_sample_rate >= c.min_sample_rate && target_sample_rate <= c.max_sample_rate {
                return Ok(
                    StreamChoice { index: i, channels: c.channels, sample_rate: target_sample_rate },
                );
            }
            if first.is_none() {
                first = Some(i);
            }
        }
        i = i + 1;
    }
    match first {
        None => Err(NegotiationError::NoFloatConfig),
        Some(k) => {
            let c = configs[k];
            let rate = if target_sample_rate < c.min_sample_rate {
                c.min_sample_rate
            } else {
                c.max_sample_rate
            };
            Ok(StreamChoice { index: k, channels: c.channels, sample_rate: rate })
        },
    }
}

/// The choice for capture at `target_sample_rate`: the best configuration,
/// and conversion whenever the device runs at another rate.
pub fn negotiate_input(configs: &Vec<ConfigRange>, target_sample_rate: u32) -> (result: Result<
    InputChoice,
    NegotiationError,
>)
    ensures
        result is Err <==> !any_usable(configs@),
        result matches Ok(choice) ==> is_best_config(configs@, target_sample_rate, choice.config)
            && choice.needs_resampling == (choice.config.sample_rate != target_sample_rate),
{
    match find_best_config(configs, target_sample_rate) {
        Ok(config) => Ok(
            InputChoice { config, needs_resampling: config.sample_rate != target_sample_rate },
        ),
        Err(e) => Err(e),
    }
}

/// The choice for playback of audio produced at `source_sample_rate`. The
/// device rate is the rate of the device's default configuration, or, where
/// it names none, the rate that the policy picks for
/// `FALLBACK_OUTPUT_RATE`; the stream uses the best configuration for that
/// device rate.
pub fn negotiate_output(
    default_rate: Option<u32>,
    configs: &Vec<ConfigRange>,
    source_sample_rate: u32,
) -> (result: Result<OutputChoice, NegotiationError>)
    ensures
        result is Err <==> !any_usable(configs@),
        result matches Ok(choice) ==> {
            &&& is_best_config(configs@, choice.device_sample_rate, choice.config)
            &&& choice.needs_resampling == (choice.device_sample_rate != source_sample_rate)
            &&& default_rate matches Some(rate) ==> choice.device_sample_rate == rate
            &&& default_rate is None ==> exists|fallback: StreamChoice|
                is_best_config(configs@, FALLBACK_OUTPUT_RATE, fallback)
                    && choice.device_sample_rate == fallback.sample_rate
        },
{
    let device_sample_rate = match default_rate {
        Some(rate) => rate,
        None => match find_best_config(configs, FALLBACK_OUTPUT_RATE) {
            Ok(fallback) => fallback.sample_rate,
            Err(e) => {
                return Err(e);
            },
        },
    };
    match find_best_config(configs, device_sample_rate) {
        Ok(config) => Ok(
            OutputChoice {
                config,
                device_sample_rate,
                needs_resampling: device_sample_rate != source_sample_rate,
            },
        ),
        Err(e) => Err(e),
    }
}

/// The policy picks at most one choice: two choices that it allows for the
/// same offer and target are equal.
pub proof fn lemma_best_config_unique(
    configs: Seq<ConfigRange>,
    target: u32,
    a: StreamChoice,
    b: StreamChoice,
)
    requires
        is_best_config(configs, target, a),
        is_best_config(configs, target, b),
    ensures
        a == b,
{
    if a.index < b.index {
        assert(configs[a.index as int].usable());
    } else if b.index < a.index {
        assert(configs[b.index as int].usable());
    }
}

/// A target that some usable configuration supports is met exactly.
pub proof fn lemma_supported_rate_is_kept(configs: Seq<ConfigRange>, target: u32, choice: StreamChoice)
    requires
        is_best_config(configs, target, choice),
        any_supports(configs, target),
    ensures
        choice.sample_rate == target,
{
}

} // verus!
