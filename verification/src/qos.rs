//! The QoS builder: translates the command-line selections into an immutable
//! quality-of-service configuration — reliability, durability and history
//! depth — for the topic and for both roles.

use vstd::prelude::*;
use crate::parse::parse_i32;
use crate::parse::parse_i32_spec;

verus! {

/// The delivery-reliability selection. A reliable selection carries the
/// maximum time a write may block, in nanoseconds; this builder always
/// chooses a zero bound, so reliable writes never block.
#[derive(Clone, Copy, PartialEq, Eq, Structural, Debug)]
pub enum Reliability {
    BestEffort,
    Reliable { max_blocking_time_nanos: u64 },
}

/// The durability selection: how long the middleware keeps data for readers
/// that join late.
#[derive(Clone, Copy, PartialEq, Eq, Structural, Debug)]
pub enum Durability {
    Volatile,
    TransientLocal,
    Transient,
    Persistent,
}

/// The history selection: keep every sample, or only the last `depth` per
/// instance.
#[derive(Clone, Copy, PartialEq, Eq, Structural, Debug)]
pub enum History {
    KeepAll,
    KeepLast { depth: i32 },
}

/// The immutable QoS configuration, built once from the command line and
/// shared read-only by the topic and both roles.
#[derive(Clone, Copy, PartialEq, Eq, Structural, Debug)]
pub struct QosConfig {
    pub reliability: Reliability,
    pub durability: Durability,
    pub history: History,
}

/// The durability a one-letter code selects: `v`, `l`, `t`, `p` name the four
/// variants; anything else, absent included, silently falls back to
/// `Volatile`. Unknown codes are a documented permissive default, not an
/// error.
pub open spec fn durability_spec(code: Option<char>) -> Durability {
    if code == Some('v') {
        Durability::Volatile
    } else if code == Some('l') {
        Durability::TransientLocal
    } else if code == Some('t') {
        Durability::Transient
    } else if code == Some('p') {
        Durability::Persistent
    } else {
        Durability::Volatile
    }
}

/// The history a depth argument selects: a well-formed non-negative number
/// keeps the last that many samples; an argument that is malformed or
/// negative means unbounded history, not an error.
pub open spec fn history_spec(depth_arg: Seq<char>) -> History {
    match parse_i32_spec(depth_arg) {
        Option::None => History::KeepAll,
        Option::Some(d) => if d < 0 {
            History::KeepAll
        } else {
            History::KeepLast { depth: d }
        },
    }
}

impl QosConfig {
    /// Build the configuration from the command-line selections: the
    /// reliable flag, the one-letter durability code, and the raw history
    /// depth argument. Pure construction; no input is rejected.
    pub fn build(reliable: bool, durability_code: Option<char>, history_depth: Option<&str>) -> (q:
        QosConfig)
        ensures
            q.reliability == (if reliable {
                Reliability::Reliable { max_blocking_time_nanos: 0 }
            } else {
                Reliability::BestEffort
            }),
            q.durability == durability_spec(durability_code),
            q.history == (match history_depth {
                Option::None => History::KeepAll,
                Option::Some(s) => history_spec(s@),
            }),
    {
        let reliability = if reliable {
            Reliability::Reliable { max_blocking_time_nanos: 0 }
        } else {
            Reliability::BestEffort
        };
        let durability = match durability_code {
            Option::Some('v') => Durability::Volatile,
            Option::Some('l') => Durability::TransientLocal,
            Option::Some('t') => Durability::Transient,
            Option::Some('p') => Durability::Persistent,
            _ => Durability::Volatile,
        };
        let history = match history_depth {
            Option::None => History::KeepAll,
            Option::Some(s) => match parse_i32(s) {
                Option::None => History::KeepAll,
                Option::Some(d) => if d < 0 {
                    History::KeepAll
                } else {
                    History::KeepLast { depth: d }
                },
            },
        };
        QosConfig { reliability, durability, history }
    }
}

/// Whatever depth argument comes in, the built history is either unbounded
/// or keeps a non-negative number of samples: a `KeepLast` never carries a
/// negative depth.
pub proof fn lemma_history_depth_nonnegative(depth_arg: Seq<char>)
    ensures
        (match history_spec(depth_arg) {
            History::KeepLast { depth } => depth >= 0,
            History::KeepAll => true,
        }),
{
}

/// The built durability is always one of the four variants with `Volatile`
/// as the fallback: a code other than the four letters lands on `Volatile`.
pub proof fn lemma_unknown_durability_defaults(code: Option<char>)
    requires
        code != Some('v'),
        code != Some('l'),
        code != Some('t'),
        code != Some('p'),
    ensures
        durability_spec(code) == Durability::Volatile,
{
}

} // verus!
