//! GPU probe: a layered fallback over the devfreq nodes of a known
//! GPU, composing a best-effort reading that always renders.
//!
//! The primary value (load/busy percentage) tries the `gpu_busy` node
//! first, then the `load` node; if both fail it degrades to zero. The
//! current and maximum frequency are read independently and each
//! degrades to zero on its own. Per-field availability flags record
//! which fields actually came from the hardware, so a caller can
//! distinguish "hardware absent" from "hardware reports zero".

use crate::node::{node_view, read_u64, spec_read_u64};
use crate::text::{spec_dec, u64_to_string};
use vstd::prelude::*;

verus! {

/// A composite GPU reading. Every value degrades to zero when its
/// node is unavailable; the flags record which values are real.
pub struct GpuReading {
    /// Load/busy percentage; zero when no load node could be read.
    pub load_percent: u64,
    /// Whether `load_percent` came from a node.
    pub load_available: bool,
    /// Current frequency in Hz; zero when the node could not be read.
    pub cur_freq_hz: u64,
    /// Whether `cur_freq_hz` came from a node.
    pub cur_freq_available: bool,
    /// Maximum frequency in Hz; zero when the node could not be read.
    pub max_freq_hz: u64,
    /// Whether `max_freq_hz` came from a node.
    pub max_freq_available: bool,
}

/// The composite reading for the four node texts: `gpu_busy` first,
/// then `load` for the primary value; the two frequencies on their
/// own; every missing value degrades to zero.
pub open spec fn spec_gpu_reading(
    busy: Option<Seq<char>>,
    load: Option<Seq<char>>,
    cur: Option<Seq<char>>,
    max: Option<Seq<char>>,
) -> GpuReading {
    let b = spec_read_u64(busy);
    let l = spec_read_u64(load);
    let c = spec_read_u64(cur);
    let m = spec_read_u64(max);
    GpuReading {
        load_percent: match b {
            Some(v) => v,
            None => match l {
                Some(v) => v,
                None => 0,
            },
        },
        load_available: b is Some || l is Some,
        cur_freq_hz: match c {
            Some(v) => v,
            None => 0,
        },
        cur_freq_available: c is Some,
        max_freq_hz: match m {
            Some(v) => v,
            None => 0,
        },
        max_freq_available: m is Some,
    }
}

/// Composes the GPU reading from the four node texts, exactly as
/// `spec_gpu_reading` describes.
pub fn gpu_reading(
    busy: &Option<String>,
    load: &Option<String>,
    cur: &Option<String>,
    max: &Option<String>,
) -> (r: GpuReading)
    ensures
        r == spec_gpu_reading(node_view(*busy), node_view(*load), node_view(*cur), node_view(*max)),
{
    let b = read_u64(busy);
    let l = read_u64(load);
    let c = read_u64(cur);
    let m = read_u64(max);
    let load_available = b.is_some() || l.is_some();
    let load_percent = match b {
        Some(v) => v,
        None => match l {
            Some(v) => v,
            None => 0,
        },
    };
    let cur_freq_available = c.is_some();
    let cur_freq_hz = match c {
        Some(v) => v,
        None => 0,
    };
    let max_freq_available = m.is_some();
    let max_freq_hz = match m {
        Some(v) => v,
        None => 0,
    };
    GpuReading {
        load_percent,
        load_available,
        cur_freq_hz,
        cur_freq_available,
        max_freq_hz,
        max_freq_available,
    }
}

/// Hz converted to whole MHz: divided by 1,000,000 and rounded to the
/// nearest integer, ties to even.
pub open spec fn spec_mhz(hz: int) -> int {
    let q = hz / 1000000;
    let r = hz % 1000000;
    if r > 500000 || (r == 500000 && q % 2 == 1) {
        q + 1
    } else {
        q
    }
}

/// Converts Hz to whole MHz, exactly as `spec_mhz` describes.
pub fn mhz(hz: u64) -> (r: u64)
    ensures
        r == spec_mhz(hz as int),
{
    let q = hz / 1000000;
    let rm = hz % 1000000;
    if rm > 500000 || (rm == 500000 && q % 2 == 1) {
        q + 1
    } else {
        q
    }
}

/// The rendered GPU summary: load percentage, then the current and
/// maximum frequency in whole MHz.
pub open spec fn spec_gpu_summary(g: GpuReading) -> Seq<char> {
    spec_dec(g.load_percent as int) + "% | "@ + spec_dec(spec_mhz(g.cur_freq_hz as int)) + "/"@
        + spec_dec(spec_mhz(g.max_freq_hz as int)) + " MHz"@
}

/// GPU probe: composes the reading from the four node texts and
/// renders its summary. The composite always renders — every value
/// has a zero default — so the result is never absent.
pub fn read_freedreno_gpu(
    busy: &Option<String>,
    load: &Option<String>,
    cur: &Option<String>,
    max: &Option<String>,
) -> (r: Option<String>)
    ensures
        r is Some,
        r->Some_0@ == spec_gpu_summary(
            spec_gpu_reading(node_view(*busy), node_view(*load), node_view(*cur), node_view(*max)),
        ),
{
    let g = gpu_reading(busy, load, cur, max);
    let mut s = u64_to_string(g.load_percent);
    s.append("% | ");
    let c = u64_to_string(mhz(g.cur_freq_hz));
    s.append(c.as_str());
    s.append("/");
    let m = u64_to_string(mhz(g.max_freq_hz));
    s.append(m.as_str());
    s.append(" MHz");
    proof {
        assert(s@ =~= spec_gpu_summary(g));
    }
    Some(s)
}

} // verus!
