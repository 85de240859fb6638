//! The action executors.
//!
//! One invocation either sets a given input source on every matched
//! display, or toggles between two candidate sources.  The protocol
//! work — refreshing capabilities, reading and writing the feature —
//! happens outside the library; what each call yielded enters here as
//! an [`ActionProbe`], and the executors are verified over every such
//! outcome.
//!
//! Error policy, deliberately uneven: a failed capability refresh, a
//! missing Input-Source feature, and a failed or unintelligible read
//! are fatal and abort the remaining displays; a failed write is only
//! recorded as a warning, because the transport is known to report
//! spurious failures after the switch has in fact happened.
//!
//! Every display whose processing began — the display a fatal error
//! struck included — is registered for teardown exactly once, in
//! processing order; displays never reached are not registered.

use crate::seqs::lemma_push_contains;
use crate::source::InputSource;
use vstd::prelude::*;

verus! {

/// What the protocol calls for one matched display yielded: the
/// outcome of the forced capability refresh, the Input-Source entry
/// of the display's feature table after it, and the outcomes of the
/// feature read and write, where one was made.
#[derive(Clone, Copy, Debug, PartialEq, Eq)]
pub struct ActionProbe {
    /// The forced capability refresh succeeded.
    pub caps_ok: bool,
    /// VCP code under which the feature table lists Input Source,
    /// absent when the display does not advertise the feature.
    pub feature_code: Option<u8>,
    /// The feature read succeeded, where one was made.
    pub read_ok: bool,
    /// The value a successful read reported.
    pub current_value: u16,
    /// The feature write succeeded, where one was made.
    pub write_ok: bool,
}

/// One write command issued to a display: which display, under which
/// feature code, and the value written.
#[derive(Clone, Copy, Debug, PartialEq, Eq, Structural)]
pub struct WriteCmd {
    /// Position of the display in the matched list.
    pub index: usize,
    /// VCP feature code written to.
    pub feature: u8,
    /// Two-byte value written.
    pub value: u16,
}

/// A fatal error of one run, carrying the position of the display it
/// struck.
#[derive(Clone, Copy, Debug, PartialEq, Eq, Structural)]
pub enum RunError {
    /// The forced capability refresh failed.
    CapabilityRefresh { index: usize },
    /// The display's feature table does not list Input Source.
    FeatureNotAccessible { index: usize },
    /// Reading the current input source failed.
    ReadFailed { index: usize },
    /// The device reported a value outside the input-source table.
    UnknownSourceCode { index: usize, value: u16 },
    /// The current source is neither of the two toggle candidates.
    NotToggleOption { index: usize, current: InputSource },
}

impl RunError {
    /// Position of the display the error struck.
    pub open spec fn spec_index(self) -> int {
        match self {
            RunError::CapabilityRefresh { index } => index as int,
            RunError::FeatureNotAccessible { index } => index as int,
            RunError::ReadFailed { index } => index as int,
            RunError::UnknownSourceCode { index, .. } => index as int,
            RunError::NotToggleOption { index, .. } => index as int,
        }
    }
}

/// Everything one run did: the writes it issued, the positions whose
/// write failure was tolerated with a warning, the positions
/// registered for teardown, and how the run ended.
#[derive(Debug)]
pub struct RunOutcome {
    /// The write commands issued, in order.
    pub writes: Vec<WriteCmd>,
    /// Positions whose write failed and was tolerated, in order.
    pub warned: Vec<usize>,
    /// Positions registered for the teardown delay, in order.
    pub teardown: Vec<usize>,
    /// How the run ended.
    pub result: Result<(), RunError>,
}

/// The display got past refresh and feature lookup: its capability
/// refresh succeeded and its feature table lists Input Source.
pub open spec fn probe_ready(p: ActionProbe) -> bool {
    p.caps_ok && p.feature_code is Some
}

/// Every display before position `i` got past refresh and lookup.
pub open spec fn ready_upto(probes: Seq<ActionProbe>, i: int) -> bool {
    forall|j: int| 0 <= j < i ==> probe_ready(#[trigger] probes[j])
}

/// The write command the run issues to the display at `j`.
pub open spec fn spec_write_at(probes: Seq<ActionProbe>, j: int, value: u16) -> WriteCmd {
    WriteCmd { index: j as usize, feature: probes[j].feature_code->0, value }
}

/// The first `k` positions, each registered exactly once, in order.
pub open spec fn spec_teardown_prefix(teardown: Seq<usize>, k: int) -> bool {
    &&& teardown.len() == k
    &&& forall|j: int| 0 <= j < k ==> teardown[j] == j as usize
}

/// One write per display before `m`, in order, all of value `value`.
pub open spec fn spec_writes_prefix(
    writes: Seq<WriteCmd>,
    probes: Seq<ActionProbe>,
    m: int,
    value: u16,
) -> bool {
    &&& writes.len() == m
    &&& forall|j: int| 0 <= j < m ==> writes[j] == spec_write_at(probes, j, value)
}

/// Exactly the positions before `m` whose write failed, in order.
pub open spec fn spec_warned_prefix(warned: Seq<usize>, probes: Seq<ActionProbe>, m: int) -> bool {
    &&& forall|j: int| 0 <= j < m ==> (warned.contains(j as usize) <==> !probes[j].write_ok)
    &&& forall|k: int| 0 <= k < warned.len() ==> (warned[k] as int) < m
    &&& forall|k1: int, k2: int| 0 <= k1 < k2 < warned.len() ==> warned[k1] < warned[k2]
}

/// Plans the write for one display: the feature table must list Input
/// Source, and the write carries the target's one-byte value.
pub fn plan_write(feature_code: Option<u8>, target: InputSource) -> (r: Option<(u8, u16)>)
    ensures
        match feature_code {
            None => r is None,
            Some(c) => r == Some((c, target.spec_code() as u16)),
        },
{
    match feature_code {
        None => None,
        Some(c) => Some((c, target.code() as u16)),
    }
}

/// The toggle decision: a current source equal to one candidate
/// resolves to the other; any other current source resolves to
/// nothing, because the toggle direction is then undefined.
pub open spec fn spec_decide(
    source1: InputSource,
    source2: InputSource,
    current: InputSource,
) -> Option<InputSource> {
    if current == source1 {
        Some(source2)
    } else if current == source2 {
        Some(source1)
    } else {
        None
    }
}

/// Decides the toggle target from the current source.
pub fn toggle_target(source1: InputSource, source2: InputSource, current: InputSource) -> (r:
    Option<InputSource>)
    ensures
        r == spec_decide(source1, source2, current),
{
    if current == source1 {
        Some(source2)
    } else if current == source2 {
        Some(source1)
    } else {
        None
    }
}

/// Law: the toggle decision is an involution.  Whenever it resolves,
/// applying it and deciding again from the applied target resolves
/// back to the source it started from — running toggle twice returns
/// to the original source.
pub proof fn lemma_toggle_involution(source1: InputSource, source2: InputSource, current: InputSource)
    requires
        spec_decide(source1, source2, current) is Some,
    ensures
        spec_decide(source1, source2, spec_decide(source1, source2, current)->0) == Some(current),
{
}

/// What reading the first display decides the toggle target to be,
/// where every step of the read succeeds.
pub open spec fn spec_toggle_target(
    source1: InputSource,
    source2: InputSource,
    p: ActionProbe,
) -> Option<InputSource> {
    if p.caps_ok && p.feature_code is Some && p.read_ok {
        match InputSource::spec_from_code(p.current_value) {
            Some(current) => spec_decide(source1, source2, current),
            None => None,
        }
    } else {
        None
    }
}

/// Records whether position `i` was warned, keeping the warned-prefix
/// shape across one processed display.
proof fn lemma_warned_step(old_warned: Seq<usize>, probes: Seq<ActionProbe>, i: usize, pushed: bool)
    requires
        (i as int) < probes.len(),
        spec_warned_prefix(old_warned, probes, i as int),
        pushed == !probes[i as int].write_ok,
    ensures
        spec_warned_prefix(
            if pushed {
                old_warned.push(i)
            } else {
                old_warned
            },
            probes,
            i + 1,
        ),
{
    let new_warned = if pushed {
        old_warned.push(i)
    } else {
        old_warned
    };
    assert forall|j: int| 0 <= j < i + 1 implies (#[trigger] new_warned.contains(j as usize)
        <==> !probes[j].write_ok) by {
        if pushed {
            lemma_push_contains(old_warned, i, j as usize);
        }
        if j == i && !pushed {
            if new_warned.contains(i) {
                let k = choose|k: int| 0 <= k < new_warned.len() && new_warned[k] == i;
                assert((new_warned[k] as int) < i as int);
                assert(false);
            }
        }
    }
}

/// The `set` run: for each matched display, in order, the capability
/// refresh is forced, the Input-Source feature is looked up, and the
/// requested source's value is written.
///
/// The contract carries the laws of the run:
/// - a missing feature or a failed refresh aborts at that display,
///   and nothing later is touched;
/// - a failed write is tolerated: it is recorded under `warned` and
///   the run continues;
/// - every display whose processing began — on success all of them,
///   on a fatal error exactly those up to and including the stricken
///   one — is registered for teardown exactly once, in order.
pub fn run_set(source: InputSource, probes: &Vec<ActionProbe>) -> (out: RunOutcome)
    ensures
        ({
            let ps = probes@;
            let n = ps.len() as int;
            let v = source.spec_code() as u16;
            match out.result {
                Ok(_) => {
                    &&& ready_upto(ps, n)
                    &&& spec_teardown_prefix(out.teardown@, n)
                    &&& spec_writes_prefix(out.writes@, ps, n, v)
                    &&& spec_warned_prefix(out.warned@, ps, n)
                },
                Err(e) => {
                    let i = e.spec_index();
                    &&& 0 <= i < n
                    &&& ready_upto(ps, i)
                    &&& match e {
                        RunError::CapabilityRefresh { .. } => !ps[i].caps_ok,
                        RunError::FeatureNotAccessible { .. } => ps[i].caps_ok && ps[i].feature_code
                            is None,
                        _ => false,
                    }
                    &&& spec_teardown_prefix(out.teardown@, i + 1)
                    &&& spec_writes_prefix(out.writes@, ps, i, v)
                    &&& spec_warned_prefix(out.warned@, ps, i)
                },
            }
        }),
{
    let n = probes.len();
    let mut writes: Vec<WriteCmd> = Vec::new();
    let mut warned: Vec<usize> = Vec::new();
    let mut teardown: Vec<usize> = Vec::new();
    let mut i: usize = 0;
    while i < n
        invariant
            i <= n,
            n == probes@.len(),
            ready_upto(probes@, i as int),
            spec_teardown_prefix(teardown@, i as int),
            spec_writes_prefix(writes@, probes@, i as int, source.spec_code() as u16),
            spec_warned_prefix(warned@, probes@, i as int),
        decreases n - i,
    {
        let p = probes[i];
        teardown.push(i);
        if !p.caps_ok {
            return RunOutcome {
                writes,
                warned,
                teardown,
                result: Err(RunError::CapabilityRefresh { index: i }),
            };
        }
        match plan_write(p.feature_code, source) {
            None => {
                return RunOutcome {
                    writes,
                    warned,
                    teardown,
                    result: Err(RunError::FeatureNotAccessible { index: i }),
                };
            },
            Some(w) => {
                writes.push(WriteCmd { index: i, feature: w.0, value: w.1 });
                let ghost old_warned = warned@;
                if !p.write_ok {
                    warned.push(i);
                }
                proof {
                    lemma_warned_step(old_warned, probes@, i, !p.write_ok);
                }
            },
        }
        i += 1;
    }
    RunOutcome { writes, warned, teardown, result: Ok(()) }
}

/// The `toggle` run: the current source is read once, from the first
/// matched display; a current source equal to one candidate resolves
/// the target to the other, and that one target is then written to
/// every matched display, the first included — per-display current
/// values are not re-read, even if later displays are in a different
/// state.
///
/// The contract carries the laws of the run:
/// - a current source equal to neither candidate aborts before any
///   write: no display is mutated;
/// - read failures — feature absent, read failed, value outside the
///   table — are fatal at the first display;
/// - write failures are tolerated, as under the `set` run;
/// - teardown registration is exactly as under the `set` run.
pub fn run_toggle(source1: InputSource, source2: InputSource, probes: &Vec<ActionProbe>) -> (out:
    RunOutcome)
    ensures
        ({
            let ps = probes@;
            let n = ps.len() as int;
            let t = spec_toggle_target(source1, source2, ps[0]);
            match out.result {
                Ok(_) => {
                    &&& n > 0 ==> t is Some
                    &&& ready_upto(ps, n)
                    &&& spec_teardown_prefix(out.teardown@, n)
                    &&& spec_writes_prefix(out.writes@, ps, n, t->0.spec_code() as u16)
                    &&& spec_warned_prefix(out.warned@, ps, n)
                },
                Err(e) => {
                    let i = e.spec_index();
                    &&& 0 <= i < n
                    &&& ready_upto(ps, i)
                    &&& i > 0 ==> t is Some
                    &&& match e {
                        RunError::CapabilityRefresh { .. } => !ps[i].caps_ok,
                        RunError::FeatureNotAccessible { .. } => ps[i].caps_ok && ps[i].feature_code
                            is None,
                        RunError::ReadFailed { .. } => i == 0 && probe_ready(ps[0]) && !ps[0].read_ok,
                        RunError::UnknownSourceCode { value, .. } => i == 0 && probe_ready(ps[0])
                            && ps[0].read_ok && value == ps[0].current_value
                            && InputSource::spec_from_code(value) is None,
                        RunError::NotToggleOption { current, .. } => i == 0 && probe_ready(ps[0])
                            && ps[0].read_ok && InputSource::spec_from_code(ps[0].current_value)
                            == Some(current) && spec_decide(source1, source2, current) is None,
                    }
                    &&& spec_teardown_prefix(out.teardown@, i + 1)
                    &&& spec_writes_prefix(out.writes@, ps, i, t->0.spec_code() as u16)
                    &&& spec_warned_prefix(out.warned@, ps, i)
                },
            }
        }),
{
    let n = probes.len();
    let mut writes: Vec<WriteCmd> = Vec::new();
    let mut warned: Vec<usize> = Vec::new();
    let mut teardown: Vec<usize> = Vec::new();
    if n == 0 {
        return RunOutcome { writes, warned, teardown, result: Ok(()) };
    }
    let p0 = probes[0];
    teardown.push(0);
    if !p0.caps_ok {
        return RunOutcome {
            writes,
            warned,
            teardown,
            result: Err(RunError::CapabilityRefresh { index: 0 }),
        };
    }
    let code0 = match p0.feature_code {
        None => {
            return RunOutcome {
                writes,
                warned,
                teardown,
                result: Err(RunError::FeatureNotAccessible { index: 0 }),
            };
        },
        Some(c) => c,
    };
    if !p0.read_ok {
        return RunOutcome {
            writes,
            warned,
            teardown,
            result: Err(RunError::ReadFailed { index: 0 }),
        };
    }
    let current = match InputSource::from_code(p0.current_value) {
        None => {
            return RunOutcome {
                writes,
                warned,
                teardown,
                result: Err(
                    RunError::UnknownSourceCode { index: 0, value: p0.current_value },
                ),
            };
        },
        Some(c) => c,
    };
    let target = match toggle_target(source1, source2, current) {
        None => {
            return RunOutcome {
                writes,
                warned,
                teardown,
                result: Err(RunError::NotToggleOption { index: 0, current }),
            };
        },
        Some(t) => t,
    };
    writes.push(WriteCmd { index: 0, feature: code0, value: target.code() as u16 });
    let ghost first_warned = warned@;
    if !p0.write_ok {
        warned.push(0);
    }
    proof {
        lemma_warned_step(first_warned, probes@, 0, !p0.write_ok);
    }
    let mut i: usize = 1;
    while i < n
        invariant
            1 <= i <= n,
            n == probes@.len(),
            spec_toggle_target(source1, source2, probes@[0]) == Some(target),
            ready_upto(probes@, i as int),
            spec_teardown_prefix(teardown@, i as int),
            spec_writes_prefix(writes@, probes@, i as int, target.spec_code() as u16),
            spec_warned_prefix(warned@, probes@, i as int),
        decreases n - i,
    {
        let p = probes[i];
        teardown.push(i);
        if !p.caps_ok {
            return RunOutcome {
                writes,
                warned,
                teardown,
                result: Err(RunError::CapabilityRefresh { index: i }),
            };
        }
        match plan_write(p.feature_code, target) {
            None => {
                return RunOutcome {
                    writes,
                    warned,
                    teardown,
                    result: Err(RunError::FeatureNotAccessible { index: i }),
                };
            },
            Some(w) => {
                writes.push(WriteCmd { index: i, feature: w.0, value: w.1 });
                let ghost old_warned = warned@;
                if !p.write_ok {
                    warned.push(i);
                }
                proof {
                    lemma_warned_step(old_warned, probes@, i, !p.write_ok);
                }
            },
        }
        i += 1;
    }
    RunOutcome { writes, warned, teardown, result: Ok(()) }
}

} // verus!
