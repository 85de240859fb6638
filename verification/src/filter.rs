//! The filter specification and the display locator.
//!
//! A filter is a conjunction of optional predicates over a display's
//! identification.  It is built once from the command-line values and
//! is immutable afterwards.  The locator walks the enumerated displays
//! in reported order, refreshes capability data where the filter asks
//! for it, and keeps exactly the displays the filter matches.

use crate::display::{Backend, DisplayInfo};
use crate::seqs::lemma_push_contains;
use vstd::prelude::*;

verus! {

/// A conjunction of optional predicates over display identification.
///
/// Every present predicate must match for a display to match; an
/// absent predicate matches every display.  The backend whitelist
/// matches when any of its entries does.
#[derive(Clone, Debug)]
pub struct FilterSpec {
    /// Backend whitelist; `None` admits every backend.
    pub backends: Option<Vec<Backend>>,
    /// Exact-match display identifier.
    pub id: Option<String>,
    /// Exact-match manufacturer identifier.
    pub manufacturer: Option<String>,
    /// Exact-match model name.
    pub model: Option<String>,
    /// Exact-match serial number.
    pub serial: Option<String>,
}

impl FilterSpec {
    /// The backend whitelist admits the display's backend.
    pub open spec fn spec_backend_matches(self, d: DisplayInfo) -> bool {
        match self.backends {
            None => true,
            Some(bs) => exists|i: int| 0 <= i < bs@.len() && bs@[i] == d.backend,
        }
    }

    /// The identifier predicate admits the display.
    pub open spec fn spec_id_matches(self, d: DisplayInfo) -> bool {
        match self.id {
            None => true,
            Some(x) => d.id@ == x@,
        }
    }

    /// The manufacturer predicate admits the display; a display that
    /// reports no manufacturer matches only an absent predicate.
    pub open spec fn spec_manufacturer_matches(self, d: DisplayInfo) -> bool {
        match self.manufacturer {
            None => true,
            Some(x) => match d.manufacturer_id {
                None => false,
                Some(v) => v@ == x@,
            },
        }
    }

    /// The model predicate admits the display; a display that reports
    /// no model name matches only an absent predicate.
    pub open spec fn spec_model_matches(self, d: DisplayInfo) -> bool {
        match self.model {
            None => true,
            Some(x) => match d.model_name {
                None => false,
                Some(v) => v@ == x@,
            },
        }
    }

    /// The serial predicate admits the display; a display that reports
    /// no serial number matches only an absent predicate.
    pub open spec fn spec_serial_matches(self, d: DisplayInfo) -> bool {
        match self.serial {
            None => true,
            Some(x) => match d.serial_number {
                None => false,
                Some(v) => v@ == x@,
            },
        }
    }

    /// The filter admits the display: every present predicate does.
    pub open spec fn spec_matches(self, d: DisplayInfo) -> bool {
        &&& self.spec_backend_matches(d)
        &&& self.spec_id_matches(d)
        &&& self.spec_manufacturer_matches(d)
        &&& self.spec_model_matches(d)
        &&& self.spec_serial_matches(d)
    }

    /// The filter asks for a capability refresh before matching: only
    /// a model-name predicate does, because on some backends the model
    /// name is populated only by a capability query.
    pub open spec fn spec_needs_capability_refresh(self) -> bool {
        self.model is Some
    }

    /// Builds the filter from the raw command-line values.  Backend
    /// names must parse against the closed backend set; the first
    /// unparseable name is reported by position and nothing is built.
    /// An absent flag arrives as `None`, the backend flag as an empty
    /// list.
    pub fn build(
        backend_names: &Vec<String>,
        id: Option<String>,
        manufacturer: Option<String>,
        model: Option<String>,
        serial: Option<String>,
    ) -> (r: Result<FilterSpec, usize>)
        ensures
            match r {
                Ok(f) => {
                    &&& forall|j: int|
                        0 <= j < backend_names@.len() ==> Backend::spec_parse(
                            backend_names@[j]@,
                        ) is Some
                    &&& if backend_names@.len() == 0 {
                        f.backends is None
                    } else {
                        &&& f.backends is Some
                        &&& f.backends->0@.len() == backend_names@.len()
                        &&& forall|j: int|
                            0 <= j < backend_names@.len() ==> f.backends->0@[j]
                                == Backend::spec_parse(backend_names@[j]@)->0
                    }
                    &&& f.id == id
                    &&& f.manufacturer == manufacturer
                    &&& f.model == model
                    &&& f.serial == serial
                },
                Err(i) => {
                    &&& i < backend_names@.len()
                    &&& Backend::spec_parse(backend_names@[i as int]@) is None
                    &&& forall|j: int| 0 <= j < i ==> Backend::spec_parse(backend_names@[j]@) is Some
                },
            },
    {
        let n = backend_names.len();
        let mut parsed: Vec<Backend> = Vec::new();
        let mut i: usize = 0;
        while i < n
            invariant
                i <= n,
                n == backend_names@.len(),
                parsed@.len() == i,
                forall|j: int| 0 <= j < i ==> Backend::spec_parse(backend_names@[j]@) is Some,
                forall|j: int|
                    0 <= j < i ==> parsed@[j] == Backend::spec_parse(backend_names@[j]@)->0,
            decreases n - i,
        {
            match Backend::parse(backend_names[i].as_str()) {
                Some(b) => parsed.push(b),
                None => {
                    return Err(i);
                },
            }
            i += 1;
        }
        let backends = if parsed.len() == 0 {
            None
        } else {
            Some(parsed)
        };
        Ok(FilterSpec { backends, id, manufacturer, model, serial })
    }

    /// Decides whether the filter admits the display.
    pub fn matches(&self, d: &DisplayInfo) -> (r: bool)
        ensures
            r == self.spec_matches(*d),
    {
        match &self.backends {
            None => {},
            Some(bs) => {
                let n = bs.len();
                let mut i: usize = 0;
                let mut found = false;
                while i < n
                    invariant
                        i <= n,
                        n == bs@.len(),
                        found == exists|j: int| 0 <= j < i && bs@[j] == d.backend,
                    decreases n - i,
                {
                    if bs[i] == d.backend {
                        found = true;
                    }
                    i += 1;
                }
                if !found {
                    return false;
                }
            },
        }
        match &self.id {
            None => {},
            Some(x) => {
                if !(d.id == *x) {
                    return false;
                }
            },
        }
        match (&self.manufacturer, &d.manufacturer_id) {
            (None, _) => {},
            (Some(_), None) => {
                return false;
            },
            (Some(x), Some(v)) => {
                if !(*v == *x) {
                    return false;
                }
            },
        }
        match (&self.model, &d.model_name) {
            (None, _) => {},
            (Some(_), None) => {
                return false;
            },
            (Some(x), Some(v)) => {
                if !(*v == *x) {
                    return false;
                }
            },
        }
        match (&self.serial, &d.serial_number) {
            (None, _) => {},
            (Some(_), None) => {
                return false;
            },
            (Some(x), Some(v)) => {
                if !(*v == *x) {
                    return false;
                }
            },
        }
        true
    }

    /// Decides whether the filter asks for a capability refresh.
    pub fn needs_capability_refresh(&self) -> (r: bool)
        ensures
            r == self.spec_needs_capability_refresh(),
    {
        self.model.is_some()
    }

    /// A probe of this display must refresh capabilities first: the
    /// filter asks for a refresh and the display sits on the one
    /// backend known to omit the model name without it.
    pub open spec fn spec_probe_needs_refresh(self, b: Backend) -> bool {
        self.spec_needs_capability_refresh() && b == Backend::WinApi
    }

    /// Decides whether a probe of a display on backend `b` must
    /// refresh its capabilities before matching.
    pub fn probe_needs_refresh(&self, b: Backend) -> (r: bool)
        ensures
            r == self.spec_probe_needs_refresh(b),
    {
        self.needs_capability_refresh() && b == Backend::WinApi
    }
}

/// What probing one enumerated display yielded: its identification as
/// enumerated, and — where the filter asked for a refresh — whether
/// the refresh succeeded and the identification it produced.
#[derive(Clone, Debug)]
pub struct LocateProbe {
    /// Identification as enumerated, before any refresh.
    pub info: DisplayInfo,
    /// Whether the capability refresh succeeded, where one was made.
    pub refresh_ok: bool,
    /// Identification after a successful refresh.
    pub refreshed: DisplayInfo,
}

/// The identification the filter is matched against: the refreshed
/// one where the probe had to refresh, the enumerated one otherwise.
pub open spec fn spec_effective_info(f: FilterSpec, p: LocateProbe) -> DisplayInfo {
    if f.spec_probe_needs_refresh(p.info.backend) {
        p.refreshed
    } else {
        p.info
    }
}

/// The locator: walks the enumerated displays in reported order and
/// selects the positions of exactly those the filter admits, each
/// matched against its effective identification.  A failed capability
/// refresh aborts the whole listing at the first failing position.
pub fn locate(f: &FilterSpec, probes: &Vec<LocateProbe>) -> (r: Result<Vec<usize>, usize>)
    ensures
        match r {
            Ok(sel) => {
                &&& forall|j: int|
                    0 <= j < probes@.len() ==> (f.spec_probe_needs_refresh(probes@[j].info.backend)
                        ==> probes@[j].refresh_ok)
                &&& forall|j: int|
                    0 <= j < probes@.len() ==> (sel@.contains(j as usize) <==> f.spec_matches(
                        spec_effective_info(*f, probes@[j]),
                    ))
                &&& forall|k: int| 0 <= k < sel@.len() ==> (sel@[k] as int) < probes@.len()
                &&& forall|k1: int, k2: int|
                    0 <= k1 < k2 < sel@.len() ==> sel@[k1] < sel@[k2]
            },
            Err(i) => {
                &&& (i as int) < probes@.len()
                &&& f.spec_probe_needs_refresh(probes@[i as int].info.backend)
                &&& !probes@[i as int].refresh_ok
                &&& forall|j: int|
                    0 <= j < i ==> (f.spec_probe_needs_refresh(probes@[j].info.backend)
                        ==> probes@[j].refresh_ok)
            },
        },
{
    let n = probes.len();
    let mut sel: Vec<usize> = Vec::new();
    let mut i: usize = 0;
    while i < n
        invariant
            i <= n,
            n == probes@.len(),
            forall|j: int|
                0 <= j < i ==> (f.spec_probe_needs_refresh(probes@[j].info.backend)
                    ==> probes@[j].refresh_ok),
            forall|j: int|
                0 <= j < i ==> (sel@.contains(j as usize) <==> f.spec_matches(
                    spec_effective_info(*f, probes@[j]),
                )),
            forall|k: int| 0 <= k < sel@.len() ==> (sel@[k] as int) < i,
            forall|k1: int, k2: int| 0 <= k1 < k2 < sel@.len() ==> sel@[k1] < sel@[k2],
        decreases n - i,
    {
        let p = &probes[i];
        let effective: &DisplayInfo = if f.probe_needs_refresh(p.info.backend) {
            if !p.refresh_ok {
                return Err(i);
            }
            &p.refreshed
        } else {
            &p.info
        };
        proof {
            if sel@.contains(i as usize) {
                let k = choose|k: int| 0 <= k < sel@.len() && sel@[k] == i as usize;
                assert(false);
            }
        }
        if f.matches(effective) {
            let ghost old_sel = sel@;
            sel.push(i);
            proof {
                assert forall|j: int| 0 <= j <= i implies (#[trigger] sel@.contains(j as usize)
                    <==> (old_sel.contains(j as usize) || j == i)) by {
                    lemma_push_contains(old_sel, i as usize, j as usize);
                }
            }
        }
        i += 1;
    }
    Ok(sel)
}

/// Law: a filter with every predicate absent admits every display.
pub proof fn lemma_empty_filter_matches_all(f: FilterSpec, d: DisplayInfo)
    requires
        f.backends is None,
        f.id is None,
        f.manufacturer is None,
        f.model is None,
        f.serial is None,
    ensures
        f.spec_matches(d),
{
}

/// Law: the filter is the conjunction of its predicates; it admits a
/// display exactly when each present predicate admits it on its own.
pub proof fn lemma_matches_is_conjunction(f: FilterSpec, d: DisplayInfo)
    ensures
        f.spec_matches(d) <==> {
            &&& f.spec_backend_matches(d)
            &&& f.spec_id_matches(d)
            &&& f.spec_manufacturer_matches(d)
            &&& f.spec_model_matches(d)
            &&& f.spec_serial_matches(d)
        },
{
}

/// Law: a model-name predicate, and nothing else, asks for the
/// capability refresh.
pub proof fn lemma_model_filter_forces_refresh(f: FilterSpec)
    ensures
        f.spec_needs_capability_refresh() <==> f.model is Some,
{
}

} // verus!
