//! `svcs -H -o state,fmri`: SMF service states.
use vstd::prelude::*;
use crate::text::{
    chars_eq_str, lines, lines_exec, split2_ws, split2_ws_exec, string_from, string_of, trim,
    trim_chars, to_chars, views,
};

verus! {

broadcast use vstd::slice::group_slice_axioms;

/// A service and its state.
pub struct ServiceInfo {
    pub state: ServiceState,
    pub fmri: String,
}

/// SMF state of a service.
#[derive(Debug, Clone, PartialEq, Eq)]
pub enum ServiceState {
    Online,
    Offline,
    Disabled,
    Maintenance,
    Degraded,
    Uninitialized,
    Unknown(String),
}

/// The mathematical value of a [`ServiceState`].
pub enum SpecServiceState {
    Online,
    Offline,
    Disabled,
    Maintenance,
    Degraded,
    Uninitialized,
    Unknown(Seq<char>),
}

impl View for ServiceState {
    type V = SpecServiceState;

    open spec fn view(&self) -> SpecServiceState {
        match self {
            ServiceState::Online => SpecServiceState::Online,
            ServiceState::Offline => SpecServiceState::Offline,
            ServiceState::Disabled => SpecServiceState::Disabled,
            ServiceState::Maintenance => SpecServiceState::Maintenance,
            ServiceState::Degraded => SpecServiceState::Degraded,
            ServiceState::Uninitialized => SpecServiceState::Uninitialized,
            ServiceState::Unknown(s) => SpecServiceState::Unknown(s@),
        }
    }
}

/// The state named by a word of `svcs` output (a trailing `*` marks a
/// transition).
pub open spec fn spec_service_state(s: Seq<char>) -> SpecServiceState {
    let t = trim(s);
    if t == "online"@ || t == "online*"@ {
        SpecServiceState::Online
    } else if t == "offline"@ || t == "offline*"@ {
        SpecServiceState::Offline
    } else if t == "disabled"@ {
        SpecServiceState::Disabled
    } else if t == "maintenance"@ {
        SpecServiceState::Maintenance
    } else if t == "degraded"@ {
        SpecServiceState::Degraded
    } else if t == "uninitialized"@ {
        SpecServiceState::Uninitialized
    } else {
        SpecServiceState::Unknown(t)
    }
}

/// How a state is written.
pub open spec fn spec_service_state_text(s: SpecServiceState) -> Seq<char> {
    match s {
        SpecServiceState::Online => "online"@,
        SpecServiceState::Offline => "offline"@,
        SpecServiceState::Disabled => "disabled"@,
        SpecServiceState::Maintenance => "maintenance"@,
        SpecServiceState::Degraded => "degraded"@,
        SpecServiceState::Uninitialized => "uninitialized"@,
        SpecServiceState::Unknown(t) => t,
    }
}

impl ServiceState {
    /// The state named by a word of `svcs` output.
    pub fn from_state(s: &str) -> (r: ServiceState)
        ensures
            r@ == spec_service_state(s@),
    {
        let all = to_chars(s);
        let t = trim_chars(all.as_slice());
        if chars_eq_str(t, "online") || chars_eq_str(t, "online*") {
            ServiceState::Online
        } else if chars_eq_str(t, "offline") || chars_eq_str(t, "offline*") {
            ServiceState::Offline
        } else if chars_eq_str(t, "disabled") {
            ServiceState::Disabled
        } else if chars_eq_str(t, "maintenance") {
            ServiceState::Maintenance
        } else if chars_eq_str(t, "degraded") {
            ServiceState::Degraded
        } else if chars_eq_str(t, "uninitialized") {
            ServiceState::Uninitialized
        } else {
            ServiceState::Unknown(string_of(t))
        }
    }

    /// How the state is written (its `Display`).
    pub fn to_text(&self) -> (r: String)
        ensures
            r@ == spec_service_state_text(self@),
    {
        match self {
            ServiceState::Online => string_from("online"),
            ServiceState::Offline => string_from("offline"),
            ServiceState::Disabled => string_from("disabled"),
            ServiceState::Maintenance => string_from("maintenance"),
            ServiceState::Degraded => string_from("degraded"),
            ServiceState::Uninitialized => string_from("uninitialized"),
            ServiceState::Unknown(s) => s.clone(),
        }
    }
}

/// A line of `svcs` output read as (state, fmri), if it holds both.
pub open spec fn svcs_entry(l: Seq<char>) -> Option<(SpecServiceState, Seq<char>)> {
    let t = trim(l);
    if t.len() == 0 {
        None
    } else {
        let (state, rest) = split2_ws(t);
        let fmri = match rest {
            Some(r) => trim(r),
            None => seq![],
        };
        if fmri.len() == 0 {
            None
        } else {
            Some((spec_service_state(state), fmri))
        }
    }
}

/// The entries of the lines, in order.
pub open spec fn svcs_entries(ls: Seq<Seq<char>>) -> Seq<(SpecServiceState, Seq<char>)>
    decreases ls.len(),
{
    if ls.len() == 0 {
        seq![]
    } else {
        let rest = svcs_entries(ls.drop_last());
        match svcs_entry(ls.last()) {
            Some(e) => rest.push(e),
            None => rest,
        }
    }
}

/// The view of a list of services.
pub open spec fn services_view(v: Seq<ServiceInfo>) -> Seq<(SpecServiceState, Seq<char>)> {
    v.map_values(|s: ServiceInfo| (s.state@, s.fmri@))
}

/// Parse output of `svcs -H -o state,fmri <service_names>`.
/// Each line: STATE FMRI (whitespace-separated); lines without an FMRI
/// are skipped. Never fails.
pub fn parse_svcs(output: &str) -> (r: Result<Vec<ServiceInfo>, super::ParseError>)
    ensures
        match r {
            Ok(v) => services_view(v@) == svcs_entries(lines(output@)),
            Err(_) => false,
        },
{
    let all = to_chars(output);
    let ls = lines_exec(all.as_slice());
    let ghost lv = views(ls@);
    let mut out: Vec<ServiceInfo> = Vec::new();
    let mut i: usize = 0;
    while i < ls.len()
        invariant
            i <= ls@.len(),
            lv == views(ls@),
            lv == lines(output@),
            services_view(out@) == svcs_entries(lv.take(i as int)),
        decreases ls@.len() - i,
    {
        assert(lv.take(i + 1).drop_last() =~= lv.take(i as int));
        assert(lv.take(i + 1).last() == ls@[i as int]@);
        let t = trim_chars(ls[i]);
        if t.len() > 0 {
            let (state, rest) = split2_ws_exec(t);
            let fmri: &[char] = match rest {
                Some(r) => trim_chars(r),
                None => vstd::slice::slice_subrange(t, 0, 0),
            };
            assert(rest is None ==> fmri@ =~= Seq::<char>::empty());
            if fmri.len() > 0 {
                let st = ServiceState::from_state(string_of(state).as_str());
                let ghost before = out@;
                out.push(ServiceInfo { state: st, fmri: string_of(fmri) });
                assert(services_view(out@) =~= services_view(before).push((st@, fmri@)));
            }
        }
        i = i + 1;
    }
    assert(lv.take(i as int) =~= lv);
    Ok(out)
}

} // verus!
