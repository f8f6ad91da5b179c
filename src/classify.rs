//! What the event-log reports select, and how they describe each event.

use vstd::prelude::*;

use crate::dispatch::Extractor;
use crate::event::{str_eq, Data, Event, Name, OuterName};

verus! {

/// What a logon type means.
pub open spec fn logon_type_meaning(t: Seq<char>) -> Option<Seq<char>> {
    if t == "2"@ {
        Some("Logon via console"@)
    } else     if t == "3"@ {
        Some("Network Logon"@)
    } else     if t == "4"@ {
        Some("Batch Logon"@)
    } else     if t == "5"@ {
        Some("Windows Service Logon"@)
    } else     if t == "7"@ {
        Some("Credentials used to unlock screen, RDP session reconnect"@)
    } else     if t == "8"@ {
        Some("Network Logon sending credentials (cleartext)"@)
    } else     if t == "9"@ {
        Some("Different credentials used than logged on user"@)
    } else     if t == "10"@ {
        Some("Remote interactive logon (RDP)"@)
    } else     if t == "11"@ {
        Some("Cached credentials used to login"@)
    } else     if t == "12"@ {
        Some("Cached remote interactive"@)
    } else     if t == "13"@ {
        Some("Cached unlock"@)
    } else {
        None
    }
}

/// What a logon type means, for the types that the logon report selects.
pub fn logon_type_description(t: &str) -> (r: Option<&'static str>)
    ensures
        match logon_type_meaning(t@) {
            Some(d) => r matches Some(s) && s@ == d,
            None => r is None,
        },
{
    if str_eq(t, "2") {
        return Some("Logon via console");
    }
    if str_eq(t, "3") {
        return Some("Network Logon");
    }
    if str_eq(t, "4") {
        return Some("Batch Logon");
    }
    if str_eq(t, "5") {
        return Some("Windows Service Logon");
    }
    if str_eq(t, "7") {
        return Some("Credentials used to unlock screen, RDP session reconnect");
    }
    if str_eq(t, "8") {
        return Some("Network Logon sending credentials (cleartext)");
    }
    if str_eq(t, "9") {
        return Some("Different credentials used than logged on user");
    }
    if str_eq(t, "10") {
        return Some("Remote interactive logon (RDP)");
    }
    if str_eq(t, "11") {
        return Some("Cached credentials used to login");
    }
    if str_eq(t, "12") {
        return Some("Cached remote interactive");
    }
    if str_eq(t, "13") {
        return Some("Cached unlock");
    }
    None
}

/// What an event of the logon report means, for events other than a successful logon.
pub open spec fn logon_event_meaning(id: u32) -> Option<Seq<char>> {
    if id == 4625 {
        Some("Failed Logon"@)
    } else     if id == 4634 || id == 4647 {
        Some("Successful Logoff"@)
    } else     if id == 4648 {
        Some("Logon using explicit credentials (runas)"@)
    } else     if id == 4672 {
        Some("account logon with superuser rights (administrator)"@)
    } else     if id == 4720 {
        Some("an account was created"@)
    } else {
        None
    }
}

/// What an event of the logon report means, for events other than a successful
/// logon (4624), whose meaning depends on its logon type.
pub fn logon_event_description(id: u32) -> (r: Option<&'static str>)
    ensures
        match logon_event_meaning(id) {
            Some(d) => r matches Some(s) && s@ == d,
            None => r is None,
        },
{
    if id == 4625 {
        Some("Failed Logon")
    } else     if id == 4634 || id == 4647 {
        Some("Successful Logoff")
    } else     if id == 4648 {
        Some("Logon using explicit credentials (runas)")
    } else     if id == 4672 {
        Some("account logon with superuser rights (administrator)")
    } else     if id == 4720 {
        Some("an account was created")
    } else {
        None
    }
}

/// What an event of the authentication report means.
pub open spec fn authentication_event_meaning(id: u32) -> Option<Seq<char>> {
    if id == 4776 {
        Some("Successful/Failed account authentication"@)
    } else     if id == 4768 {
        Some("Ticket Granting Ticket was granted (successful logon)"@)
    } else     if id == 4769 {
        Some("Service Ticket was requested (access to server resource)"@)
    } else     if id == 4771 {
        Some("Pre-authentication failed (failed logon))"@)
    } else {
        None
    }
}

/// What an event of the authentication report means.
pub fn authentication_event_description(id: u32) -> (r: Option<&'static str>)
    ensures
        match authentication_event_meaning(id) {
            Some(d) => r matches Some(s) && s@ == d,
            None => r is None,
        },
{
    if id == 4776 {
        Some("Successful/Failed account authentication")
    } else     if id == 4768 {
        Some("Ticket Granting Ticket was granted (successful logon)")
    } else     if id == 4769 {
        Some("Service Ticket was requested (access to server resource)")
    } else     if id == 4771 {
        Some("Pre-authentication failed (failed logon))")
    } else {
        None
    }
}

/// What a session event of the remote-desktop report means.
pub open spec fn rdp_event_meaning(id: u32) -> Option<Seq<char>> {
    if id == 4778 {
        Some("Session Connected/Reconnected"@)
    } else     if id == 4779 {
        Some("Session Disconnected"@)
    } else {
        None
    }
}

/// What a session event of the remote-desktop report means; successful
/// logons (4624) are selected by their logon type.
pub fn rdp_event_description(id: u32) -> (r: Option<&'static str>)
    ensures
        match rdp_event_meaning(id) {
            Some(d) => r matches Some(s) && s@ == d,
            None => r is None,
        },
{
    if id == 4778 {
        Some("Session Connected/Reconnected")
    } else     if id == 4779 {
        Some("Session Disconnected")
    } else {
        None
    }
}

/// What a service event of the System log means.
pub open spec fn system_service_event_meaning(id: u32) -> Option<Seq<char>> {
    if id == 7034 {
        Some("A service crashed unexpectedly"@)
    } else     if id == 7035 {
        Some("A service sent a Start/Stop control"@)
    } else     if id == 7036 {
        Some("A service started or stopped"@)
    } else     if id == 7040 {
        Some("The start type changed (Boot|On request|Disabled)"@)
    } else     if id == 7045 {
        Some("A service was installed on the system"@)
    } else {
        None
    }
}

/// What a service event of the System log means.
pub fn system_service_event_description(id: u32) -> (r: Option<&'static str>)
    ensures
        match system_service_event_meaning(id) {
            Some(d) => r matches Some(s) && s@ == d,
            None => r is None,
        },
{
    if id == 7034 {
        Some("A service crashed unexpectedly")
    } else     if id == 7035 {
        Some("A service sent a Start/Stop control")
    } else     if id == 7036 {
        Some("A service started or stopped")
    } else     if id == 7040 {
        Some("The start type changed (Boot|On request|Disabled)")
    } else     if id == 7045 {
        Some("A service was installed on the system")
    } else {
        None
    }
}

/// What a service event of the Security log means.
pub open spec fn security_service_event_meaning(id: u32) -> Option<Seq<char>> {
    if id == 4697 {
        Some("A service was installed on the system"@)
    } else {
        None
    }
}

/// What a service event of the Security log means.
pub fn security_service_event_description(id: u32) -> (r: Option<&'static str>)
    ensures
        match security_service_event_meaning(id) {
            Some(d) => r matches Some(s) && s@ == d,
            None => r is None,
        },
{
    if id == 4697 {
        Some("A service was installed on the system")
    } else {
        None
    }
}

/// An event that a report selects: the logon type it records (empty where
/// none) and what it means.
pub struct Finding {
    pub logon_type: String,
    pub description: &'static str,
}

/// The logon types recorded by the data fields `ds`, in order: each field
/// named `LogonType` with a value.
pub open spec fn logon_types_of(ds: Seq<Data>) -> Seq<Seq<char>>
    decreases ds.len(),
{
    if ds.len() == 0 {
        Seq::empty()
    } else {
        let rest = logon_types_of(ds.drop_last());
        let d = ds.last();
        match (d.name, d.value) {
            (Some(OuterName::Known(Name::LogonType)), Some(v)) => rest.push(v@),
            _ => rest,
        }
    }
}

/// The logon types that an event records.
pub open spec fn event_logon_types(e: Event) -> Seq<Seq<char>> {
    match e.event_data {
        Some(ed) => logon_types_of(ed.events@),
        None => Seq::empty(),
    }
}

/// The logon types recorded by an event, in order.
pub fn logon_types(event: &Event) -> (r: Vec<String>)
    ensures
        r@.map_values(|s: String| s@) == event_logon_types(*event),
{
    let mut out: Vec<String> = Vec::new();
    match &event.event_data {
        None => {
            assert(out@.map_values(|s: String| s@) =~= Seq::<Seq<char>>::empty());
            out
        },
        Some(ed) => {
            let ds = &ed.events;
            let mut i: usize = 0;
            while i < ds.len()
                invariant
                    i <= ds@.len(),
                    out@.map_values(|s: String| s@) == logon_types_of(ds@.take(i as int)),
                decreases ds.len() - i,
            {
                proof {
                    assert(ds@.take(i as int + 1).drop_last() =~= ds@.take(i as int));
                    assert(ds@.take(i as int + 1).last() == ds@[i as int]);
                }
                let d = &ds[i];
                match (&d.name, &d.value) {
                    (Some(OuterName::Known(Name::LogonType)), Some(v)) => {
                        let ghost before = out@;
                        out.push(v.clone());
                        proof {
                            assert(out@.map_values(|s: String| s@) =~= before.map_values(
                                |s: String| s@,
                            ).push(v@));
                        }
                    },
                    _ => {},
                }
                i = i + 1;
            }
            proof {
                assert(ds@.take(ds@.len() as int) =~= ds@);
            }
            out
        },
    }
}

/// What a logon type means to a report: any type of the table for the logon
/// report, type 10 alone for the remote-desktop report.
pub open spec fn type_meaning_for(t: Seq<char>, rdp_only: bool) -> Option<Seq<char>> {
    if rdp_only && t != "10"@ {
        None
    } else {
        logon_type_meaning(t)
    }
}

/// The findings for the logon types `ts`, in order: one for each type that
/// has a meaning to the report.
pub open spec fn type_findings(ts: Seq<Seq<char>>, rdp_only: bool) -> Seq<(Seq<char>, Seq<char>)>
    decreases ts.len(),
{
    if ts.len() == 0 {
        Seq::empty()
    } else {
        let rest = type_findings(ts.drop_last(), rdp_only);
        match type_meaning_for(ts.last(), rdp_only) {
            Some(d) => rest.push((ts.last(), d)),
            None => rest,
        }
    }
}

/// The findings that a report makes of an event: for a successful logon
/// (4624), one per recorded logon type that the report selects; for another
/// event, one without a logon type where the report's table gives it a
/// meaning.
pub open spec fn findings_of(e: Event, rdp_only: bool) -> Seq<(Seq<char>, Seq<char>)> {
    if e.system.event_id == 4624 {
        type_findings(event_logon_types(e), rdp_only)
    } else {
        let m = if rdp_only {
            rdp_event_meaning(e.system.event_id)
        } else {
            logon_event_meaning(e.system.event_id)
        };
        match m {
            Some(d) => seq![(Seq::<char>::empty(), d)],
            None => Seq::empty(),
        }
    }
}

/// The plain view of a list of findings.
pub open spec fn findings_view(fs: Seq<Finding>) -> Seq<(Seq<char>, Seq<char>)> {
    fs.map_values(|f: Finding| (f.logon_type@, f.description@))
}

/// The findings of the logon report (`rdp_only` false) or of the
/// remote-desktop report (`rdp_only` true) for one event.
pub fn event_findings(event: &Event, rdp_only: bool) -> (r: Vec<Finding>)
    ensures
        findings_view(r@) == findings_of(*event, rdp_only),
{
    let mut out: Vec<Finding> = Vec::new();
    if event.system.event_id == 4624 {
        let ts = logon_types(event);
        let ghost tv = ts@.map_values(|s: String| s@);
        let mut i: usize = 0;
        while i < ts.len()
            invariant
                i <= ts@.len(),
                tv == ts@.map_values(|s: String| s@),
                findings_view(out@) == type_findings(tv.take(i as int), rdp_only),
            decreases ts.len() - i,
        {
            proof {
                assert(tv.take(i as int + 1).drop_last() =~= tv.take(i as int));
                assert(tv.take(i as int + 1).last() == ts@[i as int]@);
            }
            let t = ts[i].as_str();
            let selected = if rdp_only { str_eq(t, "10") } else { true };
            if selected {
                match logon_type_description(t) {
                    Some(d) => {
                        let ghost before = out@;
                        out.push(Finding { logon_type: ts[i].clone(), description: d });
                        proof {
                            assert(findings_view(out@) =~= findings_view(before).push((t@, d@)));
                        }
                    },
                    None => {},
                }
            }
            i = i + 1;
        }
        proof {
            assert(tv.take(ts@.len() as int) =~= tv);
        }
        out
    } else {
        let m = if rdp_only {
            rdp_event_description(event.system.event_id)
        } else {
            logon_event_description(event.system.event_id)
        };
        match m {
            Some(d) => {
                out.push(Finding { logon_type: String::new(), description: d });
                assert(findings_view(out@) =~= seq![(Seq::<char>::empty(), d@)]);
            },
            None => {
                assert(findings_view(out@) =~= Seq::<(Seq<char>, Seq<char>)>::empty());
            },
        }
        out
    }
}

/// A single finding without a logon type, where there is a meaning.
pub open spec fn finding_of_meaning(m: Option<Seq<char>>) -> Seq<(Seq<char>, Seq<char>)> {
    match m {
        Some(d) => seq![(Seq::<char>::empty(), d)],
        None => Seq::empty(),
    }
}

/// The findings that the report of extractor `x` makes of an event; none
/// for an extractor that reads no event log.
pub open spec fn report_findings_of(x: Extractor, e: Event) -> Seq<(Seq<char>, Seq<char>)> {
    let id = e.system.event_id;
    match x {
        Extractor::Logons => findings_of(e, false),
        Extractor::RdpUsage => findings_of(e, true),
        Extractor::AuthenticationEvents => finding_of_meaning(authentication_event_meaning(id)),
        Extractor::SystemServiceEvents => finding_of_meaning(system_service_event_meaning(id)),
        Extractor::SecurityServiceEvents => finding_of_meaning(security_service_event_meaning(id)),
        _ => Seq::empty(),
    }
}

fn single_finding(m: Option<&'static str>) -> (r: Vec<Finding>)
    ensures
        findings_view(r@) == finding_of_meaning(
            match m {
                Some(d) => Some(d@),
                None => None,
            },
        ),
{
    let mut out: Vec<Finding> = Vec::new();
    match m {
        Some(d) => {
            out.push(Finding { logon_type: String::new(), description: d });
            assert(findings_view(out@) =~= seq![(Seq::<char>::empty(), d@)]);
        },
        None => {
            assert(findings_view(out@) =~= Seq::<(Seq<char>, Seq<char>)>::empty());
        },
    }
    out
}

/// The findings that the report of extractor `x` makes of one event.
pub fn report_findings(x: Extractor, event: &Event) -> (r: Vec<Finding>)
    ensures
        findings_view(r@) == report_findings_of(x, *event),
{
    let id = event.system.event_id;
    match x {
        Extractor::Logons => event_findings(event, false),
        Extractor::RdpUsage => event_findings(event, true),
        Extractor::AuthenticationEvents => single_finding(authentication_event_description(id)),
        Extractor::SystemServiceEvents => single_finding(system_service_event_description(id)),
        Extractor::SecurityServiceEvents => single_finding(security_service_event_description(id)),
        _ => {
            let out: Vec<Finding> = Vec::new();
            assert(findings_view(out@) =~= Seq::<(Seq<char>, Seq<char>)>::empty());
            out
        },
    }
}

} // verus!
