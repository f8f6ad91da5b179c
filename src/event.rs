//! Typed events decoded from event-log records.
//!
//! The data fields of an event are named. Names from the documented set are
//! held as `Name` variants; any other name is kept as it was written, so an
//! unfamiliar field never makes an event undecodable.

use vstd::prelude::*;
use vstd::string::*;

verus! {

/// The data field names that the library knows.
#[derive(Clone, Copy, Debug, PartialEq, Eq, Structural, Hash)]
pub enum Name {
    SubjectUserSid,
    SubjectUserName,
    SubjectDomainName,
    SubjectLogonId,
    TargetUserSid,
    TargetUserName,
    TargetDomainName,
    TargetLogonId,
    LogonType,
    LogonProcessName,
    AuthenticationPackageName,
    WorkstationName,
    LogonGuid,
    TransmittedServices,
    LmPackageName,
    KeyLength,
    ProcessId,
    ProcessName,
    IpAddress,
    IpPort,
    ImpersonationLevel,
    RestrictedAdminMode,
    TargetOutboundUserName,
    TargetOutboundDomainName,
    VirtualAccount,
    TargetLinkedLogonId,
    ElevatedToken,
    MandatoryLabel,
    NewProcessId,
    NewProcessName,
    TokenElevationType,
    CommandLine,
    ParentProcessName,
    TargetLogonGuid,
    TargetServerName,
    TargetInfo,
    PreviousTime,
    NewTime,
    TargetProcessId,
    TargetProcessName,
    LoadOptions,
    DisableIntegrityChecks,
    HypervisorDebug,
    Status,
    PackageName,
    RemoteEventLogging,
    VsmLaunchType,
    HypervisorLaunchType,
    TestSigning,
    AdvancedOptions,
    SubStatus,
    KernelDebug,
    Workstation,
    FlightSigning,
    FailureReason,
    ConfigAccessPolicy,
    HypervisorLoadOptions,
    PuaCount,
    TargetSid,
    PuaPolicyId,
    AccessGranted,
    PrivilegeList,
    SamAccountName,
    SidHistory,
    MemberName,
    Dummy,
    DisplayName,
    AccessRemoved,
    MemberSid,
    UserPrincipalName,
    CallerProcessId,
}

/// The text of a known field name.
pub open spec fn name_text(n: Name) -> Seq<char> {
    match n {
        Name::SubjectUserSid => "SubjectUserSid"@,
        Name::SubjectUserName => "SubjectUserName"@,
        Name::SubjectDomainName => "SubjectDomainName"@,
        Name::SubjectLogonId => "SubjectLogonId"@,
        Name::TargetUserSid => "TargetUserSid"@,
        Name::TargetUserName => "TargetUserName"@,
        Name::TargetDomainName => "TargetDomainName"@,
        Name::TargetLogonId => "TargetLogonId"@,
        Name::LogonType => "LogonType"@,
        Name::LogonProcessName => "LogonProcessName"@,
        Name::AuthenticationPackageName => "AuthenticationPackageName"@,
        Name::WorkstationName => "WorkstationName"@,
        Name::LogonGuid => "LogonGuid"@,
        Name::TransmittedServices => "TransmittedServices"@,
        Name::LmPackageName => "LmPackageName"@,
        Name::KeyLength => "KeyLength"@,
        Name::ProcessId => "ProcessId"@,
        Name::ProcessName => "ProcessName"@,
        Name::IpAddress => "IpAddress"@,
        Name::IpPort => "IpPort"@,
        Name::ImpersonationLevel => "ImpersonationLevel"@,
        Name::RestrictedAdminMode => "RestrictedAdminMode"@,
        Name::TargetOutboundUserName => "TargetOutboundUserName"@,
        Name::TargetOutboundDomainName => "TargetOutboundDomainName"@,
        Name::VirtualAccount => "VirtualAccount"@,
        Name::TargetLinkedLogonId => "TargetLinkedLogonId"@,
        Name::ElevatedToken => "ElevatedToken"@,
        Name::MandatoryLabel => "MandatoryLabel"@,
        Name::NewProcessId => "NewProcessId"@,
        Name::NewProcessName => "NewProcessName"@,
        Name::TokenElevationType => "TokenElevationType"@,
        Name::CommandLine => "CommandLine"@,
        Name::ParentProcessName => "ParentProcessName"@,
        Name::TargetLogonGuid => "TargetLogonGuid"@,
        Name::TargetServerName => "TargetServerName"@,
        Name::TargetInfo => "TargetInfo"@,
        Name::PreviousTime => "PreviousTime"@,
        Name::NewTime => "NewTime"@,
        Name::TargetProcessId => "TargetProcessId"@,
        Name::TargetProcessName => "TargetProcessName"@,
        Name::LoadOptions => "LoadOptions"@,
        Name::DisableIntegrityChecks => "DisableIntegrityChecks"@,
        Name::HypervisorDebug => "HypervisorDebug"@,
        Name::Status => "Status"@,
        Name::PackageName => "PackageName"@,
        Name::RemoteEventLogging => "RemoteEventLogging"@,
        Name::VsmLaunchType => "VsmLaunchType"@,
        Name::HypervisorLaunchType => "HypervisorLaunchType"@,
        Name::TestSigning => "TestSigning"@,
        Name::AdvancedOptions => "AdvancedOptions"@,
        Name::SubStatus => "SubStatus"@,
        Name::KernelDebug => "KernelDebug"@,
        Name::Workstation => "Workstation"@,
        Name::FlightSigning => "FlightSigning"@,
        Name::FailureReason => "FailureReason"@,
        Name::ConfigAccessPolicy => "ConfigAccessPolicy"@,
        Name::HypervisorLoadOptions => "HypervisorLoadOptions"@,
        Name::PuaCount => "PuaCount"@,
        Name::TargetSid => "TargetSid"@,
        Name::PuaPolicyId => "PuaPolicyId"@,
        Name::AccessGranted => "AccessGranted"@,
        Name::PrivilegeList => "PrivilegeList"@,
        Name::SamAccountName => "SamAccountName"@,
        Name::SidHistory => "SidHistory"@,
        Name::MemberName => "MemberName"@,
        Name::Dummy => "Dummy"@,
        Name::DisplayName => "DisplayName"@,
        Name::AccessRemoved => "AccessRemoved"@,
        Name::MemberSid => "MemberSid"@,
        Name::UserPrincipalName => "UserPrincipalName"@,
        Name::CallerProcessId => "CallerProcessId"@,
    }
}

/// Whether two strings hold the same characters.
pub fn str_eq(a: &str, b: &str) -> (r: bool)
    ensures
        r == (a@ == b@),
{
    let n = a.unicode_len();
    if n != b.unicode_len() {
        return false;
    }
    let mut i: usize = 0;
    while i < n
        invariant
            n == a@.len(),
            n == b@.len(),
            i <= n,
            forall|j: int| 0 <= j < i ==> a@[j] == b@[j],
        decreases n - i,
    {
        if a.get_char(i) != b.get_char(i) {
            return false;
        }
        i = i + 1;
    }
    assert(a@ =~= b@);
    true
}

impl Name {
    /// The name as written in an event.
    pub fn as_str(&self) -> (r: &'static str)
        ensures
            r@ == name_text(*self),
    {
        match self {
            Name::SubjectUserSid => "SubjectUserSid",
            Name::SubjectUserName => "SubjectUserName",
            Name::SubjectDomainName => "SubjectDomainName",
            Name::SubjectLogonId => "SubjectLogonId",
            Name::TargetUserSid => "TargetUserSid",
            Name::TargetUserName => "TargetUserName",
            Name::TargetDomainName => "TargetDomainName",
            Name::TargetLogonId => "TargetLogonId",
            Name::LogonType => "LogonType",
            Name::LogonProcessName => "LogonProcessName",
            Name::AuthenticationPackageName => "AuthenticationPackageName",
            Name::WorkstationName => "WorkstationName",
            Name::LogonGuid => "LogonGuid",
            Name::TransmittedServices => "TransmittedServices",
            Name::LmPackageName => "LmPackageName",
            Name::KeyLength => "KeyLength",
            Name::ProcessId => "ProcessId",
            Name::ProcessName => "ProcessName",
            Name::IpAddress => "IpAddress",
            Name::IpPort => "IpPort",
            Name::ImpersonationLevel => "ImpersonationLevel",
            Name::RestrictedAdminMode => "RestrictedAdminMode",
            Name::TargetOutboundUserName => "TargetOutboundUserName",
            Name::TargetOutboundDomainName => "TargetOutboundDomainName",
            Name::VirtualAccount => "VirtualAccount",
            Name::TargetLinkedLogonId => "TargetLinkedLogonId",
            Name::ElevatedToken => "ElevatedToken",
            Name::MandatoryLabel => "MandatoryLabel",
            Name::NewProcessId => "NewProcessId",
            Name::NewProcessName => "NewProcessName",
            Name::TokenElevationType => "TokenElevationType",
            Name::CommandLine => "CommandLine",
            Name::ParentProcessName => "ParentProcessName",
            Name::TargetLogonGuid => "TargetLogonGuid",
            Name::TargetServerName => "TargetServerName",
            Name::TargetInfo => "TargetInfo",
            Name::PreviousTime => "PreviousTime",
            Name::NewTime => "NewTime",
            Name::TargetProcessId => "TargetProcessId",
            Name::TargetProcessName => "TargetProcessName",
            Name::LoadOptions => "LoadOptions",
            Name::DisableIntegrityChecks => "DisableIntegrityChecks",
            Name::HypervisorDebug => "HypervisorDebug",
            Name::Status => "Status",
            Name::PackageName => "PackageName",
            Name::RemoteEventLogging => "RemoteEventLogging",
            Name::VsmLaunchType => "VsmLaunchType",
            Name::HypervisorLaunchType => "HypervisorLaunchType",
            Name::TestSigning => "TestSigning",
            Name::AdvancedOptions => "AdvancedOptions",
            Name::SubStatus => "SubStatus",
            Name::KernelDebug => "KernelDebug",
            Name::Workstation => "Workstation",
            Name::FlightSigning => "FlightSigning",
            Name::FailureReason => "FailureReason",
            Name::ConfigAccessPolicy => "ConfigAccessPolicy",
            Name::HypervisorLoadOptions => "HypervisorLoadOptions",
            Name::PuaCount => "PuaCount",
            Name::TargetSid => "TargetSid",
            Name::PuaPolicyId => "PuaPolicyId",
            Name::AccessGranted => "AccessGranted",
            Name::PrivilegeList => "PrivilegeList",
            Name::SamAccountName => "SamAccountName",
            Name::SidHistory => "SidHistory",
            Name::MemberName => "MemberName",
            Name::Dummy => "Dummy",
            Name::DisplayName => "DisplayName",
            Name::AccessRemoved => "AccessRemoved",
            Name::MemberSid => "MemberSid",
            Name::UserPrincipalName => "UserPrincipalName",
            Name::CallerProcessId => "CallerProcessId",
        }
    }

    /// The known name written as `s`, if there is one; names are matched
    /// exactly, case included.
    pub fn from_field_name(s: &str) -> (r: Option<Name>)
        ensures
            r matches Some(n) ==> s@ == name_text(n),
            r is None ==> forall|n: Name| s@ != #[trigger] name_text(n),
    {
        known_name(s)
    }
}

fn known_name(s: &str) -> (r: Option<Name>)
    ensures
        r matches Some(n) ==> s@ == name_text(n),
        r is None ==> forall|n: Name| s@ != #[trigger] name_text(n),
{
    if str_eq(s, "SubjectUserSid") {
        return Some(Name::SubjectUserSid);
    }
    if str_eq(s, "SubjectUserName") {
        return Some(Name::SubjectUserName);
    }
    if str_eq(s, "SubjectDomainName") {
        return Some(Name::SubjectDomainName);
    }
    if str_eq(s, "SubjectLogonId") {
        return Some(Name::SubjectLogonId);
    }
    if str_eq(s, "TargetUserSid") {
        return Some(Name::TargetUserSid);
    }
    if str_eq(s, "TargetUserName") {
        return Some(Name::TargetUserName);
    }
    if str_eq(s, "TargetDomainName") {
        return Some(Name::TargetDomainName);
    }
    if str_eq(s, "TargetLogonId") {
        return Some(Name::TargetLogonId);
    }
    if str_eq(s, "LogonType") {
        return Some(Name::LogonType);
    }
    if str_eq(s, "LogonProcessName") {
        return Some(Name::LogonProcessName);
    }
    if str_eq(s, "AuthenticationPackageName") {
        return Some(Name::AuthenticationPackageName);
    }
    if str_eq(s, "WorkstationName") {
        return Some(Name::WorkstationName);
    }
    if str_eq(s, "LogonGuid") {
        return Some(Name::LogonGuid);
    }
    if str_eq(s, "TransmittedServices") {
        return Some(Name::TransmittedServices);
    }
    if str_eq(s, "LmPackageName") {
        return Some(Name::LmPackageName);
    }
    if str_eq(s, "KeyLength") {
        return Some(Name::KeyLength);
    }
    if str_eq(s, "ProcessId") {
        return Some(Name::ProcessId);
    }
    if str_eq(s, "ProcessName") {
        return Some(Name::ProcessName);
    }
    if str_eq(s, "IpAddress") {
        return Some(Name::IpAddress);
    }
    if str_eq(s, "IpPort") {
        return Some(Name::IpPort);
    }
    if str_eq(s, "ImpersonationLevel") {
        return Some(Name::ImpersonationLevel);
    }
    if str_eq(s, "RestrictedAdminMode") {
        return Some(Name::RestrictedAdminMode);
    }
    if str_eq(s, "TargetOutboundUserName") {
        return Some(Name::TargetOutboundUserName);
    }
    if str_eq(s, "TargetOutboundDomainName") {
        return Some(Name::TargetOutboundDomainName);
    }
    if str_eq(s, "VirtualAccount") {
        return Some(Name::VirtualAccount);
    }
    if str_eq(s, "TargetLinkedLogonId") {
        return Some(Name::TargetLinkedLogonId);
    }
    if str_eq(s, "ElevatedToken") {
        return Some(Name::ElevatedToken);
    }
    if str_eq(s, "MandatoryLabel") {
        return Some(Name::MandatoryLabel);
    }
    if str_eq(s, "NewProcessId") {
        return Some(Name::NewProcessId);
    }
    if str_eq(s, "NewProcessName") {
        return Some(Name::NewProcessName);
    }
    if str_eq(s, "TokenElevationType") {
        return Some(Name::TokenElevationType);
    }
    if str_eq(s, "CommandLine") {
        return Some(Name::CommandLine);
    }
    if str_eq(s, "ParentProcessName") {
        return Some(Name::ParentProcessName);
    }
    if str_eq(s, "TargetLogonGuid") {
        return Some(Name::TargetLogonGuid);
    }
    if str_eq(s, "TargetServerName") {
        return Some(Name::TargetServerName);
    }
    if str_eq(s, "TargetInfo") {
        return Some(Name::TargetInfo);
    }
    if str_eq(s, "PreviousTime") {
        return Some(Name::PreviousTime);
    }
    if str_eq(s, "NewTime") {
        return Some(Name::NewTime);
    }
    if str_eq(s, "TargetProcessId") {
        return Some(Name::TargetProcessId);
    }
    if str_eq(s, "TargetProcessName") {
        return Some(Name::TargetProcessName);
    }
    if str_eq(s, "LoadOptions") {
        return Some(Name::LoadOptions);
    }
    if str_eq(s, "DisableIntegrityChecks") {
        return Some(Name::DisableIntegrityChecks);
    }
    if str_eq(s, "HypervisorDebug") {
        return Some(Name::HypervisorDebug);
    }
    if str_eq(s, "Status") {
        return Some(Name::Status);
    }
    if str_eq(s, "PackageName") {
        return Some(Name::PackageName);
    }
    if str_eq(s, "RemoteEventLogging") {
        return Some(Name::RemoteEventLogging);
    }
    if str_eq(s, "VsmLaunchType") {
        return Some(Name::VsmLaunchType);
    }
    if str_eq(s, "HypervisorLaunchType") {
        return Some(Name::HypervisorLaunchType);
    }
    if str_eq(s, "TestSigning") {
        return Some(Name::TestSigning);
    }
    if str_eq(s, "AdvancedOptions") {
        return Some(Name::AdvancedOptions);
    }
    if str_eq(s, "SubStatus") {
        return Some(Name::SubStatus);
    }
    if str_eq(s, "KernelDebug") {
        return Some(Name::KernelDebug);
    }
    if str_eq(s, "Workstation") {
        return Some(Name::Workstation);
    }
    if str_eq(s, "FlightSigning") {
        return Some(Name::FlightSigning);
    }
    if str_eq(s, "FailureReason") {
        return Some(Name::FailureReason);
    }
    if str_eq(s, "ConfigAccessPolicy") {
        return Some(Name::ConfigAccessPolicy);
    }
    if str_eq(s, "HypervisorLoadOptions") {
        return Some(Name::HypervisorLoadOptions);
    }
    if str_eq(s, "PuaCount") {
        return Some(Name::PuaCount);
    }
    if str_eq(s, "TargetSid") {
        return Some(Name::TargetSid);
    }
    if str_eq(s, "PuaPolicyId") {
        return Some(Name::PuaPolicyId);
    }
    if str_eq(s, "AccessGranted") {
        return Some(Name::AccessGranted);
    }
    if str_eq(s, "PrivilegeList") {
        return Some(Name::PrivilegeList);
    }
    if str_eq(s, "SamAccountName") {
        return Some(Name::SamAccountName);
    }
    if str_eq(s, "SidHistory") {
        return Some(Name::SidHistory);
    }
    if str_eq(s, "MemberName") {
        return Some(Name::MemberName);
    }
    if str_eq(s, "Dummy") {
        return Some(Name::Dummy);
    }
    if str_eq(s, "DisplayName") {
        return Some(Name::DisplayName);
    }
    if str_eq(s, "AccessRemoved") {
        return Some(Name::AccessRemoved);
    }
    if str_eq(s, "MemberSid") {
        return Some(Name::MemberSid);
    }
    if str_eq(s, "UserPrincipalName") {
        return Some(Name::UserPrincipalName);
    }
    if str_eq(s, "CallerProcessId") {
        return Some(Name::CallerProcessId);
    }
    None
}

/// A data field name: a known one, or any other as written.
#[derive(Clone, Debug)]
pub enum OuterName {
    Known(Name),
    Unknown(String),
}

impl OuterName {
    /// The classification of a field name: `Known` where the name is one of
    /// the known names, `Unknown` holding the name otherwise.
    pub fn from_field_name(s: &str) -> (r: OuterName)
        ensures
            outer_name_of(s@, r),
    {
        match Name::from_field_name(s) {
            Some(n) => OuterName::Known(n),
            None => OuterName::Unknown(s.to_owned()),
        }
    }

    /// The name as written in an event.
    pub fn as_str(&self) -> (r: &str)
        ensures
            r@ == outer_name_text(*self),
    {
        match self {
            OuterName::Known(n) => n.as_str(),
            OuterName::Unknown(s) => s.as_str(),
        }
    }
}

/// The text of a field name.
pub open spec fn outer_name_text(o: OuterName) -> Seq<char> {
    match o {
        OuterName::Known(n) => name_text(n),
        OuterName::Unknown(s) => s@,
    }
}

/// `o` is the classification of the name written as `s`.
pub open spec fn outer_name_of(s: Seq<char>, o: OuterName) -> bool {
    match o {
        OuterName::Known(n) => s == name_text(n),
        OuterName::Unknown(t) => t@ == s && forall|n: Name| s != #[trigger] name_text(n),
    }
}

impl PartialEq for OuterName {
    fn eq(&self, other: &OuterName) -> (r: bool) {
        match (self, other) {
            (OuterName::Known(a), OuterName::Known(b)) => *a == *b,
            (OuterName::Unknown(a), OuterName::Unknown(b)) => *a == *b,
            _ => false,
        }
    }
}

impl vstd::std_specs::cmp::PartialEqSpecImpl for OuterName {
    open spec fn obeys_eq_spec() -> bool {
        true
    }

    open spec fn eq_spec(&self, other: &OuterName) -> bool {
        match (*self, *other) {
            (OuterName::Known(a), OuterName::Known(b)) => a == b,
            (OuterName::Unknown(a), OuterName::Unknown(b)) => a@ == b@,
            _ => false,
        }
    }
}

/// One data field of an event: its name and its value, either of which an
/// event may leave out.
#[derive(Clone, Debug)]
pub struct Data {
    pub name: Option<OuterName>,
    pub value: Option<String>,
}

/// The data section of an event: its fields in the order written.
#[derive(Clone, Debug)]
pub struct EventData {
    pub events: Vec<Data>,
}

/// The system section of an event.
#[derive(Clone, Copy, Debug, PartialEq, Eq, Structural)]
pub struct System {
    pub event_id: u32,
}

/// A decoded event: its system section and its data section, if any.
#[derive(Clone, Debug)]
pub struct Event {
    pub system: System,
    pub event_data: Option<EventData>,
}

/// A data field built from a name as written and a value.
pub open spec fn data_of(field: (Option<String>, Option<String>), d: Data) -> bool {
    &&& d.value == field.1
    &&& match (field.0, d.name) {
        (None, None) => true,
        (Some(s), Some(o)) => outer_name_of(s@, o),
        _ => false,
    }
}

impl Data {
    /// A data field whose name, if any, is classified.
    pub fn from_field(name: Option<String>, value: Option<String>) -> (r: Data)
        ensures
            data_of((name, value), r),
    {
        let n = match name {
            Some(s) => Some(OuterName::from_field_name(s.as_str())),
            None => None,
        };
        Data { name: n, value }
    }
}

impl Event {
    /// An event with the given id and, where present, data fields built
    /// from (name, value) pairs in the order given.
    pub fn from_fields(event_id: u32, fields: Option<Vec<(Option<String>, Option<String>)>>) -> (r: Event)
        ensures
            r.system.event_id == event_id,
            fields is None <==> r.event_data is None,
            fields matches Some(fs) ==> (r.event_data matches Some(ed) && ed.events@.len()
                == fs@.len() && forall|i: int|
                0 <= i < fs@.len() ==> data_of(fs@[i], #[trigger] ed.events@[i])),
    {
        match fields {
            None => Event { system: System { event_id }, event_data: None },
            Some(fs) => {
                let ghost orig = fs@;
                let mut events: Vec<Data> = Vec::new();
                let mut rest = fs;
                while rest.len() > 0
                    invariant
                        events@.len() + rest@.len() == orig.len(),
                        forall|i: int| 0 <= i < events@.len() ==> data_of(orig[i], #[trigger] events@[i]),
                        rest@ == orig.subrange(events@.len() as int, orig.len() as int),
                    decreases rest.len(),
                {
                    let (name, value) = rest.remove(0);
                    events.push(Data::from_field(name, value));
                }
                Event { system: System { event_id }, event_data: Some(EventData { events }) }
            },
        }
    }
}

/// A field name outside the known set is kept as written: its
/// classification is `Unknown` holding that name, never a failure.
pub proof fn lemma_unknown_name_kept(s: Seq<char>, o: OuterName)
    requires
        outer_name_of(s, o),
        forall|n: Name| s != #[trigger] name_text(n),
    ensures
        o matches OuterName::Unknown(t) && t@ == s,
{
    match o {
        OuterName::Known(n) => {
            assert(s == name_text(n));
        },
        OuterName::Unknown(_) => {},
    }
}

} // verus!
