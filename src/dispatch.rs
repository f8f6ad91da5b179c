//! Which extraction jobs each processing mode runs, and on which files.
//!
//! The library plans; the caller opens the files, runs each job and reports
//! its failures without stopping the others.

use vstd::prelude::*;
use vstd::string::*;

use crate::paths::{find_security_evtx, find_software_hive, find_system_evtx, find_system_hive};

verus! {

/// The artifact extractors.
#[derive(Clone, Copy, Debug, PartialEq, Eq, Structural, Hash)]
pub enum Extractor {
    ProfileList,
    VolumeInfoCache,
    DeviceData,
    CurrentOsVersion,
    HidData,
    MountedDevices,
    ScsiData,
    UsbData,
    UsbStorData,
    ComputerName,
    OsUpdates,
    ShutdownTime,
    SystemServiceEvents,
    SecurityServiceEvents,
    RdpUsage,
    Logons,
    AuthenticationEvents,
}

/// One extraction to run: the extractor, the hive or log it reads, the
/// directory it writes to, and the USB vendor list it consults, if any.
pub struct Job {
    pub extractor: Extractor,
    pub source: String,
    pub outpath: String,
    pub vendor_list: Option<String>,
}

/// Why a processing mode has nothing to run.
#[derive(Clone, Copy, Debug, PartialEq, Eq, Structural)]
pub enum PlanError {
    /// None of the mode's source files could be located.
    NothingFound,
}

/// The vendor list that device extractors consult.
pub open spec fn vendor_list_path() -> Seq<char> {
    "testlists/output.json"@
}

/// Whether an extractor consults the USB vendor list.
pub open spec fn uses_vendor_list(e: Extractor) -> bool {
    e == Extractor::DeviceData || e == Extractor::HidData || e == Extractor::UsbData
}

/// The SOFTWARE hive of the image at `input`.
pub open spec fn software_of(input: Seq<char>) -> Seq<char> {
    input + "/Windows/System32/config/SOFTWARE"@
}

/// The SYSTEM hive of the image at `input`.
pub open spec fn system_of(input: Seq<char>) -> Seq<char> {
    input + "/Windows/System32/config/SYSTEM"@
}

/// The System event log of the image at `input`.
pub open spec fn system_log_of(input: Seq<char>) -> Seq<char> {
    input + "/Windows/System32/winevt/Logs/System.evtx"@
}

/// The Security event log of the image at `input`.
pub open spec fn security_log_of(input: Seq<char>) -> Seq<char> {
    input + "/Windows/System32/winevt/Logs/Security.evtx"@
}

/// `jobs` runs the extractors of `plan` in order, each on its file, all
/// writing to `out`.
pub open spec fn runs(jobs: Seq<Job>, plan: Seq<(Extractor, Seq<char>)>, out: Seq<char>) -> bool {
    &&& jobs.len() == plan.len()
    &&& forall|i: int|
        0 <= i < jobs.len() ==> {
            let j = #[trigger] jobs[i];
            &&& j.extractor == plan[i].0
            &&& j.source@ == plan[i].1
            &&& j.outpath@ == out
            &&& if uses_vendor_list(j.extractor) {
                j.vendor_list matches Some(v) && v@ == vendor_list_path()
            } else {
                j.vendor_list is None
            }
        }
}

/// The plan of the registry mode for the image at `input`.
pub open spec fn registry_plan(input: Seq<char>) -> Seq<(Extractor, Seq<char>)> {
    software_registry_plan(input) + system_registry_plan(input)
}

/// The registry jobs that read the SOFTWARE hive.
pub open spec fn software_registry_plan(input: Seq<char>) -> Seq<(Extractor, Seq<char>)> {
    seq![
        (Extractor::ProfileList, software_of(input)),
        (Extractor::VolumeInfoCache, software_of(input)),
        (Extractor::DeviceData, software_of(input)),
        (Extractor::CurrentOsVersion, software_of(input)),
    ]
}

/// The registry jobs that read the SYSTEM hive.
pub open spec fn system_registry_plan(input: Seq<char>) -> Seq<(Extractor, Seq<char>)> {
    seq![
        (Extractor::HidData, system_of(input)),
        (Extractor::MountedDevices, system_of(input)),
        (Extractor::ScsiData, system_of(input)),
        (Extractor::UsbData, system_of(input)),
        (Extractor::UsbStorData, system_of(input)),
        (Extractor::ComputerName, system_of(input)),
        (Extractor::OsUpdates, system_of(input)),
        (Extractor::ShutdownTime, system_of(input)),
    ]
}

/// The plan of the external-device registry mode.
pub open spec fn external_device_plan(input: Seq<char>) -> Seq<(Extractor, Seq<char>)> {
    seq![
        (Extractor::VolumeInfoCache, software_of(input)),
        (Extractor::DeviceData, software_of(input)),
        (Extractor::HidData, system_of(input)),
        (Extractor::MountedDevices, system_of(input)),
        (Extractor::ScsiData, system_of(input)),
        (Extractor::UsbData, system_of(input)),
        (Extractor::UsbStorData, system_of(input)),
    ]
}

/// The plan of the system-information registry mode.
pub open spec fn system_information_plan(input: Seq<char>) -> Seq<(Extractor, Seq<char>)> {
    seq![
        (Extractor::CurrentOsVersion, software_of(input)),
        (Extractor::ComputerName, system_of(input)),
        (Extractor::OsUpdates, system_of(input)),
        (Extractor::ShutdownTime, system_of(input)),
    ]
}

/// The plan of the account-usage registry mode.
pub open spec fn account_usage_registry_plan(input: Seq<char>) -> Seq<(Extractor, Seq<char>)> {
    seq![(Extractor::ProfileList, software_of(input))]
}

/// The plan of the account-usage event-log mode.
pub open spec fn account_usage_eventlog_plan(input: Seq<char>) -> Seq<(Extractor, Seq<char>)> {
    seq![
        (Extractor::SystemServiceEvents, system_log_of(input)),
        (Extractor::RdpUsage, security_log_of(input)),
        (Extractor::SecurityServiceEvents, security_log_of(input)),
        (Extractor::Logons, security_log_of(input)),
        (Extractor::AuthenticationEvents, security_log_of(input)),
    ]
}

/// The plan of the event-log mode.
pub open spec fn eventlog_plan(input: Seq<char>) -> Seq<(Extractor, Seq<char>)> {
    seq![
        (Extractor::AuthenticationEvents, security_log_of(input)),
        (Extractor::RdpUsage, security_log_of(input)),
        (Extractor::SecurityServiceEvents, security_log_of(input)),
        (Extractor::SystemServiceEvents, system_log_of(input)),
        (Extractor::Logons, security_log_of(input)),
    ]
}

fn vendor_list_for(e: Extractor) -> (r: Option<String>)
    ensures
        uses_vendor_list(e) ==> (r matches Some(v) && v@ == vendor_list_path()),
        !uses_vendor_list(e) ==> r is None,
{
    match e {
        Extractor::DeviceData | Extractor::HidData | Extractor::UsbData => Some(
            String::from_str("testlists/output.json"),
        ),
        _ => None,
    }
}

/// Appends a job running `e` on `source`, writing to `out`.
fn push_job(
    jobs: &mut Vec<Job>,
    e: Extractor,
    source: &String,
    out: &str,
    Ghost(plan): Ghost<Seq<(Extractor, Seq<char>)>>,
)
    requires
        runs(old(jobs)@, plan, out@),
    ensures
        runs(final(jobs)@, plan.push((e, source@)), out@),
{
    let ghost before = jobs@;
    jobs.push(Job { extractor: e, source: source.clone(), outpath: out.to_owned(), vendor_list: vendor_list_for(e) });
    proof {
        let p2 = plan.push((e, source@));
        assert forall|i: int| 0 <= i < jobs@.len() implies {
            let j = #[trigger] jobs@[i];
            &&& j.extractor == p2[i].0
            &&& j.source@ == p2[i].1
            &&& j.outpath@ == out@
            &&& if uses_vendor_list(j.extractor) {
                j.vendor_list matches Some(v) && v@ == vendor_list_path()
            } else {
                j.vendor_list is None
            }
        } by {
            if i < before.len() {
                assert(jobs@[i] == before[i]);
            }
        }
    }
}


/// The jobs of the registry mode: every registry extractor, on the
/// SOFTWARE hive, then on the SYSTEM hive.
pub fn get_registry_data(input: &str, outpath: &str) -> (r: Result<Vec<Job>, PlanError>)
    ensures
        r matches Ok(jobs) && runs(jobs@, registry_plan(input@), outpath@),
{
    let mut jobs: Vec<Job> = Vec::new();
    let ghost mut plan: Seq<(Extractor, Seq<char>)> = Seq::empty();
    let mut found_something = false;
    match find_software_hive(input) {
        Ok(software) => {
            found_something = true;
            push_job(&mut jobs, Extractor::ProfileList, &software, outpath, Ghost(plan));
            proof {
                plan = plan.push((Extractor::ProfileList, software@));
            }
            push_job(&mut jobs, Extractor::VolumeInfoCache, &software, outpath, Ghost(plan));
            proof {
                plan = plan.push((Extractor::VolumeInfoCache, software@));
            }
            push_job(&mut jobs, Extractor::DeviceData, &software, outpath, Ghost(plan));
            proof {
                plan = plan.push((Extractor::DeviceData, software@));
            }
            push_job(&mut jobs, Extractor::CurrentOsVersion, &software, outpath, Ghost(plan));
            proof {
                plan = plan.push((Extractor::CurrentOsVersion, software@));
            }
        },
        Err(_) => {},
    }
    match find_system_hive(input) {
        Ok(system) => {
            found_something = true;
            push_job(&mut jobs, Extractor::HidData, &system, outpath, Ghost(plan));
            proof {
                plan = plan.push((Extractor::HidData, system@));
            }
            push_job(&mut jobs, Extractor::MountedDevices, &system, outpath, Ghost(plan));
            proof {
                plan = plan.push((Extractor::MountedDevices, system@));
            }
            push_job(&mut jobs, Extractor::ScsiData, &system, outpath, Ghost(plan));
            proof {
                plan = plan.push((Extractor::ScsiData, system@));
            }
            push_job(&mut jobs, Extractor::UsbData, &system, outpath, Ghost(plan));
            proof {
                plan = plan.push((Extractor::UsbData, system@));
            }
            push_job(&mut jobs, Extractor::UsbStorData, &system, outpath, Ghost(plan));
            proof {
                plan = plan.push((Extractor::UsbStorData, system@));
            }
            push_job(&mut jobs, Extractor::ComputerName, &system, outpath, Ghost(plan));
            proof {
                plan = plan.push((Extractor::ComputerName, system@));
            }
            push_job(&mut jobs, Extractor::OsUpdates, &system, outpath, Ghost(plan));
            proof {
                plan = plan.push((Extractor::OsUpdates, system@));
            }
            push_job(&mut jobs, Extractor::ShutdownTime, &system, outpath, Ghost(plan));
            proof {
                plan = plan.push((Extractor::ShutdownTime, system@));
            }
        },
        Err(_) => {},
    }
    if !found_something {
        return Err(PlanError::NothingFound);
    }
    assert(plan =~= registry_plan(input@));
    Ok(jobs)
}

/// The jobs of the external-device registry mode.
pub fn get_externaldevice_registry_data(input: &str, outpath: &str) -> (r: Result<Vec<Job>, PlanError>)
    ensures
        r matches Ok(jobs) && runs(jobs@, external_device_plan(input@), outpath@),
{
    let mut jobs: Vec<Job> = Vec::new();
    let ghost mut plan: Seq<(Extractor, Seq<char>)> = Seq::empty();
    let mut found_something = false;
    match find_software_hive(input) {
        Ok(software) => {
            found_something = true;
            push_job(&mut jobs, Extractor::VolumeInfoCache, &software, outpath, Ghost(plan));
            proof {
                plan = plan.push((Extractor::VolumeInfoCache, software@));
            }
            push_job(&mut jobs, Extractor::DeviceData, &software, outpath, Ghost(plan));
            proof {
                plan = plan.push((Extractor::DeviceData, software@));
            }
        },
        Err(_) => {},
    }
    match find_system_hive(input) {
        Ok(system) => {
            found_something = true;
            push_job(&mut jobs, Extractor::HidData, &system, outpath, Ghost(plan));
            proof {
                plan = plan.push((Extractor::HidData, system@));
            }
            push_job(&mut jobs, Extractor::MountedDevices, &system, outpath, Ghost(plan));
            proof {
                plan = plan.push((Extractor::MountedDevices, system@));
            }
            push_job(&mut jobs, Extractor::ScsiData, &system, outpath, Ghost(plan));
            proof {
                plan = plan.push((Extractor::ScsiData, system@));
            }
            push_job(&mut jobs, Extractor::UsbData, &system, outpath, Ghost(plan));
            proof {
                plan = plan.push((Extractor::UsbData, system@));
            }
            push_job(&mut jobs, Extractor::UsbStorData, &system, outpath, Ghost(plan));
            proof {
                plan = plan.push((Extractor::UsbStorData, system@));
            }
        },
        Err(_) => {},
    }
    if !found_something {
        return Err(PlanError::NothingFound);
    }
    assert(plan =~= external_device_plan(input@));
    Ok(jobs)
}

/// The jobs of the system-information registry mode.
pub fn get_systeminfo_registry_data(input: &str, outpath: &str) -> (r: Result<Vec<Job>, PlanError>)
    ensures
        r matches Ok(jobs) && runs(jobs@, system_information_plan(input@), outpath@),
{
    let mut jobs: Vec<Job> = Vec::new();
    let ghost mut plan: Seq<(Extractor, Seq<char>)> = Seq::empty();
    let mut found_something = false;
    match find_software_hive(input) {
        Ok(software) => {
            found_something = true;
            push_job(&mut jobs, Extractor::CurrentOsVersion, &software, outpath, Ghost(plan));
            proof {
                plan = plan.push((Extractor::CurrentOsVersion, software@));
            }
        },
        Err(_) => {},
    }
    match find_system_hive(input) {
        Ok(system) => {
            found_something = true;
            push_job(&mut jobs, Extractor::ComputerName, &system, outpath, Ghost(plan));
            proof {
                plan = plan.push((Extractor::ComputerName, system@));
            }
            push_job(&mut jobs, Extractor::OsUpdates, &system, outpath, Ghost(plan));
            proof {
                plan = plan.push((Extractor::OsUpdates, system@));
            }
            push_job(&mut jobs, Extractor::ShutdownTime, &system, outpath, Ghost(plan));
            proof {
                plan = plan.push((Extractor::ShutdownTime, system@));
            }
        },
        Err(_) => {},
    }
    if !found_something {
        return Err(PlanError::NothingFound);
    }
    assert(plan =~= system_information_plan(input@));
    Ok(jobs)
}

/// The jobs of the account-usage registry mode.
pub fn get_accountusage_registry_data(input: &str, outpath: &str) -> (r: Result<Vec<Job>, PlanError>)
    ensures
        r matches Ok(jobs) && runs(jobs@, account_usage_registry_plan(input@), outpath@),
{
    let mut jobs: Vec<Job> = Vec::new();
    let ghost mut plan: Seq<(Extractor, Seq<char>)> = Seq::empty();
    let mut found_something = false;
    match find_software_hive(input) {
        Ok(software) => {
            found_something = true;
            push_job(&mut jobs, Extractor::ProfileList, &software, outpath, Ghost(plan));
            proof {
                plan = plan.push((Extractor::ProfileList, software@));
            }
        },
        Err(_) => {},
    }
    if !found_something {
        return Err(PlanError::NothingFound);
    }
    assert(plan =~= account_usage_registry_plan(input@));
    Ok(jobs)
}

/// The jobs of the account-usage event-log mode.
pub fn get_accountusage_eventlog_data(input: &str, outpath: &str) -> (r: Result<Vec<Job>, PlanError>)
    ensures
        r matches Ok(jobs) && runs(jobs@, account_usage_eventlog_plan(input@), outpath@),
{
    let mut jobs: Vec<Job> = Vec::new();
    let ghost mut plan: Seq<(Extractor, Seq<char>)> = Seq::empty();
    let mut found_something = false;
    match find_system_evtx(input) {
        Ok(system_log) => {
            found_something = true;
            push_job(&mut jobs, Extractor::SystemServiceEvents, &system_log, outpath, Ghost(plan));
            proof {
                plan = plan.push((Extractor::SystemServiceEvents, system_log@));
            }
        },
        Err(_) => {},
    }
    match find_security_evtx(input) {
        Ok(security_log) => {
            found_something = true;
            push_job(&mut jobs, Extractor::RdpUsage, &security_log, outpath, Ghost(plan));
            proof {
                plan = plan.push((Extractor::RdpUsage, security_log@));
            }
            push_job(&mut jobs, Extractor::SecurityServiceEvents, &security_log, outpath, Ghost(plan));
            proof {
                plan = plan.push((Extractor::SecurityServiceEvents, security_log@));
            }
            push_job(&mut jobs, Extractor::Logons, &security_log, outpath, Ghost(plan));
            proof {
                plan = plan.push((Extractor::Logons, security_log@));
            }
            push_job(&mut jobs, Extractor::AuthenticationEvents, &security_log, outpath, Ghost(plan));
            proof {
                plan = plan.push((Extractor::AuthenticationEvents, security_log@));
            }
        },
        Err(_) => {},
    }
    if !found_something {
        return Err(PlanError::NothingFound);
    }
    assert(plan =~= account_usage_eventlog_plan(input@));
    Ok(jobs)
}

/// The jobs of the event-log mode, writing to the folder `foldername`
/// under `outpath`.
pub fn get_eventlog_data(input: &String, outpath: &String, foldername: &String) -> (r: Result<Vec<Job>, PlanError>)
    ensures
        r matches Ok(jobs) && runs(jobs@, eventlog_plan(input@), outpath@ + "/"@ + foldername@),
{
    let out = outpath.as_str().to_owned().concat("/").concat(foldername.as_str());
    let mut jobs: Vec<Job> = Vec::new();
    let ghost mut plan: Seq<(Extractor, Seq<char>)> = Seq::empty();
    let mut found_something = false;
    match find_security_evtx(input) {
        Ok(security_log) => {
            found_something = true;
            push_job(&mut jobs, Extractor::AuthenticationEvents, &security_log, out.as_str(), Ghost(plan));
            proof {
                plan = plan.push((Extractor::AuthenticationEvents, security_log@));
            }
            push_job(&mut jobs, Extractor::RdpUsage, &security_log, out.as_str(), Ghost(plan));
            proof {
                plan = plan.push((Extractor::RdpUsage, security_log@));
            }
            push_job(&mut jobs, Extractor::SecurityServiceEvents, &security_log, out.as_str(), Ghost(plan));
            proof {
                plan = plan.push((Extractor::SecurityServiceEvents, security_log@));
            }
        },
        Err(_) => {},
    }
    match find_system_evtx(input) {
        Ok(system_log) => {
            found_something = true;
            push_job(&mut jobs, Extractor::SystemServiceEvents, &system_log, out.as_str(), Ghost(plan));
            proof {
                plan = plan.push((Extractor::SystemServiceEvents, system_log@));
            }
        },
        Err(_) => {},
    }
    match find_security_evtx(input) {
        Ok(security_log_again) => {
            found_something = true;
            push_job(&mut jobs, Extractor::Logons, &security_log_again, out.as_str(), Ghost(plan));
            proof {
                plan = plan.push((Extractor::Logons, security_log_again@));
            }
        },
        Err(_) => {},
    }
    if !found_something {
        return Err(PlanError::NothingFound);
    }
    assert(plan =~= eventlog_plan(input@));
    Ok(jobs)
}

/// The account details of a SAM hive; nothing is extracted from it yet.
pub fn get_account_details(reg_file: &String, out_json: String) -> (r: Result<(), PlanError>)
    ensures
        r is Ok,
{
    Ok(())
}

} // verus!
