//! Where the artifact files lie in a mounted Windows image.

use vstd::prelude::*;
use vstd::string::*;

verus! {

#[verifier::external_type_specification]
#[verifier::external_body]
pub struct ExIoError(std::io::Error);

/// The path of `file` (which starts with a slash) inside the image mounted
/// at `mnt_image_path`.
fn image_file(mnt_image_path: &str, file: &str) -> (r: String)
    ensures
        r@ == mnt_image_path@ + file@,
{
    mnt_image_path.to_owned().concat(file)
}

/// The SYSTEM registry hive of the image mounted at `mnt_image_path`.
pub fn find_system_hive(mnt_image_path: &str) -> (r: Result<String, std::io::Error>)
    ensures
        r matches Ok(p) && p@ == mnt_image_path@ + "/Windows/System32/config/SYSTEM"@,
{
    Ok(image_file(mnt_image_path, "/Windows/System32/config/SYSTEM"))
}

/// The SOFTWARE registry hive of the image mounted at `mnt_image_path`.
pub fn find_software_hive(mnt_image_path: &str) -> (r: Result<String, std::io::Error>)
    ensures
        r matches Ok(p) && p@ == mnt_image_path@ + "/Windows/System32/config/SOFTWARE"@,
{
    Ok(image_file(mnt_image_path, "/Windows/System32/config/SOFTWARE"))
}

/// The System event log of the image mounted at `mnt_image_path`.
pub fn find_system_evtx(mnt_image_path: &str) -> (r: Result<String, std::io::Error>)
    ensures
        r matches Ok(p) && p@ == mnt_image_path@ + "/Windows/System32/winevt/Logs/System.evtx"@,
{
    Ok(image_file(mnt_image_path, "/Windows/System32/winevt/Logs/System.evtx"))
}

/// The Security event log of the image mounted at `mnt_image_path`.
pub fn find_security_evtx(mnt_image_path: &str) -> (r: Result<String, std::io::Error>)
    ensures
        r matches Ok(p) && p@ == mnt_image_path@ + "/Windows/System32/winevt/Logs/Security.evtx"@,
{
    Ok(image_file(mnt_image_path, "/Windows/System32/winevt/Logs/Security.evtx"))
}

} // verus!
