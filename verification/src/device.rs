//! What identifies the machine the application runs on: the host name
//! the environment reported, and a label naming the operating system and
//! processor architecture.
//!
//! Reading the host name and the platform constants is the embedding
//! application's business; this module assembles the identity from what
//! was read, with the fixed fallback for a host name that could not be.

use vstd::prelude::*;
use vstd::string::StringExecFns;

verus! {

/// The identity reported for this machine.
pub struct DeviceIdentity {
    pub hostname: String,
    pub platform: String,
}

/// The platform label the identity carries: the operating-system name
/// and the architecture, joined as the application displays them.
pub fn platform_label(os: &str, arch: &str) -> (label: String)
    ensures
        label@ == os@ + " • "@ + arch@,
{
    let mut label = os.to_owned();
    label.append(" • ");
    label.append(arch);
    label
}

/// Builds the identity from what the environment reported: the resolved
/// host name, or the fixed fallback where none could be read, and the
/// platform label as given.
pub fn device_identity_from_parts(hostname: Option<String>, platform: String) -> (identity:
    DeviceIdentity)
    ensures
        hostname is Some ==> identity.hostname@ == hostname->0@,
        hostname is None ==> identity.hostname@ == "Unknown"@,
        identity.platform@ == platform@,
{
    let resolved = match hostname {
        Some(h) => h,
        None => "Unknown".to_owned(),
    };
    DeviceIdentity { hostname: resolved, platform }
}

} // verus!
