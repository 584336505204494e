//! Small host-facing data types and the pure command functions behind
//! the application's UI command surface.

use vstd::prelude::*;
use vstd::string::StringExecFns;

verus! {

/// A request from the front-end asking to be greeted by name.
#[derive(Debug, Clone, PartialEq, Eq)]
pub struct GreetingRequest {
    pub name: String,
}

/// Static facts about the application itself.
#[derive(Debug, Clone, PartialEq, Eq)]
pub struct AppInfo {
    pub name: String,
    pub version: String,
    pub description: String,
}

/// Facts about the machine the application runs on, as plain strings.
#[derive(Debug, Clone, PartialEq, Eq)]
pub struct SystemInfo {
    pub platform: String,
    pub arch: String,
}

/// Builds the greeting for `name`.
pub fn greet(name: &str) -> (r: String)
    ensures
        r@ == "Hello, "@ + name@ + "! You've been greeted from Rust!"@,
{
    let mut s = String::from_str("Hello, ");
    s.append(name);
    s.append("! You've been greeted from Rust!");
    s
}

/// Returns the application's name, version and description.
pub fn get_app_info() -> (r: AppInfo)
    ensures
        r.name@ == "BioDockify AI"@,
        r.version@ == "0.1.0"@,
        r.description@ == "AI-Powered Pharmaceutical Research Platform"@,
{
    AppInfo {
        name: String::from_str("BioDockify AI"),
        version: String::from_str("0.1.0"),
        description: String::from_str("AI-Powered Pharmaceutical Research Platform"),
    }
}

/// Packages the host's platform and architecture names, which the caller
/// reads from its environment, into a `SystemInfo`.
pub fn get_system_info(platform: String, arch: String) -> (r: SystemInfo)
    ensures
        r.platform == platform,
        r.arch == arch,
{
    SystemInfo { platform, arch }
}

} // verus!
