//! The engine's error taxonomy: platform-unsupported operations, failed OS
//! calls, rejected preconditions, credential problems and missing
//! privileges. Every operation surfaces these explicitly; none is
//! swallowed and none aborts the process.
use vstd::prelude::*;
use vstd::string::StringExecFns;

verus! {

/// Why an engine operation was refused or failed.
#[derive(Clone, Debug, PartialEq, Eq)]
pub enum EngineError {
    /// The operation has no meaning on the current platform.
    PlatformUnsupported,
    /// Installing the global input hook failed; the OS error text follows.
    HookInstallFailed(String),
    /// Spawning a managed application failed; the OS error text follows.
    SpawnFailed(String),
    /// The executable to launch does not exist; the path follows.
    ExecutableNotFound(String),
    /// The operation needs elevated rights that the process lacks.
    PrivilegeRequired,
    /// The device credential record lacks its numeric identifier.
    MissingPcId,
    /// The device credential record lacks its shared secret.
    MissingDeviceSecret,
}

impl EngineError {
    /// The human-readable description of the error.
    pub open spec fn spec_message(self) -> Seq<char> {
        match self {
            EngineError::PlatformUnsupported => "operation not supported on this platform"@,
            EngineError::HookInstallFailed(m) => "failed to install keyboard hook: "@ + m@,
            EngineError::SpawnFailed(m) => "failed to launch: "@ + m@,
            EngineError::ExecutableNotFound(p) => "executable not found: "@ + p@,
            EngineError::PrivilegeRequired => "administrator privileges required"@,
            EngineError::MissingPcId => "missing pc_id in credentials"@,
            EngineError::MissingDeviceSecret => "missing device_secret in credentials"@,
        }
    }

    /// Renders the error as text.
    pub fn message(&self) -> (r: String)
        ensures
            r@ == self.spec_message(),
    {
        match self {
            EngineError::PlatformUnsupported => String::from_str(
                "operation not supported on this platform",
            ),
            EngineError::HookInstallFailed(m) => {
                let mut s = String::from_str("failed to install keyboard hook: ");
                s.append(m.as_str());
                s
            },
            EngineError::SpawnFailed(m) => {
                let mut s = String::from_str("failed to launch: ");
                s.append(m.as_str());
                s
            },
            EngineError::ExecutableNotFound(p) => {
                let mut s = String::from_str("executable not found: ");
                s.append(p.as_str());
                s
            },
            EngineError::PrivilegeRequired => String::from_str("administrator privileges required"),
            EngineError::MissingPcId => String::from_str("missing pc_id in credentials"),
            EngineError::MissingDeviceSecret => String::from_str(
                "missing device_secret in credentials",
            ),
        }
    }
}

/// Checks that the caller probed elevation successfully before a lockdown
/// operation: refused with a privilege error when the probe said no.
pub fn require_elevation(is_elevated: bool) -> (r: Result<(), EngineError>)
    ensures
        r is Ok <==> is_elevated,
        !is_elevated ==> r == Result::<(), EngineError>::Err(EngineError::PrivilegeRequired),
{
    if is_elevated {
        Ok(())
    } else {
        Err(EngineError::PrivilegeRequired)
    }
}

} // verus!
