//! The modules and functions of the standard library that the adapter calls.

use vstd::prelude::*;
use crate::types::AccountAddress;

verus! {

/// A module of the standard library. All of them live under the privileged
/// code address.
#[derive(Clone, Copy, Debug, PartialEq, Eq, Structural)]
pub enum SystemModule {
    DiemAccount,
    DiemBlock,
    DiemConfig,
    Oracle,
    Upgrade,
}

/// An entry point of the standard library.
#[derive(Clone, Copy, Debug, PartialEq, Eq, Structural)]
pub enum SystemFunction {
    ScriptPrologue,
    MultiAgentScriptPrologue,
    ModulePrologue,
    WritesetPrologue,
    WritesetEpilogue,
    UserEpilogue,
    BlockPrologue,
    CheckUpgrade,
    ResetPayload,
    UpgradeReconfig,
}

pub open spec fn spec_module_name(m: SystemModule) -> Seq<char> {
    match m {
        SystemModule::DiemAccount => "DiemAccount"@,
        SystemModule::DiemBlock => "DiemBlock"@,
        SystemModule::DiemConfig => "DiemConfig"@,
        SystemModule::Oracle => "Oracle"@,
        SystemModule::Upgrade => "Upgrade"@,
    }
}

pub open spec fn spec_function_name(f: SystemFunction) -> Seq<char> {
    match f {
        SystemFunction::ScriptPrologue => "script_prologue"@,
        SystemFunction::MultiAgentScriptPrologue => "multi_agent_script_prologue"@,
        SystemFunction::ModulePrologue => "module_prologue"@,
        SystemFunction::WritesetPrologue => "writeset_prologue"@,
        SystemFunction::WritesetEpilogue => "writeset_epilogue"@,
        SystemFunction::UserEpilogue => "epilogue"@,
        SystemFunction::BlockPrologue => "block_prologue"@,
        SystemFunction::CheckUpgrade => "check_upgrade"@,
        SystemFunction::ResetPayload => "reset_payload"@,
        SystemFunction::UpgradeReconfig => "upgrade_reconfig"@,
    }
}

/// The module that defines each entry point.
pub open spec fn spec_home(f: SystemFunction) -> SystemModule {
    match f {
        SystemFunction::BlockPrologue => SystemModule::DiemBlock,
        SystemFunction::CheckUpgrade => SystemModule::Oracle,
        SystemFunction::ResetPayload => SystemModule::Upgrade,
        SystemFunction::UpgradeReconfig => SystemModule::DiemConfig,
        _ => SystemModule::DiemAccount,
    }
}

impl SystemModule {
    /// The name under which the module is published.
    pub fn name(self) -> (s: &'static str)
        ensures
            s@ == spec_module_name(self),
    {
        match self {
            SystemModule::DiemAccount => "DiemAccount",
            SystemModule::DiemBlock => "DiemBlock",
            SystemModule::DiemConfig => "DiemConfig",
            SystemModule::Oracle => "Oracle",
            SystemModule::Upgrade => "Upgrade",
        }
    }

    /// The address under which the module is published.
    pub fn address(self) -> (a: AccountAddress)
        ensures
            a@ == crate::types::spec_core_code_bytes(),
    {
        AccountAddress::core_code_address()
    }
}

impl SystemFunction {
    /// The name of the entry point in its module.
    pub fn name(self) -> (s: &'static str)
        ensures
            s@ == spec_function_name(self),
    {
        match self {
            SystemFunction::ScriptPrologue => "script_prologue",
            SystemFunction::MultiAgentScriptPrologue => "multi_agent_script_prologue",
            SystemFunction::ModulePrologue => "module_prologue",
            SystemFunction::WritesetPrologue => "writeset_prologue",
            SystemFunction::WritesetEpilogue => "writeset_epilogue",
            SystemFunction::UserEpilogue => "epilogue",
            SystemFunction::BlockPrologue => "block_prologue",
            SystemFunction::CheckUpgrade => "check_upgrade",
            SystemFunction::ResetPayload => "reset_payload",
            SystemFunction::UpgradeReconfig => "upgrade_reconfig",
        }
    }

    /// The module that defines the entry point.
    pub fn home(self) -> (m: SystemModule)
        ensures
            m == spec_home(self),
    {
        match self {
            SystemFunction::BlockPrologue => SystemModule::DiemBlock,
            SystemFunction::CheckUpgrade => SystemModule::Oracle,
            SystemFunction::ResetPayload => SystemModule::Upgrade,
            SystemFunction::UpgradeReconfig => SystemModule::DiemConfig,
            _ => SystemModule::DiemAccount,
        }
    }
}

} // verus!
