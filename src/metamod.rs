//! The codes of the plugin host's interface, read from and written as the
//! integers that cross it.

use vstd::prelude::*;

verus! {

/// When the host may load or unload the plugin.
#[derive(Clone, Copy, Debug, PartialEq, Eq, Structural)]
pub enum PluginLoadTime {
    Never,
    Startup,
    Changelevel,
    Anytime,
    Anypause,
}

impl PluginLoadTime {
    pub open spec fn spec_code(self) -> i32 {
        match self {
            PluginLoadTime::Never => 0,
            PluginLoadTime::Startup => 1,
            PluginLoadTime::Changelevel => 2,
            PluginLoadTime::Anytime => 3,
            PluginLoadTime::Anypause => 4,
        }
    }

    /// The integer that stands for this value on the host interface.
    pub fn code(self) -> (r: i32)
        ensures
            r == self.spec_code(),
    {
        match self {
            PluginLoadTime::Never => 0,
            PluginLoadTime::Startup => 1,
            PluginLoadTime::Changelevel => 2,
            PluginLoadTime::Anytime => 3,
            PluginLoadTime::Anypause => 4,
        }
    }

    /// The value that an integer of the host interface stands for, if any.
    pub fn from_code(code: i32) -> (r: Option<Self>)
        ensures
            r matches Some(v) ==> v.spec_code() == code,
            r is None ==> !(0 <= code <= 4),
    {
        match code {
            0 => Some(PluginLoadTime::Never),
            1 => Some(PluginLoadTime::Startup),
            2 => Some(PluginLoadTime::Changelevel),
            3 => Some(PluginLoadTime::Anytime),
            4 => Some(PluginLoadTime::Anypause),
            _ => None,
        }
    }
}

/// Why the host unloads the plugin.
#[derive(Clone, Copy, Debug, PartialEq, Eq, Structural)]
pub enum PluginUnloadReason {
    Null,
    IniDeleted,
    FileNewer,
    Command,
    CmdForced,
    Delayed,
    PluginRemoved,
    Reload,
}

impl PluginUnloadReason {
    pub open spec fn spec_code(self) -> i32 {
        match self {
            PluginUnloadReason::Null => 0,
            PluginUnloadReason::IniDeleted => 1,
            PluginUnloadReason::FileNewer => 2,
            PluginUnloadReason::Command => 3,
            PluginUnloadReason::CmdForced => 4,
            PluginUnloadReason::Delayed => 5,
            PluginUnloadReason::PluginRemoved => 6,
            PluginUnloadReason::Reload => 7,
        }
    }

    /// The integer that stands for this value on the host interface.
    pub fn code(self) -> (r: i32)
        ensures
            r == self.spec_code(),
    {
        match self {
            PluginUnloadReason::Null => 0,
            PluginUnloadReason::IniDeleted => 1,
            PluginUnloadReason::FileNewer => 2,
            PluginUnloadReason::Command => 3,
            PluginUnloadReason::CmdForced => 4,
            PluginUnloadReason::Delayed => 5,
            PluginUnloadReason::PluginRemoved => 6,
            PluginUnloadReason::Reload => 7,
        }
    }

    /// The value that an integer of the host interface stands for, if any.
    pub fn from_code(code: i32) -> (r: Option<Self>)
        ensures
            r matches Some(v) ==> v.spec_code() == code,
            r is None ==> !(0 <= code <= 7),
    {
        match code {
            0 => Some(PluginUnloadReason::Null),
            1 => Some(PluginUnloadReason::IniDeleted),
            2 => Some(PluginUnloadReason::FileNewer),
            3 => Some(PluginUnloadReason::Command),
            4 => Some(PluginUnloadReason::CmdForced),
            5 => Some(PluginUnloadReason::Delayed),
            6 => Some(PluginUnloadReason::PluginRemoved),
            7 => Some(PluginUnloadReason::Reload),
            _ => None,
        }
    }
}

/// The result a hook reports to the host.
#[derive(Clone, Copy, Debug, PartialEq, Eq, Structural)]
pub enum MetaResult {
    Unset,
    Ignored,
    Handled,
    Override,
    Supercede,
}

impl MetaResult {
    pub open spec fn spec_code(self) -> i32 {
        match self {
            MetaResult::Unset => 0,
            MetaResult::Ignored => 1,
            MetaResult::Handled => 2,
            MetaResult::Override => 3,
            MetaResult::Supercede => 4,
        }
    }

    /// The integer that stands for this value on the host interface.
    pub fn code(self) -> (r: i32)
        ensures
            r == self.spec_code(),
    {
        match self {
            MetaResult::Unset => 0,
            MetaResult::Ignored => 1,
            MetaResult::Handled => 2,
            MetaResult::Override => 3,
            MetaResult::Supercede => 4,
        }
    }

    /// The value that an integer of the host interface stands for, if any.
    pub fn from_code(code: i32) -> (r: Option<Self>)
        ensures
            r matches Some(v) ==> v.spec_code() == code,
            r is None ==> !(0 <= code <= 4),
    {
        match code {
            0 => Some(MetaResult::Unset),
            1 => Some(MetaResult::Ignored),
            2 => Some(MetaResult::Handled),
            3 => Some(MetaResult::Override),
            4 => Some(MetaResult::Supercede),
            _ => None,
        }
    }
}

/// The level of a message logged through the host.
#[derive(Clone, Copy, Debug, PartialEq, Eq, Structural)]
pub enum PluginLogLevel {
    Info,
    Error,
    Debug,
}

impl PluginLogLevel {
    pub open spec fn spec_code(self) -> i32 {
        match self {
            PluginLogLevel::Info => 0,
            PluginLogLevel::Error => 1,
            PluginLogLevel::Debug => 2,
        }
    }

    /// The integer that stands for this value on the host interface.
    pub fn code(self) -> (r: i32)
        ensures
            r == self.spec_code(),
    {
        match self {
            PluginLogLevel::Info => 0,
            PluginLogLevel::Error => 1,
            PluginLogLevel::Debug => 2,
        }
    }
}

} // verus!
