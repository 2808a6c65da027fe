//! The tools of the surrounding dashboard, as far as the firewall's side of
//! it knows them: which tools a build offers, and how a tool is described.

use vstd::prelude::*;
use crate::text::same_text;

verus! {

/// The identity of the server that the dashboard runs on.
#[derive(Clone, Debug)]
pub struct ServerConfig {
    pub name: String,
    pub version: String,
    pub hostname: String,
    pub timezone: String,
    pub log_level: String,
    pub log_file: String,
}

/// How the dashboard presents itself.
#[derive(Clone, Debug)]
pub struct DashboardConfig {
    pub title: String,
    pub refresh_interval: u64,
    pub theme: String,
    pub show_system_info: bool,
    pub show_security_status: bool,
}

/// The settings of one tool.
#[derive(Clone, Debug)]
pub struct ToolConfig {
    pub enabled: bool,
    pub command: String,
    pub config_file: Option<String>,
}

/// A tool as it is started.
#[derive(Clone, Debug)]
pub struct ToolCommand {
    pub name: String,
    pub command: String,
    pub enabled: bool,
    pub config_file: Option<String>,
    pub extra_args: Vec<String>,
}

/// The tools that a build of the dashboard was made with.
#[derive(Clone, Copy, Debug, PartialEq, Eq, Structural)]
pub struct IntegratedTools {
    pub trippy: bool,
    pub bandwhich: bool,
    pub heimdall: bool,
    pub dfw: bool,
    pub aegis: bool,
    pub yazi_fm: bool,
    pub bottom: bool,
}

impl IntegratedTools {
    /// Whether the tool of the given name can be started. The file finder
    /// always can, with or without its own build; a name that is no tool's
    /// cannot.
    pub open spec fn available(&self, tool_name: Seq<char>) -> bool {
        if tool_name == "trace"@ {
            self.trippy
        } else if tool_name == "network"@ {
            self.bandwhich
        } else if tool_name == "guard"@ {
            self.heimdall
        } else if tool_name == "firewall"@ {
            self.dfw
        } else if tool_name == "waf"@ {
            self.aegis
        } else if tool_name == "finder"@ {
            true
        } else if tool_name == "system"@ {
            self.bottom
        } else {
            false
        }
    }

    /// Tells whether the tool of the given name can be started.
    pub fn is_tool_available(&self, tool_name: &str) -> (r: bool)
        ensures
            r == self.available(tool_name@),
    {
        if same_text(tool_name, "trace") {
            self.trippy
        } else if same_text(tool_name, "network") {
            self.bandwhich
        } else if same_text(tool_name, "guard") {
            self.heimdall
        } else if same_text(tool_name, "firewall") {
            self.dfw
        } else if same_text(tool_name, "waf") {
            self.aegis
        } else if same_text(tool_name, "finder") {
            true
        } else if same_text(tool_name, "system") {
            self.bottom
        } else {
            false
        }
    }
}

} // verus!
