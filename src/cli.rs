//! The wrapped commands: the rule table of each, and which table a command
//! line selects.
pub mod alias;
pub mod df;
pub mod dig;
pub mod docker;
pub mod du;
pub mod env;
pub mod fdisk;
pub mod findmnt;
pub mod free;
pub mod id;
pub mod ifconfig;
pub mod journalctl;
pub mod ping;
pub mod top;
pub mod ualias;
pub mod universal;

use vstd::prelude::*;
use crate::registry::RuleSource;
use crate::text::str_eq;

verus! {

/// The rule table that a command line selects.
#[derive(Clone, Copy, Debug, PartialEq, Eq, Structural)]
pub enum Table {
    Df,
    Dig,
    Du,
    Env,
    Fdisk,
    Findmnt,
    Free,
    Id,
    Ifconfig,
    Journalctl,
    Ping,
    Top,
    /// `docker` with a subcommand that has no rules of its own.
    Docker,
    DockerPs,
    DockerImages,
    /// The generic rules, for any other command in universal mode.
    Universal,
}

/// Which table a subcommand selects: its own, the generic one in universal
/// mode, or none.
pub open spec fn table_spec(name: Seq<char>, sub: Option<Seq<char>>, universal: bool) -> Option<Table> {
    if name == "df"@ {
        Some(Table::Df)
    } else if name == "dig"@ {
        Some(Table::Dig)
    } else if name == "du"@ {
        Some(Table::Du)
    } else if name == "env"@ {
        Some(Table::Env)
    } else if name == "fdisk"@ {
        Some(Table::Fdisk)
    } else if name == "findmnt"@ {
        Some(Table::Findmnt)
    } else if name == "free"@ {
        Some(Table::Free)
    } else if name == "id"@ {
        Some(Table::Id)
    } else if name == "ifconfig"@ {
        Some(Table::Ifconfig)
    } else if name == "journalctl"@ {
        Some(Table::Journalctl)
    } else if name == "ping"@ {
        Some(Table::Ping)
    } else if name == "top"@ {
        Some(Table::Top)
    } else if name == "docker"@ {
        if sub == Some("ps"@) {
            Some(Table::DockerPs)
        } else if sub == Some("images"@) {
            Some(Table::DockerImages)
        } else {
            Some(Table::Docker)
        }
    } else if universal {
        Some(Table::Universal)
    } else {
        None
    }
}

pub open spec fn opt_view(s: Option<&str>) -> Option<Seq<char>> {
    match s {
        Some(t) => Some(t@),
        None => None,
    }
}

/// The table for subcommand `name` (with `sub` the subcommand after it, if
/// any); `None` when the command has no rules and universal mode is off.
pub fn select_table(name: &str, sub: Option<&str>, universal: bool) -> (r: Option<Table>)
    ensures
        r == table_spec(name@, opt_view(sub), universal),
{
    if str_eq(name, "df") {
        return Some(Table::Df);
    }
    if str_eq(name, "dig") {
        return Some(Table::Dig);
    }
    if str_eq(name, "du") {
        return Some(Table::Du);
    }
    if str_eq(name, "env") {
        return Some(Table::Env);
    }
    if str_eq(name, "fdisk") {
        return Some(Table::Fdisk);
    }
    if str_eq(name, "findmnt") {
        return Some(Table::Findmnt);
    }
    if str_eq(name, "free") {
        return Some(Table::Free);
    }
    if str_eq(name, "id") {
        return Some(Table::Id);
    }
    if str_eq(name, "ifconfig") {
        return Some(Table::Ifconfig);
    }
    if str_eq(name, "journalctl") {
        return Some(Table::Journalctl);
    }
    if str_eq(name, "ping") {
        return Some(Table::Ping);
    }
    if str_eq(name, "top") {
        return Some(Table::Top);
    }
    if str_eq(name, "docker") {
        return match sub {
            Some(s) => if str_eq(s, "ps") {
                Some(Table::DockerPs)
            } else if str_eq(s, "images") {
                Some(Table::DockerImages)
            } else {
                Some(Table::Docker)
            },
            None => Some(Table::Docker),
        };
    }
    if universal {
        Some(Table::Universal)
    } else {
        None
    }
}

impl Table {
    /// The rules of the table, highest priority first; each names a style
    /// for the whole match.
    pub fn rules(&self) -> (r: Vec<RuleSource>)
        ensures
            forall|i: int| 0 <= i < r@.len() ==> (#[trigger] r@[i]).colors@.len() >= 1,
    {
        match self {
            Table::Df => df::Cmd::rules(),
            Table::Dig => dig::Cmd::rules(),
            Table::Du => du::Cmd::rules(),
            Table::Env => env::Cmd::rules(),
            Table::Fdisk => fdisk::Cmd::rules(),
            Table::Findmnt => findmnt::Cmd::rules(),
            Table::Free => free::Cmd::rules(),
            Table::Id => id::Cmd::rules(),
            Table::Ifconfig => ifconfig::Cmd::rules(),
            Table::Journalctl => journalctl::Cmd::rules(),
            Table::Ping => ping::Cmd::rules(),
            Table::Top => top::Cmd::rules(),
            Table::Docker => docker::Cmd::rules(),
            Table::DockerPs => docker::ps::Cmd::rules(),
            Table::DockerImages => docker::images::Cmd::rules(),
            Table::Universal => universal::Cmd::rules(),
        }
    }
}

/// The commands that have rules of their own, as offered for aliases: each
/// selects a table without universal mode.
pub fn supported_commands() -> (r: Vec<&'static str>)
    ensures
        r@.len() == 12,
        forall|i: int| 0 <= i < r@.len() ==> table_spec((#[trigger] r@[i])@, None, false) is Some,
{
    vec!["df", "docker", "dig", "du", "env", "fdisk", "free", "id", "ifconfig", "journalctl", "ping", "top"]
}

} // verus!
