//! What an image says of how it wants to be run, and where the store lies.

use vstd::prelude::*;
use vstd::string::*;
use crate::text::{clone_strings, opt_strings_view, path_join, spec_path_join, strings_view};

verus! {

/// The part of an image configuration that matters for running a VM.
#[derive(Debug, Clone)]
pub struct ImageConfig {
    /// Default command.
    pub cmd: Option<Vec<String>>,
    /// Default entry point.
    pub entrypoint: Option<Vec<String>>,
    /// Default environment.
    pub env: Option<Vec<String>>,
    /// Default working directory.
    pub working_dir: Option<String>,
    /// Default user.
    pub user: Option<String>,
    /// Exposed ports, as the JSON of the configuration has them.
    pub exposed_ports: Option<String>,
}

/// What is run: the entry point and behind it the command, each as far as the
/// image names it.
pub open spec fn spec_command(
    entrypoint: Option<Seq<Seq<char>>>,
    cmd: Option<Seq<Seq<char>>>,
) -> Seq<Seq<char>> {
    (match entrypoint {
        Some(e) => e,
        None => Seq::empty(),
    }) + (match cmd {
        Some(c) => c,
        None => Seq::empty(),
    })
}

fn append_strings(out: &mut Vec<String>, list: &Option<Vec<String>>)
    ensures
        strings_view(final(out)@) == strings_view(old(out)@) + (match opt_strings_view(*list) {
            Some(l) => l,
            None => Seq::empty(),
        }),
{
    match list {
        Some(l) => {
            let mut copy = clone_strings(l);
            out.append(&mut copy);
            assert(strings_view(out@) =~= strings_view(old(out)@) + strings_view(l@));
        },
        None => {
            assert(strings_view(out@) =~= strings_view(old(out)@) + Seq::<Seq<char>>::empty());
        },
    }
}

impl ImageConfig {
    /// What is run: the entry point and behind it the command.
    pub fn command(&self) -> (r: Vec<String>)
        ensures
            strings_view(r@) == spec_command(
                opt_strings_view(self.entrypoint),
                opt_strings_view(self.cmd),
            ),
    {
        let mut parts: Vec<String> = Vec::new();
        assert(strings_view(parts@) =~= Seq::<Seq<char>>::empty());
        append_strings(&mut parts, &self.entrypoint);
        append_strings(&mut parts, &self.cmd);
        assert(strings_view(parts@) =~= spec_command(
            opt_strings_view(self.entrypoint),
            opt_strings_view(self.cmd),
        ));
        parts
    }
}

/// The platform that the host runs.
#[derive(Debug, Clone, Copy, PartialEq, Eq, Structural)]
pub enum Platform {
    /// Linux.
    Linux,
    /// macOS.
    MacOs,
    /// Windows.
    Windows,
    /// Anything else.
    Other,
}

/// What the environment says of where data belongs.
#[derive(Debug, Clone)]
pub struct DataDirs {
    /// `BUX_HOME`.
    pub bux_home: Option<String>,
    /// `XDG_DATA_HOME`.
    pub xdg_data_home: Option<String>,
    /// `HOME`.
    pub home: Option<String>,
    /// `LOCALAPPDATA`.
    pub local_app_data: Option<String>,
}

/// The directory of the store: what `BUX_HOME` names, or else `bux` in the
/// data directory of the platform, or else `bux` in the working directory.
pub open spec fn spec_default_store(
    platform: Platform,
    bux_home: Option<Seq<char>>,
    xdg_data_home: Option<Seq<char>>,
    home: Option<Seq<char>>,
    local_app_data: Option<Seq<char>>,
) -> Seq<char> {
    if bux_home is Some {
        bux_home->Some_0
    } else if platform == Platform::Linux && xdg_data_home is Some {
        spec_path_join(xdg_data_home->Some_0, "bux"@)
    } else if platform == Platform::Linux && home is Some {
        spec_path_join(home->Some_0, ".local/share/bux"@)
    } else if platform == Platform::MacOs && home is Some {
        spec_path_join(home->Some_0, "Library/Application Support/bux"@)
    } else if platform == Platform::Windows && local_app_data is Some {
        spec_path_join(local_app_data->Some_0, "bux"@)
    } else {
        "bux"@
    }
}

/// Says where the store lies by default.
pub fn dirs_default_store(platform: Platform, dirs: &DataDirs) -> (r: String)
    ensures
        r@ == spec_default_store(
            platform,
            crate::text::opt_string_view(dirs.bux_home),
            crate::text::opt_string_view(dirs.xdg_data_home),
            crate::text::opt_string_view(dirs.home),
            crate::text::opt_string_view(dirs.local_app_data),
        ),
{
    if let Some(home) = &dirs.bux_home {
        return home.clone();
    }
    match platform {
        Platform::Linux => {
            if let Some(xdg) = &dirs.xdg_data_home {
                return path_join(xdg.as_str(), "bux");
            }
            if let Some(home) = &dirs.home {
                return path_join(home.as_str(), ".local/share/bux");
            }
        },
        Platform::MacOs => {
            if let Some(home) = &dirs.home {
                return path_join(home.as_str(), "Library/Application Support/bux");
            }
        },
        Platform::Windows => {
            if let Some(appdata) = &dirs.local_app_data {
                return path_join(appdata.as_str(), "bux");
            }
        },
        Platform::Other => {},
    }
    String::from_str("bux")
}

} // verus!
