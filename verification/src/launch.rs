//! What the backend does at start-up, decided from its command line.

use crate::text::same_text;
use vstd::prelude::*;

verus! {

/// The version that `--version` prints.
pub const VERSION: &'static str = "0.12.5";

/// The address that the backend listens on.
pub const ADDRESS: &'static str = "127.0.0.1";

/// What to print before anything else is done.
#[derive(Clone, Copy, Debug, PartialEq, Eq, Structural)]
pub enum Notice {
    Nothing,
    Help,
    Version,
}

/// What the backend does at start-up.
#[derive(Clone, Copy, Debug, PartialEq, Eq, Structural)]
pub struct StartPlan {
    /// Delete the home directory and build it anew.
    pub reset: bool,
    /// Start the control-channel server.
    pub launch: bool,
    /// The client runs in a native shell that brings its own assets.
    pub is_tauri: bool,
    /// No client is served at all.
    pub is_headless: bool,
    /// What to print.
    pub notice: Notice,
}

/// Why a command line cannot be followed.
#[derive(Clone, Copy, Debug, PartialEq, Eq, Structural)]
pub enum StartError {
    /// The command line lacks even the program's name.
    NoProgramName,
    /// The first argument is no flag that the backend knows.
    UnknownFlag,
}

/// The plan for a start without any flag.
pub open spec fn plain_start(dev: bool) -> StartPlan {
    StartPlan { reset: dev, launch: true, is_tauri: false, is_headless: false, notice: Notice::Nothing }
}

/// The plan for a start with the given first flag; `dev` says that the
/// development switch is set in the environment, which forces a reset.
pub open spec fn flagged_start(flag: Seq<char>, dev: bool) -> Result<StartPlan, StartError> {
    let idle = StartPlan {
        reset: dev,
        launch: false,
        is_tauri: false,
        is_headless: false,
        notice: Notice::Nothing,
    };
    if flag == "--reset"@ {
        Ok(StartPlan { reset: true, ..idle })
    } else if flag == "-h"@ || flag == "--help"@ {
        Ok(StartPlan { notice: Notice::Help, ..idle })
    } else if flag == "-v"@ || flag == "--version"@ {
        Ok(StartPlan { notice: Notice::Version, ..idle })
    } else if flag == "--tauri"@ {
        Ok(StartPlan { is_tauri: true, launch: true, ..idle })
    } else if flag == "--headless"@ {
        Ok(StartPlan { is_headless: true, launch: true, ..idle })
    } else {
        Err(StartError::UnknownFlag)
    }
}

/// The plan for a whole command line, the program's name first: only the
/// first argument after the name is looked at.
pub open spec fn start_plan(args: Seq<Seq<char>>, dev: bool) -> Result<StartPlan, StartError> {
    if args.len() == 0 {
        Err(StartError::NoProgramName)
    } else if args.len() == 1 {
        Ok(plain_start(dev))
    } else {
        flagged_start(args[1], dev)
    }
}

/// Decides what to do at start-up.
pub fn plan_start(args: &Vec<String>, dev: bool) -> (plan: Result<StartPlan, StartError>)
    ensures
        plan == start_plan(crate::text::texts(args@), dev),
{
    if args.len() == 0 {
        return Err(StartError::NoProgramName);
    }
    let idle = StartPlan {
        reset: dev,
        launch: false,
        is_tauri: false,
        is_headless: false,
        notice: Notice::Nothing,
    };
    if args.len() == 1 {
        return Ok(StartPlan { launch: true, ..idle });
    }
    let flag = args[1].as_str();
    if same_text(flag, "--reset") {
        Ok(StartPlan { reset: true, ..idle })
    } else if same_text(flag, "-h") || same_text(flag, "--help") {
        Ok(StartPlan { notice: Notice::Help, ..idle })
    } else if same_text(flag, "-v") || same_text(flag, "--version") {
        Ok(StartPlan { notice: Notice::Version, ..idle })
    } else if same_text(flag, "--tauri") {
        Ok(StartPlan { is_tauri: true, launch: true, ..idle })
    } else if same_text(flag, "--headless") {
        Ok(StartPlan { is_headless: true, launch: true, ..idle })
    } else {
        Err(StartError::UnknownFlag)
    }
}

impl StartPlan {
    /// Whether the client's static files have to be in place: for every
    /// launch but that of the native shell.
    pub fn needs_dist(&self) -> (needed: bool)
        ensures
            needed == (self.launch && !self.is_tauri),
    {
        self.launch && !self.is_tauri
    }

    /// Whether the backend serves the client's static files itself: for a
    /// launch that is neither headless nor that of the native shell.
    pub fn serves_assets(&self) -> (serves: bool)
        ensures
            serves == (self.launch && !self.is_tauri && !self.is_headless),
    {
        self.launch && !self.is_tauri && !self.is_headless
    }
}

/// The port of the asset server: the one after the control channel's, if
/// there is one.
pub fn asset_port(port: u16) -> (next: Option<u16>)
    ensures
        next == if port < u16::MAX {
            Some((port + 1) as u16)
        } else {
            None
        },
{
    if port < u16::MAX {
        Some(port + 1)
    } else {
        None
    }
}

} // verus!
