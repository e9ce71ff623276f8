//! The state of the process: who runs it, what it is set to, and what it
//! has found on the machine.
//!
//! The state is made once at startup and then read by every command.  Two
//! of its parts change after that: the settings, when the user updates
//! them, and the game's directories, which discovery fills in.

use vstd::prelude::*;
use vstd::string::*;

verus! {

/// The platforms on which the game's workshop tools are named differently.
#[derive(Clone, Copy, Debug, PartialEq, Eq, Structural)]
pub enum Platform {
    Windows,
    Linux,
    MacOs,
}

/// The part of the persisted settings that the core reads.
#[derive(Clone, Debug, PartialEq, Eq)]
pub struct Settings {
    /// The game's directory as the user has set it, if at all.
    pub gmod: Option<String>,
}

/// The user the process runs for.
#[derive(Clone, Debug, PartialEq, Eq)]
pub struct SteamUser {
    pub steamid: u64,
    pub name: String,
}

/// What the host found when it looked for the two workshop tools in one
/// directory: where each would be, and whether a regular file is there.
#[derive(Clone, Debug, PartialEq, Eq)]
pub struct BinaryProbe {
    pub gmad: String,
    pub gmad_is_file: bool,
    pub gmpublish: String,
    pub gmpublish_is_file: bool,
}

impl BinaryProbe {
    /// The tools count as found only when both are: one without the other
    /// is as good as none.
    pub open spec fn both(&self) -> bool {
        self.gmad_is_file && self.gmpublish_is_file
    }
}

/// The process state.
#[derive(Clone, Debug, PartialEq, Eq)]
pub struct AppData {
    pub version: String,
    pub settings: Settings,
    pub data_dir: String,
    pub gmad: Option<String>,
    pub gmpublish: Option<String>,
    pub gmod: Option<String>,
    pub user: SteamUser,
    pub path_separator: char,
    pub downloads_dir: Option<String>,
    pub tmp_dir: String,
}

/// The separator between the components of a path.
pub open spec fn separator_of(platform: Platform) -> char {
    match platform {
        Platform::Windows => '\\',
        _ => '/',
    }
}

/// The file names of the two workshop tools, `gmad` first.
pub open spec fn binary_names_of(platform: Platform) -> (Seq<char>, Seq<char>) {
    match platform {
        Platform::Windows => ("gmad.exe"@, "gmpublish.exe"@),
        Platform::Linux => ("gmad_linux"@, "gmpublish_linux"@),
        Platform::MacOs => ("gmad_osx"@, "gmpublish_osx"@),
    }
}

/// The file names under which the two workshop tools are looked for in the
/// game's directory, `gmad` first.
pub fn binary_names(platform: Platform) -> (names: (&'static str, &'static str))
    ensures
        (names.0@, names.1@) == binary_names_of(platform),
{
    match platform {
        Platform::Windows => ("gmad.exe", "gmpublish.exe"),
        Platform::Linux => ("gmad_linux", "gmpublish_linux"),
        Platform::MacOs => ("gmad_osx", "gmpublish_osx"),
    }
}

impl AppData {
    /// The tools are known as a pair or not at all, and never without the
    /// game's directory.
    pub open spec fn wf(&self) -> bool {
        &&& self.gmad is Some <==> self.gmpublish is Some
        &&& self.gmad is Some ==> self.gmod is Some
    }

    /// Whether the game's directory is known.
    pub open spec fn game_found(&self) -> bool {
        self.gmod is Some
    }

    /// The state with `dir` as the game's directory.
    pub open spec fn with_game(self, dir: String) -> AppData {
        AppData { gmod: Some(dir), ..self }
    }

    /// The state once `probe` has been taken note of: both tools where the
    /// probe found both, and no change where it did not.
    pub open spec fn with_tools(self, probe: BinaryProbe) -> AppData {
        if probe.both() {
            AppData { gmad: Some(probe.gmad), gmpublish: Some(probe.gmpublish), ..self }
        } else {
            self
        }
    }

    /// The state at startup, before anything has been looked for: the
    /// game's directory and its tools are unknown.
    pub fn init(
        user: SteamUser,
        version: String,
        settings: Settings,
        data_dir: String,
        downloads_dir: Option<String>,
        tmp_dir: String,
        platform: Platform,
    ) -> (app_data: AppData)
        ensures
            app_data == (AppData {
                version,
                settings,
                data_dir,
                gmad: None,
                gmpublish: None,
                gmod: None,
                user,
                path_separator: separator_of(platform),
                downloads_dir,
                tmp_dir,
            }),
            app_data.wf(),
    {
        let path_separator = match platform {
            Platform::Windows => '\\',
            _ => '/',
        };
        AppData {
            version,
            settings,
            data_dir,
            gmad: None,
            gmpublish: None,
            gmod: None,
            user,
            path_separator,
            downloads_dir,
            tmp_dir,
        }
    }

    /// Takes note of the two workshop tools if the probe of the game's
    /// directory found both.  With one of them missing nothing is noted
    /// and the state stays as it was.
    pub fn find_workshop_binaries(&mut self, probe: BinaryProbe) -> (found: Option<()>)
        requires
            old(self).gmod is Some,
        ensures
            found is Some <==> probe.both(),
            *final(self) == old(self).with_tools(probe),
            old(self).wf() ==> final(self).wf(),
    {
        if probe.gmad_is_file && probe.gmpublish_is_file {
            self.gmad = Some(probe.gmad);
            self.gmpublish = Some(probe.gmpublish);
            Some(())
        } else {
            None
        }
    }

    /// Replaces the settings in memory.  Nothing else changes, and nothing
    /// is read or written outside the state, so the exclusive access this
    /// takes lasts no longer than the assignment.
    pub fn update_settings(&mut self, settings: Settings)
        ensures
            *final(self) == (AppData { settings, ..*old(self) }),
    {
        self.settings = settings;
    }
}

} // verus!
