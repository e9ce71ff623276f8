//! Finding the game.
//!
//! The directory the user has set is tried first.  It is taken if it is a
//! directory, and the search ends there if both workshop tools are in it.
//! Otherwise the game is located automatically and the tools are looked for
//! again in the place that gives.  Nothing in this can fail the process:
//! what is not found stays unknown, and the commands that need it are
//! refused one by one.
//!
//! Like the search for the data directory this is a machine that the host
//! drives: it carries out each request and replies.

use crate::appdata::{AppData, BinaryProbe};
use vstd::prelude::*;

verus! {

/// The identifier under which the game is installed.
pub const GMOD_APP_ID: u32 = 4000;

/// Where the search for the game stands.
#[derive(Clone, Debug, PartialEq, Eq)]
pub enum Discovery {
    /// Asked whether the path from the settings is a directory.
    Settings { path: String },
    /// Asked for the tools in the directory from the settings.
    SettingsTools { dir: String },
    /// Asked to locate the game.
    Locate,
    /// Asked for the tools in the directory the game was located in.
    LocatedTools { dir: String },
    /// Over.  `found` is `Some` when the game's directory was settled: by
    /// the settings together with both tools, or by locating the game.
    Done { found: Option<()> },
}

/// What the search asks of the host.
#[derive(Clone, Debug, PartialEq, Eq)]
pub enum DiscoveryRequest {
    /// Tell whether `path` is a directory.
    IsDir { path: String },
    /// Look for the two workshop tools in `dir`.
    Probe { dir: String },
    /// Locate the game's installation.
    Locate,
    /// Nothing: the search is over.
    Finish,
}

/// What the host answers.
#[derive(Clone, Debug, PartialEq, Eq)]
pub enum DiscoveryReply {
    /// To `IsDir`.
    IsDir(bool),
    /// To `Probe`.
    Probed(BinaryProbe),
    /// To `Locate`: the game's directory, if the game is installed.
    Located(Option<String>),
}

/// The search before the first request: the settings are consulted if
/// they name a directory, and the game is located if they do not.
pub open spec fn start_of(app_data: AppData) -> Discovery {
    match app_data.settings.gmod {
        Some(path) => Discovery::Settings { path },
        None => Discovery::Locate,
    }
}

/// The state and the search after a reply.  The directory whose tools are
/// looked for is the game's directory from then on, whether the tools are
/// in it or not.  A reply that does not answer the pending request changes
/// nothing.
pub open spec fn step_of(app_data: AppData, search: Discovery, reply: DiscoveryReply) -> (
    AppData,
    Discovery,
) {
    match (search, reply) {
        (Discovery::Settings { path }, DiscoveryReply::IsDir(is_dir)) => if is_dir {
            (app_data.with_game(path), Discovery::SettingsTools { dir: path })
        } else {
            (app_data, Discovery::Locate)
        },
        (Discovery::SettingsTools { dir }, DiscoveryReply::Probed(probe)) => if probe.both() {
            (app_data.with_game(dir).with_tools(probe), Discovery::Done { found: Some(()) })
        } else {
            (app_data.with_game(dir), Discovery::Locate)
        },
        (Discovery::Locate, DiscoveryReply::Located(located)) => match located {
            Some(dir) => (app_data.with_game(dir), Discovery::LocatedTools { dir }),
            None => (app_data, Discovery::Done { found: None }),
        },
        (Discovery::LocatedTools { dir }, DiscoveryReply::Probed(probe)) => (
            app_data.with_game(dir).with_tools(probe),
            Discovery::Done { found: Some(()) },
        ),
        _ => (app_data, search),
    }
}

impl Discovery {
    /// What is asked of the host in this state.
    pub open spec fn request_of(&self) -> DiscoveryRequest {
        match *self {
            Discovery::Settings { path } => DiscoveryRequest::IsDir { path },
            Discovery::SettingsTools { dir } => DiscoveryRequest::Probe { dir },
            Discovery::Locate => DiscoveryRequest::Locate,
            Discovery::LocatedTools { dir } => DiscoveryRequest::Probe { dir },
            Discovery::Done { .. } => DiscoveryRequest::Finish,
        }
    }

    /// Begins the search for the game.
    pub fn start(app_data: &AppData) -> (search: Self)
        ensures
            search == start_of(*app_data),
    {
        match &app_data.settings.gmod {
            Some(path) => Discovery::Settings { path: path.clone() },
            None => Discovery::Locate,
        }
    }

    /// The request the host is to carry out next.
    pub fn request(&self) -> (request: DiscoveryRequest)
        ensures
            request == self.request_of(),
    {
        match self {
            Discovery::Settings { path } => DiscoveryRequest::IsDir { path: path.clone() },
            Discovery::SettingsTools { dir } => DiscoveryRequest::Probe { dir: dir.clone() },
            Discovery::Locate => DiscoveryRequest::Locate,
            Discovery::LocatedTools { dir } => DiscoveryRequest::Probe { dir: dir.clone() },
            Discovery::Done { .. } => DiscoveryRequest::Finish,
        }
    }
}

impl AppData {
    /// Moves the search for the game on by the host's reply to the pending
    /// request, and takes note of what the reply has settled.
    pub fn find_gmod(&mut self, search: Discovery, reply: DiscoveryReply) -> (next: Discovery)
        ensures
            (*final(self), next) == step_of(*old(self), search, reply),
            old(self).wf() ==> final(self).wf(),
    {
        match (search, reply) {
            (Discovery::Settings { path }, DiscoveryReply::IsDir(is_dir)) => {
                if is_dir {
                    self.gmod = Some(path.clone());
                    Discovery::SettingsTools { dir: path }
                } else {
                    Discovery::Locate
                }
            },
            (Discovery::SettingsTools { dir }, DiscoveryReply::Probed(probe)) => {
                self.gmod = Some(dir);
                match self.find_workshop_binaries(probe) {
                    Some(_) => Discovery::Done { found: Some(()) },
                    None => Discovery::Locate,
                }
            },
            (Discovery::Locate, DiscoveryReply::Located(located)) => match located {
                Some(dir) => {
                    self.gmod = Some(dir.clone());
                    Discovery::LocatedTools { dir }
                },
                None => Discovery::Done { found: None },
            },
            (Discovery::LocatedTools { dir }, DiscoveryReply::Probed(probe)) => {
                self.gmod = Some(dir);
                let _ = self.find_workshop_binaries(probe);
                Discovery::Done { found: Some(()) }
            },
            (search, _) => search,
        }
    }
}

/// A machine as the search sees it: the answer the host gives to each
/// request the search can make.
pub struct GameWorld {
    /// Whether the path from the settings is a directory.
    pub settings_is_dir: bool,
    /// What a look for the tools in that directory finds.
    pub settings_probe: BinaryProbe,
    /// Where the game is installed, if it is.
    pub located: Option<String>,
    /// What a look for the tools in that directory finds.
    pub located_probe: BinaryProbe,
}

impl GameWorld {
    /// What locating the game makes of the state, and whether the game's
    /// directory is settled by it.
    pub open spec fn locate(&self, app_data: AppData) -> (AppData, Option<()>) {
        match self.located {
            Some(dir) => (app_data.with_game(dir).with_tools(self.located_probe), Some(())),
            None => (app_data, None),
        }
    }

    /// What the search makes of the state on this machine, and whether the
    /// game's directory is settled.  The directory from the settings is
    /// the game's directory if it is one.  With both tools in it the search
    /// is over; with a tool missing, or with no such directory, locating
    /// the game decides.
    pub open spec fn discover(&self, app_data: AppData) -> (AppData, Option<()>) {
        match app_data.settings.gmod {
            Some(path) if self.settings_is_dir => if self.settings_probe.both() {
                (app_data.with_game(path).with_tools(self.settings_probe), Some(()))
            } else {
                self.locate(app_data.with_game(path))
            },
            _ => self.locate(app_data),
        }
    }

    /// The host's reply to the request that is pending in `search`.
    pub open spec fn reply_to(&self, search: Discovery) -> DiscoveryReply {
        match search {
            Discovery::Settings { .. } => DiscoveryReply::IsDir(self.settings_is_dir),
            Discovery::SettingsTools { .. } => DiscoveryReply::Probed(self.settings_probe),
            Discovery::LocatedTools { .. } => DiscoveryReply::Probed(self.located_probe),
            _ => DiscoveryReply::Located(self.located),
        }
    }

    /// The state and the search after the host has answered `rounds`
    /// requests.
    pub open spec fn run(&self, app_data: AppData, search: Discovery, rounds: nat) -> (
        AppData,
        Discovery,
    )
        decreases rounds,
    {
        if rounds == 0 {
            (app_data, search)
        } else {
            let next = step_of(app_data, search, self.reply_to(search));
            self.run(next.0, next.1, (rounds - 1) as nat)
        }
    }
}

/// The search is over after four replies at most, and it leaves the state
/// as `discover` says.
pub proof fn search_discovers(world: GameWorld, app_data: AppData)
    ensures
        world.run(app_data, start_of(app_data), 4) == (
            world.discover(app_data).0,
            Discovery::Done { found: world.discover(app_data).1 },
        ),
{
    reveal_with_fuel(GameWorld::run, 5);
}

/// With both tools in the directory from the settings the search is over
/// after the two replies about that directory: it has become the game's
/// directory, the tools are noted, and the game was never located.
pub proof fn settings_with_both_tools_end_search(world: GameWorld, app_data: AppData, path: String)
    requires
        app_data.settings.gmod == Some(path),
        world.settings_is_dir,
        world.settings_probe.both(),
    ensures
        start_of(app_data).request_of() == (DiscoveryRequest::IsDir { path }),
        world.run(app_data, start_of(app_data), 1).1.request_of() == (DiscoveryRequest::Probe {
            dir: path,
        }),
        world.run(app_data, start_of(app_data), 2) == (
            app_data.with_game(path).with_tools(world.settings_probe),
            Discovery::Done { found: Some(()) },
        ),
        world.run(app_data, start_of(app_data), 2).0.gmod == Some(path),
        world.run(app_data, start_of(app_data), 2).0.gmad == Some(world.settings_probe.gmad),
        world.run(app_data, start_of(app_data), 2).0.gmpublish == Some(
            world.settings_probe.gmpublish,
        ),
{
    reveal_with_fuel(GameWorld::run, 3);
}

/// With a tool missing from the directory from the settings, the search
/// goes on to locate the game.
pub proof fn settings_with_a_tool_missing_fall_back(
    world: GameWorld,
    app_data: AppData,
    path: String,
)
    requires
        app_data.settings.gmod == Some(path),
        world.settings_is_dir,
        !world.settings_probe.both(),
    ensures
        world.run(app_data, start_of(app_data), 2) == (app_data.with_game(path), Discovery::Locate),
        world.run(app_data, start_of(app_data), 2).1.request_of() == DiscoveryRequest::Locate,
{
    reveal_with_fuel(GameWorld::run, 3);
}

} // verus!
