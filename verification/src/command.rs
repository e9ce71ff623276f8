//! The commands a request can name.

use crate::token::ContinuationToken;
use vstd::prelude::*;

verus! {

/// One decoded request.  The set is closed: a message either names one of
/// these or is not a command.  A command that is answered later carries the
/// token that says where its answer goes.
#[derive(Clone, Debug, PartialEq, Eq)]
#[allow(inconsistent_fields)]
pub enum Command {
    CancelTransaction { id: usize },
    OpenFile { path: String },
    OpenFolder { path: String },
    UpdateSettings { settings: String },
    WorkshopBrowser { page: u32, token: ContinuationToken },
    GetWorkshopMetadata { id: u64, token: ContinuationToken },
    GetWorkshopUploader { id: u64, token: ContinuationToken },
    GameAddonsBrowser { page: u32, token: ContinuationToken },
    GmaMetadata { path: String, id: Option<u64>, token: ContinuationToken },
    PreviewGma { path: String, id: Option<u64>, token: ContinuationToken },
    OpenGmaPreviewEntry { entry_path: String, token: ContinuationToken },
    ExtractGma {
        path: Option<String>,
        named_dir: bool,
        tmp: bool,
        downloads: bool,
        addons: bool,
        token: ContinuationToken,
    },
    PromptPathDialog {
        multiple: bool,
        directory: bool,
        save: bool,
        default_path: Option<String>,
        filter: Option<String>,
        token: ContinuationToken,
    },
    /// The size of the drawing area travels as the bit patterns of two
    /// IEEE 754 doubles; the core passes them on untouched.
    AnalyzeAddonSizes { token: ContinuationToken, w: u64, h: u64 },
    FreeAddonSizeAnalyzer,
    DownloadWorkshop {
        token: ContinuationToken,
        ids: Vec<String>,
        path: Option<String>,
        named_dir: bool,
        tmp: bool,
        downloads: bool,
        addons: bool,
    },
    LoadAsset,
}

/// Why a message is not a command.
#[derive(Clone, Debug, PartialEq, Eq)]
pub enum DecodeError {
    /// The message could not be read as a command; the text says why.
    Malformed(String),
    /// The message is well formed but names no command of the set.
    UnknownCommand,
}

impl Command {
    /// Whether the command works on the game's installation and so cannot
    /// be started before the game's directory is known.
    pub open spec fn needs_game(&self) -> bool {
        self is GameAddonsBrowser
    }

    /// The token of a command that is answered later, and `None` for a
    /// command that is finished when the dispatcher returns.
    pub open spec fn token_of(&self) -> Option<ContinuationToken> {
        match *self {
            Command::WorkshopBrowser { token, .. } => Some(token),
            Command::GetWorkshopMetadata { token, .. } => Some(token),
            Command::GetWorkshopUploader { token, .. } => Some(token),
            Command::GameAddonsBrowser { token, .. } => Some(token),
            Command::GmaMetadata { token, .. } => Some(token),
            Command::PreviewGma { token, .. } => Some(token),
            Command::OpenGmaPreviewEntry { token, .. } => Some(token),
            Command::ExtractGma { token, .. } => Some(token),
            Command::PromptPathDialog { token, .. } => Some(token),
            Command::AnalyzeAddonSizes { token, .. } => Some(token),
            Command::DownloadWorkshop { token, .. } => Some(token),
            _ => None,
        }
    }

    /// Where the answer to the command goes: the token of a command that
    /// is answered later, and `None` for a command that is finished when
    /// the dispatcher returns.
    pub fn token(&self) -> (token: Option<&ContinuationToken>)
        ensures
            match token {
                Some(found) => self.token_of() == Some(*found),
                None => self.token_of() is None,
            },
    {
        match self {
            Command::WorkshopBrowser { token, .. } => Some(token),
            Command::GetWorkshopMetadata { token, .. } => Some(token),
            Command::GetWorkshopUploader { token, .. } => Some(token),
            Command::GameAddonsBrowser { token, .. } => Some(token),
            Command::GmaMetadata { token, .. } => Some(token),
            Command::PreviewGma { token, .. } => Some(token),
            Command::OpenGmaPreviewEntry { token, .. } => Some(token),
            Command::ExtractGma { token, .. } => Some(token),
            Command::PromptPathDialog { token, .. } => Some(token),
            Command::AnalyzeAddonSizes { token, .. } => Some(token),
            Command::DownloadWorkshop { token, .. } => Some(token),
            _ => None,
        }
    }
}

} // verus!
