//! The script that hands the process state to the UI when it starts.

use vstd::prelude::*;

verus! {

/// The place in the template where the process state goes.
pub const SETTINGS_MARK: &'static str = "{$_SETTINGS_$}";

/// The place in the template where the stand-in for a workshop item that
/// no longer exists goes.
pub const DEAD_ITEM_MARK: &'static str = "{$_WS_DEAD_$}";

/// The identifier of the stand-in for a workshop item that no longer exists.
pub const DEAD_ITEM_ID: u64 = 0;

/// `text` with every occurrence of `from` replaced by `to`, as `str::replace`
/// does it: occurrences are found from the left and do not overlap.
pub uninterp spec fn replaced(text: Seq<char>, from: Seq<char>, to: Seq<char>) -> Seq<char>;

/// Calls `str::replace`.  The contract only gives what it returns its name.
#[verifier::external_body]
fn replace(text: &str, from: &str, to: &str) -> (out: String)
    ensures
        out@ == replaced(text@, from@, to@),
{
    text.replace(from, to)
}

/// The script made from `template`: the process state is put in first, the
/// stand-in item after it.
pub open spec fn script_of(template: Seq<char>, app_data: Seq<char>, dead_item: Seq<char>) -> Seq<
    char,
> {
    replaced(replaced(template, SETTINGS_MARK@, app_data), DEAD_ITEM_MARK@, dead_item)
}

/// The plugin through which the UI learns the process state.
#[derive(Clone, Debug, PartialEq, Eq)]
pub struct AppDataPlugin {}

impl AppDataPlugin {
    /// The plugin.  It holds nothing: what goes into the script is handed
    /// to `init_script` when the script is made.
    pub fn init() -> (plugin: AppDataPlugin)
        ensures
            plugin == (AppDataPlugin {}),
    {
        AppDataPlugin {}
    }

    /// The script to run in the UI before anything else.  `app_data` and
    /// `dead_item` are the serialized process state and the serialized
    /// stand-in item; they take the places the template marks for them.
    pub fn init_script(&self, template: &str, app_data: &str, dead_item: &str) -> (script: Option<
        String,
    >)
        ensures
            script is Some,
            script->0@ == script_of(template@, app_data@, dead_item@),
    {
        let with_state = replace(template, SETTINGS_MARK, app_data);
        Some(replace(with_state.as_str(), DEAD_ITEM_MARK, dead_item))
    }
}

} // verus!
