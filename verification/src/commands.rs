//! The dispatcher: from one message to what is to be done about it.
//!
//! Handling a message takes two steps with the host in between.
//! `invoke_handler` looks at the decoded message and the state and settles
//! what it can by itself.  For the rest it names the call the host must
//! make.  `settle` then turns whatever that call returned into the answer
//! for the transport.  That answer is always a success: a message that
//! fails is reported on the diagnostic channel and nowhere else, so one bad
//! message never takes the channel down.

use crate::analyzer::AddonSizeAnalyzer;
use crate::appdata::AppData;
use crate::command::{Command, DecodeError};
use crate::transactions::{cancel_model, Transactions};
use vstd::prelude::*;
use vstd::string::*;

verus! {

/// What the host does for one message, beyond what the dispatcher already
/// did to the state.  At most one of `delegate` and `report` is set.
#[derive(Clone, Debug, PartialEq, Eq)]
pub struct Routed<H> {
    /// The handle of an operation that is to stop: the host signals it.
    pub signal: Option<H>,
    /// The command to hand to the collaborator that carries it out.
    pub delegate: Option<Command>,
    /// The text to show on the diagnostic channel.
    pub report: Option<String>,
}

/// The text of a report, if there is a report.
pub open spec fn text_of(report: Option<String>) -> Option<Seq<char>> {
    match report {
        Some(text) => Some(text@),
        None => None,
    }
}

/// `Routed`, with the report as the text it holds.
pub struct RoutedView<H> {
    pub signal: Option<H>,
    pub delegate: Option<Command>,
    pub report: Option<Seq<char>>,
}

impl<H> View for Routed<H> {
    type V = RoutedView<H>;

    open spec fn view(&self) -> RoutedView<H> {
        RoutedView {
            signal: self.signal,
            delegate: self.delegate,
            report: text_of(self.report),
        }
    }
}

/// The answer to one message.
#[derive(Debug, PartialEq, Eq)]
pub struct Handled {
    /// What the transport is told.
    pub transport: Result<(), String>,
    /// What the diagnostic channel shows, if anything.
    pub report: Option<String>,
}

/// The state after a message and what the host is to do: the transactions
/// in flight, the analyzer's slot, and the routing.
pub struct Routing<H> {
    pub active: Map<usize, H>,
    pub slot: Option<H>,
    pub routed: RoutedView<H>,
}

/// A routing that leaves the state alone and only shows `text`.
pub open spec fn refuse<H>(active: Map<usize, H>, slot: Option<H>, text: Seq<char>) -> Routing<H> {
    Routing { active, slot, routed: RoutedView { signal: None, delegate: None, report: Some(text) } }
}

/// What becomes of a message.
///
/// A message that is no command is reported.  Cancelling a transaction and
/// freeing the analyzer are done on the spot and hand back the handle to
/// signal, if there was one.  A command that needs the game is refused
/// while the game has not been found.  Every other command goes to its
/// collaborator as it is.
pub open spec fn route<H>(
    decoded: Result<Command, DecodeError>,
    game_found: bool,
    active: Map<usize, H>,
    slot: Option<H>,
) -> Routing<H> {
    match decoded {
        Err(DecodeError::Malformed(detail)) => refuse(
            active,
            slot,
            "Invoke handler ERROR:\n"@ + detail@,
        ),
        Err(DecodeError::UnknownCommand) => refuse(active, slot, "Unknown command"@),
        Ok(command) => match command {
            Command::CancelTransaction { id } => Routing {
                active: cancel_model(active, id).0,
                slot,
                routed: RoutedView {
                    signal: cancel_model(active, id).1,
                    delegate: None,
                    report: None,
                },
            },
            Command::FreeAddonSizeAnalyzer => Routing {
                active,
                slot: None,
                routed: RoutedView { signal: slot, delegate: None, report: None },
            },
            Command::LoadAsset => Routing {
                active,
                slot,
                routed: RoutedView { signal: None, delegate: None, report: None },
            },
            _ => if command.needs_game() && !game_found {
                refuse(active, slot, "Garry's Mod not found"@)
            } else {
                Routing {
                    active,
                    slot,
                    routed: RoutedView { signal: None, delegate: Some(command), report: None },
                }
            },
        },
    }
}

/// What the diagnostic channel shows once the host has made the call it
/// was given: the dispatcher's own report if it made one, and else the
/// failure of the call, word for word.
pub open spec fn settled(report: Option<Seq<char>>, outcome: Result<(), String>) -> Option<Seq<char>> {
    match report {
        Some(text) => Some(text),
        None => match outcome {
            Ok(_) => None,
            Err(failure) => Some(failure@),
        },
    }
}

/// Handles one decoded message against the state.
pub fn invoke_handler<H>(
    decoded: Result<Command, DecodeError>,
    app_data: &AppData,
    transactions: &mut Transactions<H>,
    analyzer: &mut AddonSizeAnalyzer<H>,
) -> (routed: Routed<H>)
    ensures
        (Routing { active: final(transactions)@, slot: final(analyzer)@, routed: routed@ }) == route(
            decoded,
            app_data.game_found(),
            old(transactions)@,
            old(analyzer)@,
        ),
        final(transactions).cursor() == old(transactions).cursor(),
{
    match decoded {
        Err(DecodeError::Malformed(detail)) => {
            let text = String::from_str("Invoke handler ERROR:\n").concat(detail.as_str());
            Routed { signal: None, delegate: None, report: Some(text) }
        },
        Err(DecodeError::UnknownCommand) => Routed {
            signal: None,
            delegate: None,
            report: Some(String::from_str("Unknown command")),
        },
        Ok(Command::CancelTransaction { id }) => {
            let signal = transactions.cancel(id);
            Routed { signal, delegate: None, report: None }
        },
        Ok(Command::FreeAddonSizeAnalyzer) => {
            let signal = analyzer.free();
            Routed { signal, delegate: None, report: None }
        },
        Ok(Command::LoadAsset) => Routed { signal: None, delegate: None, report: None },
        Ok(command) => {
            let refused = match &command {
                Command::GameAddonsBrowser { .. } => app_data.gmod.is_none(),
                _ => false,
            };
            if refused {
                Routed {
                    signal: None,
                    delegate: None,
                    report: Some(String::from_str("Garry's Mod not found")),
                }
            } else {
                Routed { signal: None, delegate: Some(command), report: None }
            }
        },
    }
}

/// Closes the handling of a message.  `report` is what `invoke_handler`
/// wanted shown and `outcome` is what the delegated call returned, or `Ok`
/// where there was none to make.  The transport is told that the message
/// was handled, whatever became of it.
pub fn settle(report: Option<String>, outcome: Result<(), String>) -> (handled: Handled)
    ensures
        handled.transport == Ok::<(), String>(()),
        text_of(handled.report) == settled(text_of(report), outcome),
{
    let report = match report {
        Some(text) => Some(text),
        None => match outcome {
            Ok(_) => None,
            Err(failure) => Some(failure),
        },
    };
    Handled { transport: Ok(()), report }
}

/// A message that is no command changes nothing, starts nothing and
/// signals nothing.  It is reported, and the report is what the diagnostic
/// channel shows whatever the host passes to `settle` after it.
pub proof fn no_command_is_reported<H>(
    error: DecodeError,
    game_found: bool,
    active: Map<usize, H>,
    slot: Option<H>,
    outcome: Result<(), String>,
)
    ensures
        route(Err(error), game_found, active, slot).active == active,
        route(Err(error), game_found, active, slot).slot == slot,
        route(Err(error), game_found, active, slot).routed.signal is None,
        route(Err(error), game_found, active, slot).routed.delegate is None,
        route(Err(error), game_found, active, slot).routed.report is Some,
        settled(route(Err(error), game_found, active, slot).routed.report, outcome) == route(
            Err(error),
            game_found,
            active,
            slot,
        ).routed.report,
{
}

/// No message is both reported and delegated, and only a message that is
/// neither can change the state or signal a handle.
pub proof fn one_way_per_message<H>(
    decoded: Result<Command, DecodeError>,
    game_found: bool,
    active: Map<usize, H>,
    slot: Option<H>,
)
    ensures
        ({
            let routing = route(decoded, game_found, active, slot);
            &&& !(routing.routed.report is Some && routing.routed.delegate is Some)
            &&& routing.routed.report is Some || routing.routed.delegate is Some ==> {
                &&& routing.active == active
                &&& routing.slot == slot
                &&& routing.routed.signal is None
            }
        }),
{
}

/// A command that needs the game is never delegated while the game has not
/// been found: it is reported instead.
pub proof fn game_is_needed<H>(command: Command, active: Map<usize, H>, slot: Option<H>)
    requires
        command.needs_game(),
    ensures
        route(Ok(command), false, active, slot) == refuse(active, slot, "Garry's Mod not found"@),
        route(Ok(command), true, active, slot).routed.delegate == Some(command),
{
}

/// Cancelling a transaction and freeing the analyzer never fail and are
/// never reported, whether or not there was anything to cancel or to free.
/// After the one the transaction is not in flight, and after the other
/// nothing is running.
pub proof fn cancel_and_free_always_succeed<H>(
    id: usize,
    game_found: bool,
    active: Map<usize, H>,
    slot: Option<H>,
)
    ensures
        ({
            let cancelled = route(Ok(Command::CancelTransaction { id }), game_found, active, slot);
            &&& cancelled.routed.report is None
            &&& cancelled.routed.delegate is None
            &&& !cancelled.active.contains_key(id)
            &&& cancelled.slot == slot
            &&& !active.contains_key(id) ==> cancelled.active == active
                && cancelled.routed.signal is None
        }),
        ({
            let freed = route(Ok(Command::FreeAddonSizeAnalyzer), game_found, active, slot);
            &&& freed.routed.report is None
            &&& freed.routed.delegate is None
            &&& freed.slot is None
            &&& freed.routed.signal == slot
            &&& freed.active == active
        }),
{
}

} // verus!
