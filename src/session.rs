//! The decisions of the interactive session: what a key press does to the
//! command line, and what each frame shows.

use vstd::prelude::*;
use crate::client::{texts, ClusterClient};
use crate::command::{next_view, trimmed, CentralView, CommandState};

verus! {

/// The key that ends the session, whatever is typed or shown.
pub const QUIT_KEY: char = 'q';

/// A key press, as far as the session tells them apart.
#[derive(Debug, Clone, Copy, PartialEq, Eq, Structural)]
pub enum KeyInput {
    /// A printable character.
    Char(char),
    /// Delete the last character.
    Backspace,
    /// Submit the typed command.
    Enter,
    /// Any other key; it is ignored.
    Other,
}

/// Whether the session goes on after a key press.
#[derive(Debug, Clone, Copy, PartialEq, Eq, Structural)]
pub enum LoopControl {
    Continue,
    Quit,
}

/// Whether `key` ends the session.
pub open spec fn is_quit(key: KeyInput) -> bool {
    key == KeyInput::Char(QUIT_KEY)
}

/// The input after `key` is handled, when it does not end the session.
pub open spec fn input_after_key(input: Seq<char>, key: KeyInput) -> Seq<char> {
    match key {
        KeyInput::Char(c) => input.push(c),
        KeyInput::Backspace => if input.len() == 0 {
            input
        } else {
            input.drop_last()
        },
        KeyInput::Enter => Seq::<char>::empty(),
        KeyInput::Other => input,
    }
}

/// The view after `key` is handled, when it does not end the session.
pub open spec fn view_after_key(input: Seq<char>, view: CentralView, key: KeyInput) -> CentralView {
    match key {
        KeyInput::Enter => next_view(trimmed(input), view),
        _ => view,
    }
}

/// Handles one key press: the quit key ends the session and changes
/// nothing; a character is typed; backspace deletes; enter dispatches the
/// command; any other key is ignored.
pub fn handle_key(state: &mut CommandState, key: KeyInput) -> (r: LoopControl)
    ensures
        is_quit(key) <==> r == LoopControl::Quit,
        is_quit(key) ==> final(state).input@ == old(state).input@ && final(state).view == old(state).view,
        !is_quit(key) ==> final(state).input@ == input_after_key(old(state).input@, key),
        !is_quit(key) ==> final(state).view == view_after_key(old(state).input@, old(state).view, key),
        final(state).mode == old(state).mode,
{
    match key {
        KeyInput::Char(c) => {
            if c == QUIT_KEY {
                LoopControl::Quit
            } else {
                state.push_char(c);
                LoopControl::Continue
            }
        },
        KeyInput::Backspace => {
            state.backspace();
            LoopControl::Continue
        },
        KeyInput::Enter => {
            state.handle_command();
            LoopControl::Continue
        },
        KeyInput::Other => LoopControl::Continue,
    }
}

/// What the central region of a frame holds.
pub enum CentralContent {
    /// The workloads, in the client's order.
    Pods(Vec<String>),
    /// The contexts, in the client's order.
    Contexts(Vec<String>),
    /// The static help text.
    Help,
}

/// Everything a frame shows: the client's status, the central content and
/// the typed input.
pub struct Frame {
    pub status: String,
    pub central: CentralContent,
    pub input: String,
}

/// The central content that `view` asks of a client whose answers are
/// `pods` and `contexts`.
pub open spec fn central_matches(central: CentralContent, view: CentralView, pods: Seq<Seq<char>>, contexts: Seq<Seq<char>>) -> bool {
    match view {
        CentralView::Pods => central is Pods && texts(central->Pods_0@) == pods,
        CentralView::Ctxs => central is Contexts && texts(central->Contexts_0@) == contexts,
        CentralView::Help => central is Help,
    }
}

/// Gathers what one frame shows: the status on every frame, the pods only
/// when they are shown, the contexts only when they are shown.
pub fn build_frame<C: ClusterClient>(client: &C, state: &CommandState) -> (r: Frame)
    ensures
        r.status@ == client.status_text(),
        r.input@ == state.input@,
        central_matches(r.central, state.view, client.pod_names(), client.context_names()),
{
    let status = client.status();
    let central = match state.view {
        CentralView::Pods => CentralContent::Pods(client.get_pods()),
        CentralView::Ctxs => CentralContent::Contexts(client.get_contexts()),
        CentralView::Help => CentralContent::Help,
    };
    Frame { status, central, input: state.input.clone() }
}

} // verus!
