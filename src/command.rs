//! The command line of the dashboard: an input buffer and the view that the
//! central region shows, switched by typed commands.

use vstd::prelude::*;

verus! {

/// What the central region of the dashboard shows.
#[derive(Debug, Clone, Copy, PartialEq, Eq, Structural)]
pub enum CentralView {
    Ctxs,
    Pods,
    Help,
}

/// Whether the session talks to a simulated or a real cluster.
#[derive(Debug, Clone, Copy, PartialEq, Eq, Structural)]
pub enum ModeState {
    Sim,
    Kube,
}

/// The view that a whole command selects, if it names one.
pub open spec fn command_target(cmd: Seq<char>) -> Option<CentralView> {
    if cmd == ":pods"@ {
        Some(CentralView::Pods)
    } else if cmd == ":ctx"@ {
        Some(CentralView::Ctxs)
    } else if cmd == ":help"@ {
        Some(CentralView::Help)
    } else {
        None
    }
}

/// The view after dispatching `cmd` while `current` is shown: a recognised
/// command selects its view, anything else leaves the view alone.
pub open spec fn next_view(cmd: Seq<char>, current: CentralView) -> CentralView {
    match command_target(cmd) {
        Some(v) => v,
        None => current,
    }
}

/// A command other than `:pods`, `:ctx` and `:help` leaves the view as it is.
pub proof fn lemma_unknown_command_keeps_view(cmd: Seq<char>, view: CentralView)
    requires
        cmd != ":pods"@,
        cmd != ":ctx"@,
        cmd != ":help"@,
    ensures
        next_view(cmd, view) == view,
{
}

/// `:pods`, `:ctx` and `:help` select the pods, the contexts and the help,
/// whatever view was shown before.
pub proof fn lemma_known_commands_select(view: CentralView)
    ensures
        next_view(":pods"@, view) == CentralView::Pods,
        next_view(":ctx"@, view) == CentralView::Ctxs,
        next_view(":help"@, view) == CentralView::Help,
{
    reveal_strlit(":pods");
    reveal_strlit(":ctx");
    reveal_strlit(":help");
    assert(":ctx"@.len() != ":pods"@.len());
    assert(":help"@[1] != ":pods"@[1]);
    assert(":help"@.len() != ":ctx"@.len());
}

/// The text with leading and trailing whitespace removed, as `str::trim` gives it.
pub uninterp spec fn trimmed(s: Seq<char>) -> Seq<char>;

/// Relies on `str::trim`: the text without leading and trailing whitespace.
#[verifier::external_body]
fn trim_text(s: &str) -> (r: String)
    ensures
        r@ == trimmed(s@),
{
    s.trim().to_string()
}

/// The view after the already trimmed command `cmd` is dispatched while
/// `current` is shown.
pub fn view_after(cmd: &str, current: CentralView) -> (r: CentralView)
    ensures
        r == next_view(cmd@, current),
{
    let c = cmd.to_string();
    if c == ":pods".to_string() {
        CentralView::Pods
    } else if c == ":ctx".to_string() {
        CentralView::Ctxs
    } else if c == ":help".to_string() {
        CentralView::Help
    } else {
        current
    }
}

/// Relies on `String::push`: appends the character to the end.
#[verifier::external_body]
fn push_text(s: &mut String, c: char)
    ensures
        final(s)@ == old(s)@.push(c),
{
    s.push(c)
}

/// Relies on `String::pop`: removes and returns the last character, or
/// returns `None` and leaves an empty string as it is.
#[verifier::external_body]
fn pop_text(s: &mut String) -> (r: Option<char>)
    ensures
        old(s)@.len() == 0 ==> r is None && final(s)@ == old(s)@,
        old(s)@.len() > 0 ==> r == Some(old(s)@.last()) && final(s)@ == old(s)@.drop_last(),
{
    s.pop()
}

/// The state of the command line: what has been typed so far, the view shown
/// and the cluster mode.
pub struct CommandState {
    pub input: String,
    pub view: CentralView,
    pub mode: ModeState,
}

impl CommandState {
    /// A fresh command line: nothing typed, pods shown.
    pub fn new() -> (r: Self)
        ensures
            r.input@ == Seq::<char>::empty(),
            r.view == CentralView::Pods,
            r.mode == ModeState::Kube,
    {
        CommandState { input: String::new(), view: CentralView::Pods, mode: ModeState::Kube }
    }

    /// Dispatches the typed command: its trimmed text selects the view (or
    /// nothing, when unrecognised), and the input is consumed whole.
    pub fn handle_command(&mut self)
        ensures
            final(self).view == next_view(trimmed(old(self).input@), old(self).view),
            final(self).input@ == Seq::<char>::empty(),
            final(self).mode == old(self).mode,
    {
        let cmd = trim_text(self.input.as_str());
        self.view = view_after(cmd.as_str(), self.view);
        self.input = String::new();
    }

    /// Appends a typed character to the input.
    pub fn push_char(&mut self, c: char)
        ensures
            final(self).input@ == old(self).input@.push(c),
            final(self).view == old(self).view,
            final(self).mode == old(self).mode,
    {
        push_text(&mut self.input, c);
    }

    /// Removes the last typed character; with nothing typed, does nothing.
    pub fn backspace(&mut self)
        ensures
            final(self).input@ == if old(self).input@.len() == 0 {
                old(self).input@
            } else {
                old(self).input@.drop_last()
            },
            final(self).view == old(self).view,
            final(self).mode == old(self).mode,
    {
        let _ = pop_text(&mut self.input);
    }
}

} // verus!
