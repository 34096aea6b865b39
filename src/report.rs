//! The attachment state and what is reported when it changes.
//!
//! Each report prints `Attached` or `Detached` when the attachment flag
//! changes, and while detached prints the current error once, until it
//! changes or the device goes through an attachment.

use vstd::prelude::*;

verus! {

/// What the polling loop remembers between iterations.
pub struct AttachState {
    /// The last attachment flag reported.
    pub is_attached: bool,
    /// The most recent error; empty when there is none.
    pub last_error: String,
    /// The error text last printed, so that it is not printed twice.
    pub last_reported_error: String,
}

/// The mathematical value of an `AttachState`.
pub struct AttachModel {
    pub attached: bool,
    pub error: Seq<char>,
    pub reported: Seq<char>,
}

impl View for AttachState {
    type V = AttachModel;

    open spec fn view(&self) -> AttachModel {
        AttachModel {
            attached: self.is_attached,
            error: self.last_error@,
            reported: self.last_reported_error@,
        }
    }
}

impl AttachModel {
    /// Between reports: nothing is remembered as printed while attached, and
    /// while detached the current error has been printed.
    pub open spec fn wf(self) -> bool {
        &&& self.attached ==> self.reported.len() == 0
        &&& !self.attached ==> self.reported == self.error
    }
}

/// The line that announces the flag `attached`.
pub open spec fn token(attached: bool) -> Seq<char> {
    if attached {
        "Attached"@
    } else {
        "Detached"@
    }
}

/// The transition line that a report of `attached` prints from `m`, if any.
pub open spec fn transition_lines(m: AttachModel, attached: bool) -> Seq<Seq<char>> {
    if attached != m.attached {
        seq![token(attached)]
    } else {
        Seq::empty()
    }
}

/// The error text remembered as printed once the transition is handled.
pub open spec fn reported_after_transition(m: AttachModel, attached: bool) -> Seq<char> {
    if attached != m.attached {
        Seq::empty()
    } else {
        m.reported
    }
}

/// Whether a report of `attached` from `m` prints the current error.
pub open spec fn prints_error(m: AttachModel, attached: bool) -> bool {
    !attached && m.error != reported_after_transition(m, attached)
}

/// The state after reporting `attached` from `m`.
pub open spec fn report_state(m: AttachModel, attached: bool) -> AttachModel {
    AttachModel {
        attached,
        error: m.error,
        reported: if prints_error(m, attached) {
            m.error
        } else {
            reported_after_transition(m, attached)
        },
    }
}

/// The lines printed when reporting `attached` from `m`: the transition line,
/// then the error line.
pub open spec fn report_lines(m: AttachModel, attached: bool) -> Seq<Seq<char>> {
    if prints_error(m, attached) {
        transition_lines(m, attached).push(m.error)
    } else {
        transition_lines(m, attached)
    }
}

/// The views of a list of lines.
pub open spec fn line_views(lines: Seq<String>) -> Seq<Seq<char>> {
    lines.map_values(|l: String| l@)
}

impl AttachState {
    /// Not attached, no error: the state at start.
    pub fn new() -> (r: AttachState)
        ensures
            r@ == (AttachModel { attached: false, error: Seq::empty(), reported: Seq::empty() }),
            r@.wf(),
    {
        AttachState {
            is_attached: false,
            last_error: String::new(),
            last_reported_error: String::new(),
        }
    }
}

/// Records the observed attachment flag and returns the lines to print.
pub fn report_attached(state: &mut AttachState, attached: bool) -> (lines: Vec<String>)
    ensures
        final(state)@ == report_state(old(state)@, attached),
        line_views(lines@) == report_lines(old(state)@, attached),
        old(state)@.wf() ==> final(state)@.wf(),
{
    let mut lines: Vec<String> = Vec::new();
    let was_attached = state.is_attached;
    state.is_attached = attached;
    if attached != was_attached {
        if attached {
            lines.push(String::from_str("Attached"));
        } else {
            lines.push(String::from_str("Detached"));
        }
        state.last_reported_error = String::new();
    }
    assert(line_views(lines@) =~= transition_lines(old(state)@, attached));
    if !state.is_attached && !(state.last_reported_error == state.last_error) {
        let ghost before = lines@;
        lines.push(state.last_error.clone());
        state.last_reported_error = state.last_error.clone();
        assert(line_views(lines@) =~= line_views(before).push(state.last_error@));
    }
    lines
}

} // verus!
