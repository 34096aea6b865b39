//! The decisions of the polling loop.
//!
//! One iteration: probe, report what the probe saw, and unless the device is
//! confirmed attached, run the attach tool once and report its outcome. A
//! failed probe counts as "not confirmed attached", so the tool is run then too.
//! The program performs each action and hands the outcome back here.

use vstd::prelude::*;
use crate::report::{
    line_views, report_attached, report_lines, report_state, token, transition_lines,
    AttachModel, AttachState,
};
use crate::decimal::{decimal_digits, decimal_text};
use crate::status::ProbeError;

verus! {

/// What happened when the attach tool was looked for and run.
pub enum ToolRun {
    /// The path of the running program could not be found.
    NoProgramPath { reason: String },
    /// The running program's path has no parent directory.
    NoProgramDir,
    /// The tool is not beside the running program; it was not started.
    Missing { location: String },
    /// The tool could not be started.
    SpawnFailed { reason: String },
    /// The tool did not exit within `seconds` and was stopped.
    TimedOut { seconds: u32 },
    /// The tool ran and exited; on failure, what it wrote to its error stream.
    Exited { success: bool, stderr: String },
}

/// The error text of a run of the attach tool that did not succeed.
pub open spec fn failure_text(run: ToolRun) -> Seq<char> {
    match run {
        ToolRun::NoProgramPath { reason } => "Current executable error: "@ + reason@,
        ToolRun::NoProgramDir => "Could not determine executable directory"@,
        ToolRun::Missing { location } => "usbip binary not found at: "@ + location@,
        ToolRun::SpawnFailed { reason } => "Command execution failed: "@ + reason@,
        ToolRun::TimedOut { seconds } => "usbip timed out after "@ + decimal_digits(seconds as nat)
            + " s"@,
        ToolRun::Exited { success, stderr } => stderr@,
    }
}

/// The outcome of one attempt to attach: success exactly when the tool ran
/// and exited with status zero.
pub fn attach_result(run: &ToolRun) -> (r: Result<(), String>)
    ensures
        r is Ok <==> run matches ToolRun::Exited { success: true, .. },
        r matches Err(e) ==> e@ == failure_text(*run),
{
    match run {
        ToolRun::NoProgramPath { reason } => {
            Err(String::from_str("Current executable error: ").concat(reason.as_str()))
        },
        ToolRun::NoProgramDir => Err(String::from_str("Could not determine executable directory")),
        ToolRun::Missing { location } => {
            Err(String::from_str("usbip binary not found at: ").concat(location.as_str()))
        },
        ToolRun::SpawnFailed { reason } => {
            Err(String::from_str("Command execution failed: ").concat(reason.as_str()))
        },
        ToolRun::TimedOut { seconds } => {
            let s = String::from_str("usbip timed out after ").concat(
                decimal_text(*seconds).as_str(),
            );
            Err(s.concat(" s"))
        },
        ToolRun::Exited { success, stderr } => {
            if *success {
                Ok(())
            } else {
                Err(stderr.clone())
            }
        },
    }
}

/// The arguments the attach tool is run with.
pub fn attach_args(host: &str, busid: &str) -> (r: Vec<String>)
    ensures
        line_views(r@) == seq!["attach"@, "--remote"@, host@, "--busid"@, busid@],
{
    let r = vec![
        String::from_str("attach"),
        String::from_str("--remote"),
        String::from_str(host),
        String::from_str("--busid"),
        String::from_str(busid),
    ];
    assert(line_views(r@) =~= seq!["attach"@, "--remote"@, host@, "--busid"@, busid@]);
    r
}

/// After a probe: the new state, the lines to print, and whether to run the
/// attach tool. A failed probe makes its message the current error.
pub open spec fn probe_step(m: AttachModel, probe: Result<bool, ProbeError>) -> (
    AttachModel,
    Seq<Seq<char>>,
    bool,
) {
    match probe {
        Ok(true) => (report_state(m, true), report_lines(m, true), false),
        Ok(false) => (report_state(m, false), report_lines(m, false), true),
        Err(e) => {
            let m1 = AttachModel { error: e.message_view(), ..m };
            (report_state(m1, false), report_lines(m1, false), true)
        },
    }
}

/// After an attach attempt: the new state and the lines to print. Success
/// clears the current error; failure makes its message the current error.
pub open spec fn attach_step(m: AttachModel, outcome: Result<(), String>) -> (
    AttachModel,
    Seq<Seq<char>>,
) {
    match outcome {
        Ok(_) => {
            let m1 = AttachModel { error: Seq::empty(), ..m };
            (report_state(m1, true), report_lines(m1, true))
        },
        Err(e) => {
            let m1 = AttachModel { error: e@, ..m };
            (report_state(m1, false), report_lines(m1, false))
        },
    }
}

/// One whole iteration: the state after it and all the lines it prints,
/// where `attach` is what the attach tool gives if it is run.
pub open spec fn iteration(
    m: AttachModel,
    probe: Result<bool, ProbeError>,
    attach: Result<(), String>,
) -> (AttachModel, Seq<Seq<char>>) {
    let (m1, l1, run) = probe_step(m, probe);
    if run {
        let (m2, l2) = attach_step(m1, attach);
        (m2, l1 + l2)
    } else {
        (m1, l1)
    }
}

/// Handles the outcome of a probe; returns the lines to print and whether to
/// run the attach tool now.
pub fn on_probe(state: &mut AttachState, probe: &Result<bool, ProbeError>) -> (r: (
    Vec<String>,
    bool,
))
    ensures
        (final(state)@, line_views(r.0@), r.1) == probe_step(old(state)@, *probe),
        r.1 == !(*probe matches Ok(true)),
        old(state)@.wf() ==> final(state)@.wf(),
{
    match probe {
        Ok(true) => {
            let lines = report_attached(state, true);
            (lines, false)
        },
        Ok(false) => {
            let lines = report_attached(state, false);
            (lines, true)
        },
        Err(e) => {
            state.last_error = e.message();
            let lines = report_attached(state, false);
            (lines, true)
        },
    }
}

/// Handles the outcome of running the attach tool; returns the lines to print.
pub fn on_attach(state: &mut AttachState, outcome: Result<(), String>) -> (lines: Vec<String>)
    ensures
        (final(state)@, line_views(lines@)) == attach_step(old(state)@, outcome),
        old(state)@.wf() ==> final(state)@.wf(),
{
    match outcome {
        Ok(()) => {
            state.last_error = String::new();
            report_attached(state, true)
        },
        Err(e) => {
            state.last_error = e;
            report_attached(state, false)
        },
    }
}

/// The state after reporting each flag of `obs` in turn, starting from `m`.
pub open spec fn after_reports(m: AttachModel, obs: Seq<bool>) -> AttachModel
    decreases obs.len(),
{
    if obs.len() == 0 {
        m
    } else {
        report_state(after_reports(m, obs.drop_last()), obs.last())
    }
}

/// The flag reported just before `obs[i]`: the starting one for the first.
pub open spec fn flag_before(m: AttachModel, obs: Seq<bool>, i: int) -> bool {
    if i == 0 {
        m.attached
    } else {
        obs[i - 1]
    }
}

/// Over any sequence of observed flags, `Attached` or `Detached` is printed
/// exactly at the observations that differ from the one before, and never
/// for an observation equal to the one before.
pub proof fn lemma_transition_once_per_change(m: AttachModel, obs: Seq<bool>)
    ensures
        forall|i: int|
            0 <= i < obs.len() ==> #[trigger] transition_lines(
                after_reports(m, obs.subrange(0, i)),
                obs[i],
            ) == if obs[i] != flag_before(m, obs, i) {
                seq![token(obs[i])]
            } else {
                Seq::empty()
            },
{
    assert forall|i: int| 0 <= i < obs.len() implies after_reports(
        m,
        obs.subrange(0, i),
    ).attached == flag_before(m, obs, i) by {
        if i > 0 {
            assert(obs.subrange(0, i).drop_last() =~= obs.subrange(0, i - 1));
        }
    }
}

/// While detached, an error is printed at most once: reporting "detached"
/// again with the same error prints nothing; a new error is printed once;
/// after an attachment in between, the same error is printed again.
pub proof fn lemma_error_printed_once(m: AttachModel, e: Seq<char>)
    ensures
        report_lines(report_state(m, false), false) == Seq::<Seq<char>>::empty(),
        e != m.error ==> report_lines(
            AttachModel { error: e, ..report_state(m, false) },
            false,
        ) == seq![e],
        m.error.len() > 0 ==> report_lines(report_state(report_state(m, false), true), false)
            == seq![token(false), m.error],
{
    assert(report_lines(report_state(m, false), false) =~= Seq::<Seq<char>>::empty());
    if e != m.error {
        assert(report_lines(AttachModel { error: e, ..report_state(m, false) }, false) =~= seq![e]);
    }
    if m.error.len() > 0 {
        let m2 = report_state(report_state(m, false), true);
        assert(m2.reported.len() == 0);
        assert(report_lines(m2, false) =~= seq![token(false), m.error]);
    }
}

/// While the probe sees the device detached and the attach tool keeps failing
/// with the same message, iterations after the first print nothing.
pub proof fn lemma_repeated_failure_quiet(m: AttachModel, msg: String)
    ensures
        iteration(
            iteration(m, Ok::<bool, ProbeError>(false), Err::<(), String>(msg)).0,
            Ok::<bool, ProbeError>(false),
            Err::<(), String>(msg),
        ).1 == Seq::<Seq<char>>::empty(),
{
    let m1 = iteration(m, Ok::<bool, ProbeError>(false), Err::<(), String>(msg)).0;
    assert(!m1.attached && m1.reported == m1.error && m1.error == msg@);
    let (m2, l2, run) = probe_step(m1, Ok::<bool, ProbeError>(false));
    assert(l2 =~= Seq::<Seq<char>>::empty());
    let (m3, l3) = attach_step(m2, Err::<(), String>(msg));
    assert(l3 =~= Seq::<Seq<char>>::empty());
    assert(l2 + l3 =~= Seq::<Seq<char>>::empty());
}

/// Once attached, an iteration whose probe again sees the device attached
/// changes nothing, prints nothing and runs nothing.
pub proof fn lemma_attached_quiet(m: AttachModel, attach: Result<(), String>)
    requires
        m.attached,
    ensures
        iteration(m, Ok::<bool, ProbeError>(true), attach) == (m, Seq::<Seq<char>>::empty()),
{
    assert(report_lines(m, true) =~= Seq::<Seq<char>>::empty());
    assert(report_state(m, true) == m);
}

} // verus!
