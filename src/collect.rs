//! The collector: captured lines into the log, each followed by a repaint
//! request.
use vstd::prelude::*;
use crate::log::LogBuffer;
use crate::normalize::{is_plain, lemma_plain_unchanged, stderr_line, stderr_text, strip_ansi, stripped};
use crate::repaint::ContextSet;

verus! {

/// Appends `line` to the log as it is, then requests a repaint. Returns
/// whether the repaint was forwarded.
pub fn collect_line(log: &mut LogBuffer, bridge: &ContextSet, line: String) -> (forwarded: bool)
    ensures
        final(log)@ == old(log)@.push(line@),
        forwarded == bridge.wired(),
{
    log.append(line);
    bridge.request_repaint()
}

/// Logs a line captured from the process's stdout, cleaned of styling codes.
pub fn collect_stdout(log: &mut LogBuffer, bridge: &ContextSet, raw: &str) -> (forwarded: bool)
    ensures
        final(log)@ == old(log)@.push(stripped(raw@)),
        forwarded == bridge.wired(),
{
    let line = strip_ansi(raw);
    collect_line(log, bridge, line)
}

/// Logs a line captured from the process's stderr, cleaned and marked.
pub fn collect_stderr(log: &mut LogBuffer, bridge: &ContextSet, raw: &str) -> (forwarded: bool)
    ensures
        final(log)@ == old(log)@.push(stderr_text(raw@)),
        forwarded == bridge.wired(),
{
    let line = stderr_line(raw);
    collect_line(log, bridge, line)
}

/// The log after collecting each of `raw` from stdout, in order, onto `start`.
pub open spec fn after_stdout(start: Seq<Seq<char>>, raw: Seq<Seq<char>>) -> Seq<Seq<char>>
    decreases raw.len(),
{
    if raw.len() == 0 {
        start
    } else {
        after_stdout(start, raw.drop_last()).push(stripped(raw.last()))
    }
}

/// A process that prints only plain lines leaves exactly those lines, in
/// the order printed, after what the log already held.
pub proof fn law_plain_output_logged(start: Seq<Seq<char>>, raw: Seq<Seq<char>>)
    requires
        forall|i: int| 0 <= i < raw.len() ==> is_plain(#[trigger] raw[i]),
    ensures
        after_stdout(start, raw) == start + raw,
    decreases raw.len(),
{
    if raw.len() == 0 {
        assert(start + raw =~= start);
    } else {
        let init = raw.drop_last();
        assert forall|i: int| 0 <= i < init.len() implies is_plain(#[trigger] init[i]) by {
            assert(init[i] == raw[i]);
        }
        law_plain_output_logged(start, init);
        assert(is_plain(raw[raw.len() - 1]));
        lemma_plain_unchanged(raw.last());
        assert((start + init).push(raw.last()) =~= start + raw);
    }
}

/// The log text for a plugin that the runtime refused.
pub open spec fn load_failure_text(name: Seq<char>, err: Seq<char>) -> Seq<char> {
    "Failed to load plugin "@ + name + ": "@ + err
}

/// Records how one plugin load ended: a refusal adds exactly one line
/// naming the plugin and the error, a success adds none. A repaint is
/// requested either way; the outcome goes nowhere else.
pub fn record_load_outcome(
    log: &mut LogBuffer,
    bridge: &ContextSet,
    name: &str,
    outcome: Result<(), String>,
) -> (forwarded: bool)
    ensures
        outcome is Ok ==> final(log)@ == old(log)@,
        outcome matches Err(e) ==> final(log)@ == old(log)@.push(load_failure_text(name@, e@)),
        forwarded == bridge.wired(),
{
    if let Err(e) = outcome {
        let line = String::from_str("Failed to load plugin ").concat(name).concat(": ").concat(
            e.as_str(),
        );
        log.append(line);
    }
    bridge.request_repaint()
}

} // verus!
