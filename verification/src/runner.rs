//! The pure planning logic of the process orchestration: shaping the child's
//! invocation, parsing its output stream into aggregated events, and
//! composing the final report. Spawning, pipes and threads live outside the
//! library and only hand byte and string values in and out.

use crate::events::{extract_event, extract_spec, Event, EventModel};
use crate::output::{empty_model, spec_add_message, spec_add_thread_id, CodexOutput, OutputModel};
use crate::text::{decode_utf8, utf8_decode};
use vstd::prelude::*;

verus! {

/// Default byte ceiling on retained child diagnostics.
pub const STDERR_CAP_BYTES: usize = 10 * 1024 * 1024;

/// Target for the resume mode.
#[derive(Debug)]
pub enum ResumeTarget {
    /// Resume a specific session by id.
    SessionId(String),
    /// Resume the most recent session.
    Last,
}

/// Ghost form of a resume target.
pub enum ResumeTargetModel {
    SessionId(Seq<char>),
    Last,
}

impl View for ResumeTarget {
    type V = ResumeTargetModel;

    open spec fn view(&self) -> ResumeTargetModel {
        match self {
            ResumeTarget::SessionId(id) => ResumeTargetModel::SessionId(id@),
            ResumeTarget::Last => ResumeTargetModel::Last,
        }
    }
}

/// Ghost view of an optional resume target.
pub open spec fn opt_resume_view(r: Option<ResumeTarget>) -> Option<ResumeTargetModel> {
    match r {
        Some(t) => Some(t@),
        None => None,
    }
}

/// How the child is to be invoked: the arguments after the program name, and
/// whether the prompt must be delivered on its standard input.
pub struct Invocation {
    pub argv: Vec<String>,
    pub prompt_via_stdin: bool,
}

/// The fixed leading arguments: the streaming-JSON exec mode, with the
/// repository-context precondition disabled.
pub open spec fn base_argv() -> Seq<Seq<char>> {
    seq!["exec"@, "--experimental-json"@, "--skip-git-repo-check"@]
}

/// The child's full argument list for the requested mode.
pub open spec fn invocation_argv(
    args: Seq<Seq<char>>,
    prompt: Seq<char>,
    resume: Option<ResumeTargetModel>,
) -> Seq<Seq<char>> {
    match resume {
        None => base_argv() + args + seq![prompt],
        Some(ResumeTargetModel::SessionId(id)) => if prompt.len() > 0 {
            base_argv() + seq!["resume"@, id, prompt]
        } else {
            base_argv() + seq!["resume"@, id]
        },
        Some(ResumeTargetModel::Last) => base_argv() + seq!["resume"@, "--last"@],
    }
}

/// Resuming the most recent session takes no positional prompt, so a
/// non-empty prompt must go in on standard input.
pub open spec fn prompt_via_stdin_spec(
    prompt: Seq<char>,
    resume: Option<ResumeTargetModel>,
) -> bool {
    resume == Some(ResumeTargetModel::Last) && prompt.len() > 0
}

/// Shape the child's invocation for the requested mode.
pub fn build_invocation(args: &Vec<String>, prompt: &str, resume: Option<ResumeTarget>) -> (r:
    Invocation)
    ensures
        r.argv.deep_view() == invocation_argv(args.deep_view(), prompt@, opt_resume_view(resume)),
        r.prompt_via_stdin == prompt_via_stdin_spec(prompt@, opt_resume_view(resume)),
{
    let mut argv: Vec<String> = Vec::new();
    argv.push("exec".to_owned());
    argv.push("--experimental-json".to_owned());
    argv.push("--skip-git-repo-check".to_owned());
    proof {
        assert(argv.deep_view() =~= base_argv());
    }
    let mut prompt_via_stdin = false;
    match resume {
        Some(ResumeTarget::SessionId(id)) => {
            argv.push("resume".to_owned());
            argv.push(id);
            if !prompt.is_empty() {
                argv.push(prompt.to_owned());
                proof {
                    assert(argv.deep_view() =~= invocation_argv(
                        args.deep_view(),
                        prompt@,
                        opt_resume_view(resume),
                    ));
                }
            } else {
                proof {
                    assert(argv.deep_view() =~= invocation_argv(
                        args.deep_view(),
                        prompt@,
                        opt_resume_view(resume),
                    ));
                }
            }
        },
        Some(ResumeTarget::Last) => {
            argv.push("resume".to_owned());
            argv.push("--last".to_owned());
            if !prompt.is_empty() {
                prompt_via_stdin = true;
            }
            proof {
                assert(argv.deep_view() =~= invocation_argv(
                    args.deep_view(),
                    prompt@,
                    opt_resume_view(resume),
                ));
            }
        },
        None => {
            let mut i: usize = 0;
            while i < args.len()
                invariant
                    i <= args.len(),
                    argv.deep_view() == base_argv() + args.deep_view().take(i as int),
                decreases args.len() - i,
            {
                let ghost prev = argv.deep_view();
                argv.push(args[i].clone());
                proof {
                    assert(argv.deep_view() =~~= prev.push(args.deep_view()[i as int]));
                    assert(prev.push(args.deep_view()[i as int]) =~~= base_argv()
                        + args.deep_view().take(i as int + 1));
                }
                i += 1;
            }
            argv.push(prompt.to_owned());
            proof {
                assert(args.deep_view().take(args.len() as int) =~= args.deep_view());
                assert(argv.deep_view() =~= invocation_argv(
                    args.deep_view(),
                    prompt@,
                    opt_resume_view(resume),
                ));
            }
        },
    }
    Invocation { argv, prompt_via_stdin }
}

/// A carriage return directly before a line's end is dropped, as reading
/// lines from the stream drops it.
pub open spec fn strip_cr(line: Seq<u8>) -> Seq<u8> {
    if line.len() > 0 && line.last() == 13 {
        line.drop_last()
    } else {
        line
    }
}

/// Splitting a raw byte stream into lines, carrying the current unfinished
/// line: a line ends at each newline byte, and a trailing fragment with no
/// final newline is still a line (kept verbatim, including a final carriage
/// return).
pub open spec fn lines_acc(data: Seq<u8>, cur: Seq<u8>) -> Seq<Seq<u8>>
    decreases data.len(),
{
    if data.len() == 0 {
        if cur.len() == 0 {
            Seq::empty()
        } else {
            seq![cur]
        }
    } else if data[0] == 10 {
        seq![strip_cr(cur)] + lines_acc(data.drop_first(), Seq::empty())
    } else {
        lines_acc(data.drop_first(), cur.push(data[0]))
    }
}

/// The lines of a raw byte stream.
pub open spec fn spec_lines(data: Seq<u8>) -> Seq<Seq<u8>> {
    lines_acc(data, Seq::empty())
}

/// What one recognized event does to the aggregate state.
pub open spec fn apply_event(s: OutputModel, e: Option<EventModel>) -> OutputModel {
    match e {
        Some(EventModel::ThreadStarted { thread_id }) => spec_add_thread_id(s, thread_id),
        Some(EventModel::AgentMessage { text: Some(t) }) => spec_add_message(s, t),
        Some(EventModel::AgentMessage { text: None }) => s,
        None => s,
    }
}

/// Running extraction over the lines of the stream, in order: `None` where
/// some line is not valid UTF-8.
pub open spec fn run_lines(s: OutputModel, lines: Seq<Seq<u8>>) -> Option<OutputModel>
    decreases lines.len(),
{
    if lines.len() == 0 {
        Some(s)
    } else {
        match utf8_decode(lines[0]) {
            Some(chars) => run_lines(apply_event(s, extract_spec(chars)), lines.drop_first()),
            None => None,
        }
    }
}

/// The aggregate that the whole stream yields, or `None` where it cannot be
/// decoded.
pub open spec fn parse_stream_spec(data: Seq<u8>) -> Option<OutputModel> {
    run_lines(empty_model(), spec_lines(data))
}

/// Failure to read the child's output stream, distinct from a child-reported
/// failure.
#[derive(Debug, PartialEq, Eq, Structural)]
pub enum StreamError {
    /// A line of the stream is not valid UTF-8.
    InvalidUtf8,
}

/// Split a raw byte stream into its lines.
fn split_lines(data: &Vec<u8>) -> (r: Vec<Vec<u8>>)
    ensures
        r.deep_view() == spec_lines(data@),
{
    let mut lines: Vec<Vec<u8>> = Vec::new();
    let mut cur: Vec<u8> = Vec::new();
    let mut i: usize = 0;
    proof {
        assert(data@.skip(0) =~= data@);
        assert(lines.deep_view() =~= Seq::<Seq<u8>>::empty());
        assert(cur@ =~= Seq::<u8>::empty());
    }
    while i < data.len()
        invariant
            i <= data.len(),
            spec_lines(data@) == lines.deep_view() + lines_acc(data@.skip(i as int), cur@),
        decreases data.len() - i,
    {
        let ghost prev_lines = lines.deep_view();
        let ghost prev_cur = cur@;
        let b = data[i];
        proof {
            assert(data@.skip(i as int)[0] == data@[i as int]);
            assert(data@.skip(i as int).drop_first() =~= data@.skip(i as int + 1));
        }
        if b == 10 {
            if cur.len() > 0 && cur[cur.len() - 1] == 13 {
                cur.pop();
            }
            proof {
                assert(cur@ =~= strip_cr(prev_cur));
            }
            lines.push(cur);
            cur = Vec::new();
            proof {
                assert(lines.deep_view() =~~= prev_lines.push(strip_cr(prev_cur)));
                assert(cur@ =~= Seq::<u8>::empty());
                assert(prev_lines.push(strip_cr(prev_cur)) + lines_acc(
                    data@.skip(i as int + 1),
                    Seq::empty(),
                ) =~~= prev_lines + (seq![strip_cr(prev_cur)] + lines_acc(
                    data@.skip(i as int + 1),
                    Seq::empty(),
                )));
            }
        } else {
            cur.push(b);
            proof {
                assert(cur@ =~= prev_cur.push(data@[i as int]));
            }
        }
        i += 1;
    }
    proof {
        assert(data@.skip(data@.len() as int) =~= Seq::<u8>::empty());
    }
    if cur.len() > 0 {
        let ghost prev_lines = lines.deep_view();
        let ghost prev_cur = cur@;
        lines.push(cur);
        proof {
            assert(lines.deep_view() =~~= prev_lines.push(prev_cur));
            assert(prev_lines.push(prev_cur) =~~= prev_lines + seq![prev_cur]);
        }
    } else {
        proof {
            assert(lines.deep_view() + Seq::<Seq<u8>>::empty() =~~= lines.deep_view());
        }
    }
    lines
}

/// Decode each line and feed every recognized event to a fresh aggregator.
fn feed_lines(lines: &Vec<Vec<u8>>) -> (r: Result<CodexOutput, StreamError>)
    ensures
        match r {
            Ok(out) => run_lines(empty_model(), lines.deep_view()) == Some(out@),
            Err(e) => run_lines(empty_model(), lines.deep_view()) is None && e
                == StreamError::InvalidUtf8,
        },
{
    let mut output = CodexOutput::new();
    let mut i: usize = 0;
    proof {
        assert(lines.deep_view().skip(0) =~= lines.deep_view());
    }
    while i < lines.len()
        invariant
            i <= lines.len(),
            run_lines(empty_model(), lines.deep_view()) == run_lines(
                output@,
                lines.deep_view().skip(i as int),
            ),
        decreases lines.len() - i,
    {
        proof {
            assert(lines.deep_view().skip(i as int)[0] == lines.deep_view()[i as int]);
            assert(lines.deep_view()[i as int] =~= lines@[i as int]@);
            assert(lines.deep_view().skip(i as int).drop_first() =~~= lines.deep_view().skip(
                i as int + 1,
            ));
        }
        match decode_utf8(&lines[i]) {
            None => {
                return Err(StreamError::InvalidUtf8);
            },
            Some(line) => {
                match extract_event(line.as_str()) {
                    Some(Event::ThreadStarted { thread_id }) => {
                        output.add_thread_id(thread_id);
                    },
                    Some(Event::AgentMessage { text }) => {
                        match text {
                            Some(t) => {
                                output.add_message(t);
                            },
                            None => {},
                        }
                    },
                    None => {},
                }
            },
        }
        i += 1;
    }
    proof {
        assert(lines.deep_view().skip(lines.deep_view().len() as int) =~= Seq::<Seq<u8>>::empty());
    }
    Ok(output)
}

/// Consume the child's entire output stream: split it into lines, extract
/// the recognized events, and aggregate them. A line that is not valid
/// UTF-8 aborts with an error, as reading the stream aborts, and is distinct
/// from a child-reported failure.
pub fn parse_codex_stream(data: &Vec<u8>) -> (r: Result<CodexOutput, StreamError>)
    ensures
        match r {
            Ok(out) => parse_stream_spec(data@) == Some(out@),
            Err(e) => parse_stream_spec(data@) is None && e == StreamError::InvalidUtf8,
        },
{
    let lines = split_lines(data);
    feed_lines(&lines)
}

/// What the orchestrator reports after the child has exited and both
/// streams are fully drained.
#[derive(Debug, PartialEq, Eq, Structural)]
pub struct ReportPlan {
    /// The child's raw exit code; an absent code maps to the generic failure
    /// code 1.
    pub exit_code: i32,
    /// Echo the captured diagnostic bytes, framed by begin/end markers.
    pub echo_stderr: bool,
    /// Note inside the frame that the echoed bytes were cut off at the cap.
    pub note_truncated: bool,
    /// Note inside the frame that capture failed part-way through.
    pub note_capture_error: bool,
    /// Emit a frame reporting only that capture failed, nothing captured.
    pub capture_failure_frame: bool,
    /// Note that the failed child produced no recognized output at all.
    pub note_no_recognized_output: bool,
    /// Non-fatal warning: the child succeeded but capture failed.
    pub warn_capture_failure: bool,
}

/// The report owed for a child outcome: diagnostics are echoed only on
/// failure, a capture failure is never fatal, and a failure with no
/// recognized output is called out.
pub open spec fn report_spec(
    code: Option<i32>,
    stderr_len: nat,
    truncated: bool,
    capture_error: bool,
    agg: OutputModel,
) -> ReportPlan {
    let success = code == Some(0i32);
    ReportPlan {
        exit_code: match code {
            Some(c) => c,
            None => 1,
        },
        echo_stderr: !success && stderr_len > 0,
        note_truncated: !success && stderr_len > 0 && truncated,
        note_capture_error: !success && stderr_len > 0 && capture_error,
        capture_failure_frame: !success && stderr_len == 0 && capture_error,
        note_no_recognized_output: !success && agg.session_id is None && agg.messages.len() == 0,
        warn_capture_failure: success && capture_error,
    }
}

/// Compose the report for the child's outcome: its exit status (`None` for
/// an abnormal termination without a code), how many diagnostic bytes were
/// captured, whether they were truncated, whether capturing itself failed,
/// and the aggregated output.
pub fn compose_report(
    code: Option<i32>,
    stderr_len: usize,
    truncated: bool,
    capture_error: bool,
    output: &CodexOutput,
) -> (r: ReportPlan)
    ensures
        r == report_spec(code, stderr_len as nat, truncated, capture_error, output@),
{
    let success = match code {
        Some(c) => c == 0,
        None => false,
    };
    let exit_code = match code {
        Some(c) => c,
        None => 1,
    };
    ReportPlan {
        exit_code,
        echo_stderr: !success && stderr_len > 0,
        note_truncated: !success && stderr_len > 0 && truncated,
        note_capture_error: !success && stderr_len > 0 && capture_error,
        capture_failure_frame: !success && stderr_len == 0 && capture_error,
        note_no_recognized_output: !success && output.session_id.is_none() && output.messages.len()
            == 0,
        warn_capture_failure: success && capture_error,
    }
}

} // verus!
