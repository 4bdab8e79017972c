//! Decisions of the command-line layer that shape what the orchestrator is
//! asked to run: splitting passthrough arguments from the trailing prompt,
//! validating prompts, mapping resume parameters, and clamping the child's
//! exit code.

use crate::runner::ResumeTarget;
use crate::text::{char_is_whitespace, str_eq, unicode_whitespace};
use vstd::prelude::*;
use vstd::string::StrSliceExecFns;
use vstd::string::StringExecFns;

verus! {

/// Why an invocation was rejected before any child was spawned.
#[derive(Debug)]
pub enum CliError {
    /// No arguments at all: there is no prompt to send.
    NoPrompt,
    /// The trailing argument looks like a flag rather than a prompt.
    FlagLikePrompt(String),
    /// The prompt is empty or only whitespace.
    EmptyPrompt,
    /// Resume mode without the most-recent flag needs an explicit session id.
    MissingSessionId,
}

/// Ghost form of a rejection.
pub enum CliErrorModel {
    NoPrompt,
    FlagLikePrompt(Seq<char>),
    EmptyPrompt,
    MissingSessionId,
}

impl View for CliError {
    type V = CliErrorModel;

    open spec fn view(&self) -> CliErrorModel {
        match self {
            CliError::NoPrompt => CliErrorModel::NoPrompt,
            CliError::FlagLikePrompt(p) => CliErrorModel::FlagLikePrompt(p@),
            CliError::EmptyPrompt => CliErrorModel::EmptyPrompt,
            CliError::MissingSessionId => CliErrorModel::MissingSessionId,
        }
    }
}

/// The human-readable description of each rejection.
pub open spec fn cli_error_message(e: CliErrorModel) -> Seq<char> {
    match e {
        CliErrorModel::NoPrompt => "Usage: codex-clean [ARGS...] <prompt>\n\nNo prompt provided. Use '-' to read from stdin."@,
        CliErrorModel::FlagLikePrompt(p) => "The final argument ('"@ + p
            + "') looks like a flag. Provide a prompt or terminate codex args with '--'."@,
        CliErrorModel::EmptyPrompt => "Empty prompt provided"@,
        CliErrorModel::MissingSessionId => "Either --last or SESSION_ID is required"@,
    }
}

impl CliError {
    /// Render the rejection for display.
    pub fn message(&self) -> (r: String)
        ensures
            r@ == cli_error_message(self@),
    {
        match self {
            CliError::NoPrompt => {
                "Usage: codex-clean [ARGS...] <prompt>\n\nNo prompt provided. Use '-' to read from stdin.".to_owned()
            },
            CliError::FlagLikePrompt(p) => {
                let mut s = "The final argument ('".to_owned();
                s.append(p.as_str());
                s.append("') looks like a flag. Provide a prompt or terminate codex args with '--'.");
                s
            },
            CliError::EmptyPrompt => "Empty prompt provided".to_owned(),
            CliError::MissingSessionId => "Either --last or SESSION_ID is required".to_owned(),
        }
    }
}

/// A usable trailing prompt: the stdin marker, or anything that does not
/// start with a hyphen.
pub open spec fn valid_prompt_arg(p: Seq<char>) -> bool {
    p == "-"@ || !(p.len() > 0 && p[0] == '-')
}

/// Reject a trailing argument that looks like a flag (a hyphen start that is
/// not the bare stdin marker).
pub fn ensure_valid_prompt(prompt_arg: &str) -> (r: Result<(), CliError>)
    ensures
        match r {
            Ok(_) => valid_prompt_arg(prompt_arg@),
            Err(e) => !valid_prompt_arg(prompt_arg@) && e@ == CliErrorModel::FlagLikePrompt(
                prompt_arg@,
            ),
        },
{
    if str_eq(prompt_arg, "-") {
        Ok(())
    } else if !prompt_arg.is_empty() && prompt_arg.get_char(0) == '-' {
        Err(CliError::FlagLikePrompt(prompt_arg.to_owned()))
    } else {
        Ok(())
    }
}

/// Split the raw arguments into the passthrough part and the trailing
/// prompt; there must be a trailing argument and it must not look like a
/// flag.
pub fn split_codex_args(args: &Vec<String>) -> (r: Result<(Vec<String>, String), CliError>)
    ensures
        match r {
            Ok(parts) => args.deep_view().len() > 0 && valid_prompt_arg(args.deep_view().last())
                && parts.0.deep_view() == args.deep_view().drop_last() && parts.1@
                == args.deep_view().last(),
            Err(e) => match e@ {
                CliErrorModel::NoPrompt => args.deep_view().len() == 0,
                CliErrorModel::FlagLikePrompt(p) => args.deep_view().len() > 0 && p
                    == args.deep_view().last() && !valid_prompt_arg(p),
                _ => false,
            },
        },
{
    if args.len() == 0 {
        proof {
            assert(args.deep_view().len() == args@.len());
        }
        return Err(CliError::NoPrompt);
    }
    let prompt_arg = &args[args.len() - 1];
    match ensure_valid_prompt(prompt_arg.as_str()) {
        Err(e) => Err(e),
        Ok(_) => {
            let mut rest: Vec<String> = Vec::new();
            let mut i: usize = 0;
            proof {
                assert(rest.deep_view() =~~= args.deep_view().take(0));
            }
            while i < args.len() - 1
                invariant
                    i <= args.len() - 1,
                    args.len() > 0,
                    rest.deep_view() == args.deep_view().take(i as int),
                decreases args.len() - 1 - i,
            {
                let ghost prev = rest.deep_view();
                rest.push(args[i].clone());
                proof {
                    assert(rest.deep_view() =~~= prev.push(args.deep_view()[i as int]));
                    assert(prev.push(args.deep_view()[i as int]) =~~= args.deep_view().take(
                        i as int + 1,
                    ));
                }
                i += 1;
            }
            proof {
                assert(args.deep_view().take(args.len() - 1) =~~= args.deep_view().drop_last());
            }
            Ok((rest, prompt_arg.clone()))
        },
    }
}

/// Whether every character of the prompt is whitespace, so that trimming it
/// would leave nothing.
pub open spec fn blank_prompt(p: Seq<char>) -> bool {
    forall|i: int| 0 <= i < p.len() ==> unicode_whitespace(#[trigger] p[i])
}

/// Reject a prompt that trims to nothing.
pub fn ensure_prompt_not_blank(prompt: &str) -> (r: Result<(), CliError>)
    ensures
        match r {
            Ok(_) => !blank_prompt(prompt@),
            Err(e) => blank_prompt(prompt@) && e@ == CliErrorModel::EmptyPrompt,
        },
{
    let n = prompt.unicode_len();
    let mut i: usize = 0;
    while i < n
        invariant
            n == prompt@.len(),
            i <= n,
            forall|j: int| 0 <= j < i ==> unicode_whitespace(#[trigger] prompt@[j]),
        decreases n - i,
    {
        let c = prompt.get_char(i);
        if !char_is_whitespace(c) {
            return Ok(());
        }
        i += 1;
    }
    Err(CliError::EmptyPrompt)
}

/// Map resume-mode parameters to a resume target and the prompt to deliver.
/// With the most-recent flag the session-id position is in fact the prompt;
/// without it an explicit session id is required.
pub fn plan_resume(last: bool, session_id: Option<String>, prompt: Option<String>) -> (r: Result<
    (ResumeTarget, String),
    CliError,
>)
    ensures
        match r {
            Ok(parts) => if last {
                parts.0@ == crate::runner::ResumeTargetModel::Last && parts.1@ == (match session_id {
                    Some(s) => s@,
                    None => Seq::<char>::empty(),
                })
            } else {
                match session_id {
                    Some(id) => parts.0@ == crate::runner::ResumeTargetModel::SessionId(id@)
                        && parts.1@ == (match prompt {
                        Some(p) => p@,
                        None => Seq::<char>::empty(),
                    }),
                    None => false,
                }
            },
            Err(e) => !last && session_id is None && e@ == CliErrorModel::MissingSessionId,
        },
{
    if last {
        let p = match session_id {
            Some(s) => s,
            None => String::new(),
        };
        Ok((ResumeTarget::Last, p))
    } else {
        match session_id {
            Some(id) => {
                let p = match prompt {
                    Some(s) => s,
                    None => String::new(),
                };
                Ok((ResumeTarget::SessionId(id), p))
            },
            None => Err(CliError::MissingSessionId),
        }
    }
}

/// Clamp the child's raw exit code into a process exit value: anything
/// outside the representable range maps to the generic failure value 1.
pub fn exit_code_from_child(code: i32) -> (r: u8)
    ensures
        0 <= code <= 255 ==> r as int == code as int,
        !(0 <= code <= 255) ==> r == 1u8,
{
    if code < 0 || code > 255 {
        1
    } else {
        code as u8
    }
}

} // verus!
