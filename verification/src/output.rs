//! Aggregation of recognized events and rendering of the report text.

use vstd::prelude::*;
use vstd::string::StringExecFns;

verus! {

/// Mathematical state of the aggregator: the session id, the retained
/// messages, and whether a second, different thread id was ever seen.
pub struct OutputModel {
    pub session_id: Option<Seq<char>>,
    pub messages: Seq<Seq<char>>,
    pub multiple_threads_seen: bool,
}

/// Collected results from parsing the child's event stream.
#[derive(Debug)]
pub struct CodexOutput {
    pub session_id: Option<String>,
    pub messages: Vec<String>,
    pub multiple_threads_seen: bool,
}

impl View for CodexOutput {
    type V = OutputModel;

    open spec fn view(&self) -> OutputModel {
        OutputModel {
            session_id: self.session_id.deep_view(),
            messages: self.messages.deep_view(),
            multiple_threads_seen: self.multiple_threads_seen,
        }
    }
}

/// The state of a fresh aggregator.
pub open spec fn empty_model() -> OutputModel {
    OutputModel { session_id: None, messages: Seq::empty(), multiple_threads_seen: false }
}

/// What one `add_thread_id` call does to the state.
pub open spec fn spec_add_thread_id(s: OutputModel, id: Seq<char>) -> OutputModel {
    if s.session_id is None {
        OutputModel { session_id: Some(id), ..s }
    } else if s.session_id != Some(id) {
        OutputModel { multiple_threads_seen: true, ..s }
    } else {
        s
    }
}

/// What one `add_message` call does to the state.
pub open spec fn spec_add_message(s: OutputModel, text: Seq<char>) -> OutputModel {
    if text.len() == 0 {
        s
    } else {
        OutputModel { messages: s.messages.push(text), ..s }
    }
}

/// The message texts joined with a newline between consecutive entries.
pub open spec fn join_lines(msgs: Seq<Seq<char>>) -> Seq<char>
    decreases msgs.len(),
{
    if msgs.len() == 0 {
        Seq::empty()
    } else if msgs.len() == 1 {
        msgs[0]
    } else {
        join_lines(msgs.drop_last()) + "\n"@ + msgs.last()
    }
}

/// The stdout text that `render` produces for a given aggregate state.
pub open spec fn render_stdout_spec(s: OutputModel) -> Seq<char> {
    let session_part = match s.session_id {
        Some(id) => "Session: "@ + id + "\n"@,
        None => Seq::<char>::empty(),
    };
    let msg = join_lines(s.messages);
    let msg_part = if msg.len() == 0 {
        Seq::<char>::empty()
    } else {
        "\n"@ + msg + "\n"@
    };
    session_part + msg_part
}

/// The stderr text that `render` produces for a given aggregate state.
pub open spec fn render_stderr_spec(s: OutputModel) -> Seq<char> {
    let multi = if s.multiple_threads_seen {
        "Warning: Multiple thread IDs seen, using first\n"@
    } else {
        Seq::<char>::empty()
    };
    let nosess = if s.session_id is None {
        "Warning: No session ID received\n"@
    } else {
        Seq::<char>::empty()
    };
    let noresp = if s.session_id is Some && join_lines(s.messages).len() == 0 {
        "Note: No response received\n"@
    } else {
        Seq::<char>::empty()
    };
    multi + nosess + noresp
}

/// Rendered stdout/stderr strings.
#[derive(Debug, Default, PartialEq, Eq)]
pub struct RenderedOutput {
    pub stdout: String,
    pub stderr: String,
}

impl Default for CodexOutput {
    fn default() -> (r: Self)
        ensures
            r@ == empty_model(),
    {
        CodexOutput::new()
    }
}

impl CodexOutput {
    pub fn new() -> (r: Self)
        ensures
            r@ == empty_model(),
    {
        let r = CodexOutput { session_id: None, messages: Vec::new(), multiple_threads_seen: false };
        proof {
            assert(r@.messages =~= empty_model().messages);
        }
        r
    }

    /// Record a thread id: the first one wins; a different later one only
    /// raises the diagnostic flag and is otherwise discarded.
    pub fn add_thread_id(&mut self, thread_id: String)
        ensures
            final(self)@ == spec_add_thread_id(old(self)@, thread_id@),
    {
        match &self.session_id {
            None => {
                self.session_id = Some(thread_id);
            },
            Some(existing) => {
                if !(*existing == thread_id) {
                    self.multiple_threads_seen = true;
                }
            },
        }
    }

    /// Record an agent message: the empty string is discarded, anything else
    /// is appended in call order.
    pub fn add_message(&mut self, text: String)
        ensures
            final(self)@ == spec_add_message(old(self)@, text@),
    {
        if !text.as_str().is_empty() {
            let ghost prev = self.messages.deep_view();
            let ghost t = text@;
            self.messages.push(text);
            proof {
                assert(self.messages.deep_view() =~= prev.push(t));
            }
        }
    }

    /// The aggregated message content: every retained message, joined with
    /// newlines.
    pub fn aggregated_message(&self) -> (r: String)
        ensures
            r@ == join_lines(self@.messages),
    {
        let ghost msgs = self.messages.deep_view();
        let mut out = String::new();
        let mut i: usize = 0;
        while i < self.messages.len()
            invariant
                i <= self.messages.len(),
                msgs == self.messages.deep_view(),
                out@ == join_lines(msgs.take(i as int)),
            decreases self.messages.len() - i,
        {
            if i > 0 {
                out.append("\n");
            }
            out.append(self.messages[i].as_str());
            proof {
                let part = msgs.take(i as int + 1);
                assert(part.drop_last() =~= msgs.take(i as int));
                assert(part.last() == msgs[i as int]);
            }
            i += 1;
        }
        proof {
            assert(msgs.take(self.messages.len() as int) =~= self@.messages);
        }
        out
    }

    /// Compose the stdout/stderr strings for printing. The result is a pure
    /// function of the aggregate state, so repeated calls without mutation in
    /// between return identical text.
    pub fn render(&self) -> (r: RenderedOutput)
        ensures
            r.stdout@ == render_stdout_spec(self@),
            r.stderr@ == render_stderr_spec(self@),
    {
        let mut stdout = String::new();
        let mut stderr = String::new();

        if self.multiple_threads_seen {
            stderr.append("Warning: Multiple thread IDs seen, using first\n");
        }

        match &self.session_id {
            Some(id) => {
                stdout.append("Session: ");
                stdout.append(id.as_str());
                stdout.append("\n");
            },
            None => {
                stderr.append("Warning: No session ID received\n");
            },
        }

        let message = self.aggregated_message();
        if message.as_str().is_empty() {
            if self.session_id.is_some() {
                stderr.append("Note: No response received\n");
            }
        } else {
            stdout.append("\n");
            stdout.append(message.as_str());
            stdout.append("\n");
        }

        proof {
            assert(stdout@ =~= render_stdout_spec(self@));
            assert(stderr@ =~= render_stderr_spec(self@));
        }
        RenderedOutput { stdout, stderr }
    }
}

/// Applying a sequence of `add_thread_id` calls, in order, starting from `s`.
pub open spec fn fold_thread_ids(s: OutputModel, ids: Seq<Seq<char>>) -> OutputModel
    decreases ids.len(),
{
    if ids.len() == 0 {
        s
    } else {
        spec_add_thread_id(fold_thread_ids(s, ids.drop_last()), ids.last())
    }
}

/// Applying a sequence of `add_message` calls, in order, starting from `s`.
pub open spec fn fold_messages(s: OutputModel, texts: Seq<Seq<char>>) -> OutputModel
    decreases texts.len(),
{
    if texts.len() == 0 {
        s
    } else {
        spec_add_message(fold_messages(s, texts.drop_last()), texts.last())
    }
}

/// The subsequence of non-empty texts, in their original order.
pub open spec fn non_empty_of(texts: Seq<Seq<char>>) -> Seq<Seq<char>>
    decreases texts.len(),
{
    if texts.len() == 0 {
        Seq::empty()
    } else if texts.last().len() > 0 {
        non_empty_of(texts.drop_last()).push(texts.last())
    } else {
        non_empty_of(texts.drop_last())
    }
}

/// For any sequence of `add_thread_id` calls on a fresh aggregator, the final
/// session id is the id of the first call, and the multiple-threads flag is
/// set iff some later call supplied a different id than the first.
pub proof fn lemma_first_thread_id_wins(ids: Seq<Seq<char>>)
    requires
        ids.len() > 0,
    ensures
        fold_thread_ids(empty_model(), ids).session_id == Some(ids[0]),
        fold_thread_ids(empty_model(), ids).multiple_threads_seen == (exists|i: int|
            1 <= i < ids.len() && #[trigger] ids[i] != ids[0]),
    decreases ids.len(),
{
    if ids.len() == 1 {
        assert(!(exists|i: int| 1 <= i < ids.len() && #[trigger] ids[i] != ids[0])) by {
            assert(ids.len() == 1);
        }
    } else {
        lemma_first_thread_id_wins(ids.drop_last());
        let prev = fold_thread_ids(empty_model(), ids.drop_last());
        assert(ids.drop_last()[0] == ids[0]);
        let n = ids.len() - 1;
        if fold_thread_ids(empty_model(), ids).multiple_threads_seen {
            if prev.multiple_threads_seen {
                let i = choose|i: int|
                    1 <= i < ids.drop_last().len() && #[trigger] ids.drop_last()[i]
                        != ids.drop_last()[0];
                assert(ids[i] == ids.drop_last()[i]);
                assert(1 <= i < ids.len() && ids[i] != ids[0]);
            } else {
                assert(ids[n] != ids[0]);
                assert(1 <= n < ids.len() && ids[n] != ids[0]);
            }
        }
        if exists|i: int| 1 <= i < ids.len() && #[trigger] ids[i] != ids[0] {
            let i = choose|i: int| 1 <= i < ids.len() && #[trigger] ids[i] != ids[0];
            if i < n {
                assert(ids.drop_last()[i] != ids.drop_last()[0]);
                assert(prev.multiple_threads_seen);
            } else {
                assert(ids.last() != ids[0]);
            }
            assert(fold_thread_ids(empty_model(), ids).multiple_threads_seen);
        }
    }
}

/// For any sequence of `add_message` calls, the aggregated message sequence
/// gains exactly the non-empty arguments, in call order; the rest of the
/// state is untouched.
pub proof fn lemma_messages_keep_non_empty(s: OutputModel, texts: Seq<Seq<char>>)
    ensures
        fold_messages(s, texts).messages == s.messages + non_empty_of(texts),
        fold_messages(s, texts).session_id == s.session_id,
        fold_messages(s, texts).multiple_threads_seen == s.multiple_threads_seen,
    decreases texts.len(),
{
    if texts.len() == 0 {
        assert(s.messages + non_empty_of(texts) =~= s.messages);
    } else {
        lemma_messages_keep_non_empty(s, texts.drop_last());
        if texts.last().len() > 0 {
            assert(s.messages + non_empty_of(texts) =~= (s.messages + non_empty_of(
                texts.drop_last(),
            )).push(texts.last()));
        }
    }
}

/// Every retained message is non-empty.
pub open spec fn messages_non_empty(s: OutputModel) -> bool {
    forall|i: int| 0 <= i < s.messages.len() ==> #[trigger] s.messages[i].len() > 0
}

/// The aggregate invariant: a fresh aggregator retains no message, and both
/// mutating operations preserve that every retained message is non-empty.
pub proof fn lemma_operations_keep_messages_non_empty(
    s: OutputModel,
    id: Seq<char>,
    text: Seq<char>,
)
    requires
        messages_non_empty(s),
    ensures
        messages_non_empty(empty_model()),
        messages_non_empty(spec_add_thread_id(s, id)),
        messages_non_empty(spec_add_message(s, text)),
{
}

/// Rendering is a pure function of the aggregate state: equal states render
/// byte-identical stdout and stderr text, so `render` is idempotent and
/// deterministic.
pub proof fn lemma_render_deterministic(a: OutputModel, b: OutputModel)
    requires
        a == b,
    ensures
        render_stdout_spec(a) == render_stdout_spec(b),
        render_stderr_spec(a) == render_stderr_spec(b),
{
}

} // verus!
