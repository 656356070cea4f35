use vstd::prelude::*;
use crate::args::{string_arg, string_arg_of, arg_error_text};
use crate::defs::{Content, Data, FunctionCall, FunctionResponse, Part, Role, Struct};
use crate::read::{handle_read_fs, read_answer, is_single};
use crate::search::{handle_search_fs, is_search_reply, search_answer, GlobScan};
use crate::text::{decimal, int_text, join};

verus! {

/// Completion status of a candidate that stopped normally.
pub const FINISH_STOP: i32 = 1;
/// Completion status of a candidate still in progress, or left unspecified.
pub const FINISH_UNSPECIFIED: i32 = 0;

/// The built-in tools.
#[derive(Clone, Copy, Debug, PartialEq, Eq, Structural)]
pub enum Tool {
    SearchFs,
    ReadFs,
    Unknown,
}

/// The tool that a call names: an exact, case-sensitive match.
pub open spec fn tool_of(name: Seq<char>) -> Tool {
    if name == "search_fs"@ {
        Tool::SearchFs
    } else if name == "read_fs"@ {
        Tool::ReadFs
    } else {
        Tool::Unknown
    }
}

/// The filesystem work that a call needs before it can be answered.
#[derive(Debug)]
pub enum ToolJob {
    /// Expand this glob pattern.
    Search(String),
    /// Read this file as text.
    Read(String),
    /// Nothing: the call is answered from its arguments alone.
    Nothing,
}

/// The outcome of a [`ToolJob`].
#[derive(Debug)]
pub enum JobOutput {
    Scan(GlobScan),
    /// The file's whole text, or why it could not be read.
    Read(Result<String, String>),
    Nothing,
}

/// `job` is the work that `call` needs.
pub open spec fn job_of(call: FunctionCall, job: ToolJob) -> bool {
    match tool_of(call.name@) {
        Tool::SearchFs => match string_arg_of(call.args, "pattern"@) {
            Ok(p) => job matches ToolJob::Search(q) && q@ == p,
            Err(_) => job is Nothing,
        },
        Tool::ReadFs => match string_arg_of(call.args, "path"@) {
            Ok(p) => job matches ToolJob::Read(q) && q@ == p,
            Err(_) => job is Nothing,
        },
        Tool::Unknown => job is Nothing,
    }
}

/// `out` is an outcome of the work that `call` needs.
pub open spec fn fits(call: FunctionCall, out: JobOutput) -> bool {
    match tool_of(call.name@) {
        Tool::SearchFs => if string_arg_of(call.args, "pattern"@) is Ok {
            out is Scan
        } else {
            out is Nothing
        },
        Tool::ReadFs => if string_arg_of(call.args, "path"@) is Ok {
            out is Read
        } else {
            out is Nothing
        },
        Tool::Unknown => out is Nothing,
    }
}

/// The message for a call to a tool that does not exist.
pub open spec fn unknown_text(name: Seq<char>) -> Seq<char> {
    "Unknown function '"@ + name + "'"@
}

/// `st` answers a call with arguments `args` that could not be read.
pub open spec fn arg_failure_answer(st: Struct, tool: Tool, args: Option<Struct>) -> bool {
    match tool {
        Tool::SearchFs => match string_arg_of(args, "pattern"@) {
            Err(e) => is_search_reply(st, Seq::empty(), seq![arg_error_text(e, "pattern"@)]),
            Ok(_) => false,
        },
        Tool::ReadFs => match string_arg_of(args, "path"@) {
            Err(e) => is_single(st, "error"@, arg_error_text(e, "path"@)),
            Ok(_) => false,
        },
        Tool::Unknown => false,
    }
}

/// `r` is the outcome of dispatching `call`, whose work gave `out`.
pub open spec fn dispatched(r: Result<FunctionResponse, String>, call: FunctionCall, out: JobOutput) -> bool {
    match tool_of(call.name@) {
        Tool::Unknown => match r {
            Err(m) => m@ == unknown_text(call.name@),
            Ok(_) => false,
        },
        t => match r {
            Ok(resp) => {
                &&& resp.id == call.id
                &&& resp.name == call.name
                &&& match resp.response {
                    Some(st) => match out {
                        JobOutput::Scan(s) => search_answer(st, call.args, s),
                        JobOutput::Read(rd) => read_answer(st, call.args, rd),
                        JobOutput::Nothing => arg_failure_answer(st, t, call.args),
                    },
                    None => false,
                }
            },
            Err(_) => false,
        },
    }
}

fn tool_named(name: &String) -> (r: Tool)
    ensures
        r == tool_of(name@),
{
    if *name == String::from_str("search_fs") {
        Tool::SearchFs
    } else if *name == String::from_str("read_fs") {
        Tool::ReadFs
    } else {
        Tool::Unknown
    }
}

/// The filesystem work that `call` needs.
pub fn tool_job(call: &FunctionCall) -> (r: ToolJob)
    ensures
        job_of(*call, r),
{
    match tool_named(&call.name) {
        Tool::SearchFs => match string_arg(call, "pattern") {
            Ok(p) => ToolJob::Search(p),
            Err(_) => ToolJob::Nothing,
        },
        Tool::ReadFs => match string_arg(call, "path") {
            Ok(p) => ToolJob::Read(p),
            Err(_) => ToolJob::Nothing,
        },
        Tool::Unknown => ToolJob::Nothing,
    }
}

/// Dispatches `call` to the tool it names, given the outcome `out` of the
/// work it needs. A call to an unknown tool fails with a message.
pub fn handle_function_call(call: &FunctionCall, out: &JobOutput) -> (r: Result<FunctionResponse, String>)
    requires
        fits(*call, *out),
    ensures
        dispatched(r, *call, *out),
{
    match tool_named(&call.name) {
        Tool::SearchFs => match out {
            JobOutput::Scan(s) => Ok(handle_search_fs(call, s)),
            _ => Ok(handle_search_fs(call, &GlobScan::Paths(Vec::new()))),
        },
        Tool::ReadFs => match out {
            JobOutput::Read(rd) => Ok(handle_read_fs(call, rd)),
            _ => Ok(handle_read_fs(call, &Ok(String::new()))),
        },
        Tool::Unknown => {
            let a = join("Unknown function '", call.name.as_str());
            Err(join(a.as_str(), "'"))
        },
    }
}


/// The function calls among `parts`, in order.
pub open spec fn calls_of(parts: Seq<Part>) -> Seq<FunctionCall>
    decreases parts.len(),
{
    if parts.len() == 0 {
        Seq::empty()
    } else {
        let r = calls_of(parts.drop_last());
        match parts.last().data {
            Some(Data::FunctionCall(c)) => r.push(c),
            _ => r,
        }
    }
}

/// `p` is no function response, or one whose id is that of one of `calls`.
pub open spec fn answers_one_of(p: Part, calls: Seq<FunctionCall>) -> bool {
    match p.data {
        Some(Data::FunctionResponse(r)) => exists|k: int| 0 <= k < calls.len() && (#[trigger] calls[k]).id@ == r.id@,
        _ => true,
    }
}

/// Every tool turn of `turns` comes right after a model turn that holds at
/// least one function call, and each function response in it carries the id
/// of one of those calls.
pub open spec fn tool_turns_answered(turns: Seq<Content>) -> bool {
    forall|i: int|
        0 <= i < turns.len() && (#[trigger] turns[i]).role == Role::Tool ==> {
            &&& i > 0
            &&& turns[i - 1].role == Role::Model
            &&& calls_of(turns[i - 1].parts@).len() > 0
            &&& forall|j: int|
                0 <= j < turns[i].parts@.len() ==> answers_one_of(
                    #[trigger] turns[i].parts@[j],
                    calls_of(turns[i - 1].parts@),
                )
        }
}

/// An empty history, the state a conversation starts in, holds no
/// unanswered tool turn.
pub proof fn lemma_empty_history_answered()
    ensures
        tool_turns_answered(Seq::<Content>::empty()),
{
}

/// `p` is a text part holding `text`.
pub open spec fn is_text_part(p: Part, text: Seq<char>) -> bool {
    match p.data {
        Some(Data::Text { text: t }) => t@ == text,
        _ => false,
    }
}

/// `t` is a system turn of one text part holding `text`.
pub open spec fn is_system_notice(t: Content, text: Seq<char>) -> bool {
    &&& t.role == Role::System
    &&& t.parts@.len() == 1
    &&& is_text_part(t.parts@[0], text)
}

/// The history as it stands, for a reader that must not change it.
pub fn get_chat(history: &Vec<Content>) -> (r: &Vec<Content>)
    ensures
        r@ == history@,
{
    history
}

/// Appends a turn that a client sent. A client cannot send a tool turn: tool
/// turns only ever answer the model's calls.
pub fn add_chat(history: &mut Vec<Content>, chat: Content)
    requires
        chat.role != Role::Tool,
    ensures
        final(history)@ == old(history)@.push(chat),
        tool_turns_answered(old(history)@) ==> tool_turns_answered(final(history)@),
{
    history.push(chat);
    proof {
        lemma_push_non_tool(old(history)@, chat);
    }
}

/// Appending a turn that is not a tool turn keeps every tool turn answered.
pub proof fn lemma_push_non_tool(turns: Seq<Content>, t: Content)
    requires
        t.role != Role::Tool,
    ensures
        tool_turns_answered(turns) ==> tool_turns_answered(turns.push(t)),
{
    if tool_turns_answered(turns) {
        let n = turns.push(t);
        assert forall|i: int| 0 <= i < n.len() && (#[trigger] n[i]).role == Role::Tool implies {
            &&& i > 0
            &&& n[i - 1].role == Role::Model
            &&& calls_of(n[i - 1].parts@).len() > 0
            &&& forall|j: int|
                0 <= j < n[i].parts@.len() ==> answers_one_of(
                    #[trigger] n[i].parts@[j],
                    calls_of(n[i - 1].parts@),
                )
        } by {
            assert(i < turns.len());
            assert(n[i] == turns[i]);
            assert(n[i - 1] == turns[i - 1]);
        }
    }
}

/// One server-sent event carrying the serialised turn `json`.
pub fn frame_from_json(json: &str) -> (r: String)
    ensures
        r@ == "data: "@ + json@ + "\n\n"@,
{
    let a = join("data: ", json);
    join(a.as_str(), "\n\n")
}

/// The system turn shown when the generation request itself failed, with the
/// failure's description.
pub fn request_failed(description: &str) -> (r: Content)
    ensures
        is_system_notice(r, "Error while generating stream content: "@ + description@),
{
    notice("Error while generating stream content: ", description)
}

/// A candidate of one partial response of the generation service.
#[derive(Debug)]
pub struct Candidate {
    pub finish_reason: i32,
    pub content: Option<Content>,
}

/// One item read from the response stream.
#[derive(Debug)]
pub enum StreamItem {
    /// The generation request itself failed; the description says how.
    RequestFailed(String),
    /// Reading the stream failed; the description says how.
    Failed(String),
    /// The stream is over.
    End,
    /// A partial response, with its first candidate if it has one.
    Response(Option<Candidate>),
}

/// What the driver does after an item.
#[derive(Debug)]
pub enum Step {
    /// Nothing; read the next item.
    Skip,
    /// A model turn was added to the round's pending turns: emit it, run
    /// the work its calls need, and hand the outcomes to `answer_calls`.
    Appended,
    /// Emit this system turn, which is not kept, and stop the conversation.
    /// The round's pending turns are dropped.
    Abort(Content),
    /// The round is over and its turns are in the history; another round
    /// follows when this is `true`.
    Finished(bool),
}

/// The state of one round: the history as it stood when the round began,
/// the turns the round has produced so far, which reach the history only
/// when the round ends normally, and whether any function call has come.
pub struct Round {
    pub function_called: bool,
    pub pending: Vec<Content>,
    pub start: Ghost<Seq<Content>>,
}

/// The status of `c` lets the round go on.
pub open spec fn status_ok(c: Candidate) -> bool {
    c.finish_reason == FINISH_STOP || c.finish_reason == FINISH_UNSPECIFIED
}

proof fn lemma_calls_of_take(parts: Seq<Part>, i: int)
    requires
        0 <= i < parts.len(),
    ensures
        calls_of(parts.take(i + 1)) == match parts[i].data {
            Some(Data::FunctionCall(c)) => calls_of(parts.take(i)).push(c),
            _ => calls_of(parts.take(i)),
        },
{
    assert(parts.take(i + 1).drop_last() =~= parts.take(i));
}

fn count_calls(parts: &Vec<Part>) -> (r: usize)
    ensures
        r == calls_of(parts@).len(),
{
    let mut n: usize = 0;
    let mut i: usize = 0;
    while i < parts.len()
        invariant
            0 <= i <= parts.len(),
            n == calls_of(parts@.take(i as int)).len(),
            n <= i,
        decreases parts.len() - i,
    {
        proof {
            lemma_calls_of_take(parts@, i as int);
        }
        if let Some(Data::FunctionCall(_)) = &parts[i].data {
            n = n + 1;
        }
        i = i + 1;
    }
    assert(parts@.take(parts@.len() as int) =~= parts@);
    n
}

fn notice(prefix: &str, description: &str) -> (r: Content)
    ensures
        is_system_notice(r, prefix@ + description@),
{
    let text = join(prefix, description);
    let mut parts: Vec<Part> = Vec::new();
    parts.push(Part::new(Data::Text { text }));
    Content::system(parts)
}

impl Round {
    /// The round's pending turns, appended to its starting history, keep
    /// every tool turn answered where the starting history did.
    pub open spec fn inv(&self) -> bool {
        tool_turns_answered(self.start@) ==> tool_turns_answered(self.start@ + self.pending@)
    }

    /// A round that starts from `history`.
    pub fn new(history: &Vec<Content>) -> (r: Round)
        ensures
            !r.function_called,
            r.pending@.len() == 0,
            r.start@ == history@,
            r.inv(),
    {
        let r = Round { function_called: false, pending: Vec::new(), start: Ghost(history@) };
        assert(r.start@ + r.pending@ =~= r.start@);
        r
    }

    /// Takes one event of the round. A model turn is kept among the
    /// pending turns and handed out at once; only the end of the stream
    /// commits the pending turns to the history. A failed request, a failed
    /// stream or a status other than stop or unspecified ends the
    /// conversation with a notice and leaves the history as it was when the
    /// round began.
    pub fn on_item(&mut self, history: &mut Vec<Content>, item: StreamItem) -> (r: Step)
        requires
            old(history)@ == old(self).start@,
            old(self).inv(),
        ensures
            final(self).start == old(self).start,
            final(self).inv(),
            !(r is Finished) ==> final(history)@ == old(self).start@,
            r is Abort ==> final(history)@ == old(self).start@,
            match item {
                StreamItem::RequestFailed(d) => r matches Step::Abort(t) && is_system_notice(
                    t,
                    "Error while generating stream content: "@ + d@,
                ),
                StreamItem::Failed(d) => r matches Step::Abort(t) && is_system_notice(
                    t,
                    "Error while iterating stream: "@ + d@,
                ),
                StreamItem::End => {
                    &&& r == Step::Finished(old(self).function_called)
                    &&& final(history)@ == old(self).start@ + old(self).pending@
                },
                StreamItem::Response(None) => {
                    &&& r is Skip
                    &&& final(self).pending@ == old(self).pending@
                    &&& final(self).function_called == old(self).function_called
                },
                StreamItem::Response(Some(c)) => if !status_ok(c) {
                    r matches Step::Abort(t) && is_system_notice(
                        t,
                        "Generation failed with code: "@ + int_text(c.finish_reason as int),
                    )
                } else {
                    match c.content {
                        None => {
                            &&& r is Skip
                            &&& final(self).pending@ == old(self).pending@
                            &&& final(self).function_called == old(self).function_called
                        },
                        Some(t) => {
                            &&& r is Appended
                            &&& final(self).pending@ == old(self).pending@.push(
                                (Content { parts: t.parts, role: Role::Model }),
                            )
                            &&& final(self).function_called == (old(self).function_called
                                || calls_of(t.parts@).len() > 0)
                        },
                    }
                },
            },
            tool_turns_answered(old(history)@) ==> tool_turns_answered(final(history)@),
    {
        match item {
            StreamItem::RequestFailed(d) => Step::Abort(request_failed(d.as_str())),
            StreamItem::Failed(d) => Step::Abort(notice("Error while iterating stream: ", d.as_str())),
            StreamItem::End => {
                history.append(&mut self.pending);
                proof {
                    assert(self.start@ + self.pending@ =~= self.start@);
                }
                Step::Finished(self.function_called)
            },
            StreamItem::Response(None) => Step::Skip,
            StreamItem::Response(Some(c)) => {
                if c.finish_reason != FINISH_STOP && c.finish_reason != FINISH_UNSPECIFIED {
                    let code = decimal(c.finish_reason);
                    return Step::Abort(notice("Generation failed with code: ", code.as_str()));
                }
                match c.content {
                    None => Step::Skip,
                    Some(t) => {
                        let turn = Content { parts: t.parts, role: Role::Model };
                        if count_calls(&turn.parts) > 0 {
                            self.function_called = true;
                        }
                        let ghost before = self.start@ + self.pending@;
                        self.pending.push(turn);
                        proof {
                            assert(self.start@ + self.pending@ =~= before.push(turn));
                            lemma_push_non_tool(before, turn);
                        }
                        Step::Appended
                    },
                }
            },
        }
    }
}

/// `p` is the part that answers `call`, whose work gave `out`: a function
/// response, or a text part with the dispatch failure.
pub open spec fn part_answers(p: Part, call: FunctionCall, out: JobOutput) -> bool {
    match p.data {
        Some(Data::FunctionResponse(resp)) => dispatched(Ok(resp), call, out),
        Some(Data::Text { text }) => dispatched(Err(text), call, out),
        _ => false,
    }
}

proof fn lemma_calls_monotone(s: Seq<Part>, i: int, m: int)
    requires
        0 <= i <= m <= s.len(),
    ensures
        calls_of(s.take(i)).len() <= calls_of(s.take(m)).len(),
        forall|j: int|
            0 <= j < calls_of(s.take(i)).len() ==> #[trigger] calls_of(s.take(i))[j] == calls_of(
                s.take(m),
            )[j],
    decreases m - i,
{
    if i < m {
        lemma_calls_monotone(s, i, m - 1);
        lemma_calls_of_take(s, m - 1);
    }
}

impl Round {
    /// The work that the calls of the last pending turn need, in call order.
    pub fn pending_jobs(&self) -> (r: Vec<ToolJob>)
        requires
            self.pending@.len() > 0,
        ensures
            r@.len() == calls_of(self.pending@.last().parts@).len(),
            forall|k: int|
                0 <= k < r@.len() ==> job_of(calls_of(self.pending@.last().parts@)[k], #[trigger] r@[k]),
    {
        let parts = &self.pending[self.pending.len() - 1].parts;
        let mut jobs: Vec<ToolJob> = Vec::new();
        let mut i: usize = 0;
        while i < parts.len()
            invariant
                0 <= i <= parts.len(),
                *parts == self.pending@.last().parts,
                jobs@.len() == calls_of(parts@.take(i as int)).len(),
                forall|k: int|
                    0 <= k < jobs@.len() ==> job_of(calls_of(parts@.take(i as int))[k], #[trigger] jobs@[k]),
            decreases parts.len() - i,
        {
            proof {
                lemma_calls_of_take(parts@, i as int);
            }
            if let Some(Data::FunctionCall(call)) = &parts[i].data {
                jobs.push(tool_job(call));
            }
            i = i + 1;
        }
        assert(parts@.take(parts@.len() as int) =~= parts@);
        jobs
    }
}

proof fn lemma_answer_id(p: Part, call: FunctionCall, out: JobOutput)
    requires
        part_answers(p, call, out),
    ensures
        p.data matches Some(Data::FunctionResponse(resp)) ==> resp.id@ == call.id@,
{
}

/// Appending, right after a model turn, a tool turn whose parts answer that
/// turn's calls one for one keeps every tool turn answered.
pub proof fn lemma_push_tool_turn(before: Seq<Content>, t: Content, outputs: Seq<JobOutput>)
    requires
        before.len() > 0,
        before.last().role == Role::Model,
        t.role == Role::Tool,
        t.parts@.len() == outputs.len(),
        outputs.len() > 0,
        outputs.len() == calls_of(before.last().parts@).len(),
        forall|k: int|
            0 <= k < outputs.len() ==> part_answers(
                #[trigger] t.parts@[k],
                calls_of(before.last().parts@)[k],
                outputs[k],
            ),
        tool_turns_answered(before),
    ensures
        tool_turns_answered(before.push(t)),
{
    let n = before.push(t);
    let calls = calls_of(before.last().parts@);
    assert forall|i: int| 0 <= i < n.len() && (#[trigger] n[i]).role == Role::Tool implies {
        &&& i > 0
        &&& n[i - 1].role == Role::Model
        &&& calls_of(n[i - 1].parts@).len() > 0
        &&& forall|j: int|
            0 <= j < n[i].parts@.len() ==> answers_one_of(
                #[trigger] n[i].parts@[j],
                calls_of(n[i - 1].parts@),
            )
    } by {
        if i < before.len() {
            assert(n[i] == before[i]);
            assert(n[i - 1] == before[i - 1]);
        } else {
            assert(n[i - 1] == before.last());
            assert forall|j: int| 0 <= j < n[i].parts@.len() implies answers_one_of(
                #[trigger] n[i].parts@[j],
                calls_of(n[i - 1].parts@),
            ) by {
                lemma_answer_id(t.parts@[j], calls[j], outputs[j]);
            }
        }
    }
}

fn answer_parts(parts: &Vec<Part>, outputs: &Vec<JobOutput>) -> (r: Vec<Part>)
    requires
        outputs@.len() == calls_of(parts@).len(),
        forall|k: int| 0 <= k < outputs@.len() ==> fits(calls_of(parts@)[k], #[trigger] outputs@[k]),
    ensures
        r@.len() == outputs@.len(),
        forall|k: int|
            0 <= k < r@.len() ==> part_answers(#[trigger] r@[k], calls_of(parts@)[k], outputs@[k]),
{
    let ghost calls = calls_of(parts@);
    let mut answers: Vec<Part> = Vec::new();
    let mut i: usize = 0;
    while i < parts.len()
        invariant
            0 <= i <= parts.len(),
            calls == calls_of(parts@),
            outputs@.len() == calls.len(),
            forall|k: int| 0 <= k < outputs@.len() ==> fits(calls[k], #[trigger] outputs@[k]),
            answers@.len() == calls_of(parts@.take(i as int)).len(),
            forall|k: int|
                0 <= k < answers@.len() ==> part_answers(#[trigger] answers@[k], calls[k], outputs@[k]),
        decreases parts.len() - i,
    {
        proof {
            lemma_calls_of_take(parts@, i as int);
            lemma_calls_monotone(parts@, i + 1, parts@.len() as int);
            assert(parts@.take(parts@.len() as int) =~= parts@);
        }
        if let Some(Data::FunctionCall(call)) = &parts[i].data {
            let k = answers.len();
            assert(calls_of(parts@.take(i + 1))[k as int] == *call);
            let part = match handle_function_call(call, &outputs[k]) {
                Ok(resp) => Part::new(Data::FunctionResponse(resp)),
                Err(e) => Part::new(Data::Text { text: e }),
            };
            answers.push(part);
        }
        i = i + 1;
    }
    assert(parts@.take(parts@.len() as int) =~= parts@);
    answers
}

proof fn lemma_pending_tool_turn(start: Seq<Content>, pending: Seq<Content>, t: Content, outputs: Seq<JobOutput>)
    requires
        pending.len() > 0,
        pending.last().role == Role::Model,
        t.role == Role::Tool,
        t.parts@.len() == outputs.len(),
        outputs.len() > 0,
        outputs.len() == calls_of(pending.last().parts@).len(),
        forall|k: int|
            0 <= k < outputs.len() ==> part_answers(
                #[trigger] t.parts@[k],
                calls_of(pending.last().parts@)[k],
                outputs[k],
            ),
        tool_turns_answered(start) ==> tool_turns_answered(start + pending),
    ensures
        tool_turns_answered(start) ==> tool_turns_answered(start + pending.push(t)),
{
    let before = start + pending;
    assert(start + pending.push(t) =~= before.push(t));
    assert(before.last() == pending.last());
    if tool_turns_answered(start) {
        lemma_push_tool_turn(before, t, outputs);
    }
}

impl Round {
    /// Answers the calls of the last pending turn, a model turn, given the
    /// outcomes `outputs` of their work in call order. Where there was at
    /// least one call, a pending tool turn with one part per call, in call
    /// order, is added and `true` returned; otherwise nothing changes.
    pub fn answer_calls(&mut self, outputs: &Vec<JobOutput>) -> (r: bool)
        requires
            old(self).pending@.len() > 0,
            old(self).pending@.last().role == Role::Model,
            outputs@.len() == calls_of(old(self).pending@.last().parts@).len(),
            forall|k: int|
                0 <= k < outputs@.len() ==> fits(
                    calls_of(old(self).pending@.last().parts@)[k],
                    #[trigger] outputs@[k],
                ),
            old(self).inv(),
        ensures
            final(self).start == old(self).start,
            final(self).function_called == old(self).function_called,
            final(self).inv(),
            r == (outputs@.len() > 0),
            !r ==> final(self).pending@ == old(self).pending@,
            r ==> final(self).pending@.len() == old(self).pending@.len() + 1,
            r ==> final(self).pending@.drop_last() == old(self).pending@,
            r ==> final(self).pending@.last().role == Role::Tool,
            r ==> final(self).pending@.last().parts@.len() == outputs@.len(),
            r ==> forall|k: int|
                0 <= k < outputs@.len() ==> part_answers(
                    #[trigger] final(self).pending@.last().parts@[k],
                    calls_of(old(self).pending@.last().parts@)[k],
                    outputs@[k],
                ),
    {
        let answers = answer_parts(&self.pending[self.pending.len() - 1].parts, outputs);
        if answers.len() == 0 {
            return false;
        }
        let ghost old_pending = self.pending@;
        let turn = Content::tool(answers);
        proof {
            lemma_pending_tool_turn(self.start@, old_pending, turn, outputs@);
        }
        self.pending.push(turn);
        proof {
            assert(self.pending@.drop_last() =~= old_pending);
        }
        true
    }
}

} // verus!
