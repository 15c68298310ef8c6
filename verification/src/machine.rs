//! The decisions of a run, as a machine that is fed what comes back from
//! outside.
//!
//! A run asks the backend for a completion, runs the tools that the
//! completion requests, and asks again, until the backend answers with text
//! alone or the bound on the number of steps is reached. The machine
//! decides; it neither talks to the backend nor runs a tool. Whoever drives
//! it looks at its [`Phase`], does what the phase asks for, and hands the
//! result in as an [`Event`].

use crate::error::{AgentError, Failure};
use crate::json::{Json, JsonValue};
use crate::message::{
    calls_view, messages_view, Completion, CompletionView, Message, MessageView, Role, ToolCall,
    ToolCallView,
};
use crate::providers::completion_view;
use crate::seq_lemmas::{lemma_map_push, lemma_map_step};
use crate::text::{decimal, format_u64, joined, same_text};
use crate::tool::outcome_view;
use vstd::prelude::*;
use vstd::string::StringExecFns;

verus! {

/// What came back from outside.
pub ghost enum EventView {
    /// The backend's answer to a request for a completion.
    Reply(Result<CompletionView, Failure>),
    /// What running a tool gave.
    Outcome(Result<Seq<char>, Failure>),
}

/// Where a run stands.
pub ghost enum PhaseView {
    /// A completion is to be requested.
    Awaiting,
    /// The call at `next` of `calls` is to be run, with the tool at `tool`.
    /// `fresh` says whether a call of this step has been run already, and
    /// `content` is the text that came with the calls.
    Executing { calls: Seq<ToolCallView>, next: int, tool: int, fresh: bool, content: Seq<char> },
    /// The run ended with this answer.
    Finished(Seq<char>),
    /// The run ended with this failure.
    Failed(Failure),
}

/// The state of a run.
pub ghost struct RunView {
    /// The conversation so far.
    pub history: Seq<MessageView>,
    /// The ids of the calls that this run has executed.
    pub executed: Set<Seq<char>>,
    /// How many requests for a completion the backend has answered.
    pub steps: nat,
    /// The bound on `steps`.
    pub max_steps: nat,
    /// The names of the registered tools, in the order of registration.
    pub tool_names: Seq<Seq<char>>,
    /// The name under which the backend's failures are reported.
    pub provider_name: Seq<char>,
    /// The instruction that goes before the conversation in each request.
    pub system_prompt: Seq<char>,
    pub phase: PhaseView,
}

/// The position of the first of `names` that is `name`.
pub open spec fn position(names: Seq<Seq<char>>, name: Seq<char>) -> Option<int>
    decreases names.len(),
{
    if names.len() == 0 {
        None
    } else if names.first() == name {
        Some(0)
    } else {
        match position(names.drop_first(), name) {
            Some(k) => Some(k + 1),
            None => None,
        }
    }
}

/// The failure of a backend that answers with neither text nor calls.
pub open spec fn empty_response() -> Failure {
    Failure::ProviderError("empty response"@)
}

/// What goes before the message of a backend's failure: the backend's name
/// and the number of the step, counted from zero.
pub open spec fn context(provider_name: Seq<char>, step: nat) -> Seq<char> {
    provider_name + " (step "@ + decimal(step) + "): "@
}

/// The conversation as it is sent: the instruction, as a user turn, and
/// then the history.
pub open spec fn transmitted(system_prompt: Seq<char>, history: Seq<MessageView>) -> Seq<
    MessageView,
> {
    seq![MessageView::user(system_prompt)] + history
}

/// The turn that records a completion: its text, empty where it has none,
/// and its calls as the backend encoded them, `null` where it has none.
pub open spec fn assistant_turn(completion: CompletionView) -> MessageView {
    MessageView::assistant_with_tools(
        completion.text(),
        match completion.raw_tool_calls {
            Some(raw) => raw,
            None => JsonValue::Null,
        },
    )
}

/// A step that ran no call ends the run: with the text, where there is
/// some, and else in failure.
pub open spec fn settled(content: Seq<char>) -> PhaseView {
    if content.len() > 0 {
        PhaseView::Finished(content)
    } else {
        PhaseView::Failed(empty_response())
    }
}

/// A step that ran a call is followed by another, unless the bound is
/// reached.
pub open spec fn proceeded(steps: nat, max_steps: nat) -> PhaseView {
    if steps < max_steps {
        PhaseView::Awaiting
    } else {
        PhaseView::Failed(Failure::MaxIterations)
    }
}

/// Looks through `calls` from `from` on for the next one to run. A call
/// whose id has been executed is passed over. A call to a tool that is not
/// registered fails the run. Where no call is left, the step is over.
pub open spec fn scanned(
    executed: Set<Seq<char>>,
    tool_names: Seq<Seq<char>>,
    steps: nat,
    max_steps: nat,
    calls: Seq<ToolCallView>,
    from: int,
    fresh: bool,
    content: Seq<char>,
) -> PhaseView
    decreases calls.len() - from,
{
    if from < 0 || from >= calls.len() {
        if fresh {
            proceeded(steps, max_steps)
        } else {
            settled(content)
        }
    } else if executed.contains(calls[from].id) {
        scanned(executed, tool_names, steps, max_steps, calls, from + 1, fresh, content)
    } else {
        match position(tool_names, calls[from].name) {
            None => PhaseView::Failed(Failure::ToolNotFound(calls[from].name)),
            Some(tool) => PhaseView::Executing { calls, next: from, tool, fresh, content },
        }
    }
}

/// Whether a run with these ids executed, these tools and this many steps
/// can be in `phase`: another completion is requested only below the
/// bound, a call that is to be run is one of the completion's, has not
/// been executed, and names the tool at `tool`, and an answer is not
/// empty.
pub open spec fn phase_fits(
    phase: PhaseView,
    executed: Set<Seq<char>>,
    tool_names: Seq<Seq<char>>,
    steps: nat,
    max_steps: nat,
) -> bool {
    match phase {
        PhaseView::Awaiting => steps < max_steps,
        PhaseView::Executing { calls, next, tool, fresh, content } => {
            &&& 0 <= next < calls.len()
            &&& !executed.contains(calls[next].id)
            &&& position(tool_names, calls[next].name) == Some(tool)
            &&& 0 <= tool < tool_names.len()
        },
        PhaseView::Finished(text) => text.len() > 0,
        PhaseView::Failed(_) => true,
    }
}

impl RunView {
    /// The state in which a run begins: the input is the last turn of the
    /// history, nothing has been executed or requested. With a bound of
    /// zero the run has failed before it began.
    pub open spec fn start(
        history: Seq<MessageView>,
        input: Seq<char>,
        tool_names: Seq<Seq<char>>,
        provider_name: Seq<char>,
        system_prompt: Seq<char>,
        max_steps: nat,
    ) -> RunView {
        RunView {
            history: history.push(MessageView::user(input)),
            executed: Set::empty(),
            steps: 0,
            max_steps,
            tool_names,
            provider_name,
            system_prompt,
            phase: proceeded(0, max_steps),
        }
    }

    /// What the backend's answer does to a run that awaits it. A failure
    /// ends the run, reported with the backend's name and the step. A
    /// completion is recorded as an assistant turn, whatever it holds, and
    /// its calls are looked through.
    pub open spec fn on_reply(self, reply: Result<CompletionView, Failure>) -> RunView {
        if self.phase is Awaiting {
            match reply {
                Err(failure) => RunView {
                    steps: self.steps + 1,
                    phase: PhaseView::Failed(
                        failure.prefixed(context(self.provider_name, self.steps)),
                    ),
                    ..self
                },
                Ok(completion) => RunView {
                    history: self.history.push(assistant_turn(completion)),
                    steps: self.steps + 1,
                    phase: scanned(
                        self.executed,
                        self.tool_names,
                        self.steps + 1,
                        self.max_steps,
                        completion.tool_calls,
                        0,
                        false,
                        completion.text(),
                    ),
                    ..self
                },
            }
        } else {
            self
        }
    }

    /// What the result of a tool does to a run that awaits it. A failure
    /// ends the run and leaves no turn. A result is recorded as a tool
    /// turn, the id of the call counts as executed, and the rest of the
    /// calls are looked through.
    pub open spec fn on_outcome(self, outcome: Result<Seq<char>, Failure>) -> RunView {
        match self.phase {
            PhaseView::Executing { calls, next, tool, fresh, content } => match outcome {
                Err(failure) => RunView { phase: PhaseView::Failed(failure), ..self },
                Ok(text) => RunView {
                    history: self.history.push(MessageView::tool_result(text, calls[next].id)),
                    executed: self.executed.insert(calls[next].id),
                    phase: scanned(
                        self.executed.insert(calls[next].id),
                        self.tool_names,
                        self.steps,
                        self.max_steps,
                        calls,
                        next + 1,
                        true,
                        content,
                    ),
                    ..self
                },
            },
            _ => self,
        }
    }

    /// The state after `event`. An event that the phase does not wait for
    /// changes nothing.
    pub open spec fn apply(self, event: EventView) -> RunView {
        match event {
            EventView::Reply(reply) => self.on_reply(reply),
            EventView::Outcome(outcome) => self.on_outcome(outcome),
        }
    }

    /// How the run ended, where it has.
    pub open spec fn result(self) -> Option<Result<Seq<char>, Failure>> {
        match self.phase {
            PhaseView::Finished(text) => Some(Ok(text)),
            PhaseView::Failed(failure) => Some(Err(failure)),
            _ => None,
        }
    }

    /// How far the step at hand is from its end: nothing is left of it once
    /// the run has ended, a request where one is to be made, and else the
    /// calls that are still to be looked at.
    pub open spec fn remaining(self) -> nat {
        match self.phase {
            PhaseView::Executing { calls, next, .. } => (2 + calls.len() - next) as nat,
            PhaseView::Awaiting => 1,
            _ => 0,
        }
    }

    /// Whether the phase waits for `event`.
    pub open spec fn awaits(self, event: EventView) -> bool {
        match event {
            EventView::Reply(_) => self.phase is Awaiting,
            EventView::Outcome(_) => self.phase is Executing,
        }
    }

    /// What holds of every state that a run reaches: no more completions
    /// have been requested than the bound allows, the phase fits the rest
    /// of the state, and an answer is the text of the last turn, which is
    /// the assistant's.
    pub open spec fn well_formed(self) -> bool {
        &&& self.steps <= self.max_steps
        &&& phase_fits(self.phase, self.executed, self.tool_names, self.steps, self.max_steps)
        &&& self.phase matches PhaseView::Finished(text) ==> {
            &&& self.history.len() > 0
            &&& self.history.last().role == Role::Assistant
            &&& self.history.last().content == text
        }
    }
}

/// Whether each of `events` came when the run waited for it.
pub open spec fn orderly(start: RunView, events: Seq<EventView>) -> bool {
    forall|k: int|
        0 <= k < events.len() ==> (#[trigger] replay(start, events.take(k))).awaits(events[k])
}

/// The state after the events `events`, in order.
pub open spec fn replay(start: RunView, events: Seq<EventView>) -> RunView
    decreases events.len(),
{
    if events.len() == 0 {
        start
    } else {
        replay(start, events.drop_last()).apply(events.last())
    }
}

/// Where `position` finds a name, it is at the first place that holds it;
/// where it finds none, no place holds it.
pub proof fn lemma_position(names: Seq<Seq<char>>, name: Seq<char>)
    ensures
        position(names, name) matches Some(k) ==> {
            &&& 0 <= k < names.len()
            &&& names[k] == name
            &&& forall|j: int| 0 <= j < k ==> names[j] != name
        },
        position(names, name) is None ==> forall|j: int| 0 <= j < names.len() ==> names[j] != name,
    decreases names.len(),
{
    if names.len() > 0 && names.first() != name {
        let rest = names.drop_first();
        lemma_position(rest, name);
        assert(forall|j: int| 0 <= j < rest.len() ==> rest[j] == names[j + 1]);
        match position(rest, name) {
            Some(k) => {
                assert forall|j: int| 0 <= j < k + 1 implies names[j] != name by {
                    if j > 0 {
                        assert(rest[j - 1] == names[j]);
                    }
                }
            },
            None => {
                assert forall|j: int| 0 <= j < names.len() implies names[j] != name by {
                    if j > 0 {
                        assert(rest[j - 1] == names[j]);
                    }
                }
            },
        }
    }
}

/// The phase that looking through calls arrives at fits the state.
pub proof fn lemma_scanned_fits(
    executed: Set<Seq<char>>,
    tool_names: Seq<Seq<char>>,
    steps: nat,
    max_steps: nat,
    calls: Seq<ToolCallView>,
    from: int,
    fresh: bool,
    content: Seq<char>,
)
    requires
        0 <= from,
    ensures
        phase_fits(
            scanned(executed, tool_names, steps, max_steps, calls, from, fresh, content),
            executed,
            tool_names,
            steps,
            max_steps,
        ),
        scanned(
            executed,
            tool_names,
            steps,
            max_steps,
            calls,
            from,
            fresh,
            content,
        ) matches PhaseView::Executing { calls: pending, next, .. } ==> pending == calls && from
            <= next,
        scanned(
            executed,
            tool_names,
            steps,
            max_steps,
            calls,
            from,
            fresh,
            content,
        ) matches PhaseView::Finished(text) ==> text == content && !fresh,
    decreases calls.len() - from,
{
    if from < calls.len() {
        if executed.contains(calls[from].id) {
            lemma_scanned_fits(
                executed,
                tool_names,
                steps,
                max_steps,
                calls,
                from + 1,
                fresh,
                content,
            );
        } else {
            lemma_position(tool_names, calls[from].name);
        }
    }
}

/// Every event keeps a run well-formed.
pub proof fn lemma_apply_well_formed(run: RunView, event: EventView)
    requires
        run.well_formed(),
    ensures
        run.apply(event).well_formed(),
{
    match event {
        EventView::Reply(reply) => {
            if run.phase is Awaiting {
                match reply {
                    Ok(completion) => {
                        lemma_scanned_fits(
                            run.executed,
                            run.tool_names,
                            run.steps + 1,
                            run.max_steps,
                            completion.tool_calls,
                            0,
                            false,
                            completion.text(),
                        );
                    },
                    Err(_) => {},
                }
            }
        },
        EventView::Outcome(outcome) => {
            match run.phase {
                PhaseView::Executing { calls, next, tool, fresh, content } => {
                    match outcome {
                        Ok(text) => {
                            lemma_scanned_fits(
                                run.executed.insert(calls[next].id),
                                run.tool_names,
                                run.steps,
                                run.max_steps,
                                calls,
                                next + 1,
                                true,
                                content,
                            );
                        },
                        Err(_) => {},
                    }
                },
                _ => {},
            }
        },
    }
}

/// An event adds at most one turn to the conversation, and takes none
/// away.
pub proof fn lemma_apply_extends(run: RunView, event: EventView)
    ensures
        run.history.is_prefix_of(run.apply(event).history),
        run.apply(event).history.len() <= run.history.len() + 1,
{
    let after = run.apply(event).history;
    if after != run.history {
        assert(after.len() == run.history.len() + 1);
        assert(run.history =~= after.subrange(0, run.history.len() as int));
    } else {
        assert(run.history =~= after.subrange(0, run.history.len() as int));
    }
}

/// An event that the phase waits for brings the run nearer to its end:
/// either a step is used up, or a call of the completion at hand.
pub proof fn lemma_apply_progress(run: RunView, event: EventView)
    requires
        run.well_formed(),
        run.awaits(event),
    ensures
        run.apply(event).max_steps == run.max_steps,
        run.apply(event).steps > run.steps || (run.apply(event).steps == run.steps
            && run.apply(event).remaining() < run.remaining()),
{
    match event {
        EventView::Reply(_) => {},
        EventView::Outcome(outcome) => {
            match run.phase {
                PhaseView::Executing { calls, next, tool, fresh, content } => {
                    match outcome {
                        Ok(text) => {
                            lemma_scanned_fits(
                                run.executed.insert(calls[next].id),
                                run.tool_names,
                                run.steps,
                                run.max_steps,
                                calls,
                                next + 1,
                                true,
                                content,
                            );
                        },
                        Err(_) => {},
                    }
                },
                _ => {},
            }
        },
    }
}

/// What came back from outside.
#[derive(Debug)]
pub enum Event {
    /// The backend's answer to a request for a completion.
    Reply(Result<Completion, AgentError>),
    /// What running a tool gave.
    Outcome(Result<String, AgentError>),
}

impl View for Event {
    type V = EventView;

    open spec fn view(&self) -> EventView {
        match self {
            Event::Reply(reply) => EventView::Reply(completion_view(*reply)),
            Event::Outcome(outcome) => EventView::Outcome(outcome_view(*outcome)),
        }
    }
}

/// Where a run stands.
#[derive(Debug)]
pub enum Phase {
    /// A completion is to be requested.
    Awaiting,
    /// The call at `next` of `calls` is to be run, with the tool at `tool`.
    Executing { calls: Vec<ToolCall>, next: usize, tool: usize, fresh: bool, content: String },
    /// The run ended with this answer.
    Finished(String),
    /// The run ended with this failure.
    Failed(AgentError),
}

impl View for Phase {
    type V = PhaseView;

    open spec fn view(&self) -> PhaseView {
        match self {
            Phase::Awaiting => PhaseView::Awaiting,
            Phase::Executing { calls, next, tool, fresh, content } => PhaseView::Executing {
                calls: calls_view(calls@),
                next: *next as int,
                tool: *tool as int,
                fresh: *fresh,
                content: content@,
            },
            Phase::Finished(text) => PhaseView::Finished(text@),
            Phase::Failed(error) => PhaseView::Failed(error@),
        }
    }
}

/// The texts of a list of strings.
pub open spec fn names_view(names: Seq<String>) -> Seq<Seq<char>> {
    names.map_values(|n: String| n@)
}

/// The texts that a list of strings holds, as a set.
pub open spec fn ids_view(ids: Seq<String>) -> Set<Seq<char>> {
    Set::new(|id: Seq<char>| exists|i: int| 0 <= i < ids.len() && #[trigger] ids[i]@ == id)
}

/// One more string adds its text to the set.
pub proof fn lemma_ids_push(ids: Seq<String>, id: String)
    ensures
        ids_view(ids.push(id)) == ids_view(ids).insert(id@),
{
    let more = ids.push(id);
    assert forall|text: Seq<char>| ids_view(more).contains(text) <==> ids_view(ids).insert(
        id@,
    ).contains(text) by {
        if ids_view(more).contains(text) {
            let i = choose|i: int| 0 <= i < more.len() && #[trigger] more[i]@ == text;
            if i < ids.len() {
                assert(ids[i]@ == text);
            }
        }
        if ids_view(ids).contains(text) {
            let i = choose|i: int| 0 <= i < ids.len() && #[trigger] ids[i]@ == text;
            assert(more[i]@ == text);
        }
        if text == id@ {
            assert(more[ids.len() as int]@ == text);
        }
    }
    assert(ids_view(more) =~= ids_view(ids).insert(id@));
}

/// Whether `ids` holds `id`.
pub fn holds(ids: &Vec<String>, id: &str) -> (out: bool)
    ensures
        out == ids_view(ids@).contains(id@),
{
    let mut i: usize = 0;
    while i < ids.len()
        invariant
            i <= ids.len(),
            forall|j: int| 0 <= j < i ==> ids@[j]@ != id@,
        decreases ids.len() - i,
    {
        if same_text(ids[i].as_str(), id) {
            return true;
        }
        i += 1;
    }
    false
}

/// The position of the first of `names` that is `name`.
pub fn find_position(names: &Vec<String>, name: &str) -> (out: Option<usize>)
    ensures
        out matches Some(k) ==> position(names_view(names@), name@) == Some(k as int),
        out is None ==> position(names_view(names@), name@) is None,
{
    let mut i: usize = 0;
    while i < names.len()
        invariant
            i <= names.len(),
            forall|j: int| 0 <= j < i ==> names_view(names@)[j] != name@,
        decreases names.len() - i,
    {
        if same_text(names[i].as_str(), name) {
            proof {
                lemma_position(names_view(names@), name@);
                assert(names_view(names@)[i as int] == name@);
            }
            return Some(i);
        }
        i += 1;
    }
    proof {
        lemma_position(names_view(names@), name@);
    }
    None
}

/// Looks through `calls` from `from` on for the next one to run.
fn scan(
    executed: &Vec<String>,
    tool_names: &Vec<String>,
    steps: usize,
    max_steps: usize,
    calls: Vec<ToolCall>,
    from: usize,
    fresh: bool,
    content: String,
) -> (out: Phase)
    ensures
        out@ == scanned(
            ids_view(executed@),
            names_view(tool_names@),
            steps as nat,
            max_steps as nat,
            calls_view(calls@),
            from as int,
            fresh,
            content@,
        ),
{
    let mut at: usize = from;
    while at < calls.len()
        invariant
            scanned(
                ids_view(executed@),
                names_view(tool_names@),
                steps as nat,
                max_steps as nat,
                calls_view(calls@),
                from as int,
                fresh,
                content@,
            ) == scanned(
                ids_view(executed@),
                names_view(tool_names@),
                steps as nat,
                max_steps as nat,
                calls_view(calls@),
                at as int,
                fresh,
                content@,
            ),
        decreases calls.len() - at,
    {
        if !holds(executed, calls[at].id.as_str()) {
            return match find_position(tool_names, calls[at].name.as_str()) {
                None => Phase::Failed(AgentError::ToolNotFound(calls[at].name.clone())),
                Some(tool) => Phase::Executing { calls, next: at, tool, fresh, content },
            };
        }
        at += 1;
    }
    if fresh {
        if steps < max_steps {
            Phase::Awaiting
        } else {
            Phase::Failed(AgentError::MaxIterations)
        }
    } else if content.as_str().is_empty() {
        Phase::Failed(AgentError::ProviderError(String::from_str("empty response")))
    } else {
        Phase::Finished(content)
    }
}

/// The state of a run. It is made by [`Run::start`] and changed by
/// [`Run::advance`] alone, so that it is always one that a run can reach.
#[derive(Debug)]
pub struct Run {
    history: Vec<Message>,
    executed: Vec<String>,
    steps: usize,
    max_steps: usize,
    tool_names: Vec<String>,
    provider_name: String,
    system_prompt: String,
    phase: Phase,
}

impl View for Run {
    type V = RunView;

    closed spec fn view(&self) -> RunView {
        RunView {
            history: messages_view(self.history@),
            executed: ids_view(self.executed@),
            steps: self.steps as nat,
            max_steps: self.max_steps as nat,
            tool_names: names_view(self.tool_names@),
            provider_name: self.provider_name@,
            system_prompt: self.system_prompt@,
            phase: self.phase@,
        }
    }
}

/// The outcome of a run, by its view.
pub open spec fn result_view(result: Option<Result<String, AgentError>>) -> Option<
    Result<Seq<char>, Failure>,
> {
    match result {
        Some(outcome) => Some(outcome_view(outcome)),
        None => None,
    }
}

/// What a phase asks its driver to do.
#[derive(Debug)]
pub enum Action {
    /// Request a completion for [`Run::transmitted`].
    Complete,
    /// Run the tool at `tool` on `args`.
    Execute { tool: usize, args: Json },
    /// Nothing: the run has ended.
    Stop,
}

impl Run {
    #[verifier::type_invariant]
    spec fn reachable(self) -> bool {
        self@.well_formed()
    }

    /// Begins a run on `input`, which becomes the last turn of `history`.
    pub fn start(
        history: Vec<Message>,
        input: &str,
        tool_names: Vec<String>,
        provider_name: &str,
        system_prompt: &str,
        max_steps: usize,
    ) -> (out: Run)
        ensures
            out@ == RunView::start(
                messages_view(history@),
                input@,
                names_view(tool_names@),
                provider_name@,
                system_prompt@,
                max_steps as nat,
            ),
            out@.well_formed(),
    {
        let mut history = history;
        let turn = Message::user(input);
        proof {
            lemma_map_push(history@, turn, |m: Message| m@);
            assert(ids_view(Seq::<String>::empty()) =~= Set::empty());
        }
        history.push(turn);
        Run {
            history,
            executed: Vec::new(),
            steps: 0,
            max_steps,
            tool_names,
            provider_name: String::from_str(provider_name),
            system_prompt: String::from_str(system_prompt),
            phase: if max_steps == 0 {
                Phase::Failed(AgentError::MaxIterations)
            } else {
                Phase::Awaiting
            },
        }
    }

    /// Takes `event` in. An event that the phase does not wait for changes
    /// nothing.
    pub fn advance(self, event: Event) -> (out: Run)
        ensures
            out@ == self@.apply(event@),
            out@.well_formed(),
    {
        proof {
            use_type_invariant(&self);
            lemma_apply_well_formed(self@, event@);
        }
        let Run {
            history,
            executed,
            steps,
            max_steps,
            tool_names,
            provider_name,
            system_prompt,
            phase,
        } = self;
        let mut history = history;
        let mut executed = executed;
        match phase {
            Phase::Awaiting => match event {
                Event::Reply(Err(error)) => {
                    let mut prefix = joined(provider_name.as_str(), " (step ");
                    let number = format_u64(steps as u64);
                    prefix.append(number.as_str());
                    prefix.append("): ");
                    let phase = Phase::Failed(error.prefixed(prefix.as_str()));
                    Run {
                        history,
                        executed,
                        steps: steps + 1,
                        max_steps,
                        tool_names,
                        provider_name,
                        system_prompt,
                        phase,
                    }
                },
                Event::Reply(Ok(completion)) => {
                    let Completion { content, tool_calls, raw_tool_calls } = completion;
                    let content = match content {
                        Some(text) => text,
                        None => String::new(),
                    };
                    let raw = match raw_tool_calls {
                        Some(raw) => raw,
                        None => Json::Null,
                    };
                    let turn = Message::assistant_with_tools(content.as_str(), raw);
                    proof {
                        lemma_map_push(history@, turn, |m: Message| m@);
                    }
                    history.push(turn);
                    let steps = steps + 1;
                    let phase = scan(
                        &executed,
                        &tool_names,
                        steps,
                        max_steps,
                        tool_calls,
                        0,
                        false,
                        content,
                    );
                    Run {
                        history,
                        executed,
                        steps,
                        max_steps,
                        tool_names,
                        provider_name,
                        system_prompt,
                        phase,
                    }
                },
                Event::Outcome(_) => Run {
                    history,
                    executed,
                    steps,
                    max_steps,
                    tool_names,
                    provider_name,
                    system_prompt,
                    phase: Phase::Awaiting,
                },
            },
            Phase::Executing { calls, next, tool, fresh, content } => match event {
                Event::Outcome(Err(error)) => Run {
                    history,
                    executed,
                    steps,
                    max_steps,
                    tool_names,
                    provider_name,
                    system_prompt,
                    phase: Phase::Failed(error),
                },
                Event::Outcome(Ok(text)) => {
                    let count = calls.len();
                    assert(next < count) by {
                        assert(calls_view(calls@).len() == count);
                    }
                    let id = calls[next].id.clone();
                    let turn = Message::tool_result(text.as_str(), id.as_str());
                    proof {
                        lemma_map_push(history@, turn, |m: Message| m@);
                        lemma_ids_push(executed@, id);
                    }
                    history.push(turn);
                    executed.push(id);
                    let phase = scan(
                        &executed,
                        &tool_names,
                        steps,
                        max_steps,
                        calls,
                        next + 1,
                        true,
                        content,
                    );
                    Run {
                        history,
                        executed,
                        steps,
                        max_steps,
                        tool_names,
                        provider_name,
                        system_prompt,
                        phase,
                    }
                },
                Event::Reply(_) => Run {
                    history,
                    executed,
                    steps,
                    max_steps,
                    tool_names,
                    provider_name,
                    system_prompt,
                    phase: Phase::Executing { calls, next, tool, fresh, content },
                },
            },
            phase => Run {
                history,
                executed,
                steps,
                max_steps,
                tool_names,
                provider_name,
                system_prompt,
                phase,
            },
        }
    }

    /// How many requests for a completion the backend has answered.
    pub fn steps(&self) -> (out: usize)
        ensures
            out == self@.steps,
    {
        self.steps
    }

    /// The conversation so far.
    pub fn history(&self) -> (out: &Vec<Message>)
        ensures
            messages_view(out@) == self@.history,
    {
        &self.history
    }

    /// What the phase asks for.
    pub fn action(&self) -> (out: Action)
        ensures
            self@.well_formed(),
            match out {
                Action::Complete => self@.phase is Awaiting,
                Action::Execute { tool, args } => {
                    &&& self@.phase matches PhaseView::Executing { calls, next, tool: at, .. }
                    &&& at == tool
                    &&& tool < self@.tool_names.len()
                    &&& args@ == calls[next].args
                },
                Action::Stop => self@.result() is Some,
            },
    {
        proof {
            use_type_invariant(self);
        }
        match &self.phase {
            Phase::Awaiting => Action::Complete,
            Phase::Executing { calls, next, tool, .. } => Action::Execute {
                tool: *tool,
                args: calls[*next].args.clone(),
            },
            _ => Action::Stop,
        }
    }

    /// The conversation as it is to be sent: the instruction, as a user
    /// turn, and then the history.
    pub fn transmitted(&self) -> (out: Vec<Message>)
        ensures
            messages_view(out@) == transmitted(self@.system_prompt, self@.history),
    {
        let mut out: Vec<Message> = Vec::new();
        out.push(Message::user(self.system_prompt.as_str()));
        let mut i: usize = 0;
        proof {
            assert(self.history@.take(0) =~= Seq::empty());
            assert(messages_view(out@) =~= transmitted(
                self.system_prompt@,
                messages_view(self.history@.take(0)),
            ));
        }
        while i < self.history.len()
            invariant
                i <= self.history.len(),
                messages_view(out@) == transmitted(
                    self.system_prompt@,
                    messages_view(self.history@.take(i as int)),
                ),
            decreases self.history.len() - i,
        {
            let turn = self.history[i].clone();
            proof {
                lemma_map_push(out@, turn, |m: Message| m@);
                lemma_map_step(self.history@, i as int, |m: Message| m@);
                assert(transmitted(
                    self.system_prompt@,
                    messages_view(self.history@.take(i as int)),
                ).push(turn@) =~= transmitted(
                    self.system_prompt@,
                    messages_view(self.history@.take(i as int)).push(turn@),
                ));
            }
            out.push(turn);
            i += 1;
        }
        proof {
            assert(self.history@.take(i as int) =~= self.history@);
        }
        out
    }

    /// Ends the use of the machine: the conversation, and how the run
    /// ended, where it has.
    pub fn finish(self) -> (out: (Vec<Message>, Option<Result<String, AgentError>>))
        ensures
            messages_view(out.0@) == self@.history,
            result_view(out.1) == self@.result(),
    {
        let Run { history, phase, .. } = self;
        let result = match phase {
            Phase::Finished(text) => Some(Ok(text)),
            Phase::Failed(error) => Some(Err(error)),
            _ => None,
        };
        (history, result)
    }
}

} // verus!
