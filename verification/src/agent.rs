//! The agent: a backend, the tools on offer, and the conversation, driven
//! through one run at a time.

use crate::error::{AgentError, Failure};
use crate::machine::{
    lemma_apply_extends, lemma_apply_progress, names_view, orderly, replay, Action, Event,
    EventView, Run, RunView,
};
use crate::message::{messages_view, Message, MessageView, Role};
use crate::providers::LlmProvider;
use crate::seq_lemmas::lemma_push_one;
use crate::tool::{as_tool, outcome_view, Tool};
use vstd::prelude::*;
use vstd::string::StringExecFns;

verus! {

/// The bound on the steps of a run, where none is set.
pub const DEFAULT_MAX_STEPS: usize = 6;

/// The instruction that goes before the conversation, where none is set.
pub const DEFAULT_SYSTEM_PROMPT: &'static str =
    "use only directly relevant tools; answer immediately once a result is available";

/// A backend, the tools on offer, and the conversation so far.
///
/// Where the types of the backend and of the tools are not named, they are
/// boxed trait objects: an agent for any backend, with tools of any kind.
pub struct Agent<P: LlmProvider = Box<dyn LlmProvider>, T: Tool = Box<dyn Tool>> {
    pub provider: P,
    /// The model that each request names; the backend reads it.
    pub model: String,
    pub tools: Vec<T>,
    pub history: Vec<Message>,
    /// The bound on the steps of one run.
    pub max_steps: usize,
    /// The instruction that is sent before the conversation and is never
    /// part of it.
    pub system_prompt: String,
}

/// Whether a run that began in `start` and took in `events`, each when it
/// waited for it, ended with `outcome` and left `history` as the
/// conversation.
pub open spec fn ran(
    start: RunView,
    events: Seq<EventView>,
    outcome: Result<Seq<char>, Failure>,
    history: Seq<MessageView>,
) -> bool {
    &&& orderly(start, events)
    &&& replay(start, events).result() == Some(outcome)
    &&& replay(start, events).history == history
}

/// The tools of a registry, each by reference and in the order of
/// registration: what is offered to the backend with each request.
fn borrow_tools<T: Tool>(tools: &Vec<T>) -> (out: Vec<&dyn Tool>)
    ensures
        out@.len() == tools@.len(),
        forall|i: int| 0 <= i < tools@.len() ==> out@[i] == as_tool(&tools@[i]),
{
    let mut out: Vec<&dyn Tool> = Vec::new();
    let mut i: usize = 0;
    while i < tools.len()
        invariant
            i <= tools.len(),
            out@.len() == i,
            forall|j: int| 0 <= j < i ==> out@[j] == as_tool(&tools@[j]),
        decreases tools.len() - i,
    {
        let tool: &dyn Tool = &tools[i];
        proof {
            lemma_push_one::<&dyn Tool>(out@, tool);
        }
        out.push(tool);
        i += 1;
    }
    out
}

/// The names that the tools of a registry give.
fn tool_names<T: Tool>(tools: &Vec<T>) -> (out: Vec<String>)
    ensures
        out.len() == tools.len(),
{
    let mut out: Vec<String> = Vec::new();
    let mut i: usize = 0;
    while i < tools.len()
        invariant
            i <= tools.len(),
            out.len() == i,
        decreases tools.len() - i,
    {
        out.push(String::from_str(tools[i].name()));
        i += 1;
    }
    out
}

impl<P: LlmProvider, T: Tool> Agent<P, T> {
    /// An agent for `provider` that asks for `model`, with no tools, an
    /// empty conversation, and the bound and instruction of this crate.
    pub fn for_provider(provider: P, model: &str) -> (out: Self)
        ensures
            out.provider == provider,
            out.model@ == model@,
            out.tools@.len() == 0,
            out.history@.len() == 0,
            out.max_steps == DEFAULT_MAX_STEPS,
            out.system_prompt@ == DEFAULT_SYSTEM_PROMPT@,
    {
        Agent {
            provider,
            model: String::from_str(model),
            tools: Vec::new(),
            history: Vec::new(),
            max_steps: DEFAULT_MAX_STEPS,
            system_prompt: String::from_str(DEFAULT_SYSTEM_PROMPT),
        }
    }

    /// The agent with the bound `max_steps` on the steps of a run.
    pub fn with_max_steps(self, max_steps: usize) -> (out: Self)
        ensures
            out.max_steps == max_steps,
            out.provider == self.provider,
            out.model == self.model,
            out.tools == self.tools,
            out.history == self.history,
            out.system_prompt == self.system_prompt,
    {
        let mut out = self;
        out.max_steps = max_steps;
        out
    }

    /// The agent with `system_prompt` as the instruction that goes before
    /// the conversation.
    pub fn with_system_prompt(self, system_prompt: &str) -> (out: Self)
        ensures
            out.system_prompt@ == system_prompt@,
            out.provider == self.provider,
            out.model == self.model,
            out.tools == self.tools,
            out.history == self.history,
            out.max_steps == self.max_steps,
    {
        let mut out = self;
        out.system_prompt = String::from_str(system_prompt);
        out
    }

    /// Registers `tool` after the tools that are registered already.
    pub fn register(&mut self, tool: T)
        ensures
            final(self).tools@ == old(self).tools@.push(tool),
            final(self).tools@.len() == old(self).tools@.len() + 1,
            final(self).provider == old(self).provider,
            final(self).model == old(self).model,
            final(self).history == old(self).history,
            final(self).max_steps == old(self).max_steps,
            final(self).system_prompt == old(self).system_prompt,
    {
        self.tools.push(tool);
    }

    /// Runs the conversation on from `user_input` until the backend answers
    /// with text alone, something fails, or the bound on the steps is
    /// reached.
    ///
    /// The backend and the tools are asked as the machine of
    /// [`crate::machine`] decides, and what they return is handed to it.
    /// So whatever they return, the result and the conversation afterwards
    /// are those of the machine after some sequence of events, each one
    /// awaited when it came: the machine begun on the conversation before,
    /// on `user_input`, with one name for each registered tool.
    pub fn run(&mut self, user_input: &str) -> (out: Result<String, AgentError>)
        ensures
            exists|tool_names: Seq<Seq<char>>, provider_name: Seq<char>, events: Seq<EventView>|
                {
                    &&& tool_names.len() == old(self).tools@.len()
                    &&& #[trigger] ran(
                        RunView::start(
                            messages_view(old(self).history@),
                            user_input@,
                            tool_names,
                            provider_name,
                            old(self).system_prompt@,
                            old(self).max_steps as nat,
                        ),
                        events,
                        outcome_view(out),
                        messages_view(final(self).history@),
                    )
                },
            messages_view(old(self).history@).push(MessageView::user(user_input@)).is_prefix_of(
                messages_view(final(self).history@),
            ),
            out matches Ok(text) ==> {
                &&& text@.len() > 0
                &&& messages_view(final(self).history@).last().role == Role::Assistant
                &&& messages_view(final(self).history@).last().content == text@
            },
            final(self).provider == old(self).provider,
            final(self).model == old(self).model,
            final(self).tools == old(self).tools,
            final(self).max_steps == old(self).max_steps,
            final(self).system_prompt == old(self).system_prompt,
    {
        let names = tool_names(&self.tools);
        let provider_name = String::from_str(self.provider.provider_name());
        let ghost given = (names_view(names@), provider_name@);
        let mut history: Vec<Message> = Vec::new();
        core::mem::swap(&mut self.history, &mut history);
        let mut run = Run::start(
            history,
            user_input,
            names,
            provider_name.as_str(),
            self.system_prompt.as_str(),
            self.max_steps,
        );
        let ghost start = run@;
        let ghost mut events: Seq<EventView> = Seq::empty();
        assert(start.history =~= start.history.subrange(0, start.history.len() as int));
        let mut stopped = false;
        while !stopped
            invariant
                run@ == replay(start, events),
                orderly(start, events),
                run@.well_formed(),
                start.history.is_prefix_of(run@.history),
                run@.max_steps == start.max_steps,
                run@.tool_names.len() == self.tools@.len(),
                stopped ==> run@.result() is Some,
                self.provider == old(self).provider,
                self.model == old(self).model,
                self.tools == old(self).tools,
                self.max_steps == old(self).max_steps,
                self.system_prompt == old(self).system_prompt,
            decreases
                run@.max_steps - run@.steps,
                run@.remaining(),
                if stopped { 0nat } else { 1nat },
        {
            let event = match run.action() {
                Action::Stop => None,
                Action::Complete => {
                    let messages = run.transmitted();
                    let tools = borrow_tools(&self.tools);
                    Some(
                        Event::Reply(
                            self.provider.complete(
                                messages.as_slice(),
                                tools.as_slice(),
                                self.model.as_str(),
                            ),
                        ),
                    )
                },
                Action::Execute { tool, args } => Some(
                    Event::Outcome(self.tools[tool].execute(args)),
                ),
            };
            match event {
                None => {
                    stopped = true;
                },
                Some(event) => {
                    proof {
                        lemma_apply_progress(run@, event@);
                        lemma_apply_extends(run@, event@);
                        assert(start.history.is_prefix_of(run@.apply(event@).history)) by {
                            let before = run@.history;
                            let after = run@.apply(event@).history;
                            assert(start.history =~= after.subrange(
                                0,
                                start.history.len() as int,
                            )) by {
                                assert(before =~= after.subrange(0, before.len() as int));
                                assert(start.history =~= before.subrange(
                                    0,
                                    start.history.len() as int,
                                ));
                            }
                        }
                        let longer = events.push(event@);
                        assert(longer.drop_last() =~= events);
                        assert forall|k: int| 0 <= k < longer.len() implies (#[trigger] replay(
                            start,
                            longer.take(k),
                        )).awaits(longer[k]) by {
                            if k < events.len() {
                                assert(longer.take(k) =~= events.take(k));
                            } else {
                                assert(longer.take(k) =~= events);
                            }
                        }
                        events = longer;
                    }
                    run = run.advance(event);
                },
            }
        }
        let (history, result) = run.finish();
        self.history = history;
        let out = match result {
            Some(outcome) => outcome,
            None => Err(AgentError::MaxIterations),
        };
        proof {
            assert(start == RunView::start(
                messages_view(old(self).history@),
                user_input@,
                given.0,
                given.1,
                old(self).system_prompt@,
                old(self).max_steps as nat,
            ));
            assert(ran(start, events, outcome_view(out), messages_view(self.history@)));
        }
        out
    }
}

impl Agent<Box<dyn LlmProvider>, Box<dyn Tool>> {
    /// An agent for `provider` that asks for `model`, with no tools, an
    /// empty conversation, and the bound and instruction of this crate.
    pub fn new(provider: Box<dyn LlmProvider>, model: &str) -> (out: Self)
        ensures
            out.model@ == model@,
            out.tools@.len() == 0,
            out.history@.len() == 0,
            out.max_steps == DEFAULT_MAX_STEPS,
            out.system_prompt@ == DEFAULT_SYSTEM_PROMPT@,
    {
        Agent::for_provider(provider, model)
    }
}

impl<P: LlmProvider> Agent<P, Box<dyn Tool>> {
    /// Registers `tool`, boxed, after the tools that are registered
    /// already.
    pub fn add_tool<U: Tool + 'static>(&mut self, tool: U)
        ensures
            final(self).tools@.len() == old(self).tools@.len() + 1,
            final(self).provider == old(self).provider,
            final(self).model == old(self).model,
            final(self).history == old(self).history,
            final(self).max_steps == old(self).max_steps,
            final(self).system_prompt == old(self).system_prompt,
    {
        let boxed: Box<dyn Tool> = Box::new(tool);
        self.register(boxed);
    }
}

} // verus!
