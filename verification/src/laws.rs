//! What holds of every run and of every exchange, proved from the
//! definitions in the rest of the crate.

use crate::codec::json_decode;
use crate::error::Failure;
use crate::json::JsonValue;
use crate::machine::{
    assistant_turn, context, empty_response, lemma_apply_extends, lemma_apply_well_formed, position,
    proceeded, replay, scanned, settled, transmitted, EventView, PhaseView, RunView,
};
use crate::message::{CompletionView, MessageView, Role, ToolCallView};
use crate::providers::{decoded_args, openai_call, openai_completion, openai_message};
use crate::providers::anthropic::{anthropic_turn, tool_result_turn, tool_use_block};
use crate::tool::{operand, product_outcome, sum_outcome};
use vstd::prelude::*;

verus! {

/// A run begins well-formed.
pub proof fn law_start_is_well_formed(
    history: Seq<MessageView>,
    input: Seq<char>,
    tool_names: Seq<Seq<char>>,
    provider_name: Seq<char>,
    system_prompt: Seq<char>,
    max_steps: nat,
)
    ensures
        RunView::start(
            history,
            input,
            tool_names,
            provider_name,
            system_prompt,
            max_steps,
        ).well_formed(),
{
}

/// Every state of a run that began well-formed is well-formed: whatever
/// comes back, no more completions are requested than the bound allows.
pub proof fn law_requests_stay_within_bound(start: RunView, events: Seq<EventView>)
    requires
        start.well_formed(),
    ensures
        replay(start, events).well_formed(),
        replay(start, events).steps <= replay(start, events).max_steps,
        replay(start, events).max_steps == start.max_steps,
    decreases events.len(),
{
    if events.len() > 0 {
        law_requests_stay_within_bound(start, events.drop_last());
        lemma_apply_well_formed(replay(start, events.drop_last()), events.last());
    }
}

/// A run that has ended stays as it is, whatever comes back: it asks for
/// nothing more.
pub proof fn law_ended_runs_stay(run: RunView, event: EventView)
    requires
        run.result() is Some,
    ensures
        run.apply(event) == run,
{
}

/// A completion that an OpenAI-shaped response holds, with text and
/// without calls, ends a run that has just begun: the run returns the text,
/// and one completion has been requested.
pub proof fn law_text_alone_ends_the_run(
    history: Seq<MessageView>,
    input: Seq<char>,
    tool_names: Seq<Seq<char>>,
    provider_name: Seq<char>,
    system_prompt: Seq<char>,
    max_steps: nat,
    response: JsonValue,
    completion: CompletionView,
)
    requires
        max_steps > 0,
        openai_completion(response) == Ok::<CompletionView, Failure>(completion),
        completion.tool_calls.len() == 0,
        completion.text().len() > 0,
    ensures
        ({
            let start = RunView::start(
                history,
                input,
                tool_names,
                provider_name,
                system_prompt,
                max_steps,
            );
            let end = start.apply(EventView::Reply(openai_completion(response)));
            &&& start.phase is Awaiting
            &&& end.result() == Some(Ok::<Seq<char>, Failure>(completion.text()))
            &&& end.steps == 1
        }),
{
}

/// In whatever step it comes, a completion without text and without calls
/// fails the run with the failure "empty response".
pub proof fn law_empty_completion_fails(run: RunView, completion: CompletionView)
    requires
        run.phase is Awaiting,
        !completion.well_formed(),
    ensures
        run.on_reply(Ok(completion)).result() == Some(
            Err::<Seq<char>, Failure>(empty_response()),
        ),
{
}

/// A failure of the backend ends the run with the same kind of failure,
/// reported with the backend's name and the step in which it came.
pub proof fn law_backend_failures_say_where(run: RunView, failure: Failure)
    requires
        run.phase is Awaiting,
    ensures
        run.on_reply(Err(failure)).result() == Some(
            Err::<Seq<char>, Failure>(failure.prefixed(context(run.provider_name, run.steps))),
        ),
        run.on_reply(Err(failure)).history == run.history,
{
}

/// Every completion leaves a turn in the conversation, whatever it holds:
/// an assistant turn with its text, empty where it has none, and with its
/// calls as the backend encoded them, `null` where it has none.
pub proof fn law_every_completion_leaves_a_turn(run: RunView, completion: CompletionView)
    requires
        run.phase is Awaiting,
    ensures
        run.on_reply(Ok(completion)).history == run.history.push(assistant_turn(completion)),
        assistant_turn(completion).role == Role::Assistant,
        assistant_turn(completion).content == completion.text(),
        assistant_turn(completion).tool_calls is Some,
{
}

/// A call to a tool that is not registered fails the run with
/// `ToolNotFound` and the name asked for. The run has then ended: by
/// [`law_ended_runs_stay`] nothing more is requested.
pub proof fn law_unknown_tool_fails_the_run(run: RunView, completion: CompletionView)
    requires
        run.phase is Awaiting,
        completion.tool_calls.len() > 0,
        !run.executed.contains(completion.tool_calls[0].id),
        position(run.tool_names, completion.tool_calls[0].name) is None,
    ensures
        run.on_reply(Ok(completion)).result() == Some(
            Err::<Seq<char>, Failure>(Failure::ToolNotFound(completion.tool_calls[0].name)),
        ),
        run.on_reply(Ok(completion)).steps == run.steps + 1,
{
}

/// A tool that fails leaves no turn in the conversation, and its failure
/// is the failure of the run.
pub proof fn law_failed_tools_leave_no_turn(run: RunView, failure: Failure)
    requires
        run.phase is Executing,
    ensures
        run.on_outcome(Err(failure)).history == run.history,
        run.on_outcome(Err(failure)).result() == Some(Err::<Seq<char>, Failure>(failure)),
{
}

/// No run executes an id twice: a call that is to be run has an id that
/// has not been executed, in every state after a well-formed one, and what
/// has been executed stays so.
pub proof fn law_no_id_runs_twice(run: RunView, event: EventView)
    requires
        run.well_formed(),
    ensures
        run.apply(event).phase matches PhaseView::Executing { calls, next, .. }
            ==> !run.apply(event).executed.contains(calls[next].id),
        run.executed.subset_of(run.apply(event).executed),
        (run.phase matches PhaseView::Executing { calls, next, .. } && event matches EventView::Outcome(
            Ok(_),
        )) ==> run.apply(event).executed.contains(run.phase->Executing_calls[run.phase->Executing_next].id),
{
    lemma_apply_well_formed(run, event);
}

/// Looking through calls that have all been executed finds none to run:
/// the step ends as one without calls.
pub proof fn lemma_stale_calls(
    executed: Set<Seq<char>>,
    tool_names: Seq<Seq<char>>,
    steps: nat,
    max_steps: nat,
    calls: Seq<ToolCallView>,
    from: int,
    content: Seq<char>,
)
    requires
        0 <= from,
        forall|i: int| from <= i < calls.len() ==> executed.contains(#[trigger] calls[i].id),
    ensures
        scanned(executed, tool_names, steps, max_steps, calls, from, false, content) == settled(
            content,
        ),
    decreases calls.len() - from,
{
    if from < calls.len() {
        assert(executed.contains(calls[from].id));
        lemma_stale_calls(executed, tool_names, steps, max_steps, calls, from + 1, content);
    }
}

/// A completion that requests only ids that have been executed runs no
/// tool: the step ends as a step without calls does, on the text that came
/// with them.
pub proof fn law_stale_calls_resolve_on_content(run: RunView, completion: CompletionView)
    requires
        run.phase is Awaiting,
        forall|i: int|
            0 <= i < completion.tool_calls.len() ==> run.executed.contains(
                #[trigger] completion.tool_calls[i].id,
            ),
    ensures
        run.on_reply(Ok(completion)).phase == settled(completion.text()),
        run.on_reply(Ok(completion)).phase == run.on_reply(
            Ok(CompletionView { tool_calls: Seq::empty(), ..completion }),
        ).phase,
{
    lemma_stale_calls(
        run.executed,
        run.tool_names,
        run.steps + 1,
        run.max_steps,
        completion.tool_calls,
        0,
        completion.text(),
    );
}

/// The first `rounds` rounds of a backend that asks for one call in each
/// step: the completion of each step, and the result of the call.
pub open spec fn rounds_of(
    completions: Seq<CompletionView>,
    results: Seq<Seq<char>>,
    rounds: nat,
) -> Seq<EventView>
    decreases rounds,
{
    if rounds == 0 {
        Seq::empty()
    } else {
        rounds_of(completions, results, (rounds - 1) as nat).push(
            EventView::Reply(Ok(completions[rounds - 1])),
        ).push(EventView::Outcome(Ok(results[rounds - 1])))
    }
}

/// Each completion brings no text and exactly one call, to a registered
/// tool, under an id that no earlier completion used.
pub open spec fn always_calls(completions: Seq<CompletionView>, tool_names: Seq<Seq<char>>) -> bool {
    &&& forall|k: int|
        0 <= k < completions.len() ==> {
            &&& (#[trigger] completions[k]).text().len() == 0
            &&& completions[k].tool_calls.len() == 1
            &&& position(tool_names, completions[k].tool_calls[0].name) is Some
        }
    &&& forall|j: int, k: int|
        0 <= j < k < completions.len() ==> (#[trigger] completions[j]).tool_calls[0].id != (
        #[trigger] completions[k]).tool_calls[0].id
}

/// The ids that the first `rounds` completions asked for.
pub open spec fn ids_of(completions: Seq<CompletionView>, rounds: nat) -> Set<Seq<char>> {
    Set::new(
        |id: Seq<char>|
            exists|j: int| 0 <= j < rounds && (#[trigger] completions[j]).tool_calls[0].id == id,
    )
}

/// After `rounds` rounds of such a backend, as many completions have been
/// requested and as many ids executed, and the run goes on exactly while
/// the bound is not reached.
pub proof fn lemma_after_rounds(
    start: RunView,
    completions: Seq<CompletionView>,
    results: Seq<Seq<char>>,
    rounds: nat,
)
    requires
        start.steps == 0,
        start.executed == Set::<Seq<char>>::empty(),
        start.phase == proceeded(0, start.max_steps),
        always_calls(completions, start.tool_names),
        rounds <= start.max_steps,
        rounds <= completions.len(),
        rounds <= results.len(),
    ensures
        ({
            let now = replay(start, rounds_of(completions, results, rounds));
            &&& now.steps == rounds
            &&& now.max_steps == start.max_steps
            &&& now.tool_names == start.tool_names
            &&& now.executed == ids_of(completions, rounds)
            &&& now.phase == proceeded(rounds, start.max_steps)
        }),
    decreases rounds,
{
    if rounds == 0 {
        assert(ids_of(completions, 0) =~= Set::empty());
    } else {
        let before = (rounds - 1) as nat;
        lemma_after_rounds(start, completions, results, before);
        let earlier = rounds_of(completions, results, before);
        let completion = completions[rounds - 1];
        let call = completion.tool_calls[0];
        let reply = EventView::Reply(Ok(completion));
        let outcome = EventView::Outcome(Ok(results[rounds - 1]));
        let events = rounds_of(completions, results, rounds);
        assert(events == earlier.push(reply).push(outcome));
        assert(events.drop_last() =~= earlier.push(reply));
        assert(earlier.push(reply).drop_last() =~= earlier);
        let awaiting = replay(start, earlier);
        assert(replay(start, earlier.push(reply)) == awaiting.apply(reply));
        assert(replay(start, events) == awaiting.apply(reply).apply(outcome));
        assert(!awaiting.executed.contains(call.id)) by {
            if ids_of(completions, before).contains(call.id) {
                let j = choose|j: int|
                    0 <= j < before && (#[trigger] completions[j]).tool_calls[0].id == call.id;
                assert(completions[j].tool_calls[0].id != completions[rounds - 1].tool_calls[0].id);
            }
        }
        let asked = awaiting.apply(reply);
        assert(asked.phase is Executing);
        let done = asked.apply(outcome);
        assert(done.executed =~= ids_of(completions, rounds)) by {
            assert forall|id: Seq<char>| done.executed.contains(id) <==> ids_of(
                completions,
                rounds,
            ).contains(id) by {
                if ids_of(completions, rounds).contains(id) {
                    let j = choose|j: int|
                        0 <= j < rounds && (#[trigger] completions[j]).tool_calls[0].id == id;
                    if j < before {
                        assert(ids_of(completions, before).contains(id));
                    }
                }
                if ids_of(completions, before).contains(id) {
                    let j = choose|j: int|
                        0 <= j < before && (#[trigger] completions[j]).tool_calls[0].id == id;
                    assert(0 <= j < rounds);
                }
                if id == call.id {
                    assert(completions[rounds - 1].tool_calls[0].id == id);
                }
            }
        }
    }
}

/// A backend that asks for a call in every step and never brings text
/// exhausts the bound: after as many rounds as the bound allows, the run
/// has failed with `MaxIterations`, and exactly that many completions have
/// been requested.
pub proof fn law_endless_calls_exhaust_the_bound(
    history: Seq<MessageView>,
    input: Seq<char>,
    tool_names: Seq<Seq<char>>,
    provider_name: Seq<char>,
    system_prompt: Seq<char>,
    max_steps: nat,
    completions: Seq<CompletionView>,
    results: Seq<Seq<char>>,
)
    requires
        completions.len() == max_steps,
        results.len() == max_steps,
        always_calls(completions, tool_names),
    ensures
        ({
            let start = RunView::start(
                history,
                input,
                tool_names,
                provider_name,
                system_prompt,
                max_steps,
            );
            let end = replay(start, rounds_of(completions, results, max_steps));
            &&& end.result() == Some(Err::<Seq<char>, Failure>(Failure::MaxIterations))
            &&& end.steps == max_steps
        }),
{
    let start = RunView::start(
        history,
        input,
        tool_names,
        provider_name,
        system_prompt,
        max_steps,
    );
    lemma_after_rounds(start, completions, results, max_steps);
}

/// An answer is never empty, and it is the text of the last turn of the
/// conversation, which is the assistant's.
pub proof fn law_answers_are_the_last_turn(
    start: RunView,
    events: Seq<EventView>,
    answer: Seq<char>,
)
    requires
        start.well_formed(),
        replay(start, events).result() == Some(Ok::<Seq<char>, Failure>(answer)),
    ensures
        answer.len() > 0,
        replay(start, events).history.len() > 0,
        replay(start, events).history.last().role == Role::Assistant,
        replay(start, events).history.last().content == answer,
{
    law_requests_stay_within_bound(start, events);
}

/// Whatever comes back, the conversation as it was stays the beginning of
/// the conversation as it is.
pub proof fn law_history_only_grows(start: RunView, events: Seq<EventView>)
    ensures
        start.history.is_prefix_of(replay(start, events).history),
    decreases events.len(),
{
    if events.len() == 0 {
        assert(start.history =~= start.history.subrange(0, start.history.len() as int));
    } else {
        let before = replay(start, events.drop_last()).history;
        let after = replay(start, events).history;
        law_history_only_grows(start, events.drop_last());
        lemma_apply_extends(replay(start, events.drop_last()), events.last());
        assert(before =~= after.subrange(0, before.len() as int));
        assert(start.history =~= before.subrange(0, start.history.len() as int));
        assert(start.history =~= after.subrange(0, start.history.len() as int));
    }
}

/// What an event adds to the conversation, where it adds anything, is one
/// turn: an assistant turn, or a tool turn that names its call.
pub proof fn lemma_added_turn(run: RunView, event: EventView)
    ensures
        run.apply(event).history == run.history || (run.apply(event).history.len()
            == run.history.len() + 1 && run.apply(event).history.drop_last() == run.history
            && run.apply(event).history.last().well_formed() && run.apply(
            event,
        ).history.last().role != Role::User),
{
    let after = run.apply(event).history;
    if after != run.history {
        assert(after.drop_last() =~= run.history);
    }
}

/// The conversation only grows, and by turns of the assistant and of tools
/// alone: every turn that a run adds is well-formed and is no user turn.
/// So the instruction, which is sent as a user turn before each request,
/// is never kept.
pub proof fn law_runs_add_assistant_and_tool_turns(
    start: RunView,
    events: Seq<EventView>,
    k: int,
)
    requires
        start.history.len() <= k < replay(start, events).history.len(),
    ensures
        start.history.is_prefix_of(replay(start, events).history),
        replay(start, events).history[k].well_formed(),
        replay(start, events).history[k].role != Role::User,
    decreases events.len(),
{
    law_history_only_grows(start, events);
    if events.len() > 0 {
        let before = replay(start, events.drop_last());
        law_history_only_grows(start, events.drop_last());
        lemma_added_turn(before, events.last());
        if k < before.history.len() {
            law_runs_add_assistant_and_tool_turns(start, events.drop_last(), k);
            assert(replay(start, events).history[k] == before.history[k]) by {
                if replay(start, events).history != before.history {
                    assert(replay(start, events).history.drop_last()[k] == before.history[k]);
                }
            }
        }
    }
}

/// What is sent for a request is the instruction, as a user turn, and then
/// the conversation as it stands.
pub proof fn law_instruction_goes_first(system_prompt: Seq<char>, history: Seq<MessageView>)
    ensures
        transmitted(system_prompt, history).len() == history.len() + 1,
        transmitted(system_prompt, history)[0] == MessageView::user(system_prompt),
        transmitted(system_prompt, history).skip(1) == history,
{
    assert(transmitted(system_prompt, history).skip(1) =~= history);
}

/// Arguments that arrive as a string of JSON text and arguments that arrive
/// as the object that the text denotes decode to the same.
pub proof fn law_string_and_object_arguments_agree(text: Seq<char>, object: JsonValue)
    requires
        json_decode(text) == Ok::<JsonValue, Seq<char>>(object),
        object is Object,
    ensures
        decoded_args(JsonValue::String(text)) == decoded_args(object),
        decoded_args(object) == Ok::<JsonValue, Failure>(object),
{
}

/// A recorded or requested call `{..call, function: {..function,
/// arguments}}`.
pub open spec fn call_with_arguments(
    call: Map<Seq<char>, JsonValue>,
    function: Map<Seq<char>, JsonValue>,
    arguments: JsonValue,
) -> JsonValue {
    JsonValue::Object(
        call.insert("function"@, JsonValue::Object(function.insert("arguments"@, arguments))),
    )
}

/// A call whose arguments arrive as a string of JSON text is read as the
/// same call whose arguments arrive as the object that the text denotes,
/// by the OpenAI-shaped adapters and by the Anthropic one alike.
pub proof fn law_calls_are_read_alike(
    call: Map<Seq<char>, JsonValue>,
    function: Map<Seq<char>, JsonValue>,
    text: Seq<char>,
    object: JsonValue,
)
    requires
        json_decode(text) == Ok::<JsonValue, Seq<char>>(object),
        object is Object,
    ensures
        openai_call(call_with_arguments(call, function, JsonValue::String(text))) == openai_call(
            call_with_arguments(call, function, object),
        ),
        openai_call(call_with_arguments(call, function, object)) is Ok,
        openai_call(call_with_arguments(call, function, object))->Ok_0.args == object,
        tool_use_block(call_with_arguments(call, function, JsonValue::String(text)))
            == tool_use_block(call_with_arguments(call, function, object)),
{
    reveal_strlit("function");
    reveal_strlit("arguments");
    reveal_strlit("name");
    reveal_strlit("id");
    assert("function"@.len() == 8 && "id"@.len() == 2);
    assert("arguments"@.len() == 9 && "name"@.len() == 4);
    let as_text = call_with_arguments(call, function, JsonValue::String(text));
    let as_object = call_with_arguments(call, function, object);
    assert(as_text.get("id"@) == as_object.get("id"@));
    assert(as_text.get("function"@)->0.get("name"@) == as_object.get("function"@)->0.get(
        "name"@,
    ));
    assert(as_text.get("function"@)->0.get("arguments"@) == Some(JsonValue::String(text)));
    assert(as_object.get("function"@)->0.get("arguments"@) == Some(object));
}

/// A turn goes to the OpenAI-shaped backends with its role as a token and
/// its content, with the id of the call that it answers exactly where it
/// has one, and with the calls that it recorded exactly where it recorded
/// some other than `null`.
pub proof fn law_turn_for_openai(message: MessageView)
    ensures
        openai_message(message).get("role"@) == Some(JsonValue::text(message.role.token())),
        openai_message(message).get("content"@) == Some(JsonValue::text(message.content)),
        openai_message(message).get("tool_call_id"@) == match message.tool_call_id {
            Some(id) => Some(JsonValue::text(id)),
            None => None,
        },
        openai_message(message).get("tool_calls"@) == match message.tool_calls {
            Some(calls) => if calls is Null {
                None
            } else {
                Some(calls)
            },
            None => None,
        },
{
    reveal_strlit("role");
    reveal_strlit("content");
    reveal_strlit("tool_call_id");
    reveal_strlit("tool_calls");
    assert("role"@.len() == 4 && "content"@.len() == 7);
    assert("tool_call_id"@.len() == 12 && "tool_calls"@.len() == 10);
}

/// The result of a tool goes to Anthropic as a user turn whose content is
/// a list of one block: a `tool_result` that names the call and holds the
/// result.
pub proof fn law_tool_turn_for_anthropic(message: MessageView, id: Seq<char>)
    requires
        message.role == Role::Tool,
        message.tool_call_id == Some(id),
    ensures
        anthropic_turn(message) == Some(tool_result_turn(id, message.content)),
        tool_result_turn(id, message.content).get("role"@) == Some(JsonValue::text("user"@)),
        tool_result_turn(id, message.content).get("content"@) matches Some(
            JsonValue::Array(blocks),
        ) && blocks.len() == 1 && blocks[0].get("type"@) == Some(JsonValue::text("tool_result"@))
            && blocks[0].get("tool_use_id"@) == Some(JsonValue::text(id)) && blocks[0].get(
            "content"@,
        ) == Some(JsonValue::text(message.content)),
{
    reveal_strlit("role");
    reveal_strlit("content");
    reveal_strlit("type");
    reveal_strlit("tool_use_id");
    assert("role"@.len() == 4 && "content"@.len() == 7);
    assert("type"@.len() == 4 && "tool_use_id"@.len() == 11);
}

/// Arguments without an integer under `a` fail both arithmetic tools with
/// a failure that names `a`, whatever else they hold.
pub proof fn law_missing_operand_is_named(args: JsonValue)
    requires
        !(args.get("a"@) matches Some(value) && value.as_i64() is Some),
    ensures
        sum_outcome(args) == Err::<Seq<char>, Failure>(
            Failure::ToolError("Missing '"@ + "a"@ + "'"@),
        ),
        product_outcome(args) == Err::<Seq<char>, Failure>(
            Failure::ToolError("Missing '"@ + "a"@ + "'"@),
        ),
{
}

} // verus!
