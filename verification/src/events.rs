//! The events of a response stream.
use crate::ids::{current_timestamp, fresh_id, new_id, shown_by_clock};
use crate::lists::reversed;
use crate::text::{opt_view, views};
use crate::warp::{
    AddMessagesToTask, AddMessagesToTaskView, AppendToMessageContent, AppendToMessageContentView,
    ClientAction, ClientActionView, FinishReason, FinishReasonView, Message, MessageContent,
    MessageContentView, MessageView, NewTask, NewTaskView, Request, RequestView, ResponseEvent,
    ResponseEventView, StreamInit, StreamInitView, Suggestions, Timestamp, TimestampView, ToolCall,
    ToolCallView,
};
use vstd::prelude::*;

verus! {

/// The identifiers of a response stream.
#[derive(Debug)]
pub struct WarpIds {
    pub conversation_id: String,
    pub request_id: String,
    pub run_id: String,
    pub task_id: String,
}

/// The model of [`WarpIds`].
#[verifier::ext_equal]
pub struct WarpIdsView {
    pub conversation_id: Seq<char>,
    pub request_id: Seq<char>,
    pub run_id: Seq<char>,
    pub task_id: Seq<char>,
}

impl View for WarpIds {
    type V = WarpIdsView;

    open spec fn view(&self) -> WarpIdsView {
        WarpIdsView {
            conversation_id: self.conversation_id@,
            request_id: self.request_id@,
            run_id: self.run_id@,
            task_id: self.task_id@,
        }
    }
}

/// A text, or another where it is empty.
pub open spec fn unless_empty(text: Seq<char>, other: Seq<char>) -> Seq<char> {
    if text.len() == 0 {
        other
    } else {
        text
    }
}

/// The identifiers of the stream that answers a request: those that the request gives, and fresh
/// ones for the others. Without a run of its own, the conversation is the run.
pub open spec fn ids_of(
    request: RequestView,
    conversation: Seq<char>,
    task: Seq<char>,
    request_id: Seq<char>,
) -> WarpIdsView {
    let conversation_id = match request.metadata {
        Some(metadata) => unless_empty(metadata.conversation_id, conversation),
        None => conversation,
    };
    WarpIdsView {
        conversation_id,
        request_id,
        run_id: match request.metadata {
            Some(metadata) => unless_empty(metadata.ambient_agent_task_id, conversation_id),
            None => conversation_id,
        },
        task_id: match request.task_context {
            Some(tasks) => if tasks.len() == 0 {
                task
            } else {
                unless_empty(tasks[0].id, task)
            },
            None => task,
        },
    }
}

/// A copy of a text, or another text where it is empty.
fn copy_unless_empty(text: &String, other: String) -> (r: String)
    ensures
        r@ == unless_empty(text@, other@),
{
    if text.as_str().is_empty() {
        other
    } else {
        text.clone()
    }
}

impl WarpIds {
    /// The identifiers of the stream that answers a request, with the given ones for those that it
    /// does not give.
    pub fn with_fresh(
        request: &Request,
        conversation: String,
        task: String,
        request_id: String,
    ) -> (r: Self)
        ensures
            r@ == ids_of(request@, conversation@, task@, request_id@),
    {
        let conversation_id = match &request.metadata {
            Some(metadata) => copy_unless_empty(&metadata.conversation_id, conversation),
            None => conversation,
        };
        let run_id = match &request.metadata {
            Some(metadata) => copy_unless_empty(
                &metadata.ambient_agent_task_id,
                conversation_id.clone(),
            ),
            None => conversation_id.clone(),
        };
        let task_id = match &request.task_context {
            Some(tasks) => if tasks.len() == 0 {
                task
            } else {
                copy_unless_empty(&tasks[0].id, task)
            },
            None => task,
        };
        WarpIds { conversation_id, request_id, run_id, task_id }
    }

    /// The identifiers of the stream that answers a request.
    pub fn from_request(request: &Request) -> (r: Self)
        ensures
            exists|conversation: Seq<char>, task: Seq<char>, request_id: Seq<char>|
                #![trigger ids_of(request@, conversation, task, request_id)]
                fresh_id("conv_"@, conversation) && fresh_id("task_"@, task) && fresh_id(
                    "req_"@,
                    request_id,
                ) && r@ == ids_of(request@, conversation, task, request_id),
    {
        WarpIds::with_fresh(request, new_id("conv_"), new_id("task_"), new_id("req_"))
    }
}

/// The event that starts a stream.
pub open spec fn init(ids: WarpIdsView) -> ResponseEventView {
    ResponseEventView::Init(
        StreamInitView {
            conversation_id: ids.conversation_id,
            request_id: ids.request_id,
            run_id: ids.run_id,
        },
    )
}

/// The event that starts a stream.
pub fn init_event(ids: &WarpIds) -> (r: ResponseEvent)
    ensures
        r@ == init(ids@),
{
    ResponseEvent::Init(
        StreamInit {
            conversation_id: ids.conversation_id.clone(),
            request_id: ids.request_id.clone(),
            run_id: ids.run_id.clone(),
        },
    )
}

/// An event with one action of the client.
pub open spec fn one_action(action: ClientActionView) -> ResponseEventView {
    ResponseEventView::ClientActions(seq![action])
}

/// An event with one action of the client.
fn client_actions_event(action: ClientAction) -> (r: ResponseEvent)
    ensures
        r@ == one_action(action@),
{
    let actions = vec![action];
    assert(views(actions@) =~= seq![action@]);
    ResponseEvent::ClientActions(actions)
}

/// The event that creates the task of the stream.
pub open spec fn create_root_task(ids: WarpIdsView) -> ResponseEventView {
    one_action(
        ClientActionView::CreateTask(
            NewTaskView { id: ids.task_id, description: "WarpOCA agent"@ },
        ),
    )
}

/// The event that creates the task of the stream.
pub fn create_root_task_event(ids: &WarpIds) -> (r: ResponseEvent)
    ensures
        r@ == create_root_task(ids@),
{
    client_actions_event(
        ClientAction::CreateTask(
            NewTask { id: ids.task_id.clone(), description: "WarpOCA agent".to_owned() },
        ),
    )
}

/// A message of the task of the stream.
pub open spec fn task_message(
    ids: WarpIdsView,
    id: Seq<char>,
    timestamp: Option<TimestampView>,
    content: MessageContentView,
) -> MessageView {
    MessageView {
        id,
        task_id: ids.task_id,
        request_id: ids.request_id,
        timestamp,
        message: Some(content),
    }
}

/// A message with text of the agent, at the given time.
pub fn agent_output_message_at(
    ids: &WarpIds,
    message_id: &str,
    text: &str,
    timestamp: Option<Timestamp>,
) -> (r: Message)
    ensures
        r@ == task_message(
            ids@,
            message_id@,
            opt_view(timestamp),
            MessageContentView::AgentOutput(text@),
        ),
{
    Message {
        id: message_id.to_owned(),
        task_id: ids.task_id.clone(),
        request_id: ids.request_id.clone(),
        timestamp,
        message: Some(MessageContent::AgentOutput(text.to_owned())),
    }
}

/// A message with text of the agent, at this time.
pub fn agent_output_message(ids: &WarpIds, message_id: &str, text: &str) -> (r: Message)
    ensures
        r@ == task_message(
            ids@,
            message_id@,
            r@.timestamp,
            MessageContentView::AgentOutput(text@),
        ),
        shown_by_clock(r@.timestamp),
{
    agent_output_message_at(ids, message_id, text, current_timestamp())
}

/// The event that adds messages to the task of the stream.
pub open spec fn add_messages(ids: WarpIdsView, messages: Seq<MessageView>) -> ResponseEventView {
    one_action(
        ClientActionView::AddMessagesToTask(
            AddMessagesToTaskView { task_id: ids.task_id, messages },
        ),
    )
}

/// The event that adds a message with text of the agent.
pub open spec fn add_agent_output(
    ids: WarpIdsView,
    message_id: Seq<char>,
    text: Seq<char>,
    timestamp: Option<TimestampView>,
) -> ResponseEventView {
    add_messages(
        ids,
        seq![task_message(ids, message_id, timestamp, MessageContentView::AgentOutput(text))],
    )
}

/// The event that appends text to a message of the agent.
pub open spec fn append_agent_output(
    ids: WarpIdsView,
    message_id: Seq<char>,
    text: Seq<char>,
    timestamp: Option<TimestampView>,
) -> ResponseEventView {
    one_action(
        ClientActionView::AppendToMessageContent(
            AppendToMessageContentView {
                task_id: ids.task_id,
                message: task_message(
                    ids,
                    message_id,
                    timestamp,
                    MessageContentView::AgentOutput(text),
                ),
                mask: seq!["agent_output.text"@],
            },
        ),
    )
}

/// The event that adds a message with text of the agent, at the given time.
pub fn add_agent_output_event_at(
    ids: &WarpIds,
    message_id: &str,
    text: &str,
    timestamp: Option<Timestamp>,
) -> (r: ResponseEvent)
    ensures
        r@ == add_agent_output(ids@, message_id@, text@, opt_view(timestamp)),
{
    let messages = vec![agent_output_message_at(ids, message_id, text, timestamp)];
    assert(views(messages@) =~= seq![
        task_message(
            ids@,
            message_id@,
            opt_view(timestamp),
            MessageContentView::AgentOutput(text@),
        ),
    ]);
    client_actions_event(
        ClientAction::AddMessagesToTask(
            AddMessagesToTask { task_id: ids.task_id.clone(), messages },
        ),
    )
}

/// The event that appends text to a message of the agent, at the given time.
pub fn append_agent_output_event_at(
    ids: &WarpIds,
    message_id: &str,
    text: &str,
    timestamp: Option<Timestamp>,
) -> (r: ResponseEvent)
    ensures
        r@ == append_agent_output(ids@, message_id@, text@, opt_view(timestamp)),
{
    let mask = vec!["agent_output.text".to_owned()];
    assert(views(mask@) =~= seq!["agent_output.text"@]);
    client_actions_event(
        ClientAction::AppendToMessageContent(
            AppendToMessageContent {
                task_id: ids.task_id.clone(),
                message: agent_output_message_at(ids, message_id, text, timestamp),
                mask,
            },
        ),
    )
}

/// The event that adds a message with text of the agent.
pub fn add_agent_output_event(ids: &WarpIds, message_id: &str, text: &str) -> (r: ResponseEvent)
    ensures
        exists|timestamp: Option<TimestampView>|
            shown_by_clock(timestamp) && r@ == #[trigger] add_agent_output(
                ids@,
                message_id@,
                text@,
                timestamp,
            ),
{
    add_agent_output_event_at(ids, message_id, text, current_timestamp())
}

/// The event that appends text to a message of the agent.
pub fn append_agent_output_event(ids: &WarpIds, message_id: &str, text: &str) -> (r: ResponseEvent)
    ensures
        exists|timestamp: Option<TimestampView>|
            shown_by_clock(timestamp) && r@ == #[trigger] append_agent_output(
                ids@,
                message_id@,
                text@,
                timestamp,
            ),
{
    append_agent_output_event_at(ids, message_id, text, current_timestamp())
}

/// Whether messages are those of tool calls, one for one, each under a fresh identifier and with a
/// time that a clock shows.
pub open spec fn tool_call_messages(
    ids: WarpIdsView,
    calls: Seq<ToolCallView>,
    messages: Seq<MessageView>,
) -> bool {
    &&& messages.len() == calls.len()
    &&& forall|i: int|
        0 <= i < calls.len() ==> fresh_id("msg_"@, (#[trigger] messages[i]).id) && shown_by_clock(
            messages[i].timestamp,
        ) && messages[i] == task_message(
            ids,
            messages[i].id,
            messages[i].timestamp,
            MessageContentView::ToolCall(calls[i]),
        )
}

/// Whether an event adds messages with tool calls.
pub open spec fn adds_tool_calls(
    ids: WarpIdsView,
    calls: Seq<ToolCallView>,
    event: ResponseEventView,
) -> bool {
    exists|messages: Seq<MessageView>|
        #[trigger] tool_call_messages(ids, calls, messages) && event == add_messages(ids, messages)
}

/// The event that adds messages with tool calls.
pub fn add_tool_calls_event(ids: &WarpIds, tool_calls: Vec<ToolCall>) -> (r: ResponseEvent)
    ensures
        adds_tool_calls(ids@, views(tool_calls@), r@),
{
    let ghost all = views(tool_calls@);
    let mut rest = reversed(tool_calls);
    let mut messages: Vec<Message> = Vec::new();
    loop
        invariant
            messages@.len() + rest@.len() == all.len(),
            forall|i: int|
                0 <= i < rest@.len() ==> (#[trigger] rest@[i])@ == all[all.len() - 1 - i],
            forall|i: int|
                0 <= i < messages@.len() ==> fresh_id("msg_"@, (#[trigger] messages@[i])@.id)
                    && shown_by_clock(messages@[i]@.timestamp) && messages@[i]@ == task_message(
                    ids@,
                    messages@[i]@.id,
                    messages@[i]@.timestamp,
                    MessageContentView::ToolCall(all[i]),
                ),
        ensures
            messages@.len() == all.len(),
            forall|i: int|
                0 <= i < messages@.len() ==> fresh_id("msg_"@, (#[trigger] messages@[i])@.id)
                    && shown_by_clock(messages@[i]@.timestamp) && messages@[i]@ == task_message(
                    ids@,
                    messages@[i]@.id,
                    messages@[i]@.timestamp,
                    MessageContentView::ToolCall(all[i]),
                ),
        decreases rest@.len(),
    {
        match rest.pop() {
            Some(call) => {
                let message = Message {
                    id: new_id("msg_"),
                    task_id: ids.task_id.clone(),
                    request_id: ids.request_id.clone(),
                    timestamp: current_timestamp(),
                    message: Some(MessageContent::ToolCall(call)),
                };
                messages.push(message);
            },
            None => {
                break;
            },
        }
    }
    assert(tool_call_messages(ids@, all, views(messages@)));
    client_actions_event(
        ClientAction::AddMessagesToTask(
            AddMessagesToTask { task_id: ids.task_id.clone(), messages },
        ),
    )
}

/// The event that shows suggestions.
pub fn show_suggestions_event(suggestions: Suggestions) -> (r: ResponseEvent)
    ensures
        r@ == one_action(ClientActionView::ShowSuggestions(suggestions@)),
{
    client_actions_event(ClientAction::ShowSuggestions(suggestions))
}

/// The event that ends a stream well.
pub fn finished_event_done() -> (r: ResponseEvent)
    ensures
        r@ == ResponseEventView::Finished(FinishReasonView::Done),
{
    ResponseEvent::Finished(FinishReason::Done)
}

/// The event that ends a stream with an error.
pub fn finished_event_internal_error(message: String) -> (r: ResponseEvent)
    ensures
        r@ == ResponseEventView::Finished(FinishReasonView::InternalError(message@)),
{
    ResponseEvent::Finished(FinishReason::InternalError(message))
}

/// A conversation, a run and a task that the client names keep their names; the others get new
/// ones, and a run without a name has that of its conversation.
pub proof fn lemma_names_are_kept(
    request: RequestView,
    conversation: Seq<char>,
    task: Seq<char>,
    request_id: Seq<char>,
)
    ensures
        ({
            let ids = ids_of(request, conversation, task, request_id);
            &&& ids.request_id == request_id
            &&& request.metadata is None ==> ids.conversation_id == conversation && ids.run_id
                == conversation
            &&& request.metadata matches Some(metadata) ==> {
                &&& metadata.conversation_id.len() > 0 ==> ids.conversation_id
                    == metadata.conversation_id
                &&& metadata.conversation_id.len() == 0 ==> ids.conversation_id == conversation
                &&& metadata.ambient_agent_task_id.len() > 0 ==> ids.run_id
                    == metadata.ambient_agent_task_id
                &&& metadata.ambient_agent_task_id.len() == 0 ==> ids.run_id == ids.conversation_id
            }
            &&& request.task_context is None ==> ids.task_id == task
            &&& request.task_context matches Some(tasks) ==> {
                &&& tasks.len() == 0 ==> ids.task_id == task
                &&& tasks.len() > 0 && tasks[0].id.len() > 0 ==> ids.task_id == tasks[0].id
                &&& tasks.len() > 0 && tasks[0].id.len() == 0 ==> ids.task_id == task
            }
        }),
{
}

/// What the first events say.
pub proof fn lemma_first_events(ids: WarpIdsView)
    ensures
        init(ids) matches ResponseEventView::Init(start) && start.conversation_id
            == ids.conversation_id && start.request_id == ids.request_id && start.run_id
            == ids.run_id,
        create_root_task(ids) matches ResponseEventView::ClientActions(actions) && actions == seq![
            ClientActionView::CreateTask(
                NewTaskView { id: ids.task_id, description: "WarpOCA agent"@ },
            ),
        ],
{
}

/// What is shown goes to the task of the request: the first text as a new message of the agent, the
/// later ones behind the text of that message.
pub proof fn lemma_output_events(
    ids: WarpIdsView,
    message_id: Seq<char>,
    text: Seq<char>,
    timestamp: Option<TimestampView>,
)
    ensures
        add_agent_output(ids, message_id, text, timestamp) matches ResponseEventView::ClientActions(
            actions,
        ) && actions == seq![
            ClientActionView::AddMessagesToTask(
                AddMessagesToTaskView {
                    task_id: ids.task_id,
                    messages: seq![
                        MessageView {
                            id: message_id,
                            task_id: ids.task_id,
                            request_id: ids.request_id,
                            timestamp,
                            message: Some(MessageContentView::AgentOutput(text)),
                        },
                    ],
                },
            ),
        ],
        append_agent_output(
            ids,
            message_id,
            text,
            timestamp,
        ) matches ResponseEventView::ClientActions(actions) && actions == seq![
            ClientActionView::AppendToMessageContent(
                AppendToMessageContentView {
                    task_id: ids.task_id,
                    message: MessageView {
                        id: message_id,
                        task_id: ids.task_id,
                        request_id: ids.request_id,
                        timestamp,
                        message: Some(MessageContentView::AgentOutput(text)),
                    },
                    mask: seq!["agent_output.text"@],
                },
            ),
        ],
{
}

/// Calls are shown in their order, each as one message of the task of the request.
pub proof fn lemma_call_events(
    ids: WarpIdsView,
    calls: Seq<ToolCallView>,
    event: ResponseEventView,
    i: int,
)
    requires
        adds_tool_calls(ids, calls, event),
    ensures
        event matches ResponseEventView::ClientActions(actions) && actions.len() == 1 && (
        actions[0] matches ClientActionView::AddMessagesToTask(added) && added.task_id
            == ids.task_id && added.messages.len() == calls.len() && (0 <= i < calls.len() ==> {
            &&& added.messages[i].message == Some(MessageContentView::ToolCall(calls[i]))
            &&& added.messages[i].task_id == ids.task_id
            &&& added.messages[i].request_id == ids.request_id
            &&& fresh_id("msg_"@, added.messages[i].id)
        })),
{
    let messages = choose|messages: Seq<MessageView>|
        #[trigger] tool_call_messages(ids, calls, messages) && event == add_messages(ids, messages);
    assert(tool_call_messages(ids, calls, messages));
    if 0 <= i < calls.len() {
        let message = messages[i];
        assert(message == task_message(
            ids,
            message.id,
            message.timestamp,
            MessageContentView::ToolCall(calls[i]),
        ));
    }
}

} // verus!
