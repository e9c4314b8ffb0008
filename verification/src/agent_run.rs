//! The running agent turn: keeps the state that [`crate::stream`] describes.
use vstd::hash_map::StringHashMap;
use vstd::prelude::*;
use vstd::string::*;

use crate::payload::{
    AgentDonePayload, AgentErrorPayload, AgentMessageIdPayload, AgentPermissionRequestPayload,
    AgentRateLimitPayload, AgentStatusPayload, AgentTextPayload, AgentThinkingPayload,
    AgentToolResultPayload, AgentToolStartPayload, AgentToolUsePayload, EventView, FrontendEvent,
    TitleGeneratingPayload, TitleUpdatedPayload,
};
use crate::stream::{
    block_events, block_pieces, block_tools, create_action, error_event, failed, input_in_range,
    on_assistant, on_closed, on_message, on_message_saved, on_tool_saved, request_tool, run_inv,
    run_start, run_step, save_session, signed_32, signed_64, start_tools, text_event,
    thinking_event, title_event, update_actions, waiting, wrap_up, ActionView, Block,
    Cause, CauseView, Outcome, Phase, PhaseView, RunAction, RunInput, RunView, ToolStatus, ToolUse,
    PREVIEW_BYTES,
};
use crate::text::{contains_text, copy_or_empty, copy_text, opt_view, views};
use crate::tool_input::{get_tool_input_summary, input_preview, truncate_preview};
use crate::transcript::{Piece, Transcript};

verus! {

/// The low 64 bits as a signed number.
pub(crate) fn to_i64(n: u64) -> (low: i64)
    ensures
        low == signed_64(n as int),
{
    let low: i64 = n as i64;
    assert(n < 0x8000_0000_0000_0000u64 ==> low == n as int) by (bit_vector)
        requires
            low == n as i64,
    ;
    assert(n >= 0x8000_0000_0000_0000u64 ==> low == n as int - 0x1_0000_0000_0000_0000int) by (
        bit_vector)
        requires
            low == n as i64,
    ;
    low
}

/// The low 32 bits as a signed number.
fn to_i32(n: u64) -> (low: i32)
    ensures
        low == signed_32(n as int),
{
    let low: i32 = n as i32;
    let rest: u64 = n % 0x1_0000_0000;
    assert(rest < 0x8000_0000u64 ==> low == rest as int) by (bit_vector)
        requires
            low == n as i32,
            rest == n % 0x1_0000_0000u64,
    ;
    assert(rest >= 0x8000_0000u64 ==> low == rest as int - 0x1_0000_0000int) by (bit_vector)
        requires
            low == n as i32,
            rest == n % 0x1_0000_0000u64,
    ;
    low
}

/// A turn of the agent that is under way.
pub struct AgentRun {
    conversation_id: String,
    user_message_id: String,
    created_at: i64,
    model_id: String,
    first_message: bool,
    transcript: Transcript,
    streamed: bool,
    message_id: Option<String>,
    executions: StringHashMap<String>,
    outcome: Option<Outcome>,
    phase: Phase,
}

impl View for AgentRun {
    type V = RunView;

    closed spec fn view(&self) -> RunView {
        RunView {
            conversation_id: self.conversation_id@,
            user_message_id: self.user_message_id@,
            created_at: self.created_at,
            model_id: self.model_id@,
            first_message: self.first_message,
            pieces: self.transcript@,
            streamed: self.streamed,
            message_id: opt_view(self.message_id),
            executions: self.executions@.map_values(|id: String| id@),
            outcome: opt_view(self.outcome),
            phase: self.phase@,
        }
    }
}

impl AgentRun {
    /// The stored texts agree with each other, and the state is one that a turn can reach.
    pub closed spec fn wf(&self) -> bool {
        self.transcript.wf() && run_inv(self@)
    }

    /// Begins a turn. The assistant message is dated right after the user's message.
    pub fn new(
        conversation_id: String,
        user_message_id: String,
        user_created_at: i64,
        model_id: String,
        first_message: bool,
    ) -> (run: AgentRun)
        requires
            user_created_at < i64::MAX,
        ensures
            run.wf(),
            run@ == run_start(
                conversation_id@,
                user_message_id@,
                user_created_at,
                model_id@,
                first_message,
            ),
    {
        let run = AgentRun {
            conversation_id,
            user_message_id,
            created_at: user_created_at + 1,
            model_id,
            first_message,
            transcript: Transcript::new(),
            streamed: false,
            message_id: None,
            executions: StringHashMap::new(),
            outcome: None,
            phase: Phase::Listening,
        };
        assert(run.executions@.map_values(|id: String| id@) =~= Map::empty());
        run
    }

    /// Whether the turn is over.
    pub fn ended(&self) -> (ended: bool)
        ensures
            ended == (self@.phase is Ended),
    {
        match self.phase {
            Phase::Ended => true,
            _ => false,
        }
    }

    fn emit_text(&self, text: String) -> (action: RunAction)
        ensures
            action@ == text_event(self@, text@),
    {
        RunAction::Emit(
            FrontendEvent::StreamText(
                AgentTextPayload {
                    conversation_id: self.conversation_id.clone(),
                    assistant_message_id: copy_or_empty(&self.message_id),
                    text,
                },
            ),
        )
    }

    fn emit_thinking(&self, thinking: String) -> (action: RunAction)
        ensures
            action@ == thinking_event(self@, thinking@),
    {
        RunAction::Emit(
            FrontendEvent::StreamThinking(
                AgentThinkingPayload {
                    conversation_id: self.conversation_id.clone(),
                    assistant_message_id: copy_or_empty(&self.message_id),
                    thinking,
                },
            ),
        )
    }

    fn emit_error(&self, message: String) -> (action: RunAction)
        ensures
            action@ == error_event(self@, message@),
    {
        RunAction::Emit(
            FrontendEvent::Error(
                AgentErrorPayload {
                    conversation_id: self.conversation_id.clone(),
                    assistant_message_id: copy_text(&self.message_id),
                    message,
                },
            ),
        )
    }

    fn emit_title(&self, generating: bool, error: Option<String>) -> (action: RunAction)
        ensures
            action@ == title_event(self@, generating, opt_view(error)),
    {
        RunAction::Emit(
            FrontendEvent::TitleGenerating(
                TitleGeneratingPayload {
                    conversation_id: self.conversation_id.clone(),
                    generating,
                    error,
                },
            ),
        )
    }

    /// The record of a tool call, where there is one.
    fn execution(&self, tool_use_id: &str) -> (id: Option<String>)
        ensures
            id is Some <==> self@.executions.contains_key(tool_use_id@),
            id is Some ==> id->0@ == self@.executions[tool_use_id@],
    {
        match self.executions.get(tool_use_id) {
            Some(id) => Some(id.clone()),
            None => None,
        }
    }

    /// Adds the action that stores what the message shows so far.
    fn push_update(&self, actions: &mut Vec<RunAction>)
        requires
            self.wf(),
        ensures
            views(final(actions)@) == views(old(actions)@) + update_actions(self@),
    {
        match &self.message_id {
            Some(id) => {
                actions.push(
                    RunAction::UpdateMessage {
                        id: id.clone(),
                        content: self.transcript.text().to_owned(),
                    },
                );
            },
            None => {},
        }
        assert(views(actions@) =~= views(old(actions)@) + update_actions(self@));
    }

    /// Adds the action that asks for the record of a tool call.
    fn push_request(&mut self, tools: Vec<ToolUse>, next: usize, actions: &mut Vec<RunAction>)
        requires
            old(self).wf(),
            next < tools.len(),
        ensures
            final(self).wf(),
            final(self)@ == request_tool(old(self)@, views(tools@), next as int).0,
            views(final(actions)@) == views(old(actions)@) + request_tool(
                old(self)@,
                views(tools@),
                next as int,
            ).1,
    {
        actions.push(
            RunAction::CreateToolExecution {
                message_id: copy_text(&self.message_id),
                tool_name: tools[next].name.clone(),
                input_preview: input_preview(&tools[next].input, PREVIEW_BYTES),
            },
        );
        self.phase = Phase::SavingTool { tools, next };
        assert(views(actions@) =~= views(old(actions)@) + request_tool(
            old(self)@,
            views(tools@),
            next as int,
        ).1);
    }

    /// Turns to the tool calls of a message.
    fn push_tools(&mut self, tools: Vec<ToolUse>, actions: &mut Vec<RunAction>)
        requires
            old(self).wf(),
        ensures
            final(self).wf(),
            final(self)@ == start_tools(old(self)@, views(tools@)).0,
            views(final(actions)@) == views(old(actions)@) + start_tools(
                old(self)@,
                views(tools@),
            ).1,
    {
        if tools.len() == 0 {
            self.phase = Phase::Listening;
            assert(views(actions@) =~= views(old(actions)@) + Seq::<ActionView>::empty());
        } else {
            self.push_request(tools, 0, actions);
        }
    }

    /// A whole message of the assistant.
    fn take_assistant(&mut self, blocks: Vec<Block>) -> (actions: Vec<RunAction>)
        requires
            old(self).wf(),
            old(self)@.phase is Listening,
        ensures
            final(self).wf(),
            (final(self)@, views(actions@)) == on_assistant(old(self)@, views(blocks@)),
    {
        let ghost s = self@;
        let ghost all = views(blocks@);
        let mut actions: Vec<RunAction> = Vec::new();
        let mut tools: Vec<ToolUse> = Vec::new();
        let mut i: usize = 0;
        assert(all.take(0) =~= Seq::empty());
        assert(s.pieces + Seq::<Piece>::empty() =~= s.pieces);
        while i < blocks.len()
            invariant
                i <= blocks.len(),
                all == views(blocks@),
                self.wf(),
                self@ == (RunView {
                    pieces: if s.streamed {
                        s.pieces
                    } else {
                        s.pieces + block_pieces(all.take(i as int))
                    },
                    ..s
                }),
                views(actions@) =~= (if s.streamed {
                    Seq::empty()
                } else {
                    block_events(s, all.take(i as int))
                }),
                views(tools@) =~= block_tools(all.take(i as int)),
            decreases blocks.len() - i,
        {
            let ghost done = all.take(i as int);
            let ghost more = all.take(i + 1);
            proof {
                assert(more.drop_last() =~= done);
                assert(more.last() == blocks@[i as int]@);
            }
            match &blocks[i] {
                Block::Thinking(text) => {
                    if !self.streamed {
                        self.transcript.push_thinking(text.as_str());
                        actions.push(self.emit_thinking(text.clone()));
                        assert(s.pieces + block_pieces(more) =~= (s.pieces + block_pieces(
                            done,
                        )).push(Piece::Thought(text@)));
                    }
                },
                Block::Text(text) => {
                    if !self.streamed {
                        self.transcript.push_text(text.as_str());
                        actions.push(self.emit_text(text.clone()));
                        assert(s.pieces + block_pieces(more) =~= (s.pieces + block_pieces(
                            done,
                        )).push(Piece::Plain(text@)));
                    }
                },
                Block::ToolUse(tool) => {
                    tools.push(
                        ToolUse {
                            id: tool.id.clone(),
                            name: tool.name.clone(),
                            input: tool.input.clone(),
                        },
                    );
                },
                Block::Other => {},
            }
            i = i + 1;
        }
        assert(all.take(blocks.len() as int) =~= all);
        self.streamed = false;
        if self.message_id.is_none() {
            actions.push(
                RunAction::CreateMessage {
                    parent_id: self.user_message_id.clone(),
                    created_at: Some(self.created_at),
                    content: self.transcript.text().to_owned(),
                },
            );
            self.phase = Phase::SavingMessage(Cause::Assistant(tools));
        } else {
            self.push_update(&mut actions);
            self.push_tools(tools, &mut actions);
        }
        assert(views(actions@) =~= on_assistant(s, all).1);
        actions
    }

    /// What follows the streamed piece that has just been added.
    fn after_delta(&mut self, cause: Cause) -> (actions: Vec<RunAction>)
        requires
            old(self).wf(),
            old(self)@.phase is Listening,
            old(self)@.streamed,
            cause is Assistant ==> false,
        ensures
            final(self).wf(),
            ({
                let s = old(self)@;
                let event = match cause@ {
                    CauseView::Thinking(text) => thinking_event(s, text),
                    CauseView::Text(text) => text_event(s, text),
                    CauseView::Assistant(_) => arbitrary(),
                };
                if s.message_id is None {
                    &&& final(self)@ == waiting(s, PhaseView::SavingMessage(cause@))
                    &&& views(actions@) == seq![create_action(s)]
                } else {
                    &&& final(self)@ == s
                    &&& views(actions@) == update_actions(s).push(event)
                }
            }),
    {
        let mut actions: Vec<RunAction> = Vec::new();
        assert(views(actions@) =~= Seq::empty());
        if self.message_id.is_none() {
            actions.push(
                RunAction::CreateMessage {
                    parent_id: self.user_message_id.clone(),
                    created_at: Some(self.created_at),
                    content: self.transcript.text().to_owned(),
                },
            );
            self.phase = Phase::SavingMessage(cause);
            assert(views(actions@) =~= seq![create_action(old(self)@)]);
        } else {
            self.push_update(&mut actions);
            match cause {
                Cause::Thinking(text) => actions.push(self.emit_thinking(text)),
                Cause::Text(text) => actions.push(self.emit_text(text)),
                Cause::Assistant(_) => {},
            }
        }
        actions
    }

    /// What follows the creation of the assistant message.
    fn take_message_id(&mut self, cause: Cause, id: Option<String>) -> (actions: Vec<RunAction>)
        requires
            old(self).transcript.wf(),
            run_inv(waiting(old(self)@, PhaseView::Listening)),
        ensures
            final(self).wf(),
            (final(self)@, views(actions@)) == on_message_saved(old(self)@, cause@, opt_view(id)),
    {
        let ghost s = self@;
        let mut actions: Vec<RunAction> = Vec::new();
        match &id {
            Some(id) => {
                actions.push(RunAction::PublishMessageId(id.clone()));
                actions.push(
                    RunAction::Emit(
                        FrontendEvent::MessageId(
                            AgentMessageIdPayload {
                                conversation_id: self.conversation_id.clone(),
                                assistant_message_id: id.clone(),
                            },
                        ),
                    ),
                );
                actions.push(RunAction::CountMessage);
            },
            None => {},
        }
        self.message_id = id;
        self.phase = Phase::Listening;
        let ghost known = RunView { message_id: opt_view(id), phase: PhaseView::Listening, ..s };
        let ghost news = match opt_view(id) {
            Some(id) => seq![
                ActionView::PublishMessageId(id),
                ActionView::Emit(
                    EventView::MessageId {
                        conversation_id: s.conversation_id,
                        assistant_message_id: id,
                    },
                ),
                ActionView::CountMessage,
            ],
            None => Seq::empty(),
        };
        assert(self@ == known);
        assert(views(actions@) =~= news);
        match cause {
            Cause::Assistant(tools) => self.push_tools(tools, &mut actions),
            Cause::Thinking(text) => {
                self.push_update(&mut actions);
                let ghost before = views(actions@);
                actions.push(self.emit_thinking(text));
                assert(views(actions@) =~= before.push(thinking_event(known, text@)));
                assert(before.push(thinking_event(known, text@)) =~= news + update_actions(known).push(
                    thinking_event(known, text@),
                ));
            },
            Cause::Text(text) => {
                self.push_update(&mut actions);
                let ghost before = views(actions@);
                actions.push(self.emit_text(text));
                assert(views(actions@) =~= before.push(text_event(known, text@)));
                assert(before.push(text_event(known, text@)) =~= news + update_actions(known).push(
                    text_event(known, text@),
                ));
            },
        }
        actions
    }

    /// What follows the record of a tool call.
    fn take_execution(
        &mut self,
        tools: Vec<ToolUse>,
        at: usize,
        execution_id: Option<String>,
    ) -> (actions: Vec<RunAction>)
        requires
            old(self).transcript.wf(),
            run_inv(waiting(old(self)@, PhaseView::Listening)),
            at < tools.len(),
        ensures
            final(self).wf(),
            (final(self)@, views(actions@)) == on_tool_saved(
                waiting(
                    old(self)@,
                    PhaseView::SavingTool { tools: views(tools@), next: at as int },
                ),
                views(tools@),
                at as int,
                opt_view(execution_id),
            ),
    {
        let ghost s = waiting(
            self@,
            PhaseView::SavingTool { tools: views(tools@), next: at as int },
        );
        let ghost expected = on_tool_saved(s, views(tools@), at as int, opt_view(execution_id));
        let mut actions: Vec<RunAction> = Vec::new();
        self.phase = Phase::Listening;
        let tool = &tools[at];
        match &execution_id {
            Some(id) => {
                let ghost before = self.executions@;
                self.executions.insert(tool.id.clone(), id.clone());
                assert(self.executions@.map_values(|id: String| id@) =~= before.map_values(
                    |id: String| id@,
                ).insert(tool.id@, id@));
            },
            None => {},
        }
        let tag: &str = match &execution_id {
            Some(id) => id.as_str(),
            None => tool.id.as_str(),
        };
        let summary = get_tool_input_summary(tool.name.as_str(), &tool.input);
        let mut marker = "\n\n<tool-call data-aqbot=\"1\" id=\"".to_owned();
        marker.append(tag);
        marker.append("\" name=\"");
        marker.append(tool.name.as_str());
        marker.append("\">");
        marker.append(summary.as_str());
        marker.append("</tool-call>\n\n");
        self.transcript.push_text(marker.as_str());
        actions.push(self.emit_text(marker));
        actions.push(
            RunAction::Emit(
                FrontendEvent::ToolUse(
                    AgentToolUsePayload {
                        conversation_id: self.conversation_id.clone(),
                        assistant_message_id: copy_or_empty(&self.message_id),
                        tool_use_id: tool.id.clone(),
                        tool_name: tool.name.clone(),
                        input: tool.input.clone(),
                        execution_id,
                    },
                ),
            ),
        );
        if at + 1 < tools.len() {
            self.push_request(tools, at + 1, &mut actions);
        } else {
            self.push_update(&mut actions);
        }
        assert(views(actions@) =~= expected.1);
        actions
    }

    /// Ends the turn with an error.
    fn fail(&mut self, message: &str, actions: &mut Vec<RunAction>)
        requires
            old(self).wf(),
        ensures
            final(self).wf(),
            final(self)@ == failed(old(self)@, message@).0,
            views(final(actions)@) == views(old(actions)@) + failed(old(self)@, message@).1,
    {
        actions.push(self.emit_error(message.to_owned()));
        actions.push(RunAction::SetIdle);
        self.phase = Phase::Ended;
        assert(views(actions@) =~= views(old(actions)@) + failed(old(self)@, message@).1);
    }

    /// The action that stores the agent's context and usage.
    fn session_action(&self) -> (action: RunAction)
        requires
            run_inv(self@),
            self@.outcome is Some,
        ensures
            action@ == save_session(self@.outcome->0),
    {
        match &self.outcome {
            Some(outcome) => RunAction::SaveSession {
                tokens: to_i32(outcome.usage.input_tokens + outcome.usage.output_tokens),
                cost: outcome.cost,
            },
            None => RunAction::SetIdle,
        }
    }

    /// Reports the result.
    fn push_wrap_up(&mut self, content: String, actions: &mut Vec<RunAction>)
        requires
            old(self).transcript.wf(),
            run_inv(waiting(old(self)@, PhaseView::Listening)),
            old(self)@.outcome is Some,
        ensures
            final(self).wf(),
            final(self)@ == wrap_up(old(self)@, old(self)@.outcome->0, content@).0,
            views(final(actions)@) == views(old(actions)@) + wrap_up(
                old(self)@,
                old(self)@.outcome->0,
                content@,
            ).1,
    {
        let ghost s = self@;
        let ghost expected = wrap_up(s, s.outcome->0, content@);
        self.phase = Phase::Listening;
        if let Some(outcome) = &self.outcome {
            match &self.message_id {
                Some(id) => {
                    actions.push(
                        RunAction::RecordUsage {
                            id: id.clone(),
                            input_tokens: to_i64(outcome.usage.input_tokens),
                            output_tokens: to_i64(outcome.usage.output_tokens),
                        },
                    );
                },
                None => {},
            }
            actions.push(
                RunAction::Emit(
                    FrontendEvent::Done(
                        AgentDonePayload {
                            conversation_id: self.conversation_id.clone(),
                            assistant_message_id: copy_or_empty(&self.message_id),
                            text: content,
                            thinking: self.transcript.thinking(),
                            model: Some(self.model_id.clone()),
                            session_id: None,
                            usage: Some(outcome.usage),
                            num_turns: Some(outcome.num_turns),
                            cost_usd: Some(outcome.cost),
                        },
                    ),
                ),
            );
            if self.first_message {
                actions.push(self.emit_title(true, None));
                actions.push(RunAction::GenerateTitle { result: outcome.text.clone() });
                self.phase = Phase::Titling;
            } else {
                actions.push(self.session_action());
                self.phase = Phase::Ended;
            }
        }
        assert(views(actions@) =~= views(old(actions)@) + expected.1);
    }

    /// No more messages of the agent come.
    fn take_closed(&mut self, crashed: bool) -> (actions: Vec<RunAction>)
        requires
            old(self).wf(),
            old(self)@.phase is Listening,
        ensures
            final(self).wf(),
            (final(self)@, views(actions@)) == on_closed(old(self)@, crashed),
    {
        let ghost s = self@;
        let mut actions: Vec<RunAction> = Vec::new();
        let content = match &self.outcome {
            Some(outcome) => self.transcript.finish(outcome.text.as_str()),
            None => {
                if crashed {
                    self.fail("Agent task crashed unexpectedly", &mut actions);
                } else {
                    self.fail(
                        "Agent ended unexpectedly without producing a result",
                        &mut actions,
                    );
                }
                assert(views(actions@) =~= on_closed(s, crashed).1);
                return actions;
            },
        };
        if content.as_str().is_empty() {
            self.push_wrap_up(content, &mut actions);
        } else {
            match &self.message_id {
                Some(id) => {
                    actions.push(
                        RunAction::UpdateMessage { id: id.clone(), content: content.clone() },
                    );
                    self.push_wrap_up(content, &mut actions);
                },
                None => {
                    actions.push(
                        RunAction::CreateMessage {
                            parent_id: self.user_message_id.clone(),
                            created_at: None,
                            content: content.clone(),
                        },
                    );
                    self.phase = Phase::SavingFinal { content };
                },
            }
        }
        assert(views(actions@) =~= on_closed(s, crashed).1);
        actions
    }

    /// What a message of the agent does to a turn that listens.
    fn take_message(&mut self, input: RunInput) -> (actions: Vec<RunAction>)
        requires
            old(self).wf(),
            old(self)@.phase is Listening,
            input_in_range(input@),
        ensures
            final(self).wf(),
            (final(self)@, views(actions@)) == on_message(old(self)@, input@),
    {
        let ghost s = self@;
        let mut actions: Vec<RunAction> = Vec::new();
        match input {
            RunInput::Assistant(blocks) => return self.take_assistant(blocks),
            RunInput::ToolStart { tool_use_id, tool_name, input } => {
                let execution = self.execution(tool_use_id.as_str());
                actions.push(
                    RunAction::Emit(
                        FrontendEvent::ToolStart(
                            AgentToolStartPayload {
                                conversation_id: self.conversation_id.clone(),
                                assistant_message_id: copy_or_empty(&self.message_id),
                                tool_use_id,
                                tool_name,
                                input,
                            },
                        ),
                    ),
                );
                if let Some(execution_id) = execution {
                    actions.push(
                        RunAction::SetToolStatus {
                            execution_id,
                            status: ToolStatus::Running,
                            output: None,
                            error: None,
                        },
                    );
                }
            },
            RunInput::ToolResult { tool_use_id, tool_name, content, is_error } => {
                let execution = self.execution(tool_use_id.as_str());
                actions.push(
                    RunAction::Emit(
                        FrontendEvent::ToolResult(
                            AgentToolResultPayload {
                                conversation_id: self.conversation_id.clone(),
                                assistant_message_id: copy_or_empty(&self.message_id),
                                tool_use_id,
                                tool_name,
                                content: content.clone(),
                                is_error,
                            },
                        ),
                    ),
                );
                if let Some(execution_id) = execution {
                    let output = truncate_preview(content.as_str(), PREVIEW_BYTES);
                    actions.push(
                        RunAction::SetToolStatus {
                            execution_id,
                            status: if is_error {
                                ToolStatus::Failed
                            } else {
                                ToolStatus::Success
                            },
                            output: Some(output),
                            error: if is_error {
                                Some(content)
                            } else {
                                None
                            },
                        },
                    );
                }
            },
            RunInput::PermissionRequest { tool_use_id, tool_name, input } => {
                let execution = self.execution(tool_use_id.as_str());
                actions.push(
                    RunAction::Emit(
                        FrontendEvent::PermissionRequest(
                            AgentPermissionRequestPayload {
                                conversation_id: self.conversation_id.clone(),
                                assistant_message_id: copy_or_empty(&self.message_id),
                                tool_use_id,
                                tool_name,
                                input,
                                risk_level: "execute".to_owned(),
                            },
                        ),
                    ),
                );
                if let Some(execution_id) = execution {
                    actions.push(RunAction::SetToolPending { execution_id });
                }
            },
            RunInput::Status(message) => {
                actions.push(
                    RunAction::Emit(
                        FrontendEvent::Status(
                            AgentStatusPayload {
                                conversation_id: self.conversation_id.clone(),
                                message,
                            },
                        ),
                    ),
                );
            },
            RunInput::RateLimit { retry_after_ms, message } => {
                actions.push(
                    RunAction::Emit(
                        FrontendEvent::RateLimit(
                            AgentRateLimitPayload {
                                conversation_id: self.conversation_id.clone(),
                                retry_after_ms,
                                message,
                            },
                        ),
                    ),
                );
            },
            RunInput::Result { text, usage, num_turns, cost } => {
                self.outcome = Some(Outcome { text, usage, num_turns, cost });
            },
            RunInput::Error(message) => {
                if contains_text(message.as_str(), "reasoning_content") && contains_text(
                    message.as_str(),
                    "thinking mode",
                ) {
                    actions.push(RunAction::ClearContext);
                }
                self.fail(message.as_str(), &mut actions);
            },
            RunInput::ThinkingDelta(thinking) => {
                self.streamed = true;
                self.transcript.push_thinking(thinking.as_str());
                return self.after_delta(Cause::Thinking(thinking));
            },
            RunInput::TextDelta(text) => {
                self.streamed = true;
                self.transcript.push_text(text.as_str());
                return self.after_delta(Cause::Text(text));
            },
            RunInput::Closed { crashed } => return self.take_closed(crashed),
            _ => {},
        }
        assert(views(actions@) =~= on_message(s, input@).1);
        actions
    }

    /// Takes the next message of the agent, or the answer to the last action, and says what
    /// to do.
    pub fn step(&mut self, input: RunInput) -> (actions: Vec<RunAction>)
        requires
            old(self).wf(),
            input_in_range(input@),
        ensures
            final(self).wf(),
            run_inv(final(self)@),
            (final(self)@, views(actions@)) == run_step(old(self)@, input@),
    {
        let ghost s = self@;
        if let Phase::Listening = &self.phase {
            return self.take_message(input);
        }
        let mut phase = Phase::Ended;
        core::mem::swap(&mut self.phase, &mut phase);
        let mut actions: Vec<RunAction> = Vec::new();
        match (phase, input) {
            (Phase::SavingMessage(cause), RunInput::MessageSaved(id)) => {
                return self.take_message_id(cause, id);
            },
            (Phase::SavingTool { tools, next }, RunInput::ToolExecutionSaved(id)) => {
                return self.take_execution(tools, next, id);
            },
            (Phase::SavingFinal { content }, RunInput::MessageSaved(id)) => {
                if id.is_some() {
                    self.message_id = id;
                    actions.push(RunAction::CountMessage);
                }
                self.push_wrap_up(content, &mut actions);
            },
            (Phase::Titling, RunInput::TitleGenerated(title)) => {
                match title {
                    Ok(title) => {
                        actions.push(RunAction::SaveTitle { title: title.clone() });
                        self.phase = Phase::SavingTitle { title };
                    },
                    Err(error) => {
                        actions.push(self.emit_title(false, Some(error)));
                        actions.push(self.session_action());
                    },
                }
            },
            (Phase::SavingTitle { title }, RunInput::TitleSaved(error)) => {
                match error {
                    Some(error) => {
                        let mut message = "Failed to save title: ".to_owned();
                        message.append(error.as_str());
                        actions.push(self.emit_title(false, Some(message)));
                    },
                    None => {
                        actions.push(
                            RunAction::Emit(
                                FrontendEvent::TitleUpdated(
                                    TitleUpdatedPayload {
                                        conversation_id: self.conversation_id.clone(),
                                        title,
                                    },
                                ),
                            ),
                        );
                        actions.push(self.emit_title(false, None));
                    },
                }
                actions.push(self.session_action());
            },
            (phase, _) => {
                self.phase = phase;
            },
        }
        assert(views(actions@) =~= run_step(s, input@).1);
        actions
    }
}

} // verus!
