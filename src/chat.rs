//! One chat turn: the user's message is recorded, the trip's plan is read
//! from its actor, and the generation service answers with the trip's plan
//! and the conversation so far as context.
//!
//! Whether the trip had messages is checked before the user's message is
//! appended, so a turn on a trip without messages is a first turn. On a
//! first turn the reply is returned but not recorded; on every later turn
//! it is appended under the assistant role before it is returned.
use vstd::prelude::*;
use crate::log::{Message, Role};
use crate::trip::TripDefinition;

verus! {

/// Where a chat turn stands.
#[derive(Clone, Copy, Debug, PartialEq, Eq, Structural)]
pub enum ChatStage {
    CheckingHistory,
    AppendingUser,
    ReadingTrip,
    ListingHistory,
    Generating,
    AppendingReply,
    Done,
    Failed,
}

/// Why a chat turn stopped.
#[derive(Clone, Copy, Debug, PartialEq, Eq, Structural)]
pub enum ChatError {
    /// The message is empty.
    EmptyMessage,
    /// The log store or the actor could not be reached.
    Persistence,
    /// The trip's actor holds no definition.
    TripNotFound,
    /// The generation service gave no reply.
    Generation,
}

/// How the outside work that the last action asked for went.
pub enum ChatEvent {
    /// Whether the trip had any message.
    HistoryChecked(bool),
    /// What the trip's actor read returned.
    TripRead(Option<TripDefinition>),
    /// The trip's messages, in order.
    MessagesListed(Vec<Message>),
    /// The generated reply.
    Generated(String),
    /// The append asked for succeeded.
    Succeeded,
    /// The work asked for failed.
    Failed,
}

/// What the caller is to do next.
pub enum ChatAction {
    /// Ask the log store whether the trip has any message.
    CheckHistory(String),
    /// Append a message to the trip's log.
    AppendMessage { trip_id: String, text: String, role: Role },
    /// Read the trip's definition from its actor.
    ReadTrip(String),
    /// List the trip's messages.
    ListMessages(String),
    /// Ask the generation service for a reply; `history` is `None` where
    /// the trip had no message, for an empty history.
    Generate { context: String, history: Option<Vec<Message>>, input: String },
    /// Hand the reply to the caller.
    Reply(String),
    /// Stop with this error; what earlier steps wrote stays.
    Fail(ChatError),
}

pub struct ChatTurn {
    pub trip_id: String,
    pub message: String,
    /// Whether the trip had messages before this turn.
    pub prior: bool,
    pub plan: String,
    pub reply: String,
    pub stage: ChatStage,
}

/// Whether `r` is a turn just started on `trip_id` with `message`, with its
/// first action.
pub open spec fn chat_started(r: (ChatTurn, ChatAction), trip_id: String, message: String) -> bool {
    &&& r.0.trip_id == trip_id
    &&& r.0.message == message
    &&& r.0.plan@.len() == 0
    &&& r.0.reply@.len() == 0
    &&& r.0.stage == ChatStage::CheckingHistory
    &&& r.1 == ChatAction::CheckHistory(trip_id)
}

/// Whether a turn at `stage` takes `ev`.
pub open spec fn chat_accepts(stage: ChatStage, ev: ChatEvent) -> bool {
    match stage {
        ChatStage::CheckingHistory => ev is HistoryChecked || ev is Failed,
        ChatStage::AppendingUser | ChatStage::AppendingReply => ev is Succeeded || ev is Failed,
        ChatStage::ReadingTrip => ev is TripRead || ev is Failed,
        ChatStage::ListingHistory => ev is MessagesListed || ev is Failed,
        ChatStage::Generating => ev is Generated || ev is Failed,
        _ => false,
    }
}

pub open spec fn chat_failed(t: ChatTurn, e: ChatError) -> (ChatTurn, ChatAction) {
    (ChatTurn { stage: ChatStage::Failed, ..t }, ChatAction::Fail(e))
}

/// One step of the turn: the next state and action after `ev`.
pub open spec fn chat_next(t: ChatTurn, ev: ChatEvent) -> (ChatTurn, ChatAction) {
    match t.stage {
        ChatStage::CheckingHistory => match ev {
            ChatEvent::HistoryChecked(p) => (
                ChatTurn { prior: p, stage: ChatStage::AppendingUser, ..t },
                ChatAction::AppendMessage { trip_id: t.trip_id, text: t.message, role: Role::User },
            ),
            _ => chat_failed(t, ChatError::Persistence),
        },
        ChatStage::AppendingUser => match ev {
            ChatEvent::Succeeded => (
                ChatTurn { stage: ChatStage::ReadingTrip, ..t },
                ChatAction::ReadTrip(t.trip_id),
            ),
            _ => chat_failed(t, ChatError::Persistence),
        },
        ChatStage::ReadingTrip => match ev {
            ChatEvent::TripRead(Some(def)) => if t.prior {
                (
                    ChatTurn { plan: def.plan, stage: ChatStage::ListingHistory, ..t },
                    ChatAction::ListMessages(t.trip_id),
                )
            } else {
                (
                    ChatTurn { plan: def.plan, stage: ChatStage::Generating, ..t },
                    ChatAction::Generate { context: def.plan, history: None, input: t.message },
                )
            },
            ChatEvent::TripRead(None) => chat_failed(t, ChatError::TripNotFound),
            _ => chat_failed(t, ChatError::Persistence),
        },
        ChatStage::ListingHistory => match ev {
            ChatEvent::MessagesListed(h) => (
                ChatTurn { stage: ChatStage::Generating, ..t },
                ChatAction::Generate { context: t.plan, history: Some(h), input: t.message },
            ),
            _ => chat_failed(t, ChatError::Persistence),
        },
        ChatStage::Generating => match ev {
            ChatEvent::Generated(reply) => if t.prior {
                (
                    ChatTurn { reply, stage: ChatStage::AppendingReply, ..t },
                    ChatAction::AppendMessage {
                        trip_id: t.trip_id,
                        text: reply,
                        role: Role::Assistant,
                    },
                )
            } else {
                (ChatTurn { reply, stage: ChatStage::Done, ..t }, ChatAction::Reply(reply))
            },
            _ => chat_failed(t, ChatError::Generation),
        },
        _ => match ev {
            ChatEvent::Succeeded => (
                ChatTurn { stage: ChatStage::Done, ..t },
                ChatAction::Reply(t.reply),
            ),
            _ => chat_failed(t, ChatError::Persistence),
        },
    }
}

/// The turn run from `t` on `evs`, as far as the events are taken: the
/// state reached and the actions named on the way.
pub open spec fn chat_run(t: ChatTurn, evs: Seq<ChatEvent>) -> (ChatTurn, Seq<ChatAction>)
    decreases evs.len(),
{
    if evs.len() == 0 || !chat_accepts(t.stage, evs[0]) {
        (t, Seq::empty())
    } else {
        let (u, a) = chat_next(t, evs[0]);
        let (v, rest) = chat_run(u, evs.drop_first());
        (v, seq![a] + rest)
    }
}

/// The messages that `acts` append, in order: text and role.
pub open spec fn appended_by(acts: Seq<ChatAction>) -> Seq<(Seq<char>, Role)>
    decreases acts.len(),
{
    if acts.len() == 0 {
        Seq::empty()
    } else {
        let init = appended_by(acts.drop_last());
        match acts.last() {
            ChatAction::AppendMessage { text, role, .. } => init.push((text@, role)),
            _ => init,
        }
    }
}

/// A log's messages as text and role.
pub open spec fn log_view(log: Seq<Message>) -> Seq<(Seq<char>, Role)> {
    log.map_values(|m: Message| (m.text@, m.role))
}

/// The log, as text and role, after the appends that `acts` ask for.
pub open spec fn log_after(log: Seq<Message>, acts: Seq<ChatAction>) -> Seq<(Seq<char>, Role)> {
    log_view(log) + appended_by(acts)
}

proof fn lemma_appended_by_push(acts: Seq<ChatAction>, a: ChatAction)
    ensures
        appended_by(acts.push(a)) == match a {
            ChatAction::AppendMessage { text, role, .. } => appended_by(acts).push((text@, role)),
            _ => appended_by(acts),
        },
{
    assert(acts.push(a).drop_last() =~= acts);
}

/// A first turn on a trip without messages appends the user's message and
/// nothing else: the generated reply is returned, not recorded, so the log
/// gains exactly that one message.
pub proof fn lemma_first_turn_keeps_reply_out(
    r0: (ChatTurn, ChatAction),
    trip_id: String,
    message: String,
    def: TripDefinition,
    reply: String,
    log: Seq<Message>,
)
    requires
        chat_started(r0, trip_id, message),
    ensures
        ({
            let evs = seq![
                ChatEvent::HistoryChecked(false),
                ChatEvent::Succeeded,
                ChatEvent::TripRead(Some(def)),
                ChatEvent::Generated(reply),
            ];
            let (t, acts) = chat_run(r0.0, evs);
            &&& t.stage == ChatStage::Done
            &&& acts.last() == ChatAction::Reply(reply)
            &&& acts[2] == (ChatAction::Generate {
                context: def.plan,
                history: None,
                input: message,
            })
            &&& appended_by(seq![r0.1] + acts) == seq![(message@, Role::User)]
            &&& log_after(log, seq![r0.1] + acts) == log_view(log).push((message@, Role::User))
        }),
{
    let e1 = ChatEvent::HistoryChecked(false);
    let e2 = ChatEvent::Succeeded;
    let e3 = ChatEvent::TripRead(Some(def));
    let e4 = ChatEvent::Generated(reply);
    let evs = seq![e1, e2, e3, e4];
    let (t1, a1) = chat_next(r0.0, e1);
    let (t2, a2) = chat_next(t1, e2);
    let (t3, a3) = chat_next(t2, e3);
    let (t4, a4) = chat_next(t3, e4);
    assert(evs.drop_first() =~= seq![e2, e3, e4]);
    assert(seq![e2, e3, e4].drop_first() =~= seq![e3, e4]);
    assert(seq![e3, e4].drop_first() =~= seq![e4]);
    assert(seq![e4].drop_first() =~= Seq::<ChatEvent>::empty());
    assert(chat_run(t4, Seq::<ChatEvent>::empty()) == (t4, Seq::<ChatAction>::empty()));
    assert(chat_run(t3, seq![e4]) == (t4, seq![a4])) by {
        assert(seq![a4] + Seq::<ChatAction>::empty() =~= seq![a4]);
    }
    assert(chat_run(t2, seq![e3, e4]) == (t4, seq![a3, a4])) by {
        assert(seq![a3] + seq![a4] =~= seq![a3, a4]);
    }
    assert(chat_run(t1, seq![e2, e3, e4]) == (t4, seq![a2, a3, a4])) by {
        assert(seq![a2] + seq![a3, a4] =~= seq![a2, a3, a4]);
    }
    assert(chat_run(r0.0, evs) == (t4, seq![a1, a2, a3, a4])) by {
        assert(seq![a1] + seq![a2, a3, a4] =~= seq![a1, a2, a3, a4]);
    }
    let acts = seq![a1, a2, a3, a4];
    assert(seq![r0.1] + acts =~= seq![r0.1].push(a1).push(a2).push(a3).push(a4));
    assert(appended_by(Seq::<ChatAction>::empty().push(r0.1)) == Seq::<(Seq<char>, Role)>::empty()) by {
        lemma_appended_by_push(Seq::<ChatAction>::empty(), r0.1);
    }
    assert(seq![r0.1] =~= Seq::<ChatAction>::empty().push(r0.1));
    lemma_appended_by_push(seq![r0.1], a1);
    lemma_appended_by_push(seq![r0.1].push(a1), a2);
    lemma_appended_by_push(seq![r0.1].push(a1).push(a2), a3);
    lemma_appended_by_push(seq![r0.1].push(a1).push(a2).push(a3), a4);
    assert(Seq::<(Seq<char>, Role)>::empty().push((message@, Role::User)) =~= seq![
        (message@, Role::User),
    ]);
    assert(log_view(log) + seq![(message@, Role::User)] =~= log_view(log).push(
        (message@, Role::User),
    ));
}

/// A turn on a trip that already has messages appends exactly two: the
/// user's message, then the reply under the assistant role: the log after
/// the turn is the log before it followed by those two, in that order, so a
/// log of `n` messages holds `n + 2`.
pub proof fn lemma_later_turn_appends_two(
    r0: (ChatTurn, ChatAction),
    trip_id: String,
    message: String,
    def: TripDefinition,
    history: Vec<Message>,
    reply: String,
    log: Seq<Message>,
)
    requires
        chat_started(r0, trip_id, message),
    ensures
        ({
            let evs = seq![
                ChatEvent::HistoryChecked(true),
                ChatEvent::Succeeded,
                ChatEvent::TripRead(Some(def)),
                ChatEvent::MessagesListed(history),
                ChatEvent::Generated(reply),
                ChatEvent::Succeeded,
            ];
            let (t, acts) = chat_run(r0.0, evs);
            let added = appended_by(seq![r0.1] + acts);
            &&& t.stage == ChatStage::Done
            &&& acts.last() == ChatAction::Reply(reply)
            &&& added == seq![(message@, Role::User), (reply@, Role::Assistant)]
            &&& log_after(log, seq![r0.1] + acts) == log_view(log).push((message@, Role::User)).push(
                (reply@, Role::Assistant),
            )
            &&& log_after(log, seq![r0.1] + acts).len() == log.len() + 2
        }),
{
    let e1 = ChatEvent::HistoryChecked(true);
    let e2 = ChatEvent::Succeeded;
    let e3 = ChatEvent::TripRead(Some(def));
    let e4 = ChatEvent::MessagesListed(history);
    let e5 = ChatEvent::Generated(reply);
    let e6 = ChatEvent::Succeeded;
    let evs = seq![e1, e2, e3, e4, e5, e6];
    let (t1, a1) = chat_next(r0.0, e1);
    let (t2, a2) = chat_next(t1, e2);
    let (t3, a3) = chat_next(t2, e3);
    let (t4, a4) = chat_next(t3, e4);
    let (t5, a5) = chat_next(t4, e5);
    let (t6, a6) = chat_next(t5, e6);
    assert(evs.drop_first() =~= seq![e2, e3, e4, e5, e6]);
    assert(seq![e2, e3, e4, e5, e6].drop_first() =~= seq![e3, e4, e5, e6]);
    assert(seq![e3, e4, e5, e6].drop_first() =~= seq![e4, e5, e6]);
    assert(seq![e4, e5, e6].drop_first() =~= seq![e5, e6]);
    assert(seq![e5, e6].drop_first() =~= seq![e6]);
    assert(seq![e6].drop_first() =~= Seq::<ChatEvent>::empty());
    assert(chat_run(t6, Seq::<ChatEvent>::empty()) == (t6, Seq::<ChatAction>::empty()));
    assert(chat_run(t5, seq![e6]) == (t6, seq![a6])) by {
        assert(seq![a6] + Seq::<ChatAction>::empty() =~= seq![a6]);
    }
    assert(chat_run(t4, seq![e5, e6]) == (t6, seq![a5, a6])) by {
        assert(seq![a5] + seq![a6] =~= seq![a5, a6]);
    }
    assert(chat_run(t3, seq![e4, e5, e6]) == (t6, seq![a4, a5, a6])) by {
        assert(seq![a4] + seq![a5, a6] =~= seq![a4, a5, a6]);
    }
    assert(chat_run(t2, seq![e3, e4, e5, e6]) == (t6, seq![a3, a4, a5, a6])) by {
        assert(seq![a3] + seq![a4, a5, a6] =~= seq![a3, a4, a5, a6]);
    }
    assert(chat_run(t1, seq![e2, e3, e4, e5, e6]) == (t6, seq![a2, a3, a4, a5, a6])) by {
        assert(seq![a2] + seq![a3, a4, a5, a6] =~= seq![a2, a3, a4, a5, a6]);
    }
    assert(chat_run(r0.0, evs) == (t6, seq![a1, a2, a3, a4, a5, a6])) by {
        assert(seq![a1] + seq![a2, a3, a4, a5, a6] =~= seq![a1, a2, a3, a4, a5, a6]);
    }
    let acts = seq![a1, a2, a3, a4, a5, a6];
    let s0 = seq![r0.1];
    assert(s0 =~= Seq::<ChatAction>::empty().push(r0.1));
    assert(s0 + acts =~= s0.push(a1).push(a2).push(a3).push(a4).push(a5).push(a6));
    lemma_appended_by_push(Seq::<ChatAction>::empty(), r0.1);
    lemma_appended_by_push(s0, a1);
    lemma_appended_by_push(s0.push(a1), a2);
    lemma_appended_by_push(s0.push(a1).push(a2), a3);
    lemma_appended_by_push(s0.push(a1).push(a2).push(a3), a4);
    lemma_appended_by_push(s0.push(a1).push(a2).push(a3).push(a4), a5);
    lemma_appended_by_push(s0.push(a1).push(a2).push(a3).push(a4).push(a5), a6);
    assert(Seq::<(Seq<char>, Role)>::empty().push((message@, Role::User)).push(
        (reply@, Role::Assistant),
    ) =~= seq![(message@, Role::User), (reply@, Role::Assistant)]);
    assert(log_view(log) + seq![(message@, Role::User), (reply@, Role::Assistant)]
        =~= log_view(log).push((message@, Role::User)).push((reply@, Role::Assistant)));
}

impl ChatTurn {
    /// Starts a turn on `trip_id`; an empty message is refused.
    pub fn start(trip_id: String, message: String) -> (r: Result<(ChatTurn, ChatAction), ChatError>)
        ensures
            message@.len() == 0 <==> r is Err,
            r is Err ==> r == Err::<(ChatTurn, ChatAction), ChatError>(ChatError::EmptyMessage),
            r is Ok ==> chat_started(r->Ok_0, trip_id, message),
    {
        if message.as_str().unicode_len() == 0 {
            return Err(ChatError::EmptyMessage);
        }
        let id = trip_id.clone();
        Ok(
            (
                ChatTurn {
                    trip_id,
                    message,
                    prior: false,
                    plan: String::new(),
                    reply: String::new(),
                    stage: ChatStage::CheckingHistory,
                },
                ChatAction::CheckHistory(id),
            ),
        )
    }

    /// Whether the turn takes `ev` in its current stage.
    pub fn accepts(&self, ev: &ChatEvent) -> (r: bool)
        ensures
            r == chat_accepts(self.stage, *ev),
    {
        match (self.stage, ev) {
            (ChatStage::CheckingHistory, ChatEvent::HistoryChecked(_)) => true,
            (ChatStage::AppendingUser, ChatEvent::Succeeded) => true,
            (ChatStage::AppendingReply, ChatEvent::Succeeded) => true,
            (ChatStage::ReadingTrip, ChatEvent::TripRead(_)) => true,
            (ChatStage::ListingHistory, ChatEvent::MessagesListed(_)) => true,
            (ChatStage::Generating, ChatEvent::Generated(_)) => true,
            (ChatStage::Done, _) | (ChatStage::Failed, _) => false,
            (_, ChatEvent::Failed) => true,
            _ => false,
        }
    }

    /// Moves the turn on by `ev`.
    pub fn step(self, ev: ChatEvent) -> (r: (ChatTurn, ChatAction))
        requires
            chat_accepts(self.stage, ev),
        ensures
            r == chat_next(self, ev),
    {
        let ChatTurn { trip_id, message, prior, plan, reply, stage } = self;
        match stage {
            ChatStage::CheckingHistory => match ev {
                ChatEvent::HistoryChecked(p) => {
                    let action = ChatAction::AppendMessage {
                        trip_id: trip_id.clone(),
                        text: message.clone(),
                        role: Role::User,
                    };
                    (
                        ChatTurn { trip_id, message, prior: p, plan, reply, stage: ChatStage::AppendingUser },
                        action,
                    )
                },
                _ => (
                    ChatTurn { trip_id, message, prior, plan, reply, stage: ChatStage::Failed },
                    ChatAction::Fail(ChatError::Persistence),
                ),
            },
            ChatStage::AppendingUser => match ev {
                ChatEvent::Succeeded => {
                    let action = ChatAction::ReadTrip(trip_id.clone());
                    (
                        ChatTurn { trip_id, message, prior, plan, reply, stage: ChatStage::ReadingTrip },
                        action,
                    )
                },
                _ => (
                    ChatTurn { trip_id, message, prior, plan, reply, stage: ChatStage::Failed },
                    ChatAction::Fail(ChatError::Persistence),
                ),
            },
            ChatStage::ReadingTrip => match ev {
                ChatEvent::TripRead(Some(def)) => {
                    if prior {
                        let action = ChatAction::ListMessages(trip_id.clone());
                        (
                            ChatTurn {
                                trip_id,
                                message,
                                prior,
                                plan: def.plan,
                                reply,
                                stage: ChatStage::ListingHistory,
                            },
                            action,
                        )
                    } else {
                        let action = ChatAction::Generate {
                            context: def.plan.clone(),
                            history: None,
                            input: message.clone(),
                        };
                        (
                            ChatTurn {
                                trip_id,
                                message,
                                prior,
                                plan: def.plan,
                                reply,
                                stage: ChatStage::Generating,
                            },
                            action,
                        )
                    }
                },
                ChatEvent::TripRead(None) => (
                    ChatTurn { trip_id, message, prior, plan, reply, stage: ChatStage::Failed },
                    ChatAction::Fail(ChatError::TripNotFound),
                ),
                _ => (
                    ChatTurn { trip_id, message, prior, plan, reply, stage: ChatStage::Failed },
                    ChatAction::Fail(ChatError::Persistence),
                ),
            },
            ChatStage::ListingHistory => match ev {
                ChatEvent::MessagesListed(h) => {
                    let action = ChatAction::Generate {
                        context: plan.clone(),
                        history: Some(h),
                        input: message.clone(),
                    };
                    (
                        ChatTurn { trip_id, message, prior, plan, reply, stage: ChatStage::Generating },
                        action,
                    )
                },
                _ => (
                    ChatTurn { trip_id, message, prior, plan, reply, stage: ChatStage::Failed },
                    ChatAction::Fail(ChatError::Persistence),
                ),
            },
            ChatStage::Generating => match ev {
                ChatEvent::Generated(text) => {
                    if prior {
                        let action = ChatAction::AppendMessage {
                            trip_id: trip_id.clone(),
                            text: text.clone(),
                            role: Role::Assistant,
                        };
                        (
                            ChatTurn {
                                trip_id,
                                message,
                                prior,
                                plan,
                                reply: text,
                                stage: ChatStage::AppendingReply,
                            },
                            action,
                        )
                    } else {
                        let action = ChatAction::Reply(text.clone());
                        (
                            ChatTurn { trip_id, message, prior, plan, reply: text, stage: ChatStage::Done },
                            action,
                        )
                    }
                },
                _ => (
                    ChatTurn { trip_id, message, prior, plan, reply, stage: ChatStage::Failed },
                    ChatAction::Fail(ChatError::Generation),
                ),
            },
            _ => match ev {
                ChatEvent::Succeeded => {
                    let action = ChatAction::Reply(reply.clone());
                    (ChatTurn { trip_id, message, prior, plan, reply, stage: ChatStage::Done }, action)
                },
                _ => (
                    ChatTurn { trip_id, message, prior, plan, reply, stage: ChatStage::Failed },
                    ChatAction::Fail(ChatError::Persistence),
                ),
            },
        }
    }
}

} // verus!
