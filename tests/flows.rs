use trip_planner::chat::{ChatAction, ChatError, ChatEvent, ChatStage, ChatTurn};
use trip_planner::creation::{
    begin_creation, CreationAction, CreationError, CreationEvent, CreationFlow, CreationStage,
};
use trip_planner::log::{ConversationLog, Message, Role};
use trip_planner::validate::{Field, ValidationError};
use trip_planner::{TripDefinition, TripSession};

/// In-memory stand-ins for the actor and the log store of one trip, and a
/// generation service that numbers its replies.
struct World {
    session: TripSession,
    log: ConversationLog,
    trip_rows: Vec<(String, String, u32)>,
    plan_rows: Vec<(String, String, String)>,
    generated: Vec<(String, usize, String)>,
    clock: u32,
}

impl World {
    fn new() -> World {
        World {
            session: TripSession::new(),
            log: ConversationLog::new(),
            trip_rows: Vec::new(),
            plan_rows: Vec::new(),
            generated: Vec::new(),
            clock: 0,
        }
    }

    fn create(&mut self, destination: &str, days: &str) -> Result<String, CreationError> {
        let (mut flow, mut action) =
            begin_creation(Some(destination.to_string()), Some(days.to_string())).unwrap();
        loop {
            let ev = match action {
                CreationAction::Generate { destination, days } => CreationEvent::PlanGenerated {
                    plan: format!("Plan for {} days in {}", days, destination),
                    input_text: format!("{} for {} days", destination, days),
                },
                CreationAction::InitActor { definition, .. } => {
                    self.session.init(definition);
                    CreationEvent::Succeeded
                }
                CreationAction::InsertTrip(t) => {
                    self.trip_rows.push((t.id, t.destination, t.days));
                    CreationEvent::Succeeded
                }
                CreationAction::InsertPlan { trip_id, plan, input_text } => {
                    self.plan_rows.push((trip_id, plan, input_text));
                    CreationEvent::Succeeded
                }
                CreationAction::Finish(id) => return Ok(id),
                CreationAction::Fail(e) => return Err(e),
            };
            assert!(flow.accepts(&ev));
            let (f, a) = flow.step(ev);
            flow = f;
            action = a;
        }
    }

    fn chat(&mut self, trip_id: &str, message: &str) -> Result<String, ChatError> {
        let (mut turn, mut action) = ChatTurn::start(trip_id.to_string(), message.to_string())?;
        loop {
            let ev = match action {
                ChatAction::CheckHistory(_) => ChatEvent::HistoryChecked(self.log.has_messages()),
                ChatAction::AppendMessage { text, role, .. } => {
                    self.clock += 1;
                    self.log.append(Message { text, role, created_at: format!("t{}", self.clock) });
                    ChatEvent::Succeeded
                }
                ChatAction::ReadTrip(_) => ChatEvent::TripRead(self.session.read()),
                ChatAction::ListMessages(_) => ChatEvent::MessagesListed(self.log.list()),
                ChatAction::Generate { context, history, input } => {
                    let n = history.map(|h| h.len()).unwrap_or(0);
                    self.generated.push((context, n, input.clone()));
                    ChatEvent::Generated(format!("R{}", self.generated.len()))
                }
                ChatAction::Reply(r) => return Ok(r),
                ChatAction::Fail(e) => return Err(e),
            };
            assert!(turn.accepts(&ev));
            let (t, a) = turn.step(ev);
            turn = t;
            action = a;
        }
    }

    fn history(&self) -> Vec<(String, Role)> {
        self.log.list().into_iter().map(|m| (m.text, m.role)).collect()
    }
}

#[test]
fn paris_trip_end_to_end() {
    let mut w = World::new();
    let t = w.create("Paris", "5").unwrap();
    assert_eq!(t.len(), 36);
    let d = w.session.read().unwrap();
    assert_eq!(d.destination, "Paris");
    assert_eq!(d.days, 5);
    assert!(!d.plan.is_empty());
    assert_eq!(w.trip_rows, vec![(t.clone(), "Paris".to_string(), 5)]);
    assert_eq!(w.plan_rows.len(), 1);
    assert_eq!(w.plan_rows[0].0, t);

    let r1 = w.chat(&t, "What's day 1?").unwrap();
    assert_eq!(r1, "R1");
    assert_eq!(w.history(), vec![("What's day 1?".to_string(), Role::User)]);
    assert_eq!(w.generated[0], (d.plan.clone(), 0, "What's day 1?".to_string()));

    let r2 = w.chat(&t, "And day 2?").unwrap();
    assert_eq!(r2, "R2");
    assert_eq!(
        w.history(),
        vec![
            ("What's day 1?".to_string(), Role::User),
            ("And day 2?".to_string(), Role::User),
            ("R2".to_string(), Role::Assistant),
        ]
    );
    assert_eq!(w.generated[1], (d.plan.clone(), 2, "And day 2?".to_string()));
}

#[test]
fn first_turn_does_not_record_the_reply() {
    let mut w = World::new();
    let t = w.create("Oslo", "2").unwrap();
    assert!(!w.log.has_messages());
    w.chat(&t, "hi").unwrap();
    assert_eq!(w.log.list().len(), 1);
}

#[test]
fn later_turn_appends_user_then_assistant() {
    let mut w = World::new();
    let t = w.create("Oslo", "2").unwrap();
    w.chat(&t, "one").unwrap();
    w.chat(&t, "two").unwrap();
    let n = w.log.list().len();
    assert_eq!(n, 3);
    let r = w.chat(&t, "three").unwrap();
    let h = w.history();
    assert_eq!(h.len(), n + 2);
    assert_eq!(h[n], ("three".to_string(), Role::User));
    assert_eq!(h[n + 1], (r, Role::Assistant));
}

#[test]
fn creation_ids_are_hyphenated_v4_uuids() {
    let (flow, _) = begin_creation(Some("Paris".to_string()), Some("5".to_string())).unwrap();
    let id: Vec<char> = flow.trip.id.chars().collect();
    assert_eq!(id.len(), 36);
    for (i, c) in id.iter().enumerate() {
        if [8, 13, 18, 23].contains(&i) {
            assert_eq!(*c, '-');
        } else {
            assert!(c.is_ascii_digit() || ('a'..='f').contains(c), "{}", c);
        }
    }
    assert_eq!(id[14], '4');
    assert!(['8', '9', 'a', 'b'].contains(&id[19]));
}

#[test]
fn creation_ids_differ() {
    let mut w = World::new();
    let a = w.create("Paris", "5").unwrap();
    let b = w.create("Paris", "5").unwrap();
    assert_ne!(a, b);
}

#[test]
fn begin_creation_refuses_invalid_input() {
    assert!(matches!(
        begin_creation(Some("Paris".to_string()), Some("x".to_string())),
        Err(ValidationError::Malformed(Field::Days))
    ));
    assert!(matches!(
        begin_creation(None, Some("3".to_string())),
        Err(ValidationError::Missing(Field::Destination))
    ));
}

#[test]
fn creation_starts_by_asking_for_a_plan() {
    let (flow, action) = CreationFlow::start("T".to_string(), "Paris".to_string(), 5);
    assert_eq!(flow.stage, CreationStage::AwaitingPlan);
    match action {
        CreationAction::Generate { destination, days } => {
            assert_eq!(destination, "Paris");
            assert_eq!(days, 5);
        }
        _ => panic!("expected a generation request"),
    }
}

fn started() -> CreationFlow {
    CreationFlow::start("T".to_string(), "Paris".to_string(), 5).0
}

fn planned() -> CreationFlow {
    started()
        .step(CreationEvent::PlanGenerated { plan: "P".to_string(), input_text: "I".to_string() })
        .0
}

#[test]
fn creation_fails_fast_at_each_step() {
    let (f, a) = started().step(CreationEvent::Failed);
    assert_eq!(f.stage, CreationStage::Failed);
    assert!(matches!(a, CreationAction::Fail(CreationError::Generation)));

    let (_, a) = started()
        .step(CreationEvent::PlanGenerated { plan: String::new(), input_text: "I".to_string() });
    assert!(matches!(a, CreationAction::Fail(CreationError::Generation)));

    let (_, a) = planned().step(CreationEvent::Failed);
    assert!(matches!(a, CreationAction::Fail(CreationError::ActorInit)));

    let (f, _) = planned().step(CreationEvent::Succeeded);
    let (_, a) = f.step(CreationEvent::Failed);
    assert!(matches!(a, CreationAction::Fail(CreationError::Persistence)));

    let (f, _) = planned().step(CreationEvent::Succeeded);
    let (f, a) = f.step(CreationEvent::Succeeded);
    match a {
        CreationAction::InsertPlan { trip_id, plan, input_text } => {
            assert_eq!((trip_id.as_str(), plan.as_str(), input_text.as_str()), ("T", "P", "I"));
        }
        _ => panic!("expected the plan row"),
    }
    let (f, a) = f.step(CreationEvent::Failed);
    assert_eq!(f.stage, CreationStage::Failed);
    assert!(matches!(a, CreationAction::Fail(CreationError::Persistence)));
    assert!(!f.accepts(&CreationEvent::Succeeded));
}

#[test]
fn creation_initializes_the_actor_with_the_plan() {
    let (f, a) = started()
        .step(CreationEvent::PlanGenerated { plan: "P".to_string(), input_text: "I".to_string() });
    assert_eq!(f.stage, CreationStage::AwaitingActor);
    match a {
        CreationAction::InitActor { trip_id, definition } => {
            assert_eq!(trip_id, "T");
            assert_eq!(definition.destination, "Paris");
            assert_eq!(definition.days, 5);
            assert_eq!(definition.plan, "P");
        }
        _ => panic!("expected an actor initialization"),
    }
    assert!(!started().accepts(&CreationEvent::Succeeded));
}

#[test]
fn chat_refuses_an_empty_message() {
    assert!(matches!(
        ChatTurn::start("T".to_string(), String::new()),
        Err(ChatError::EmptyMessage)
    ));
}

#[test]
fn chat_on_a_trip_without_state_is_not_found() {
    let mut w = World::new();
    assert!(matches!(w.chat("nobody", "hello"), Err(ChatError::TripNotFound)));
    assert_eq!(w.log.list().len(), 1);
}

#[test]
fn chat_failures_stop_the_turn() {
    let (t, _) = ChatTurn::start("T".to_string(), "m".to_string()).unwrap();
    let (t, a) = t.step(ChatEvent::Failed);
    assert_eq!(t.stage, ChatStage::Failed);
    assert!(matches!(a, ChatAction::Fail(ChatError::Persistence)));

    let (t, _) = ChatTurn::start("T".to_string(), "m".to_string()).unwrap();
    let (t, _) = t.step(ChatEvent::HistoryChecked(false));
    let (t, _) = t.step(ChatEvent::Succeeded);
    let d = TripDefinition { destination: "X".to_string(), days: 1, plan: "P".to_string() };
    let (t, a) = t.step(ChatEvent::TripRead(Some(d)));
    match a {
        ChatAction::Generate { context, history, input } => {
            assert_eq!(context, "P");
            assert!(history.is_none());
            assert_eq!(input, "m");
        }
        _ => panic!("expected a generation request"),
    }
    let (t, a) = t.step(ChatEvent::Failed);
    assert_eq!(t.stage, ChatStage::Failed);
    assert!(matches!(a, ChatAction::Fail(ChatError::Generation)));
    assert!(!t.accepts(&ChatEvent::Succeeded));
}
