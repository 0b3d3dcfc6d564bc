//! The trip creation flow: generate a plan, initialize the trip's actor,
//! then write the trip row and the plan row to the log store, strictly in
//! that order and failing fast at the first step that fails.
//!
//! The flow holds only decisions: each step names the outside work to do
//! next, and the caller hands back how that work went.
use vstd::prelude::*;
use crate::trip::{session_after_init, TripData, TripDefinition};
use crate::validate::{creation_input, validate_creation, ValidationError};

verus! {

/// Where a creation flow stands.
#[derive(Clone, Copy, Debug, PartialEq, Eq, Structural)]
pub enum CreationStage {
    AwaitingPlan,
    AwaitingActor,
    AwaitingTripRow,
    AwaitingPlanRow,
    Done,
    Failed,
}

/// Why a creation flow stopped.
#[derive(Clone, Copy, Debug, PartialEq, Eq, Structural)]
pub enum CreationError {
    /// The generation service gave no plan.
    Generation,
    /// The trip's actor could not be initialized.
    ActorInit,
    /// A row could not be written to the log store.
    Persistence,
}

/// How the outside work that the last action asked for went.
pub enum CreationEvent {
    /// The generation service returned a plan and the text that it was
    /// asked with.
    PlanGenerated { plan: String, input_text: String },
    /// The actor initialization or row write asked for succeeded.
    Succeeded,
    /// The work asked for failed.
    Failed,
}

/// What the caller is to do next.
pub enum CreationAction {
    /// Ask the generation service for a plan.
    Generate { destination: String, days: u32 },
    /// Initialize the actor addressed by `trip_id` with `definition`.
    InitActor { trip_id: String, definition: TripDefinition },
    /// Write the trip row.
    InsertTrip(TripData),
    /// Write the plan row.
    InsertPlan { trip_id: String, plan: String, input_text: String },
    /// The trip exists: hand its identifier to the caller.
    Finish(String),
    /// Stop with this error; what earlier steps wrote stays.
    Fail(CreationError),
}

pub struct CreationFlow {
    pub trip: TripData,
    pub plan: String,
    pub input_text: String,
    pub stage: CreationStage,
}

/// Whether a flow at `stage` takes `ev`.
pub open spec fn creation_accepts(stage: CreationStage, ev: CreationEvent) -> bool {
    match stage {
        CreationStage::AwaitingPlan => ev is PlanGenerated || ev is Failed,
        CreationStage::AwaitingActor | CreationStage::AwaitingTripRow
        | CreationStage::AwaitingPlanRow => ev is Succeeded || ev is Failed,
        _ => false,
    }
}

/// Whether `r` is a flow just started for this trip, with its first action.
pub open spec fn creation_started(
    r: (CreationFlow, CreationAction),
    trip_id: String,
    destination: String,
    days: u32,
) -> bool {
    &&& r.0.trip == (TripData { id: trip_id, destination, days })
    &&& r.0.plan@.len() == 0
    &&& r.0.input_text@.len() == 0
    &&& r.0.stage == CreationStage::AwaitingPlan
    &&& r.1 == (CreationAction::Generate { destination, days })
}

pub open spec fn failed_with(f: CreationFlow, e: CreationError) -> (CreationFlow, CreationAction) {
    (CreationFlow { stage: CreationStage::Failed, ..f }, CreationAction::Fail(e))
}

/// One step of the flow: the next state and action after `ev`.
pub open spec fn creation_next(f: CreationFlow, ev: CreationEvent) -> (
    CreationFlow,
    CreationAction,
) {
    match f.stage {
        CreationStage::AwaitingPlan => match ev {
            CreationEvent::PlanGenerated { plan, input_text } => if plan@.len() > 0 {
                (
                    CreationFlow { plan, input_text, stage: CreationStage::AwaitingActor, ..f },
                    CreationAction::InitActor {
                        trip_id: f.trip.id,
                        definition: TripDefinition {
                            destination: f.trip.destination,
                            days: f.trip.days,
                            plan,
                        },
                    },
                )
            } else {
                failed_with(f, CreationError::Generation)
            },
            _ => failed_with(f, CreationError::Generation),
        },
        CreationStage::AwaitingActor => match ev {
            CreationEvent::Succeeded => (
                CreationFlow { stage: CreationStage::AwaitingTripRow, ..f },
                CreationAction::InsertTrip(f.trip),
            ),
            _ => failed_with(f, CreationError::ActorInit),
        },
        CreationStage::AwaitingTripRow => match ev {
            CreationEvent::Succeeded => (
                CreationFlow { stage: CreationStage::AwaitingPlanRow, ..f },
                CreationAction::InsertPlan {
                    trip_id: f.trip.id,
                    plan: f.plan,
                    input_text: f.input_text,
                },
            ),
            _ => failed_with(f, CreationError::Persistence),
        },
        _ => match ev {
            CreationEvent::Succeeded => (
                CreationFlow { stage: CreationStage::Done, ..f },
                CreationAction::Finish(f.trip.id),
            ),
            _ => failed_with(f, CreationError::Persistence),
        },
    }
}

/// The flow run from `f` on `evs`, as far as the events are taken: the
/// state reached and the actions named on the way.
pub open spec fn creation_run(f: CreationFlow, evs: Seq<CreationEvent>) -> (
    CreationFlow,
    Seq<CreationAction>,
)
    decreases evs.len(),
{
    if evs.len() == 0 || !creation_accepts(f.stage, evs[0]) {
        (f, Seq::empty())
    } else {
        let (g, a) = creation_next(f, evs[0]);
        let (h, rest) = creation_run(g, evs.drop_first());
        (h, seq![a] + rest)
    }
}

/// A creation that goes through hands its caller the identifier that the
/// flow started with, after initializing that trip's actor with exactly the
/// requested destination and days and a non-empty plan, so that a read of
/// the actor returns them.
pub proof fn lemma_creation_reads_back(
    r0: (CreationFlow, CreationAction),
    trip_id: String,
    destination: String,
    days: u32,
    plan: String,
    input_text: String,
)
    requires
        creation_started(r0, trip_id, destination, days),
        destination@.len() > 0,
        days >= 1,
        plan@.len() > 0,
    ensures
        ({
            let evs = seq![
                CreationEvent::PlanGenerated { plan, input_text },
                CreationEvent::Succeeded,
                CreationEvent::Succeeded,
                CreationEvent::Succeeded,
            ];
            let (f, acts) = creation_run(r0.0, evs);
            let def = TripDefinition { destination, days, plan };
            &&& f.stage == CreationStage::Done
            &&& acts.len() == 4
            &&& acts[0] == (CreationAction::InitActor { trip_id, definition: def })
            &&& acts[3] == CreationAction::Finish(trip_id)
            &&& def.valid()
            &&& session_after_init(def).definition() == Some(def)
        }),
{
    let evs = seq![
        CreationEvent::PlanGenerated { plan, input_text },
        CreationEvent::Succeeded,
        CreationEvent::Succeeded,
        CreationEvent::Succeeded,
    ];
    let (f1, a1) = creation_next(r0.0, evs[0]);
    let (f2, a2) = creation_next(f1, evs[1]);
    let (f3, a3) = creation_next(f2, evs[2]);
    let (f4, a4) = creation_next(f3, evs[3]);
    assert(evs.drop_first().drop_first().drop_first().drop_first() =~= Seq::<CreationEvent>::empty());
    assert(creation_run(f4, Seq::<CreationEvent>::empty()) == (f4, Seq::<CreationAction>::empty()));
    assert(evs.drop_first().drop_first().drop_first() =~= seq![CreationEvent::Succeeded]);
    assert(creation_run(f3, seq![CreationEvent::Succeeded]) == (f4, seq![a4]));
    assert(evs.drop_first().drop_first() =~= seq![CreationEvent::Succeeded, CreationEvent::Succeeded]);
    assert(creation_run(f2, evs.drop_first().drop_first()) == (f4, seq![a3, a4])) by {
        assert(seq![a3] + seq![a4] =~= seq![a3, a4]);
    }
    assert(creation_run(f1, evs.drop_first()) == (f4, seq![a2, a3, a4])) by {
        assert(seq![a2] + seq![a3, a4] =~= seq![a2, a3, a4]);
    }
    assert(creation_run(r0.0, evs) == (f4, seq![a1, a2, a3, a4])) by {
        assert(seq![a1] + seq![a2, a3, a4] =~= seq![a1, a2, a3, a4]);
    }
}

pub open spec fn is_lower_hex(c: char) -> bool {
    ('0' <= c && c <= '9') || ('a' <= c && c <= 'f')
}

pub open spec fn is_hyphen_position(i: int) -> bool {
    i == 8 || i == 13 || i == 18 || i == 23
}

/// A random (version 4, RFC 4122 variant) UUID in lowercase hyphenated
/// form: 32 hex digits in groups of 8, 4, 4, 4 and 12, the version digit
/// `4`, and a variant digit among `8`, `9`, `a`, `b`.
pub open spec fn is_hyphenated_v4(s: Seq<char>) -> bool {
    &&& s.len() == 36
    &&& forall|i: int|
        0 <= i < 36 ==> if is_hyphen_position(i) {
            s[i] == '-'
        } else {
            is_lower_hex(#[trigger] s[i])
        }
    &&& s[14] == '4'
    &&& (s[19] == '8' || s[19] == '9' || s[19] == 'a' || s[19] == 'b')
}

/// Relies on uuid's Uuid::new_v4 and its Display: 128 random bits with the
/// version and variant bits set, written as lowercase hyphenated hex.
#[verifier::external_body]
fn new_trip_id() -> (r: String)
    ensures
        is_hyphenated_v4(r@),
{
    uuid::Uuid::new_v4().to_string()
}

impl CreationFlow {
    /// Starts the flow for a trip with identifier `trip_id`.
    pub fn start(trip_id: String, destination: String, days: u32) -> (r: (
        CreationFlow,
        CreationAction,
    ))
        ensures
            creation_started(r, trip_id, destination, days),
    {
        let d = destination.clone();
        (
            CreationFlow {
                trip: TripData { id: trip_id, destination, days },
                plan: String::new(),
                input_text: String::new(),
                stage: CreationStage::AwaitingPlan,
            },
            CreationAction::Generate { destination: d, days },
        )
    }

    /// Whether the flow takes `ev` in its current stage.
    pub fn accepts(&self, ev: &CreationEvent) -> (r: bool)
        ensures
            r == creation_accepts(self.stage, *ev),
    {
        match self.stage {
            CreationStage::AwaitingPlan => match ev {
                CreationEvent::PlanGenerated { .. } | CreationEvent::Failed => true,
                _ => false,
            },
            CreationStage::AwaitingActor | CreationStage::AwaitingTripRow
            | CreationStage::AwaitingPlanRow => match ev {
                CreationEvent::Succeeded | CreationEvent::Failed => true,
                _ => false,
            },
            _ => false,
        }
    }

    /// Moves the flow on by `ev`.
    pub fn step(self, ev: CreationEvent) -> (r: (CreationFlow, CreationAction))
        requires
            creation_accepts(self.stage, ev),
        ensures
            r == creation_next(self, ev),
    {
        let CreationFlow { trip, plan, input_text, stage } = self;
        match stage {
            CreationStage::AwaitingPlan => match ev {
                CreationEvent::PlanGenerated { plan: new_plan, input_text: new_input } => {
                    if new_plan.as_str().unicode_len() > 0 {
                        let definition = TripDefinition {
                            destination: trip.destination.clone(),
                            days: trip.days,
                            plan: new_plan.clone(),
                        };
                        let id = trip.id.clone();
                        (
                            CreationFlow {
                                trip,
                                plan: new_plan,
                                input_text: new_input,
                                stage: CreationStage::AwaitingActor,
                            },
                            CreationAction::InitActor { trip_id: id, definition },
                        )
                    } else {
                        (
                            CreationFlow { trip, plan, input_text, stage: CreationStage::Failed },
                            CreationAction::Fail(CreationError::Generation),
                        )
                    }
                },
                _ => (
                    CreationFlow { trip, plan, input_text, stage: CreationStage::Failed },
                    CreationAction::Fail(CreationError::Generation),
                ),
            },
            CreationStage::AwaitingActor => match ev {
                CreationEvent::Succeeded => {
                    let t = trip.clone();
                    (
                        CreationFlow { trip, plan, input_text, stage: CreationStage::AwaitingTripRow },
                        CreationAction::InsertTrip(t),
                    )
                },
                _ => (
                    CreationFlow { trip, plan, input_text, stage: CreationStage::Failed },
                    CreationAction::Fail(CreationError::ActorInit),
                ),
            },
            CreationStage::AwaitingTripRow => match ev {
                CreationEvent::Succeeded => {
                    let action = CreationAction::InsertPlan {
                        trip_id: trip.id.clone(),
                        plan: plan.clone(),
                        input_text: input_text.clone(),
                    };
                    (CreationFlow { trip, plan, input_text, stage: CreationStage::AwaitingPlanRow }, action)
                },
                _ => (
                    CreationFlow { trip, plan, input_text, stage: CreationStage::Failed },
                    CreationAction::Fail(CreationError::Persistence),
                ),
            },
            _ => match ev {
                CreationEvent::Succeeded => {
                    let id = trip.id.clone();
                    (
                        CreationFlow { trip, plan, input_text, stage: CreationStage::Done },
                        CreationAction::Finish(id),
                    )
                },
                _ => (
                    CreationFlow { trip, plan, input_text, stage: CreationStage::Failed },
                    CreationAction::Fail(CreationError::Persistence),
                ),
            },
        }
    }
}

/// Validates a creation request and starts its flow under a fresh random
/// trip identifier.
pub fn begin_creation(destination: Option<String>, days: Option<String>) -> (r: Result<
    (CreationFlow, CreationAction),
    ValidationError,
>)
    ensures
        match creation_input(destination, days) {
            Err(e) => r == Err::<(CreationFlow, CreationAction), ValidationError>(e),
            Ok((d, n)) => r is Ok && is_hyphenated_v4(r->Ok_0.0.trip.id@) && creation_started(
                r->Ok_0,
                r->Ok_0.0.trip.id,
                d,
                n,
            ),
        },
{
    match validate_creation(destination, days) {
        Err(e) => Err(e),
        Ok((d, n)) => {
            let id = new_trip_id();
            Ok(CreationFlow::start(id, d, n))
        },
    }
}

} // verus!
