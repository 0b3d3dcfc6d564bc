//! Trip identity and the trip actor's state.
use vstd::prelude::*;

verus! {

/// The trip row mirrored into the log store.
pub struct TripData {
    pub id: String,
    pub destination: String,
    pub days: u32,
}

impl Clone for TripData {
    fn clone(&self) -> (r: Self)
        ensures
            r == *self,
    {
        TripData { id: self.id.clone(), destination: self.destination.clone(), days: self.days }
    }
}

/// A trip's canonical definition: destination, duration and initial plan.
pub struct TripDefinition {
    pub destination: String,
    pub days: u32,
    pub plan: String,
}

impl Clone for TripDefinition {
    fn clone(&self) -> (r: Self)
        ensures
            r == *self,
    {
        TripDefinition {
            destination: self.destination.clone(),
            days: self.days,
            plan: self.plan.clone(),
        }
    }
}

impl TripDefinition {
    /// A definition that the actor accepts: non-empty destination and plan,
    /// at least one day.
    pub open spec fn valid(&self) -> bool {
        self.destination@.len() > 0 && self.days >= 1 && self.plan@.len() > 0
    }
}

/// The durable state of one trip actor: three independently stored keys.
///
/// A definition is served only when all three keys are present, so a
/// partially written state never surfaces as a definition.
pub struct TripSession {
    pub destination: Option<String>,
    pub days: Option<u32>,
    pub plan: Option<String>,
}

/// A request to a trip's actor.
pub enum SessionRequest {
    /// Store this definition, replacing any stored one.
    Init(TripDefinition),
    /// Read the stored definition.
    Read,
    /// Anything else.
    Unknown,
}

/// The actor's answer.
pub enum SessionReply {
    Initialized,
    Definition(TripDefinition),
    NotInitialized,
    NotFound,
}

/// What a read of the stored keys yields.
pub open spec fn stored_definition(
    destination: Option<String>,
    days: Option<u32>,
    plan: Option<String>,
) -> Option<TripDefinition> {
    match (destination, days, plan) {
        (Some(d), Some(n), Some(p)) => Some(TripDefinition { destination: d, days: n, plan: p }),
        _ => None,
    }
}

/// The state after `init` with `def`.
pub open spec fn session_after_init(def: TripDefinition) -> TripSession {
    TripSession { destination: Some(def.destination), days: Some(def.days), plan: Some(def.plan) }
}

impl TripSession {
    pub open spec fn definition(&self) -> Option<TripDefinition> {
        stored_definition(self.destination, self.days, self.plan)
    }

    pub open spec fn is_initialized(&self) -> bool {
        self.definition() is Some
    }

    /// An actor with no stored keys.
    pub fn new() -> (r: Self)
        ensures
            r.destination is None,
            r.days is None,
            r.plan is None,
            r.definition() is None,
    {
        TripSession { destination: None, days: None, plan: None }
    }

    /// The actor as found in durable storage.
    pub fn from_stored(destination: Option<String>, days: Option<u32>, plan: Option<String>) -> (r:
        Self)
        ensures
            r == (TripSession { destination, days, plan }),
    {
        TripSession { destination, days, plan }
    }

    /// Stores the three fields, overwriting whatever was stored before.
    pub fn init(&mut self, def: TripDefinition)
        ensures
            *final(self) == session_after_init(def),
            final(self).definition() == Some(def),
    {
        self.destination = Some(def.destination);
        self.days = Some(def.days);
        self.plan = Some(def.plan);
    }

    /// The stored definition, all three fields together, or `None` when any
    /// of them is missing.
    pub fn read(&self) -> (r: Option<TripDefinition>)
        ensures
            r == self.definition(),
    {
        match (&self.destination, &self.days, &self.plan) {
            (Some(d), Some(n), Some(p)) => Some(
                TripDefinition { destination: d.clone(), days: *n, plan: p.clone() },
            ),
            _ => None,
        }
    }

    /// Serves one request; requests reach the actor one at a time.
    pub fn handle(&mut self, request: SessionRequest) -> (r: SessionReply)
        ensures
            match request {
                SessionRequest::Init(def) => *final(self) == session_after_init(def) && r
                    is Initialized,
                SessionRequest::Read => *final(self) == *old(self) && match old(self).definition() {
                    Some(d) => r == SessionReply::Definition(d),
                    None => r is NotInitialized,
                },
                SessionRequest::Unknown => *final(self) == *old(self) && r is NotFound,
            },
    {
        match request {
            SessionRequest::Init(def) => {
                self.init(def);
                SessionReply::Initialized
            },
            SessionRequest::Read => match self.read() {
                Some(d) => SessionReply::Definition(d),
                None => SessionReply::NotInitialized,
            },
            SessionRequest::Unknown => SessionReply::NotFound,
        }
    }
}

/// Initializing an actor again replaces its definition whole: `init` leaves
/// `session_after_init(def)` whatever was stored before, so a read returns
/// the last definition stored, with no field kept from the one before.
pub proof fn lemma_init_overwrites(first: TripDefinition, second: TripDefinition)
    ensures
        ({
            let once = session_after_init(first);
            let twice = session_after_init(second);
            &&& once.definition() == Some(first)
            &&& twice.definition() == Some(second)
            &&& twice.destination == Some(second.destination)
            &&& twice.days == Some(second.days)
            &&& twice.plan == Some(second.plan)
        }),
{
}

/// An actor that was never initialized reads as not initialized, never as
/// a default definition.
pub proof fn lemma_fresh_session_not_initialized()
    ensures
        (TripSession { destination: None, days: None, plan: None }).definition() is None,
{
}

} // verus!
