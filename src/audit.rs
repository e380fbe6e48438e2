//! Audit events and the sanitized record that leaves the process for each.
use vstd::prelude::*;

use crate::user::{uuid_text, UserId};
use crate::validation::{sanitize_for_logging, sanitized};

verus! {

#[derive(Clone, Copy, Debug, PartialEq, Eq, Structural)]
pub enum AuditOutcome {
    Success,
    Failure,
}

pub open spec fn outcome_text(o: AuditOutcome) -> Seq<char> {
    match o {
        AuditOutcome::Success => "success"@,
        AuditOutcome::Failure => "failure"@,
    }
}

impl AuditOutcome {
    pub fn as_str(self) -> (r: &'static str)
        ensures
            r@ == outcome_text(self),
    {
        match self {
            AuditOutcome::Success => "success",
            AuditOutcome::Failure => "failure",
        }
    }
}

/// Who performed the action, as far as it is known.
#[derive(Clone, Debug, PartialEq, Eq)]
pub struct AuditActor {
    pub id: Option<UserId>,
    pub email: Option<String>,
    pub role: Option<String>,
}

impl Default for AuditActor {
    fn default() -> (r: AuditActor)
        ensures
            r.id is None && r.email is None && r.role is None,
    {
        AuditActor { id: None, email: None, role: None }
    }
}

/// What the action was performed on.
#[derive(Clone, Debug, PartialEq, Eq)]
pub struct AuditTarget {
    pub kind: String,
    pub id: Option<String>,
}

impl AuditTarget {
    pub fn new(kind: &str, id: Option<String>) -> (r: AuditTarget)
        ensures
            r.kind@ == kind@,
            r.id == id,
    {
        AuditTarget { kind: kind.to_owned(), id }
    }
}

/// One security-relevant action and its outcome.
#[derive(Clone, Debug, PartialEq, Eq)]
pub struct AuditEvent {
    pub action: String,
    pub actor: AuditActor,
    pub target: AuditTarget,
    pub outcome: AuditOutcome,
    pub detail: Option<String>,
    pub ip: Option<String>,
}

impl AuditEvent {
    pub fn success(
        action: &str,
        actor: AuditActor,
        target: AuditTarget,
        detail: Option<String>,
        ip: Option<String>,
    ) -> (r: AuditEvent)
        ensures
            r.action@ == action@,
            r.actor == actor,
            r.target == target,
            r.outcome == AuditOutcome::Success,
            r.detail == detail,
            r.ip == ip,
    {
        AuditEvent { action: action.to_owned(), actor, target, outcome: AuditOutcome::Success, detail, ip }
    }

    pub fn failure(
        action: &str,
        actor: AuditActor,
        target: AuditTarget,
        detail: Option<String>,
        ip: Option<String>,
    ) -> (r: AuditEvent)
        ensures
            r.action@ == action@,
            r.actor == actor,
            r.target == target,
            r.outcome == AuditOutcome::Failure,
            r.detail == detail,
            r.ip == ip,
    {
        AuditEvent { action: action.to_owned(), actor, target, outcome: AuditOutcome::Failure, detail, ip }
    }
}

/// The structured line written for one event: every field present, every
/// free-text field sanitized.
#[derive(Clone, Debug, PartialEq, Eq)]
pub struct AuditRecord {
    pub action: String,
    pub outcome: String,
    pub actor_id: String,
    pub actor_email: String,
    pub actor_role: String,
    pub target_kind: String,
    pub target_id: String,
    pub ip: String,
    pub detail: String,
}

/// Placeholder written for an absent field.
pub open spec fn absent_field() -> Seq<char> {
    "-"@
}

/// The logged text of an optional free-text field.
pub open spec fn field_text(f: Option<String>) -> Seq<char> {
    match f {
        Some(s) => sanitized(s@),
        None => absent_field(),
    }
}

/// The record an event becomes.
pub open spec fn record_of(e: AuditEvent, r: AuditRecord) -> bool {
    &&& r.action@ == sanitized(e.action@)
    &&& r.outcome@ == outcome_text(e.outcome)
    &&& r.actor_id@ == match e.actor.id {
        Some(id) => uuid_text(id.0),
        None => absent_field(),
    }
    &&& r.actor_email@ == field_text(e.actor.email)
    &&& r.actor_role@ == field_text(e.actor.role)
    &&& r.target_kind@ == sanitized(e.target.kind@)
    &&& r.target_id@ == field_text(e.target.id)
    &&& r.ip@ == field_text(e.ip)
    &&& r.detail@ == field_text(e.detail)
}

fn optional_field(f: &Option<String>) -> (r: String)
    ensures
        r@ == field_text(*f),
{
    match f {
        Some(s) => sanitize_for_logging(s.as_str()),
        None => "-".to_owned(),
    }
}

/// Turns audit events into records for the log sink.
#[derive(Clone, Copy, Debug)]
pub struct AuditLogger;

impl AuditLogger {
    pub fn new() -> (r: AuditLogger) {
        AuditLogger
    }

    /// The record to write for `event`.
    pub fn record(&self, event: &AuditEvent) -> (r: AuditRecord)
        ensures
            record_of(*event, r),
    {
        let actor_id = match event.actor.id {
            Some(id) => id.to_text(),
            None => "-".to_owned(),
        };
        AuditRecord {
            action: sanitize_for_logging(event.action.as_str()),
            outcome: event.outcome.as_str().to_owned(),
            actor_id,
            actor_email: optional_field(&event.actor.email),
            actor_role: optional_field(&event.actor.role),
            target_kind: sanitize_for_logging(event.target.kind.as_str()),
            target_id: optional_field(&event.target.id),
            ip: optional_field(&event.ip),
            detail: optional_field(&event.detail),
        }
    }
}

} // verus!
