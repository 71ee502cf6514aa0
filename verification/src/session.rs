//! Sessions: opening, closing, and their fenced ownership.

use crate::error::{OwnershipSnapshot, Refusal, StoreError};
use crate::ids::{Digest, FencingEpoch, HostId, Revision, SessionId, TemplateId};
use crate::ledger::RequestContext;
use crate::text::{format_uuid, same_text, uuid_text};
use crate::time::{
    bounded_lease_end, elapsed_is, elapsed_millis, expiry, on_calendar, timestamp_before, Timestamp,
    FIRST_CALENDAR_SECOND, LAST_CALENDAR_SECOND, NANOS_PER_SECOND,
};
use vstd::prelude::*;
use vstd::string::StringExecFns;

verus! {

/// Whether a session takes requests.
#[derive(Clone, Copy, PartialEq, Eq, Debug, Structural)]
pub enum SessionStatus {
    Open,
    Closed,
}

/// A session.
#[derive(PartialEq, Eq, Debug)]
pub struct SessionSnapshot {
    pub id: SessionId,
    pub consumer_key: String,
    pub compatibility: Digest,
    pub status: SessionStatus,
    pub revision: Revision,
    pub created_at: Timestamp,
    pub updated_at: Timestamp,
}

/// Ownership of a session by a host, until it ends.
#[derive(Clone, Copy, PartialEq, Eq, Debug, Structural)]
pub struct OwnershipLease {
    pub session_id: SessionId,
    pub owner: HostId,
    pub epoch: FencingEpoch,
    pub expires_at: Timestamp,
}

impl OwnershipLease {
    /// A lease holds strictly before its end.
    pub open spec fn effective(self, now: Timestamp) -> bool {
        now.spec_before(self.expires_at)
    }

    /// Whether the lease holds at an instant.
    pub fn is_effective_at(self, now: Timestamp) -> (result: bool)
        ensures
            result == self.effective(now),
    {
        now.before(self.expires_at)
    }
}

/// A session as it is kept: its snapshot, its owner, the highest epoch that was given out, and
/// the latest instant that was observed.
#[derive(PartialEq, Eq, Debug)]
pub struct SessionRow {
    pub snapshot: SessionSnapshot,
    pub owner: Option<OwnershipLease>,
    pub epoch_high_water: u64,
    pub time_floor: Timestamp,
}

impl SessionRow {
    /// A session does not change before it was created, its instants are well formed, and its
    /// owner holds an epoch that was given out.
    pub open spec fn wf(self) -> bool {
        &&& self.snapshot.created_at.wf()
        &&& self.snapshot.updated_at.wf()
        &&& !self.snapshot.updated_at.spec_before(self.snapshot.created_at)
        &&& self.time_floor.wf()
        &&& self.owner matches Some(lease) ==> {
            &&& lease.session_id == self.snapshot.id
            &&& lease.expires_at.wf()
            &&& 1 <= lease.epoch.0 <= self.epoch_high_water
        }
    }
}

/// The columns of a kept session.
pub struct SessionColumns {
    pub id: SessionId,
    pub consumer_key: String,
    pub compatibility: Digest,
    pub revision: i64,
    pub closed: i64,
    pub created_at: (i64, i64),
    pub updated_at: (i64, i64),
    pub owner: Option<OwnerColumns>,
    pub epoch_high_water: i64,
    pub time_floor: (i64, i64),
}

/// The owner columns of a kept session.
#[derive(Clone, Copy, PartialEq, Eq, Debug, Structural)]
pub struct OwnerColumns {
    pub host_id: HostId,
    pub epoch: i64,
    pub expires_seconds: i64,
    pub expires_nanos: i64,
}

/// Whether a pair of columns holds an instant.
pub open spec fn instant_columns(columns: (i64, i64)) -> bool {
    0 <= columns.1 < NANOS_PER_SECOND
}

/// The instant in a pair of columns.
pub open spec fn column_instant(columns: (i64, i64)) -> Timestamp {
    Timestamp { seconds: columns.0, nanos: columns.1 as u32 }
}

/// Whether the owner columns hold a lease under the highest epoch.
pub open spec fn owner_columns_sound(owner: OwnerColumns, epoch_high_water: i64) -> bool {
    &&& 1 <= owner.epoch <= epoch_high_water
    &&& instant_columns((owner.expires_seconds, owner.expires_nanos))
    &&& (owner.expires_nanos > 0 || owner.expires_seconds > i64::MIN)
}

/// Whether the columns hold a session.
pub open spec fn session_columns_sound(columns: SessionColumns) -> bool {
    &&& columns.revision >= 1
    &&& (columns.closed == 0 || columns.closed == 1)
    &&& instant_columns(columns.created_at)
    &&& instant_columns(columns.updated_at)
    &&& !column_instant(columns.updated_at).spec_before(column_instant(columns.created_at))
    &&& instant_columns(columns.time_floor)
    &&& columns.epoch_high_water >= 0
    &&& columns.owner matches Some(owner) ==> owner_columns_sound(owner, columns.epoch_high_water)
}

/// The session in sound columns.
pub open spec fn session_in(columns: SessionColumns) -> SessionRow {
    SessionRow {
        snapshot: SessionSnapshot {
            id: columns.id,
            consumer_key: columns.consumer_key,
            compatibility: columns.compatibility,
            status: if columns.closed == 0 {
                SessionStatus::Open
            } else {
                SessionStatus::Closed
            },
            revision: Revision(columns.revision as u64),
            created_at: column_instant(columns.created_at),
            updated_at: column_instant(columns.updated_at),
        },
        owner: match columns.owner {
            Some(owner) => Some(
                OwnershipLease {
                    session_id: columns.id,
                    owner: owner.host_id,
                    epoch: FencingEpoch(owner.epoch as u64),
                    expires_at: column_instant((owner.expires_seconds, owner.expires_nanos)),
                },
            ),
            None => None,
        },
        epoch_high_water: columns.epoch_high_water as u64,
        time_floor: column_instant(columns.time_floor),
    }
}

fn instant(columns: (i64, i64)) -> (result: Option<Timestamp>)
    ensures
        result == (if instant_columns(columns) {
            Some(column_instant(columns))
        } else {
            None
        }),
{
    match crate::time::decode_timestamp(columns.0, columns.1) {
        Ok(instant) => Some(instant),
        Err(_) => None,
    }
}

/// Reads a kept session.
pub fn decode_session(columns: SessionColumns) -> (result: Result<SessionRow, StoreError>)
    ensures
        match result {
            Ok(row) => session_columns_sound(columns) && row == session_in(columns) && row.wf(),
            Err(error) => error == StoreError::Corrupt && !session_columns_sound(columns),
        },
{
    let status: SessionStatus = if columns.closed == 0 {
        SessionStatus::Open
    } else if columns.closed == 1 {
        SessionStatus::Closed
    } else {
        return Err(StoreError::Corrupt);
    };
    let (created_at, updated_at, time_floor): (Timestamp, Timestamp, Timestamp) = match (
        instant(columns.created_at),
        instant(columns.updated_at),
        instant(columns.time_floor),
    ) {
        (Some(created_at), Some(updated_at), Some(time_floor)) => (
            created_at,
            updated_at,
            time_floor,
        ),
        _ => {
            return Err(StoreError::Corrupt);
        },
    };
    if columns.revision < 1 || updated_at.before(created_at) || columns.epoch_high_water < 0 {
        return Err(StoreError::Corrupt);
    }
    let owner: Option<OwnershipLease> = match columns.owner {
        Some(owner) => match instant((owner.expires_seconds, owner.expires_nanos)) {
            Some(expires_at) => {
                if owner.epoch < 1 || owner.epoch > columns.epoch_high_water || timestamp_before(
                    expires_at.seconds,
                    expires_at.nanos,
                ).is_err() {
                    return Err(StoreError::Corrupt);
                }
                Some(
                    OwnershipLease {
                        session_id: columns.id,
                        owner: owner.host_id,
                        epoch: FencingEpoch(owner.epoch as u64),
                        expires_at,
                    },
                )
            },
            None => {
                return Err(StoreError::Corrupt);
            },
        },
        None => None,
    };
    Ok(
        SessionRow {
            snapshot: SessionSnapshot {
                id: columns.id,
                consumer_key: columns.consumer_key,
                compatibility: columns.compatibility,
                status,
                revision: Revision(columns.revision as u64),
                created_at,
                updated_at,
            },
            owner,
            epoch_high_water: columns.epoch_high_water as u64,
            time_floor,
        },
    )
}

/// The obstacle to a request against a session that has to be open. Closing a closed session
/// has a refusal of its own.
pub open spec fn open_obstacle(
    session_id: SessionId,
    session: Option<SessionRow>,
    closing: bool,
) -> Option<StoreError> {
    match session {
        None => Some(StoreError::SessionNotFound { session_id }),
        Some(row) => if row.snapshot.status == SessionStatus::Open {
            None
        } else if closing {
            Some(StoreError::AlreadyClosed { session_id })
        } else {
            Some(StoreError::SessionClosed { session_id })
        },
    }
}

/// Checks that a session is there and open.
pub fn require_open_session(session_id: SessionId, session: Option<&SessionRow>, closing: bool) -> (
result: Result<(), StoreError>)
    ensures
        result == (match open_obstacle(
            session_id,
            match session {
                Some(session) => Some(*session),
                None => None,
            },
            closing,
        ) {
            Some(error) => Err::<(), StoreError>(error),
            None => Ok(()),
        }),
{
    match session {
        None => Err(StoreError::SessionNotFound { session_id }),
        Some(row) => if row.snapshot.status == SessionStatus::Open {
            Ok(())
        } else if closing {
            Err(StoreError::AlreadyClosed { session_id })
        } else {
            Err(StoreError::SessionClosed { session_id })
        },
    }
}

/// The obstacle to a request that only the owner may make: the caller must own the session at
/// the attempted epoch, and the ownership must not have ended.
pub open spec fn owner_obstacle(
    row: SessionRow,
    caller: HostId,
    attempted: FencingEpoch,
    now: Timestamp,
) -> Option<StoreError> {
    match row.owner {
        None => Some(
            StoreError::StaleOwnership { session_id: row.snapshot.id, attempted, current: None },
        ),
        Some(owner) => if owner.epoch != attempted || owner.owner != caller {
            Some(
                StoreError::StaleOwnership {
                    session_id: row.snapshot.id,
                    attempted,
                    current: Some(owner.epoch),
                },
            )
        } else if !owner.effective(now) {
            Some(StoreError::OwnershipExpired { session_id: row.snapshot.id, epoch: attempted })
        } else {
            None
        },
    }
}

/// Checks that the caller owns a session.
pub fn require_owner(row: &SessionRow, caller: HostId, attempted: FencingEpoch, now: Timestamp) -> (
result: Result<(), StoreError>)
    ensures
        result == (match owner_obstacle(*row, caller, attempted, now) {
            Some(error) => Err::<(), StoreError>(error),
            None => Ok(()),
        }),
{
    match row.owner {
        None => Err(
            StoreError::StaleOwnership { session_id: row.snapshot.id, attempted, current: None },
        ),
        Some(owner) => if owner.epoch != attempted || owner.owner != caller {
            Err(
                StoreError::StaleOwnership {
                    session_id: row.snapshot.id,
                    attempted,
                    current: Some(owner.epoch),
                },
            )
        } else if !owner.is_effective_at(now) {
            Err(StoreError::OwnershipExpired { session_id: row.snapshot.id, epoch: attempted })
        } else {
            Ok(())
        },
    }
}

/// Whether a request may go on, and the time floor that its session is to have.
///
/// The floor is there once the session was found open, even where the caller is not its owner.
pub struct Authorization {
    pub time_floor: Option<Timestamp>,
    pub refusal: Option<StoreError>,
}

/// The authorization of a request of an owner against an open session.
pub open spec fn authorization(
    session_id: SessionId,
    session: Option<SessionRow>,
    caller: HostId,
    epoch: FencingEpoch,
    closing: bool,
    observed: Timestamp,
) -> Authorization {
    match open_obstacle(session_id, session, closing) {
        Some(error) => Authorization { time_floor: None, refusal: Some(error) },
        None => {
            let row = session->Some_0;
            let now = row.time_floor.spec_max(observed);
            Authorization {
                time_floor: Some(now),
                refusal: owner_obstacle(row, caller, epoch, now),
            }
        },
    }
}

/// Authorizes a request of an owner against an open session.
pub fn authorize(
    session_id: SessionId,
    session: Option<&SessionRow>,
    caller: HostId,
    epoch: FencingEpoch,
    closing: bool,
    observed: Timestamp,
) -> (granted: Authorization)
    ensures
        granted == authorization(
            session_id,
            match session {
                Some(session) => Some(*session),
                None => None,
            },
            caller,
            epoch,
            closing,
            observed,
        ),
{
    match require_open_session(session_id, session, closing) {
        Err(error) => Authorization { time_floor: None, refusal: Some(error) },
        Ok(_) => match session {
            Some(row) => {
                let now: Timestamp = row.time_floor.later(observed);
                let refusal: Option<StoreError> = match require_owner(row, caller, epoch, now) {
                    Ok(_) => None,
                    Err(error) => Some(error),
                };
                Authorization { time_floor: Some(now), refusal }
            },
            None => Authorization {
                time_floor: None,
                refusal: Some(StoreError::SessionNotFound { session_id }),
            },
        },
    }
}

/// Once an ownership was seen to have ended, it stays ended: a clock that runs back cannot
/// revive it, because the floor keeps what was observed.
pub proof fn expiry_is_one_way(
    row: SessionRow,
    caller: HostId,
    epoch: FencingEpoch,
    observed: Timestamp,
    later_observed: Timestamp,
)
    requires
        row.owner is Some,
        !row.owner->Some_0.effective(row.time_floor.spec_max(observed)),
    ensures
        ({
            let sealed = SessionRow { time_floor: row.time_floor.spec_max(observed), ..row };
            owner_obstacle(
                sealed,
                caller,
                epoch,
                sealed.time_floor.spec_max(later_observed),
            ) is Some
        }),
{
}

/// A host that held an earlier epoch is fenced off: only the current epoch passes.
pub proof fn only_the_current_epoch_passes(
    row: SessionRow,
    caller: HostId,
    epoch: FencingEpoch,
    now: Timestamp,
)
    requires
        owner_obstacle(row, caller, epoch, now) is None,
    ensures
        row.owner matches Some(owner) && owner.epoch == epoch && owner.owner == caller
            && owner.effective(now),
{
}

/// A template and the compatibility that a session expects of it.
#[derive(Clone, Copy, PartialEq, Eq, Debug, Structural)]
pub struct TemplateBinding {
    pub template_id: TemplateId,
    pub compatibility: Digest,
}

/// How a session is opened: exactly the named one, or the open one of the consumer.
#[derive(Clone, Copy, PartialEq, Eq, Debug, Structural)]
pub enum SessionOpenMode {
    Exact,
    Open,
    Resume,
    Reset,
}

/// A wish to open a session.
#[derive(PartialEq, Eq, Debug)]
pub struct OpenSession {
    pub session_id: SessionId,
    pub consumer_key: String,
    pub compatibility: Digest,
    pub mode: SessionOpenMode,
    pub manifest: Option<Vec<TemplateBinding>>,
}

/// Whether the kept manifest of a session is the one that is asked for.
///
/// `complete` is one where the session has a manifest and zero where it has none.
pub open spec fn manifest_matches(
    manifest: Option<Vec<TemplateBinding>>,
    complete: i64,
    kept: Seq<TemplateBinding>,
) -> bool {
    match manifest {
        None => complete == 0,
        Some(manifest) => complete == 1 && kept == manifest@,
    }
}

/// The refusal of another manifest.
pub open spec fn manifest_conflict(command: OpenSession) -> StoreError {
    StoreError::CompatibilityConflict {
        session_id: command.session_id,
        persisted: command.compatibility,
        requested: command.compatibility,
    }
}

fn same_bindings(left: &Vec<TemplateBinding>, right: &Vec<TemplateBinding>) -> (result: bool)
    ensures
        result == (left@ == right@),
{
    if left.len() != right.len() {
        return false;
    }
    let mut index: usize = 0;
    while index < left.len()
        invariant
            index <= left.len(),
            left.len() == right.len(),
            forall|i: int| 0 <= i < index ==> left[i] == right[i],
        decreases left.len() - index,
    {
        if left[index] != right[index] {
            return false;
        }
        index = index + 1;
    }
    assert(left@ =~= right@);
    true
}

/// Checks the kept manifest of a session against the one that is asked for.
pub fn validate_session_manifest(
    command: &OpenSession,
    complete: i64,
    kept: &Vec<TemplateBinding>,
) -> (result: Result<(), StoreError>)
    ensures
        result == (if manifest_matches(command.manifest, complete, kept@) {
            Ok::<(), StoreError>(())
        } else {
            Err(manifest_conflict(*command))
        }),
{
    let matching: bool = match &command.manifest {
        None => complete == 0,
        Some(manifest) => complete == 1 && same_bindings(kept, manifest),
    };
    if matching {
        Ok(())
    } else {
        Err(
            StoreError::CompatibilityConflict {
                session_id: command.session_id,
                persisted: command.compatibility,
                requested: command.compatibility,
            },
        )
    }
}

/// Whether every template of a manifest is registered with the expected compatibility.
pub open spec fn manifest_registered(
    manifest: Option<Vec<TemplateBinding>>,
    registered: Seq<Option<Digest>>,
) -> bool {
    manifest matches Some(manifest) ==> forall|i: int|
        0 <= i < manifest.len() ==> registered[i] == Some((#[trigger] manifest[i]).compatibility)
}

/// Whether a new session may be opened with its manifest.
///
/// `registered` holds for each template of the manifest the registered compatibility.
pub fn new_session_manifest_is_registered(
    command: &OpenSession,
    registered: &Vec<Option<Digest>>,
) -> (result: bool)
    requires
        command.manifest matches Some(manifest) ==> registered.len() == manifest.len(),
    ensures
        result == manifest_registered(command.manifest, registered@),
{
    match &command.manifest {
        None => true,
        Some(manifest) => {
            let mut index: usize = 0;
            while index < manifest.len()
                invariant
                    index <= manifest.len(),
                    command.manifest == Some(*manifest),
                    registered.len() == manifest.len(),
                    forall|i: int|
                        0 <= i < index ==> registered[i] == Some(
                            (#[trigger] manifest[i]).compatibility,
                        ),
                decreases manifest.len() - index,
            {
                if registered[index] != Some(manifest[index].compatibility) {
                    proof {
                        let bound = command.manifest->Some_0[index as int];
                        assert(registered@[index as int] != Some(bound.compatibility));
                        assert(!manifest_registered(command.manifest, registered@));
                    }
                    return false;
                }
                index = index + 1;
            }
            true
        },
    }
}

/// Whether a session takes participants of a template: by its compatibility where the session
/// has no manifest, and by the manifest otherwise.
pub open spec fn template_allowed(
    session: Option<(Digest, i64)>,
    bound: Option<Digest>,
    compatibility: Digest,
) -> bool {
    match session {
        None => false,
        Some((own, complete)) => if complete == 0 {
            own == compatibility
        } else {
            bound == Some(compatibility)
        },
    }
}

/// Decides whether a session takes participants of a template.
///
/// `session` is the compatibility of the session and whether its manifest is complete; `bound`
/// is what the manifest says of the template.
pub fn session_allows_template(
    session: Option<(Digest, i64)>,
    bound: Option<Digest>,
    compatibility: Digest,
) -> (result: bool)
    ensures
        result == template_allowed(session, bound, compatibility),
{
    match session {
        None => false,
        Some((own, complete)) => if complete == 0 {
            own == compatibility
        } else {
            bound == Some(compatibility)
        },
    }
}

/// Whether a snapshot is the session that a wish asks for.
pub open spec fn answers_open(snapshot: SessionSnapshot, command: OpenSession) -> bool {
    &&& snapshot.id == command.session_id
    &&& snapshot.consumer_key@ == command.consumer_key@
    &&& snapshot.compatibility == command.compatibility
}

/// Checks a recorded opening against the wish.
pub fn validate_open_replay(snapshot: &SessionSnapshot, command: &OpenSession) -> (result: Result<
    (),
    StoreError,
>)
    ensures
        result == (if answers_open(*snapshot, *command) {
            Ok::<(), StoreError>(())
        } else {
            Err(StoreError::Corrupt)
        }),
{
    if snapshot.id != command.session_id || !same_text(
        snapshot.consumer_key.as_str(),
        command.consumer_key.as_str(),
    ) || snapshot.compatibility != command.compatibility {
        Err(StoreError::Corrupt)
    } else {
        Ok(())
    }
}

/// A session that has just been opened.
pub open spec fn fresh_session(command: OpenSession, now: Timestamp) -> SessionSnapshot {
    SessionSnapshot {
        id: command.session_id,
        consumer_key: command.consumer_key,
        compatibility: command.compatibility,
        status: SessionStatus::Open,
        revision: Revision(1),
        created_at: now,
        updated_at: now,
    }
}

fn new_session(command: &OpenSession, now: Timestamp) -> (snapshot: SessionSnapshot)
    ensures
        snapshot == fresh_session(*command, now),
{
    SessionSnapshot {
        id: command.session_id,
        consumer_key: command.consumer_key.clone(),
        compatibility: command.compatibility,
        status: SessionStatus::Open,
        revision: Revision::initial(),
        created_at: now,
        updated_at: now,
    }
}

/// What is kept of a session that may already be there.
pub struct KeptManifest {
    pub complete: i64,
    pub bindings: Vec<TemplateBinding>,
}

/// The outcome of a new wish to open a session: nothing is written for a session that is there
/// and agrees, and a session that is not there is created.
pub open spec fn open_outcome(
    command: OpenSession,
    existing: Option<SessionSnapshot>,
    kept: KeptManifest,
    registered: Seq<Option<Digest>>,
    now: Timestamp,
) -> Result<Option<SessionSnapshot>, StoreError> {
    match existing {
        Some(snapshot) => if snapshot.compatibility != command.compatibility {
            Err(
                StoreError::CompatibilityConflict {
                    session_id: command.session_id,
                    persisted: snapshot.compatibility,
                    requested: command.compatibility,
                },
            )
        } else if snapshot.consumer_key@ != command.consumer_key@ {
            Err(
                StoreError::ConsumerConflict {
                    session_id: command.session_id,
                    persisted: snapshot.consumer_key,
                    requested: command.consumer_key,
                },
            )
        } else if !manifest_matches(command.manifest, kept.complete, kept.bindings@) {
            Err(manifest_conflict(command))
        } else {
            Ok(None)
        },
        None => if !manifest_registered(command.manifest, registered) {
            Err(StoreError::Invalid)
        } else {
            Ok(Some(fresh_session(command, now)))
        },
    }
}

/// Decides a new wish to open a session. Every refusal is recorded.
pub fn open_session(
    command: &OpenSession,
    existing: Option<&SessionSnapshot>,
    kept: &KeptManifest,
    registered: &Vec<Option<Digest>>,
    now: Timestamp,
) -> (result: Result<Option<SessionSnapshot>, Refusal>)
    requires
        command.manifest matches Some(manifest) ==> registered.len() == manifest.len(),
    ensures
        result == (match open_outcome(
            *command,
            match existing {
                Some(existing) => Some(*existing),
                None => None,
            },
            *kept,
            registered@,
            now,
        ) {
            Ok(plan) => Ok::<Option<SessionSnapshot>, Refusal>(plan),
            Err(error) => Err(Refusal { error, recorded: true }),
        }),
{
    match existing {
        Some(snapshot) => {
            if snapshot.compatibility != command.compatibility {
                return Err(
                    Refusal {
                        error: StoreError::CompatibilityConflict {
                            session_id: command.session_id,
                            persisted: snapshot.compatibility,
                            requested: command.compatibility,
                        },
                        recorded: true,
                    },
                );
            }
            if !same_text(snapshot.consumer_key.as_str(), command.consumer_key.as_str()) {
                return Err(
                    Refusal {
                        error: StoreError::ConsumerConflict {
                            session_id: command.session_id,
                            persisted: snapshot.consumer_key.clone(),
                            requested: command.consumer_key.clone(),
                        },
                        recorded: true,
                    },
                );
            }
            match validate_session_manifest(command, kept.complete, &kept.bindings) {
                Ok(_) => Ok(None),
                Err(error) => Err(Refusal { error, recorded: true }),
            }
        },
        None => {
            if !new_session_manifest_is_registered(command, registered) {
                return Err(Refusal { error: StoreError::Invalid, recorded: true });
            }
            Ok(Some(new_session(command, now)))
        },
    }
}

/// Opening a session that was just opened, with the same wish, finds it and changes nothing.
pub proof fn opening_again_changes_nothing(
    command: OpenSession,
    kept: KeptManifest,
    registered: Seq<Option<Digest>>,
    now: Timestamp,
    later: Timestamp,
)
    requires
        manifest_matches(command.manifest, kept.complete, kept.bindings@),
    ensures
        open_outcome(command, Some(fresh_session(command, now)), kept, registered, later) == Ok::<
            Option<SessionSnapshot>,
            StoreError,
        >(None),
        answers_open(fresh_session(command, now), command),
{
}

/// What the open session of a consumer means for a wish that does not name its session.
pub open spec fn mode_obstacle(
    command: OpenSession,
    existing: SessionSnapshot,
    unfinished: bool,
) -> Option<StoreError> {
    if command.mode == SessionOpenMode::Reset {
        Some(StoreError::InterruptedSession { session_id: existing.id })
    } else if existing.compatibility != command.compatibility {
        Some(
            StoreError::CompatibilityConflict {
                session_id: existing.id,
                persisted: existing.compatibility,
                requested: command.compatibility,
            },
        )
    } else if command.mode == SessionOpenMode::Open && unfinished {
        Some(StoreError::InterruptedSession { session_id: existing.id })
    } else {
        None
    }
}

/// The session that a wish leads to.
///
/// A wish in exact mode leads to the session it names. Any other leads to the open session of
/// the consumer, where there is one and nothing speaks against it. A reset asks for a new
/// session, and no launch of the consumer may be unresolved.
pub open spec fn resolved_session(
    command: OpenSession,
    existing: Option<SessionSnapshot>,
    unfinished: bool,
    unresolved_launches: bool,
) -> Result<SessionId, Refusal> {
    if command.mode == SessionOpenMode::Exact {
        Ok(command.session_id)
    } else {
        match existing {
            Some(existing) => match mode_obstacle(command, existing, unfinished) {
                Some(error) => Err(Refusal { error, recorded: true }),
                None => Ok(existing.id),
            },
            None => if command.mode == SessionOpenMode::Reset && unresolved_launches {
                Err(Refusal { error: StoreError::Invalid, recorded: false })
            } else {
                Ok(command.session_id)
            },
        }
    }
}

/// Finds the session that a wish leads to.
///
/// `existing` is the open session of the consumer, `unfinished` tells whether it has operations
/// that neither succeeded, failed nor were cancelled, and `unresolved_launches` whether a launch
/// of the consumer has not stopped.
pub fn resolve_open_mode(
    command: &OpenSession,
    existing: Option<&SessionSnapshot>,
    unfinished: bool,
    unresolved_launches: bool,
) -> (result: Result<SessionId, Refusal>)
    ensures
        result == resolved_session(
            *command,
            match existing {
                Some(existing) => Some(*existing),
                None => None,
            },
            unfinished,
            unresolved_launches,
        ),
{
    if command.mode == SessionOpenMode::Exact {
        return Ok(command.session_id);
    }
    match existing {
        Some(existing) => {
            if command.mode == SessionOpenMode::Reset {
                return Err(
                    Refusal {
                        error: StoreError::InterruptedSession { session_id: existing.id },
                        recorded: true,
                    },
                );
            }
            if existing.compatibility != command.compatibility {
                return Err(
                    Refusal {
                        error: StoreError::CompatibilityConflict {
                            session_id: existing.id,
                            persisted: existing.compatibility,
                            requested: command.compatibility,
                        },
                        recorded: true,
                    },
                );
            }
            if command.mode == SessionOpenMode::Open && unfinished {
                return Err(
                    Refusal {
                        error: StoreError::InterruptedSession { session_id: existing.id },
                        recorded: true,
                    },
                );
            }
            Ok(existing.id)
        },
        None => if command.mode == SessionOpenMode::Reset && unresolved_launches {
            Err(Refusal { error: StoreError::Invalid, recorded: false })
        } else {
            Ok(command.session_id)
        },
    }
}

/// What a registration of templates finds for one of them.
#[derive(Clone, Copy, PartialEq, Eq, Debug, Structural)]
pub enum TemplateFinding {
    /// The template itself is not valid.
    Malformed,
    /// No template of this identity is registered.
    Missing,
    /// Exactly this template is registered.
    Same,
    /// Another template is registered under this identity.
    Different,
}

/// Whether the templates may be registered.
pub open spec fn templates_acceptable(findings: Seq<TemplateFinding>) -> bool {
    forall|i: int|
        0 <= i < findings.len() ==> #[trigger] findings[i] == TemplateFinding::Missing
            || findings[i] == TemplateFinding::Same
}

/// Checks that the templates may be registered before a session is opened with them.
pub fn validate_template_set_before_open(findings: &Vec<TemplateFinding>) -> (result: Result<
    (),
    StoreError,
>)
    ensures
        result == (if templates_acceptable(findings@) {
            Ok::<(), StoreError>(())
        } else {
            Err(StoreError::Invalid)
        }),
{
    let mut index: usize = 0;
    while index < findings.len()
        invariant
            index <= findings.len(),
            forall|i: int|
                0 <= i < index ==> #[trigger] findings[i] == TemplateFinding::Missing
                    || findings[i] == TemplateFinding::Same,
        decreases findings.len() - index,
    {
        let finding: TemplateFinding = findings[index];
        if finding != TemplateFinding::Missing && finding != TemplateFinding::Same {
            assert(findings@[index as int] == finding);
            return Err(StoreError::Invalid);
        }
        index = index + 1;
    }
    Ok(())
}

/// Checks that every template of a repeated request is still registered as it was.
pub fn validate_registered_templates(findings: &Vec<TemplateFinding>) -> (result: Result<
    (),
    StoreError,
>)
    ensures
        result == (if forall|i: int|
            0 <= i < findings.len() ==> #[trigger] findings[i] == TemplateFinding::Same {
            Ok::<(), StoreError>(())
        } else {
            Err(StoreError::Corrupt)
        }),
{
    let mut index: usize = 0;
    while index < findings.len()
        invariant
            index <= findings.len(),
            forall|i: int| 0 <= i < index ==> #[trigger] findings[i] == TemplateFinding::Same,
        decreases findings.len() - index,
    {
        if findings[index] != TemplateFinding::Same {
            assert(findings@[index as int] != TemplateFinding::Same);
            return Err(StoreError::Corrupt);
        }
        index = index + 1;
    }
    Ok(())
}

/// Whether a recorded registration still stands.
///
/// Only where exactly the named session was asked for is the record compared with the wish: in
/// every other mode the session that was found may bear another identity than the wish names, and
/// the ledger alone vouches for the record. The templates must be registered as they were.
pub open spec fn registration_stands(
    snapshot: SessionSnapshot,
    command: OpenSession,
    findings: Seq<TemplateFinding>,
) -> bool {
    &&& command.mode == SessionOpenMode::Exact ==> answers_open(snapshot, command)
    &&& forall|i: int| 0 <= i < findings.len() ==> #[trigger] findings[i] == TemplateFinding::Same
}

/// Checks a recorded registration of templates and opening of a session.
pub fn validate_registration_replay(
    snapshot: &SessionSnapshot,
    command: &OpenSession,
    findings: &Vec<TemplateFinding>,
) -> (result: Result<(), StoreError>)
    ensures
        result == (if registration_stands(*snapshot, *command, findings@) {
            Ok::<(), StoreError>(())
        } else {
            Err(StoreError::Corrupt)
        }),
{
    if command.mode == SessionOpenMode::Exact {
        match validate_open_replay(snapshot, command) {
            Ok(_) => {},
            Err(error) => {
                return Err(error);
            },
        }
    }
    validate_registered_templates(findings)
}

/// A registration that was answered in any mode but the exact one is answered again whatever
/// session it led to, as long as its templates are registered.
pub proof fn mode_replays_ignore_the_candidate(
    snapshot: SessionSnapshot,
    command: OpenSession,
    findings: Seq<TemplateFinding>,
)
    requires
        command.mode != SessionOpenMode::Exact,
        forall|i: int| 0 <= i < findings.len() ==> #[trigger] findings[i] == TemplateFinding::Same,
    ensures
        registration_stands(snapshot, command, findings),
{
}

/// Decides the registration of one template: whether it is written.
pub fn register_template(finding: TemplateFinding) -> (result: Result<bool, StoreError>)
    ensures
        result == (match finding {
            TemplateFinding::Missing => Ok::<bool, StoreError>(true),
            TemplateFinding::Same => Ok(false),
            TemplateFinding::Malformed | TemplateFinding::Different => Err(StoreError::Invalid),
        }),
{
    match finding {
        TemplateFinding::Missing => Ok(true),
        TemplateFinding::Same => Ok(false),
        TemplateFinding::Malformed | TemplateFinding::Different => Err(StoreError::Invalid),
    }
}

/// What registering templates and opening a session leads to: whether the session is there
/// already and agrees, or is created.
pub open spec fn registration_outcome(
    open: OpenSession,
    findings: Seq<TemplateFinding>,
    existing: Option<SessionSnapshot>,
    kept: KeptManifest,
    now: Timestamp,
) -> Result<Option<SessionSnapshot>, StoreError> {
    if !templates_acceptable(findings) {
        Err(StoreError::Invalid)
    } else {
        match existing {
            Some(snapshot) => if snapshot.consumer_key@ == open.consumer_key@
                && snapshot.compatibility == open.compatibility && manifest_matches(
                open.manifest,
                kept.complete,
                kept.bindings@,
            ) {
                Ok(None)
            } else {
                Err(StoreError::Invalid)
            },
            None => Ok(Some(fresh_session(open, now))),
        }
    }
}

/// Decides a registration of templates together with the opening of a session, once the session
/// was found that it leads to. Every refusal rolls the transaction back.
pub fn register_templates_and_open_session(
    open: &OpenSession,
    findings: &Vec<TemplateFinding>,
    existing: Option<&SessionSnapshot>,
    kept: &KeptManifest,
    now: Timestamp,
) -> (result: Result<Option<SessionSnapshot>, StoreError>)
    ensures
        result == registration_outcome(
            *open,
            findings@,
            match existing {
                Some(existing) => Some(*existing),
                None => None,
            },
            *kept,
            now,
        ),
{
    match validate_template_set_before_open(findings) {
        Ok(_) => {},
        Err(error) => {
            return Err(error);
        },
    }
    match existing {
        Some(snapshot) => if !same_text(snapshot.consumer_key.as_str(), open.consumer_key.as_str())
            || snapshot.compatibility != open.compatibility || validate_session_manifest(
            open,
            kept.complete,
            &kept.bindings,
        ).is_err() {
            Err(StoreError::Invalid)
        } else {
            Ok(None)
        },
        None => Ok(Some(new_session(open, now))),
    }
}

/// The key under which a session is kept: the consumer key, unless another session has it.
pub fn session_storage_key(consumer_key: &String, occupied: bool, session_id: SessionId) -> (key:
    String)
    ensures
        key@ == if occupied {
            "session:"@ + uuid_text(session_id.0)
        } else {
            consumer_key@
        },
{
    if occupied {
        let mut key: String = "session:".to_owned();
        let id: String = format_uuid(session_id.0);
        key.append(id.as_str());
        key
    } else {
        consumer_key.clone()
    }
}

/// A closed session: it is closed at its next revision and does not change before its last
/// change.
pub open spec fn closed_session(snapshot: SessionSnapshot, now: Timestamp) -> Option<
    SessionSnapshot,
> {
    match snapshot.revision.spec_next() {
        Some(revision) => if now.spec_before(snapshot.updated_at) {
            None
        } else {
            Some(
                SessionSnapshot {
                    status: SessionStatus::Closed,
                    revision,
                    updated_at: now,
                    ..snapshot
                },
            )
        },
        None => None,
    }
}

/// Closes an open session that the caller owns. The owner is let go with it.
pub fn close_session(snapshot: SessionSnapshot, now: Timestamp) -> (result: Result<
    SessionSnapshot,
    StoreError,
>)
    ensures
        result == (match closed_session(snapshot, now) {
            Some(closed) => Ok::<SessionSnapshot, StoreError>(closed),
            None => Err(StoreError::Invalid),
        }),
{
    if now.before(snapshot.updated_at) {
        return Err(StoreError::Invalid);
    }
    match snapshot.revision.next() {
        Some(revision) => Ok(
            SessionSnapshot {
                status: SessionStatus::Closed,
                revision,
                updated_at: now,
                ..snapshot
            },
        ),
        None => Err(StoreError::Invalid),
    }
}

/// Checks a recorded closing.
pub fn validate_close_replay(snapshot: &SessionSnapshot, session_id: SessionId) -> (result: Result<
    (),
    StoreError,
>)
    ensures
        result == (if snapshot.id == session_id && snapshot.status == SessionStatus::Closed {
            Ok::<(), StoreError>(())
        } else {
            Err(StoreError::Corrupt)
        }),
{
    if snapshot.id == session_id && snapshot.status == SessionStatus::Closed {
        Ok(())
    } else {
        Err(StoreError::Corrupt)
    }
}

/// A wish to own a session for a while.
#[derive(Clone, Copy, PartialEq, Eq, Debug, Structural)]
pub struct AcquireOwnership {
    pub context: RequestContext,
    pub session_id: SessionId,
    pub duration_millis: u64,
}

/// A new ownership: the lease, the highest epoch after it, and the revision of the session.
#[derive(Clone, Copy, PartialEq, Eq, Debug, Structural)]
pub struct OwnershipPlan {
    pub lease: OwnershipLease,
    pub epoch_high_water: u64,
    pub revision: Revision,
}

/// The outcome of a wish to own an open session.
///
/// The lease must last, and no other ownership may hold. The epoch is the next one.
pub open spec fn acquire_outcome(
    command: AcquireOwnership,
    row: SessionRow,
    now: Timestamp,
    max_lease_millis: u64,
) -> Result<OwnershipPlan, Refusal> {
    match bounded_lease_end(now, command.duration_millis, max_lease_millis) {
        Err(error) => Err(Refusal { error, recorded: true }),
        Ok(expires_at) => if !now.spec_before(expires_at) {
            Err(Refusal { error: StoreError::Invalid, recorded: true })
        } else if row.owner is Some && row.owner->Some_0.effective(now) {
            Err(
                Refusal {
                    error: StoreError::OwnershipHeld {
                        ownership: owned_snapshot(row.owner->Some_0),
                    },
                    recorded: true,
                },
            )
        } else if row.epoch_high_water == u64::MAX || row.snapshot.revision.spec_next() is None {
            Err(Refusal { error: StoreError::Corrupt, recorded: false })
        } else {
            Ok(
                OwnershipPlan {
                    lease: OwnershipLease {
                        session_id: command.session_id,
                        owner: command.context.caller,
                        epoch: FencingEpoch((row.epoch_high_water + 1) as u64),
                        expires_at,
                    },
                    epoch_high_water: (row.epoch_high_water + 1) as u64,
                    revision: row.snapshot.revision.spec_next()->Some_0,
                },
            )
        },
    }
}

/// What is told of an ownership that holds.
pub open spec fn owned_snapshot(lease: OwnershipLease) -> OwnershipSnapshot {
    OwnershipSnapshot::Owned {
        host_id: lease.owner,
        epoch: lease.epoch,
        expires_at: lease.expires_at,
    }
}

/// What is told of an ownership that holds.
pub fn ownership_snapshot(lease: OwnershipLease) -> (snapshot: OwnershipSnapshot)
    ensures
        snapshot == owned_snapshot(lease),
{
    OwnershipSnapshot::Owned {
        host_id: lease.owner,
        epoch: lease.epoch,
        expires_at: lease.expires_at,
    }
}

/// Decides a wish to own an open session, at the new time floor.
pub fn acquire_ownership(
    command: AcquireOwnership,
    row: &SessionRow,
    now: Timestamp,
    max_lease_millis: u64,
) -> (result: Result<OwnershipPlan, Refusal>)
    requires
        now.wf(),
    ensures
        result == acquire_outcome(command, *row, now, max_lease_millis),
{
    let expires_at: Timestamp = match expiry(now, command.duration_millis, max_lease_millis) {
        Ok(expires_at) => expires_at,
        Err(error) => {
            return Err(Refusal { error, recorded: true });
        },
    };
    if !now.before(expires_at) {
        return Err(Refusal { error: StoreError::Invalid, recorded: true });
    }
    if let Some(owner) = row.owner {
        if owner.is_effective_at(now) {
            return Err(
                Refusal {
                    error: StoreError::OwnershipHeld { ownership: ownership_snapshot(owner) },
                    recorded: true,
                },
            );
        }
    }
    match (row.epoch_high_water.checked_add(1), row.snapshot.revision.next()) {
        (Some(epoch), Some(revision)) => Ok(
            OwnershipPlan {
                lease: OwnershipLease {
                    session_id: command.session_id,
                    owner: command.context.caller,
                    epoch: FencingEpoch(epoch),
                    expires_at,
                },
                epoch_high_water: epoch,
                revision,
            },
        ),
        _ => Err(Refusal { error: StoreError::Corrupt, recorded: false }),
    }
}

/// The row of a session under a new ownership.
pub open spec fn acquired_row(row: SessionRow, plan: OwnershipPlan, now: Timestamp) -> SessionRow {
    SessionRow {
        snapshot: SessionSnapshot { revision: plan.revision, updated_at: now, ..row.snapshot },
        owner: Some(plan.lease),
        epoch_high_water: plan.epoch_high_water,
        time_floor: now,
    }
}

/// Every new ownership has a greater epoch than any before it, holds from now on, and the
/// session stays well formed under it.
pub proof fn epochs_grow(
    command: AcquireOwnership,
    row: SessionRow,
    now: Timestamp,
    max_lease_millis: u64,
)
    requires
        row.wf(),
        now.wf(),
        command.session_id == row.snapshot.id,
        acquire_outcome(command, row, now, max_lease_millis) is Ok,
    ensures
        ({
            let plan = acquire_outcome(command, row, now, max_lease_millis)->Ok_0;
            let after = acquired_row(row, plan, now);
            &&& plan.lease.epoch.0 > row.epoch_high_water
            &&& row.owner matches Some(previous) ==> plan.lease.epoch.0 > previous.epoch.0
            &&& plan.lease.effective(now)
            &&& !now.spec_before(row.snapshot.created_at) ==> after.wf()
            &&& owner_obstacle(after, command.context.caller, plan.lease.epoch, now) is None
            &&& row.owner matches Some(previous) ==> owner_obstacle(
                after,
                previous.owner,
                previous.epoch,
                now,
            ) is Some
        }),
{
    crate::time::lease_lasts_its_duration(now, command.duration_millis, max_lease_millis);
}

/// At most one ownership holds at a time: none is given while another holds.
pub proof fn ownership_is_exclusive(
    command: AcquireOwnership,
    row: SessionRow,
    now: Timestamp,
    max_lease_millis: u64,
)
    requires
        row.owner is Some,
        row.owner->Some_0.effective(now),
    ensures
        acquire_outcome(command, row, now, max_lease_millis) is Err,
{
}

/// The outcome of a wish of the owner to keep a session longer: the epoch stays.
pub open spec fn renew_outcome(
    context: RequestContext,
    session_id: SessionId,
    epoch: FencingEpoch,
    duration_millis: u64,
    now: Timestamp,
    max_lease_millis: u64,
) -> Result<OwnershipLease, StoreError> {
    match bounded_lease_end(now, duration_millis, max_lease_millis) {
        Err(error) => Err(error),
        Ok(expires_at) => if !now.spec_before(expires_at) {
            Err(StoreError::Invalid)
        } else {
            Ok(OwnershipLease { session_id, owner: context.caller, epoch, expires_at })
        },
    }
}

/// Decides a wish of the owner to keep a session longer. Every refusal is recorded.
pub fn renew_ownership(
    context: RequestContext,
    session_id: SessionId,
    epoch: FencingEpoch,
    duration_millis: u64,
    now: Timestamp,
    max_lease_millis: u64,
) -> (result: Result<OwnershipLease, Refusal>)
    requires
        now.wf(),
    ensures
        result == (match renew_outcome(
            context,
            session_id,
            epoch,
            duration_millis,
            now,
            max_lease_millis,
        ) {
            Ok(lease) => Ok::<OwnershipLease, Refusal>(lease),
            Err(error) => Err(Refusal { error, recorded: true }),
        }),
{
    match expiry(now, duration_millis, max_lease_millis) {
        Ok(expires_at) => if !now.before(expires_at) {
            Err(Refusal { error: StoreError::Invalid, recorded: true })
        } else {
            Ok(OwnershipLease { session_id, owner: context.caller, epoch, expires_at })
        },
        Err(error) => Err(Refusal { error, recorded: true }),
    }
}

/// The row of a session after its owner let it go: it has no owner, it changed now, and the
/// epochs that were given out stay given out.
pub open spec fn released_row(row: SessionRow, now: Timestamp) -> Option<SessionRow> {
    match row.snapshot.revision.spec_next() {
        Some(revision) => Some(
            SessionRow {
                snapshot: SessionSnapshot { revision, updated_at: now, ..row.snapshot },
                owner: None,
                time_floor: now,
                ..row
            },
        ),
        None => None,
    }
}

/// Lets go of a session that the caller owns, at the new time floor.
pub fn release_ownership(row: SessionRow, now: Timestamp) -> (result: Result<
    SessionRow,
    StoreError,
>)
    ensures
        result == (match released_row(row, now) {
            Some(after) => Ok::<SessionRow, StoreError>(after),
            None => Err(StoreError::Corrupt),
        }),
{
    let revision: Revision = match row.snapshot.revision.advance() {
        Ok(revision) => revision,
        Err(error) => {
            return Err(error);
        },
    };
    Ok(
        SessionRow {
            snapshot: SessionSnapshot { revision, updated_at: now, ..row.snapshot },
            owner: None,
            time_floor: now,
            ..row
        },
    )
}

/// Nobody owns a session that was let go: every host is told so, whatever epoch it names.
pub proof fn released_sessions_have_no_owner(
    row: SessionRow,
    now: Timestamp,
    caller: HostId,
    attempted: FencingEpoch,
    later: Timestamp,
)
    ensures
        released_row(row, now) matches Some(after) ==> {
            &&& owner_obstacle(after, caller, attempted, later) == Some(
                StoreError::StaleOwnership {
                    session_id: row.snapshot.id,
                    attempted,
                    current: None,
                },
            )
            &&& after.snapshot.updated_at == now
            &&& after.snapshot.revision.0 == row.snapshot.revision.0 + 1
            &&& after.epoch_high_water == row.epoch_high_water
        },
{
}

/// Who owns a session, as far as can be told at the later of the floor and the clock.
pub fn read_ownership(row: &SessionRow, observed: Timestamp) -> (snapshot: OwnershipSnapshot)
    ensures
        snapshot == (match row.owner {
            Some(lease) => if lease.effective(row.time_floor.spec_max(observed)) {
                owned_snapshot(lease)
            } else {
                OwnershipSnapshot::Unowned
            },
            None => OwnershipSnapshot::Unowned,
        }),
{
    match row.owner {
        Some(lease) => if lease.is_effective_at(row.time_floor.later(observed)) {
            ownership_snapshot(lease)
        } else {
            OwnershipSnapshot::Unowned
        },
        None => OwnershipSnapshot::Unowned,
    }
}

/// What the watchdog of a launch learns.
#[derive(PartialEq, Eq, Debug)]
pub struct LaunchAuthority {
    /// The floor that is remembered for the session, once it was found open.
    pub remembered: Option<Timestamp>,
    /// The refusal, where the authority does not stand.
    pub refusal: Option<StoreError>,
    /// Whether the end of the ownership is to be sealed in the kept floor.
    pub seal: bool,
}

/// What the watchdog of a launch learns: it judges by the latest of the kept floor, the clock,
/// and what it remembers, and an ownership that has ended is sealed.
pub open spec fn launch_authority(
    session_id: SessionId,
    session: Option<SessionRow>,
    remembered: Option<Timestamp>,
    host_id: HostId,
    epoch: FencingEpoch,
    observed: Timestamp,
) -> LaunchAuthority {
    match open_obstacle(session_id, session, false) {
        Some(error) => LaunchAuthority { remembered: None, refusal: Some(error), seal: false },
        None => {
            let row = session->Some_0;
            let seen = row.time_floor.spec_max(observed);
            let effective = match remembered {
                Some(floor) => floor.spec_max(seen),
                None => seen,
            };
            let refusal = owner_obstacle(row, host_id, epoch, effective);
            LaunchAuthority {
                remembered: Some(effective),
                refusal,
                seal: refusal matches Some(StoreError::OwnershipExpired { .. }),
            }
        },
    }
}

/// Judges the authority of a launch.
pub fn validate_launch_authority(
    session_id: SessionId,
    session: Option<&SessionRow>,
    remembered: Option<Timestamp>,
    host_id: HostId,
    epoch: FencingEpoch,
    observed: Timestamp,
) -> (judged: LaunchAuthority)
    ensures
        judged == launch_authority(
            session_id,
            match session {
                Some(session) => Some(*session),
                None => None,
            },
            remembered,
            host_id,
            epoch,
            observed,
        ),
{
    match require_open_session(session_id, session, false) {
        Err(error) => LaunchAuthority { remembered: None, refusal: Some(error), seal: false },
        Ok(_) => match session {
            Some(row) => {
                let seen: Timestamp = row.time_floor.later(observed);
                let effective: Timestamp = match remembered {
                    Some(floor) => floor.later(seen),
                    None => seen,
                };
                match require_owner(row, host_id, epoch, effective) {
                    Ok(_) => LaunchAuthority {
                        remembered: Some(effective),
                        refusal: None,
                        seal: false,
                    },
                    Err(error) => {
                        let seal: bool = match &error {
                            StoreError::OwnershipExpired { .. } => true,
                            _ => false,
                        };
                        LaunchAuthority {
                            remembered: Some(effective),
                            refusal: Some(error),
                            seal,
                        }
                    },
                }
            },
            None => LaunchAuthority {
                remembered: None,
                refusal: Some(StoreError::SessionNotFound { session_id }),
                seal: false,
            },
        },
    }
}

/// What the watchdog remembers never runs back, neither behind the kept floor, nor behind the
/// clock, nor behind what it remembered before.
pub proof fn watchdogs_never_forget(
    session_id: SessionId,
    row: SessionRow,
    remembered: Timestamp,
    host_id: HostId,
    epoch: FencingEpoch,
    observed: Timestamp,
)
    requires
        row.snapshot.status == SessionStatus::Open,
    ensures
        ({
            let judged = launch_authority(
                session_id,
                Some(row),
                Some(remembered),
                host_id,
                epoch,
                observed,
            );
            &&& judged.remembered matches Some(floor)
            &&& !floor.spec_before(remembered)
            &&& !floor.spec_before(row.time_floor)
            &&& !floor.spec_before(observed)
        }),
{
}

/// What the sealing of an ended ownership leads to.
#[derive(PartialEq, Eq, Debug)]
pub struct SealedAuthority {
    /// The floor that is kept from now on; none where the session is not open any more.
    pub floor: Option<Timestamp>,
    /// The refusal, where the authority does not stand.
    pub refusal: Option<StoreError>,
}

/// What the sealing of an ended ownership leads to: the session is judged again as it is now, at
/// the later of its floor and what the watchdog saw, and that is kept.
pub open spec fn sealed_authority(
    session_id: SessionId,
    current: Option<SessionRow>,
    host_id: HostId,
    epoch: FencingEpoch,
    effective: Timestamp,
) -> SealedAuthority {
    match open_obstacle(session_id, current, false) {
        Some(error) => SealedAuthority { floor: None, refusal: Some(error) },
        None => {
            let row = current->Some_0;
            let sealed = row.time_floor.spec_max(effective);
            SealedAuthority {
                floor: Some(sealed),
                refusal: owner_obstacle(row, host_id, epoch, sealed),
            }
        },
    }
}

/// Seals an ownership that was seen to have ended.
pub fn seal_authority(
    session_id: SessionId,
    current: Option<&SessionRow>,
    host_id: HostId,
    epoch: FencingEpoch,
    effective: Timestamp,
) -> (sealed: SealedAuthority)
    ensures
        sealed == sealed_authority(
            session_id,
            match current {
                Some(current) => Some(*current),
                None => None,
            },
            host_id,
            epoch,
            effective,
        ),
{
    let granted: Authorization = authorize(session_id, current, host_id, epoch, false, effective);
    SealedAuthority { floor: granted.time_floor, refusal: granted.refusal }
}

/// What may happen to the row of a session. Each is at the later of the floor and an instant that
/// was observed; what is refused at most raises the floor.
pub enum SessionMove {
    Observed { observed: Timestamp },
    Acquired { command: AcquireOwnership, max_lease_millis: u64, observed: Timestamp },
    Renewed {
        context: RequestContext,
        epoch: FencingEpoch,
        duration_millis: u64,
        max_lease_millis: u64,
        observed: Timestamp,
    },
    Released { caller: HostId, epoch: FencingEpoch, observed: Timestamp },
    Closed { caller: HostId, epoch: FencingEpoch, observed: Timestamp },
}

/// The row of a session after something happened to it.
pub open spec fn moved_row(row: SessionRow, happened: SessionMove) -> SessionRow {
    let observed = match happened {
        SessionMove::Observed { observed } => observed,
        SessionMove::Acquired { observed, .. } => observed,
        SessionMove::Renewed { observed, .. } => observed,
        SessionMove::Released { observed, .. } => observed,
        SessionMove::Closed { observed, .. } => observed,
    };
    let now = row.time_floor.spec_max(observed);
    let raised = SessionRow { time_floor: now, ..row };
    if row.snapshot.status != SessionStatus::Open {
        raised
    } else {
        match happened {
            SessionMove::Observed { .. } => raised,
            SessionMove::Acquired { command, max_lease_millis, .. } => match acquire_outcome(
                command,
                row,
                now,
                max_lease_millis,
            ) {
                Ok(plan) => acquired_row(row, plan, now),
                Err(_) => raised,
            },
            SessionMove::Renewed { context, epoch, duration_millis, max_lease_millis, .. } => {
                match (
                    owner_obstacle(row, context.caller, epoch, now),
                    renew_outcome(
                        context,
                        row.snapshot.id,
                        epoch,
                        duration_millis,
                        now,
                        max_lease_millis,
                    ),
                ) {
                    (None, Ok(lease)) => SessionRow { owner: Some(lease), ..raised },
                    _ => raised,
                }
            },
            SessionMove::Released { caller, epoch, .. } => match (
                owner_obstacle(row, caller, epoch, now),
                released_row(row, now),
            ) {
                (None, Some(after)) => after,
                _ => raised,
            },
            SessionMove::Closed { caller, epoch, .. } => match (
                owner_obstacle(row, caller, epoch, now),
                closed_session(row.snapshot, now),
            ) {
                (None, Some(snapshot)) => SessionRow { snapshot, owner: None, ..raised },
                _ => raised,
            },
        }
    }
}

/// The row of a session after several things happened to it, one after the other.
pub open spec fn row_after(row: SessionRow, happened: Seq<SessionMove>) -> SessionRow
    decreases happened.len(),
{
    if happened.len() == 0 {
        row
    } else {
        moved_row(row_after(row, happened.drop_last()), happened.last())
    }
}

/// Whether an epoch is over for good: it was given out, and no ownership under it holds at the
/// kept floor.
pub open spec fn epoch_over(row: SessionRow, epoch: FencingEpoch) -> bool {
    &&& epoch.0 <= row.epoch_high_water
    &&& row.owner matches Some(lease) ==> lease.epoch == epoch ==> !lease.effective(row.time_floor)
}

/// An epoch that is over stays over, whatever happens to the session: a renewal needs an
/// ownership that holds, and a new ownership has an epoch of its own.
pub proof fn epochs_stay_over(row: SessionRow, epoch: FencingEpoch, happened: Seq<SessionMove>)
    requires
        epoch_over(row, epoch),
    ensures
        epoch_over(row_after(row, happened), epoch),
        !row_after(row, happened).time_floor.spec_before(row.time_floor),
    decreases happened.len(),
{
    if happened.len() > 0 {
        epochs_stay_over(row, epoch, happened.drop_last());
    }
}

/// Once a launch was told that its ownership has ended, and the end was sealed, no later question
/// is answered otherwise: not after renewals, releases and new ownerships, not when the clock runs
/// back, and not when what the watchdog remembered is lost.
pub proof fn sealed_expiry_is_final(
    session_id: SessionId,
    current: SessionRow,
    host_id: HostId,
    epoch: FencingEpoch,
    effective: Timestamp,
    happened: Seq<SessionMove>,
    remembered: Option<Timestamp>,
    observed: Timestamp,
)
    requires
        current.wf(),
        sealed_authority(
            session_id,
            Some(current),
            host_id,
            epoch,
            effective,
        ).refusal matches Some(StoreError::OwnershipExpired { .. }),
    ensures
        ({
            let seal = sealed_authority(session_id, Some(current), host_id, epoch, effective);
            let sealed = SessionRow { time_floor: seal.floor->Some_0, ..current };
            launch_authority(
                session_id,
                Some(row_after(sealed, happened)),
                remembered,
                host_id,
                epoch,
                observed,
            ).refusal is Some
        }),
{
    let seal = sealed_authority(session_id, Some(current), host_id, epoch, effective);
    let sealed = SessionRow { time_floor: seal.floor->Some_0, ..current };
    epochs_stay_over(sealed, epoch, happened);
}

/// An ownership lease as it is recorded.
#[derive(Clone, Copy, PartialEq, Eq, Debug, Structural)]
pub struct LeaseWire {
    pub session_id: SessionId,
    pub owner: HostId,
    pub epoch: u64,
    pub issued_seconds: i64,
    pub issued_nanos: u32,
    pub expires_seconds: i64,
    pub expires_nanos: u32,
}

/// Whether a recorded lease is one: its epoch is at least one, its instants are well formed, and
/// it ends after it was issued.
pub open spec fn wire_sound(wire: LeaseWire) -> bool {
    let issued = Timestamp { seconds: wire.issued_seconds, nanos: wire.issued_nanos };
    let expires = Timestamp { seconds: wire.expires_seconds, nanos: wire.expires_nanos };
    &&& wire.epoch >= 1
    &&& issued.wf()
    &&& expires.wf()
    &&& issued.spec_before(expires)
}

/// Whether a record is read as a lease: it is one, and its identities are accepted by their types.
pub open spec fn wire_reads(wire: LeaseWire, ids_accepted: bool) -> bool {
    ids_accepted && wire_sound(wire)
}

/// The recorded form of a lease.
pub open spec fn lease_wire(lease: OwnershipLease, issued_at: Timestamp) -> LeaseWire {
    LeaseWire {
        session_id: lease.session_id,
        owner: lease.owner,
        epoch: lease.epoch.0,
        issued_seconds: issued_at.seconds,
        issued_nanos: issued_at.nanos,
        expires_seconds: lease.expires_at.seconds,
        expires_nanos: lease.expires_at.nanos,
    }
}

/// The lease in a sound record.
pub open spec fn wire_lease(wire: LeaseWire) -> OwnershipLease {
    OwnershipLease {
        session_id: wire.session_id,
        owner: wire.owner,
        epoch: FencingEpoch(wire.epoch),
        expires_at: Timestamp { seconds: wire.expires_seconds, nanos: wire.expires_nanos },
    }
}

impl LeaseWire {
    /// The record of a lease.
    pub fn from_lease(lease: OwnershipLease, issued_at: Timestamp) -> (wire: LeaseWire)
        ensures
            wire == lease_wire(lease, issued_at),
    {
        LeaseWire {
            session_id: lease.session_id,
            owner: lease.owner,
            epoch: lease.epoch.0,
            issued_seconds: issued_at.seconds,
            issued_nanos: issued_at.nanos,
            expires_seconds: lease.expires_at.seconds,
            expires_nanos: lease.expires_at.nanos,
        }
    }

    /// The lease in a record.
    ///
    /// `ids_accepted` tells whether the identities in the record are accepted by their types.
    pub fn into_lease(self, ids_accepted: bool) -> (result: Result<OwnershipLease, StoreError>)
        ensures
            result == (if wire_reads(self, ids_accepted) {
                Ok::<OwnershipLease, StoreError>(wire_lease(self))
            } else {
                Err(StoreError::Corrupt)
            }),
    {
        match (
            Timestamp::new(self.issued_seconds, self.issued_nanos),
            Timestamp::new(self.expires_seconds, self.expires_nanos),
        ) {
            (Ok(issued), Ok(expires_at)) => if ids_accepted && self.epoch >= 1 && issued.before(
                expires_at,
            ) {
                Ok(
                    OwnershipLease {
                        session_id: self.session_id,
                        owner: self.owner,
                        epoch: FencingEpoch(self.epoch),
                        expires_at,
                    },
                )
            } else {
                Err(StoreError::Corrupt)
            },
            _ => Err(StoreError::Corrupt),
        }
    }
}

/// A recorded lease is read back as it was given: the identities of a lease are accepted.
pub proof fn leases_read_back(lease: OwnershipLease, issued_at: Timestamp)
    requires
        lease.epoch.0 >= 1,
        issued_at.wf(),
        lease.expires_at.wf(),
        lease.effective(issued_at),
    ensures
        wire_reads(lease_wire(lease, issued_at), true),
        wire_lease(lease_wire(lease, issued_at)) == lease,
{
}

/// A record is read as a lease exactly when its identities are accepted, its epoch was given out,
/// its instants are instants, and it ends after it was issued; what is read is recorded as it was.
pub proof fn refused_records_are_corruption(wire: LeaseWire, ids_accepted: bool)
    ensures
        !ids_accepted ==> !wire_reads(wire, ids_accepted),
        wire.epoch == 0 ==> !wire_reads(wire, ids_accepted),
        wire.issued_nanos >= NANOS_PER_SECOND ==> !wire_reads(wire, ids_accepted),
        wire.expires_nanos >= NANOS_PER_SECOND ==> !wire_reads(wire, ids_accepted),
        wire_reads(wire, ids_accepted) ==> {
            let issued = Timestamp { seconds: wire.issued_seconds, nanos: wire.issued_nanos };
            &&& wire_lease(wire).effective(issued)
            &&& lease_wire(wire_lease(wire), issued) == wire
        },
{
}

/// Whether a recorded lease answers a repeated wish: the same session, host and duration, and
/// the same epoch where the wish names one.
pub open spec fn lease_answers(
    wire: LeaseWire,
    session_id: SessionId,
    caller: HostId,
    epoch: Option<FencingEpoch>,
    duration_millis: u64,
) -> bool {
    let issued = Timestamp { seconds: wire.issued_seconds, nanos: wire.issued_nanos };
    let expires = Timestamp { seconds: wire.expires_seconds, nanos: wire.expires_nanos };
    &&& on_calendar(wire.issued_seconds as int)
    &&& on_calendar(wire.expires_seconds as int)
    &&& wire.session_id == session_id
    &&& wire.owner == caller
    &&& epoch matches Some(expected) ==> wire.epoch == expected.0
    &&& elapsed_millis(issued, expires) == duration_millis
}

fn calendar_covers(seconds: i64) -> (result: bool)
    ensures
        result == on_calendar(seconds as int),
{
    FIRST_CALENDAR_SECOND <= seconds && seconds <= LAST_CALENDAR_SECOND
}

/// Reads a recorded lease and checks it against a repeated wish.
///
/// `ids_accepted` tells whether the identities in the record are accepted by their types.
pub fn validate_lease_replay(
    wire: LeaseWire,
    ids_accepted: bool,
    session_id: SessionId,
    caller: HostId,
    epoch: Option<FencingEpoch>,
    duration_millis: u64,
) -> (result: Result<OwnershipLease, StoreError>)
    ensures
        result == (if wire_reads(wire, ids_accepted) && lease_answers(
            wire,
            session_id,
            caller,
            epoch,
            duration_millis,
        ) {
            Ok::<OwnershipLease, StoreError>(wire_lease(wire))
        } else {
            Err(StoreError::Corrupt)
        }),
{
    let lease: OwnershipLease = match wire.into_lease(ids_accepted) {
        Ok(lease) => lease,
        Err(error) => {
            return Err(error);
        },
    };
    let issued = Timestamp { seconds: wire.issued_seconds, nanos: wire.issued_nanos };
    let other_epoch: bool = match epoch {
        Some(expected) => wire.epoch != expected.0,
        None => false,
    };
    if !calendar_covers(wire.issued_seconds) || !calendar_covers(wire.expires_seconds)
        || wire.session_id != session_id || wire.owner != caller || other_epoch || !elapsed_is(
        issued,
        lease.expires_at,
        duration_millis,
    ) {
        return Err(StoreError::Corrupt);
    }
    Ok(lease)
}

/// An ownership that was given and recorded answers the same wish again with the same lease.
pub proof fn acquisitions_replay(
    command: AcquireOwnership,
    row: SessionRow,
    now: Timestamp,
    max_lease_millis: u64,
)
    requires
        now.wf(),
        acquire_outcome(command, row, now, max_lease_millis) is Ok,
    ensures
        ({
            let lease = acquire_outcome(command, row, now, max_lease_millis)->Ok_0.lease;
            let wire = lease_wire(lease, now);
            &&& wire_reads(wire, true)
            &&& lease_answers(
                wire,
                command.session_id,
                command.context.caller,
                None,
                command.duration_millis,
            )
            &&& wire_lease(wire) == lease
        }),
{
    crate::time::lease_lasts_its_duration(now, command.duration_millis, max_lease_millis);
}

/// A page of events, as far as its size goes: how many of the found events it holds, and whether
/// there are more.
///
/// One more event than fits is looked for.
pub fn event_page(found: usize, limit: usize) -> (result: (usize, bool))
    ensures
        result.0 == if found <= limit {
            found
        } else {
            limit
        },
        result.1 == (found > limit),
{
    if found > limit {
        (limit, true)
    } else {
        (found, false)
    }
}

} // verus!
