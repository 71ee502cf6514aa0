//! Reading a read model page by page with authenticated page tokens.

use crate::error::StoreError;
use crate::ids::SessionId;
use crate::projection::fold::{checkpoint_position, position_of, PROJECTION_GRACE_SECONDS};
use crate::projection::{view_text, ProjectionView};
use crate::text::{format_uuid, same_text, uuid_text};
use crate::time::{decode_timestamp, Timestamp, NANOS_PER_SECOND};
use hmac::Mac;
use vstd::prelude::*;
use vstd::string::{StrSliceExecFns, StringSliceAdditionalSpecFns};

verus! {

/// The HMAC-SHA256 tag of a message under a key.
pub uninterp spec fn hmac_sha256(key: Seq<u8>, message: Seq<u8>) -> Seq<u8>;

/// The bytes that `serde_json::to_vec` writes for the list of the coordinates of a page.
pub uninterp spec fn coordinates_json(
    consumer: Seq<char>,
    session: Seq<char>,
    view: Seq<char>,
    generation: u64,
    checkpoint: u64,
    expires_seconds: i64,
    page_size: u16,
    last_sort: Seq<char>,
    last_item: Seq<char>,
) -> Seq<u8>;

/// `hmac::Hmac<sha2::Sha256>`: `new_from_slice` takes a key of any length, and the tag that
/// `finalize` gives after `update` is a function of the key and the message.
#[verifier::external_body]
fn hmac_tag(key: &[u8; 32], message: &Vec<u8>) -> (tag: [u8; 32])
    ensures
        tag@ == hmac_sha256(key@, message@),
{
    let mut mac = hmac::Hmac::<sha2::Sha256>::new_from_slice(key).expect("keys of any length fit");
    mac.update(message);
    mac.finalize().into_bytes().into()
}

/// `Mac::verify_slice` of `hmac::Hmac<sha2::Sha256>`: a tag of full length is accepted exactly
/// when it is the tag of the message.
#[verifier::external_body]
fn hmac_accepts(key: &[u8; 32], message: &Vec<u8>, tag: &[u8; 32]) -> (accepted: bool)
    ensures
        accepted == (tag@ == hmac_sha256(key@, message@)),
{
    let mut mac = hmac::Hmac::<sha2::Sha256>::new_from_slice(key).expect("keys of any length fit");
    mac.update(message);
    mac.verify_slice(tag).is_ok()
}

/// `serde_json::to_vec` of a tuple of texts and integers, which always succeeds and depends on
/// these values alone.
#[verifier::external_body]
fn encode_coordinates(
    consumer: &str,
    session: &str,
    view: &str,
    coordinates: &PageCoordinates,
) -> (bytes: Vec<u8>)
    ensures
        bytes@ == coordinates_json(
            consumer@,
            session@,
            view@,
            coordinates.generation,
            coordinates.checkpoint,
            coordinates.expires_seconds,
            coordinates.page_size,
            coordinates.last_sort_key@,
            coordinates.last_item_key@,
        ),
{
    serde_json::to_vec(&(
        consumer,
        session,
        view,
        coordinates.generation,
        coordinates.checkpoint,
        coordinates.expires_seconds,
        coordinates.page_size,
        coordinates.last_sort_key.as_str(),
        coordinates.last_item_key.as_str(),
    )).expect("texts and integers serialize")
}

/// Everything that a page token pins: the session, the read model, its generation and
/// checkpoint, the end of the token, the page size, and the last row that was read.
#[derive(PartialEq, Eq, Debug)]
pub struct PageCoordinates {
    pub session_id: SessionId,
    pub view: ProjectionView,
    pub generation: u64,
    pub checkpoint: u64,
    pub expires_seconds: i64,
    pub page_size: u16,
    pub last_sort_key: String,
    pub last_item_key: String,
}

/// A page token: coordinates and the tag that vouches for them.
#[derive(PartialEq, Eq, Debug)]
pub struct ProjectionTokenWire {
    pub coordinates: PageCoordinates,
    pub signature: [u8; 32],
}

/// The message whose tag vouches for coordinates.
pub open spec fn token_message(consumer: Seq<char>, coordinates: PageCoordinates) -> Seq<u8> {
    "navigator.projection.page-token.v1\0".spec_bytes() + coordinates_json(
        consumer,
        uuid_text(coordinates.session_id.0),
        view_text(coordinates.view),
        coordinates.generation,
        coordinates.checkpoint,
        coordinates.expires_seconds,
        coordinates.page_size,
        coordinates.last_sort_key@,
        coordinates.last_item_key@,
    )
}

/// The tag that vouches for coordinates.
pub open spec fn token_tag(
    key: Seq<u8>,
    consumer: Seq<char>,
    coordinates: PageCoordinates,
) -> Seq<u8> {
    hmac_sha256(key, token_message(consumer, coordinates))
}

fn message_of(consumer: &str, coordinates: &PageCoordinates) -> (message: Vec<u8>)
    ensures
        message@ == token_message(consumer@, *coordinates),
{
    let mut message: Vec<u8> = "navigator.projection.page-token.v1\0".as_bytes_vec();
    let session: String = format_uuid(coordinates.session_id.0);
    let mut bytes: Vec<u8> = encode_coordinates(
        consumer,
        session.as_str(),
        coordinates.view.as_str(),
        coordinates,
    );
    message.append(&mut bytes);
    message
}

/// The tag of coordinates for a consumer.
pub fn projection_signature(key: &[u8; 32], consumer: &str, coordinates: &PageCoordinates) -> (tag:
    [u8; 32])
    ensures
        tag@ == token_tag(key@, consumer@, *coordinates),
{
    hmac_tag(key, &message_of(consumer, coordinates))
}

/// Whether a token carries the tag of its coordinates for a consumer.
pub fn verify_projection_signature(key: &[u8; 32], consumer: &str, wire: &ProjectionTokenWire) -> (
result: bool)
    ensures
        result == (wire.signature@ == token_tag(key@, consumer@, wire.coordinates)),
{
    hmac_accepts(key, &message_of(consumer, &wire.coordinates), &wire.signature)
}

/// A token for coordinates.
pub fn projection_token(key: &[u8; 32], consumer: &str, coordinates: PageCoordinates) -> (wire:
    ProjectionTokenWire)
    ensures
        wire.coordinates == coordinates,
        wire.signature@ == token_tag(key@, consumer@, coordinates),
{
    let signature: [u8; 32] = projection_signature(key, consumer, &coordinates);
    ProjectionTokenWire { coordinates, signature }
}

/// A request for a page of a read model.
#[derive(PartialEq, Eq, Debug)]
pub struct ReadProjection {
    pub session_id: SessionId,
    pub view: ProjectionView,
    pub consumer: String,
    pub page_size: u16,
}

/// Where a page begins.
#[derive(PartialEq, Eq, Debug)]
pub struct PageStart {
    pub generation: u64,
    pub checkpoint: u64,
    pub last_sort_key: String,
    pub last_item_key: String,
    pub expires_seconds: Option<i64>,
}

/// Whether a token belongs to a request and carries its tag.
pub open spec fn token_admissible(
    key: Seq<u8>,
    query: ReadProjection,
    wire: ProjectionTokenWire,
) -> bool {
    &&& wire.coordinates.session_id == query.session_id
    &&& wire.coordinates.view == query.view
    &&& wire.coordinates.page_size == query.page_size
    &&& wire.signature@ == token_tag(key, query.consumer@, wire.coordinates)
}

/// Where the page after a token begins: at the generation and the checkpoint that the token pins,
/// after the last row that it names.
pub open spec fn start_after(wire: ProjectionTokenWire) -> PageStart {
    PageStart {
        generation: wire.coordinates.generation,
        checkpoint: wire.coordinates.checkpoint,
        last_sort_key: wire.coordinates.last_sort_key,
        last_item_key: wire.coordinates.last_item_key,
        expires_seconds: Some(wire.coordinates.expires_seconds),
    }
}

/// Where a page that continues after a token begins.
///
/// `session_consumer` is the consumer of the session, and `token` is nothing where the text of
/// the token could not be read.
pub fn continue_page(
    key: &[u8; 32],
    session_consumer: &str,
    query: &ReadProjection,
    token: Option<ProjectionTokenWire>,
) -> (result: Result<PageStart, StoreError>)
    ensures
        match result {
            Ok(start) => {
                &&& session_consumer@ == query.consumer@
                &&& token matches Some(wire)
                &&& token_admissible(key@, *query, wire)
                &&& start == start_after(wire)
            },
            Err(error) => error == StoreError::Invalid && !(session_consumer@ == query.consumer@ && (
            token matches Some(wire) && token_admissible(key@, *query, wire))),
        },
{
    if !same_text(session_consumer, query.consumer.as_str()) {
        return Err(StoreError::Invalid);
    }
    match token {
        Some(wire) => {
            if wire.coordinates.session_id != query.session_id || wire.coordinates.view
                != query.view || wire.coordinates.page_size != query.page_size
                || !verify_projection_signature(key, query.consumer.as_str(), &wire) {
                return Err(StoreError::Invalid);
            }
            Ok(
                PageStart {
                    generation: wire.coordinates.generation,
                    checkpoint: wire.coordinates.checkpoint,
                    last_sort_key: wire.coordinates.last_sort_key,
                    last_item_key: wire.coordinates.last_item_key,
                    expires_seconds: Some(wire.coordinates.expires_seconds),
                },
            )
        },
        None => Err(StoreError::Invalid),
    }
}

/// Where the first page of a read model begins.
///
/// `head` is the published generation with its checkpoint; before anything is published there
/// is none.
pub fn first_page(session_consumer: &str, query: &ReadProjection, head: Option<(i64, i64)>) -> (
result: Result<PageStart, StoreError>)
    ensures
        if session_consumer@ != query.consumer@ {
            result == Err::<PageStart, StoreError>(StoreError::Invalid)
        } else {
            match head {
                None => result == Err::<PageStart, StoreError>(StoreError::Unavailable),
                Some((generation, checkpoint)) => if generation < 0 || checkpoint < 0 {
                    result == Err::<PageStart, StoreError>(StoreError::Corrupt)
                } else {
                    result matches Ok(start) && start.generation == generation && start.checkpoint
                        == checkpoint && start.last_sort_key@.len() == 0
                        && start.last_item_key@.len() == 0 && start.expires_seconds is None
                },
            }
        },
{
    if !same_text(session_consumer, query.consumer.as_str()) {
        return Err(StoreError::Invalid);
    }
    match head {
        None => Err(StoreError::Unavailable),
        Some((generation, checkpoint)) => {
            if generation < 0 || checkpoint < 0 {
                return Err(StoreError::Corrupt);
            }
            Ok(
                PageStart {
                    generation: generation as u64,
                    checkpoint: checkpoint as u64,
                    last_sort_key: String::new(),
                    last_item_key: String::new(),
                    expires_seconds: None,
                },
            )
        },
    }
}

/// The generation that a page is read from, as it is kept.
#[derive(Clone, Copy, PartialEq, Eq, Debug, Structural)]
pub struct PinnedGeneration {
    pub checkpoint: i64,
    pub floor_seconds: i64,
    pub floor_nanos: i64,
}

/// The time floor of a kept generation.
pub open spec fn floor_of(pinned: PinnedGeneration) -> Timestamp {
    Timestamp { seconds: pinned.floor_seconds, nanos: pinned.floor_nanos as u32 }
}

/// Whether a page may be served from a generation, and the instant that counts.
///
/// The generation must still be kept and stand on the checkpoint of the page, and a token must
/// not have run out on the later of the clock and the floor of the generation.
pub open spec fn page_admission(
    start: PageStart,
    pinned: Option<PinnedGeneration>,
    now: Timestamp,
) -> Result<Timestamp, StoreError> {
    match pinned {
        _ if start.generation > i64::MAX => Err(StoreError::Invalid),
        None => Err(StoreError::ProjectionStale),
        Some(pinned) => if start.checkpoint > i64::MAX {
            Err(StoreError::Invalid)
        } else if pinned.checkpoint != start.checkpoint {
            Err(StoreError::ProjectionStale)
        } else if !(0 <= pinned.floor_nanos < NANOS_PER_SECOND) {
            Err(StoreError::Corrupt)
        } else {
            let effective = now.spec_max(floor_of(pinned));
            match start.expires_seconds {
                Some(expires) => if effective.seconds >= expires {
                    Err(StoreError::ProjectionStale)
                } else {
                    Ok(effective)
                },
                None => Ok(effective),
            }
        },
    }
}

/// Decides whether a page may be served from a generation.
pub fn admit_page(start: &PageStart, pinned: Option<PinnedGeneration>, now: Timestamp) -> (result:
    Result<Timestamp, StoreError>)
    ensures
        result == page_admission(*start, pinned, now),
{
    if start.generation > i64::MAX as u64 {
        return Err(StoreError::Invalid);
    }
    match pinned {
        None => Err(StoreError::ProjectionStale),
        Some(pinned) => {
            if start.checkpoint > i64::MAX as u64 {
                return Err(StoreError::Invalid);
            }
            if pinned.checkpoint != start.checkpoint as i64 {
                return Err(StoreError::ProjectionStale);
            }
            let floor: Timestamp = match decode_timestamp(
                pinned.floor_seconds,
                pinned.floor_nanos,
            ) {
                Ok(floor) => floor,
                Err(error) => {
                    return Err(error);
                },
            };
            let effective: Timestamp = now.later(floor);
            match start.expires_seconds {
                Some(expires) => if effective.seconds >= expires {
                    Err(StoreError::ProjectionStale)
                } else {
                    Ok(effective)
                },
                None => Ok(effective),
            }
        },
    }
}

/// A row of a read model.
#[derive(PartialEq, Eq, Debug)]
pub struct PageRow {
    pub item_key: String,
    pub sort_key: String,
    pub data: Vec<u8>,
}

/// A page of a read model.
pub struct ProjectionPage {
    pub generation: u64,
    pub checkpoint_position: Option<u64>,
    pub source_head_position: Option<u64>,
    pub items: Vec<PageRow>,
    pub next_page_token: Option<ProjectionTokenWire>,
}

/// Whether a token continues a page: it names the page, its last row, and an end one grace
/// period after the instant that counts, and it carries its tag.
pub open spec fn continues(
    key: Seq<u8>,
    query: ReadProjection,
    start: PageStart,
    effective: Timestamp,
    last: PageRow,
    wire: ProjectionTokenWire,
) -> bool {
    &&& wire.coordinates.session_id == query.session_id
    &&& wire.coordinates.view == query.view
    &&& wire.coordinates.generation == start.generation
    &&& wire.coordinates.checkpoint == start.checkpoint
    &&& wire.coordinates.expires_seconds == effective.seconds + PROJECTION_GRACE_SECONDS
    &&& wire.coordinates.page_size == query.page_size
    &&& wire.coordinates.last_sort_key@ == last.sort_key@
    &&& wire.coordinates.last_item_key@ == last.item_key@
    &&& wire.signature@ == token_tag(key, query.consumer@, wire.coordinates)
}

/// Whether a page can be completed from the rows that were found.
pub open spec fn page_completes(
    query: ReadProjection,
    effective: Timestamp,
    found: nat,
    source_head: i64,
) -> bool {
    &&& source_head >= 0
    &&& found > query.page_size ==> query.page_size > 0 && effective.seconds
        + PROJECTION_GRACE_SECONDS <= i64::MAX
}

/// Whether a page is what the rows that were found make: it holds those that fit, and where there
/// are more, it carries a token that continues after its last row.
pub open spec fn page_made(
    key: Seq<u8>,
    query: ReadProjection,
    start: PageStart,
    effective: Timestamp,
    found: Seq<PageRow>,
    source_head: i64,
    page: ProjectionPage,
) -> bool {
    let size = query.page_size as int;
    &&& page.generation == start.generation
    &&& page.checkpoint_position == checkpoint_position(start.checkpoint)
    &&& page.source_head_position == checkpoint_position(source_head as u64)
    &&& if found.len() <= size {
        page.items@ == found && page.next_page_token is None
    } else {
        page.items@ == found.take(size) && (page.next_page_token matches Some(wire) && continues(
            key,
            query,
            start,
            effective,
            found[size - 1],
            wire,
        ))
    }
}

/// Completes a page from the rows found after its start, one more than fit where there are more.
///
/// The page holds the rows that fit. Where there are more, it carries a token that continues
/// after its last row.
pub fn finish_page(
    key: &[u8; 32],
    query: &ReadProjection,
    start: &PageStart,
    effective: Timestamp,
    rows: Vec<PageRow>,
    source_head: i64,
) -> (result: Result<ProjectionPage, StoreError>)
    ensures
        match result {
            Ok(page) => {
                &&& page_completes(*query, effective, rows.len() as nat, source_head)
                &&& page_made(key@, *query, *start, effective, rows@, source_head, page)
            },
            Err(error) => error == StoreError::Corrupt && !page_completes(
                *query,
                effective,
                rows.len() as nat,
                source_head,
            ),
        },
{
    let size: usize = query.page_size as usize;
    let mut items: Vec<PageRow> = rows;
    let next_page_token: Option<ProjectionTokenWire> = if items.len() > size {
        if size == 0 {
            return Err(StoreError::Corrupt);
        }
        let expires_seconds: i64 = match effective.seconds.checked_add(PROJECTION_GRACE_SECONDS) {
            Some(expires) => expires,
            None => {
                return Err(StoreError::Corrupt);
            },
        };
        items.truncate(size);
        assert(items@ =~= rows@.take(size as int));
        let coordinates = PageCoordinates {
            session_id: query.session_id,
            view: query.view,
            generation: start.generation,
            checkpoint: start.checkpoint,
            expires_seconds,
            page_size: query.page_size,
            last_sort_key: items[size - 1].sort_key.clone(),
            last_item_key: items[size - 1].item_key.clone(),
        };
        Some(projection_token(key, query.consumer.as_str(), coordinates))
    } else {
        None
    };
    if source_head < 0 {
        return Err(StoreError::Corrupt);
    }
    Ok(
        ProjectionPage {
            generation: start.generation,
            checkpoint_position: position_of(start.checkpoint),
            source_head_position: position_of(source_head as u64),
            items,
            next_page_token,
        },
    )
}

/// A token that a page carries is accepted for the same request, and pins the same generation
/// and checkpoint.
pub proof fn issued_tokens_are_accepted(
    key: Seq<u8>,
    query: ReadProjection,
    start: PageStart,
    effective: Timestamp,
    last: PageRow,
    wire: ProjectionTokenWire,
)
    requires
        continues(key, query, start, effective, last, wire),
    ensures
        token_admissible(key, query, wire),
        wire.coordinates.generation == start.generation,
        wire.coordinates.checkpoint == start.checkpoint,
{
}

/// A token serves until its end and never after: at the instant it was issued it has the whole
/// grace period left, and once the clock or the floor reaches its end the page is stale.
pub proof fn tokens_run_out(
    start: PageStart,
    pinned: PinnedGeneration,
    issued: Timestamp,
    now: Timestamp,
)
    requires
        start.generation <= i64::MAX,
        start.checkpoint <= i64::MAX,
        pinned.checkpoint == start.checkpoint,
        0 <= pinned.floor_nanos < NANOS_PER_SECOND,
        start.expires_seconds matches Some(expires) && expires == issued.seconds
            + PROJECTION_GRACE_SECONDS,
    ensures
        page_admission(start, Some(pinned), now) is Ok <==> now.seconds < issued.seconds
            + PROJECTION_GRACE_SECONDS && pinned.floor_seconds < issued.seconds
            + PROJECTION_GRACE_SECONDS,
{
}

} // verus!
