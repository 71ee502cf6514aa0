//! Identities, digests and counters that name the rows of the store.
//!
//! An identity is the 128-bit value of its UUID.

use crate::error::StoreError;
use crate::identity::{id_bytes, id_bytes_are_distinct, push_id};
use crate::text::{format_uuid, parse_uuid, same_text, uuid_text, uuid_value};
use vstd::prelude::*;

verus! {

/// Identity of a session.
#[derive(Clone, Copy, PartialEq, Eq, Debug, Structural)]
pub struct SessionId(pub u128);

/// Identity of a participant.
#[derive(Clone, Copy, PartialEq, Eq, Debug, Structural)]
pub struct ParticipantId(pub u128);

/// Identity of an operation.
#[derive(Clone, Copy, PartialEq, Eq, Debug, Structural)]
pub struct OperationId(pub u128);

/// Identity of a message.
#[derive(Clone, Copy, PartialEq, Eq, Debug, Structural)]
pub struct MessageId(pub u128);

/// Identity of a mutating request.
#[derive(Clone, Copy, PartialEq, Eq, Debug, Structural)]
pub struct RequestId(pub u128);

/// Identity of a host that may own sessions.
#[derive(Clone, Copy, PartialEq, Eq, Debug, Structural)]
pub struct HostId(pub u128);

/// Identity of a participant template.
#[derive(Clone, Copy, PartialEq, Eq, Debug, Structural)]
pub struct TemplateId(pub u128);

/// Identity of one delivery attempt.
#[derive(Clone, Copy, PartialEq, Eq, Debug, Structural)]
pub struct DeliveryAttemptId(pub u128);

/// Identity of one launch attempt.
#[derive(Clone, Copy, PartialEq, Eq, Debug, Structural)]
pub struct LaunchAttemptId(pub u128);

/// Identity of a running driver instance.
#[derive(Clone, Copy, PartialEq, Eq, Debug, Structural)]
pub struct InstanceId(pub u128);

/// Identity of a driver.
#[derive(Clone, Copy, PartialEq, Eq, Debug, Structural)]
pub struct DriverId(pub u128);

/// Identity of an artifact.
#[derive(Clone, Copy, PartialEq, Eq, Debug, Structural)]
pub struct ArtifactId(pub u128);

/// Identity of an authority grant.
#[derive(Clone, Copy, PartialEq, Eq, Debug, Structural)]
pub struct GrantId(pub u128);

/// Identity of a tool invocation.
#[derive(Clone, Copy, PartialEq, Eq, Debug, Structural)]
pub struct ToolInvocationId(pub u128);

/// Identity of a registered tool.
#[derive(Clone, Copy, PartialEq, Eq, Debug, Structural)]
pub struct ToolRegistrationId(pub u128);

/// Identity of a tool provider.
#[derive(Clone, Copy, PartialEq, Eq, Debug, Structural)]
pub struct ToolProviderId(pub u128);

/// Identity of an approval request.
#[derive(Clone, Copy, PartialEq, Eq, Debug, Structural)]
pub struct ApprovalId(pub u128);

/// The identity of a connection of a tool provider.
#[derive(Clone, Copy, PartialEq, Eq, Debug, Structural)]
pub struct ToolConnectionId(pub u128);

/// The identity of a dispatch of a tool invocation.
#[derive(Clone, Copy, PartialEq, Eq, Debug, Structural)]
pub struct ToolDispatchId(pub u128);

/// The identity of a request to cancel a tool invocation.
#[derive(Clone, Copy, PartialEq, Eq, Debug, Structural)]
pub struct ToolCancellationId(pub u128);

/// A 256-bit digest, split into its first and its last sixteen bytes.
#[derive(Clone, Copy, PartialEq, Eq, Debug, Structural)]
pub struct Digest {
    pub high: u128,
    pub low: u128,
}

/// A revision of a row. Stored revisions start at one.
#[derive(Clone, Copy, PartialEq, Eq, Debug, Structural)]
pub struct Revision(pub u64);

/// A fencing epoch of session ownership. Epochs start at one.
#[derive(Clone, Copy, PartialEq, Eq, Debug, Structural)]
pub struct FencingEpoch(pub u64);

impl Revision {
    /// The revision that follows, where the counter has one.
    pub open spec fn spec_next(self) -> Option<Revision> {
        if self.0 < u64::MAX {
            Some(Revision((self.0 + 1) as u64))
        } else {
            None
        }
    }

    /// The first revision of every row.
    pub fn initial() -> (revision: Revision)
        ensures
            revision == Revision(1),
    {
        Revision(1)
    }

    /// The revision that follows this one.
    pub fn next(self) -> (revision: Option<Revision>)
        ensures
            revision == self.spec_next(),
    {
        if self.0 < u64::MAX {
            Some(Revision(self.0 + 1))
        } else {
            None
        }
    }

    /// The revision that follows this one, or a corruption error when the counter is exhausted.
    pub fn advance(self) -> (revision: Result<Revision, StoreError>)
        ensures
            revision == (match self.spec_next() {
                Some(next) => Ok::<Revision, StoreError>(next),
                None => Err(StoreError::Corrupt),
            }),
    {
        match self.next() {
            Some(next) => Ok(next),
            None => Err(StoreError::Corrupt),
        }
    }
}

/// A stored integer read as a counter: negative values are corruption.
pub fn to_u64(value: i64) -> (result: Result<u64, StoreError>)
    ensures
        value >= 0 ==> result == Ok::<u64, StoreError>(value as u64),
        value < 0 ==> result == Err::<u64, StoreError>(StoreError::Corrupt),
{
    if value >= 0 {
        Ok(value as u64)
    } else {
        Err(StoreError::Corrupt)
    }
}

/// A counter written as a stored integer: values beyond the signed range are corruption.
pub fn to_i64(value: u64) -> (result: Result<i64, StoreError>)
    ensures
        value <= i64::MAX ==> result == Ok::<i64, StoreError>(value as i64),
        value > i64::MAX ==> result == Err::<i64, StoreError>(StoreError::Corrupt),
{
    if value <= i64::MAX as u64 {
        Ok(value as i64)
    } else {
        Err(StoreError::Corrupt)
    }
}

/// A stored revision: it is at least one.
pub fn decode_revision(value: i64) -> (result: Result<Revision, StoreError>)
    ensures
        value >= 1 ==> result == Ok::<Revision, StoreError>(Revision(value as u64)),
        value < 1 ==> result == Err::<Revision, StoreError>(StoreError::Corrupt),
{
    if value >= 1 {
        Ok(Revision(value as u64))
    } else {
        Err(StoreError::Corrupt)
    }
}

/// A stored fencing epoch: it is at least one.
pub fn decode_epoch(value: i64) -> (result: Result<FencingEpoch, StoreError>)
    ensures
        value >= 1 ==> result == Ok::<FencingEpoch, StoreError>(FencingEpoch(value as u64)),
        value < 1 ==> result == Err::<FencingEpoch, StoreError>(StoreError::Corrupt),
{
    if value >= 1 {
        Ok(FencingEpoch(value as u64))
    } else {
        Err(StoreError::Corrupt)
    }
}

/// A counter that can be stored is read back as it was written.
pub proof fn stored_counters_read_back(value: u64)
    requires
        value <= i64::MAX,
    ensures
        (value as i64) >= 0,
        (value as i64) as u64 == value,
{
}

/// The thirty-two bytes of a digest: those of its two halves, each the most significant first.
pub open spec fn digest_bytes(digest: Digest) -> Seq<u8> {
    id_bytes(digest.high) + id_bytes(digest.low)
}

/// The bytes of a digest, as they are stored.
pub fn encode_digest(digest: Digest) -> (bytes: Vec<u8>)
    ensures
        bytes@ == digest_bytes(digest),
{
    let mut bytes: Vec<u8> = Vec::new();
    push_id(&mut bytes, digest.high);
    push_id(&mut bytes, digest.low);
    assert(bytes@ =~= digest_bytes(digest));
    bytes
}

/// The number whose sixteen bytes stand in the given ones from `start` on.
fn read_half(bytes: &Vec<u8>, start: usize) -> (value: u128)
    requires
        start + 16 <= bytes.len(),
    ensures
        id_bytes(value) == bytes@.subrange(start as int, start + 16),
{
    let mut value: u128 = 0;
    let mut index: u128 = 0;
    assert(value >> 0u128 == 0) by (bit_vector)
        requires
            value == 0,
    ;
    while index < 16
        invariant
            index <= 16,
            start + 16 <= bytes.len(),
            index < 16 ==> value >> ((8 * index) as u128) == 0,
            forall|i: int|
                0 <= i < index ==> #[trigger] bytes[start + i] == ((value >> ((8 * (index - 1 - i))
                    as u128)) & 0xff) as u8,
        decreases 16 - index,
    {
        let byte: u128 = bytes[start + index as usize] as u128;
        let next: u128 = (value << 8u128) | byte;
        proof {
            let width = (8 * index) as u128;
            let wider = (8 * index + 8) as u128;
            if index < 15 {
                assert(next >> wider == 0) by (bit_vector)
                    requires
                        next == (value << 8u128) | byte,
                        byte <= 0xff,
                        wider == width + 8,
                        width <= 112,
                        value >> width == 0,
                ;
            }
            assert((next >> 0u128) & 0xff == byte) by (bit_vector)
                requires
                    next == (value << 8u128) | byte,
                    byte <= 0xff,
            ;
            assert forall|i: int| 0 <= i < index + 1 implies #[trigger] bytes[start + i] == ((next
                >> ((8 * (index - i)) as u128)) & 0xff) as u8 by {
                if i < index {
                    let shift = (8 * (index - 1 - i)) as u128;
                    let further = (8 * (index - i)) as u128;
                    assert((next >> further) & 0xff == (value >> shift) & 0xff) by (bit_vector)
                        requires
                            next == (value << 8u128) | byte,
                            byte <= 0xff,
                            further == shift + 8,
                            shift <= 112,
                            width <= 120,
                            value >> width == 0,
                    ;
                }
            }
        }
        value = next;
        index = index + 1;
    }
    let ghost half = bytes@.subrange(start as int, start + 16);
    assert forall|i: int| 0 <= i < 16 implies #[trigger] id_bytes(value)[i] == half[i] by {
        assert(half[i] == bytes[start + i]);
        assert(8 * (index - 1 - i) == 120 - 8 * i);
    }
    assert(id_bytes(value) =~= half);
    value
}

/// Reads a stored digest; bytes of any other number than thirty-two are not one.
pub fn decode_digest(bytes: &Vec<u8>) -> (result: Result<Digest, StoreError>)
    ensures
        match result {
            Ok(digest) => bytes.len() == 32 && bytes@ == digest_bytes(digest),
            Err(error) => error == StoreError::Corrupt && bytes.len() != 32,
        },
{
    if bytes.len() != 32 {
        return Err(StoreError::Corrupt);
    }
    let high: u128 = read_half(bytes, 0);
    let low: u128 = read_half(bytes, 16);
    let digest = Digest { high, low };
    assert(bytes@ =~= digest_bytes(digest));
    Ok(digest)
}

/// A digest has thirty-two bytes, and no two have the same ones, so a digest that was stored is
/// read back as it was written.
pub proof fn digests_read_back(left: Digest, right: Digest)
    ensures
        digest_bytes(left).len() == 32,
        digest_bytes(left) == digest_bytes(right) ==> left == right,
{
    if digest_bytes(left) == digest_bytes(right) {
        assert(digest_bytes(left).take(16) =~= id_bytes(left.high));
        assert(digest_bytes(right).take(16) =~= id_bytes(right.high));
        assert(digest_bytes(left).skip(16) =~= id_bytes(left.low));
        assert(digest_bytes(right).skip(16) =~= id_bytes(right.low));
        id_bytes_are_distinct(left.high, right.high);
        id_bytes_are_distinct(left.low, right.low);
    }
}

/// Whether stored bytes are those of a digest.
pub fn is_digest(bytes: &Vec<u8>, digest: Digest) -> (result: bool)
    ensures
        result == (bytes@ == digest_bytes(digest)),
{
    match decode_digest(bytes) {
        Ok(stored) => {
            proof {
                digests_read_back(stored, digest);
            }
            stored == digest
        },
        Err(_) => {
            proof {
                digests_read_back(digest, digest);
            }
            false
        },
    }
}

/// Whether a stored text is that of an identity.
pub fn is_identity(text: &str, bits: u128) -> (result: bool)
    ensures
        result == (text@ == uuid_text(bits)),
{
    let expected: String = format_uuid(bits);
    same_text(text, expected.as_str())
}

/// The identity that a text holds: the value of a UUID that the type of the identity accepts.
///
/// `accepted` tells whether the type accepts the value.
pub open spec fn read_identity(text: Seq<char>, accepted: bool) -> Option<u128> {
    if accepted {
        uuid_value(text)
    } else {
        None
    }
}

fn parse_identity(text: &str, accepted: bool) -> (bits: Option<u128>)
    ensures
        bits == read_identity(text@, accepted),
{
    if accepted {
        parse_uuid(text)
    } else {
        None
    }
}

/// Reads the stored identity of a session.
pub fn parse_session_id(value: &str, accepted: bool) -> (result: Result<SessionId, StoreError>)
    ensures
        result == (match read_identity(value@, accepted) {
            Some(bits) => Ok::<SessionId, StoreError>(SessionId(bits)),
            None => Err(StoreError::Corrupt),
        }),
{
    match parse_identity(value, accepted) {
        Some(bits) => Ok(SessionId(bits)),
        None => Err(StoreError::Corrupt),
    }
}

/// Reads the stored identity of a participant.
pub fn parse_participant_id(value: &str, accepted: bool) -> (result: Result<ParticipantId, StoreError>)
    ensures
        result == (match read_identity(value@, accepted) {
            Some(bits) => Ok::<ParticipantId, StoreError>(ParticipantId(bits)),
            None => Err(StoreError::Corrupt),
        }),
{
    match parse_identity(value, accepted) {
        Some(bits) => Ok(ParticipantId(bits)),
        None => Err(StoreError::Corrupt),
    }
}

/// Reads the stored identity of a participant template.
pub fn parse_template_id(value: &str, accepted: bool) -> (result: Result<TemplateId, StoreError>)
    ensures
        result == (match read_identity(value@, accepted) {
            Some(bits) => Ok::<TemplateId, StoreError>(TemplateId(bits)),
            None => Err(StoreError::Corrupt),
        }),
{
    match parse_identity(value, accepted) {
        Some(bits) => Ok(TemplateId(bits)),
        None => Err(StoreError::Corrupt),
    }
}

/// Reads the stored identity of an operation.
pub fn parse_operation_id(value: &str, accepted: bool) -> (result: Result<OperationId, StoreError>)
    ensures
        result == (match read_identity(value@, accepted) {
            Some(bits) => Ok::<OperationId, StoreError>(OperationId(bits)),
            None => Err(StoreError::Corrupt),
        }),
{
    match parse_identity(value, accepted) {
        Some(bits) => Ok(OperationId(bits)),
        None => Err(StoreError::Corrupt),
    }
}

/// Reads the stored identity of a message.
pub fn parse_message_id(value: &str, accepted: bool) -> (result: Result<MessageId, StoreError>)
    ensures
        result == (match read_identity(value@, accepted) {
            Some(bits) => Ok::<MessageId, StoreError>(MessageId(bits)),
            None => Err(StoreError::Corrupt),
        }),
{
    match parse_identity(value, accepted) {
        Some(bits) => Ok(MessageId(bits)),
        None => Err(StoreError::Corrupt),
    }
}

/// Reads the stored identity of a mutating request.
pub fn parse_request_id(value: &str, accepted: bool) -> (result: Result<RequestId, StoreError>)
    ensures
        result == (match read_identity(value@, accepted) {
            Some(bits) => Ok::<RequestId, StoreError>(RequestId(bits)),
            None => Err(StoreError::Corrupt),
        }),
{
    match parse_identity(value, accepted) {
        Some(bits) => Ok(RequestId(bits)),
        None => Err(StoreError::Corrupt),
    }
}

/// Reads the stored identity of a driver.
pub fn parse_driver_id(value: &str, accepted: bool) -> (result: Result<DriverId, StoreError>)
    ensures
        result == (match read_identity(value@, accepted) {
            Some(bits) => Ok::<DriverId, StoreError>(DriverId(bits)),
            None => Err(StoreError::Corrupt),
        }),
{
    match parse_identity(value, accepted) {
        Some(bits) => Ok(DriverId(bits)),
        None => Err(StoreError::Corrupt),
    }
}

/// Reads the stored identity of one launch attempt.
pub fn parse_launch_attempt(value: &str, accepted: bool) -> (result: Result<LaunchAttemptId, StoreError>)
    ensures
        result == (match read_identity(value@, accepted) {
            Some(bits) => Ok::<LaunchAttemptId, StoreError>(LaunchAttemptId(bits)),
            None => Err(StoreError::Corrupt),
        }),
{
    match parse_identity(value, accepted) {
        Some(bits) => Ok(LaunchAttemptId(bits)),
        None => Err(StoreError::Corrupt),
    }
}

/// Reads the stored identity of a running driver instance.
pub fn parse_instance_id(value: &str, accepted: bool) -> (result: Result<InstanceId, StoreError>)
    ensures
        result == (match read_identity(value@, accepted) {
            Some(bits) => Ok::<InstanceId, StoreError>(InstanceId(bits)),
            None => Err(StoreError::Corrupt),
        }),
{
    match parse_identity(value, accepted) {
        Some(bits) => Ok(InstanceId(bits)),
        None => Err(StoreError::Corrupt),
    }
}

/// Reads the stored identity of an artifact.
pub fn parse_artifact_id(value: &str, accepted: bool) -> (result: Result<ArtifactId, StoreError>)
    ensures
        result == (match read_identity(value@, accepted) {
            Some(bits) => Ok::<ArtifactId, StoreError>(ArtifactId(bits)),
            None => Err(StoreError::Corrupt),
        }),
{
    match parse_identity(value, accepted) {
        Some(bits) => Ok(ArtifactId(bits)),
        None => Err(StoreError::Corrupt),
    }
}

/// Reads the stored identity of a host that may own sessions.
pub fn parse_host_id(value: &str, accepted: bool) -> (result: Result<HostId, StoreError>)
    ensures
        result == (match read_identity(value@, accepted) {
            Some(bits) => Ok::<HostId, StoreError>(HostId(bits)),
            None => Err(StoreError::Corrupt),
        }),
{
    match parse_identity(value, accepted) {
        Some(bits) => Ok(HostId(bits)),
        None => Err(StoreError::Corrupt),
    }
}

/// The identity bits taken from the first sixteen bytes of a digest, stamped with the
/// version (byte six) and variant (byte eight) marks of a random UUID.
pub open spec fn stamped_bits(digest: Digest) -> u128 {
    (digest.high & 0xffff_ffff_ffff_0fff_3fff_ffff_ffff_ffffu128)
        | 0x0000_0000_0000_4000_8000_0000_0000_0000u128
}

/// Derives identity bits from a digest.
pub fn derived_identity_bits(digest: Digest) -> (bits: u128)
    ensures
        bits == stamped_bits(digest),
{
    (digest.high & 0xffff_ffff_ffff_0fff_3fff_ffff_ffff_ffffu128)
        | 0x0000_0000_0000_4000_8000_0000_0000_0000u128
}

/// The message identity that belongs to a digest of a request and a domain.
///
/// `accepted` tells whether the derived bits are accepted as the identity of a message.
pub fn derived_store_message_id(digest: Digest, accepted: bool) -> (result: Result<
    MessageId,
    StoreError,
>)
    ensures
        result == (if accepted {
            Ok::<MessageId, StoreError>(MessageId(stamped_bits(digest)))
        } else {
            Err(StoreError::Corrupt)
        }),
{
    if accepted {
        Ok(MessageId(derived_identity_bits(digest)))
    } else {
        Err(StoreError::Corrupt)
    }
}

/// A derived identity carries the version four mark and the standard variant, and keeps every
/// other bit of the digest.
pub proof fn derived_identities_are_random_uuids(digest: Digest)
    ensures
        (stamped_bits(digest) >> 76) & 0xf == 4,
        (stamped_bits(digest) >> 62) & 0x3 == 2,
        stamped_bits(digest) & 0xffff_ffff_ffff_0fff_3fff_ffff_ffff_ffffu128 == digest.high
            & 0xffff_ffff_ffff_0fff_3fff_ffff_ffff_ffffu128,
{
    let high = digest.high;
    assert(({
        let bits = (high & 0xffff_ffff_ffff_0fff_3fff_ffff_ffff_ffffu128)
            | 0x0000_0000_0000_4000_8000_0000_0000_0000u128;
        &&& (bits >> 76) & 0xf == 4
        &&& (bits >> 62) & 0x3 == 2
        &&& bits & 0xffff_ffff_ffff_0fff_3fff_ffff_ffff_ffffu128 == high
            & 0xffff_ffff_ffff_0fff_3fff_ffff_ffff_ffffu128
    })) by (bit_vector);
}

} // verus!
