//! What goes wrong in the database, in terms of the store; and what must hold when it is opened.

use crate::error::StoreError;
use crate::ids::Digest;
use crate::text::same_text;
use vstd::prelude::*;

verus! {

/// The error that a database error amounts to, by its code: a locked database is busy, a damaged
/// one is corrupt, and anything else makes the store unavailable.
pub open spec fn fault_of(code: Option<Seq<char>>) -> StoreError {
    if code == Some("5"@) || code == Some("6"@) {
        StoreError::Busy
    } else if code == Some("11"@) || code == Some("17"@) || code == Some("26"@) {
        StoreError::Corrupt
    } else {
        StoreError::Unavailable
    }
}

/// The error that a database error amounts to; `code` is there where the database itself gave
/// one.
pub fn map_sqlx(code: Option<&str>) -> (error: StoreError)
    ensures
        error == fault_of(
            match code {
                Some(code) => Some(code@),
                None => None,
            },
        ),
{
    match code {
        Some(code) => if same_text(code, "5") || same_text(code, "6") {
            StoreError::Busy
        } else if same_text(code, "11") || same_text(code, "17") || same_text(code, "26") {
            StoreError::Corrupt
        } else {
            StoreError::Unavailable
        },
        None => StoreError::Unavailable,
    }
}

/// What goes wrong when the database is opened.
pub enum DatabaseFault<'a> {
    SchemaTooNew { found: i64, supported: i64 },
    Database { code: Option<&'a str> },
    SchemaCorrupt,
    InvalidPath,
}

/// A version as it is reported: one that does not fit is the greatest.
pub open spec fn reported_version(version: i64) -> u32 {
    if 0 <= version <= u32::MAX {
        version as u32
    } else {
        u32::MAX
    }
}

fn report_version(version: i64) -> (reported: u32)
    ensures
        reported == reported_version(version),
{
    if version >= 0 && version <= u32::MAX as i64 {
        version as u32
    } else {
        u32::MAX
    }
}

/// The error that a fault on opening amounts to.
pub fn map_database_error(fault: DatabaseFault<'_>) -> (error: StoreError)
    ensures
        error == (match fault {
            DatabaseFault::SchemaTooNew { found, supported } => StoreError::SchemaTooNew {
                found: reported_version(found),
                supported: reported_version(supported),
            },
            DatabaseFault::Database { code } => fault_of(
                match code {
                    Some(code) => Some(code@),
                    None => None,
                },
            ),
            DatabaseFault::SchemaCorrupt => StoreError::Corrupt,
            DatabaseFault::InvalidPath => StoreError::Invalid,
        }),
{
    match fault {
        DatabaseFault::SchemaTooNew { found, supported } => StoreError::SchemaTooNew {
            found: report_version(found),
            supported: report_version(supported),
        },
        DatabaseFault::Database { code } => map_sqlx(code),
        DatabaseFault::SchemaCorrupt => StoreError::Corrupt,
        DatabaseFault::InvalidPath => StoreError::Invalid,
    }
}

/// A template in the manifest of a session: its compatibility there and where it is registered.
#[derive(Clone, Copy, PartialEq, Eq, Debug, Structural)]
pub struct ManifestRow {
    pub bound: Digest,
    pub registered: Digest,
}

/// Every template is bound as it is registered.
pub open spec fn bound_as_registered(rows: Seq<ManifestRow>) -> bool {
    forall|i: int| 0 <= i < rows.len() ==> (#[trigger] rows[i]).bound == rows[i].registered
}

/// Checks the manifest of a session when the store is opened: each template is still registered
/// as it was bound, and the manifest amounts to the compatibility of the session.
///
/// `derived` is the compatibility that the manifest amounts to, where it is a manifest at all.
pub fn validate_compatibility_manifest(
    rows: &Vec<ManifestRow>,
    derived: Option<Digest>,
    compatibility: Digest,
) -> (result: Result<(), StoreError>)
    ensures
        result == (if derived == Some(compatibility) && bound_as_registered(rows@) {
            Ok::<(), StoreError>(())
        } else {
            Err(StoreError::Corrupt)
        }),
{
    let mut index: usize = 0;
    while index < rows.len()
        invariant
            index <= rows.len(),
            forall|i: int| 0 <= i < index ==> (#[trigger] rows[i]).bound == rows[i].registered,
        decreases rows.len() - index,
    {
        let row: ManifestRow = rows[index];
        if row.bound != row.registered {
            assert(rows@[index as int].bound != rows@[index as int].registered);
            return Err(StoreError::Corrupt);
        }
        index = index + 1;
    }
    if derived == Some(compatibility) {
        Ok(())
    } else {
        Err(StoreError::Corrupt)
    }
}

} // verus!
