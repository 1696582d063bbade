//! The internal schema that durable schedules are stored in, with the trace context of their
//! creators.

use vstd::bytes::{
    lemma_auto_spec_u64_to_from_le_bytes, spec_u64_to_le_bytes, spec_u64_to_le_bytes_to_open,
    u64_from_le_bytes, u64_to_le_bytes,
};
use vstd::prelude::*;

verus! {

/// The version that a database has after all migrations.
pub const INTERNAL_SCHEMA_VERSION: i64 = 2;

/// Creates the table that holds the encoded schema version.
pub const CREATE_META_TABLE: &'static str = "CREATE TABLE IF NOT EXISTS _rivet_meta (
	id             INTEGER NOT NULL PRIMARY KEY CHECK (id = 1),
	schema_version BLOB NOT NULL
) STRICT";

/// Creates the table of scheduled actions.
pub const CREATE_SCHEDULE_EVENTS: &'static str = "CREATE TABLE _rivet_schedule_events (
	event_id         TEXT NOT NULL PRIMARY KEY,
	trigger_at       INTEGER NOT NULL,
	action           TEXT NOT NULL,
	args             BLOB NOT NULL,
	kind             INTEGER NOT NULL,
	max_history      INTEGER NOT NULL
) STRICT";

/// Creates the table of how scheduled actions ended.
pub const CREATE_SCHEDULE_HISTORY: &'static str = "CREATE TABLE _rivet_schedule_history (
	event_id       TEXT NOT NULL,
	result         INTEGER NOT NULL
) STRICT";

/// Makes room for the ray of a schedule's creator.
pub const ADD_RAY_ID: &'static str = "ALTER TABLE _rivet_schedule_events ADD COLUMN ray_id TEXT";

/// Makes room for the span of a schedule's creator.
pub const ADD_TRACEPARENT: &'static str =
    "ALTER TABLE _rivet_schedule_events ADD COLUMN traceparent TEXT";

/// Makes room for the trace state of a schedule's creator.
pub const ADD_TRACESTATE: &'static str =
    "ALTER TABLE _rivet_schedule_events ADD COLUMN tracestate TEXT";

/// Why a stored schema version could not be read.
#[derive(Debug, PartialEq, Eq, Structural, Clone, Copy)]
pub enum SchemaVersionError {
    /// The stored value has another length than an encoded version.
    Length,
}

/// The stored form of a schema version: eight bytes, the lowest first, in two's complement.
pub open spec fn version_bytes(version: i64) -> Seq<u8> {
    spec_u64_to_le_bytes(version as u64)
}

/// Encodes a schema version.
pub fn encode_schema_version(version: i64) -> (res: Vec<u8>)
    ensures
        res@ == version_bytes(version),
        res@.len() == 8,
{
    proof {
        lemma_auto_spec_u64_to_from_le_bytes();
    }
    u64_to_le_bytes(version as u64)
}

/// Decodes a stored schema version.
pub fn decode_schema_version(bytes: &[u8]) -> (res: Result<i64, SchemaVersionError>)
    ensures
        match res {
            Ok(version) => bytes@.len() == 8 && version_bytes(version) == bytes@,
            Err(error) => bytes@.len() != 8 && error == SchemaVersionError::Length,
        },
{
    if bytes.len() != 8 {
        return Err(SchemaVersionError::Length);
    }
    let bits: u64 = u64_from_le_bytes(bytes);
    let version: i64 = bits as i64;
    proof {
        lemma_auto_spec_u64_to_from_le_bytes();
        assert(bits as i64 as u64 == bits) by (bit_vector);
    }
    Ok(version)
}

/// The statements of each migration, oldest migration first.
pub open spec fn ladder() -> Seq<Seq<&'static str>> {
    seq![
        seq![CREATE_SCHEDULE_EVENTS, CREATE_SCHEDULE_HISTORY],
        seq![ADD_RAY_ID, ADD_TRACEPARENT, ADD_TRACESTATE],
    ]
}

/// Lists the statements of each migration, oldest migration first.
pub fn migrations() -> (res: Vec<Vec<&'static str>>)
    ensures
        res@.map_values(|migration: Vec<&'static str>| migration@) == ladder(),
        res@.len() == INTERNAL_SCHEMA_VERSION,
{
    let mut first: Vec<&'static str> = Vec::new();
    first.push(CREATE_SCHEDULE_EVENTS);
    first.push(CREATE_SCHEDULE_HISTORY);
    let mut second: Vec<&'static str> = Vec::new();
    second.push(ADD_RAY_ID);
    second.push(ADD_TRACEPARENT);
    second.push(ADD_TRACESTATE);
    let mut all: Vec<Vec<&'static str>> = Vec::new();
    all.push(first);
    all.push(second);
    assert(first@ =~= ladder()[0]);
    assert(second@ =~= ladder()[1]);
    assert(all@.map_values(|migration: Vec<&'static str>| migration@) =~= ladder());
    all
}

/// Different versions have different stored forms, so a stored version is read back as it was
/// written.
pub proof fn versions_are_told_apart(version: i64, other: i64)
    requires
        version_bytes(version) == version_bytes(other),
    ensures
        version == other,
{
    lemma_auto_spec_u64_to_from_le_bytes();
    assert(version as u64 as i64 == version) by (bit_vector);
    assert(other as u64 as i64 == other) by (bit_vector);
}

/// A version read as an unsigned number, as two's complement has it.
pub open spec fn unsigned(version: i64) -> int {
    if version >= 0 {
        version as int
    } else {
        version + 0x1_0000_0000_0000_0000
    }
}

/// The stored form of a version is eight bytes, and the number that they are the digits of, in
/// base two hundred and fifty-six with the lowest digit first, is the version.
pub proof fn versions_are_stored_lowest_byte_first(version: i64)
    ensures
        version_bytes(version).len() == 8,
        unsigned(version) == version_bytes(version)[0] + 0x100 * version_bytes(version)[1]
            + 0x1_0000 * version_bytes(version)[2] + 0x100_0000 * version_bytes(version)[3]
            + 0x1_0000_0000 * version_bytes(version)[4] + 0x100_0000_0000 * version_bytes(
            version,
        )[5] + 0x1_0000_0000_0000 * version_bytes(version)[6] + 0x100_0000_0000_0000
            * version_bytes(version)[7],
{
    let x = version as u64;
    assert(version >= 0 ==> x == version) by (bit_vector)
        requires
            x == version as u64,
    ;
    assert(version < 0 ==> x == version + 0x1_0000_0000_0000_0000) by (bit_vector)
        requires
            x == version as u64,
    ;
    spec_u64_to_le_bytes_to_open(x);
    let b0 = (x & 0xff) as u8;
    let b1 = ((x >> 8) & 0xff) as u8;
    let b2 = ((x >> 16) & 0xff) as u8;
    let b3 = ((x >> 24) & 0xff) as u8;
    let b4 = ((x >> 32) & 0xff) as u8;
    let b5 = ((x >> 40) & 0xff) as u8;
    let b6 = ((x >> 48) & 0xff) as u8;
    let b7 = ((x >> 56) & 0xff) as u8;
    assert(x == b0 + 0x100 * b1 + 0x1_0000 * b2 + 0x100_0000 * b3 + 0x1_0000_0000 * b4
        + 0x100_0000_0000 * b5 + 0x1_0000_0000_0000 * b6 + 0x100_0000_0000_0000 * b7)
        by (bit_vector)
        requires
            b0 == (x & 0xff) as u8,
            b1 == ((x >> 8) & 0xff) as u8,
            b2 == ((x >> 16) & 0xff) as u8,
            b3 == ((x >> 24) & 0xff) as u8,
            b4 == ((x >> 32) & 0xff) as u8,
            b5 == ((x >> 40) & 0xff) as u8,
            b6 == ((x >> 48) & 0xff) as u8,
            b7 == ((x >> 56) & 0xff) as u8,
    ;
}

/// The ladder has as many rungs as the version says, and no rung is empty.
pub proof fn ladder_leads_to_the_version()
    ensures
        ladder().len() == INTERNAL_SCHEMA_VERSION,
        forall|i: int| 0 <= i < ladder().len() ==> (#[trigger] ladder()[i]).len() > 0,
{
}

} // verus!
