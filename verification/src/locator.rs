//! Durable Runtime instance identity and the rules of locator publication: which records are
//! accepted, how a fresh identity is minted, and which file a publisher may replace or remove.

use vstd::prelude::*;

use vstd::utf8::encode_utf8;

use crate::auth::{hex, hex_chars};
use crate::crypto::random_fill;
use crate::text::{starts_with_bytes, string_push_str};

verus! {

/// The record schema this Runtime reads and writes.
pub const SCHEMA: u32 = 1;
/// Largest record this Runtime reads or writes.
pub const MAX_RECORD_BYTES: u64 = 8192;

/// Runtime identity, locator publication, or cleanup failed closed.
#[derive(Debug)]
pub enum RuntimeBootstrapError {
    Read { path: String, detail: String },
    Unsafe { path: String, why: &'static str },
    Malformed { path: String, detail: String },
    Write { path: String, detail: String },
    Random,
}

pub open spec fn instance_prefix() -> Seq<u8> {
    seq![114u8, 116u8, 109u8, 95u8]
}

/// A lowercase hexadecimal digit byte.
pub open spec fn lower_hex_byte(b: u8) -> bool {
    (48 <= b && b <= 57) || (97 <= b && b <= 102)
}

/// A well-formed instance identity: `rtm_` and thirty-two lowercase hex digits.
pub open spec fn instance_ok(id: Seq<u8>) -> bool {
    &&& id.len() == 36
    &&& id.subrange(0, 4) == instance_prefix()
    &&& forall|i: int| 4 <= i < 36 ==> lower_hex_byte(#[trigger] id[i])
}

/// Whether a text is a well-formed instance identity.
pub fn valid_instance(instance_id: &str) -> (r: bool)
    ensures
        r == instance_ok(encode_utf8(instance_id@)),
{
    let bytes = instance_id.as_bytes();
    if bytes.len() != 36 {
        return false;
    }
    let prefix: [u8; 4] = [114, 116, 109, 95];
    if !starts_with_bytes(bytes, &prefix) {
        assert(prefix@ =~= instance_prefix());
        assert(bytes@.take(4) =~= bytes@.subrange(0, 4));
        return false;
    }
    assert(prefix@ =~= instance_prefix());
    assert(bytes@.take(4) =~= bytes@.subrange(0, 4));
    let mut i: usize = 4;
    while i < 36
        invariant
            4 <= i <= 36,
            bytes@ == encode_utf8(instance_id@),
            bytes@.len() == 36,
            forall|j: int| 4 <= j < i ==> lower_hex_byte(#[trigger] bytes@[j]),
        decreases 36 - i,
    {
        let b = bytes[i];
        if !((48 <= b && b <= 57) || (97 <= b && b <= 102)) {
            assert(!lower_hex_byte(bytes@[i as int]));
            return false;
        }
        i = i + 1;
    }
    true
}

/// Every character of lowercase hex is a lowercase hex digit.
proof fn lemma_hex_digits(bytes: Seq<u8>)
    ensures
        hex_chars(bytes).len() == 2 * bytes.len(),
        forall|i: int|
            0 <= i < hex_chars(bytes).len() ==> lower_hex_byte(#[trigger] hex_chars(bytes)[i] as u8),
{
    assert forall|i: int| 0 <= i < hex_chars(bytes).len() implies lower_hex_byte(
        #[trigger] hex_chars(bytes)[i] as u8,
    ) by {
        let b = bytes[i / 2];
        assert(b >> 4 < 16) by (bit_vector);
        assert(b & 0x0f < 16) by (bit_vector);
    }
}

/// Mint a fresh instance identity from operating-system randomness.
pub fn mint_instance() -> (r: Result<String, RuntimeBootstrapError>)
    ensures
        match r {
            Ok(id) => instance_ok(encode_utf8(id@)),
            Err(e) => e is Random,
        },
{
    let mut random = [0u8; 16];
    if random_fill(&mut random).is_err() {
        return Err(RuntimeBootstrapError::Random);
    }
    let mut instance_id = "rtm_".to_owned();
    let digits = hex(&random);
    string_push_str(&mut instance_id, digits.as_str());
    proof {
        reveal_strlit("rtm_");
        let h = hex_chars(random@);
        lemma_hex_digits(random@);
        let v = instance_id@;
        assert(v == "rtm_"@ + h);
        assert(vstd::utf8::is_ascii_chars(v)) by {
            assert forall|i: int| 0 <= i < v.len() implies '\0' <= #[trigger] v[i] <= '\u{7f}' by {
                if i >= 4 {
                    assert(v[i] == h[i - 4]);
                    assert(lower_hex_byte(h[i - 4] as u8));
                }
            }
        }
        vstd::utf8::is_ascii_chars_encode_utf8(v);
        let whole = encode_utf8(v);
        assert forall|i: int| 4 <= i < 36 implies lower_hex_byte(#[trigger] whole[i]) by {
            assert(whole[i] == v[i] as u8);
            assert(v[i] == h[i - 4]);
        }
        assert(whole.subrange(0, 4) =~= instance_prefix()) by {
            assert(whole[0] == v[0] as u8);
            assert(whole[1] == v[1] as u8);
            assert(whole[2] == v[2] as u8);
            assert(whole[3] == v[3] as u8);
        }
    }
    Ok(instance_id)
}

pub open spec fn malformed_instance_text() -> Seq<char> {
    "unsupported schema or invalid instance identity"@
}

/// Accept a stored instance record only in this schema and with a well-formed identity.
pub fn check_instance_record(path: &str, schema: u32, instance_id: String) -> (r: Result<
    String,
    RuntimeBootstrapError,
>)
    ensures
        schema == SCHEMA && instance_ok(encode_utf8(instance_id@)) ==> r == Ok::<
            String,
            RuntimeBootstrapError,
        >(instance_id),
        !(schema == SCHEMA && instance_ok(encode_utf8(instance_id@))) ==> (r matches Err(
            RuntimeBootstrapError::Malformed { path: p, detail },
        ) && p@ == path@ && detail@ == malformed_instance_text()),
{
    if schema != SCHEMA || !valid_instance(instance_id.as_str()) {
        return Err(
            RuntimeBootstrapError::Malformed {
                path: path.to_owned(),
                detail: "unsupported schema or invalid instance identity".to_owned(),
            },
        );
    }
    Ok(instance_id)
}

/// How the platform names its local endpoints.
#[derive(Clone, Copy, Debug, PartialEq, Eq, Structural)]
pub enum EndpointPlatform {
    Windows,
    Unix,
}

/// The kind of endpoint a locator names.
pub fn endpoint_kind(platform: EndpointPlatform) -> (r: &'static str)
    ensures
        platform == EndpointPlatform::Windows ==> r@ == "namedPipe"@,
        platform == EndpointPlatform::Unix ==> r@ == "unixSocket"@,
{
    match platform {
        EndpointPlatform::Windows => "namedPipe",
        EndpointPlatform::Unix => "unixSocket",
    }
}

/// What the filesystem says of an existing record path, without following links.
#[derive(Clone, Copy, Debug, PartialEq, Eq, Structural)]
pub struct RecordFacts {
    pub is_symlink: bool,
    pub is_file: bool,
    pub len: u64,
}

pub open spec fn not_regular_text() -> Seq<char> {
    "the record is not a regular file"@
}

pub open spec fn oversized_record_text() -> Seq<char> {
    "the record exceeds its byte limit"@
}

/// A record may be read only if it is a regular file within the byte limit.
pub fn check_readable(path: &str, facts: RecordFacts) -> (r: Result<(), RuntimeBootstrapError>)
    ensures
        (facts.is_symlink || !facts.is_file) ==> (r matches Err(
            RuntimeBootstrapError::Unsafe { path: p, why },
        ) && p@ == path@ && why@ == not_regular_text()),
        (!facts.is_symlink && facts.is_file && facts.len > MAX_RECORD_BYTES) ==> (r matches Err(
            RuntimeBootstrapError::Unsafe { path: p, why },
        ) && p@ == path@ && why@ == oversized_record_text()),
        (!facts.is_symlink && facts.is_file && facts.len <= MAX_RECORD_BYTES) ==> r is Ok,
{
    if facts.is_symlink || !facts.is_file {
        return Err(RuntimeBootstrapError::Unsafe { path: path.to_owned(), why: "the record is not a regular file" });
    }
    if facts.len > MAX_RECORD_BYTES {
        return Err(RuntimeBootstrapError::Unsafe { path: path.to_owned(), why: "the record exceeds its byte limit" });
    }
    Ok(())
}

/// An encoded record may be written only within the byte limit.
pub fn check_writable(path: &str, encoded_len: usize) -> (r: Result<(), RuntimeBootstrapError>)
    ensures
        encoded_len <= MAX_RECORD_BYTES ==> r is Ok,
        encoded_len > MAX_RECORD_BYTES ==> (r matches Err(RuntimeBootstrapError::Write { path: p, detail })
            && p@ == path@ && detail@ == "the encoded record exceeds its byte limit"@),
{
    if encoded_len as u64 > MAX_RECORD_BYTES {
        return Err(
            RuntimeBootstrapError::Write {
                path: path.to_owned(),
                detail: "the encoded record exceeds its byte limit".to_owned(),
            },
        );
    }
    Ok(())
}

/// What looking at a stale locator path found.
#[derive(Debug)]
pub enum StaleLocator {
    Absent,
    Present(RecordFacts),
    Unreadable(String),
}

/// A locator may replace only nothing or a regular file.
pub fn ensure_replaceable(path: &str, stale: StaleLocator) -> (r: Result<(), RuntimeBootstrapError>)
    ensures
        match stale {
            StaleLocator::Absent => r is Ok,
            StaleLocator::Present(facts) => if facts.is_file && !facts.is_symlink {
                r is Ok
            } else {
                r matches Err(RuntimeBootstrapError::Unsafe { path: p, why }) && p@ == path@ && why@
                    == "the stale locator is not a regular file"@
            },
            StaleLocator::Unreadable(detail) => r matches Err(RuntimeBootstrapError::Read { path: p, detail: d })
                && p@ == path@ && d == detail,
        },
{
    match stale {
        StaleLocator::Absent => Ok(()),
        StaleLocator::Present(facts) => if facts.is_file && !facts.is_symlink {
            Ok(())
        } else {
            Err(
                RuntimeBootstrapError::Unsafe {
                    path: path.to_owned(),
                    why: "the stale locator is not a regular file",
                },
            )
        },
        StaleLocator::Unreadable(detail) => Err(RuntimeBootstrapError::Read { path: path.to_owned(), detail }),
    }
}

/// The file name a record is first written under before it is renamed into place: the record's
/// own name, a dot, sixteen random hex digits, and `.new`.
pub fn pending_name(path: &str, file_name: Option<&str>) -> (r: Result<String, RuntimeBootstrapError>)
    ensures
        match file_name {
            None => r matches Err(RuntimeBootstrapError::Write { path: p, detail }) && p@ == path@
                && detail@ == "the record path has no file name"@,
            Some(name) => match r {
                Ok(pending) => exists|b: Seq<u8>|
                    b.len() == 8 && pending@ == name@ + "."@ + hex_chars(b) + ".new"@,
                Err(e) => e is Random,
            },
        },
{
    let name = match file_name {
        Some(name) => name,
        None => {
            return Err(
                RuntimeBootstrapError::Write {
                    path: path.to_owned(),
                    detail: "the record path has no file name".to_owned(),
                },
            );
        },
    };
    let mut random = [0u8; 8];
    if random_fill(&mut random).is_err() {
        return Err(RuntimeBootstrapError::Random);
    }
    let mut pending = name.to_owned();
    string_push_str(&mut pending, ".");
    let digits = hex(&random);
    string_push_str(&mut pending, digits.as_str());
    string_push_str(&mut pending, ".new");
    Ok(pending)
}

/// A publisher removes a locator only when the record still names its own instance.
pub fn owns_locator(recorded_instance: &str, own_instance: &str) -> (r: bool)
    ensures
        r == (recorded_instance@ == own_instance@),
{
    crate::text::str_eq(recorded_instance, own_instance)
}

/// A regular record within the byte limit that names this instance.
pub open spec fn locator_removable(facts: Option<RecordFacts>, recorded: Option<Seq<char>>, own: Seq<char>) -> bool {
    match (facts, recorded) {
        (Some(f), Some(id)) => !f.is_symlink && f.is_file && f.len <= MAX_RECORD_BYTES && id == own,
        _ => false,
    }
}

/// Whether dropping a published locator removes the record now at its path: only a regular
/// record within the byte limit, whose facts could be read, that decodes, and that names this
/// instance. `facts` is `None` when the path's facts could not be read, `recorded_instance`
/// `None` when the record could not be read or decoded; anything else is left exactly as it is.
pub fn removes_locator(
    facts: Option<RecordFacts>,
    recorded_instance: Option<&str>,
    own_instance: &str,
) -> (r: bool)
    ensures
        r == locator_removable(
            facts,
            match recorded_instance {
                Some(id) => Some(id@),
                None => None,
            },
            own_instance@,
        ),
{
    let readable = match facts {
        Some(f) => !f.is_symlink && f.is_file && f.len <= MAX_RECORD_BYTES,
        None => false,
    };
    if !readable {
        return false;
    }
    match recorded_instance {
        Some(id) => owns_locator(id, own_instance),
        None => false,
    }
}

} // verus!
