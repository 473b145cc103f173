//! Public Runtime integration identities, enrollment bounds, and grant verification.

use vstd::prelude::*;
use vstd::utf8::*;

use crate::kinds::{
    AppScope, ErrorKind, MutationRequestId, scope_name, APP_SCOPE_COUNT, CHALLENGE_LIFETIME_MS,
    ENROLLMENT_LIFETIME_MS, IDEMPOTENCY_WINDOW_MS, MAX_PENDING_ENROLLMENTS, MUTATION_CLOCK_SKEW_MS,
};
use crate::crypto::{base64url_decode, base64url_decode_vec, base64url_encode, base64url_encode_string, ed25519_accepts, ed25519_point_valid, ed25519_signature, ed25519_verify_strict, ed25519_verifying_key, random_fill};
use crate::text::{bytes_eq, starts_with_bytes, string_push_str, contains_control, has_control, is_control, is_control_spec, str_eq, string_push};

verus! {

broadcast use encode_utf8_decode_utf8;

/// Longest identity text a client may present, in characters.
pub const MAX_CLIENT_TEXT_CHARS: usize = 128;
/// Most project roots one enrollment may request.
pub const MAX_ROOTS: usize = 32;
/// Longest project root, in bytes.
pub const MAX_ROOT_BYTES: usize = 32768;

/// Safe stable failure before it is placed into a JSON-RPC error envelope.
#[derive(Clone, Copy, Debug, PartialEq, Eq)]
pub struct AuthorizationFailure {
    pub kind: ErrorKind,
    pub message: &'static str,
}

/// A failure of the given kind and sentence.
pub open spec fn is_failure(f: AuthorizationFailure, kind: ErrorKind, message: Seq<char>) -> bool {
    f.kind == kind && f.message@ == message
}

impl AuthorizationFailure {
    pub fn invalid(message: &'static str) -> (r: Self)
        ensures
            r.kind == ErrorKind::InvalidRequest,
            r.message == message,
    {
        Self { kind: ErrorKind::InvalidRequest, message }
    }

    pub fn unauthenticated(message: &'static str) -> (r: Self)
        ensures
            r.kind == ErrorKind::Unauthenticated,
            r.message == message,
    {
        Self { kind: ErrorKind::Unauthenticated, message }
    }

    pub fn internal() -> (r: Self)
        ensures
            is_failure(r, ErrorKind::Internal, internal_message()),
    {
        Self {
            kind: ErrorKind::Internal,
            message: "Runtime could not validate integration authority",
        }
    }
}

pub open spec fn internal_message() -> Seq<char> {
    "Runtime could not validate integration authority"@
}

// ---------------------------------------------------------------------------------------------
// Identity text and requested roots
// ---------------------------------------------------------------------------------------------
/// Control codes and the invisible formatting characters that can disguise identity text.
pub open spec fn unsafe_char(c: char) -> bool {
    let v = c as u32;
    is_control_spec(c) || (0x200b <= v && v <= 0x200f) || (0x2028 <= v && v <= 0x202e) || (0x2060
        <= v && v <= 0x206f) || v == 0xfeff
}

/// Whether one character may not appear in integration identity text or a root.
pub fn unsafe_text(character: char) -> (r: bool)
    ensures
        r == unsafe_char(character),
{
    let v = character as u32;
    is_control(character) || (0x200b <= v && v <= 0x200f) || (0x2028 <= v && v <= 0x202e) || (
    0x2060 <= v && v <= 0x206f) || v == 0xfeff
}

/// Unicode `White_Space`, the characters `str::trim` removes.
pub open spec fn is_whitespace_spec(c: char) -> bool {
    let v = c as u32;
    (0x9 <= v && v <= 0xd) || v == 0x20 || v == 0x85 || v == 0xa0 || v == 0x1680 || (0x2000 <= v
        && v <= 0x200a) || v == 0x2028 || v == 0x2029 || v == 0x202f || v == 0x205f || v == 0x3000
}

fn is_whitespace(c: char) -> (r: bool)
    ensures
        r == is_whitespace_spec(c),
{
    let v = c as u32;
    (0x9 <= v && v <= 0xd) || v == 0x20 || v == 0x85 || v == 0xa0 || v == 0x1680 || (0x2000 <= v
        && v <= 0x200a) || v == 0x2028 || v == 0x2029 || v == 0x202f || v == 0x205f || v == 0x3000
}

/// Identity text a client may present: not blank, at most the character limit, nothing unsafe.
pub open spec fn client_text_ok(s: Seq<char>) -> bool {
    &&& exists|i: int| 0 <= i < s.len() && !is_whitespace_spec(#[trigger] s[i])
    &&& s.len() <= MAX_CLIENT_TEXT_CHARS
    &&& forall|i: int| 0 <= i < s.len() ==> !unsafe_char(#[trigger] s[i])
}

pub open spec fn client_text_message() -> Seq<char> {
    "integration identity text is blank, unsafe, or oversized"@
}

/// Refuse blank, oversized, or unsafe integration identity text.
pub fn validate_client_text(value: &str) -> (r: Result<(), AuthorizationFailure>)
    ensures
        r is Ok <==> client_text_ok(value@),
        r matches Err(f) ==> is_failure(f, ErrorKind::InvalidRequest, client_text_message()),
{
    let mut seen_text = false;
    let mut count: usize = 0;
    let mut ok = true;
    for c in it: value.chars()
        invariant
            it.seq() == value@,
            count == it.index(),
            count <= MAX_CLIENT_TEXT_CHARS,
            seen_text == exists|i: int| 0 <= i < it.index() && !is_whitespace_spec(#[trigger] value@[i]),
            ok == forall|i: int| 0 <= i < it.index() ==> !unsafe_char(#[trigger] value@[i]),
    {
        if count == MAX_CLIENT_TEXT_CHARS {
            return Err(AuthorizationFailure::invalid(
                "integration identity text is blank, unsafe, or oversized",
            ));
        }
        let i = Ghost(it.index() as int);
        if !is_whitespace(c) {
            seen_text = true;
            assert(!is_whitespace_spec(value@[i@]));
        }
        if unsafe_text(c) {
            ok = false;
        }
        proof {
            assert(value@[i@] == c);
        }
        count = count + 1;
    }
    if !seen_text || !ok {
        return Err(AuthorizationFailure::invalid(
            "integration identity text is blank, unsafe, or oversized",
        ));
    }
    Ok(())
}

/// Whether some character of the text is unsafe.
pub open spec fn has_unsafe(s: Seq<char>) -> bool {
    exists|i: int| 0 <= i < s.len() && unsafe_char(#[trigger] s[i])
}

fn contains_unsafe(value: &str) -> (r: bool)
    ensures
        r == has_unsafe(value@),
{
    for c in it: value.chars()
        invariant
            it.seq() == value@,
            forall|i: int| 0 <= i < it.index() ==> !unsafe_char(#[trigger] value@[i]),
    {
        if unsafe_text(c) {
            assert(unsafe_char(value@[it.index() as int]));
            return true;
        }
    }
    false
}

/// A text that could name an absolute path on some platform: it begins with `/` or `\\`, or
/// with an ASCII letter and `:`.
pub open spec fn absolute_lead(path: Seq<char>) -> bool {
    path.len() > 0 && (path[0] == '/' || path[0] == '\\' || (path.len() >= 2 && (('a' <= path[0]
        && path[0] <= 'z') || ('A' <= path[0] && path[0] <= 'Z')) && path[1] == ':'))
}

/// Whether the host platform reads the text as an absolute path.
///
/// Trusted: `std::path::Path::is_absolute` over `Path::new`. Stated is what the documentation
/// gives on every platform: an absolute path begins with the root `/` on Unix, and on Windows
/// with a prefix, which is a drive letter and `:` or begins with `\\`. Which such texts the
/// host platform reads as absolute is its own rule and is left unsaid.
#[verifier::external_body]
fn path_is_absolute(path: &str) -> (r: bool)
    ensures
        r ==> absolute_lead(path@),
{
    std::path::Path::new(path).is_absolute()
}

/// What a root must satisfy apart from the platform's absoluteness rule.
pub open spec fn root_shape_ok(root: Seq<char>) -> bool {
    root.len() > 0 && encode_utf8(root).len() <= MAX_ROOT_BYTES && !has_unsafe(root)
}

pub open spec fn too_many_roots_message() -> Seq<char> {
    "too many project roots were requested"@
}

pub open spec fn unsafe_root_message() -> Seq<char> {
    "a requested project root is unsafe, relative, or oversized"@
}

/// Every root has the shape a project root needs and is absolute as `absolute` reports.
pub open spec fn roots_accepted(roots: Seq<String>, absolute: Seq<bool>) -> bool {
    forall|i: int|
        0 <= i < roots.len() ==> root_shape_ok(#[trigger] roots[i]@) && i < absolute.len()
            && absolute[i]
}

/// Root `j` has the shape a project root needs and is absolute as `absolute` reports.
pub open spec fn root_accepted_at(roots: Seq<String>, absolute: Seq<bool>, j: int) -> bool {
    root_shape_ok(roots[j]@) && j < absolute.len() && absolute[j]
}

/// What checking a requested root list answers, given each root's absoluteness.
pub open spec fn roots_outcome(
    roots: Seq<String>,
    absolute: Seq<bool>,
    r: Result<(), AuthorizationFailure>,
) -> bool {
    if roots.len() > MAX_ROOTS {
        r matches Err(f) && is_failure(f, ErrorKind::InvalidRequest, too_many_roots_message())
    } else if roots_accepted(roots, absolute) {
        r is Ok
    } else {
        r matches Err(f) && is_failure(f, ErrorKind::InvalidRequest, unsafe_root_message())
    }
}

/// Refuse an oversized root list or any empty, oversized, unsafe, or relative root.
///
/// `absolute[i]` tells whether the platform reads root `i` as an absolute path; a root without
/// such an entry counts as relative.
pub fn check_roots(roots: &Vec<String>, absolute: &Vec<bool>) -> (r: Result<(), AuthorizationFailure>)
    ensures
        roots_outcome(roots@, absolute@, r),
{
    if roots.len() > MAX_ROOTS {
        return Err(AuthorizationFailure::invalid("too many project roots were requested"));
    }
    let mut i: usize = 0;
    while i < roots.len()
        invariant
            0 <= i <= roots@.len(),
            roots@.len() <= MAX_ROOTS,
            forall|j: int| 0 <= j < i ==> #[trigger] root_accepted_at(roots@, absolute@, j),
        decreases roots@.len() - i,
    {
        let root = roots[i].as_str();
        if root.is_empty() || root.as_bytes().len() > MAX_ROOT_BYTES || contains_unsafe(root)
            || i >= absolute.len() || !absolute[i] {
            proof {
                assert(!root_accepted_at(roots@, absolute@, i as int));
            }
            return Err(
                AuthorizationFailure::invalid(
                    "a requested project root is unsafe, relative, or oversized",
                ),
            );
        }
        assert(root_accepted_at(roots@, absolute@, i as int));
        i = i + 1;
    }
    assert(roots_accepted(roots@, absolute@)) by {
        assert forall|j: int| 0 <= j < roots@.len() implies root_shape_ok(#[trigger] roots@[j]@)
            && j < absolute@.len() && absolute@[j] by {
            assert(root_accepted_at(roots@, absolute@, j));
        }
    }
    Ok(())
}

/// Readings of absoluteness that the platform could have given: only a root with an absolute
/// lead is read as absolute.
pub open spec fn readings_possible(roots: Seq<String>, absolute: Seq<bool>) -> bool {
    forall|i: int| 0 <= i < roots.len() && i < absolute.len() && #[trigger] absolute[i]
        ==> absolute_lead(roots[i]@)
}

/// Whether the platform reads each root as an absolute path, in order.
fn roots_absoluteness(roots: &Vec<String>) -> (v: Vec<bool>)
    ensures
        v@.len() == roots@.len(),
        readings_possible(roots@, v@),
{
    let mut v: Vec<bool> = Vec::new();
    let mut i: usize = 0;
    while i < roots.len()
        invariant
            0 <= i <= roots@.len(),
            v@.len() == i,
            readings_possible(roots@, v@),
        decreases roots@.len() - i,
    {
        v.push(path_is_absolute(roots[i].as_str()));
        i = i + 1;
    }
    v
}

/// Refuse an oversized root list or any empty, oversized, unsafe, or relative root.
///
/// The absoluteness of each root is the platform's decision, asked once per root of a list
/// that is not oversized; every other refusal is exact, and an empty list is accepted.
pub fn validate_roots(roots: &Vec<String>) -> (r: Result<(), AuthorizationFailure>)
    ensures
        exists|absolute: Seq<bool>|
            absolute.len() == roots@.len() && readings_possible(roots@, absolute)
                && #[trigger] roots_outcome(roots@, absolute, r),
        roots@.len() == 0 ==> r is Ok,
        roots@.len() <= MAX_ROOTS && (exists|i: int|
            0 <= i < roots@.len() && !absolute_lead(#[trigger] roots@[i]@)) ==> (r matches Err(f)
            && is_failure(f, ErrorKind::InvalidRequest, unsafe_root_message())),
        roots@.len() > MAX_ROOTS ==> (r matches Err(f) && is_failure(
            f,
            ErrorKind::InvalidRequest,
            too_many_roots_message(),
        )),
        roots@.len() <= MAX_ROOTS ==> (r matches Err(f) ==> is_failure(
            f,
            ErrorKind::InvalidRequest,
            unsafe_root_message(),
        )),
        roots@.len() <= MAX_ROOTS && (exists|i: int|
            0 <= i < roots@.len() && !root_shape_ok(#[trigger] roots@[i]@)) ==> r is Err,
        r is Ok ==> forall|i: int| 0 <= i < roots@.len() ==> root_shape_ok(#[trigger] roots@[i]@),
{
    if roots.len() > MAX_ROOTS {
        let r = Err(AuthorizationFailure::invalid("too many project roots were requested"));
        proof {
            let witness = Seq::new(roots@.len(), |i: int| false);
            assert(roots_outcome(roots@, witness, r));
            assert(readings_possible(roots@, witness));
        }
        return r;
    }
    let absolute = roots_absoluteness(roots);
    let r = check_roots(roots, &absolute);
    proof {
        assert(roots_outcome(roots@, absolute@, r));
        if roots@.len() == 0 {
            assert(roots_accepted(roots@, absolute@));
        }
        if r is Ok {
            assert forall|i: int| 0 <= i < roots@.len() implies root_shape_ok(
                #[trigger] roots@[i]@,
            ) && absolute_lead(roots@[i]@) by {
                assert(roots_accepted(roots@, absolute@));
                assert(root_shape_ok(roots@[i]@));
                assert(i < absolute@.len());
                assert(absolute@[i]);
                assert(readings_possible(roots@, absolute@));
            }
        }
    }
    r
}

} // verus!

verus! {

// ---------------------------------------------------------------------------------------------
// Lowercase hex and opaque identities
// ---------------------------------------------------------------------------------------------
/// The lowercase hex digit for a nibble, `?` outside the nibble range.
pub open spec fn hex_digit_char(nibble: u8) -> char {
    if nibble == 0 {
        '0'
    } else if nibble == 1 {
        '1'
    } else if nibble == 2 {
        '2'
    } else if nibble == 3 {
        '3'
    } else if nibble == 4 {
        '4'
    } else if nibble == 5 {
        '5'
    } else if nibble == 6 {
        '6'
    } else if nibble == 7 {
        '7'
    } else if nibble == 8 {
        '8'
    } else if nibble == 9 {
        '9'
    } else if nibble == 10 {
        'a'
    } else if nibble == 11 {
        'b'
    } else if nibble == 12 {
        'c'
    } else if nibble == 13 {
        'd'
    } else if nibble == 14 {
        'e'
    } else if nibble == 15 {
        'f'
    } else {
        '?'
    }
}

/// Lowercase hex of a byte string: two digits per byte, high nibble first.
pub open spec fn hex_chars(bytes: Seq<u8>) -> Seq<char> {
    Seq::new(
        (2 * bytes.len()) as nat,
        |i: int|
            if i % 2 == 0 {
                hex_digit_char(bytes[i / 2] >> 4)
            } else {
                hex_digit_char(bytes[i / 2] & 0x0f)
            },
    )
}

/// The lowercase hex digit of one nibble.
pub fn hex_digit(nibble: u8) -> (r: char)
    ensures
        r == hex_digit_char(nibble),
{
    match nibble {
        0 => '0',
        1 => '1',
        2 => '2',
        3 => '3',
        4 => '4',
        5 => '5',
        6 => '6',
        7 => '7',
        8 => '8',
        9 => '9',
        10 => 'a',
        11 => 'b',
        12 => 'c',
        13 => 'd',
        14 => 'e',
        15 => 'f',
        _ => '?',
    }
}

/// Lowercase hex, shared wherever a digest or key is written down.
pub fn hex(bytes: &[u8]) -> (r: String)
    ensures
        r@ == hex_chars(bytes@),
{
    let mut output = String::new();
    let mut i: usize = 0;
    while i < bytes.len()
        invariant
            0 <= i <= bytes@.len(),
            output@ =~= hex_chars(bytes@.take(i as int)),
        decreases bytes@.len() - i,
    {
        let byte = bytes[i];
        string_push(&mut output, hex_digit(byte >> 4));
        string_push(&mut output, hex_digit(byte & 0x0f));
        proof {
            let before = hex_chars(bytes@.take(i as int));
            let after = hex_chars(bytes@.take(i + 1));
            assert forall|j: int| 0 <= j < after.len() implies #[trigger] after[j]
                == output@[j] by {
                if j < 2 * i {
                    assert(after[j] == before[j]);
                }
            }
            assert(output@ =~= after);
        }
        i = i + 1;
    }
    assert(bytes@.take(bytes@.len() as int) =~= bytes@);
    output
}

/// The value of one hex digit byte, either case.
pub open spec fn hex_value(b: u8) -> Option<u8> {
    if 48 <= b && b <= 57 {
        Some((b - 48) as u8)
    } else if 97 <= b && b <= 102 {
        Some((b - 87) as u8)
    } else if 65 <= b && b <= 70 {
        Some((b - 55) as u8)
    } else {
        None
    }
}

/// `u8::from_str_radix(pair, 16)` for a two-byte pair: an optional `+` sign then digits.
pub open spec fn pair_value(hi: u8, lo: u8) -> Option<u8> {
    if hi == 43 {
        hex_value(lo)
    } else {
        match (hex_value(hi), hex_value(lo)) {
            (Some(h), Some(l)) => Some((h * 16 + l) as u8),
            _ => None,
        }
    }
}

/// Exactly sixteen readable byte pairs.
pub open spec fn key_digits_ok(digits: Seq<u8>) -> bool {
    digits.len() == 32 && forall|i: int|
        0 <= i < 16 ==> (#[trigger] pair_value(digits[2 * i], digits[2 * i + 1])) is Some
}

/// The sixteen bytes that readable digits spell.
pub open spec fn key_from_digits(digits: Seq<u8>) -> Seq<u8> {
    Seq::new(16, |i: int| pair_value(digits[2 * i], digits[2 * i + 1])->0)
}

/// The key an opaque identity names under the given prefix, if it names one.
pub open spec fn parsed_key(value: Seq<char>, prefix: Seq<char>) -> Option<Seq<u8>> {
    let bytes = encode_utf8(value);
    let head = encode_utf8(prefix);
    if head.len() <= bytes.len() && bytes.take(head.len() as int) == head && key_digits_ok(
        bytes.skip(head.len() as int),
    ) {
        Some(key_from_digits(bytes.skip(head.len() as int)))
    } else {
        None
    }
}

fn hex_value_exec(b: u8) -> (r: Option<u8>)
    ensures
        r == hex_value(b),
{
    if 48 <= b && b <= 57 {
        Some(b - 48)
    } else if 97 <= b && b <= 102 {
        Some(b - 87)
    } else if 65 <= b && b <= 70 {
        Some(b - 55)
    } else {
        None
    }
}

fn pair_value_exec(hi: u8, lo: u8) -> (r: Option<u8>)
    ensures
        r == pair_value(hi, lo),
{
    if hi == 43 {
        hex_value_exec(lo)
    } else {
        match (hex_value_exec(hi), hex_value_exec(lo)) {
            (Some(h), Some(l)) => Some(h * 16 + l),
            _ => None,
        }
    }
}

pub open spec fn malformed_identity_message() -> Seq<char> {
    "an opaque integration identity is malformed"@
}

/// Read the sixteen key bytes an opaque identity carries after its prefix.
pub fn parse_key(value: &str, prefix: &str) -> (r: Result<[u8; 16], AuthorizationFailure>)
    ensures
        match r {
            Ok(key) => parsed_key(value@, prefix@) == Some(key@),
            Err(f) => parsed_key(value@, prefix@) is None && is_failure(
                f,
                ErrorKind::InvalidRequest,
                malformed_identity_message(),
            ),
        },
{
    let bytes = value.as_bytes();
    let head = prefix.as_bytes();
    if !starts_with_bytes(bytes, head) {
        return Err(AuthorizationFailure::invalid("an opaque integration identity is malformed"));
    }
    let start = head.len();
    if bytes.len() - start != 32 {
        return Err(AuthorizationFailure::invalid("an opaque integration identity is malformed"));
    }
    let ghost digits = bytes@.skip(start as int);
    let mut key = [0u8; 16];
    let mut i: usize = 0;
    while i < 16
        invariant
            0 <= i <= 16,
            bytes.len() == start + 32,
            bytes@ == encode_utf8(value@),
            head@ == encode_utf8(prefix@),
            start == head@.len(),
            bytes@.take(start as int) == head@,
            digits == bytes@.skip(start as int),
            forall|j: int| 0 <= j < i ==> (#[trigger] pair_value(digits[2 * j], digits[2 * j + 1]))
                == Some(key@[j]),
        decreases 16 - i,
    {
        let hi = bytes[start + 2 * i];
        let lo = bytes[start + 2 * i + 1];
        assert(hi == digits[2 * i as int] && lo == digits[2 * i + 1]);
        match pair_value_exec(hi, lo) {
            Some(v) => {
                key[i] = v;
            },
            None => {
                proof {
                    assert(pair_value(digits[2 * i as int], digits[2 * i + 1]) is None);
                    assert(!key_digits_ok(digits));
                }
                return Err(
                    AuthorizationFailure::invalid("an opaque integration identity is malformed"),
                );
            },
        }
        i = i + 1;
    }
    proof {
        assert(bytes@.take(start as int) == head@);
        assert(key@ =~= key_from_digits(digits));
    }
    Ok(key)
}

} // verus!

verus! {

/// The durable key of an approved integration.
#[derive(Clone, Copy, Debug, PartialEq, Eq)]
pub struct IntegrationKey {
    pub bytes: [u8; 16],
}

/// The durable key of one pending enrollment.
#[derive(Clone, Copy, Debug, PartialEq, Eq)]
pub struct EnrollmentKey {
    pub bytes: [u8; 16],
}

impl IntegrationKey {
    pub fn from_bytes(bytes: [u8; 16]) -> (r: Self)
        ensures
            r.bytes == bytes,
    {
        IntegrationKey { bytes }
    }

    pub fn to_bytes(&self) -> (r: [u8; 16])
        ensures
            r == self.bytes,
    {
        self.bytes
    }
}

impl EnrollmentKey {
    pub fn from_bytes(bytes: [u8; 16]) -> (r: Self)
        ensures
            r.bytes == bytes,
    {
        EnrollmentKey { bytes }
    }

    pub fn to_bytes(&self) -> (r: [u8; 16])
        ensures
            r == self.bytes,
    {
        self.bytes
    }
}

/// The public opaque identity of an approved integration.
#[derive(Clone, Debug, PartialEq, Eq)]
pub struct IntegrationId {
    pub value: String,
}

/// The public opaque identity of one pending enrollment.
#[derive(Clone, Debug, PartialEq, Eq)]
pub struct PendingEnrollmentId {
    pub value: String,
}

impl IntegrationId {
    pub fn new(value: &str) -> (r: Self)
        ensures
            r.value@ == value@,
    {
        IntegrationId { value: value.to_owned() }
    }

    pub fn as_str(&self) -> (r: &str)
        ensures
            r@ == self.value@,
    {
        self.value.as_str()
    }
}

impl PendingEnrollmentId {
    pub fn new(value: &str) -> (r: Self)
        ensures
            r.value@ == value@,
    {
        PendingEnrollmentId { value: value.to_owned() }
    }

    pub fn as_str(&self) -> (r: &str)
        ensures
            r@ == self.value@,
    {
        self.value.as_str()
    }
}

pub open spec fn integration_prefix() -> Seq<char> {
    "int_"@
}

pub open spec fn enrollment_prefix() -> Seq<char> {
    "enr_"@
}

/// The integration key an opaque integration identity names.
pub fn integration_key(id: &IntegrationId) -> (r: Result<IntegrationKey, AuthorizationFailure>)
    ensures
        match r {
            Ok(key) => parsed_key(id.value@, integration_prefix()) == Some(key.bytes@),
            Err(f) => parsed_key(id.value@, integration_prefix()) is None && is_failure(
                f,
                ErrorKind::InvalidRequest,
                malformed_identity_message(),
            ),
        },
{
    match parse_key(id.as_str(), "int_") {
        Ok(bytes) => Ok(IntegrationKey::from_bytes(bytes)),
        Err(f) => Err(f),
    }
}

/// The enrollment key an opaque pending identity names.
pub fn enrollment_key(id: &PendingEnrollmentId) -> (r: Result<EnrollmentKey, AuthorizationFailure>)
    ensures
        match r {
            Ok(key) => parsed_key(id.value@, enrollment_prefix()) == Some(key.bytes@),
            Err(f) => parsed_key(id.value@, enrollment_prefix()) is None && is_failure(
                f,
                ErrorKind::InvalidRequest,
                malformed_identity_message(),
            ),
        },
{
    match parse_key(id.as_str(), "enr_") {
        Ok(bytes) => Ok(EnrollmentKey::from_bytes(bytes)),
        Err(f) => Err(f),
    }
}

/// The public identity of an integration key.
pub fn integration_id(key: IntegrationKey) -> (r: IntegrationId)
    ensures
        r.value@ == integration_prefix() + hex_chars(key.bytes@),
{
    let mut value = "int_".to_owned();
    let digits = hex(&key.to_bytes());
    string_push_str(&mut value, digits.as_str());
    IntegrationId { value }
}

/// The public identity of a pending enrollment key.
pub fn pending_id(key: EnrollmentKey) -> (r: PendingEnrollmentId)
    ensures
        r.value@ == enrollment_prefix() + hex_chars(key.bytes@),
{
    let mut value = "enr_".to_owned();
    let digits = hex(&key.to_bytes());
    string_push_str(&mut value, digits.as_str());
    PendingEnrollmentId { value }
}

proof fn lemma_hex_digit_value(n: u8)
    requires
        n < 16,
    ensures
        hex_value(hex_digit_char(n) as u8) == Some(n),
        hex_digit_char(n) as u8 != 43,
        '\0' <= hex_digit_char(n) <= '\u{7f}',
{
}

proof fn lemma_nibbles(b: u8)
    ensures
        b >> 4 < 16,
        b & 0x0f < 16,
        ((b >> 4) * 16 + (b & 0x0f)) as u8 == b,
{
    assert(b >> 4 < 16) by (bit_vector);
    assert(b & 0x0f < 16) by (bit_vector);
    assert(((b >> 4) * 16 + (b & 0x0f)) as u8 == b) by (bit_vector);
}

proof fn lemma_hex_chars_ascii(key: Seq<u8>)
    ensures
        is_ascii_chars(hex_chars(key)),
        forall|i: int|
            0 <= i < key.len() ==> (#[trigger] pair_value(
                hex_chars(key)[2 * i] as u8,
                hex_chars(key)[2 * i + 1] as u8,
            )) == Some(key[i]),
{
    let h = hex_chars(key);
    assert forall|i: int| 0 <= i < h.len() implies '\0' <= #[trigger] h[i] <= '\u{7f}' by {
        lemma_nibbles(key[i / 2]);
        if i % 2 == 0 {
            lemma_hex_digit_value(key[i / 2] >> 4);
        } else {
            lemma_hex_digit_value(key[i / 2] & 0x0f);
        }
    }
    assert forall|i: int| 0 <= i < key.len() implies (#[trigger] pair_value(
        h[2 * i] as u8,
        h[2 * i + 1] as u8,
    )) == Some(key[i]) by {
        assert((2 * i) / 2 == i);
        assert((2 * i + 1) / 2 == i);
        lemma_nibbles(key[i]);
        lemma_hex_digit_value(key[i] >> 4);
        lemma_hex_digit_value(key[i] & 0x0f);
    }
}

/// An opaque identity written under an ASCII prefix reads back as exactly the key it was
/// written from, and only under that prefix's spelling.
pub proof fn lemma_key_round_trip(prefix: Seq<char>, key: Seq<u8>)
    requires
        is_ascii_chars(prefix),
        key.len() == 16,
    ensures
        parsed_key(prefix + hex_chars(key), prefix) == Some(key),
{
    let h = hex_chars(key);
    let v = prefix + h;
    lemma_hex_chars_ascii(key);
    assert(is_ascii_chars(v)) by {
        assert forall|i: int| 0 <= i < v.len() implies '\0' <= #[trigger] v[i] <= '\u{7f}' by {
            if i < prefix.len() {
                assert(v[i] == prefix[i]);
            } else {
                assert(v[i] == h[i - prefix.len()]);
            }
        }
    }
    is_ascii_chars_encode_utf8(v);
    is_ascii_chars_encode_utf8(prefix);
    let bytes = encode_utf8(v);
    let head = encode_utf8(prefix);
    assert(bytes.take(head.len() as int) =~= head) by {
        assert forall|i: int| 0 <= i < head.len() implies bytes.take(head.len() as int)[i]
            == head[i] by {
            assert(v[i] == prefix[i]);
        }
    }
    let digits = bytes.skip(head.len() as int);
    assert forall|j: int| 0 <= j < 32 implies #[trigger] digits[j] == h[j] as u8 by {
        assert(v[prefix.len() + j] == h[j]);
    }
    assert forall|i: int| 0 <= i < 16 implies (#[trigger] pair_value(
        digits[2 * i],
        digits[2 * i + 1],
    )) == Some(key[i]) by {
        assert(digits[2 * i] == h[2 * i] as u8);
        assert(digits[2 * i + 1] == h[2 * i + 1] as u8);
    }
    assert(key_from_digits(digits) =~= key);
}

/// The public identity of an integration key reads back as that key.
pub proof fn lemma_integration_identity_round_trip(key: IntegrationKey)
    ensures
        parsed_key(integration_prefix() + hex_chars(key.bytes@), integration_prefix()) == Some(
            key.bytes@,
        ),
{
    reveal_strlit("int_");
    lemma_key_round_trip(integration_prefix(), key.bytes@);
}

/// The public identity of a pending enrollment key reads back as that key.
pub proof fn lemma_pending_identity_round_trip(key: EnrollmentKey)
    ensures
        parsed_key(enrollment_prefix() + hex_chars(key.bytes@), enrollment_prefix()) == Some(
            key.bytes@,
        ),
{
    reveal_strlit("enr_");
    lemma_key_round_trip(enrollment_prefix(), key.bytes@);
}

} // verus!

verus! {

// ---------------------------------------------------------------------------------------------
// Grants and their refresh
// ---------------------------------------------------------------------------------------------
/// One granted project root and the filesystem identity it was approved as.
#[derive(Debug)]
pub struct IntegrationRootRow {
    pub path: String,
    pub identity: [u8; 24],
}

/// What a granted root holds.
pub struct RootView {
    pub path: Seq<char>,
    pub identity: Seq<u8>,
}

impl View for IntegrationRootRow {
    type V = RootView;

    open spec fn view(&self) -> RootView {
        RootView { path: self.path@, identity: self.identity@ }
    }
}

/// The durable authority row of one integration.
#[derive(Debug)]
pub struct IntegrationRow {
    pub public_key: [u8; 32],
    pub key_generation: u64,
    pub grant_generation: u64,
    pub scopes: Vec<String>,
    pub roots: Vec<IntegrationRootRow>,
    pub revoked_at: Option<u64>,
}

/// What a durable authority row holds.
pub struct RowView {
    pub public_key: Seq<u8>,
    pub key_generation: u64,
    pub grant_generation: u64,
    pub scopes: Seq<Seq<char>>,
    pub roots: Seq<RootView>,
    pub revoked: bool,
}

impl View for IntegrationRow {
    type V = RowView;

    open spec fn view(&self) -> RowView {
        RowView {
            public_key: self.public_key@,
            key_generation: self.key_generation,
            grant_generation: self.grant_generation,
            scopes: texts(self.scopes@),
            roots: root_views(self.roots@),
            revoked: self.revoked_at is Some,
        }
    }
}

/// The grant a connection was last verified against.
#[derive(Debug)]
pub struct IntegrationGrant {
    pub integration_id: IntegrationId,
    pub scopes: Vec<AppScope>,
    pub roots: Vec<String>,
    pub key_generation: u64,
    pub grant_generation: u64,
}

/// What a grant holds.
pub struct GrantView {
    pub integration_id: Seq<char>,
    pub scopes: Seq<AppScope>,
    pub roots: Seq<Seq<char>>,
    pub key_generation: u64,
    pub grant_generation: u64,
}

impl View for IntegrationGrant {
    type V = GrantView;

    open spec fn view(&self) -> GrantView {
        GrantView {
            integration_id: self.integration_id.value@,
            scopes: self.scopes@,
            roots: texts(self.roots@),
            key_generation: self.key_generation,
            grant_generation: self.grant_generation,
        }
    }
}

/// One verified current grant. The durable row remains the authority and is checked before
/// every operation.
#[derive(Debug)]
pub struct AuthorizedIntegration {
    pub key: IntegrationKey,
    pub grant: IntegrationGrant,
    pub roots: Vec<IntegrationRootRow>,
}

/// What one verified authority holds.
pub struct AuthorityView {
    pub key: Seq<u8>,
    pub grant: GrantView,
    pub roots: Seq<RootView>,
}

impl View for AuthorizedIntegration {
    type V = AuthorityView;

    open spec fn view(&self) -> AuthorityView {
        AuthorityView { key: self.key.bytes@, grant: self.grant@, roots: root_views(self.roots@) }
    }
}

/// The characters of each string.
pub open spec fn texts(v: Seq<String>) -> Seq<Seq<char>> {
    v.map_values(|s: String| s@)
}

/// What each granted root holds.
pub open spec fn root_views(rows: Seq<IntegrationRootRow>) -> Seq<RootView> {
    rows.map_values(|r: IntegrationRootRow| r@)
}

/// The path of each granted root.
pub open spec fn root_paths(rows: Seq<RootView>) -> Seq<Seq<char>> {
    rows.map_values(|r: RootView| r.path)
}

/// The scope a stored scope name denotes.
pub open spec fn parse_scope_spec(name: Seq<char>) -> Option<AppScope> {
    if name == scope_name(AppScope::ProviderRead) {
        Some(AppScope::ProviderRead)
    } else if name == scope_name(AppScope::ModelRead) {
        Some(AppScope::ModelRead)
    } else if name == scope_name(AppScope::SessionNativeDiscover) {
        Some(AppScope::SessionNativeDiscover)
    } else if name == scope_name(AppScope::SessionList) {
        Some(AppScope::SessionList)
    } else if name == scope_name(AppScope::SessionStart) {
        Some(AppScope::SessionStart)
    } else if name == scope_name(AppScope::SessionResume) {
        Some(AppScope::SessionResume)
    } else if name == scope_name(AppScope::SessionInputWrite) {
        Some(AppScope::SessionInputWrite)
    } else if name == scope_name(AppScope::SessionOutputRead) {
        Some(AppScope::SessionOutputRead)
    } else if name == scope_name(AppScope::SessionStop) {
        Some(AppScope::SessionStop)
    } else if name == scope_name(AppScope::SessionDelete) {
        Some(AppScope::SessionDelete)
    } else if name == scope_name(AppScope::ApprovalRespondLow) {
        Some(AppScope::ApprovalRespondLow)
    } else if name == scope_name(AppScope::ApprovalRespondHigh) {
        Some(AppScope::ApprovalRespondHigh)
    } else {
        None
    }
}

/// Read a stored scope name.
pub fn parse_scope(name: &str) -> (r: Option<AppScope>)
    ensures
        r == parse_scope_spec(name@),
{
    if str_eq(name, AppScope::ProviderRead.as_str()) {
        Some(AppScope::ProviderRead)
    } else if str_eq(name, AppScope::ModelRead.as_str()) {
        Some(AppScope::ModelRead)
    } else if str_eq(name, AppScope::SessionNativeDiscover.as_str()) {
        Some(AppScope::SessionNativeDiscover)
    } else if str_eq(name, AppScope::SessionList.as_str()) {
        Some(AppScope::SessionList)
    } else if str_eq(name, AppScope::SessionStart.as_str()) {
        Some(AppScope::SessionStart)
    } else if str_eq(name, AppScope::SessionResume.as_str()) {
        Some(AppScope::SessionResume)
    } else if str_eq(name, AppScope::SessionInputWrite.as_str()) {
        Some(AppScope::SessionInputWrite)
    } else if str_eq(name, AppScope::SessionOutputRead.as_str()) {
        Some(AppScope::SessionOutputRead)
    } else if str_eq(name, AppScope::SessionStop.as_str()) {
        Some(AppScope::SessionStop)
    } else if str_eq(name, AppScope::SessionDelete.as_str()) {
        Some(AppScope::SessionDelete)
    } else if str_eq(name, AppScope::ApprovalRespondLow.as_str()) {
        Some(AppScope::ApprovalRespondLow)
    } else if str_eq(name, AppScope::ApprovalRespondHigh.as_str()) {
        Some(AppScope::ApprovalRespondHigh)
    } else {
        None
    }
}

/// Every stored scope name denotes a scope.
pub open spec fn scopes_readable(names: Seq<Seq<char>>) -> bool {
    forall|i: int| 0 <= i < names.len() ==> (#[trigger] parse_scope_spec(names[i])) is Some
}

/// The scopes the stored names denote.
pub open spec fn read_scopes(names: Seq<Seq<char>>) -> Seq<AppScope> {
    names.map_values(|n: Seq<char>| parse_scope_spec(n)->0)
}

/// The grant a durable row holds for the integration named `id`.
pub open spec fn grant_of_row(id: Seq<char>, row: RowView) -> GrantView {
    GrantView {
        integration_id: id,
        scopes: read_scopes(row.scopes),
        roots: root_paths(row.roots),
        key_generation: row.key_generation,
        grant_generation: row.grant_generation,
    }
}

/// Copy a string with a proved-equal value.
pub fn copy_string(s: &String) -> (r: String)
    ensures
        r == *s,
{
    s.clone()
}

/// Copy one root row.
pub fn copy_root(root: &IntegrationRootRow) -> (r: IntegrationRootRow)
    ensures
        r@ == root@,
{
    IntegrationRootRow { path: copy_string(&root.path), identity: root.identity }
}

/// Copy a list of root rows.
pub fn copy_roots(roots: &Vec<IntegrationRootRow>) -> (r: Vec<IntegrationRootRow>)
    ensures
        root_views(r@) == root_views(roots@),
{
    let mut out: Vec<IntegrationRootRow> = Vec::new();
    let mut i: usize = 0;
    while i < roots.len()
        invariant
            0 <= i <= roots@.len(),
            out@.len() == i,
            forall|j: int| 0 <= j < i ==> (#[trigger] out@[j])@ == roots@[j]@,
        decreases roots@.len() - i,
    {
        let copied = copy_root(&roots[i]);
        out.push(copied);
        i = i + 1;
    }
    assert(root_views(out@) =~= root_views(roots@));
    out
}

/// Copy a list of strings.
pub fn copy_strings(v: &Vec<String>) -> (r: Vec<String>)
    ensures
        r@ == v@,
{
    let mut out: Vec<String> = Vec::new();
    let mut i: usize = 0;
    while i < v.len()
        invariant
            0 <= i <= v@.len(),
            out@ == v@.take(i as int),
        decreases v@.len() - i,
    {
        out.push(copy_string(&v[i]));
        proof {
            assert(v@.take(i + 1) =~= v@.take(i as int).push(v@[i as int]));
        }
        i = i + 1;
    }
    assert(v@.take(v@.len() as int) =~= v@);
    out
}

/// Copy a list of scopes.
pub fn copy_scopes(v: &Vec<AppScope>) -> (r: Vec<AppScope>)
    ensures
        r@ == v@,
{
    let mut out: Vec<AppScope> = Vec::new();
    let mut i: usize = 0;
    while i < v.len()
        invariant
            0 <= i <= v@.len(),
            out@ == v@.take(i as int),
        decreases v@.len() - i,
    {
        out.push(v[i]);
        proof {
            assert(v@.take(i + 1) =~= v@.take(i as int).push(v@[i as int]));
        }
        i = i + 1;
    }
    assert(v@.take(v@.len() as int) =~= v@);
    out
}

/// Copy a grant.
pub fn copy_grant(g: &IntegrationGrant) -> (r: IntegrationGrant)
    ensures
        r@ == g@,
{
    IntegrationGrant {
        integration_id: IntegrationId { value: copy_string(&g.integration_id.value) },
        scopes: copy_scopes(&g.scopes),
        roots: copy_strings(&g.roots),
        key_generation: g.key_generation,
        grant_generation: g.grant_generation,
    }
}

/// Copy one verified authority.
pub fn copy_authority(a: &AuthorizedIntegration) -> (r: AuthorizedIntegration)
    ensures
        r@ == a@,
{
    AuthorizedIntegration { key: a.key, grant: copy_grant(&a.grant), roots: copy_roots(&a.roots) }
}

/// The public grant a durable row holds for an integration.
pub fn grant(id: IntegrationId, row: &IntegrationRow) -> (r: Result<
    IntegrationGrant,
    AuthorizationFailure,
>)
    ensures
        match r {
            Ok(g) => scopes_readable(row@.scopes) && g@ == grant_of_row(id.value@, row@),
            Err(f) => !scopes_readable(row@.scopes) && is_failure(
                f,
                ErrorKind::Internal,
                internal_message(),
            ),
        },
{
    let ghost names = row@.scopes;
    let mut scopes: Vec<AppScope> = Vec::new();
    let mut i: usize = 0;
    while i < row.scopes.len()
        invariant
            0 <= i <= row.scopes@.len(),
            names == texts(row.scopes@),
            scopes@ == read_scopes(names.take(i as int)),
            forall|j: int| 0 <= j < i ==> (#[trigger] parse_scope_spec(names[j])) is Some,
        decreases row.scopes@.len() - i,
    {
        match parse_scope(row.scopes[i].as_str()) {
            Some(scope) => {
                scopes.push(scope);
                proof {
                    assert(read_scopes(names.take(i + 1)) =~= read_scopes(names.take(i as int)).push(
                        scope,
                    ));
                }
            },
            None => {
                proof {
                    assert(parse_scope_spec(names[i as int]) is None);
                }
                return Err(AuthorizationFailure::internal());
            },
        }
        i = i + 1;
    }
    assert(names.take(names.len() as int) =~= names);
    let mut roots: Vec<String> = Vec::new();
    let mut k: usize = 0;
    while k < row.roots.len()
        invariant
            0 <= k <= row.roots@.len(),
            roots@.len() == k,
            forall|j: int| 0 <= j < k ==> (#[trigger] roots@[j])@ == row.roots@[j].path@,
        decreases row.roots@.len() - k,
    {
        let path = copy_string(&row.roots[k].path);
        roots.push(path);
        k = k + 1;
    }
    assert(texts(roots@) =~= root_paths(row@.roots));
    Ok(
        IntegrationGrant {
            integration_id: id,
            scopes,
            roots,
            key_generation: row.key_generation,
            grant_generation: row.grant_generation,
        },
    )
}

/// A newer grant that keeps every scope and root already held.
pub open spec fn widens(current: GrantView, next: GrantView) -> bool {
    &&& next.grant_generation > current.grant_generation
    &&& forall|i: int| 0 <= i < current.scopes.len() ==> next.scopes.contains(#[trigger] current.scopes[i])
    &&& forall|i: int| 0 <= i < current.roots.len() ==> next.roots.contains(#[trigger] current.roots[i])
}

fn contains_scope(v: &Vec<AppScope>, scope: AppScope) -> (r: bool)
    ensures
        r == v@.contains(scope),
{
    let mut i: usize = 0;
    while i < v.len()
        invariant
            0 <= i <= v@.len(),
            forall|j: int| 0 <= j < i ==> v@[j] != scope,
        decreases v@.len() - i,
    {
        if v[i] == scope {
            return true;
        }
        i = i + 1;
    }
    false
}

fn contains_text(v: &Vec<String>, s: &String) -> (r: bool)
    ensures
        r == texts(v@).contains(s@),
{
    let mut i: usize = 0;
    while i < v.len()
        invariant
            0 <= i <= v@.len(),
            forall|j: int| 0 <= j < i ==> texts(v@)[j] != s@,
        decreases v@.len() - i,
    {
        if v[i] == *s {
            assert(texts(v@)[i as int] == s@);
            return true;
        }
        i = i + 1;
    }
    false
}

/// Whether a newer grant is a pure widening the live connection may continue across.
///
/// Strictly newer, and everything already held still held: any removed scope, any removed
/// root, and any older generation answers false.
pub fn widening_continues(current: &IntegrationGrant, next: &IntegrationGrant) -> (r: bool)
    ensures
        r == widens(current@, next@),
{
    if next.grant_generation <= current.grant_generation {
        return false;
    }
    let mut i: usize = 0;
    while i < current.scopes.len()
        invariant
            0 <= i <= current.scopes@.len(),
            forall|j: int| 0 <= j < i ==> next.scopes@.contains(#[trigger] current.scopes@[j]),
        decreases current.scopes@.len() - i,
    {
        if !contains_scope(&next.scopes, current.scopes[i]) {
            assert(current@.scopes[i as int] == current.scopes@[i as int]);
            return false;
        }
        i = i + 1;
    }
    let mut k: usize = 0;
    while k < current.roots.len()
        invariant
            0 <= k <= current.roots@.len(),
            forall|j: int| 0 <= j < k ==> texts(next.roots@).contains(#[trigger] texts(current.roots@)[j]),
        decreases current.roots@.len() - k,
    {
        if !contains_text(&next.roots, &current.roots[k]) {
            assert(current@.roots[k as int] == current.roots@[k as int]@);
            assert(!next@.roots.contains(current@.roots[k as int]));
            return false;
        }
        k = k + 1;
    }
    true
}

/// A grant is never a widening of itself.
pub proof fn lemma_no_self_widening(grant: GrantView)
    ensures
        !widens(grant, grant),
{
}

/// A grant change continues in place exactly when the new grant is newer and keeps every scope
/// and every root already held, whatever it adds: nothing about how many scopes or roots it adds
/// matters.
pub proof fn lemma_widening_keeps_everything(current: GrantView, next: GrantView)
    ensures
        widens(current, next) <==> (next.grant_generation > current.grant_generation && (forall|
            s: AppScope,
        | current.scopes.contains(s) ==> next.scopes.contains(s)) && (forall|r: Seq<char>|
            current.roots.contains(r) ==> next.roots.contains(r))),
{
    if next.grant_generation > current.grant_generation && (forall|s: AppScope|
        current.scopes.contains(s) ==> next.scopes.contains(s)) && (forall|r: Seq<char>|
        current.roots.contains(r) ==> next.roots.contains(r)) {
        assert forall|i: int| 0 <= i < current.scopes.len() implies next.scopes.contains(
            #[trigger] current.scopes[i],
        ) by {
            assert(current.scopes.contains(current.scopes[i]));
        }
        assert forall|i: int| 0 <= i < current.roots.len() implies next.roots.contains(
            #[trigger] current.roots[i],
        ) by {
            assert(current.roots.contains(current.roots[i]));
        }
    }
    if widens(current, next) {
        assert forall|s: AppScope| current.scopes.contains(s) implies next.scopes.contains(s) by {
            let i = choose|i: int| 0 <= i < current.scopes.len() && current.scopes[i] == s;
            assert(next.scopes.contains(current.scopes[i]));
        }
        assert forall|r: Seq<char>| current.roots.contains(r) implies next.roots.contains(r) by {
            let i = choose|i: int| 0 <= i < current.roots.len() && current.roots[i] == r;
            assert(next.roots.contains(current.roots[i]));
        }
    }
}

/// A newer grant that only adds a folder, or only adds a scope, continues in place; one that
/// drops a scope or a folder already held does not.
pub proof fn lemma_adding_continues_dropping_ends(
    current: GrantView,
    root: Seq<char>,
    scope: AppScope,
    generation: u64,
)
    requires
        generation > current.grant_generation,
    ensures
        widens(
            current,
            GrantView {
                integration_id: current.integration_id,
                scopes: current.scopes,
                roots: current.roots.push(root),
                key_generation: current.key_generation,
                grant_generation: generation,
            },
        ),
        widens(
            current,
            GrantView {
                integration_id: current.integration_id,
                scopes: current.scopes.push(scope),
                roots: current.roots,
                key_generation: current.key_generation,
                grant_generation: generation,
            },
        ),
        current.scopes.len() > 0 ==> !widens(
            current,
            GrantView {
                integration_id: current.integration_id,
                scopes: current.scopes.filter(|s: AppScope| s != current.scopes[0]),
                roots: current.roots,
                key_generation: current.key_generation,
                grant_generation: generation,
            },
        ),
        current.roots.len() > 0 ==> !widens(
            current,
            GrantView {
                integration_id: current.integration_id,
                scopes: current.scopes,
                roots: current.roots.filter(|r: Seq<char>| r != current.roots[0]),
                key_generation: current.key_generation,
                grant_generation: generation,
            },
        ),
{
    let more_roots = current.roots.push(root);
    assert forall|i: int| 0 <= i < current.roots.len() implies more_roots.contains(
        #[trigger] current.roots[i],
    ) by {
        assert(more_roots[i] == current.roots[i]);
    }
    let more_scopes = current.scopes.push(scope);
    assert forall|i: int| 0 <= i < current.scopes.len() implies more_scopes.contains(
        #[trigger] current.scopes[i],
    ) by {
        assert(more_scopes[i] == current.scopes[i]);
    }
    if current.scopes.len() > 0 {
        let first = current.scopes[0];
        let keep = |s: AppScope| s != first;
        let fewer = current.scopes.filter(keep);
        if fewer.contains(first) {
            let k = choose|k: int| 0 <= k < fewer.len() && fewer[k] == first;
            current.scopes.lemma_filter_pred(keep, k);
        }
        assert(!fewer.contains(current.scopes[0]));
    }
    if current.roots.len() > 0 {
        let first = current.roots[0];
        let keep = |r: Seq<char>| r != first;
        let fewer = current.roots.filter(keep);
        if fewer.contains(first) {
            let k = choose|k: int| 0 <= k < fewer.len() && fewer[k] == first;
            current.roots.lemma_filter_pred(keep, k);
        }
        assert(!fewer.contains(current.roots[0]));
    }
}

/// Two successive pure widenings are one pure widening.
pub proof fn lemma_widening_transitive(a: GrantView, b: GrantView, c: GrantView)
    requires
        widens(a, b),
        widens(b, c),
    ensures
        widens(a, c),
{
    assert forall|i: int| 0 <= i < a.scopes.len() implies c.scopes.contains(#[trigger] a.scopes[i]) by {
        let j = choose|j: int| 0 <= j < b.scopes.len() && b.scopes[j] == a.scopes[i];
        assert(c.scopes.contains(b.scopes[j]));
    }
    assert forall|i: int| 0 <= i < a.roots.len() implies c.roots.contains(#[trigger] a.roots[i]) by {
        let j = choose|j: int| 0 <= j < b.roots.len() && b.roots[j] == a.roots[i];
        assert(c.roots.contains(b.roots[j]));
    }
}

pub open spec fn revoked_message() -> Seq<char> {
    "the integration grant was revoked"@
}

pub open spec fn key_changed_message() -> Seq<char> {
    "the integration key changed; reconnect and authenticate again"@
}

pub open spec fn grant_changed_message() -> Seq<char> {
    "the integration grant changed; reconnect and authenticate again"@
}

/// What revalidating a live connection against one authoritative row answers.
pub open spec fn refresh_verdict(current: AuthorityView, row: RowView) -> Result<AuthorityView, (ErrorKind, Seq<char>)> {
    let next = grant_of_row(current.grant.integration_id, row);
    if row.revoked {
        Err((ErrorKind::IntegrationRevoked, revoked_message()))
    } else if row.key_generation != current.grant.key_generation {
        Err((ErrorKind::Unauthenticated, key_changed_message()))
    } else if !scopes_readable(row.scopes) {
        Err((ErrorKind::Internal, internal_message()))
    } else if row.grant_generation != current.grant.grant_generation && !widens(current.grant, next) {
        Err((ErrorKind::Unauthenticated, grant_changed_message()))
    } else {
        Ok(AuthorityView { key: current.key, grant: next, roots: row.roots })
    }
}

/// Whether a result answers exactly the revalidation of an authority against a row.
pub open spec fn refresh_outcome(
    current: AuthorityView,
    row: RowView,
    r: Result<AuthorityView, AuthorizationFailure>,
) -> bool {
    match refresh_verdict(current, row) {
        Ok(a) => r == Ok::<AuthorityView, AuthorizationFailure>(a),
        Err((kind, message)) => r matches Err(f) && is_failure(f, kind, message),
    }
}

/// The authority result seen through its view.
pub open spec fn authority_result(r: Result<AuthorizedIntegration, AuthorizationFailure>) -> Result<
    AuthorityView,
    AuthorizationFailure,
> {
    match r {
        Ok(a) => Ok(a@),
        Err(f) => Err(f),
    }
}

/// Revalidate an existing connection against one exact authoritative row.
///
/// A newer generation that only added authority continues in place; anything that removed or
/// replaced authority, and any older generation, tears the connection down.
pub fn refresh_against_row(current: &AuthorizedIntegration, row: &IntegrationRow) -> (r: Result<
    AuthorizedIntegration,
    AuthorizationFailure,
>)
    ensures
        refresh_outcome(current@, row@, authority_result(r)),
{
    if row.revoked_at.is_some() {
        return Err(
            AuthorizationFailure {
                kind: ErrorKind::IntegrationRevoked,
                message: "the integration grant was revoked",
            },
        );
    }
    if row.key_generation != current.grant.key_generation {
        return Err(
            AuthorizationFailure::unauthenticated(
                "the integration key changed; reconnect and authenticate again",
            ),
        );
    }
    let id = IntegrationId { value: copy_string(&current.grant.integration_id.value) };
    let next = grant(id, row)?;
    if row.grant_generation != current.grant.grant_generation {
        if !widening_continues(&current.grant, &next) {
            return Err(
                AuthorizationFailure::unauthenticated(
                    "the integration grant changed; reconnect and authenticate again",
                ),
            );
        }
    }
    Ok(AuthorizedIntegration { key: current.key, grant: next, roots: copy_roots(&row.roots) })
}

} // verus!

verus! {

// ---------------------------------------------------------------------------------------------
// Signatures and fixed public fields
// ---------------------------------------------------------------------------------------------
pub open spec fn key_not_ed25519_message() -> Seq<char> {
    "the integration public key is not valid Ed25519"@
}

pub open spec fn signature_malformed_message() -> Seq<char> {
    "the integration signature is malformed"@
}

pub open spec fn signature_rejected_message() -> Seq<char> {
    "the integration signature does not verify"@
}

/// Whether encoded text spells exactly one Ed25519 signature.
pub open spec fn signature_well_formed(encoded: Seq<char>) -> bool {
    base64url_decode(encoded) matches Some(bytes) && bytes.len() == 64
}

/// Why one Ed25519 signature over a payload is refused, or `None` when it verifies: a key that
/// is no curve point, then a signature that is not 64 Base64 bytes, then strict verification.
pub open spec fn signature_verdict(key: Seq<u8>, encoded: Seq<char>, payload: Seq<u8>) -> Option<(ErrorKind, Seq<char>)> {
    if !ed25519_point_valid(key) {
        Some((ErrorKind::InvalidRequest, key_not_ed25519_message()))
    } else if !signature_well_formed(encoded) {
        Some((ErrorKind::InvalidRequest, signature_malformed_message()))
    } else if !ed25519_accepts(key, payload, base64url_decode(encoded)->Some_0) {
        Some((ErrorKind::Unauthenticated, signature_rejected_message()))
    } else {
        None
    }
}

/// Whether a result answers exactly the verdict on one signature.
pub open spec fn signature_outcome(
    key: Seq<u8>,
    encoded: Seq<char>,
    payload: Seq<u8>,
    r: Result<(), AuthorizationFailure>,
) -> bool {
    match signature_verdict(key, encoded, payload) {
        None => r is Ok,
        Some((kind, message)) => r matches Err(f) && is_failure(f, kind, message),
    }
}

/// Verify one Ed25519 signature over a payload with strict malleability checks.
pub fn verify_signature(key: &[u8; 32], encoded_signature: &str, payload: &[u8]) -> (r: Result<
    (),
    AuthorizationFailure,
>)
    ensures
        signature_outcome(key@, encoded_signature@, payload@, r),
{
    let verifying = match ed25519_verifying_key(key) {
        Ok(verifying) => verifying,
        Err(_) => {
            return Err(
                AuthorizationFailure::invalid("the integration public key is not valid Ed25519"),
            );
        },
    };
    let bytes = match decode_base64(encoded_signature) {
        Ok(bytes) => bytes,
        Err(()) => {
            return Err(AuthorizationFailure::invalid("the integration signature is malformed"));
        },
    };
    let signature = match ed25519_signature(bytes.as_slice()) {
        Ok(signature) => signature,
        Err(_) => {
            return Err(AuthorizationFailure::invalid("the integration signature is malformed"));
        },
    };
    match ed25519_verify_strict(&verifying, payload, &signature) {
        Ok(()) => Ok(()),
        Err(_) => Err(
            AuthorizationFailure::unauthenticated("the integration signature does not verify"),
        ),
    }
}

/// Decode URL-safe unpadded Base64, dropping the codec's error detail.
pub fn decode_base64(encoded: &str) -> (r: Result<Vec<u8>, ()>)
    ensures
        match r {
            Ok(bytes) => base64url_decode(encoded@) == Some(bytes@),
            Err(()) => base64url_decode(encoded@) is None,
        },
{
    match base64url_decode_vec(encoded) {
        Ok(bytes) => Ok(bytes),
        Err(_) => Err(()),
    }
}

/// The refusal sentence for a fixed-width public field that does not decode.
pub open spec fn malformed_fixed_message(field: Seq<char>) -> Seq<char> {
    if field == "public key"@ {
        "the integration public key is malformed"@
    } else if field == "manifest digest"@ {
        "the integration manifest digest is malformed"@
    } else {
        "a fixed public field is malformed"@
    }
}

/// The refusal for a fixed-width public field that does not decode.
pub fn malformed_fixed(field: &'static str) -> (r: AuthorizationFailure)
    ensures
        is_failure(r, ErrorKind::InvalidRequest, malformed_fixed_message(field@)),
{
    if str_eq(field, "public key") {
        AuthorizationFailure::invalid("the integration public key is malformed")
    } else if str_eq(field, "manifest digest") {
        AuthorizationFailure::invalid("the integration manifest digest is malformed")
    } else {
        AuthorizationFailure::invalid("a fixed public field is malformed")
    }
}

/// The 32 bytes that Base64 text spells, when it spells exactly 32.
pub open spec fn exact_32(encoded: Seq<char>) -> Option<Seq<u8>> {
    match base64url_decode(encoded) {
        Some(bytes) => if bytes.len() == 32 {
            Some(bytes)
        } else {
            None
        },
        None => None,
    }
}

/// Decode one 32-byte public field.
pub fn decode_exact(encoded: &str, field: &'static str) -> (r: Result<[u8; 32], AuthorizationFailure>)
    ensures
        match r {
            Ok(bytes) => exact_32(encoded@) == Some(bytes@),
            Err(f) => exact_32(encoded@) is None && is_failure(
                f,
                ErrorKind::InvalidRequest,
                malformed_fixed_message(field@),
            ),
        },
{
    let bytes = match decode_base64(encoded) {
        Ok(bytes) => bytes,
        Err(()) => return Err(malformed_fixed(field)),
    };
    if bytes.len() != 32 {
        return Err(malformed_fixed(field));
    }
    let mut out = [0u8; 32];
    let mut i: usize = 0;
    while i < 32
        invariant
            0 <= i <= 32,
            bytes@.len() == 32,
            forall|j: int| 0 <= j < i ==> out@[j] == bytes@[j],
        decreases 32 - i,
    {
        out[i] = bytes[i];
        i = i + 1;
    }
    assert(out@ =~= bytes@);
    Ok(out)
}

/// Bytes from the operating system's random source.
pub fn random_bytes<const N: usize>() -> (r: Result<[u8; N], AuthorizationFailure>)
    ensures
        r matches Err(f) ==> is_failure(f, ErrorKind::Internal, internal_message()),
{
    let mut bytes = [0u8; N];
    match random_fill(&mut bytes) {
        Ok(()) => Ok(bytes),
        Err(_) => Err(AuthorizationFailure::internal()),
    }
}

/// Prove that whoever asks to approve an enrollment holds the key it was requested with.
///
/// `payload` is the self-approval signing payload of the pending identity.
pub fn verify_self_approval(public_key: &[u8; 32], encoded_signature: &str, payload: &[u8]) -> (r:
    Result<(), AuthorizationFailure>)
    ensures
        signature_outcome(public_key@, encoded_signature@, payload@, r),
{
    verify_signature(public_key, encoded_signature, payload)
}

} // verus!

verus! {

// ---------------------------------------------------------------------------------------------
// Authentication, key rotation, and challenges
// ---------------------------------------------------------------------------------------------
/// The proof a client presents at initialization.
#[derive(Debug)]
pub struct IntegrationAuthentication {
    pub integration_id: IntegrationId,
    pub key_generation: u64,
    pub grant_generation: u64,
    pub signature: String,
}

pub open spec fn stale_generation_message() -> Seq<char> {
    "the integration generation is stale"@
}

/// What verifying an initialization proof against one authority row answers.
pub open spec fn authentication_outcome(
    authentication: IntegrationAuthentication,
    key: IntegrationKey,
    row: RowView,
    payload: Seq<u8>,
    r: Result<AuthorityView, AuthorizationFailure>,
) -> bool {
    if row.revoked {
        r matches Err(f) && is_failure(f, ErrorKind::IntegrationRevoked, revoked_message())
    } else if row.key_generation != authentication.key_generation || row.grant_generation
        < authentication.grant_generation {
        r matches Err(f) && is_failure(f, ErrorKind::Unauthenticated, stale_generation_message())
    } else {
        match signature_verdict(row.public_key, authentication.signature@, payload) {
            Some((kind, message)) => r matches Err(f) && is_failure(f, kind, message),
            None => if scopes_readable(row.scopes) {
                r == Ok::<AuthorityView, AuthorizationFailure>(
                    AuthorityView {
                        key: key.bytes@,
                        grant: grant_of_row(authentication.integration_id.value@, row),
                        roots: row.roots,
                    },
                )
            } else {
                r matches Err(f) && is_failure(f, ErrorKind::Internal, internal_message())
            },
        }
    }
}

/// Verify initialization against one authority row.
///
/// `payload` is the initialization signing payload the connection's negotiation produced.
pub fn authenticate_against_row(
    payload: &[u8],
    authentication: &IntegrationAuthentication,
    key: IntegrationKey,
    row: &IntegrationRow,
) -> (r: Result<AuthorizedIntegration, AuthorizationFailure>)
    ensures
        authentication_outcome(*authentication, key, row@, payload@, authority_result(r)),
{
    if row.revoked_at.is_some() {
        return Err(
            AuthorizationFailure {
                kind: ErrorKind::IntegrationRevoked,
                message: "the integration grant was revoked",
            },
        );
    }
    if row.key_generation != authentication.key_generation || row.grant_generation
        < authentication.grant_generation {
        return Err(AuthorizationFailure::unauthenticated("the integration generation is stale"));
    }
    verify_signature(&row.public_key, authentication.signature.as_str(), payload)?;
    let id = IntegrationId { value: copy_string(&authentication.integration_id.value) };
    let granted = grant(id, row)?;
    Ok(AuthorizedIntegration { key, grant: granted, roots: copy_roots(&row.roots) })
}

/// The parameters of a key rotation request.
#[derive(Debug)]
pub struct RotateIntegrationKeyParams {
    pub request_id: MutationRequestId,
    pub expected_key_generation: u64,
    pub new_public_key: String,
    pub new_key_proof: String,
}

pub open spec fn rotation_identity_malformed_message() -> Seq<char> {
    "the key rotation request identity is malformed"@
}

pub open spec fn rotation_identity_expired_message() -> Seq<char> {
    "the key rotation request identity is outside its bounded lifetime"@
}

pub open spec fn rotation_generation_exhausted_message() -> Seq<char> {
    "the expected integration key generation is exhausted"@
}

pub open spec fn rotation_mismatch_message() -> Seq<char> {
    "the key rotation request no longer matches the integration generation"@
}

/// `a + b`, held at the top of the `u64` range.
pub open spec fn sat_add(a: u64, b: u64) -> u64 {
    if a + b > u64::MAX {
        u64::MAX
    } else {
        (a + b) as u64
    }
}

/// A request stamped within the accepted window around `now`.
pub open spec fn within_lifetime(created_at: u64, now: u64) -> bool {
    created_at <= sat_add(now, MUTATION_CLOCK_SKEW_MS) && sat_add(created_at, IDEMPOTENCY_WINDOW_MS)
        >= now
}

/// A rotation that has not happened yet, or the exact one that already did.
pub open spec fn rotation_matches(row: RowView, expected: u64, new_key: Seq<u8>) -> bool {
    (row.key_generation == expected && row.public_key != new_key) || (row.key_generation
        == expected + 1 && row.public_key == new_key)
}

/// What verifying a replacement-key proof answers, checked in the order the request is read.
pub open spec fn rotation_outcome(
    row: RowView,
    params: RotateIntegrationKeyParams,
    payload: Seq<u8>,
    now: u64,
    r: Result<[u8; 32], AuthorizationFailure>,
) -> bool {
    match params.request_id.unix_millis {
        None => r matches Err(f) && is_failure(
            f,
            ErrorKind::InvalidRequest,
            rotation_identity_malformed_message(),
        ),
        Some(created_at) => if !within_lifetime(created_at, now) {
            r matches Err(f) && is_failure(
                f,
                ErrorKind::InvalidRequest,
                rotation_identity_expired_message(),
            )
        } else if params.expected_key_generation == u64::MAX {
            r matches Err(f) && is_failure(
                f,
                ErrorKind::InvalidRequest,
                rotation_generation_exhausted_message(),
            )
        } else {
            match exact_32(params.new_public_key@) {
                None => r matches Err(f) && is_failure(
                    f,
                    ErrorKind::InvalidRequest,
                    malformed_fixed_message("new public key"@),
                ),
                Some(new_key) => if !rotation_matches(row, params.expected_key_generation, new_key) {
                    r matches Err(f) && is_failure(
                        f,
                        ErrorKind::IdempotencyConflict,
                        rotation_mismatch_message(),
                    )
                } else {
                    match signature_verdict(new_key, params.new_key_proof@, payload) {
                        None => r matches Ok(k) && k@ == new_key,
                        Some((kind, message)) => r matches Err(f) && is_failure(f, kind, message),
                    }
                },
            }
        },
    }
}

/// Verify a replacement-key proof against the exact current or already-rotated grant row.
///
/// `payload` is the key-rotation signing payload of this request and the caller's grant.
pub fn verify_key_rotation(
    row: &IntegrationRow,
    params: &RotateIntegrationKeyParams,
    payload: &[u8],
    now: u64,
) -> (r: Result<[u8; 32], AuthorizationFailure>)
    ensures
        rotation_outcome(row@, *params, payload@, now, r),
{
    let created_at = match params.request_id.unix_millis {
        Some(created_at) => created_at,
        None => {
            return Err(
                AuthorizationFailure::invalid("the key rotation request identity is malformed"),
            );
        },
    };
    if created_at > now.saturating_add(MUTATION_CLOCK_SKEW_MS) || created_at.saturating_add(
        IDEMPOTENCY_WINDOW_MS,
    ) < now {
        return Err(
            AuthorizationFailure::invalid(
                "the key rotation request identity is outside its bounded lifetime",
            ),
        );
    }
    if params.expected_key_generation == u64::MAX {
        return Err(
            AuthorizationFailure::invalid("the expected integration key generation is exhausted"),
        );
    }
    let new_public_key = decode_exact(params.new_public_key.as_str(), "new public key")?;
    let first_attempt = row.key_generation == params.expected_key_generation && !bytes_eq(
        &row.public_key,
        &new_public_key,
    );
    let completed_replay = row.key_generation == params.expected_key_generation + 1 && bytes_eq(
        &row.public_key,
        &new_public_key,
    );
    if !first_attempt && !completed_replay {
        return Err(
            AuthorizationFailure {
                kind: ErrorKind::IdempotencyConflict,
                message: "the key rotation request no longer matches the integration generation",
            },
        );
    }
    verify_signature(&new_public_key, params.new_key_proof.as_str(), payload)?;
    Ok(new_public_key)
}

/// One connection-bound, short-lived challenge.
#[derive(Debug)]
pub struct ServerChallenge {
    pub instance_id: String,
    pub nonce_id: String,
    pub nonce: String,
    pub expires_at_ms: u64,
}

pub open spec fn challenge_expired_message() -> Seq<char> {
    "the connection challenge expired"@
}

/// Refuse a challenge whose lifetime has passed.
pub fn ensure_challenge_fresh(challenge: &ServerChallenge, now: u64) -> (r: Result<
    (),
    AuthorizationFailure,
>)
    ensures
        r is Ok <==> now <= challenge.expires_at_ms,
        r matches Err(f) ==> is_failure(f, ErrorKind::Unauthenticated, challenge_expired_message()),
{
    if now > challenge.expires_at_ms {
        return Err(AuthorizationFailure::unauthenticated("the connection challenge expired"));
    }
    Ok(())
}

pub open spec fn nonce_prefix() -> Seq<char> {
    "nonce_"@
}

/// Mint one connection-bound, short-lived challenge from fresh randomness.
pub fn challenge(instance_id: &str, now: u64) -> (r: Result<ServerChallenge, AuthorizationFailure>)
    ensures
        match r {
            Ok(c) => {
                &&& c.instance_id@ == instance_id@
                &&& c.expires_at_ms == sat_add(now, CHALLENGE_LIFETIME_MS)
                &&& exists|id: Seq<u8>| id.len() == 16 && c.nonce_id@ == nonce_prefix() + hex_chars(id)
                &&& exists|nonce: Seq<u8>| nonce.len() == 32 && c.nonce@ == base64url_encode(nonce)
            },
            Err(f) => is_failure(f, ErrorKind::Internal, internal_message()),
        },
{
    let nonce = random_bytes::<32>()?;
    let nonce_id = random_bytes::<16>()?;
    let mut id_text = "nonce_".to_owned();
    let digits = hex(&nonce_id);
    string_push_str(&mut id_text, digits.as_str());
    let encoded = base64url_encode_string(&nonce);
    Ok(
        ServerChallenge {
            instance_id: instance_id.to_owned(),
            nonce_id: id_text,
            nonce: encoded,
            expires_at_ms: now.saturating_add(CHALLENGE_LIFETIME_MS),
        },
    )
}

} // verus!

verus! {

// ---------------------------------------------------------------------------------------------
// Enrollment
// ---------------------------------------------------------------------------------------------
/// Where a pending enrollment stands.
#[derive(Clone, Copy, Debug, PartialEq, Eq)]
pub enum EnrollmentState {
    Pending,
    Denied,
    Approved(IntegrationKey),
}

/// One durable pending enrollment.
#[derive(Debug)]
pub struct EnrollmentRow {
    pub public_key: [u8; 32],
    pub client_instance_id: String,
    pub client_name: String,
    pub client_version: String,
    pub manifest_digest: [u8; 32],
    pub scopes: Vec<String>,
    pub roots: Vec<String>,
    pub created_at: u64,
    pub expires_at: u64,
    pub state: EnrollmentState,
}

/// The identity a client presents during negotiation.
#[derive(Debug)]
pub struct ClientInfo {
    pub name: String,
    pub version: String,
}

/// What an integration asks to be granted.
#[derive(Debug)]
pub struct EnrollmentManifest {
    pub client_instance_id: String,
    pub public_key: String,
    pub manifest_digest: String,
    pub requested_scopes: Vec<AppScope>,
    pub requested_roots: Vec<String>,
}

/// The opaque pending identity and its deadline.
#[derive(Debug)]
pub struct EnrollmentReceipt {
    pub pending_id: PendingEnrollmentId,
    pub expires_at_ms: u64,
}

/// The receipt for one pending enrollment.
pub fn receipt(key: EnrollmentKey, expires_at: u64) -> (r: EnrollmentReceipt)
    ensures
        r.pending_id.value@ == enrollment_prefix() + hex_chars(key.bytes@),
        r.expires_at_ms == expires_at,
{
    EnrollmentReceipt { pending_id: pending_id(key), expires_at_ms: expires_at }
}

/// No scope is requested twice.
pub open spec fn scopes_distinct(s: Seq<AppScope>) -> bool {
    forall|i: int, j: int| 0 <= i < j < s.len() ==> s[i] != s[j]
}

/// A scope request that is not empty, not longer than the scope vocabulary, and repeats nothing.
pub open spec fn scope_request_ok(s: Seq<AppScope>) -> bool {
    s.len() > 0 && s.len() <= APP_SCOPE_COUNT && scopes_distinct(s)
}

pub open spec fn scope_request_message() -> Seq<char> {
    "requested scopes are empty, duplicated, or oversized"@
}

fn scopes_unique(scopes: &Vec<AppScope>) -> (r: bool)
    ensures
        r == scopes_distinct(scopes@),
{
    let mut j: usize = 0;
    while j < scopes.len()
        invariant
            0 <= j <= scopes@.len(),
            forall|a: int, b: int| 0 <= a < b < j ==> scopes@[a] != scopes@[b],
        decreases scopes@.len() - j,
    {
        let mut i: usize = 0;
        while i < j
            invariant
                0 <= i <= j < scopes@.len(),
                forall|a: int| 0 <= a < i ==> scopes@[a] != scopes@[j as int],
            decreases j - i,
        {
            if scopes[i] == scopes[j] {
                return false;
            }
            i = i + 1;
        }
        j = j + 1;
    }
    true
}

/// Every check an enrollment request passes before anything durable happens, in order.
///
/// `absolute` reports, root by root, whether the platform reads the requested root as an
/// absolute path.
pub open spec fn enrollment_proof_outcome(
    challenge_expires_at: u64,
    client_name: Seq<char>,
    client_version: Seq<char>,
    manifest: EnrollmentManifest,
    signature: Seq<char>,
    payload: Seq<u8>,
    now: u64,
    absolute: Seq<bool>,
    r: Result<([u8; 32], [u8; 32]), AuthorizationFailure>,
) -> bool {
    if now > challenge_expires_at {
        r matches Err(f) && is_failure(f, ErrorKind::Unauthenticated, challenge_expired_message())
    } else if !client_text_ok(manifest.client_instance_id@) || !client_text_ok(client_name)
        || !client_text_ok(client_version) {
        r matches Err(f) && is_failure(f, ErrorKind::InvalidRequest, client_text_message())
    } else if manifest.requested_roots@.len() > MAX_ROOTS {
        r matches Err(f) && is_failure(f, ErrorKind::InvalidRequest, too_many_roots_message())
    } else if !roots_accepted(manifest.requested_roots@, absolute) {
        r matches Err(f) && is_failure(f, ErrorKind::InvalidRequest, unsafe_root_message())
    } else if !scope_request_ok(manifest.requested_scopes@) {
        r matches Err(f) && is_failure(f, ErrorKind::InvalidRequest, scope_request_message())
    } else if exact_32(manifest.public_key@) is None {
        r matches Err(f) && is_failure(
            f,
            ErrorKind::InvalidRequest,
            malformed_fixed_message("public key"@),
        )
    } else if exact_32(manifest.manifest_digest@) is None {
        r matches Err(f) && is_failure(
            f,
            ErrorKind::InvalidRequest,
            malformed_fixed_message("manifest digest"@),
        )
    } else {
        match signature_verdict(exact_32(manifest.public_key@)->0, signature, payload) {
            None => r matches Ok((key, digest)) && Some(key@) == exact_32(manifest.public_key@)
                && Some(digest@) == exact_32(manifest.manifest_digest@),
            Some((kind, message)) => r matches Err(f) && is_failure(f, kind, message),
        }
    }
}

/// Prove possession and apply every enrollment bound that needs no durable state, given the
/// platform's reading of each requested root.
///
/// `payload` is the enrollment signing payload of this negotiation and manifest;
/// `absolute[i]` tells whether requested root `i` is an absolute path. Answers the decoded
/// public key and manifest digest.
pub fn check_enrollment_proof(
    challenge: &ServerChallenge,
    client: &ClientInfo,
    manifest: &EnrollmentManifest,
    signature: &str,
    payload: &[u8],
    now: u64,
    absolute: &Vec<bool>,
) -> (r: Result<([u8; 32], [u8; 32]), AuthorizationFailure>)
    ensures
        enrollment_proof_outcome(
            challenge.expires_at_ms,
            client.name@,
            client.version@,
            *manifest,
            signature@,
            payload@,
            now,
            absolute@,
            r,
        ),
{
    ensure_challenge_fresh(challenge, now)?;
    validate_client_text(manifest.client_instance_id.as_str())?;
    validate_client_text(client.name.as_str())?;
    validate_client_text(client.version.as_str())?;
    check_roots(&manifest.requested_roots, absolute)?;
    if manifest.requested_scopes.len() == 0 || manifest.requested_scopes.len() > APP_SCOPE_COUNT
        || !scopes_unique(&manifest.requested_scopes) {
        return Err(
            AuthorizationFailure::invalid("requested scopes are empty, duplicated, or oversized"),
        );
    }
    let public_key = decode_exact(manifest.public_key.as_str(), "public key")?;
    let manifest_digest = decode_exact(manifest.manifest_digest.as_str(), "manifest digest")?;
    verify_signature(&public_key, signature, payload)?;
    Ok((public_key, manifest_digest))
}

/// Prove possession and apply every enrollment bound that needs no durable state.
///
/// `payload` is the enrollment signing payload of this negotiation and manifest. Answers the
/// decoded public key and manifest digest. The platform is asked once per requested root
/// whether it is absolute; the answer is exactly `check_enrollment_proof` over those readings.
pub fn request_enrollment_proof(
    challenge: &ServerChallenge,
    client: &ClientInfo,
    manifest: &EnrollmentManifest,
    signature: &str,
    payload: &[u8],
    now: u64,
) -> (r: Result<([u8; 32], [u8; 32]), AuthorizationFailure>)
    ensures
        exists|absolute: Seq<bool>|
            absolute.len() == manifest.requested_roots@.len() && readings_possible(
                manifest.requested_roots@,
                absolute,
            ) && #[trigger] enrollment_proof_outcome(
                challenge.expires_at_ms,
                client.name@,
                client.version@,
                *manifest,
                signature@,
                payload@,
                now,
                absolute,
                r,
            ),
        now <= challenge.expires_at_ms && client_text_ok(manifest.client_instance_id@)
            && client_text_ok(client.name@) && client_text_ok(client.version@)
            && manifest.requested_roots@.len() <= MAX_ROOTS && (exists|i: int|
            0 <= i < manifest.requested_roots@.len() && !absolute_lead(
                #[trigger] manifest.requested_roots@[i]@,
            )) ==> (r matches Err(f) && is_failure(
            f,
            ErrorKind::InvalidRequest,
            unsafe_root_message(),
        )),
        manifest.requested_roots@.len() == 0 ==> enrollment_proof_outcome(
            challenge.expires_at_ms,
            client.name@,
            client.version@,
            *manifest,
            signature@,
            payload@,
            now,
            Seq::empty(),
            r,
        ),
{
    let absolute = if manifest.requested_roots.len() > MAX_ROOTS {
        Vec::new()
    } else {
        roots_absoluteness(&manifest.requested_roots)
    };
    let r = check_enrollment_proof(challenge, client, manifest, signature, payload, now, &absolute);
    proof {
        let roots = manifest.requested_roots@;
        let witness = if roots.len() > MAX_ROOTS {
            Seq::new(roots.len(), |i: int| false)
        } else {
            absolute@
        };
        assert(readings_possible(roots, witness));
        if roots.len() <= MAX_ROOTS && exists|i: int|
            0 <= i < roots.len() && !absolute_lead(#[trigger] roots[i]@) {
            let k = choose|i: int| 0 <= i < roots.len() && !absolute_lead(#[trigger] roots[i]@);
            assert(!absolute@[k]);
            assert(!roots_accepted(roots, absolute@));
        }
        assert(enrollment_proof_outcome(
            challenge.expires_at_ms,
            client.name@,
            client.version@,
            *manifest,
            signature@,
            payload@,
            now,
            witness,
            r,
        ));
        if manifest.requested_roots@.len() == 0 {
            assert(roots_accepted(manifest.requested_roots@, absolute@));
            assert(roots_accepted(manifest.requested_roots@, Seq::empty()));
        }
    }
    r
}

/// What an enrollment request does once it knows the pending enrollments still alive.
#[derive(Clone, Copy, Debug, PartialEq, Eq)]
pub enum EnrollmentAdmission {
    /// The same key already proposed exactly this; answer its receipt again.
    Replay { key: EnrollmentKey, expires_at: u64 },
    /// The same key already proposed something else.
    Conflict,
    /// Too many enrollments wait for local approval.
    Exhausted,
    /// Create a new pending enrollment.
    Create,
}

/// The same key and client instance, still unexpired.
pub open spec fn same_proposer(row: EnrollmentRow, public_key: Seq<u8>, client_instance_id: Seq<char>, now: u64) -> bool {
    row.public_key@ == public_key && row.client_instance_id@ == client_instance_id && row.expires_at >= now
}

/// The stored proposal is exactly the requested one.
pub open spec fn same_proposal(row: EnrollmentRow, digest: Seq<u8>, manifest: EnrollmentManifest) -> bool {
    &&& row.manifest_digest@ == digest
    &&& texts(row.scopes@) == manifest.requested_scopes@.map_values(|s: AppScope| scope_name(s))
    &&& texts(row.roots@) == texts(manifest.requested_roots@)
}

/// How many unexpired enrollments still wait for a decision.
pub open spec fn pending_count(rows: Seq<(EnrollmentKey, EnrollmentRow)>, now: u64) -> nat
    decreases rows.len(),
{
    if rows.len() == 0 {
        0
    } else {
        pending_count(rows.drop_last(), now) + if rows.last().1.state == EnrollmentState::Pending
            && rows.last().1.expires_at >= now {
            1nat
        } else {
            0nat
        }
    }
}

/// What admitting one proven enrollment request decides.
pub open spec fn admission_outcome(
    rows: Seq<(EnrollmentKey, EnrollmentRow)>,
    public_key: Seq<u8>,
    digest: Seq<u8>,
    manifest: EnrollmentManifest,
    now: u64,
    r: EnrollmentAdmission,
) -> bool {
    let found = exists|i: int|
        0 <= i < rows.len() && same_proposer(
            #[trigger] rows[i].1,
            public_key,
            manifest.client_instance_id@,
            now,
        );
    if found {
        let i = choose|i: int|
            0 <= i < rows.len() && same_proposer(
                #[trigger] rows[i].1,
                public_key,
                manifest.client_instance_id@,
                now,
            ) && forall|j: int|
                0 <= j < i ==> !same_proposer(
                    #[trigger] rows[j].1,
                    public_key,
                    manifest.client_instance_id@,
                    now,
                );
        if same_proposal(rows[i].1, digest, manifest) {
            r == EnrollmentAdmission::Replay { key: rows[i].0, expires_at: rows[i].1.expires_at }
        } else {
            r == EnrollmentAdmission::Conflict
        }
    } else if pending_count(rows, now) >= MAX_PENDING_ENROLLMENTS {
        r == EnrollmentAdmission::Exhausted
    } else {
        r == EnrollmentAdmission::Create
    }
}

/// A request from a key and client instance whose enrollment still waits unexpired replays that
/// enrollment's receipt when it proposes exactly the same manifest, scopes and roots, and is
/// refused as a conflict otherwise; either way no new enrollment is created. (`k` is the first
/// such waiting enrollment.)
pub proof fn lemma_enrollment_replays(
    rows: Seq<(EnrollmentKey, EnrollmentRow)>,
    public_key: Seq<u8>,
    digest: Seq<u8>,
    manifest: EnrollmentManifest,
    now: u64,
    k: int,
    r: EnrollmentAdmission,
)
    requires
        0 <= k < rows.len(),
        same_proposer(rows[k].1, public_key, manifest.client_instance_id@, now),
        forall|j: int|
            0 <= j < k ==> !same_proposer(
                #[trigger] rows[j].1,
                public_key,
                manifest.client_instance_id@,
                now,
            ),
        admission_outcome(rows, public_key, digest, manifest, now, r),
    ensures
        same_proposal(rows[k].1, digest, manifest) ==> r == (EnrollmentAdmission::Replay {
            key: rows[k].0,
            expires_at: rows[k].1.expires_at,
        }),
        !same_proposal(rows[k].1, digest, manifest) ==> r == EnrollmentAdmission::Conflict,
        r != EnrollmentAdmission::Create,
        r != EnrollmentAdmission::Exhausted,
{
    let id = manifest.client_instance_id@;
    assert(same_proposer(rows[k].1, public_key, id, now));
    let i = choose|i: int|
        0 <= i < rows.len() && same_proposer(#[trigger] rows[i].1, public_key, id, now) && forall|
            j: int,
        | 0 <= j < i ==> !same_proposer(#[trigger] rows[j].1, public_key, id, now);
    assert(0 <= k < rows.len() && same_proposer(rows[k].1, public_key, id, now) && forall|j: int|
        0 <= j < k ==> !same_proposer(#[trigger] rows[j].1, public_key, id, now));
    assert(0 <= i < rows.len() && same_proposer(rows[i].1, public_key, id, now) && forall|j: int|
        0 <= j < i ==> !same_proposer(#[trigger] rows[j].1, public_key, id, now));
    if i < k {
        assert(!same_proposer(rows[i].1, public_key, id, now));
    }
    if k < i {
        assert(!same_proposer(rows[k].1, public_key, id, now));
    }
    assert(i == k);
}

/// A repeated enrollment request is answered from the enrollment it repeats: that enrollment's
/// own receipt when it proposes exactly the same thing, and otherwise the refusal of a
/// conflicting proposal; no new enrollment is created either way.
pub proof fn lemma_repeated_enrollment_answer(
    rows: Seq<(EnrollmentKey, EnrollmentRow)>,
    public_key: Seq<u8>,
    digest: Seq<u8>,
    manifest: EnrollmentManifest,
    now: u64,
    k: int,
    admission: EnrollmentAdmission,
    r: Result<Option<(EnrollmentKey, EnrollmentReceipt)>, AuthorizationFailure>,
)
    requires
        0 <= k < rows.len(),
        same_proposer(rows[k].1, public_key, manifest.client_instance_id@, now),
        forall|j: int|
            0 <= j < k ==> !same_proposer(
                #[trigger] rows[j].1,
                public_key,
                manifest.client_instance_id@,
                now,
            ),
        admission_outcome(rows, public_key, digest, manifest, now, admission),
        enrollment_answered(admission, r),
    ensures
        same_proposal(rows[k].1, digest, manifest) ==> (r matches Ok(Some((key, receipt)))
            && key == rows[k].0 && receipt.expires_at_ms == rows[k].1.expires_at
            && receipt.pending_id.value@ == enrollment_prefix() + hex_chars(rows[k].0.bytes@)),
        !same_proposal(rows[k].1, digest, manifest) ==> (r matches Err(f) && is_failure(
            f,
            ErrorKind::IdempotencyConflict,
            proposal_conflict_message(),
        )),
{
    lemma_enrollment_replays(rows, public_key, digest, manifest, now, k, admission);
}

fn texts_eq(a: &Vec<String>, b: &Vec<String>) -> (r: bool)
    ensures
        r == (texts(a@) == texts(b@)),
{
    if a.len() != b.len() {
        assert(texts(a@).len() != texts(b@).len());
        return false;
    }
    let mut i: usize = 0;
    while i < a.len()
        invariant
            a@.len() == b@.len(),
            0 <= i <= a@.len(),
            forall|j: int| 0 <= j < i ==> a@[j]@ == b@[j]@,
        decreases a@.len() - i,
    {
        if !str_eq(a[i].as_str(), b[i].as_str()) {
            assert(texts(a@)[i as int] != texts(b@)[i as int]);
            return false;
        }
        i = i + 1;
    }
    assert(texts(a@) =~= texts(b@));
    true
}

fn scope_names_eq(stored: &Vec<String>, requested: &Vec<AppScope>) -> (r: bool)
    ensures
        r == (texts(stored@) == requested@.map_values(|s: AppScope| scope_name(s))),
{
    let ghost names = requested@.map_values(|s: AppScope| scope_name(s));
    if stored.len() != requested.len() {
        assert(texts(stored@).len() != names.len());
        return false;
    }
    let mut i: usize = 0;
    while i < stored.len()
        invariant
            stored@.len() == requested@.len(),
            names == requested@.map_values(|s: AppScope| scope_name(s)),
            0 <= i <= stored@.len(),
            forall|j: int| 0 <= j < i ==> stored@[j]@ == scope_name(requested@[j]),
        decreases stored@.len() - i,
    {
        if !str_eq(stored[i].as_str(), requested[i].as_str()) {
            assert(texts(stored@)[i as int] != names[i as int]);
            return false;
        }
        i = i + 1;
    }
    assert(texts(stored@) =~= names);
    true
}

proof fn lemma_pending_count_step(rows: Seq<(EnrollmentKey, EnrollmentRow)>, i: int, now: u64)
    requires
        0 <= i < rows.len(),
    ensures
        pending_count(rows.take(i + 1), now) == pending_count(rows.take(i), now) + if rows[i].1.state
            == EnrollmentState::Pending && rows[i].1.expires_at >= now {
            1nat
        } else {
            0nat
        },
{
    assert(rows.take(i + 1).drop_last() =~= rows.take(i));
}

/// Decide what one proven enrollment request does, given the unexpired enrollments on file.
pub fn enrollment_admission(
    enrollments: &Vec<(EnrollmentKey, EnrollmentRow)>,
    public_key: &[u8; 32],
    manifest_digest: &[u8; 32],
    manifest: &EnrollmentManifest,
    now: u64,
) -> (r: EnrollmentAdmission)
    ensures
        admission_outcome(enrollments@, public_key@, manifest_digest@, *manifest, now, r),
{
    let ghost rows = enrollments@;
    let mut i: usize = 0;
    while i < enrollments.len()
        invariant
            0 <= i <= rows.len(),
            rows == enrollments@,
            forall|j: int|
                0 <= j < i ==> !same_proposer(
                    #[trigger] rows[j].1,
                    public_key@,
                    manifest.client_instance_id@,
                    now,
                ),
        decreases rows.len() - i,
    {
        let (key, row) = &enrollments[i];
        if bytes_eq(&row.public_key, public_key) && str_eq(
            row.client_instance_id.as_str(),
            manifest.client_instance_id.as_str(),
        ) && row.expires_at >= now {
            proof {
                assert(same_proposer(rows[i as int].1, public_key@, manifest.client_instance_id@, now));
            }
            if bytes_eq(&row.manifest_digest, manifest_digest) && scope_names_eq(
                &row.scopes,
                &manifest.requested_scopes,
            ) && texts_eq(&row.roots, &manifest.requested_roots) {
                return EnrollmentAdmission::Replay { key: *key, expires_at: row.expires_at };
            }
            return EnrollmentAdmission::Conflict;
        }
        i = i + 1;
    }
    let mut pending: usize = 0;
    let mut k: usize = 0;
    while k < enrollments.len()
        invariant
            0 <= k <= rows.len(),
            rows == enrollments@,
            pending == pending_count(rows.take(k as int), now),
            pending <= k,
        decreases rows.len() - k,
    {
        proof {
            lemma_pending_count_step(rows, k as int, now);
        }
        let row = &enrollments[k].1;
        if matches!(row.state, EnrollmentState::Pending) && row.expires_at >= now {
            pending = pending + 1;
        }
        k = k + 1;
    }
    assert(rows.take(rows.len() as int) =~= rows);
    if pending >= MAX_PENDING_ENROLLMENTS as usize {
        return EnrollmentAdmission::Exhausted;
    }
    EnrollmentAdmission::Create
}


pub open spec fn proposal_conflict_message() -> Seq<char> {
    "the same integration key already has a different pending proposal"@
}

pub open spec fn enrollments_exhausted_message() -> Seq<char> {
    "too many integration enrollments are pending local approval"@
}

/// Whether `r` is what an enrollment request answers for `admission`.
pub open spec fn enrollment_answered(
    admission: EnrollmentAdmission,
    r: Result<Option<(EnrollmentKey, EnrollmentReceipt)>, AuthorizationFailure>,
) -> bool {
    match admission {
        EnrollmentAdmission::Replay { key, expires_at } => r matches Ok(Some((k, receipt)))
            && k == key && receipt.pending_id.value@ == enrollment_prefix() + hex_chars(
            key.bytes@,
        ) && receipt.expires_at_ms == expires_at,
        EnrollmentAdmission::Conflict => r matches Err(f) && is_failure(
            f,
            ErrorKind::IdempotencyConflict,
            proposal_conflict_message(),
        ),
        EnrollmentAdmission::Exhausted => r matches Err(f) && is_failure(
            f,
            ErrorKind::ResourceExhausted,
            enrollments_exhausted_message(),
        ),
        EnrollmentAdmission::Create => r matches Ok(None),
    }
}

/// What an enrollment request answers once admitted: the receipt of the enrollment it repeats,
/// `None` when a new pending enrollment is to be created, or the refusal of a conflicting
/// proposal or of too many waiting enrollments.
pub fn enrollment_answer(admission: EnrollmentAdmission) -> (r: Result<
    Option<(EnrollmentKey, EnrollmentReceipt)>,
    AuthorizationFailure,
>)
    ensures
        enrollment_answered(admission, r),
{
    match admission {
        EnrollmentAdmission::Replay { key, expires_at } => Ok(Some((key, receipt(key, expires_at)))),
        EnrollmentAdmission::Conflict => Err(
            AuthorizationFailure {
                kind: ErrorKind::IdempotencyConflict,
                message: "the same integration key already has a different pending proposal",
            },
        ),
        EnrollmentAdmission::Exhausted => Err(
            AuthorizationFailure {
                kind: ErrorKind::ResourceExhausted,
                message: "too many integration enrollments are pending local approval",
            },
        ),
        EnrollmentAdmission::Create => Ok(None),
    }
}

/// The durable pending row a proven, admitted request creates.
pub fn new_enrollment_row(
    public_key: [u8; 32],
    manifest_digest: [u8; 32],
    client: &ClientInfo,
    manifest: &EnrollmentManifest,
    now: u64,
) -> (r: EnrollmentRow)
    ensures
        r.public_key == public_key,
        r.manifest_digest == manifest_digest,
        r.client_instance_id@ == manifest.client_instance_id@,
        r.client_name@ == client.name@,
        r.client_version@ == client.version@,
        same_proposal(r, manifest_digest@, *manifest),
        r.created_at == now,
        r.expires_at == sat_add(now, ENROLLMENT_LIFETIME_MS),
        r.state == EnrollmentState::Pending,
{
    let mut scopes: Vec<String> = Vec::new();
    let mut i: usize = 0;
    while i < manifest.requested_scopes.len()
        invariant
            0 <= i <= manifest.requested_scopes@.len(),
            scopes@.len() == i,
            forall|j: int| 0 <= j < i ==> (#[trigger] scopes@[j])@ == scope_name(manifest.requested_scopes@[j]),
        decreases manifest.requested_scopes@.len() - i,
    {
        scopes.push(manifest.requested_scopes[i].as_str().to_owned());
        i = i + 1;
    }
    let roots = copy_strings(&manifest.requested_roots);
    let r = EnrollmentRow {
        public_key,
        client_instance_id: copy_string(&manifest.client_instance_id),
        client_name: copy_string(&client.name),
        client_version: copy_string(&client.version),
        manifest_digest,
        scopes,
        roots,
        created_at: now,
        expires_at: now.saturating_add(ENROLLMENT_LIFETIME_MS),
        state: EnrollmentState::Pending,
    };
    assert(texts(r.scopes@) =~= manifest.requested_scopes@.map_values(|s: AppScope| scope_name(s)));
    r
}

} // verus!

verus! {

/// What a client learns about its pending enrollment.
#[derive(Debug)]
pub enum EnrollmentDecision {
    Pending,
    Denied,
    Expired,
    Approved { grant: IntegrationGrant },
}

/// What the durable enrollment row alone decides.
#[derive(Clone, Copy, Debug, PartialEq, Eq)]
pub enum EnrollmentReading {
    Pending,
    Denied,
    Expired,
    /// Approved: the answer is the grant now held by this integration.
    Approved(IntegrationKey),
}

pub open spec fn foreign_enrollment_message() -> Seq<char> {
    "the pending enrollment does not belong to this connection"@
}

/// Only the connection that proved an enrollment may read its decision.
pub fn check_pending_identity(expected: EnrollmentKey, supplied: &PendingEnrollmentId) -> (r: Result<
    (),
    AuthorizationFailure,
>)
    ensures
        match parsed_key(supplied.value@, enrollment_prefix()) {
            None => r matches Err(f) && is_failure(
                f,
                ErrorKind::InvalidRequest,
                malformed_identity_message(),
            ),
            Some(k) => if k == expected.bytes@ {
                r is Ok
            } else {
                r matches Err(f) && is_failure(
                    f,
                    ErrorKind::Unauthenticated,
                    foreign_enrollment_message(),
                )
            },
        },
{
    let key = enrollment_key(supplied)?;
    if !bytes_eq(&key.to_bytes(), &expected.to_bytes()) {
        return Err(
            AuthorizationFailure::unauthenticated(
                "the pending enrollment does not belong to this connection",
            ),
        );
    }
    Ok(())
}

/// Read the decision a durable enrollment row holds at `now`; a missing or lapsed row is expired.
pub fn enrollment_reading(row: Option<&EnrollmentRow>, now: u64) -> (r: EnrollmentReading)
    ensures
        match row {
            None => r == EnrollmentReading::Expired,
            Some(row) => if row.expires_at < now {
                r == EnrollmentReading::Expired
            } else {
                match row.state {
                    EnrollmentState::Pending => r == EnrollmentReading::Pending,
                    EnrollmentState::Denied => r == EnrollmentReading::Denied,
                    EnrollmentState::Approved(key) => r == EnrollmentReading::Approved(key),
                }
            },
        },
{
    match row {
        None => EnrollmentReading::Expired,
        Some(row) => {
            if row.expires_at < now {
                return EnrollmentReading::Expired;
            }
            match row.state {
                EnrollmentState::Pending => EnrollmentReading::Pending,
                EnrollmentState::Denied => EnrollmentReading::Denied,
                EnrollmentState::Approved(key) => EnrollmentReading::Approved(key),
            }
        },
    }
}

/// The approved decision: the grant the approving integration row now holds.
pub fn approved_decision(key: IntegrationKey, grant_row: Option<&IntegrationRow>) -> (r: Result<
    EnrollmentDecision,
    AuthorizationFailure,
>)
    ensures
        match grant_row {
            None => r matches Err(f) && is_failure(f, ErrorKind::Internal, internal_message()),
            Some(row) => match r {
                Ok(EnrollmentDecision::Approved { grant }) => scopes_readable(row@.scopes) && grant@
                    == grant_of_row(integration_prefix() + hex_chars(key.bytes@), row@),
                Ok(_) => false,
                Err(f) => !scopes_readable(row@.scopes) && is_failure(
                    f,
                    ErrorKind::Internal,
                    internal_message(),
                ),
            },
        },
{
    match grant_row {
        None => Err(AuthorizationFailure::internal()),
        Some(row) => {
            let granted = grant(integration_id(key), row)?;
            Ok(EnrollmentDecision::Approved { grant: granted })
        },
    }
}

} // verus!

verus! {

pub open spec fn grant_missing_message() -> Seq<char> {
    "the integration grant no longer exists"@
}

pub open spec fn not_enrolled_message() -> Seq<char> {
    "the integration is not enrolled"@
}

/// Re-verify the current grant against whatever the store now holds for the integration.
pub fn refresh(current: &AuthorizedIntegration, row: Option<&IntegrationRow>) -> (r: Result<
    AuthorizedIntegration,
    AuthorizationFailure,
>)
    ensures
        match row {
            None => r matches Err(f) && is_failure(
                f,
                ErrorKind::Unauthenticated,
                grant_missing_message(),
            ),
            Some(row) => refresh_outcome(current@, row@, authority_result(r)),
        },
{
    match row {
        None => Err(AuthorizationFailure::unauthenticated("the integration grant no longer exists")),
        Some(row) => refresh_against_row(current, row),
    }
}

/// The first half of authentication: a fresh challenge and a readable integration identity.
///
/// Answers the key whose durable row the caller must read next.
pub fn authentication_key(
    challenge: &ServerChallenge,
    authentication: &IntegrationAuthentication,
    now: u64,
) -> (r: Result<IntegrationKey, AuthorizationFailure>)
    ensures
        if now > challenge.expires_at_ms {
            r matches Err(f) && is_failure(f, ErrorKind::Unauthenticated, challenge_expired_message())
        } else {
            match parsed_key(authentication.integration_id.value@, integration_prefix()) {
                None => r matches Err(f) && is_failure(
                    f,
                    ErrorKind::InvalidRequest,
                    malformed_identity_message(),
                ),
                Some(k) => r matches Ok(key) && key.bytes@ == k,
            }
        },
{
    ensure_challenge_fresh(challenge, now)?;
    integration_key(&authentication.integration_id)
}

/// The second half of authentication: verify the proof against the row the store holds.
pub fn authenticate(
    payload: &[u8],
    authentication: &IntegrationAuthentication,
    key: IntegrationKey,
    row: Option<&IntegrationRow>,
) -> (r: Result<AuthorizedIntegration, AuthorizationFailure>)
    ensures
        match row {
            None => r matches Err(f) && is_failure(
                f,
                ErrorKind::Unauthenticated,
                not_enrolled_message(),
            ),
            Some(row) => authentication_outcome(*authentication, key, row@, payload@, authority_result(r)),
        },
{
    match row {
        None => Err(AuthorizationFailure::unauthenticated("the integration is not enrolled")),
        Some(row) => authenticate_against_row(payload, authentication, key, row),
    }
}

} // verus!
