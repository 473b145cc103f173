//! Boot-local native catalogue cursors and adoption proofs: their byte layout, their
//! authenticity, and the exact context each one opens in.

use vstd::prelude::*;

use vstd::utf8::{decode_utf8, encode_utf8, encode_utf8_decode_utf8, valid_utf8};

use crate::auth::{AuthorityView, AuthorizedIntegration, RootView, sat_add};
use crate::crypto::{
    authenticator_clone, authenticator_finalize, authenticator_input, authenticator_key,
    authenticator_new, authenticator_update, authenticator_verify_slice, base64_unpadded_len,
    base64url_decode, base64url_decode_vec, base64url_encode, base64url_encode_string, hmac_sha256,
    random_fill, sha256, sha256_digest, Authenticator,
};
use crate::kinds::NATIVE_CURSOR_LIFETIME_MS;
use crate::text::{bytes_eq, utf8_text};
use crate::wire::{
    append_bytes, append_u16_be, append_u64_be, be_u16, be_u64, lemma_u16_round_trip,
    lemma_u64_round_trip, u16_be, u64_be,
};

verus! {

/// A public cursor was unsafe or no longer names its original discovery context.
#[derive(Clone, Copy, Debug, PartialEq, Eq, Structural)]
pub enum NativeCursorFailure {
    Invalid,
    Expired,
    TooManyPages,
    Internal,
}

/// A forward-only reader over one byte string.
pub struct Cursor<'a> {
    pub bytes: &'a [u8],
    pub at: usize,
}

impl<'a> Cursor<'a> {
    /// Take the next `length` bytes, or refuse without moving when fewer remain.
    pub fn take(&mut self, length: usize) -> (r: Result<&'a [u8], NativeCursorFailure>)
        ensures
            final(self).bytes == old(self).bytes,
            old(self).at <= old(self).bytes@.len() ==> final(self).at <= final(self).bytes@.len(),
            match r {
                Ok(v) => {
                    &&& old(self).at + length <= old(self).bytes@.len()
                    &&& final(self).at == old(self).at + length
                    &&& v@ == old(self).bytes@.subrange(old(self).at as int, old(self).at + length)
                },
                Err(e) => e == NativeCursorFailure::Invalid && old(self).at + length > old(self).bytes@.len() && final(self).at == old(self).at,
            },
    {
        let available = self.bytes.len();
        let end = match self.at.checked_add(length) {
            Some(end) => end,
            None => return Err(NativeCursorFailure::Invalid),
        };
        if end > available {
            return Err(NativeCursorFailure::Invalid);
        }
        let (head, _) = self.bytes.split_at(end);
        let (_, value) = head.split_at(self.at);
        self.at = end;
        Ok(value)
    }

    /// Take the next byte.
    pub fn byte(&mut self) -> (r: Result<u8, NativeCursorFailure>)
        ensures
            final(self).bytes == old(self).bytes,
            old(self).at <= old(self).bytes@.len() ==> final(self).at <= final(self).bytes@.len(),
            match r {
                Ok(v) => old(self).at + 1 <= old(self).bytes@.len() && final(self).at == old(self).at
                    + 1 && v == old(self).bytes@[old(self).at as int],
                Err(e) => e == NativeCursorFailure::Invalid && old(self).at + 1 > old(self).bytes@.len() && final(self).at == old(self).at,
            },
    {
        let taken = self.take(1)?;
        Ok(taken[0])
    }

    /// Take the next `N` bytes as an array.
    pub fn fixed<const N: usize>(&mut self) -> (r: Result<[u8; N], NativeCursorFailure>)
        ensures
            final(self).bytes == old(self).bytes,
            old(self).at <= old(self).bytes@.len() ==> final(self).at <= final(self).bytes@.len(),
            match r {
                Ok(v) => old(self).at + N <= old(self).bytes@.len() && final(self).at == old(self).at
                    + N && v@ == old(self).bytes@.subrange(old(self).at as int, old(self).at + N),
                Err(e) => e == NativeCursorFailure::Invalid && old(self).at + N > old(self).bytes@.len() && final(self).at == old(self).at,
            },
    {
        let taken = self.take(N)?;
        let mut out = [0u8; N];
        let mut i: usize = 0;
        while i < N
            invariant
                0 <= i <= N,
                taken@.len() == N,
                forall|j: int| 0 <= j < i ==> out@[j] == taken@[j],
            decreases N - i,
        {
            out[i] = taken[i];
            i = i + 1;
        }
        assert(out@ =~= taken@);
        Ok(out)
    }

    /// Take the next big-endian `u16`.
    pub fn u16(&mut self) -> (r: Result<u16, NativeCursorFailure>)
        ensures
            final(self).bytes == old(self).bytes,
            old(self).at <= old(self).bytes@.len() ==> final(self).at <= final(self).bytes@.len(),
            match r {
                Ok(v) => old(self).at + 2 <= old(self).bytes@.len() && final(self).at == old(self).at
                    + 2 && v == be_u16(old(self).bytes@.subrange(old(self).at as int, old(self).at + 2)),
                Err(e) => e == NativeCursorFailure::Invalid && old(self).at + 2 > old(self).bytes@.len() && final(self).at == old(self).at,
            },
    {
        let b = self.fixed::<2>()?;
        Ok(((b[0] as u16) << 8u16) | (b[1] as u16))
    }

    /// Take the next big-endian `u64`.
    pub fn u64(&mut self) -> (r: Result<u64, NativeCursorFailure>)
        ensures
            final(self).bytes == old(self).bytes,
            old(self).at <= old(self).bytes@.len() ==> final(self).at <= final(self).bytes@.len(),
            match r {
                Ok(v) => old(self).at + 8 <= old(self).bytes@.len() && final(self).at == old(self).at
                    + 8 && v == be_u64(old(self).bytes@.subrange(old(self).at as int, old(self).at + 8)),
                Err(e) => e == NativeCursorFailure::Invalid && old(self).at + 8 > old(self).bytes@.len() && final(self).at == old(self).at,
            },
    {
        let b = self.fixed::<8>()?;
        Ok(
            ((b[0] as u64) << 56u64) | ((b[1] as u64) << 48u64) | ((b[2] as u64) << 40u64) | ((b[3]
                as u64) << 32u64) | ((b[4] as u64) << 24u64) | ((b[5] as u64) << 16u64) | ((b[6]
                as u64) << 8u64) | (b[7] as u64),
        )
    }
}

} // verus!

verus! {

broadcast use {encode_utf8_decode_utf8, vstd::utf8::encode_utf8_valid_utf8};

pub const CURSOR_VERSION: u8 = 1;
pub const ADOPTION_VERSION: u8 = 2;
pub const CURSOR_TAG_BYTES: usize = 32;
/// How many provider pages one discovery walk may visit.
pub const MAX_CURSOR_PAGES: usize = 32;
/// Longest provider explanation carried into a coverage statement.
pub const MAX_REASON_BYTES: usize = 4096;
/// Longest provider cursor or native identity carried in a token.
pub const MAX_NATIVE_CURSOR_BYTES: usize = 4096;
/// Longest public cursor text.
pub const MAX_NATIVE_PUBLIC_CURSOR_BYTES: usize = 8192;
/// Longest public adoption proof text.
pub const MAX_NATIVE_ADOPTION_TOKEN_BYTES: usize = 8192;

/// Length of the context header both token kinds begin with.
pub const HEAD_BYTES: usize = 153;

/// One exact currently valid approved root and its filesystem identity.
#[derive(Debug)]
pub struct AuthorizedRoot {
    pub path: String,
    pub identity: [u8; 24],
}

impl View for AuthorizedRoot {
    type V = RootView;

    open spec fn view(&self) -> RootView {
        RootView { path: self.path@, identity: self.identity@ }
    }
}

/// The view of an optional root.
pub open spec fn root_view(root: Option<&AuthorizedRoot>) -> Option<RootView> {
    match root {
        Some(r) => Some(r@),
        None => None,
    }
}

/// The SHA-256 digest of a text's UTF-8 bytes.
pub open spec fn text_digest(s: Seq<char>) -> Seq<u8> {
    sha256(encode_utf8(s))
}

/// The digest of a text.
pub fn digest(value: &str) -> (r: [u8; 32])
    ensures
        r@ == text_digest(value@),
{
    sha256_digest(value.as_bytes())
}

pub open spec fn machine_scope_sentence() -> Seq<char> {
    "machine-wide native catalogue, no folder filter"@
}

/// How a page's scope is bound into a token: one folder by path digest and identity, or the
/// whole machine by the digest of a fixed sentence and an all-zero identity.
pub open spec fn scope_spec(root: Option<RootView>) -> (Seq<u8>, Seq<u8>) {
    match root {
        Some(r) => (text_digest(r.path), r.identity),
        None => (text_digest(machine_scope_sentence()), Seq::new(24, |i: int| 0u8)),
    }
}

/// The scope a token is bound to.
pub fn scope_bytes(root: Option<&AuthorizedRoot>) -> (r: ([u8; 32], [u8; 24]))
    ensures
        (r.0@, r.1@) == scope_spec(root_view(root)),
{
    match root {
        Some(root) => (digest(root.path.as_str()), root.identity),
        None => {
            let zero = [0u8; 24];
            assert(zero@ =~= Seq::new(24, |i: int| 0u8));
            (digest("machine-wide native catalogue, no folder filter"), zero)
        },
    }
}

/// Everything a token is bound to besides its own payload.
pub struct TokenContext {
    pub key: Seq<u8>,
    pub key_generation: u64,
    pub grant_generation: u64,
    pub provider: Seq<u8>,
    pub scope: Seq<u8>,
    pub identity: Seq<u8>,
    pub binary: Seq<u8>,
}

/// Every bound field has its fixed width.
pub open spec fn context_sized(c: TokenContext) -> bool {
    c.key.len() == 16 && c.provider.len() == 32 && c.scope.len() == 32 && c.identity.len() == 24
        && c.binary.len() == 32
}

/// The context a token issued to this authority, provider, scope, and binary carries.
pub open spec fn token_context(
    authority: AuthorityView,
    provider: Seq<char>,
    root: Option<RootView>,
    binary: Seq<u8>,
) -> TokenContext {
    TokenContext {
        key: authority.key,
        key_generation: authority.grant.key_generation,
        grant_generation: authority.grant.grant_generation,
        provider: text_digest(provider),
        scope: scope_spec(root).0,
        identity: scope_spec(root).1,
        binary,
    }
}

/// The header: version, integration key, both generations, provider, scope, identity, binary.
pub open spec fn head_bytes(version: u8, c: TokenContext) -> Seq<u8> {
    seq![version] + c.key + u64_be(c.key_generation) + u64_be(c.grant_generation) + c.provider
        + c.scope + c.identity + c.binary
}

/// The concatenation of the page hashes seen so far.
pub open spec fn flatten(seen: Seq<Seq<u8>>) -> Seq<u8>
    decreases seen.len(),
{
    if seen.len() == 0 {
        Seq::empty()
    } else {
        flatten(seen.drop_last()) + seen.last()
    }
}

/// The body of a discovery cursor: header, expiry, the provider cursor, and the seen hashes.
pub open spec fn cursor_body(c: TokenContext, expires_at: u64, cursor: Seq<u8>, seen: Seq<Seq<u8>>) -> Seq<u8> {
    head_bytes(CURSOR_VERSION, c) + u64_be(expires_at) + u16_be(cursor.len() as u16) + cursor
        + seq![seen.len() as u8] + flatten(seen)
}

/// The public text of a body: Base64 of the body followed by its authenticator.
pub open spec fn sealed_text(key: Seq<u8>, body: Seq<u8>) -> Seq<char> {
    base64url_encode(body + hmac_sha256(key, body))
}

/// One decoded provider cursor plus the cursor hashes already seen in this walk.
#[derive(Debug)]
pub struct OpenedCursor {
    pub provider_cursor: String,
    pub seen: Vec<[u8; 32]>,
}

/// The hashes of an array list.
pub open spec fn hashes(v: Seq<[u8; 32]>) -> Seq<Seq<u8>> {
    v.map_values(|h: [u8; 32]| h@)
}

/// The page hashes an optional prior cursor carries.
pub open spec fn prior_seen(prior: Option<&OpenedCursor>) -> Seq<Seq<u8>> {
    match prior {
        Some(p) => hashes(p.seen@),
        None => Seq::empty(),
    }
}

/// A boot-local codec. Restarting Runtime intentionally invalidates every token it issued.
pub struct NativeCursorCodec {
    authenticator: Authenticator,
}

impl NativeCursorCodec {
    /// The codec's authenticator has absorbed nothing; every token computation starts from it.
    #[verifier::type_invariant]
    spec fn fresh(&self) -> bool {
        authenticator_input(self.authenticator) == Seq::<u8>::empty()
    }

    /// The boot-local authenticity key.
    pub closed spec fn key(&self) -> Seq<u8> {
        authenticator_key(self.authenticator)
    }

    /// Mint one unpredictable boot-local cursor authenticity key.
    pub fn new() -> (r: Result<Self, NativeCursorFailure>)
        ensures
            r matches Err(f) ==> f == NativeCursorFailure::Internal,
            r matches Ok(codec) ==> codec.key().len() == 32,
    {
        let mut key = [0u8; 32];
        if random_fill(&mut key).is_err() {
            return Err(NativeCursorFailure::Internal);
        }
        match authenticator_new(&key) {
            Ok(authenticator) => Ok(NativeCursorCodec { authenticator }),
            Err(_) => Err(NativeCursorFailure::Internal),
        }
    }

    fn tag(&self, body: &[u8]) -> (r: [u8; 32])
        ensures
            r@ == hmac_sha256(self.key(), body@),
    {
        proof {
            use_type_invariant(self);
        }
        let mut mac = authenticator_clone(&self.authenticator);
        authenticator_update(&mut mac, body);
        assert(Seq::<u8>::empty() + body@ =~= body@);
        authenticator_finalize(mac)
    }

    fn tag_matches(&self, body: &[u8], tag: &[u8]) -> (r: bool)
        ensures
            r == (tag@ == hmac_sha256(self.key(), body@)),
    {
        proof {
            use_type_invariant(self);
        }
        let mut mac = authenticator_clone(&self.authenticator);
        authenticator_update(&mut mac, body);
        assert(Seq::<u8>::empty() + body@ =~= body@);
        authenticator_verify_slice(mac, tag).is_ok()
    }
}

/// Build the header for a token.
fn context_head(
    version: u8,
    authority: &AuthorizedIntegration,
    provider: &str,
    root: Option<&AuthorizedRoot>,
    binary_identity: [u8; 32],
) -> (r: Vec<u8>)
    ensures
        r@ == head_bytes(version, token_context(authority@, provider@, root_view(root), binary_identity@)),
        r@.len() == HEAD_BYTES,
        context_sized(token_context(authority@, provider@, root_view(root), binary_identity@)),
{
    let mut body: Vec<u8> = Vec::new();
    body.push(version);
    append_bytes(&mut body, &authority.key.to_bytes());
    append_u64_be(&mut body, authority.grant.key_generation);
    append_u64_be(&mut body, authority.grant.grant_generation);
    let provider_digest = digest(provider);
    append_bytes(&mut body, &provider_digest);
    let (scope, identity) = scope_bytes(root);
    append_bytes(&mut body, &scope);
    append_bytes(&mut body, &identity);
    append_bytes(&mut body, &binary_identity);
    proof {
        let c = token_context(authority@, provider@, root_view(root), binary_identity@);
        assert(body@ =~= head_bytes(version, c));
    }
    body
}


/// When a token issued at `now` stops opening.
pub open spec fn token_expiry(now: u64) -> u64 {
    sat_add(now, NATIVE_CURSOR_LIFETIME_MS)
}

/// What a cursor body opens to in the context `c` at time `now`: the provider cursor text and
/// the page hashes seen so far, or why it does not open.
///
/// The body must begin with the exact header of `c`, then carry an expiry later than `now`, a
/// provider cursor of at most the provider limit in valid UTF-8, between one and the page limit
/// of 32-byte page hashes ending with the hash of that cursor, and nothing after them.
pub open spec fn cursor_opening(c: TokenContext, now: u64, body: Seq<u8>) -> Result<
    (Seq<char>, Seq<Seq<u8>>),
    NativeCursorFailure,
> {
    let h = HEAD_BYTES as int;
    if body.len() < h + 8 || body.subrange(0, h) != head_bytes(CURSOR_VERSION, c) {
        Err(NativeCursorFailure::Invalid)
    } else if be_u64(body.subrange(h, h + 8)) <= now {
        Err(NativeCursorFailure::Expired)
    } else if body.len() < h + 10 {
        Err(NativeCursorFailure::Invalid)
    } else {
        let n = be_u16(body.subrange(h + 8, h + 10)) as int;
        let at = h + 10;
        let raw = body.subrange(at, at + n);
        if n > MAX_NATIVE_CURSOR_BYTES || body.len() < at + n + 1 || !valid_utf8(raw) {
            Err(NativeCursorFailure::Invalid)
        } else {
            let count = body[at + n] as int;
            let start = at + n + 1;
            if count == 0 || count > MAX_CURSOR_PAGES || body.len() != start + 32 * count {
                Err(NativeCursorFailure::Invalid)
            } else {
                let seen = Seq::new(
                    count as nat,
                    |i: int| body.subrange(start + 32 * i, start + 32 * i + 32),
                );
                if seen.last() != sha256(raw) {
                    Err(NativeCursorFailure::Invalid)
                } else {
                    Ok((decode_utf8(raw), seen))
                }
            }
        }
    }
}

/// Base64 text split into its body and trailing tag, when it decodes and holds a whole tag.
pub open spec fn token_parts(text: Seq<char>) -> Option<(Seq<u8>, Seq<u8>)> {
    match base64url_decode(text) {
        Some(d) => if d.len() < CURSOR_TAG_BYTES {
            None
        } else {
            let cut = d.len() - CURSOR_TAG_BYTES;
            Some((d.subrange(0, cut), d.subrange(cut, d.len() as int)))
        },
        None => None,
    }
}

/// The body of public token text that is short enough, decodes, and carries the authenticator
/// of its body under `key`; `None` for any other text.
pub open spec fn authentic_body(key: Seq<u8>, text: Seq<char>, limit: nat) -> Option<Seq<u8>> {
    if encode_utf8(text).len() > limit {
        None
    } else {
        match token_parts(text) {
            Some((body, tag)) => if tag == hmac_sha256(key, body) {
                Some(body)
            } else {
                None
            },
            None => None,
        }
    }
}

/// What public cursor text opens to under `key`, in context `c`, at time `now`.
pub open spec fn cursor_text_opening(key: Seq<u8>, c: TokenContext, now: u64, text: Seq<char>) -> Result<
    (Seq<char>, Seq<Seq<u8>>),
    NativeCursorFailure,
> {
    match authentic_body(key, text, MAX_NATIVE_PUBLIC_CURSOR_BYTES as nat) {
        Some(body) => cursor_opening(c, now, body),
        None => Err(NativeCursorFailure::Invalid),
    }
}

/// What sealing a provider cursor yields: the public text, or why none is issued.
///
/// A cursor over the provider limit, or one whose page was already seen in this walk, is
/// refused; a walk that already visited the page limit ends; text over the public limit is
/// refused.
pub open spec fn cursor_sealing(
    key: Seq<u8>,
    c: TokenContext,
    now: u64,
    cursor: Seq<char>,
    prior: Seq<Seq<u8>>,
) -> Result<Seq<char>, NativeCursorFailure> {
    let bytes = encode_utf8(cursor);
    let hash = sha256(bytes);
    if bytes.len() > MAX_NATIVE_CURSOR_BYTES {
        Err(NativeCursorFailure::Invalid)
    } else if prior.contains(hash) {
        Err(NativeCursorFailure::Invalid)
    } else if prior.len() >= MAX_CURSOR_PAGES {
        Err(NativeCursorFailure::TooManyPages)
    } else {
        let text = sealed_text(key, cursor_body(c, token_expiry(now), bytes, prior.push(hash)));
        if text.len() > MAX_NATIVE_PUBLIC_CURSOR_BYTES {
            Err(NativeCursorFailure::Invalid)
        } else {
            Ok(text)
        }
    }
}

/// A walk never revisits a page: the walk a sealed token opens to holds the hash of its own
/// page (see `NativeCursorCodec::seal`), and sealing that same page again with such a walk as
/// its prior is refused as invalid, in any context and at any time.
pub proof fn lemma_walked_page_refused(
    key: Seq<u8>,
    c: TokenContext,
    now: u64,
    cursor: Seq<char>,
    prior: Seq<Seq<u8>>,
)
    ensures
        cursor_sealing(key, c, now, cursor, prior.push(sha256(encode_utf8(cursor))))
            == Err::<Seq<char>, NativeCursorFailure>(NativeCursorFailure::Invalid),
{
    let walked = prior.push(sha256(encode_utf8(cursor)));
    assert(walked[walked.len() - 1] == sha256(encode_utf8(cursor)));
    assert(walked.contains(sha256(encode_utf8(cursor))));
}

/// An opened cursor as the provider cursor text and its page hashes.
pub open spec fn opened_view(r: Result<OpenedCursor, NativeCursorFailure>) -> Result<
    (Seq<char>, Seq<Seq<u8>>),
    NativeCursorFailure,
> {
    match r {
        Ok(o) => Ok((o.provider_cursor@, hashes(o.seen@))),
        Err(e) => Err(e),
    }
}

/// Issued text as its characters.
pub open spec fn text_view(r: Result<String, NativeCursorFailure>) -> Result<Seq<char>, NativeCursorFailure> {
    match r {
        Ok(s) => Ok(s@),
        Err(e) => Err(e),
    }
}

/// The hashes concatenated in order, each read back at its own offset.
pub proof fn lemma_flatten(seen: Seq<Seq<u8>>)
    requires
        forall|i: int| 0 <= i < seen.len() ==> #[trigger] seen[i].len() == 32,
    ensures
        flatten(seen).len() == 32 * seen.len(),
        forall|i: int|
            0 <= i < seen.len() ==> #[trigger] flatten(seen).subrange(32 * i, 32 * i + 32)
                == seen[i],
    decreases seen.len(),
{
    if seen.len() > 0 {
        let init = seen.drop_last();
        assert forall|i: int| 0 <= i < init.len() implies #[trigger] init[i].len() == 32 by {
            assert(init[i] == seen[i]);
        }
        lemma_flatten(init);
        assert forall|i: int| 0 <= i < seen.len() implies #[trigger] flatten(seen).subrange(
            32 * i,
            32 * i + 32,
        ) == seen[i] by {
            if i < seen.len() - 1 {
                assert(flatten(seen).subrange(32 * i, 32 * i + 32) =~= flatten(init).subrange(
                    32 * i,
                    32 * i + 32,
                ));
                assert(init[i] == seen[i]);
            } else {
                assert(flatten(seen).subrange(32 * i, 32 * i + 32) =~= seen.last());
            }
        }
    }
}

/// A well-formed cursor body opens, before its expiry and in the context it was built for, to
/// exactly the provider cursor and page hashes it was built from.
pub proof fn lemma_cursor_body_opens(
    c: TokenContext,
    expires_at: u64,
    cursor: Seq<u8>,
    seen: Seq<Seq<u8>>,
    now: u64,
)
    requires
        context_sized(c),
        now < expires_at,
        cursor.len() <= MAX_NATIVE_CURSOR_BYTES,
        valid_utf8(cursor),
        1 <= seen.len() <= MAX_CURSOR_PAGES,
        forall|i: int| 0 <= i < seen.len() ==> #[trigger] seen[i].len() == 32,
        seen.last() == sha256(cursor),
    ensures
        cursor_opening(c, now, cursor_body(c, expires_at, cursor, seen)) == Ok::<
            (Seq<char>, Seq<Seq<u8>>),
            NativeCursorFailure,
        >((decode_utf8(cursor), seen)),
{
    let head = head_bytes(CURSOR_VERSION, c);
    let body = cursor_body(c, expires_at, cursor, seen);
    let h = HEAD_BYTES as int;
    let n = cursor.len() as int;
    lemma_u64_round_trip(expires_at);
    lemma_u64_round_trip(c.key_generation);
    lemma_u64_round_trip(c.grant_generation);
    lemma_u16_round_trip(cursor.len() as u16);
    lemma_flatten(seen);
    assert(head.len() == h);
    assert(body.subrange(0, h) =~= head);
    assert(body.subrange(h, h + 8) =~= u64_be(expires_at));
    assert(body.subrange(h + 8, h + 10) =~= u16_be(cursor.len() as u16));
    assert(be_u16(body.subrange(h + 8, h + 10)) as int == n);
    assert(body.subrange(h + 10, h + 10 + n) =~= cursor);
    assert(body[h + 10 + n] == seen.len() as u8);
    let start = h + 10 + n + 1;
    assert(body.len() == start + 32 * seen.len());
    let read = Seq::new(
        seen.len() as nat,
        |i: int| body.subrange(start + 32 * i, start + 32 * i + 32),
    );
    assert forall|i: int| 0 <= i < seen.len() implies #[trigger] read[i] == seen[i] by {
        assert(body.subrange(start + 32 * i, start + 32 * i + 32) =~= flatten(seen).subrange(
            32 * i,
            32 * i + 32,
        ));
    }
    assert(read =~= seen);
}


/// Whether a list of page hashes holds `hash`.
fn contains_hash(seen: &Vec<[u8; 32]>, hash: &[u8; 32]) -> (r: bool)
    ensures
        r == hashes(seen@).contains(hash@),
{
    let mut i: usize = 0;
    while i < seen.len()
        invariant
            0 <= i <= seen@.len(),
            forall|j: int| 0 <= j < i ==> #[trigger] seen@[j]@ != hash@,
        decreases seen@.len() - i,
    {
        if bytes_eq(&seen[i], hash) {
            assert(hashes(seen@)[i as int] == hash@);
            return true;
        }
        i = i + 1;
    }
    proof {
        if hashes(seen@).contains(hash@) {
            let k = choose|k: int| 0 <= k < hashes(seen@).len() && hashes(seen@)[k] == hash@;
            assert(seen@[k]@ == hash@);
        }
    }
    false
}

/// A copy of a list of page hashes.
fn copy_hashes(seen: &Vec<[u8; 32]>) -> (r: Vec<[u8; 32]>)
    ensures
        r@ == seen@,
{
    let mut out: Vec<[u8; 32]> = Vec::new();
    let mut i: usize = 0;
    while i < seen.len()
        invariant
            0 <= i <= seen@.len(),
            out@ == seen@.take(i as int),
        decreases seen@.len() - i,
    {
        out.push(seen[i]);
        assert(seen@.take(i + 1) =~= seen@.take(i as int).push(seen@[i as int]));
        i = i + 1;
    }
    assert(seen@.take(seen@.len() as int) =~= seen@);
    out
}

/// Read one cursor body in the context it must have been issued for.
#[verifier::loop_isolation(false)]
fn decode_body(
    body: &[u8],
    authority: &AuthorizedIntegration,
    provider: &str,
    root: Option<&AuthorizedRoot>,
    binary_identity: [u8; 32],
    now: u64,
) -> (r: Result<OpenedCursor, NativeCursorFailure>)
    ensures
        opened_view(r) == cursor_opening(
            token_context(authority@, provider@, root_view(root), binary_identity@),
            now,
            body@,
        ),
{
    let ghost c = token_context(authority@, provider@, root_view(root), binary_identity@);
    let expected = context_head(CURSOR_VERSION, authority, provider, root, binary_identity);
    let mut cursor = Cursor { bytes: body, at: 0 };
    if body.len() < HEAD_BYTES + 8 {
        return Err(NativeCursorFailure::Invalid);
    }
    let head = cursor.take(HEAD_BYTES)?;
    // Version, integration key, both generations, provider, scope, identity and binary: a cursor
    // for another folder, for the whole machine, or for another grant never opens here.
    if !bytes_eq(head, expected.as_slice()) {
        return Err(NativeCursorFailure::Invalid);
    }
    let expires_at = cursor.u64()?;
    if expires_at <= now {
        return Err(NativeCursorFailure::Expired);
    }
    let provider_length = cursor.u16()? as usize;
    if provider_length > MAX_NATIVE_CURSOR_BYTES {
        return Err(NativeCursorFailure::Invalid);
    }
    let ghost at = cursor.at;
    let raw = cursor.take(provider_length)?;
    let provider_cursor = match utf8_text(raw) {
        Some(text) => text,
        None => return Err(NativeCursorFailure::Invalid),
    };
    let seen_count = cursor.byte()? as usize;
    if seen_count == 0 || seen_count > MAX_CURSOR_PAGES {
        return Err(NativeCursorFailure::Invalid);
    }
    let ghost start = cursor.at as int;
    let mut seen: Vec<[u8; 32]> = Vec::new();
    let mut i: usize = 0;
    while i < seen_count
        invariant
            0 <= i <= seen_count,
            cursor.bytes == body,
            cursor.at == start + 32 * i,
            cursor.at <= body@.len(),
            seen@.len() == i,
            forall|j: int|
                0 <= j < i ==> #[trigger] seen@[j]@ == body@.subrange(
                    start + 32 * j,
                    start + 32 * j + 32,
                ),
        decreases seen_count - i,
    {
        let hash = cursor.fixed::<32>()?;
        seen.push(hash);
        i = i + 1;
    }
    if cursor.at != body.len() {
        return Err(NativeCursorFailure::Invalid);
    }
    let last = sha256_digest(raw);
    let ghost read = Seq::new(
        seen_count as nat,
        |j: int| body@.subrange(start + 32 * j, start + 32 * j + 32),
    );
    assert(hashes(seen@) =~= read);
    if !bytes_eq(&seen[seen_count - 1], &last) {
        return Err(NativeCursorFailure::Invalid);
    }
    Ok(OpenedCursor { provider_cursor, seen })
}

impl NativeCursorCodec {
    /// Authenticate and bind one provider cursor to its integration, root, grant, and exact
    /// binary identity, with a walk's page history, expiring a fixed lifetime after `now`.
    ///
    /// Text it issues opens, until that expiry and in exactly that context, to the same provider
    /// cursor and the walk's history with this page added.
    pub fn seal(
        &self,
        authority: &AuthorizedIntegration,
        provider: &str,
        root: Option<&AuthorizedRoot>,
        binary_identity: [u8; 32],
        provider_cursor: &str,
        prior: Option<&OpenedCursor>,
        now: u64,
    ) -> (r: Result<String, NativeCursorFailure>)
        ensures
            text_view(r) == cursor_sealing(
                self.key(),
                token_context(authority@, provider@, root_view(root), binary_identity@),
                now,
                provider_cursor@,
                prior_seen(prior),
            ),
            r matches Ok(text) ==> forall|later: u64|
                later < token_expiry(now) ==> #[trigger] cursor_text_opening(
                    self.key(),
                    token_context(authority@, provider@, root_view(root), binary_identity@),
                    later,
                    text@,
                ) == Ok::<(Seq<char>, Seq<Seq<u8>>), NativeCursorFailure>(
                    (
                        provider_cursor@,
                        prior_seen(prior).push(sha256(encode_utf8(provider_cursor@))),
                    ),
                ),
    {
        let ghost c = token_context(authority@, provider@, root_view(root), binary_identity@);
        let bytes = provider_cursor.as_bytes();
        if bytes.len() > MAX_NATIVE_CURSOR_BYTES {
            return Err(NativeCursorFailure::Invalid);
        }
        let cursor_hash = sha256_digest(bytes);
        let mut seen = match prior {
            Some(opened) => copy_hashes(&opened.seen),
            None => Vec::new(),
        };
        assert(hashes(seen@) == prior_seen(prior));
        if contains_hash(&seen, &cursor_hash) {
            return Err(NativeCursorFailure::Invalid);
        }
        if seen.len() >= MAX_CURSOR_PAGES {
            return Err(NativeCursorFailure::TooManyPages);
        }
        seen.push(cursor_hash);
        let ghost all = prior_seen(prior).push(cursor_hash@);
        assert(hashes(seen@) =~= all);
        let expires_at = now.saturating_add(NATIVE_CURSOR_LIFETIME_MS);
        let mut body = context_head(CURSOR_VERSION, authority, provider, root, binary_identity);
        append_u64_be(&mut body, expires_at);
        append_u16_be(&mut body, bytes.len() as u16);
        append_bytes(&mut body, bytes);
        body.push(seen.len() as u8);
        let ghost before_hashes = body@;
        let mut i: usize = 0;
        while i < seen.len()
            invariant
                0 <= i <= seen@.len(),
                body@ == before_hashes + flatten(hashes(seen@).take(i as int)),
            decreases seen@.len() - i,
        {
            append_bytes(&mut body, &seen[i]);
            proof {
                let done = hashes(seen@).take(i as int);
                assert(hashes(seen@).take(i + 1).drop_last() =~= done);
                assert(flatten(hashes(seen@).take(i + 1)) == flatten(done) + seen@[i as int]@);
            }
            i = i + 1;
        }
        assert(hashes(seen@).take(seen@.len() as int) =~= hashes(seen@));
        let ghost plain = body@;
        assert(plain =~= cursor_body(c, token_expiry(now), bytes@, all));
        proof {
            assert forall|i: int| 0 <= i < all.len() implies #[trigger] all[i].len() == 32 by {
                if i < all.len() - 1 {
                    assert(all[i] == prior_seen(prior)[i]);
                    let p = prior->Some_0;
                    assert(prior_seen(prior)[i] == p.seen@[i]@);
                }
            }
            lemma_flatten(all);
            assert(plain.len() == HEAD_BYTES + 8 + 2 + bytes@.len() + 1 + 32 * all.len());
        }
        let tag = self.tag(body.as_slice());
        append_bytes(&mut body, &tag);
        let encoded = base64url_encode_string(body.as_slice());
        proof {
            vstd::utf8::is_ascii_chars_encode_utf8(encoded@);
            assert(body@ == plain + hmac_sha256(self.key(), plain));
            let d = plain + tag@;
            assert(d.subrange(0, d.len() - 32) =~= plain);
            assert(d.subrange(d.len() - 32, d.len() as int) =~= tag@);
        }
        if encoded.as_str().as_bytes().len() > MAX_NATIVE_PUBLIC_CURSOR_BYTES {
            return Err(NativeCursorFailure::Invalid);
        }
        proof {
            assert forall|later: u64| later < token_expiry(now) implies #[trigger] cursor_text_opening(
                self.key(),
                c,
                later,
                encoded@,
            ) == Ok::<(Seq<char>, Seq<Seq<u8>>), NativeCursorFailure>(
                (provider_cursor@, all),
            ) by {
                lemma_cursor_body_opens(c, token_expiry(now), bytes@, all, later);
            }
        }
        Ok(encoded)
    }

    /// Open one cursor only in the exact context in which it was issued, at time `now`.
    pub fn open(
        &self,
        authority: &AuthorizedIntegration,
        provider: &str,
        root: Option<&AuthorizedRoot>,
        binary_identity: [u8; 32],
        encoded: &str,
        now: u64,
    ) -> (r: Result<OpenedCursor, NativeCursorFailure>)
        ensures
            opened_view(r) == cursor_text_opening(
                self.key(),
                token_context(authority@, provider@, root_view(root), binary_identity@),
                now,
                encoded@,
            ),
    {
        match self.authentic(encoded, MAX_NATIVE_PUBLIC_CURSOR_BYTES) {
            Some(body) => decode_body(body.as_slice(), authority, provider, root, binary_identity, now),
            None => Err(NativeCursorFailure::Invalid),
        }
    }

    /// The body of token text that is short enough, decodes, and carries this codec's
    /// authenticator of its body.
    fn authentic(&self, encoded: &str, limit: usize) -> (r: Option<Vec<u8>>)
        ensures
            match r {
                Some(body) => authentic_body(self.key(), encoded@, limit as nat) == Some(body@),
                None => authentic_body(self.key(), encoded@, limit as nat) is None,
            },
    {
        if encoded.as_bytes().len() > limit {
            return None;
        }
        let decoded = match base64url_decode_vec(encoded) {
            Ok(decoded) => decoded,
            Err(_) => return None,
        };
        let body_length = match decoded.len().checked_sub(CURSOR_TAG_BYTES) {
            Some(length) => length,
            None => return None,
        };
        let (body, tag) = decoded.as_slice().split_at(body_length);
        assert(body@ =~= decoded@.subrange(0, body_length as int));
        assert(tag@ =~= decoded@.subrange(body_length as int, decoded@.len() as int));
        assert(token_parts(encoded@) == Some((body@, tag@)));
        if !self.tag_matches(body, tag) {
            return None;
        }
        let mut out: Vec<u8> = Vec::new();
        append_bytes(&mut out, body);
        assert(out@ =~= body@);
        Some(out)
    }
}


/// Length of the part of an adoption body that precedes its expiry.
pub const ADOPTION_HEAD_BYTES: usize = 185;

/// The body of an adoption proof: header, workspace digest, expiry, and the native identity.
pub open spec fn adoption_body(c: TokenContext, workspace: Seq<u8>, expires_at: u64, native: Seq<u8>) -> Seq<u8> {
    head_bytes(ADOPTION_VERSION, c) + workspace + u64_be(expires_at) + u16_be(native.len() as u16)
        + native
}

/// The part of an adoption header that names the integration and provider.
pub open spec fn adoption_prefix(authority: AuthorityView, provider: Seq<char>) -> Seq<u8> {
    seq![ADOPTION_VERSION] + authority.key + u64_be(authority.grant.key_generation) + u64_be(
        authority.grant.grant_generation,
    ) + text_digest(provider)
}

/// Whether a sealed scope still opens: the machine scope always does; a folder scope only
/// while some approved root has that path digest and identity.
pub open spec fn scope_approved(scope: Seq<u8>, identity: Seq<u8>, roots: Seq<RootView>) -> bool {
    (scope, identity) == scope_spec(None) || exists|i: int|
        0 <= i < roots.len() && #[trigger] text_digest(roots[i].path) == scope && roots[i].identity
            == identity
}

/// The views of a list of roots.
pub open spec fn roots_view(roots: Seq<AuthorizedRoot>) -> Seq<RootView> {
    roots.map_values(|r: AuthorizedRoot| r@)
}

/// What an adoption body proves in the given context at time `now`.
pub open spec fn adoption_opening(
    authority: AuthorityView,
    roots: Seq<RootView>,
    provider: Seq<char>,
    binary: Seq<u8>,
    native: Seq<char>,
    workspace: Seq<char>,
    now: u64,
    body: Seq<u8>,
) -> Result<(), NativeCursorFailure> {
    let h = ADOPTION_HEAD_BYTES as int;
    if body.len() < h + 8 || body.subrange(0, 65) != adoption_prefix(authority, provider)
        || !scope_approved(body.subrange(65, 97), body.subrange(97, 121), roots) || body.subrange(
        121,
        153,
    ) != binary || body.subrange(153, h) != text_digest(workspace) {
        Err(NativeCursorFailure::Invalid)
    } else if be_u64(body.subrange(h, h + 8)) <= now {
        Err(NativeCursorFailure::Expired)
    } else if body.len() < h + 10 {
        Err(NativeCursorFailure::Invalid)
    } else {
        let n = be_u16(body.subrange(h + 8, h + 10)) as int;
        if n > MAX_NATIVE_CURSOR_BYTES || body.len() != h + 10 + n || body.subrange(h + 10, h + 10 + n)
            != encode_utf8(native) {
            Err(NativeCursorFailure::Invalid)
        } else {
            Ok(())
        }
    }
}

/// What public adoption proof text proves under `key`.
pub open spec fn adoption_text_opening(
    key: Seq<u8>,
    authority: AuthorityView,
    roots: Seq<RootView>,
    provider: Seq<char>,
    binary: Seq<u8>,
    native: Seq<char>,
    workspace: Seq<char>,
    now: u64,
    text: Seq<char>,
) -> Result<(), NativeCursorFailure> {
    match authentic_body(key, text, MAX_NATIVE_ADOPTION_TOKEN_BYTES as nat) {
        Some(body) => adoption_opening(authority, roots, provider, binary, native, workspace, now, body),
        None => Err(NativeCursorFailure::Invalid),
    }
}

/// What sealing an adoption proof yields.
pub open spec fn adoption_sealing(
    key: Seq<u8>,
    c: TokenContext,
    now: u64,
    native: Seq<char>,
    workspace: Seq<char>,
) -> Result<Seq<char>, NativeCursorFailure> {
    let bytes = encode_utf8(native);
    if bytes.len() > MAX_NATIVE_CURSOR_BYTES {
        Err(NativeCursorFailure::Invalid)
    } else {
        let text = sealed_text(
            key,
            adoption_body(c, text_digest(workspace), token_expiry(now), bytes),
        );
        if text.len() > MAX_NATIVE_ADOPTION_TOKEN_BYTES {
            Err(NativeCursorFailure::Invalid)
        } else {
            Ok(text)
        }
    }
}

/// An adoption body opens, before its expiry, for the integration, provider, binary, native
/// identity and workspace it was built for, under any approved roots that still approve its
/// scope.
pub proof fn lemma_adoption_body_opens(
    authority: AuthorityView,
    provider: Seq<char>,
    root: Option<RootView>,
    binary: Seq<u8>,
    native: Seq<char>,
    workspace: Seq<char>,
    expires_at: u64,
    roots: Seq<RootView>,
    now: u64,
)
    requires
        context_sized(token_context(authority, provider, root, binary)),
        now < expires_at,
        encode_utf8(native).len() <= MAX_NATIVE_CURSOR_BYTES,
        text_digest(workspace).len() == 32,
        scope_approved(scope_spec(root).0, scope_spec(root).1, roots),
    ensures
        adoption_opening(
            authority,
            roots,
            provider,
            binary,
            native,
            workspace,
            now,
            adoption_body(
                token_context(authority, provider, root, binary),
                text_digest(workspace),
                expires_at,
                encode_utf8(native),
            ),
        ) == Ok::<(), NativeCursorFailure>(()),
{
    let c = token_context(authority, provider, root, binary);
    let bytes = encode_utf8(native);
    let body = adoption_body(c, text_digest(workspace), expires_at, bytes);
    let h = ADOPTION_HEAD_BYTES as int;
    let n = bytes.len() as int;
    lemma_u64_round_trip(expires_at);
    lemma_u64_round_trip(c.key_generation);
    lemma_u64_round_trip(c.grant_generation);
    lemma_u16_round_trip(bytes.len() as u16);
    let head = head_bytes(ADOPTION_VERSION, c);
    assert(head.len() == HEAD_BYTES);
    assert(body.subrange(0, HEAD_BYTES as int) =~= head);
    let front = seq![ADOPTION_VERSION] + c.key + u64_be(c.key_generation) + u64_be(
        c.grant_generation,
    ) + c.provider;
    assert(front == adoption_prefix(authority, provider));
    assert(front.len() == 65);
    assert(head == front + c.scope + c.identity + c.binary);
    assert(head.subrange(0, 65) =~= front);
    assert(body.subrange(0, 65) =~= adoption_prefix(authority, provider));
    assert(body.subrange(65, 97) =~= c.scope);
    assert(body.subrange(97, 121) =~= c.identity);
    assert(body.subrange(121, 153) =~= binary);
    assert(body.subrange(153, h) =~= text_digest(workspace));
    assert(body.subrange(h, h + 8) =~= u64_be(expires_at));
    assert(body.subrange(h + 8, h + 10) =~= u16_be(bytes.len() as u16));
    assert(body.subrange(h + 10, h + 10 + n) =~= bytes);
}

/// Whether some approved root has this path digest and identity.
fn folder_approved(roots: &[AuthorizedRoot], scope: &[u8], identity: &[u8]) -> (r: bool)
    ensures
        r == exists|i: int|
            0 <= i < roots@.len() && #[trigger] text_digest(roots_view(roots@)[i].path) == scope@
                && roots_view(roots@)[i].identity == identity@,
{
    let mut i: usize = 0;
    while i < roots.len()
        invariant
            0 <= i <= roots@.len(),
            forall|j: int|
                0 <= j < i ==> !(#[trigger] text_digest(roots_view(roots@)[j].path) == scope@
                    && roots_view(roots@)[j].identity == identity@),
        decreases roots@.len() - i,
    {
        let root = &roots[i];
        let path_digest = digest(root.path.as_str());
        if bytes_eq(&path_digest, scope) && bytes_eq(&root.identity, identity) {
            assert(roots_view(roots@)[i as int] == roots@[i as int]@);
            assert(text_digest(roots_view(roots@)[i as int].path) == scope@);
            return true;
        }
        assert(roots_view(roots@)[i as int] == roots@[i as int]@);
        i = i + 1;
    }
    false
}

/// Read one adoption body against current approved roots and the exact provider binary.
fn decode_adoption(
    body: &[u8],
    authority: &AuthorizedIntegration,
    approved_roots: &[AuthorizedRoot],
    provider: &str,
    binary_identity: [u8; 32],
    native_session_id: &str,
    workspace: &str,
    now: u64,
) -> (r: Result<(), NativeCursorFailure>)
    ensures
        r == adoption_opening(
            authority@,
            roots_view(approved_roots@),
            provider@,
            binary_identity@,
            native_session_id@,
            workspace@,
            now,
            body@,
        ),
{
    if body.len() < ADOPTION_HEAD_BYTES + 8 {
        return Err(NativeCursorFailure::Invalid);
    }
    let mut expected: Vec<u8> = Vec::new();
    expected.push(ADOPTION_VERSION);
    append_bytes(&mut expected, &authority.key.to_bytes());
    append_u64_be(&mut expected, authority.grant.key_generation);
    append_u64_be(&mut expected, authority.grant.grant_generation);
    append_bytes(&mut expected, &digest(provider));
    assert(expected@ =~= adoption_prefix(authority@, provider@));
    let mut cursor = Cursor { bytes: body, at: 0 };
    let prefix = cursor.take(65)?;
    if !bytes_eq(prefix, expected.as_slice()) {
        return Err(NativeCursorFailure::Invalid);
    }
    let root_digest = cursor.fixed::<32>()?;
    let root_identity = cursor.fixed::<24>()?;
    // A proof sealed for a named folder opens only while that folder is still an approved root;
    // one sealed by the machine-wide listing carries the machine scope and opens on the same
    // terms that listing was given.
    let (machine_scope, machine_identity) = scope_bytes(None);
    let machine_wide = bytes_eq(&root_digest, &machine_scope) && bytes_eq(
        &root_identity,
        &machine_identity,
    );
    let approved = folder_approved(approved_roots, &root_digest, &root_identity);
    proof {
        assert(body@.subrange(65, 97) == root_digest@);
        assert(body@.subrange(97, 121) == root_identity@);
        assert(approved == scope_approved(
            root_digest@,
            root_identity@,
            roots_view(approved_roots@),
        ) || machine_wide);
    }
    if !(machine_wide || approved) {
        return Err(NativeCursorFailure::Invalid);
    }
    let binary = cursor.fixed::<32>()?;
    let workspace_digest = cursor.fixed::<32>()?;
    if !bytes_eq(&binary, &binary_identity) || !bytes_eq(&workspace_digest, &digest(workspace)) {
        return Err(NativeCursorFailure::Invalid);
    }
    let expires_at = cursor.u64()?;
    if expires_at <= now {
        return Err(NativeCursorFailure::Expired);
    }
    let native_length = cursor.u16()? as usize;
    if native_length > MAX_NATIVE_CURSOR_BYTES {
        return Err(NativeCursorFailure::Invalid);
    }
    let native = cursor.take(native_length)?;
    if !bytes_eq(native, native_session_id.as_bytes()) || cursor.at != body.len() {
        return Err(NativeCursorFailure::Invalid);
    }
    Ok(())
}

impl NativeCursorCodec {
    /// Bind one adoptable observation to its integration, provider binary, scope, native
    /// identity, and workspace, expiring a fixed lifetime after `now`.
    ///
    /// A proof it issues opens, until that expiry, for the same integration, provider, binary,
    /// native identity and workspace, whatever the approved roots are for a machine-wide scope and
    /// while an approved root still matches a folder scope.
    pub fn seal_adoption(
        &self,
        authority: &AuthorizedIntegration,
        provider: &str,
        root: Option<&AuthorizedRoot>,
        binary_identity: [u8; 32],
        native_session_id: &str,
        workspace: &str,
        now: u64,
    ) -> (r: Result<String, NativeCursorFailure>)
        ensures
            text_view(r) == adoption_sealing(
                self.key(),
                token_context(authority@, provider@, root_view(root), binary_identity@),
                now,
                native_session_id@,
                workspace@,
            ),
            r matches Ok(text) ==> forall|later: u64, roots: Seq<RootView>|
                later < token_expiry(now) && scope_approved(
                    scope_spec(root_view(root)).0,
                    scope_spec(root_view(root)).1,
                    roots,
                ) ==> #[trigger] adoption_text_opening(
                    self.key(),
                    authority@,
                    roots,
                    provider@,
                    binary_identity@,
                    native_session_id@,
                    workspace@,
                    later,
                    text@,
                ) == Ok::<(), NativeCursorFailure>(()),
    {
        let ghost c = token_context(authority@, provider@, root_view(root), binary_identity@);
        let bytes = native_session_id.as_bytes();
        if bytes.len() > MAX_NATIVE_CURSOR_BYTES {
            return Err(NativeCursorFailure::Invalid);
        }
        let workspace_digest = digest(workspace);
        let expires_at = now.saturating_add(NATIVE_CURSOR_LIFETIME_MS);
        let mut body = context_head(ADOPTION_VERSION, authority, provider, root, binary_identity);
        append_bytes(&mut body, &workspace_digest);
        append_u64_be(&mut body, expires_at);
        append_u16_be(&mut body, bytes.len() as u16);
        append_bytes(&mut body, bytes);
        let ghost plain = body@;
        assert(plain =~= adoption_body(c, workspace_digest@, token_expiry(now), bytes@));
        let tag = self.tag(body.as_slice());
        append_bytes(&mut body, &tag);
        let encoded = base64url_encode_string(body.as_slice());
        proof {
            vstd::utf8::is_ascii_chars_encode_utf8(encoded@);
            let d = plain + tag@;
            assert(d.subrange(0, d.len() - 32) =~= plain);
            assert(d.subrange(d.len() - 32, d.len() as int) =~= tag@);
        }
        if encoded.as_str().as_bytes().len() > MAX_NATIVE_ADOPTION_TOKEN_BYTES {
            return Err(NativeCursorFailure::Invalid);
        }
        proof {
            assert forall|later: u64, roots: Seq<RootView>|
                later < token_expiry(now) && scope_approved(
                    scope_spec(root_view(root)).0,
                    scope_spec(root_view(root)).1,
                    roots,
                ) implies #[trigger] adoption_text_opening(
                self.key(),
                authority@,
                roots,
                provider@,
                binary_identity@,
                native_session_id@,
                workspace@,
                later,
                encoded@,
            ) == Ok::<(), NativeCursorFailure>(()) by {
                lemma_adoption_body_opens(
                    authority@,
                    provider@,
                    root_view(root),
                    binary_identity@,
                    native_session_id@,
                    workspace@,
                    token_expiry(now),
                    roots,
                    later,
                );
            }
        }
        Ok(encoded)
    }

    /// Verify one adoption proof against current approved roots, the exact prepared provider
    /// binary, the native identity and the workspace, at time `now`.
    pub fn open_adoption(
        &self,
        authority: &AuthorizedIntegration,
        approved_roots: &[AuthorizedRoot],
        provider: &str,
        binary_identity: [u8; 32],
        native_session_id: &str,
        workspace: &str,
        encoded: &str,
        now: u64,
    ) -> (r: Result<(), NativeCursorFailure>)
        ensures
            r == adoption_text_opening(
                self.key(),
                authority@,
                roots_view(approved_roots@),
                provider@,
                binary_identity@,
                native_session_id@,
                workspace@,
                now,
                encoded@,
            ),
    {
        match self.authentic(encoded, MAX_NATIVE_ADOPTION_TOKEN_BYTES) {
            Some(body) => decode_adoption(
                body.as_slice(),
                authority,
                approved_roots,
                provider,
                binary_identity,
                native_session_id,
                workspace,
                now,
            ),
            None => Err(NativeCursorFailure::Invalid),
        }
    }
}

} // verus!
