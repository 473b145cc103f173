//! Root-authorized filtering of one provider-native catalogue page into its public form.

use vstd::prelude::*;

use vstd::utf8::encode_utf8;

use crate::auth::{copy_string, AuthorityView, AuthorizedIntegration, RootView};
use crate::cursor::{
    adoption_sealing, cursor_sealing, cursor_text_opening, opened_view, prior_seen, root_view,
    roots_view, token_context, AuthorizedRoot, NativeCursorCodec, NativeCursorFailure, OpenedCursor,
    MAX_NATIVE_CURSOR_BYTES, MAX_NATIVE_PUBLIC_CURSOR_BYTES, MAX_REASON_BYTES,
};
use crate::kinds::ErrorKind;
use crate::serve::{
    cursor_failure, cursor_refusal, inventory_failure, inventory_refusal, plain, says, Bounded,
    PublicFailure,
};
use crate::inventory::{managed_view, RuntimeInventoryFailure, RuntimeSessionCatalogue};
use crate::text::{contains_control, decimal, has_control, push_decimal, string_push_str};

verus! {

/// Most entries one provider page may carry.
pub const MAX_NATIVE_SESSION_ITEMS: usize = 500;
/// Most additional directories one entry may name.
pub const MAX_NATIVE_ADDITIONAL_DIRECTORIES: usize = 32;
/// Longest title an entry may carry.
pub const MAX_NATIVE_TITLE_BYTES: usize = 1024;
/// Longest timestamp an entry may carry.
pub const MAX_NATIVE_TIMESTAMP_BYTES: usize = 64;

/// Where a provider read its catalogue.
#[derive(Clone, Copy, Debug, PartialEq, Eq, Structural)]
pub enum ProviderSource {
    OfficialProtocol,
    OfficialCli,
}

/// Where a public catalogue came from.
#[derive(Clone, Copy, Debug, PartialEq, Eq, Structural)]
pub enum CatalogueSource {
    OfficialProtocol,
    OfficialCli,
}

/// The public source of a provider source.
pub fn map_source(source: ProviderSource) -> (r: CatalogueSource)
    ensures
        r == source_of(source),
{
    match source {
        ProviderSource::OfficialProtocol => CatalogueSource::OfficialProtocol,
        ProviderSource::OfficialCli => CatalogueSource::OfficialCli,
    }
}

pub open spec fn source_of(source: ProviderSource) -> CatalogueSource {
    match source {
        ProviderSource::OfficialProtocol => CatalogueSource::OfficialProtocol,
        ProviderSource::OfficialCli => CatalogueSource::OfficialCli,
    }
}

/// Whether a provider says a native conversation can be resumed.
#[derive(Clone, Copy, Debug, PartialEq, Eq, Structural)]
pub enum ProviderResume {
    Available,
    Unavailable,
    Unknown,
}

/// Whether a public native conversation can be resumed.
#[derive(Clone, Copy, Debug, PartialEq, Eq, Structural)]
pub enum NativeResumeCapability {
    Available,
    Unavailable,
    Unknown,
}

pub open spec fn resume_of(resume: ProviderResume) -> NativeResumeCapability {
    match resume {
        ProviderResume::Available => NativeResumeCapability::Available,
        ProviderResume::Unavailable => NativeResumeCapability::Unavailable,
        ProviderResume::Unknown => NativeResumeCapability::Unknown,
    }
}

/// The public resume capability of a provider's answer.
pub fn map_resume(resume: ProviderResume) -> (r: NativeResumeCapability)
    ensures
        r == resume_of(resume),
{
    match resume {
        ProviderResume::Available => NativeResumeCapability::Available,
        ProviderResume::Unavailable => NativeResumeCapability::Unavailable,
        ProviderResume::Unknown => NativeResumeCapability::Unknown,
    }
}

/// How much of the machine a provider page claims to cover.
#[derive(Debug)]
pub enum ProviderCoverage {
    Complete { source: ProviderSource },
    Partial { source: ProviderSource, why: String },
    Unsupported { why: String },
}

/// How much of the machine a public page covers.
#[derive(Debug)]
pub enum CatalogueCoverage {
    Complete { source: CatalogueSource },
    Partial { source: CatalogueSource, why: String },
    Unsupported { why: String },
}

/// A coverage with its explanation as text.
pub enum CoverageShape {
    Complete(CatalogueSource),
    Partial(CatalogueSource, Seq<char>),
    Unsupported(Seq<char>),
}

pub open spec fn coverage_shape(c: CatalogueCoverage) -> CoverageShape {
    match c {
        CatalogueCoverage::Complete { source } => CoverageShape::Complete(source),
        CatalogueCoverage::Partial { source, why } => CoverageShape::Partial(source, why@),
        CatalogueCoverage::Unsupported { why } => CoverageShape::Unsupported(why@),
    }
}

/// Text within a byte limit and free of control characters.
pub open spec fn bounded_text(s: Seq<char>, limit: nat) -> bool {
    encode_utf8(s).len() <= limit && !has_control(s)
}

fn check_bounded(s: &str, limit: usize) -> (r: bool)
    ensures
        r == bounded_text(s@, limit as nat),
{
    s.as_bytes().len() <= limit && !contains_control(s)
}

/// Why some of what the provider listed is not shown, in words a reader can act on.
pub open spec fn omitted_text(omitted: nat) -> Seq<char> {
    if omitted == 1 {
        "1 listed conversation is not shown: its folder no longer exists, or it repeats or overruns an entry"@
    } else {
        decimal(omitted)
            + " listed conversations are not shown: their folders no longer exist, or they repeat or overrun entries"@
    }
}

/// Why some of what the provider listed is not shown.
///
/// Every omission has one of three causes: the conversation's folder no longer exists, the
/// entry repeats one already shown, or the entry is outside the bounds this surface accepts.
pub fn omitted_sentence(omitted: usize) -> (r: String)
    ensures
        r@ == omitted_text(omitted as nat),
{
    if omitted == 1 {
        "1 listed conversation is not shown: its folder no longer exists, or it repeats or overruns an entry".to_owned()
    } else {
        let mut text = String::new();
        push_decimal(&mut text, omitted);
        string_push_str(
            &mut text,
            " listed conversations are not shown: their folders no longer exist, or they repeat or overrun entries",
        );
        text
    }
}

/// The public coverage of a provider page from which `omitted` entries were dropped.
///
/// A complete page that lost entries becomes partial and says why; a partial page keeps its
/// own reason and adds the omission; an unsupported page can lose nothing. A provider reason
/// over the length limit or holding a control character refuses the whole page.
pub open spec fn coverage_after(coverage: ProviderCoverage, omitted: nat) -> Option<CoverageShape> {
    match coverage {
        ProviderCoverage::Complete { source } => if omitted == 0 {
            Some(CoverageShape::Complete(source_of(source)))
        } else {
            Some(CoverageShape::Partial(source_of(source), omitted_text(omitted)))
        },
        ProviderCoverage::Partial { source, why } => if !bounded_text(why@, MAX_REASON_BYTES as nat) {
            None
        } else if omitted == 0 {
            Some(CoverageShape::Partial(source_of(source), why@))
        } else {
            Some(CoverageShape::Partial(source_of(source), why@ + "; "@ + omitted_text(omitted)))
        },
        ProviderCoverage::Unsupported { why } => if !bounded_text(why@, MAX_REASON_BYTES as nat)
            || omitted != 0 {
            None
        } else {
            Some(CoverageShape::Unsupported(why@))
        },
    }
}

/// Map a provider page's coverage after dropping `omitted` entries.
pub fn map_coverage(coverage: &ProviderCoverage, omitted: usize) -> (r: Result<
    CatalogueCoverage,
    RuntimeInventoryFailure,
>)
    ensures
        match coverage_after(*coverage, omitted as nat) {
            Some(shape) => r matches Ok(c) && coverage_shape(c) == shape,
            None => r matches Err(f) && f == RuntimeInventoryFailure::Unavailable,
        },
{
    match coverage {
        ProviderCoverage::Complete { source } => if omitted == 0 {
            Ok(CatalogueCoverage::Complete { source: map_source(*source) })
        } else {
            Ok(CatalogueCoverage::Partial { source: map_source(*source), why: omitted_sentence(omitted) })
        },
        ProviderCoverage::Partial { source, why } => {
            if !check_bounded(why.as_str(), MAX_REASON_BYTES) {
                return Err(RuntimeInventoryFailure::Unavailable);
            }
            let text = if omitted == 0 {
                copy_string(why)
            } else {
                let mut text = copy_string(why);
                string_push_str(&mut text, "; ");
                let sentence = omitted_sentence(omitted);
                string_push_str(&mut text, sentence.as_str());
                text
            };
            Ok(CatalogueCoverage::Partial { source: map_source(*source), why: text })
        },
        ProviderCoverage::Unsupported { why } => {
            if !check_bounded(why.as_str(), MAX_REASON_BYTES) || omitted != 0 {
                return Err(RuntimeInventoryFailure::Unavailable);
            }
            Ok(CatalogueCoverage::Unsupported { why: copy_string(why) })
        },
    }
}

// ---------------------------------------------------------------------------------------------
// Paths
// ---------------------------------------------------------------------------------------------
/// A path separator byte on either platform.
pub open spec fn is_separator(b: u8) -> bool {
    b == 47 || b == 92
}

/// Whether a canonical path is the root itself or lies below it, compared as UTF-8 bytes (the
/// separators are ASCII, so they never occur inside a longer character).
pub open spec fn path_within(path: Seq<u8>, root: Seq<u8>) -> bool {
    path == root || (root.len() < path.len() && path.subrange(0, root.len() as int) == root && (
    is_separator(path[root.len() as int]) || (root.len() > 0 && is_separator(root.last()))))
}

/// Whether a canonical path is the root itself or lies below it.
pub fn is_under(path: &str, root: &str) -> (r: bool)
    ensures
        r == path_within(encode_utf8(path@), encode_utf8(root@)),
{
    let p = path.as_bytes();
    let q = root.as_bytes();
    if crate::text::bytes_eq(p, q) {
        return true;
    }
    if q.len() >= p.len() || !crate::text::starts_with_bytes(p, q) {
        return false;
    }
    assert(p@.take(q@.len() as int) =~= p@.subrange(0, q@.len() as int));
    let next = p[q.len()];
    next == 47 || next == 92 || (q.len() > 0 && (q[q.len() - 1] == 47 || q[q.len() - 1] == 92))
}

/// Whether a directory lies below some approved root.
pub open spec fn dir_approved(dir: String, approved: Seq<RootView>) -> bool {
    exists|j: int|
        0 <= j < approved.len() && #[trigger] path_within(
            encode_utf8(dir@),
            encode_utf8(approved[j].path),
        )
}

/// Whether every directory lies below some approved root.
pub open spec fn dirs_approved(dirs: Seq<String>, approved: Seq<RootView>) -> bool {
    forall|i: int| 0 <= i < dirs.len() ==> dir_approved(#[trigger] dirs[i], approved)
}

fn dirs_under_roots(dirs: &Vec<String>, approved: &[AuthorizedRoot]) -> (r: bool)
    ensures
        r == dirs_approved(dirs@, roots_view(approved@)),
{
    let ghost roots = roots_view(approved@);
    let mut i: usize = 0;
    while i < dirs.len()
        invariant
            0 <= i <= dirs@.len(),
            roots == roots_view(approved@),
            forall|k: int| 0 <= k < i ==> dir_approved(#[trigger] dirs@[k], roots),
        decreases dirs@.len() - i,
    {
        let mut found = false;
        let mut j: usize = 0;
        while j < approved.len()
            invariant
                0 <= j <= approved@.len(),
                0 <= i < dirs@.len(),
                roots == roots_view(approved@),
                found ==> dir_approved(dirs@[i as int], roots),
                !found ==> forall|m: int|
                    0 <= m < j ==> !#[trigger] path_within(
                        encode_utf8(dirs@[i as int]@),
                        encode_utf8(roots[m].path),
                    ),
            decreases approved@.len() - j,
        {
            assert(roots[j as int] == approved@[j as int]@);
            if !found && is_under(dirs[i].as_str(), approved[j].path.as_str()) {
                assert(path_within(encode_utf8(dirs@[i as int]@), encode_utf8(roots[j as int].path)));
                found = true;
            }
            j = j + 1;
        }
        if !found {
            assert(!dir_approved(dirs@[i as int], roots));
            return false;
        }
        i = i + 1;
    }
    true
}

// ---------------------------------------------------------------------------------------------
// The page
// ---------------------------------------------------------------------------------------------
/// One conversation a provider reports.
#[derive(Debug)]
pub struct NativeSessionEntry {
    pub native: String,
    pub cwd: String,
    pub additional_directories: Vec<String>,
    pub title: Option<String>,
    pub updated_at: Option<String>,
    pub resume: ProviderResume,
}

/// One provider page.
#[derive(Debug)]
pub struct ProviderCatalogue {
    pub coverage: ProviderCoverage,
    pub sessions: Vec<NativeSessionEntry>,
    pub next_cursor: Option<String>,
}

/// What canonicalizing one entry's folders gave: its working directory, and all its additional
/// directories; `None` where a path no longer resolves.
#[derive(Debug)]
pub struct ResolvedPaths {
    pub cwd: Option<String>,
    pub additional: Option<Vec<String>>,
}

/// One conversation as the public catalogue shows it.
#[derive(Debug)]
pub struct NativeSessionDescriptor {
    pub native_session_id: String,
    pub cwd: String,
    pub additional_directories: Vec<String>,
    pub title: Option<String>,
    pub updated_at: Option<String>,
    pub resume: NativeResumeCapability,
    pub already_managed_as: Option<String>,
    pub adoption_token: Option<String>,
}

/// One public page.
#[derive(Debug)]
pub struct NativeSessionCatalogue {
    pub provider_id: String,
    pub coverage: CatalogueCoverage,
    pub sessions: Vec<NativeSessionDescriptor>,
    pub next_cursor: Option<String>,
}

/// A public conversation as text.
pub struct DescriptorView {
    pub native: Seq<char>,
    pub cwd: Seq<char>,
    pub additional: Seq<Seq<char>>,
    pub title: Option<Seq<char>>,
    pub updated_at: Option<Seq<char>>,
    pub resume: NativeResumeCapability,
    pub managed: Option<Seq<char>>,
    pub token: Option<Seq<char>>,
}

pub open spec fn opt_view(s: Option<String>) -> Option<Seq<char>> {
    match s {
        Some(t) => Some(t@),
        None => None,
    }
}

pub open spec fn texts_of(v: Seq<String>) -> Seq<Seq<char>> {
    v.map_values(|s: String| s@)
}

pub open spec fn descriptor_view(d: NativeSessionDescriptor) -> DescriptorView {
    DescriptorView {
        native: d.native_session_id@,
        cwd: d.cwd@,
        additional: texts_of(d.additional_directories@),
        title: opt_view(d.title),
        updated_at: opt_view(d.updated_at),
        resume: d.resume,
        managed: opt_view(d.already_managed_as),
        token: opt_view(d.adoption_token),
    }
}

/// A page no public catalogue can be made of: too many entries, an unsafe continuation, or an
/// unsupported page that still lists something.
pub open spec fn page_refused(c: ProviderCatalogue) -> bool {
    ||| c.sessions@.len() > MAX_NATIVE_SESSION_ITEMS
    ||| (c.next_cursor matches Some(n) && (encode_utf8(n@).len() > MAX_NATIVE_CURSOR_BYTES
        || has_control(n@)))
    ||| (c.coverage is Unsupported && (c.sessions@.len() > 0 || c.next_cursor is Some))
}

/// An entry within every bound this surface accepts.
pub open spec fn entry_in_bounds(e: NativeSessionEntry) -> bool {
    &&& e.additional_directories@.len() <= MAX_NATIVE_ADDITIONAL_DIRECTORIES
    &&& (e.title matches Some(t) ==> bounded_text(t@, MAX_NATIVE_TITLE_BYTES as nat))
    &&& (e.updated_at matches Some(t) ==> bounded_text(t@, MAX_NATIVE_TIMESTAMP_BYTES as nat))
}

/// Whether an entry's resolved folders may be shown in this scope.
///
/// Its folder must still resolve; a named folder keeps its boundary, so the entry must lie in
/// it and every additional directory below some approved root. A machine-wide listing has no
/// such boundary.
pub open spec fn entry_shown(r: ResolvedPaths, selected: Option<RootView>, approved: Seq<RootView>) -> bool {
    &&& r.cwd is Some
    &&& (selected matches Some(s) ==> path_within(encode_utf8(r.cwd->Some_0@), encode_utf8(s.path)))
    &&& r.additional is Some
    &&& (selected is Some ==> dirs_approved(r.additional->Some_0@, approved))
}

/// Progress through a page: which entries are shown, how many were dropped, and which native
/// identities were already taken.
pub struct Walk {
    pub kept: Seq<int>,
    pub omitted: nat,
    pub seen: Seq<Seq<char>>,
}

/// The walk over the first `n` entries. An out-of-bounds entry is dropped without taking its
/// native identity; a repeated identity is dropped; an entry whose folders may not be shown is
/// dropped after taking its identity.
pub open spec fn walk(
    entries: Seq<NativeSessionEntry>,
    resolved: Seq<ResolvedPaths>,
    selected: Option<RootView>,
    approved: Seq<RootView>,
    n: nat,
) -> Walk
    decreases n,
{
    if n == 0 {
        Walk { kept: Seq::empty(), omitted: 0, seen: Seq::empty() }
    } else {
        let w = walk(entries, resolved, selected, approved, (n - 1) as nat);
        let i = n - 1;
        let e = entries[i];
        if !entry_in_bounds(e) || w.seen.contains(e.native@) {
            Walk { kept: w.kept, omitted: w.omitted + 1, seen: w.seen }
        } else if entry_shown(resolved[i], selected, approved) {
            Walk { kept: w.kept.push(i), omitted: w.omitted, seen: w.seen.push(e.native@) }
        } else {
            Walk { kept: w.kept, omitted: w.omitted + 1, seen: w.seen.push(e.native@) }
        }
    }
}

/// The adoption proof a shown entry carries: one only for a resumable conversation no managed
/// session already owns, sealed for its scope and resolved folder; `Err` when sealing refuses.
pub open spec fn token_for(
    key: Seq<u8>,
    authority: AuthorityView,
    provider: Seq<char>,
    selected: Option<RootView>,
    binary: Seq<u8>,
    e: NativeSessionEntry,
    cwd: Seq<char>,
    managed: Option<Seq<char>>,
    now: u64,
) -> Result<Option<Seq<char>>, ()> {
    if resume_of(e.resume) == NativeResumeCapability::Available && managed is None {
        match adoption_sealing(key, token_context(authority, provider, selected, binary), now, e.native@, cwd) {
            Ok(t) => Ok(Some(t)),
            Err(_) => Err(()),
        }
    } else {
        Ok(None)
    }
}


/// The public view of the entry at index `i` of a page, once shown.
pub open spec fn shown_view(
    entries: Seq<NativeSessionEntry>,
    resolved: Seq<ResolvedPaths>,
    managed: RuntimeSessionCatalogue,
    key: Seq<u8>,
    authority: AuthorityView,
    provider: Seq<char>,
    selected: Option<RootView>,
    binary: Seq<u8>,
    now: u64,
    i: int,
) -> DescriptorView {
    let e = entries[i];
    let r = resolved[i];
    let owner = managed_view(managed.sessions@, provider, e.native@);
    DescriptorView {
        native: e.native@,
        cwd: r.cwd->Some_0@,
        additional: texts_of(r.additional->Some_0@),
        title: opt_view(e.title),
        updated_at: opt_view(e.updated_at),
        resume: resume_of(e.resume),
        managed: owner,
        token: token_for(key, authority, provider, selected, binary, e, r.cwd->Some_0@, owner, now)->Ok_0,
    }
}

/// Whether the entry at index `i`, once shown, cannot be given its adoption proof.
pub open spec fn token_fails(
    entries: Seq<NativeSessionEntry>,
    resolved: Seq<ResolvedPaths>,
    managed: RuntimeSessionCatalogue,
    key: Seq<u8>,
    authority: AuthorityView,
    provider: Seq<char>,
    selected: Option<RootView>,
    binary: Seq<u8>,
    now: u64,
    i: int,
) -> bool {
    token_for(
        key,
        authority,
        provider,
        selected,
        binary,
        entries[i],
        resolved[i].cwd->Some_0@,
        managed_view(managed.sessions@, provider, entries[i].native@),
        now,
    ) is Err
}

/// The walk only ever appends to what it shows.
pub proof fn lemma_walk_grows(
    entries: Seq<NativeSessionEntry>,
    resolved: Seq<ResolvedPaths>,
    selected: Option<RootView>,
    approved: Seq<RootView>,
    n: nat,
    m: nat,
)
    requires
        n <= m,
    ensures
        walk(entries, resolved, selected, approved, n).kept.len() <= walk(
            entries,
            resolved,
            selected,
            approved,
            m,
        ).kept.len(),
        forall|k: int|
            0 <= k < walk(entries, resolved, selected, approved, n).kept.len() ==> #[trigger] walk(
                entries,
                resolved,
                selected,
                approved,
                m,
            ).kept[k] == walk(entries, resolved, selected, approved, n).kept[k],
    decreases m,
{
    if n < m {
        lemma_walk_grows(entries, resolved, selected, approved, n, (m - 1) as nat);
    }
}

/// Every shown index lies before the walk's end.
pub proof fn lemma_walk_bounds(
    entries: Seq<NativeSessionEntry>,
    resolved: Seq<ResolvedPaths>,
    selected: Option<RootView>,
    approved: Seq<RootView>,
    n: nat,
)
    ensures
        forall|k: int|
            0 <= k < walk(entries, resolved, selected, approved, n).kept.len() ==> 0 <= #[trigger] walk(
                entries,
                resolved,
                selected,
                approved,
                n,
            ).kept[k] < n,
        walk(entries, resolved, selected, approved, n).omitted <= n,
        walk(entries, resolved, selected, approved, n).kept.len() <= n,
    decreases n,
{
    if n > 0 {
        lemma_walk_bounds(entries, resolved, selected, approved, (n - 1) as nat);
    }
}

fn holds_text(seen: &Vec<String>, value: &str) -> (r: bool)
    ensures
        r == texts_of(seen@).contains(value@),
{
    let mut i: usize = 0;
    while i < seen.len()
        invariant
            0 <= i <= seen@.len(),
            forall|j: int| 0 <= j < i ==> #[trigger] seen@[j]@ != value@,
        decreases seen@.len() - i,
    {
        if crate::text::str_eq(seen[i].as_str(), value) {
            assert(texts_of(seen@)[i as int] == value@);
            return true;
        }
        i = i + 1;
    }
    proof {
        if texts_of(seen@).contains(value@) {
            let k = choose|k: int| 0 <= k < texts_of(seen@).len() && texts_of(seen@)[k] == value@;
            assert(seen@[k]@ == value@);
        }
    }
    false
}

fn copy_optional(value: &Option<String>) -> (r: Option<String>)
    ensures
        r == *value,
{
    match value {
        Some(text) => Some(copy_string(text)),
        None => None,
    }
}

/// Whether no public page can be made of a provider page: it is refused outright, a shown entry
/// meets an unavailable managed catalogue or cannot be given its adoption proof, or the coverage
/// cannot be stated.
pub open spec fn page_fails(
    key: Seq<u8>,
    authority: AuthorityView,
    selected: Option<RootView>,
    approved: Seq<RootView>,
    managed: RuntimeSessionCatalogue,
    provider: Seq<char>,
    binary: Seq<u8>,
    catalogue: ProviderCatalogue,
    resolved: Seq<ResolvedPaths>,
    now: u64,
) -> bool {
    let entries = catalogue.sessions@;
    let w = walk(entries, resolved, selected, approved, entries.len());
    ||| page_refused(catalogue)
    ||| (w.kept.len() > 0 && !managed.available)
    ||| (exists|k: int|
        0 <= k < w.kept.len() && #[trigger] token_fails(
            entries,
            resolved,
            managed,
            key,
            authority,
            provider,
            selected,
            binary,
            now,
            w.kept[k],
        ))
    ||| coverage_after(catalogue.coverage, w.omitted) is None
}

/// Whether a public page is exactly what a provider page becomes: the provider, the coverage
/// after what was dropped, and each shown conversation in order.
pub open spec fn page_matches(
    page: NativeSessionCatalogue,
    key: Seq<u8>,
    authority: AuthorityView,
    selected: Option<RootView>,
    approved: Seq<RootView>,
    managed: RuntimeSessionCatalogue,
    provider: Seq<char>,
    binary: Seq<u8>,
    catalogue: ProviderCatalogue,
    resolved: Seq<ResolvedPaths>,
    now: u64,
) -> bool {
    let entries = catalogue.sessions@;
    let w = walk(entries, resolved, selected, approved, entries.len());
    &&& page.provider_id@ == provider
    &&& coverage_shape(page.coverage) == coverage_after(catalogue.coverage, w.omitted)->Some_0
    &&& page.sessions@.len() == w.kept.len()
    &&& forall|k: int|
        0 <= k < w.kept.len() ==> #[trigger] descriptor_view(page.sessions@[k]) == shown_view(
            entries,
            resolved,
            managed,
            key,
            authority,
            provider,
            selected,
            binary,
            now,
            w.kept[k],
        )
}

/// Convert one provider page, keeping only conversations whose folders still resolve and, for a
/// named folder, stay inside it and the approved roots.
///
/// `resolved[i]` is what canonicalizing the folders of the `i`th entry gave. Each shown
/// conversation is merged with the managed session that already owns its native identity, and a
/// resumable one nobody manages yet carries an adoption proof sealed at `now`.
pub fn authorize_catalogue(
    codec: &NativeCursorCodec,
    authority: &AuthorizedIntegration,
    selected_root: Option<&AuthorizedRoot>,
    approved_roots: &[AuthorizedRoot],
    managed: &RuntimeSessionCatalogue,
    provider: &str,
    binary_identity: [u8; 32],
    catalogue: &ProviderCatalogue,
    resolved: &Vec<ResolvedPaths>,
    now: u64,
) -> (r: Result<NativeSessionCatalogue, RuntimeInventoryFailure>)
    requires
        resolved@.len() == catalogue.sessions@.len(),
    ensures
        page_fails(
            codec.key(),
            authority@,
            root_view(selected_root),
            roots_view(approved_roots@),
            *managed,
            provider@,
            binary_identity@,
            *catalogue,
            resolved@,
            now,
        ) ==> (r matches Err(f) && f == RuntimeInventoryFailure::Unavailable),
        !page_fails(
            codec.key(),
            authority@,
            root_view(selected_root),
            roots_view(approved_roots@),
            *managed,
            provider@,
            binary_identity@,
            *catalogue,
            resolved@,
            now,
        ) ==> (r matches Ok(page) && page.next_cursor is None && page_matches(
            page,
            codec.key(),
            authority@,
            root_view(selected_root),
            roots_view(approved_roots@),
            *managed,
            provider@,
            binary_identity@,
            *catalogue,
            resolved@,
            now,
        )),
{
    let ghost entries = catalogue.sessions@;
    let ghost selected = root_view(selected_root);
    let ghost approved = roots_view(approved_roots@);
    let ghost n = entries.len();
    let refused = catalogue.sessions.len() > MAX_NATIVE_SESSION_ITEMS || (match &catalogue.next_cursor {
        Some(next) => next.as_str().as_bytes().len() > MAX_NATIVE_CURSOR_BYTES || contains_control(
            next.as_str(),
        ),
        None => false,
    }) || (match &catalogue.coverage {
        ProviderCoverage::Unsupported { .. } => catalogue.sessions.len() > 0
            || catalogue.next_cursor.is_some(),
        _ => false,
    });
    if refused {
        return Err(RuntimeInventoryFailure::Unavailable);
    }
    let mut omitted: usize = 0;
    let mut seen: Vec<String> = Vec::new();
    let mut sessions: Vec<NativeSessionDescriptor> = Vec::new();
    let ghost mut kept: Seq<int> = Seq::empty();
    assert(texts_of(seen@) =~= Seq::<Seq<char>>::empty());
    let mut i: usize = 0;
    while i < catalogue.sessions.len()
        invariant
            n == entries.len(),
            0 <= i <= entries.len(),
            entries == catalogue.sessions@,
            entries.len() <= MAX_NATIVE_SESSION_ITEMS,
            resolved@.len() == entries.len(),
            selected == root_view(selected_root),
            approved == roots_view(approved_roots@),
            walk(entries, resolved@, selected, approved, i as nat) == (Walk {
                kept,
                omitted: omitted as nat,
                seen: texts_of(seen@),
            }),
            sessions@.len() == kept.len(),
            kept.len() > 0 ==> managed.available,
            forall|k: int|
                0 <= k < kept.len() ==> !#[trigger] token_fails(
                    entries,
                    resolved@,
                    *managed,
                    codec.key(),
                    authority@,
                    provider@,
                    selected,
                    binary_identity@,
                    now,
                    kept[k],
                ),
            forall|k: int|
                0 <= k < kept.len() ==> #[trigger] descriptor_view(sessions@[k]) == shown_view(
                    entries,
                    resolved@,
                    *managed,
                    codec.key(),
                    authority@,
                    provider@,
                    selected,
                    binary_identity@,
                    now,
                    kept[k],
                ),
        decreases entries.len() - i,
    {
        proof {
            lemma_walk_bounds(entries, resolved@, selected, approved, i as nat);
        }
        let entry = &catalogue.sessions[i];
        let in_bounds = entry.additional_directories.len() <= MAX_NATIVE_ADDITIONAL_DIRECTORIES
            && (match &entry.title {
            Some(title) => check_bounded(title.as_str(), MAX_NATIVE_TITLE_BYTES),
            None => true,
        }) && (match &entry.updated_at {
            Some(at) => check_bounded(at.as_str(), MAX_NATIVE_TIMESTAMP_BYTES),
            None => true,
        });
        if !in_bounds || holds_text(&seen, entry.native.as_str()) {
            omitted = omitted + 1;
        } else {
            seen.push(copy_string(&entry.native));
            proof {
                assert(texts_of(seen@) =~= walk(entries, resolved@, selected, approved, i as nat).seen.push(
                    entry.native@,
                ));
            }
            let paths = &resolved[i];
            let shown = match &paths.cwd {
                None => false,
                Some(cwd) => (match selected_root {
                    Some(root) => is_under(cwd.as_str(), root.path.as_str()),
                    None => true,
                }) && (match &paths.additional {
                    None => false,
                    Some(additional) => match selected_root {
                        Some(_) => dirs_under_roots(additional, approved_roots),
                        None => true,
                    },
                }),
            };
            if !shown {
                omitted = omitted + 1;
            } else {
                let cwd = match &paths.cwd {
                    Some(cwd) => cwd,
                    None => return Err(RuntimeInventoryFailure::Unavailable),
                };
                let additional = match &paths.additional {
                    Some(additional) => additional,
                    None => return Err(RuntimeInventoryFailure::Unavailable),
                };
                proof {
                    lemma_walk_grows(entries, resolved@, selected, approved, (i + 1) as nat, n);
                    lemma_walk_bounds(entries, resolved@, selected, approved, n);
                    assert(walk(entries, resolved@, selected, approved, (i + 1) as nat).kept == kept.push(
                        i as int,
                    ));
                    assert(walk(entries, resolved@, selected, approved, n).kept[kept.len() as int]
                        == i);
                }
                let already_managed_as = match managed.managed_as(authority, provider, entry.native.as_str()) {
                    Ok(found) => found,
                    Err(_) => return Err(RuntimeInventoryFailure::Unavailable),
                };
                let resume = map_resume(entry.resume);
                let token = if resume == NativeResumeCapability::Available && already_managed_as.is_none() {
                    match codec.seal_adoption(
                        authority,
                        provider,
                        selected_root,
                        binary_identity,
                        entry.native.as_str(),
                        cwd.as_str(),
                        now,
                    ) {
                        Ok(token) => Some(token),
                        Err(_) => {
                            proof {
                                let k = kept.len() as int;
                                assert(token_fails(
                                    entries,
                                    resolved@,
                                    *managed,
                                    codec.key(),
                                    authority@,
                                    provider@,
                                    selected,
                                    binary_identity@,
                                    now,
                                    walk(entries, resolved@, selected, approved, n).kept[k],
                                ));
                            }
                            return Err(RuntimeInventoryFailure::Unavailable);
                        },
                    }
                } else {
                    None
                };
                let descriptor = NativeSessionDescriptor {
                    native_session_id: copy_string(&entry.native),
                    cwd: copy_string(cwd),
                    additional_directories: crate::auth::copy_strings(additional),
                    title: copy_optional(&entry.title),
                    updated_at: copy_optional(&entry.updated_at),
                    resume,
                    already_managed_as,
                    adoption_token: token,
                };
                sessions.push(descriptor);
                proof {
                    kept = kept.push(i as int);
                }
            }
        }
        i = i + 1;
    }
    proof {
        lemma_walk_bounds(entries, resolved@, selected, approved, n);
    }
    let coverage = map_coverage(&catalogue.coverage, omitted)?;
    Ok(NativeSessionCatalogue { provider_id: provider.to_owned(), coverage, sessions, next_cursor: None })
}


// ---------------------------------------------------------------------------------------------
// One listing request
// ---------------------------------------------------------------------------------------------
/// Why a native listing could not be answered.
#[derive(Debug)]
pub enum NativeDiscoveryFailure {
    Cursor(NativeCursorFailure),
    Inventory(RuntimeInventoryFailure),
    /// The provider could not be prepared or would not answer.
    Provider,
    /// The caller asked about the machine and this provider only answers about one folder.
    RootRequired,
}

/// Refuse a continuation cursor over the public limit before anything else is done.
pub fn check_listing_cursor(cursor: Option<&String>) -> (r: Result<(), PublicFailure>)
    ensures
        r is Ok <==> match cursor {
            Some(c) => encode_utf8(c@).len() <= MAX_NATIVE_PUBLIC_CURSOR_BYTES,
            None => true,
        },
        r matches Err(f) ==> says(
            f,
            ErrorKind::InvalidRequest,
            "the native session catalogue cursor is oversized"@,
        ),
{
    if let Some(c) = cursor {
        if c.as_str().as_bytes().len() > MAX_NATIVE_PUBLIC_CURSOR_BYTES {
            return Err(plain(ErrorKind::InvalidRequest, "the native session catalogue cursor is oversized"));
        }
    }
    Ok(())
}

/// Before the provider is asked: refuse a machine-wide listing from a provider that cannot
/// enumerate the machine, and open the continuation cursor in exactly this context.
pub fn open_listing(
    codec: &NativeCursorCodec,
    authority: &AuthorizedIntegration,
    selected_root: Option<&AuthorizedRoot>,
    provider: &str,
    binary_identity: [u8; 32],
    enumerates_machine: bool,
    cursor: Option<&String>,
    now: u64,
) -> (r: Result<Option<OpenedCursor>, NativeDiscoveryFailure>)
    ensures
        selected_root is None && !enumerates_machine ==> r matches Err(
            NativeDiscoveryFailure::RootRequired,
        ),
        !(selected_root is None && !enumerates_machine) ==> match cursor {
            None => r matches Ok(None),
            Some(c) => match cursor_text_opening(
                codec.key(),
                token_context(authority@, provider@, root_view(selected_root), binary_identity@),
                now,
                c@,
            ) {
                Ok(v) => r matches Ok(Some(o)) && opened_view(Ok(o)) == Ok::<
                    (Seq<char>, Seq<Seq<u8>>),
                    NativeCursorFailure,
                >(v),
                Err(e) => r matches Err(NativeDiscoveryFailure::Cursor(x)) && x == e,
            },
        },
{
    if selected_root.is_none() && !enumerates_machine {
        return Err(NativeDiscoveryFailure::RootRequired);
    }
    match cursor {
        None => Ok(None),
        Some(c) => match codec.open(authority, provider, selected_root, binary_identity, c.as_str(), now) {
            Ok(opened) => Ok(Some(opened)),
            Err(e) => Err(NativeDiscoveryFailure::Cursor(e)),
        },
    }
}

/// Once the provider answered: the public page, with the provider's continuation sealed as the
/// next public cursor of this walk.
pub fn finish_listing(
    codec: &NativeCursorCodec,
    authority: &AuthorizedIntegration,
    selected_root: Option<&AuthorizedRoot>,
    approved_roots: &[AuthorizedRoot],
    managed: &RuntimeSessionCatalogue,
    provider: &str,
    binary_identity: [u8; 32],
    catalogue: &ProviderCatalogue,
    resolved: &Vec<ResolvedPaths>,
    opened: Option<&OpenedCursor>,
    now: u64,
) -> (r: Result<NativeSessionCatalogue, NativeDiscoveryFailure>)
    requires
        resolved@.len() == catalogue.sessions@.len(),
    ensures
        page_fails(
            codec.key(),
            authority@,
            root_view(selected_root),
            roots_view(approved_roots@),
            *managed,
            provider@,
            binary_identity@,
            *catalogue,
            resolved@,
            now,
        ) ==> (r matches Err(NativeDiscoveryFailure::Inventory(f)) && f
            == RuntimeInventoryFailure::Unavailable),
        !page_fails(
            codec.key(),
            authority@,
            root_view(selected_root),
            roots_view(approved_roots@),
            *managed,
            provider@,
            binary_identity@,
            *catalogue,
            resolved@,
            now,
        ) ==> match catalogue.next_cursor {
            None => r matches Ok(page) && page.next_cursor is None && page_matches(
                page,
                codec.key(),
                authority@,
                root_view(selected_root),
                roots_view(approved_roots@),
                *managed,
                provider@,
                binary_identity@,
                *catalogue,
                resolved@,
                now,
            ),
            Some(next) => match cursor_sealing(
                codec.key(),
                token_context(authority@, provider@, root_view(selected_root), binary_identity@),
                now,
                next@,
                prior_seen(opened),
            ) {
                Ok(text) => r matches Ok(page) && (page.next_cursor matches Some(n) && n@ == text)
                    && page_matches(
                    page,
                    codec.key(),
                    authority@,
                    root_view(selected_root),
                    roots_view(approved_roots@),
                    *managed,
                    provider@,
                    binary_identity@,
                    *catalogue,
                    resolved@,
                    now,
                ),
                Err(e) => r matches Err(NativeDiscoveryFailure::Cursor(x)) && x == e,
            },
        },
{
    let mut page = match authorize_catalogue(
        codec,
        authority,
        selected_root,
        approved_roots,
        managed,
        provider,
        binary_identity,
        catalogue,
        resolved,
        now,
    ) {
        Ok(page) => page,
        Err(f) => return Err(NativeDiscoveryFailure::Inventory(f)),
    };
    if let Some(next) = &catalogue.next_cursor {
        match codec.seal(authority, provider, selected_root, binary_identity, next.as_str(), opened, now) {
            Ok(text) => {
                page.next_cursor = Some(text);
            },
            Err(e) => return Err(NativeDiscoveryFailure::Cursor(e)),
        }
    }
    Ok(page)
}

/// Answer a listing that failed, or ran past its deadline.
pub fn discovery_answer(failure: Bounded<NativeDiscoveryFailure>) -> (r: PublicFailure)
    ensures
        match failure {
            Bounded::TimedOut => says(
                r,
                ErrorKind::RuntimeUnavailable,
                "native session discovery exceeded its bounded deadline"@,
            ),
            Bounded::Answered(NativeDiscoveryFailure::Cursor(c)) => says(
                r,
                cursor_refusal(c).0,
                cursor_refusal(c).1,
            ),
            Bounded::Answered(NativeDiscoveryFailure::Inventory(f)) => says(
                r,
                inventory_refusal(f).0,
                inventory_refusal(f).1,
            ),
            Bounded::Answered(NativeDiscoveryFailure::Provider) => says(
                r,
                ErrorKind::ProviderUnavailable,
                "the selected provider could not supply a native session catalogue"@,
            ),
            Bounded::Answered(NativeDiscoveryFailure::RootRequired) => says(
                r,
                ErrorKind::InvalidRequest,
                "this provider lists conversations one workspace root at a time, so a root is required"@,
            ),
        },
{
    match failure {
        Bounded::TimedOut => plain(
            ErrorKind::RuntimeUnavailable,
            "native session discovery exceeded its bounded deadline",
        ),
        Bounded::Answered(NativeDiscoveryFailure::Cursor(c)) => cursor_failure(c),
        Bounded::Answered(NativeDiscoveryFailure::Inventory(f)) => inventory_failure(f),
        Bounded::Answered(NativeDiscoveryFailure::Provider) => plain(
            ErrorKind::ProviderUnavailable,
            "the selected provider could not supply a native session catalogue",
        ),
        Bounded::Answered(NativeDiscoveryFailure::RootRequired) => plain(
            ErrorKind::InvalidRequest,
            "this provider lists conversations one workspace root at a time, so a root is required",
        ),
    }
}

/// The resume capability shown is the provider's own: a conversation is shown as resumable
/// only when the provider says it can be resumed, as not resumable only when it says it cannot,
/// and as unknown only when it does not know; distinct answers are never shown alike.
pub proof fn lemma_resume_is_the_providers(resume: ProviderResume, other: ProviderResume)
    ensures
        (resume_of(resume) == NativeResumeCapability::Available) == (resume == ProviderResume::Available),
        (resume_of(resume) == NativeResumeCapability::Unavailable) == (resume == ProviderResume::Unavailable),
        (resume_of(resume) == NativeResumeCapability::Unknown) == (resume == ProviderResume::Unknown),
        resume_of(resume) == resume_of(other) ==> resume == other,
{
}

/// An adoption proof is handed out only for a conversation the provider says can be resumed and
/// no managed session already owns.
pub proof fn lemma_adoption_only_for_resumable(
    key: Seq<u8>,
    authority: AuthorityView,
    provider: Seq<char>,
    selected: Option<RootView>,
    binary: Seq<u8>,
    e: NativeSessionEntry,
    cwd: Seq<char>,
    managed: Option<Seq<char>>,
    now: u64,
)
    ensures
        token_for(key, authority, provider, selected, binary, e, cwd, managed, now) matches Ok(Some(_))
            ==> e.resume == ProviderResume::Available && managed is None,
{
}

} // verus!
