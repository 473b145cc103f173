//! Public projections of the session owner's catalogue, approved-root revalidation, and the
//! provider inventory refresh bookkeeping.

use vstd::prelude::*;

use crate::auth::{copy_string, AuthorizedIntegration, IntegrationRootRow};
use crate::control::{copy_descriptor, SessionDescriptor};
use crate::cursor::AuthorizedRoot;
use crate::text::{decimal, push_decimal, str_eq, string_push_str};

verus! {

/// Safe reason a public session snapshot could not be authorized.
#[derive(Clone, Copy, Debug, PartialEq, Eq, Structural)]
pub enum RuntimeInventoryFailure {
    /// The durable source catalogue could not be read.
    Unavailable,
    /// At least one granted root no longer names the approved filesystem object.
    RootAuthorityChanged,
    /// The session is absent or outside this integration's approved roots.
    SessionNotFound,
}

// ---------------------------------------------------------------------------------------------
// Provider installations
// ---------------------------------------------------------------------------------------------
/// Whether a declared provider can be run here.
#[derive(Clone, Copy, Debug, PartialEq, Eq, Structural)]
pub enum InstallationState {
    Usable,
    Missing,
    Unavailable,
}

/// What Runtime observed of one provider's installation.
#[derive(Debug)]
pub struct InstallationObservation {
    pub state: InstallationState,
    pub version: Option<String>,
    pub why: Option<String>,
}

/// What the verified probe cache says of a located executable.
#[derive(Debug)]
pub enum ProbeOutcome {
    /// The executable's identity could not be read.
    Unverified,
    /// The identity was read but no verified probe of it is cached.
    NotProbed,
    /// A verified probe of this exact executable found this version.
    Probed(String),
}

/// An observation of this state and explanation, with no version.
pub open spec fn observed(o: InstallationObservation, state: InstallationState, why: Seq<char>) -> bool {
    o.state == state && o.version is None && (o.why matches Some(w) && w@ == why)
}

fn observation(state: InstallationState, why: &str) -> (r: InstallationObservation)
    ensures
        observed(r, state, why@),
{
    InstallationObservation { state, version: None, why: Some(why.to_owned()) }
}

/// The installation of one provider, and the executable path it resolved to if any.
///
/// `usable` is whether this build has a driver for the provider's kind; `located` the executable
/// the search path resolved; `probe` what the probe cache says of it. Only an executable whose
/// identity a verified probe vouches for is usable.
pub fn installation(usable: bool, located: Option<String>, probe: ProbeOutcome) -> (r: (
    InstallationObservation,
    Option<String>,
))
    ensures
        !usable ==> observed(r.0, InstallationState::Unavailable, "this Runtime build has no driver for the declared provider kind"@)
            && r.1 is None,
        usable && located is None ==> observed(r.0, InstallationState::Missing, "no registered executable candidate is installed"@)
            && r.1 is None,
        usable && located is Some ==> r.1 == located && match probe {
            ProbeOutcome::Unverified => observed(
                r.0,
                InstallationState::Unavailable,
                "the installed executable identity could not be verified"@,
            ),
            ProbeOutcome::NotProbed => observed(
                r.0,
                InstallationState::Unavailable,
                "the installed executable has not completed a verified probe"@,
            ),
            ProbeOutcome::Probed(version) => r.0.state == InstallationState::Usable && r.0.version == Some(version)
                && r.0.why is None,
        },
{
    if !usable {
        return (observation(InstallationState::Unavailable, "this Runtime build has no driver for the declared provider kind"), None);
    }
    let path = match located {
        Some(path) => path,
        None => return (observation(InstallationState::Missing, "no registered executable candidate is installed"), None),
    };
    let observed = match probe {
        ProbeOutcome::Unverified => observation(
            InstallationState::Unavailable,
            "the installed executable identity could not be verified",
        ),
        ProbeOutcome::NotProbed => observation(
            InstallationState::Unavailable,
            "the installed executable has not completed a verified probe",
        ),
        ProbeOutcome::Probed(version) => InstallationObservation {
            state: InstallationState::Usable,
            version: Some(version),
            why: None,
        },
    };
    (observed, Some(path))
}

/// The observation of a provider whose resolution did not complete: unavailable rather than
/// missing, so the operator is not sent to install what they may already have.
pub fn unresolved_installation() -> (r: InstallationObservation)
    ensures
        observed(r, InstallationState::Unavailable, "resolving this provider's executable did not complete"@),
{
    observation(InstallationState::Unavailable, "resolving this provider's executable did not complete")
}

/// The commands a person can run for a provider.
#[derive(Debug)]
pub struct ProviderHelp {
    pub sign_in: Option<String>,
    pub diagnose: Option<String>,
    pub install: Option<String>,
}

/// A command followed by its arguments, each after one space.
pub open spec fn command_line(command: Seq<char>, arguments: Seq<String>) -> Seq<char>
    decreases arguments.len(),
{
    if arguments.len() == 0 {
        command
    } else {
        command_line(command, arguments.drop_last()) + " "@ + arguments.last()@
    }
}

/// The line for a declared argument list: nothing when there are no arguments.
pub open spec fn help_line(command: Seq<char>, arguments: Seq<String>) -> Option<Seq<char>> {
    if arguments.len() == 0 {
        None
    } else {
        Some(command_line(command, arguments))
    }
}

pub open spec fn text_of(t: Option<String>) -> Option<Seq<char>> {
    match t {
        Some(s) => Some(s@),
        None => None,
    }
}

fn line(command: &str, arguments: &Vec<String>) -> (r: Option<String>)
    ensures
        text_of(r) == help_line(command@, arguments@),
{
    if arguments.len() == 0 {
        return None;
    }
    let mut text = command.to_owned();
    let mut i: usize = 0;
    while i < arguments.len()
        invariant
            i <= arguments@.len(),
            text@ == command_line(command@, arguments@.take(i as int)),
        decreases arguments@.len() - i,
    {
        string_push_str(&mut text, " ");
        string_push_str(&mut text, arguments[i].as_str());
        proof {
            let next = arguments@.take(i + 1);
            assert(next.drop_last() =~= arguments@.take(i as int));
            assert(next.last() == arguments@[i as int]);
        }
        i = i + 1;
    }
    proof {
        assert(arguments@.take(arguments@.len() as int) =~= arguments@);
    }
    Some(text)
}

/// A provider's own help commands, assembled into lines a person can read and run from the first
/// declared executable name; nothing at all when no line would lead anywhere.
pub fn provider_help(
    executable: Option<&str>,
    sign_in: &Vec<String>,
    diagnose: &Vec<String>,
    install: Option<&str>,
) -> (r: Option<ProviderHelp>)
    ensures
        match executable {
            None => r is None,
            Some(command) => {
                let sign = help_line(command@, sign_in@);
                let diag = help_line(command@, diagnose@);
                let inst = match install {
                    Some(i) => Some(i@),
                    None => None,
                };
                if sign is None && diag is None && inst is None {
                    r is None
                } else {
                    r matches Some(h) && text_of(h.sign_in) == sign && text_of(h.diagnose) == diag && text_of(
                        h.install,
                    ) == inst
                }
            },
        },
{
    let command = match executable {
        Some(command) => command,
        None => return None,
    };
    let sign_in = line(command, sign_in);
    let diagnose = line(command, diagnose);
    let install = match install {
        Some(i) => Some(i.to_owned()),
        None => None,
    };
    if sign_in.is_none() && diagnose.is_none() && install.is_none() {
        return None;
    }
    Some(ProviderHelp { sign_in, diagnose, install })
}

// ---------------------------------------------------------------------------------------------
// Provider inventory refresh
// ---------------------------------------------------------------------------------------------
/// How long a provider inventory stays fresh enough that a list read does not rescan.
pub const PROVIDER_INVENTORY_RECHECK_FLOOR_MS: u64 = 1000;

/// How a provider list read is answered from the cache.
#[derive(Clone, Copy, Debug, PartialEq, Eq, Structural)]
pub enum InventoryRead {
    /// Answer the cached snapshot.
    Cached,
    /// Restamp the local filesystem facts: answer the cached snapshot and `record_checked` if
    /// they are unchanged, build a new one otherwise.
    Restamp,
    /// Build a snapshot.
    Build,
}

/// Bookkeeping for one bounded provider snapshot: when it was checked, which revision of the
/// local facts is current, and which revision a background scan is reading.
#[derive(Debug)]
pub struct ProviderInventoryCache {
    pub checked_at_ms: Option<u64>,
    pub revision: u64,
    pub background_revision: Option<u64>,
}

impl ProviderInventoryCache {
    /// Nothing cached, revision one, no scan running.
    pub fn new() -> (r: Self)
        ensures
            r.checked_at_ms is None,
            r.revision == 1,
            r.background_revision is None,
    {
        ProviderInventoryCache { checked_at_ms: None, revision: 1, background_revision: None }
    }

    /// Start a background scan of the current revision, unless one is already running or the
    /// cached snapshot is younger than the recheck floor.
    pub fn begin_background_refresh(&mut self, now_ms: u64) -> (r: Option<u64>)
        ensures
            final(self).revision == old(self).revision,
            final(self).checked_at_ms == old(self).checked_at_ms,
            if old(self).background_revision is Some || (old(self).checked_at_ms matches Some(at)
                && now_ms - at < PROVIDER_INVENTORY_RECHECK_FLOOR_MS) {
                r is None && final(self).background_revision == old(self).background_revision
            } else {
                r == Some(old(self).revision) && final(self).background_revision == Some(
                    old(self).revision,
                )
            },
    {
        if self.background_revision.is_some() {
            return None;
        }
        if let Some(at) = self.checked_at_ms {
            if now_ms < at || now_ms - at < PROVIDER_INVENTORY_RECHECK_FLOOR_MS {
                return None;
            }
        }
        self.background_revision = Some(self.revision);
        Some(self.revision)
    }

    /// End a background scan; its answer is current only if nothing invalidated it meanwhile.
    pub fn finish_background_refresh(&mut self, revision: u64) -> (r: bool)
        ensures
            r == (old(self).revision == revision),
            final(self).revision == old(self).revision,
            final(self).checked_at_ms == old(self).checked_at_ms,
            final(self).background_revision == (if old(self).background_revision == Some(revision) {
                None
            } else {
                old(self).background_revision
            }),
    {
        if let Some(running) = self.background_revision {
            if running == revision {
                self.background_revision = None;
            }
        }
        self.revision == revision
    }

    /// Forget the snapshot and move to a new revision, never zero.
    pub fn invalidate(&mut self)
        ensures
            final(self).checked_at_ms is None,
            final(self).background_revision == old(self).background_revision,
            final(self).revision == (if old(self).revision == u64::MAX {
                1
            } else {
                old(self).revision + 1
            }),
            final(self).revision != old(self).revision,
            final(self).revision >= 1,
    {
        self.revision = if self.revision == u64::MAX {
            1
        } else {
            self.revision + 1
        };
        self.checked_at_ms = None;
    }

    /// How a provider list read is answered: a snapshot younger than the recheck floor as it is;
    /// an older one only after the local filesystem facts are restamped and found unchanged;
    /// no snapshot by building one.
    pub fn read_plan(&self, now_ms: u64) -> (r: InventoryRead)
        ensures
            r == match self.checked_at_ms {
                None => InventoryRead::Build,
                Some(at) => if now_ms - at < PROVIDER_INVENTORY_RECHECK_FLOOR_MS {
                    InventoryRead::Cached
                } else {
                    InventoryRead::Restamp
                },
            },
    {
        match self.checked_at_ms {
            None => InventoryRead::Build,
            Some(at) => if now_ms < at || now_ms - at < PROVIDER_INVENTORY_RECHECK_FLOOR_MS {
                InventoryRead::Cached
            } else {
                InventoryRead::Restamp
            },
        }
    }

    /// Remember when a current snapshot was checked.
    pub fn record_checked(&mut self, now_ms: u64)
        ensures
            final(self).checked_at_ms == Some(now_ms),
            final(self).revision == old(self).revision,
            final(self).background_revision == old(self).background_revision,
    {
        self.checked_at_ms = Some(now_ms);
    }
}

/// A background scan started before an invalidation can never install its answer, and the
/// invalidated cache scans again under another revision.
pub proof fn lemma_invalidation_wins(revision: u64, started: u64)
    requires
        started == revision,
    ensures
        ({
            let next = if revision == u64::MAX {
                1u64
            } else {
                (revision + 1) as u64
            };
            next != started
        }),
{
}

// ---------------------------------------------------------------------------------------------
// Managed session catalogue
// ---------------------------------------------------------------------------------------------
/// One public session plus what is needed to resolve it.
#[derive(Debug)]
pub struct RuntimeSessionRecord {
    pub session: [u8; 16],
    pub provider: String,
    pub native: Option<String>,
    pub descriptor: SessionDescriptor,
    pub workspace: String,
}

/// One immutable snapshot published by the session owner.
#[derive(Debug)]
pub struct RuntimeSessionCatalogue {
    pub sessions: Vec<RuntimeSessionRecord>,
    pub unreadable: usize,
    pub available: bool,
}

/// Every managed session on the machine, and what could not be read.
#[derive(Debug)]
pub struct ManagedSessionList {
    pub sessions: Vec<SessionDescriptor>,
    pub warnings: Vec<String>,
}

/// One managed session resolved for heating.
#[derive(Debug)]
pub struct AuthorizedManagedSession {
    pub session: [u8; 16],
    pub provider: String,
    pub native: Option<String>,
    pub descriptor: SessionDescriptor,
    /// The workspace: as stored, until `with_canonical_workspace` replaces it with its exact
    /// current path.
    pub workspace: String,
}

/// Finish resolving a managed session once its stored workspace was canonicalized: the exact
/// current path replaces the stored one, and a workspace that no longer resolves is a session
/// that is not found.
pub fn with_canonical_workspace(managed: AuthorizedManagedSession, canonical: Option<String>) -> (r: Result<
    AuthorizedManagedSession,
    RuntimeInventoryFailure,
>)
    ensures
        match canonical {
            None => r matches Err(f) && f == RuntimeInventoryFailure::SessionNotFound,
            Some(path) => r matches Ok(m) && m.session == managed.session && m.provider == managed.provider
                && m.native == managed.native && m.descriptor == managed.descriptor && m.workspace == path,
        },
{
    match canonical {
        None => Err(RuntimeInventoryFailure::SessionNotFound),
        Some(path) => Ok(
            AuthorizedManagedSession {
                session: managed.session,
                provider: managed.provider,
                native: managed.native,
                descriptor: managed.descriptor,
                workspace: path,
            },
        ),
    }
}

/// The sentence that warns of unreadable stored rows.
pub open spec fn unreadable_warning(count: nat) -> Seq<char> {
    decimal(count) + " stored session rows were unreadable and omitted"@
}

/// The index of the first record whose public identity is `requested`.
pub open spec fn first_named(records: Seq<RuntimeSessionRecord>, requested: Seq<char>, i: int) -> bool {
    &&& 0 <= i < records.len()
    &&& records[i].descriptor.session_id@ == requested
    &&& forall|j: int| 0 <= j < i ==> #[trigger] records[j].descriptor.session_id@ != requested
}

/// Whether some record has public identity `requested`.
pub open spec fn names(records: Seq<RuntimeSessionRecord>, requested: Seq<char>) -> bool {
    exists|i: int| 0 <= i < records.len() && #[trigger] records[i].descriptor.session_id@ == requested
}

/// Whether a record is the managed pointer of this provider's native identity.
pub open spec fn merges(record: RuntimeSessionRecord, provider: Seq<char>, native: Seq<char>) -> bool {
    record.provider@ == provider && (record.native matches Some(n) && n@ == native)
}

/// Whether `i` is the first record merging this provider's native identity.
pub open spec fn first_merge(records: Seq<RuntimeSessionRecord>, provider: Seq<char>, native: Seq<char>, i: int) -> bool {
    &&& 0 <= i < records.len()
    &&& merges(records[i], provider, native)
    &&& forall|j: int| 0 <= j < i ==> !merges(#[trigger] records[j], provider, native)
}

/// The public identity of the managed session a native identity merges into, if any.
pub open spec fn managed_view(records: Seq<RuntimeSessionRecord>, provider: Seq<char>, native: Seq<char>) -> Option<Seq<char>> {
    if exists|i: int| first_merge(records, provider, native, i) {
        Some(records[choose|i: int| first_merge(records, provider, native, i)].descriptor.session_id@)
    } else {
        None
    }
}

/// At most one record is the first to merge a native identity.
pub proof fn lemma_first_merge_unique(records: Seq<RuntimeSessionRecord>, provider: Seq<char>, native: Seq<char>, i: int)
    requires
        first_merge(records, provider, native, i),
    ensures
        managed_view(records, provider, native) == Some(records[i].descriptor.session_id@),
{
    let c = choose|k: int| first_merge(records, provider, native, k);
    if c < i {
        assert(!merges(records[c], provider, native));
    } else if c > i {
        assert(!merges(records[i], provider, native));
    }
}

impl RuntimeSessionCatalogue {
    /// An explicit unavailable snapshot after a durable catalogue read fails.
    pub fn unavailable() -> (r: Self)
        ensures
            !r.available,
            r.sessions@.len() == 0,
            r.unreadable == 0,
    {
        RuntimeSessionCatalogue { sessions: Vec::new(), unreadable: 0, available: false }
    }

    /// Where the first session with this public identity is.
    fn find_named(&self, requested: &str) -> (r: Option<usize>)
        ensures
            match r {
                Some(i) => first_named(self.sessions@, requested@, i as int),
                None => !names(self.sessions@, requested@),
            },
    {
        let mut i: usize = 0;
        while i < self.sessions.len()
            invariant
                0 <= i <= self.sessions@.len(),
                forall|j: int| 0 <= j < i ==> #[trigger] self.sessions@[j].descriptor.session_id@ != requested@,
            decreases self.sessions@.len() - i,
        {
            if str_eq(self.sessions[i].descriptor.session_id.as_str(), requested) {
                return Some(i);
            }
            i = i + 1;
        }
        None
    }

    /// Every managed session on the machine, for a caller that already passed the scope wall.
    ///
    /// Deliberately not bounded by the integration's roots: this endpoint is owner-only and
    /// local, and shows every conversation on the machine in one list.
    pub fn authorized(&self, _authority: &AuthorizedIntegration) -> (r: Result<ManagedSessionList, RuntimeInventoryFailure>)
        ensures
            !self.available ==> r == Err::<ManagedSessionList, RuntimeInventoryFailure>(
                RuntimeInventoryFailure::Unavailable,
            ),
            self.available ==> (r matches Ok(list) && list.sessions@ == self.sessions@.map_values(
                |s: RuntimeSessionRecord| s.descriptor,
            ) && (if self.unreadable == 0 {
                list.warnings@.len() == 0
            } else {
                list.warnings@.len() == 1 && list.warnings@[0]@ == unreadable_warning(
                    self.unreadable as nat,
                )
            })),
    {
        if !self.available {
            return Err(RuntimeInventoryFailure::Unavailable);
        }
        let mut sessions: Vec<SessionDescriptor> = Vec::new();
        let mut i: usize = 0;
        while i < self.sessions.len()
            invariant
                0 <= i <= self.sessions@.len(),
                sessions@ == self.sessions@.take(i as int).map_values(
                    |s: RuntimeSessionRecord| s.descriptor,
                ),
            decreases self.sessions@.len() - i,
        {
            sessions.push(copy_descriptor(&self.sessions[i].descriptor));
            assert(self.sessions@.take(i + 1).map_values(|s: RuntimeSessionRecord| s.descriptor)
                =~= self.sessions@.take(i as int).map_values(|s: RuntimeSessionRecord| s.descriptor).push(
                self.sessions@[i as int].descriptor,
            ));
            i = i + 1;
        }
        assert(self.sessions@.take(self.sessions@.len() as int) =~= self.sessions@);
        let mut warnings: Vec<String> = Vec::new();
        if self.unreadable != 0 {
            let mut warning = String::new();
            push_decimal(&mut warning, self.unreadable);
            string_push_str(&mut warning, " stored session rows were unreadable and omitted");
            warnings.push(warning);
        }
        Ok(ManagedSessionList { sessions, warnings })
    }

    /// Resolve one public session identity, machine-wide.
    pub fn authorized_session(&self, _authority: &AuthorizedIntegration, requested: &str) -> (r: Result<
        [u8; 16],
        RuntimeInventoryFailure,
    >)
        ensures
            !self.available ==> r == Err::<[u8; 16], RuntimeInventoryFailure>(
                RuntimeInventoryFailure::Unavailable,
            ),
            self.available && !names(self.sessions@, requested@) ==> r == Err::<
                [u8; 16],
                RuntimeInventoryFailure,
            >(RuntimeInventoryFailure::SessionNotFound),
            self.available && names(self.sessions@, requested@) ==> exists|i: int|
                first_named(self.sessions@, requested@, i) && r == Ok::<
                    [u8; 16],
                    RuntimeInventoryFailure,
                >(self.sessions@[i].session),
    {
        if !self.available {
            return Err(RuntimeInventoryFailure::Unavailable);
        }
        match self.find_named(requested) {
            Some(i) => Ok(self.sessions[i].session),
            None => Err(RuntimeInventoryFailure::SessionNotFound),
        }
    }

    /// Which provider owns one session; nothing for a session this snapshot does not hold.
    pub fn provider_of(&self, session: &[u8; 16]) -> (r: Option<String>)
        ensures
            match r {
                Some(p) => exists|i: int|
                    0 <= i < self.sessions@.len() && self.sessions@[i].session@ == session@
                        && p == self.sessions@[i].provider && forall|j: int|
                        0 <= j < i ==> #[trigger] self.sessions@[j].session@ != session@,
                None => forall|j: int|
                    0 <= j < self.sessions@.len() ==> #[trigger] self.sessions@[j].session@ != session@,
            },
    {
        let mut i: usize = 0;
        while i < self.sessions.len()
            invariant
                0 <= i <= self.sessions@.len(),
                forall|j: int| 0 <= j < i ==> #[trigger] self.sessions@[j].session@ != session@,
            decreases self.sessions@.len() - i,
        {
            if crate::text::bytes_eq(&self.sessions[i].session, session) {
                return Some(copy_string(&self.sessions[i].provider));
            }
            i = i + 1;
        }
        None
    }

    /// Resolve the provider pointer and stored workspace needed to heat one managed session.
    pub fn authorized_managed_session(&self, _authority: &AuthorizedIntegration, requested: &str) -> (r: Result<
        AuthorizedManagedSession,
        RuntimeInventoryFailure,
    >)
        ensures
            !self.available ==> (r matches Err(f) && f == RuntimeInventoryFailure::Unavailable),
            self.available && !names(self.sessions@, requested@) ==> (r matches Err(f) && f
                == RuntimeInventoryFailure::SessionNotFound),
            self.available && names(self.sessions@, requested@) ==> exists|i: int|
                first_named(self.sessions@, requested@, i) && (r matches Ok(m) && m.session
                    == self.sessions@[i].session && m.provider == self.sessions@[i].provider
                    && m.native == self.sessions@[i].native && m.descriptor
                    == self.sessions@[i].descriptor && m.workspace == self.sessions@[i].workspace),
    {
        if !self.available {
            return Err(RuntimeInventoryFailure::Unavailable);
        }
        match self.find_named(requested) {
            Some(i) => {
                let record = &self.sessions[i];
                let native = match &record.native {
                    Some(n) => Some(copy_string(n)),
                    None => None,
                };
                Ok(
                    AuthorizedManagedSession {
                        session: record.session,
                        provider: copy_string(&record.provider),
                        native,
                        descriptor: copy_descriptor(&record.descriptor),
                        workspace: copy_string(&record.workspace),
                    },
                )
            },
            None => Err(RuntimeInventoryFailure::SessionNotFound),
        }
    }

    /// The public identity of the managed pointer of one provider's native identity, if any:
    /// the only safe key on which a native conversation merges with a managed one.
    pub fn managed_as(&self, _authority: &AuthorizedIntegration, provider: &str, native: &str) -> (r: Result<
        Option<String>,
        RuntimeInventoryFailure,
    >)
        ensures
            !self.available ==> (r matches Err(f) && f == RuntimeInventoryFailure::Unavailable),
            self.available ==> (r matches Ok(found) && match found {
                Some(id) => managed_view(self.sessions@, provider@, native@) == Some(id@),
                None => managed_view(self.sessions@, provider@, native@) is None,
            }),
            self.available ==> (r matches Ok(found) && match found {
                Some(id) => exists|i: int|
                    0 <= i < self.sessions@.len() && merges(self.sessions@[i], provider@, native@)
                        && id == self.sessions@[i].descriptor.session_id && forall|j: int|
                        0 <= j < i ==> !merges(#[trigger] self.sessions@[j], provider@, native@),
                None => forall|j: int|
                    0 <= j < self.sessions@.len() ==> !merges(#[trigger] self.sessions@[j], provider@, native@),
            }),
    {
        if !self.available {
            return Err(RuntimeInventoryFailure::Unavailable);
        }
        let mut i: usize = 0;
        while i < self.sessions.len()
            invariant
                self.available,
                0 <= i <= self.sessions@.len(),
                forall|j: int| 0 <= j < i ==> !merges(#[trigger] self.sessions@[j], provider@, native@),
            decreases self.sessions@.len() - i,
        {
            let record = &self.sessions[i];
            let same_native = match &record.native {
                Some(n) => str_eq(n.as_str(), native),
                None => false,
            };
            if str_eq(record.provider.as_str(), provider) && same_native {
                proof {
                    lemma_first_merge_unique(self.sessions@, provider@, native@, i as int);
                }
                return Ok(Some(copy_string(&record.descriptor.session_id)));
            }
            i = i + 1;
        }
        assert(!exists|k: int| first_merge(self.sessions@, provider@, native@, k));
        Ok(None)
    }
}

// ---------------------------------------------------------------------------------------------
// Approved roots
// ---------------------------------------------------------------------------------------------
/// What the filesystem says of one approved root now: its canonical path and identity.
#[derive(Debug)]
pub struct RootObservation {
    pub canonical: String,
    pub identity: [u8; 24],
}

/// Whether one approved root still names the object it was approved as: it still resolves, to
/// exactly its approved path, with the approved identity.
pub open spec fn root_still_approved(row: IntegrationRootRow, seen: Option<RootObservation>) -> bool {
    seen matches Some(o) && o.canonical@ == row.path@ && o.identity@ == row.identity@
}

/// Revalidate every approved root before provider-supplied paths are filtered.
///
/// `observed[i]` is what canonicalizing the `i`th approved root and reading its identity gave,
/// `None` when either failed. A canonical path is absolute, so a root equal to its canonical form
/// is an absolute path too.
pub fn approved_roots(authority: &AuthorizedIntegration, observed: &Vec<Option<RootObservation>>) -> (r: Result<
    Vec<AuthorizedRoot>,
    RuntimeInventoryFailure,
>)
    requires
        observed@.len() == authority.roots@.len(),
    ensures
        match r {
            Ok(roots) => {
                &&& forall|i: int|
                    0 <= i < authority.roots@.len() ==> #[trigger] root_still_approved(
                        authority.roots@[i],
                        observed@[i],
                    )
                &&& roots@.len() == authority.roots@.len()
                &&& forall|i: int|
                    0 <= i < roots@.len() ==> #[trigger] roots@[i]@ == authority.roots@[i]@
            },
            Err(f) => f == RuntimeInventoryFailure::RootAuthorityChanged && exists|i: int|
                0 <= i < authority.roots@.len() && !#[trigger] root_still_approved(
                    authority.roots@[i],
                    observed@[i],
                ),
        },
{
    let mut roots: Vec<AuthorizedRoot> = Vec::new();
    let mut i: usize = 0;
    while i < authority.roots.len()
        invariant
            0 <= i <= authority.roots@.len(),
            observed@.len() == authority.roots@.len(),
            roots@.len() == i,
            forall|j: int|
                0 <= j < i ==> #[trigger] root_still_approved(authority.roots@[j], observed@[j]),
            forall|j: int| 0 <= j < i ==> #[trigger] roots@[j]@ == authority.roots@[j]@,
        decreases authority.roots@.len() - i,
    {
        let row = &authority.roots[i];
        let ok = match &observed[i] {
            Some(o) => str_eq(o.canonical.as_str(), row.path.as_str()) && crate::text::bytes_eq(
                &o.identity,
                &row.identity,
            ),
            None => false,
        };
        if !ok {
            assert(!root_still_approved(authority.roots@[i as int], observed@[i as int]));
            return Err(RuntimeInventoryFailure::RootAuthorityChanged);
        }
        roots.push(AuthorizedRoot { path: copy_string(&row.path), identity: row.identity });
        i = i + 1;
    }
    Ok(roots)
}

/// Resolve one caller-selected root only while every root still names its approved object and
/// one of them is exactly the requested path.
pub fn authorized_root(
    authority: &AuthorizedIntegration,
    observed: &Vec<Option<RootObservation>>,
    requested: &str,
) -> (r: Result<AuthorizedRoot, RuntimeInventoryFailure>)
    requires
        observed@.len() == authority.roots@.len(),
    ensures
        match r {
            Ok(root) => exists|i: int|
                0 <= i < authority.roots@.len() && root@ == authority.roots@[i]@ && authority.roots@[i].path@
                    == requested@,
            Err(f) => f == RuntimeInventoryFailure::RootAuthorityChanged,
        },
        r is Ok <==> (forall|i: int|
            0 <= i < authority.roots@.len() ==> #[trigger] root_still_approved(
                authority.roots@[i],
                observed@[i],
            )) && exists|i: int|
            0 <= i < authority.roots@.len() && #[trigger] authority.roots@[i].path@ == requested@,
{
    let roots = approved_roots(authority, observed)?;
    let mut i: usize = 0;
    while i < roots.len()
        invariant
            0 <= i <= roots@.len(),
            roots@.len() == authority.roots@.len(),
            observed@.len() == authority.roots@.len(),
            forall|j: int|
                0 <= j < authority.roots@.len() ==> #[trigger] root_still_approved(
                    authority.roots@[j],
                    observed@[j],
                ),
            forall|j: int| 0 <= j < roots@.len() ==> #[trigger] roots@[j]@ == authority.roots@[j]@,
            forall|j: int| 0 <= j < i ==> #[trigger] authority.roots@[j].path@ != requested@,
        decreases roots@.len() - i,
    {
        if str_eq(roots[i].path.as_str(), requested) {
            let root = AuthorizedRoot { path: copy_string(&roots[i].path), identity: roots[i].identity };
            assert(roots@[i as int]@ == authority.roots@[i as int]@);
            assert(authority.roots@[i as int].path@ == requested@);
            return Ok(root);
        }
        assert(roots@[i as int]@ == authority.roots@[i as int]@);
        i = i + 1;
    }
    Err(RuntimeInventoryFailure::RootAuthorityChanged)
}

} // verus!
