//! Model and mode selections: whether a choice is present in the provider's current catalogue,
//! the transport bounds a selection must meet, and the manifest's mode boundary.

use vstd::prelude::*;

use vstd::utf8::encode_utf8;

use crate::control::RuntimeControlFailure;
use crate::kinds::ErrorKind;
use crate::text::{contains_control, has_control, str_eq};

verus! {

/// Longest model selection a session open accepts.
pub const MAX_MODEL_SELECTION_BYTES: usize = 256;
/// Longest reasoning selection a session open accepts.
pub const MAX_REASONING_SELECTION_BYTES: usize = 64;
/// Longest permission selection a session open accepts.
pub const MAX_PERMISSION_SELECTION_BYTES: usize = 64;

/// One reasoning effort a provider offers.
#[derive(Debug)]
pub struct ReasoningChoice {
    pub id: String,
    pub description: String,
}

/// One model a provider offers, with the efforts it takes.
#[derive(Debug)]
pub struct ModelChoice {
    pub id: String,
    pub display_name: String,
    pub description: String,
    pub is_default: bool,
    pub reasoning_efforts: Vec<ReasoningChoice>,
}

/// What a provider says about the models it offers.
#[derive(Debug)]
pub enum ModelCatalog {
    /// The exact model list.
    Known { models: Vec<ModelChoice> },
    /// Only aliases, with efforts that apply to any of them.
    Aliases { aliases: Vec<String>, reasoning_efforts: Vec<ReasoningChoice>, why: String },
    /// Some aliases and models, and efforts that apply to the aliases.
    Partial {
        aliases: Vec<String>,
        models: Vec<ModelChoice>,
        reasoning_efforts: Vec<ReasoningChoice>,
        why: String,
    },
    Unknown { why: String },
    Unsupported { why: String },
    /// A coverage this build has no name for.
    Unrecognized,
}

pub open spec fn has_model(models: Seq<ModelChoice>, id: Seq<char>) -> bool {
    exists|i: int| 0 <= i < models.len() && #[trigger] models[i].id@ == id
}

pub open spec fn has_alias(aliases: Seq<String>, id: Seq<char>) -> bool {
    exists|i: int| 0 <= i < aliases.len() && #[trigger] aliases[i]@ == id
}

pub open spec fn has_effort(efforts: Seq<ReasoningChoice>, id: Seq<char>) -> bool {
    exists|i: int| 0 <= i < efforts.len() && #[trigger] efforts[i].id@ == id
}

/// Whether a model selection is present in the provider's current catalogue.
pub open spec fn model_current(catalogue: ModelCatalog, selected: Seq<char>) -> bool {
    match catalogue {
        ModelCatalog::Known { models } => has_model(models@, selected),
        ModelCatalog::Aliases { aliases, .. } => has_alias(aliases@, selected),
        ModelCatalog::Partial { aliases, models, .. } => has_alias(aliases@, selected) || has_model(
            models@,
            selected,
        ),
        _ => false,
    }
}

fn find_model(models: &Vec<ModelChoice>, selected: &str) -> (r: Option<usize>)
    ensures
        match r {
            Some(i) => first_model(models@, selected@, i as int),
            None => !has_model(models@, selected@),
        },
{
    let mut i: usize = 0;
    while i < models.len()
        invariant
            0 <= i <= models@.len(),
            forall|j: int| 0 <= j < i ==> #[trigger] models@[j].id@ != selected@,
        decreases models@.len() - i,
    {
        if str_eq(models[i].id.as_str(), selected) {
            return Some(i);
        }
        i = i + 1;
    }
    None
}

fn any_alias(aliases: &Vec<String>, selected: &str) -> (r: bool)
    ensures
        r == has_alias(aliases@, selected@),
{
    let mut i: usize = 0;
    while i < aliases.len()
        invariant
            0 <= i <= aliases@.len(),
            forall|j: int| 0 <= j < i ==> #[trigger] aliases@[j]@ != selected@,
        decreases aliases@.len() - i,
    {
        if str_eq(aliases[i].as_str(), selected) {
            return true;
        }
        i = i + 1;
    }
    false
}

fn any_effort(efforts: &Vec<ReasoningChoice>, selected: &str) -> (r: bool)
    ensures
        r == has_effort(efforts@, selected@),
{
    let mut i: usize = 0;
    while i < efforts.len()
        invariant
            0 <= i <= efforts@.len(),
            forall|j: int| 0 <= j < i ==> #[trigger] efforts@[j].id@ != selected@,
        decreases efforts@.len() - i,
    {
        if str_eq(efforts[i].id.as_str(), selected) {
            return true;
        }
        i = i + 1;
    }
    false
}

/// Whether a model selection is present in the provider's current catalogue.
pub fn model_is_current(catalogue: &ModelCatalog, selected: &str) -> (r: bool)
    ensures
        r == model_current(*catalogue, selected@),
{
    match catalogue {
        ModelCatalog::Known { models } => find_model(models, selected).is_some(),
        ModelCatalog::Aliases { aliases, .. } => any_alias(aliases, selected),
        ModelCatalog::Partial { aliases, models, .. } => any_alias(aliases, selected) || find_model(
            models,
            selected,
        ).is_some(),
        _ => false,
    }
}

/// Whether `i` is the first model with this identity.
pub open spec fn first_model(models: Seq<ModelChoice>, selected: Seq<char>, i: int) -> bool {
    &&& 0 <= i < models.len()
    &&& models[i].id@ == selected
    &&& forall|j: int| 0 <= j < i ==> #[trigger] models[j].id@ != selected
}

/// The efforts the first model with this identity takes, if any model has it.
pub open spec fn efforts_of(models: Seq<ModelChoice>, selected: Seq<char>) -> Option<Seq<ReasoningChoice>> {
    if exists|i: int| first_model(models, selected, i) {
        Some(models[choose|i: int| first_model(models, selected, i)].reasoning_efforts@)
    } else {
        None
    }
}

proof fn lemma_first_model_unique(models: Seq<ModelChoice>, selected: Seq<char>, i: int)
    requires
        first_model(models, selected, i),
    ensures
        efforts_of(models, selected) == Some(models[i].reasoning_efforts@),
{
    let c = choose|k: int| first_model(models, selected, k);
    if c < i {
        assert(models[c].id@ != selected);
    } else if c > i {
        assert(models[i].id@ != selected);
    }
}

/// Whether a reasoning effort selection is present in the provider's current catalogue.
///
/// A selected model that lists its own efforts is judged by those alone; otherwise the
/// catalogue's shared efforts decide, and a catalogue with none accepts no effort.
pub open spec fn effort_current(catalogue: ModelCatalog, selected_model: Option<Seq<char>>, effort: Seq<char>) -> bool {
    let model_efforts = match (catalogue, selected_model) {
        (ModelCatalog::Known { models }, Some(m)) => efforts_of(models@, m),
        (ModelCatalog::Partial { models, .. }, Some(m)) => efforts_of(models@, m),
        _ => None,
    };
    if model_efforts matches Some(e) && e.len() > 0 {
        has_effort(model_efforts->Some_0, effort)
    } else {
        match catalogue {
            ModelCatalog::Aliases { reasoning_efforts, .. } => has_effort(reasoning_efforts@, effort),
            ModelCatalog::Partial { reasoning_efforts, .. } => has_effort(reasoning_efforts@, effort),
            _ => false,
        }
    }
}

/// Whether a reasoning effort selection is present in the provider's current catalogue.
pub fn reasoning_effort_is_current(
    catalogue: &ModelCatalog,
    selected_model: Option<&str>,
    selected_effort: &str,
) -> (r: bool)
    ensures
        r == effort_current(
            *catalogue,
            match selected_model {
                Some(m) => Some(m@),
                None => None,
            },
            selected_effort@,
        ),
{
    let models = match catalogue {
        ModelCatalog::Known { models } => Some(models),
        ModelCatalog::Partial { models, .. } => Some(models),
        _ => None,
    };
    let model_efforts: Option<&Vec<ReasoningChoice>> = match (models, selected_model) {
        (Some(models), Some(selected)) => match find_model(models, selected) {
            Some(i) => {
                proof {
                    lemma_first_model_unique(models@, selected@, i as int);
                }
                Some(&models[i].reasoning_efforts)
            },
            None => None,
        },
        _ => None,
    };
    if let Some(efforts) = model_efforts {
        if efforts.len() > 0 {
            return any_effort(efforts, selected_effort);
        }
    }
    match catalogue {
        ModelCatalog::Aliases { reasoning_efforts, .. } => any_effort(reasoning_efforts, selected_effort),
        ModelCatalog::Partial { reasoning_efforts, .. } => any_effort(reasoning_efforts, selected_effort),
        _ => false,
    }
}

/// The public form of a catalogue: unchanged, except that coverage this build cannot name is
/// reported as unknown.
pub fn model_catalogue(catalogue: ModelCatalog) -> (r: ModelCatalog)
    ensures
        !(catalogue is Unrecognized) ==> r == catalogue,
        catalogue is Unrecognized ==> (r matches ModelCatalog::Unknown { why } && why@
            == "the provider returned catalogue coverage unsupported by this Runtime"@),
{
    match catalogue {
        ModelCatalog::Unrecognized => ModelCatalog::Unknown {
            why: "the provider returned catalogue coverage unsupported by this Runtime".to_owned(),
        },
        other => other,
    }
}

// ---------------------------------------------------------------------------------------------
// Selections at open
// ---------------------------------------------------------------------------------------------
/// A selection that is present, within its byte limit and free of control characters.
pub open spec fn selection_usable(value: Seq<char>, limit: nat) -> bool {
    encode_utf8(value).len() > 0 && encode_utf8(value).len() <= limit && !has_control(value)
}

fn check_selection(value: String, limit: usize, message: &'static str) -> (r: Result<
    String,
    RuntimeControlFailure,
>)
    ensures
        selection_usable(value@, limit as nat) ==> r == Ok::<String, RuntimeControlFailure>(value),
        !selection_usable(value@, limit as nat) ==> (r matches Err(f) && f.kind
            == ErrorKind::InvalidRequest && f.message == message),
{
    let length = value.as_str().as_bytes().len();
    if length == 0 || length > limit || contains_control(value.as_str()) {
        return Err(RuntimeControlFailure::new(ErrorKind::InvalidRequest, message));
    }
    Ok(value)
}

/// A model selection an open carries.
pub fn validate_model_selection(value: String) -> (r: Result<String, RuntimeControlFailure>)
    ensures
        selection_usable(value@, MAX_MODEL_SELECTION_BYTES as nat) ==> r == Ok::<
            String,
            RuntimeControlFailure,
        >(value),
        !selection_usable(value@, MAX_MODEL_SELECTION_BYTES as nat) ==> (r matches Err(f) && f.kind
            == ErrorKind::InvalidRequest && f.message@
            == "the model selection is empty, oversized, or invalid"@),
{
    check_selection(value, MAX_MODEL_SELECTION_BYTES, "the model selection is empty, oversized, or invalid")
}

/// A reasoning selection an open carries.
pub fn validate_reasoning_selection(value: String) -> (r: Result<String, RuntimeControlFailure>)
    ensures
        selection_usable(value@, MAX_REASONING_SELECTION_BYTES as nat) ==> r == Ok::<
            String,
            RuntimeControlFailure,
        >(value),
        !selection_usable(value@, MAX_REASONING_SELECTION_BYTES as nat) ==> (r matches Err(f)
            && f.kind == ErrorKind::InvalidRequest && f.message@
            == "the reasoning selection is empty, oversized, or invalid"@),
{
    check_selection(
        value,
        MAX_REASONING_SELECTION_BYTES,
        "the reasoning selection is empty, oversized, or invalid",
    )
}

/// A permission selection an open carries.
pub fn validate_permission_selection(value: String) -> (r: Result<String, RuntimeControlFailure>)
    ensures
        selection_usable(value@, MAX_PERMISSION_SELECTION_BYTES as nat) ==> r == Ok::<
            String,
            RuntimeControlFailure,
        >(value),
        !selection_usable(value@, MAX_PERMISSION_SELECTION_BYTES as nat) ==> (r matches Err(f)
            && f.kind == ErrorKind::InvalidRequest && f.message@
            == "the permission selection is empty, oversized, or invalid"@),
{
    check_selection(
        value,
        MAX_PERMISSION_SELECTION_BYTES,
        "the permission selection is empty, oversized, or invalid",
    )
}

// ---------------------------------------------------------------------------------------------
// Modes
// ---------------------------------------------------------------------------------------------
/// Whether a mode may be switched to under a provider's manifest: an empty switchable list
/// defers to the driver's per-session announcement, a non-empty one is the whole boundary.
pub open spec fn mode_allowed(switchable: Seq<String>, mode: Seq<char>) -> bool {
    switchable.len() == 0 || has_alias(switchable, mode)
}

/// The manifest half of the mode boundary, shared by switching and by starting at a mode.
///
/// `switchable` is the registered provider's list of switchable modes, `None` when the provider
/// is not registered in this build.
pub fn mode_within_manifest_vocabulary(switchable: Option<&Vec<String>>, mode: &str) -> (r: Result<
    (),
    &'static str,
>)
    ensures
        match switchable {
            None => r matches Err(m) && m@ == "the session's provider is not registered in this build"@,
            Some(list) => if mode_allowed(list@, mode@) {
                r is Ok
            } else {
                r matches Err(m) && m@ == "this provider does not accept a runtrol switch to that mode"@
            },
        },
{
    let switchable = match switchable {
        Some(list) => list,
        None => return Err("the session's provider is not registered in this build"),
    };
    if switchable.len() == 0 || any_alias(switchable, mode) {
        return Ok(());
    }
    Err("this provider does not accept a runtrol switch to that mode")
}

/// The mode boundary for a live session, whose provider must be known.
pub fn mode_within_provider_vocabulary(
    provider_known: bool,
    switchable: Option<&Vec<String>>,
    mode: &str,
) -> (r: Result<(), &'static str>)
    ensures
        !provider_known ==> (r matches Err(m) && m@
            == "the session's provider cannot be identified for a mode switch"@),
        provider_known ==> match switchable {
            None => r matches Err(m) && m@ == "the session's provider is not registered in this build"@,
            Some(list) => if mode_allowed(list@, mode@) {
                r is Ok
            } else {
                r matches Err(m) && m@ == "this provider does not accept a runtrol switch to that mode"@
            },
        },
{
    if !provider_known {
        return Err("the session's provider cannot be identified for a mode switch");
    }
    mode_within_manifest_vocabulary(switchable, mode)
}

/// A selection is current exactly when the provider's current catalogue lists it: with an exact
/// model list, when some listed model has that id; with aliases only, when some alias is it; with
/// a partial catalogue, when either lists it; never when the catalogue is unknown, unsupported,
/// or of a coverage this build has no name for. In particular every model of an exact list is
/// current.
pub proof fn lemma_current_means_listed(catalogue: ModelCatalog, selected: Seq<char>)
    ensures
        match catalogue {
            ModelCatalog::Known { models } => {
                &&& model_current(catalogue, selected) <==> exists|i: int|
                    0 <= i < models@.len() && models@[i].id@ == selected
                &&& forall|i: int|
                    0 <= i < models@.len() ==> #[trigger] model_current(
                        ModelCatalog::Known { models },
                        models@[i].id@,
                    )
            },
            ModelCatalog::Aliases { aliases, .. } => model_current(catalogue, selected) <==> exists|i: int|
                0 <= i < aliases@.len() && aliases@[i]@ == selected,
            ModelCatalog::Partial { aliases, models, .. } => model_current(catalogue, selected) <==> (
            exists|i: int| 0 <= i < aliases@.len() && aliases@[i]@ == selected) || (exists|i: int|
                0 <= i < models@.len() && models@[i].id@ == selected),
            _ => !model_current(catalogue, selected),
        },
{
    match catalogue {
        ModelCatalog::Known { models } => {
            assert forall|i: int| 0 <= i < models@.len() implies #[trigger] model_current(
                ModelCatalog::Known { models },
                models@[i].id@,
            ) by {
                assert(models@[i].id@ == models@[i].id@);
            }
        },
        _ => {},
    }
}

} // verus!
