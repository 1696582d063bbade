//! When traces are exported, and what becomes of the exporter over a process's life.

use vstd::prelude::*;

use crate::propagation::text_of;
use crate::text::{ascii_lower, eq_ignore_ascii_case, lowered};

verus! {

/// The OpenTelemetry variables that decide on export, each with its value if it is set.
#[derive(Debug)]
pub struct ExportEnvironment {
    /// `OTEL_SDK_DISABLED`, if it holds text.
    pub sdk_disabled: Option<String>,
    /// `OTEL_TRACES_EXPORTER`, if it holds text.
    pub traces_exporter: Option<String>,
    /// `OTEL_EXPORTER_OTLP_TRACES_ENDPOINT`, as its bytes.
    pub traces_endpoint: Option<Vec<u8>>,
    /// `OTEL_EXPORTER_OTLP_ENDPOINT`, as its bytes.
    pub endpoint: Option<Vec<u8>>,
}

/// Whether an optional text is a given word, whatever its ASCII case.
pub open spec fn says(text: Option<Seq<char>>, word: Seq<char>) -> bool {
    text matches Some(text) && lowered(text) == word
}

/// Whether an endpoint variable names an endpoint.
pub open spec fn names_endpoint(value: Option<Vec<u8>>) -> bool {
    value matches Some(bytes) && bytes@.len() > 0
}

impl ExportEnvironment {
    /// Whether export was switched off by name.
    pub open spec fn switched_off(self) -> bool {
        says(text_of(self.sdk_disabled), "true"@) || says(text_of(self.traces_exporter), "none"@)
    }

    /// Whether an endpoint to export to is named.
    pub open spec fn has_endpoint(self) -> bool {
        names_endpoint(self.traces_endpoint) || names_endpoint(self.endpoint)
    }

    /// Whether traces are to be exported.
    pub open spec fn exports(self) -> bool {
        !self.switched_off() && self.has_endpoint()
    }
}

fn is_word(text: &Option<String>, word: &str) -> (res: bool)
    ensures
        res == says(text_of(*text), lowered(word@)),
{
    match text {
        Some(text) => eq_ignore_ascii_case(text.as_str(), word),
        None => false,
    }
}

fn is_endpoint(value: &Option<Vec<u8>>) -> (res: bool)
    ensures
        res == names_endpoint(*value),
{
    match value {
        Some(bytes) => bytes.len() > 0,
        None => false,
    }
}

/// Whether traces are to be exported: an endpoint is named and nothing switches export off.
pub fn export_is_configured(environment: &ExportEnvironment) -> (res: bool)
    ensures
        res == environment.exports(),
{
    proof {
        reveal_strlit("true");
        reveal_strlit("none");
        assert(lowered("true"@) =~= "true"@);
        assert(lowered("none"@) =~= "none"@);
    }
    if is_word(&environment.sdk_disabled, "true") || is_word(&environment.traces_exporter, "none") {
        return false;
    }
    is_endpoint(&environment.traces_endpoint) || is_endpoint(&environment.endpoint)
}

/// What to do when a registry asks for a tracer.
#[derive(Debug, PartialEq, Eq, Structural, Clone, Copy)]
pub enum InitStep {
    /// Give none: traces are not exported.
    Skip,
    /// Give one of the provider that the process has.
    Reuse,
    /// Build the process's provider and give one of it.
    Build,
}

/// The step that a registry's request calls for.
pub open spec fn init_step(exports: bool, provider_installed: bool) -> InitStep {
    if !exports {
        InitStep::Skip
    } else if provider_installed {
        InitStep::Reuse
    } else {
        InitStep::Build
    }
}

/// Decides what to do when a registry asks for a tracer.
pub fn initialize_if_configured(
    environment: &ExportEnvironment,
    provider_installed: bool,
) -> (res: InitStep)
    ensures
        res == init_step(environment.exports(), provider_installed),
{
    if !export_is_configured(environment) {
        return InitStep::Skip;
    }
    if provider_installed {
        return InitStep::Reuse;
    }
    InitStep::Build
}

/// How an attempt to flush queued spans ended.
#[derive(Debug, PartialEq, Eq, Structural, Clone, Copy)]
pub enum FlushOutcome {
    Flushed,
    ExportFailed,
    TaskFailed,
    TimedOut,
}

/// The warning that an attempt to flush calls for; a flush never fails its caller.
pub fn flush_best_effort(outcome: FlushOutcome) -> (res: Option<&'static str>)
    ensures
        match outcome {
            FlushOutcome::Flushed => res is None,
            FlushOutcome::ExportFailed => res matches Some(text) && text@
                == "failed to flush OpenTelemetry traces"@,
            FlushOutcome::TaskFailed => res matches Some(text) && text@
                == "OpenTelemetry flush task failed"@,
            FlushOutcome::TimedOut => res matches Some(text) && text@
                == "OpenTelemetry trace flush timed out"@,
        },
{
    match outcome {
        FlushOutcome::Flushed => None,
        FlushOutcome::ExportFailed => Some("failed to flush OpenTelemetry traces"),
        FlushOutcome::TaskFailed => Some("OpenTelemetry flush task failed"),
        FlushOutcome::TimedOut => Some("OpenTelemetry trace flush timed out"),
    }
}

/// Switching export off wins over any endpoint.
pub proof fn switching_off_wins(environment: ExportEnvironment, provider_installed: bool)
    requires
        environment.switched_off(),
    ensures
        init_step(environment.exports(), provider_installed) == InitStep::Skip,
{
}

/// How many providers a run of requests installs, where each request says whether traces are
/// exported and whether a provider could be built for it.
pub open spec fn installs(requests: Seq<(bool, bool)>, provider_installed: bool) -> nat
    decreases requests.len(),
{
    if requests.len() == 0 {
        0
    } else {
        let (exports, can_build) = requests.first();
        if init_step(exports, provider_installed) == InitStep::Build && can_build {
            1 + installs(requests.drop_first(), true)
        } else {
            installs(requests.drop_first(), provider_installed)
        }
    }
}

/// All registries of a process share one provider: whatever they request and in whatever order,
/// at most one is installed, and none beside one that is there.
pub proof fn one_provider_per_process(requests: Seq<(bool, bool)>, provider_installed: bool)
    ensures
        installs(requests, provider_installed) <= (if provider_installed {
            0nat
        } else {
            1nat
        }),
    decreases requests.len(),
{
    if requests.len() > 0 {
        one_provider_per_process(requests.drop_first(), true);
        one_provider_per_process(requests.drop_first(), provider_installed);
    }
}

/// Whether an optional text spells a word, where `lower` and `upper` are the word in both cases and
/// each character may have either.
pub open spec fn spells(text: Option<String>, lower: Seq<char>, upper: Seq<char>) -> bool {
    text matches Some(text) && text@.len() == lower.len() && forall|i: int|
        0 <= i < lower.len() ==> #[trigger] text@[i] == lower[i] || text@[i] == upper[i]
}

/// A text is a lowercase word but for its case exactly when each character is the word's, in
/// either case.
proof fn lemma_either_case(text: Seq<char>, lower: Seq<char>, upper: Seq<char>)
    requires
        upper.len() == lower.len(),
        forall|i: int|
            0 <= i < lower.len() ==> 'a' <= #[trigger] lower[i] <= 'z' && upper[i] as int + 32
                == lower[i] as int,
    ensures
        lowered(text) == lower <==> text.len() == lower.len() && forall|i: int|
            0 <= i < lower.len() ==> #[trigger] text[i] == lower[i] || text[i] == upper[i],
{
    if lowered(text) == lower {
        assert(lowered(text).len() == text.len());
        assert forall|i: int| 0 <= i < lower.len() implies #[trigger] text[i] == lower[i]
            || text[i] == upper[i] by {
            assert(lowered(text)[i] == ascii_lower(text[i]));
            assert('a' <= lower[i] <= 'z');
        }
    }
    if text.len() == lower.len() && forall|i: int|
        0 <= i < lower.len() ==> #[trigger] text[i] == lower[i] || text[i] == upper[i] {
        assert forall|i: int| 0 <= i < lower.len() implies lowered(text)[i] == lower[i] by {
            assert(text[i] == lower[i] || text[i] == upper[i]);
            assert('a' <= lower[i] <= 'z');
        }
        assert(lowered(text) =~= lower);
    }
}

/// Spelling a word in either case is what the variables are held against.
proof fn lemma_spells(text: Option<String>)
    ensures
        says(text_of(text), "true"@) <==> spells(text, "true"@, "TRUE"@),
        says(text_of(text), "none"@) <==> spells(text, "none"@, "NONE"@),
{
    reveal_strlit("true");
    reveal_strlit("TRUE");
    reveal_strlit("none");
    reveal_strlit("NONE");
    if let Some(text) = text {
        lemma_either_case(text@, "true"@, "TRUE"@);
        lemma_either_case(text@, "none"@, "NONE"@);
    }
}

/// Nothing is exported where the SDK is disabled, and nothing where the exporter is `none`, in
/// either case of each letter and whatever endpoints are named.
pub proof fn disabled_sdk_exports_nothing(environment: ExportEnvironment)
    requires
        spells(environment.sdk_disabled, "true"@, "TRUE"@) || spells(
            environment.traces_exporter,
            "none"@,
            "NONE"@,
        ),
    ensures
        !environment.exports(),
{
    lemma_spells(environment.sdk_disabled);
    lemma_spells(environment.traces_exporter);
}

/// Traces are exported as soon as one of the endpoint variables is not empty, unless the SDK is
/// disabled or the exporter is `none`.
pub proof fn one_endpoint_is_enough(environment: ExportEnvironment)
    requires
        !spells(environment.sdk_disabled, "true"@, "TRUE"@),
        !spells(environment.traces_exporter, "none"@, "NONE"@),
        (environment.traces_endpoint matches Some(bytes) && bytes@.len() > 0) || (
        environment.endpoint matches Some(bytes) && bytes@.len() > 0),
    ensures
        environment.exports(),
{
    lemma_spells(environment.sdk_disabled);
    lemma_spells(environment.traces_exporter);
}

/// Nothing is exported where neither endpoint variable holds anything.
pub proof fn no_endpoint_exports_nothing(environment: ExportEnvironment)
    requires
        environment.traces_endpoint matches Some(bytes) ==> bytes@.len() == 0,
        environment.endpoint matches Some(bytes) ==> bytes@.len() == 0,
    ensures
        !environment.exports(),
{
}

/// A registry gets a tracer exactly when traces are exported: of the provider that is there, or of
/// a new one where there is none.
pub proof fn registries_get_a_tracer_when_exporting(exports: bool, provider_installed: bool)
    ensures
        init_step(exports, provider_installed) == InitStep::Skip <==> !exports,
        init_step(exports, provider_installed) == InitStep::Reuse ==> provider_installed,
        init_step(exports, provider_installed) == InitStep::Build ==> !provider_installed,
{
}

} // verus!
