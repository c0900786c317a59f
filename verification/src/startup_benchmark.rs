//! Reports of start-up benchmarks, and the suite that runs them in processes of
//! their own.
use vstd::prelude::*;

use crate::clock::Duration;
use crate::paths::{AppPath, PathPart};
use crate::text::{push_decimal, same_text};

verus! {

pub const OUTPUT_ENV: &'static str = "TERRA_STARTUP_BENCH_OUTPUT";

pub const PROFILE_ENV: &'static str = "TERRA_STARTUP_BENCH_PROFILE";

pub const RUN_KIND_ENV: &'static str = "TERRA_STARTUP_BENCH_RUN_KIND";

pub const REPORT_SCHEMA_VERSION: u32 = 1;

pub const SUITE_SCHEMA_VERSION: u32 = 2;

pub const COLD_WARM_DEFINITION: &'static str = "cold is a fresh child process with an empty benchmark-owned Terra pipeline-cache directory; warm is the immediately following fresh child using the cache saved by cold. Blob-loaded means Terra supplied validated bytes to wgpu, not that the driver reported a hit.";

/// How long a child may run by default, in seconds.
pub const DEFAULT_TIMEOUT_SECS: u64 = 900;

/// One measured start.
#[derive(Debug)]
pub struct StartupBenchmarkReport {
    pub schema_version: u32,
    pub profile: String,
    pub run_kind: String,
    pub pid: u32,
    pub generation: u64,
    pub app_version: String,
    pub success: bool,
    pub error: Option<String>,
    pub adapter: AdapterReport,
    pub pipeline_cache: PipelineCacheReport,
    pub boot_duration_ms: u64,
    pub dominant_pipeline: Option<PipelineReport>,
    pub pipelines: Vec<PipelineReport>,
}

/// The graphics adapter that was measured on.
#[derive(Debug)]
pub struct AdapterReport {
    pub name: String,
    pub vendor: u32,
    pub device: u32,
    pub device_type: String,
    pub backend: String,
    pub driver: String,
    pub driver_info: String,
    pub downlevel_shader_model: String,
    pub pipeline_cache_supported: bool,
    pub pipeline_cache_enabled: bool,
}

/// What the pipeline cache did.
#[derive(Debug)]
pub struct PipelineCacheReport {
    pub blob_status: String,
    pub save_result: String,
}

/// One compiled pipeline.
#[derive(Debug)]
pub struct PipelineReport {
    pub kind: String,
    pub label: String,
    pub status: String,
    pub started_ms: u64,
    pub duration_ms: u64,
}

/// A cold run against the warm one that followed it.
#[derive(Debug)]
pub struct StartupBenchmarkComparison {
    pub profile: String,
    pub cold_ms: u64,
    pub warm_ms: u64,
    pub speedup_ms: i64,
}

/// All runs of a suite.
#[derive(Debug)]
pub struct StartupBenchmarkSuite {
    pub schema_version: u32,
    pub cold_warm_definition: String,
    pub comparisons: Vec<StartupBenchmarkComparison>,
    pub reports: Vec<StartupBenchmarkReport>,
}

impl AdapterReport {
    /// Nothing is known of the adapter.
    pub open spec fn is_blank(self) -> bool {
        &&& self.name@ == ""@
        &&& self.vendor == 0
        &&& self.device == 0
        &&& self.device_type@ == ""@
        &&& self.backend@ == ""@
        &&& self.driver@ == ""@
        &&& self.driver_info@ == ""@
        &&& self.downlevel_shader_model@ == ""@
        &&& !self.pipeline_cache_supported
        &&& !self.pipeline_cache_enabled
    }
}

impl Default for AdapterReport {
    fn default() -> (r: Self)
        ensures
            r.is_blank(),
    {
        AdapterReport {
            name: "".to_owned(),
            vendor: 0,
            device: 0,
            device_type: "".to_owned(),
            backend: "".to_owned(),
            driver: "".to_owned(),
            driver_info: "".to_owned(),
            downlevel_shader_model: "".to_owned(),
            pipeline_cache_supported: false,
            pipeline_cache_enabled: false,
        }
    }
}

/// A report was asked for: the environment names a file for it, be the name
/// empty.
pub open spec fn requested(output: Option<AppPath>) -> bool {
    output is Some
}

/// Whether the process was asked for a report.
pub fn is_requested(output: Option<&AppPath>) -> (r: bool)
    ensures
        r == requested(
            match output {
                Some(path) => Some(*path),
                None => None,
            },
        ),
{
    output.is_some()
}

/// What writing a report does next.
#[derive(Debug)]
pub enum ReportStep {
    /// Whether a report was written, or why it could not be.
    Finished(Result<bool, String>),
    Serialize,
    /// Create the directory of the file, where it has one.
    CreateDirectory,
    Write,
}

/// Work on a report that has come to an end.
#[derive(Debug, Clone, Copy, PartialEq, Eq, Structural)]
pub enum ReportStage {
    Serialize,
    CreateDirectory,
    Write,
}

impl ReportStep {
    /// Where writing starts. Without a request there is nothing to write, which
    /// is no failure.
    pub open spec fn first(output: Option<AppPath>) -> ReportStep {
        if requested(output) {
            ReportStep::Serialize
        } else {
            ReportStep::Finished(Ok(false))
        }
    }

    /// What a failed stage is reported as. `shown` is the path of the file.
    pub open spec fn failure(stage: ReportStage, shown: Seq<char>, error: Seq<char>) -> Seq<char> {
        match stage {
            ReportStage::Serialize => "serialize startup benchmark report: "@ + error,
            ReportStage::CreateDirectory => "create benchmark output directory: "@ + error,
            ReportStage::Write => "write benchmark report "@ + shown + ": "@ + error,
        }
    }

    /// What follows a stage: the stages go in order, and the first that fails is
    /// the last.
    pub open spec fn follows(
        stage: ReportStage,
        shown: Seq<char>,
        outcome: Result<(), String>,
        next: ReportStep,
    ) -> bool {
        match outcome {
            Err(error) => next matches ReportStep::Finished(Err(text)) && text@ == Self::failure(
                stage,
                shown,
                error@,
            ),
            Ok(_) => next == match stage {
                ReportStage::Serialize => ReportStep::CreateDirectory,
                ReportStage::CreateDirectory => ReportStep::Write,
                ReportStage::Write => ReportStep::Finished(Ok(true)),
            },
        }
    }

    /// Starts on the requested report.
    pub fn begin(output: Option<&AppPath>) -> (r: Self)
        ensures
            r == Self::first(
                match output {
                    Some(path) => Some(*path),
                    None => None,
                },
            ),
    {
        if is_requested(output) {
            ReportStep::Serialize
        } else {
            ReportStep::Finished(Ok(false))
        }
    }

    /// Goes on after a stage.
    pub fn after(stage: ReportStage, shown: &str, outcome: Result<(), String>) -> (r: Self)
        ensures
            Self::follows(stage, shown@, outcome, r),
    {
        match outcome {
            Ok(()) => match stage {
                ReportStage::Serialize => ReportStep::CreateDirectory,
                ReportStage::CreateDirectory => ReportStep::Write,
                ReportStage::Write => ReportStep::Finished(Ok(true)),
            },
            Err(error) => {
                let mut text;
                match stage {
                    ReportStage::Serialize => {
                        text = "serialize startup benchmark report: ".to_owned();
                    },
                    ReportStage::CreateDirectory => {
                        text = "create benchmark output directory: ".to_owned();
                    },
                    ReportStage::Write => {
                        text = "write benchmark report ".to_owned();
                        text.append(shown);
                        text.append(": ");
                    },
                }
                text.append(error.as_str());
                ReportStep::Finished(Err(text))
            },
        }
    }
}

/// A report is written where one was asked for and nowhere else: without a
/// request nothing is done and nothing has failed, with one no stage is left out.
pub proof fn only_requested_reports_are_written(
    output: Option<AppPath>,
    shown: Seq<char>,
    next: ReportStep,
)
    ensures
        ReportStep::first(output) == ReportStep::Finished(Ok(false)) <==> !requested(output),
        requested(output) ==> ReportStep::first(output) is Serialize,
        ReportStep::follows(ReportStage::Serialize, shown, Ok(()), next)
            ==> next is CreateDirectory,
        ReportStep::follows(ReportStage::CreateDirectory, shown, Ok(()), next) ==> next is Write,
        ReportStep::follows(ReportStage::Write, shown, Ok(()), next) ==> next
            == ReportStep::Finished(Ok(true)),
{
}

/// One compilation as telemetry recorded it.
#[derive(Debug)]
pub struct CompilationRecord {
    pub kind: String,
    /// The kind is a pipeline, not a shader module or a cache.
    pub is_pipeline: bool,
    pub label: String,
    pub status: String,
    pub started_after_reset: Duration,
    pub duration: Duration,
}

/// Whole milliseconds, capped at the largest number.
pub open spec fn capped_millis(duration: Duration) -> u64 {
    if duration.nanos as int / 1_000_000 <= u64::MAX {
        (duration.nanos as int / 1_000_000) as u64
    } else {
        u64::MAX
    }
}

pub fn millis(duration: Duration) -> (r: u64)
    ensures
        r == capped_millis(duration),
{
    let whole: u128 = duration.as_millis();
    if whole <= u64::MAX as u128 {
        whole as u64
    } else {
        u64::MAX
    }
}

/// What a report says of a compilation.
pub open spec fn reported(record: CompilationRecord) -> PipelineReport {
    PipelineReport {
        kind: record.kind,
        label: record.label,
        status: record.status,
        started_ms: capped_millis(record.started_after_reset),
        duration_ms: capped_millis(record.duration),
    }
}

pub fn pipeline_report(record: &CompilationRecord) -> (r: PipelineReport)
    ensures
        r == reported(*record),
{
    PipelineReport {
        kind: record.kind.clone(),
        label: record.label.clone(),
        status: record.status.clone(),
        started_ms: millis(record.started_after_reset),
        duration_ms: millis(record.duration),
    }
}

/// The pipelines among the records, as they are reported.
pub open spec fn reported_pipelines(records: Seq<CompilationRecord>) -> Seq<PipelineReport> {
    records.filter(|record: CompilationRecord| record.is_pipeline).map_values(
        |record: CompilationRecord| reported(record),
    )
}

fn pipeline_reports(records: &Vec<CompilationRecord>) -> (r: Vec<PipelineReport>)
    ensures
        r@ == reported_pipelines(records@),
{
    let mut reports: Vec<PipelineReport> = Vec::new();
    let mut i: usize = 0;
    proof {
        reveal(Seq::filter);
        assert(records@.take(0) =~= Seq::<CompilationRecord>::empty());
        assert(reports@ =~= reported_pipelines(records@.take(0)));
    }
    while i < records.len()
        invariant
            i <= records@.len(),
            reports@ == reported_pipelines(records@.take(i as int)),
        decreases records@.len() - i,
    {
        proof {
            reveal(Seq::filter);
            assert(records@.take(i + 1).drop_last() =~= records@.take(i as int));
            assert(records@.take(i + 1).last() == records@[i as int]);
        }
        if records[i].is_pipeline {
            reports.push(pipeline_report(&records[i]));
        }
        i += 1;
        assert(reports@ =~= reported_pipelines(records@.take(i as int)));
    }
    assert(records@.take(i as int) =~= records@);
    reports
}

/// Where and as what a process runs.
#[derive(Debug)]
pub struct RunIdentity {
    pub profile: Option<String>,
    pub run_kind: Option<String>,
    pub pid: u32,
    pub app_version: String,
}

/// A name, or `unknown`.
pub open spec fn named(name: Option<String>) -> Seq<char> {
    match name {
        Some(name) => name@,
        None => "unknown"@,
    }
}

fn name_or_unknown(name: Option<String>) -> (r: String)
    ensures
        r@ == named(name),
{
    match name {
        Some(name) => name,
        None => "unknown".to_owned(),
    }
}

/// Builds the report of this process. It is a success exactly where there is no
/// error.
pub fn startup_report(
    run: RunIdentity,
    adapter: Option<AdapterReport>,
    pipeline_cache: PipelineCacheReport,
    records: &Vec<CompilationRecord>,
    dominant: Option<&CompilationRecord>,
    generation: u64,
    elapsed: Duration,
    error: Option<String>,
) -> (r: StartupBenchmarkReport)
    ensures
        r.schema_version == 1,
        r.profile@ == named(run.profile),
        r.run_kind@ == named(run.run_kind),
        r.pid == run.pid,
        r.generation == generation,
        r.app_version == run.app_version,
        r.success == (error is None),
        r.error == error,
        adapter matches Some(adapter) ==> r.adapter == adapter,
        adapter is None ==> r.adapter.is_blank(),
        r.pipeline_cache == pipeline_cache,
        r.boot_duration_ms == capped_millis(elapsed),
        r.dominant_pipeline == match dominant {
            Some(record) => Some(reported(*record)),
            None => None,
        },
        r.pipelines@ == reported_pipelines(records@),
{
    let adapter = match adapter {
        Some(adapter) => adapter,
        None => AdapterReport::default(),
    };
    let dominant_pipeline = match dominant {
        Some(record) => Some(pipeline_report(record)),
        None => None,
    };
    StartupBenchmarkReport {
        schema_version: REPORT_SCHEMA_VERSION,
        profile: name_or_unknown(run.profile),
        run_kind: name_or_unknown(run.run_kind),
        pid: run.pid,
        generation,
        app_version: run.app_version,
        success: error.is_none(),
        error,
        adapter,
        pipeline_cache,
        boot_duration_ms: millis(elapsed),
        dominant_pipeline,
        pipelines: pipeline_reports(records),
    }
}

/// The directory that has to exist before `path` is written: its parent, unless
/// that is the current directory.
pub fn directory_to_create(path: &AppPath) -> (r: Option<AppPath>)
    ensures
        match r {
            Some(parent) => {
                &&& path@.len() > 1
                &&& !(path@.last() is Root)
                &&& !(path@.last() is Prefix)
                &&& parent@ == path@.drop_last()
            },
            None => path@.len() <= 1 || path@.last() is Root || path@.last() is Prefix,
        },
{
    match path.parent() {
        Some(parent) => {
            assert(parent@.len() == parent.parts@.len());
            if parent.parts.len() > 0 {
                Some(parent)
            } else {
                None
            }
        },
        None => None,
    }
}

/// The directory of the caches of a suite: a sibling of its output, named after
/// it. The output has to name a file.
pub fn benchmark_cache_root(output: &AppPath) -> (r: Result<AppPath, String>)
    ensures
        match crate::paths::last_name(output@) {
            Some(name) if name != ""@ && name != "."@ && name != ".."@ => {
                let beside = if output@.len() == 1 {
                    seq![crate::paths::Part::Current]
                } else {
                    output@.drop_last()
                };
                r matches Ok(root) && root@ == beside.push(
                    crate::paths::Part::Normal(name + ".pipeline-cache"@),
                )
            },
            _ => r matches Err(error) && error@
                == "--output must name a file, not a directory or filesystem root"@,
        },
{
    let name = match output.file_name() {
        Some(name) => name,
        None => {
            return Err("--output must name a file, not a directory or filesystem root".to_owned());
        },
    };
    if same_text(name.as_str(), "") || same_text(name.as_str(), ".") || same_text(
        name.as_str(),
        "..",
    ) {
        return Err("--output must name a file, not a directory or filesystem root".to_owned());
    }
    let mut cache = name.clone();
    cache.append(".pipeline-cache");
    let beside = match directory_to_create(output) {
        Some(parent) => parent,
        None => {
            let mut parts: Vec<PathPart> = Vec::new();
            parts.push(PathPart::Current);
            let here = AppPath { parts };
            assert(here@ =~= seq![crate::paths::Part::Current]);
            here
        },
    };
    Ok(beside.join(cache.as_str()))
}

/// The report file of one child: beside the suite's output, by profile and kind.
pub fn child_output(output: &AppPath, profile: &str, run_kind: &str) -> (r: AppPath)
    ensures
        match crate::paths::last_name(output@) {
            Some(name) => r@ == output@.drop_last().push(
                crate::paths::Part::Normal(
                    crate::paths::stem_of(name) + "."@ + (profile@ + "-"@ + run_kind@
                        + ".child.json"@),
                ),
            ),
            None => r@ == output@,
        },
{
    let mut extension = profile.to_owned();
    extension.append("-");
    extension.append(run_kind);
    extension.append(".child.json");
    output.with_extension(extension.as_str())
}

/// What is wrong with a cold run and the warm one after it.
#[derive(Debug, Clone, Copy, PartialEq, Eq, Structural)]
pub enum CacheFault {
    /// The cold run found a cache.
    ColdStatus,
    ColdNotSaved,
    /// The warm run did not load what the cold one saved.
    WarmStatus,
    WarmNotSaved,
    /// A backend without a cache reported one.
    Unsupported,
}

/// The first fault of a pair, if it has one.
pub open spec fn pair_fault(
    enabled: bool,
    cold: PipelineCacheReport,
    warm: PipelineCacheReport,
) -> Option<CacheFault> {
    if enabled {
        if cold.blob_status@ != "miss"@ {
            Some(CacheFault::ColdStatus)
        } else if cold.save_result@ != "saved"@ {
            Some(CacheFault::ColdNotSaved)
        } else if warm.blob_status@ != "blob-loaded"@ {
            Some(CacheFault::WarmStatus)
        } else if warm.save_result@ != "saved"@ {
            Some(CacheFault::WarmNotSaved)
        } else {
            None
        }
    } else if cold.blob_status@ != "unsupported"@ || warm.blob_status@ != "unsupported"@ {
        Some(CacheFault::Unsupported)
    } else {
        None
    }
}

pub fn cache_pair_fault(cold: &StartupBenchmarkReport, warm: &StartupBenchmarkReport) -> (r: Option<
    CacheFault,
>)
    ensures
        r == pair_fault(
            cold.adapter.pipeline_cache_enabled,
            cold.pipeline_cache,
            warm.pipeline_cache,
        ),
{
    if cold.adapter.pipeline_cache_enabled {
        if !same_text(cold.pipeline_cache.blob_status.as_str(), "miss") {
            Some(CacheFault::ColdStatus)
        } else if !same_text(cold.pipeline_cache.save_result.as_str(), "saved") {
            Some(CacheFault::ColdNotSaved)
        } else if !same_text(warm.pipeline_cache.blob_status.as_str(), "blob-loaded") {
            Some(CacheFault::WarmStatus)
        } else if !same_text(warm.pipeline_cache.save_result.as_str(), "saved") {
            Some(CacheFault::WarmNotSaved)
        } else {
            None
        }
    } else if !same_text(cold.pipeline_cache.blob_status.as_str(), "unsupported") || !same_text(
        warm.pipeline_cache.blob_status.as_str(),
        "unsupported",
    ) {
        Some(CacheFault::Unsupported)
    } else {
        None
    }
}

impl CacheFault {
    /// The fault in words, with the offending value as it is shown.
    pub open spec fn words(self, shown: Seq<char>) -> Seq<char> {
        match self {
            CacheFault::ColdStatus => "supported cold run reported cache status "@ + shown,
            CacheFault::ColdNotSaved => "supported cold run did not save cache data: "@ + shown,
            CacheFault::WarmStatus => "supported warm run did not load Terra cache data: "@ + shown,
            CacheFault::WarmNotSaved => "supported warm run did not update cache data: "@ + shown,
            CacheFault::Unsupported => {
                "unsupported backend did not report unsupported cache status"@
            },
        }
    }

    /// The value that the fault is about.
    pub open spec fn subject(self, cold: PipelineCacheReport, warm: PipelineCacheReport) -> Seq<
        char,
    > {
        match self {
            CacheFault::ColdStatus => cold.blob_status@,
            CacheFault::ColdNotSaved => cold.save_result@,
            CacheFault::WarmStatus => warm.blob_status@,
            CacheFault::WarmNotSaved => warm.save_result@,
            CacheFault::Unsupported => cold.blob_status@,
        }
    }

    pub fn message(self, shown: &str) -> (r: String)
        ensures
            r@ == self.words(shown@),
    {
        let mut text;
        match self {
            CacheFault::ColdStatus => {
                text = "supported cold run reported cache status ".to_owned();
                text.append(shown);
            },
            CacheFault::ColdNotSaved => {
                text = "supported cold run did not save cache data: ".to_owned();
                text.append(shown);
            },
            CacheFault::WarmStatus => {
                text = "supported warm run did not load Terra cache data: ".to_owned();
                text.append(shown);
            },
            CacheFault::WarmNotSaved => {
                text = "supported warm run did not update cache data: ".to_owned();
                text.append(shown);
            },
            CacheFault::Unsupported => {
                text = "unsupported backend did not report unsupported cache status".to_owned();
            },
        }
        text
    }
}

/// A pair of runs is valid where its caches did what cold and warm mean.
pub fn validate_cache_pair(cold: &StartupBenchmarkReport, warm: &StartupBenchmarkReport) -> (r:
    Result<(), String>)
    ensures
        match pair_fault(
            cold.adapter.pipeline_cache_enabled,
            cold.pipeline_cache,
            warm.pipeline_cache,
        ) {
            None => r is Ok,
            Some(fault) => r matches Err(error) && error@ == fault.words(
                crate::logging::debug_text(
                    fault.subject(cold.pipeline_cache, warm.pipeline_cache),
                ),
            ),
        },
{
    match cache_pair_fault(cold, warm) {
        None => Ok(()),
        Some(fault) => {
            let subject = match fault {
                CacheFault::ColdStatus => cold.pipeline_cache.blob_status.as_str(),
                CacheFault::ColdNotSaved => cold.pipeline_cache.save_result.as_str(),
                CacheFault::WarmStatus => warm.pipeline_cache.blob_status.as_str(),
                CacheFault::WarmNotSaved => warm.pipeline_cache.save_result.as_str(),
                CacheFault::Unsupported => cold.pipeline_cache.blob_status.as_str(),
            };
            let shown = crate::logging::quoted(subject);
            Err(fault.message(shown.as_str()))
        },
    }
}

/// The difference of two durations, kept within the range of the report.
pub open spec fn speedup(cold_ms: u64, warm_ms: u64) -> int {
    let difference = cold_ms - warm_ms;
    if difference > i64::MAX {
        i64::MAX as int
    } else if difference < i64::MIN {
        i64::MIN as int
    } else {
        difference
    }
}

/// Compares a cold run with the warm one after it.
pub fn compare_pair(profile: &str, cold: &StartupBenchmarkReport, warm: &StartupBenchmarkReport) -> (r:
    StartupBenchmarkComparison)
    ensures
        r.profile@ == profile@,
        r.cold_ms == cold.boot_duration_ms,
        r.warm_ms == warm.boot_duration_ms,
        r.speedup_ms == speedup(cold.boot_duration_ms, warm.boot_duration_ms),
{
    let difference: i128 = cold.boot_duration_ms as i128 - warm.boot_duration_ms as i128;
    let speedup_ms: i64 = if difference > i64::MAX as i128 {
        i64::MAX
    } else if difference < i64::MIN as i128 {
        i64::MIN
    } else {
        difference as i64
    };
    StartupBenchmarkComparison {
        profile: profile.to_owned(),
        cold_ms: cold.boot_duration_ms,
        warm_ms: warm.boot_duration_ms,
        speedup_ms,
    }
}

/// The processes of some reports.
pub open spec fn pids(reports: Seq<StartupBenchmarkReport>) -> Seq<u32> {
    reports.map_values(|report: StartupBenchmarkReport| report.pid)
}

fn pid_occurs(reports: &Vec<StartupBenchmarkReport>, end: usize, pid: u32) -> (r: bool)
    requires
        end <= reports@.len(),
    ensures
        r == exists|j: int| #![trigger reports@[j]] 0 <= j < end && reports@[j].pid == pid,
{
    let mut j: usize = 0;
    while j < end
        invariant
            j <= end <= reports@.len(),
            forall|k: int| #![trigger reports@[k]] 0 <= k < j ==> reports@[k].pid != pid,
        decreases end - j,
    {
        if reports[j].pid == pid {
            assert(reports@[j as int].pid == pid);
            return true;
        }
        j += 1;
    }
    false
}

/// Puts the suite together. A process that occurs twice proves that the runs
/// were not isolated.
pub fn assemble_suite(
    reports: Vec<StartupBenchmarkReport>,
    comparisons: Vec<StartupBenchmarkComparison>,
) -> (r: Result<StartupBenchmarkSuite, String>)
    ensures
        pids(reports@).no_duplicates() ==> {
            &&& r matches Ok(suite)
            &&& suite.schema_version == 2
            &&& suite.cold_warm_definition@ == COLD_WARM_DEFINITION@
            &&& suite.comparisons == comparisons
            &&& suite.reports == reports
        },
        !pids(reports@).no_duplicates() ==> (r matches Err(error) && error@
            == "a benchmark child PID was reused; fresh-process isolation is unproven"@),
{
    let mut i: usize = 0;
    while i < reports.len()
        invariant
            i <= reports@.len(),
            forall|k: int, l: int|
                #![trigger reports@[k], reports@[l]]
                0 <= k < l < i ==> reports@[k].pid != reports@[l].pid,
        decreases reports@.len() - i,
    {
        if pid_occurs(&reports, i, reports[i].pid) {
            proof {
                let k = choose|k: int|
                    #![trigger reports@[k]]
                    0 <= k < i && reports@[k].pid == reports@[i as int].pid;
                assert(pids(reports@)[k] == pids(reports@)[i as int]);
            }
            return Err(
                "a benchmark child PID was reused; fresh-process isolation is unproven".to_owned(),
            );
        }
        i += 1;
    }
    assert(pids(reports@).no_duplicates());
    Ok(
        StartupBenchmarkSuite {
            schema_version: SUITE_SCHEMA_VERSION,
            cold_warm_definition: COLD_WARM_DEFINITION.to_owned(),
            comparisons,
            reports,
        },
    )
}

/// The value of a run of decimal digits.
pub open spec fn digits_value(digits: Seq<char>) -> nat
    decreases digits.len(),
{
    if digits.len() == 0 {
        0
    } else {
        digits_value(digits.drop_last()) * 10 + (digits.last() as nat - '0' as nat) as nat
    }
}

pub open spec fn is_digit(c: char) -> bool {
    '0' <= c && c <= '9'
}

/// The digits of a numeral, after a plus sign that something follows.
pub open spec fn unsigned_digits(text: Seq<char>) -> Seq<char> {
    if text.len() > 1 && text[0] == '+' {
        text.skip(1)
    } else {
        text
    }
}

/// The number that a text writes down, if it does and the number fits.
pub open spec fn number_of(text: Seq<char>) -> Option<u64> {
    let digits = unsigned_digits(text);
    if digits.len() > 0 && (forall|i: int|
        #![trigger digits[i]]
        0 <= i < digits.len() ==> is_digit(digits[i])) && digits_value(digits) <= u64::MAX {
        Some(digits_value(digits) as u64)
    } else {
        None
    }
}

proof fn longer_is_no_smaller(digits: Seq<char>, end: int)
    requires
        0 <= end <= digits.len(),
    ensures
        digits_value(digits.take(end)) <= digits_value(digits),
    decreases digits.len() - end,
{
    if end == digits.len() {
        assert(digits.take(end) =~= digits);
    } else {
        longer_is_no_smaller(digits, end + 1);
        assert(digits.take(end + 1).drop_last() =~= digits.take(end));
    }
}

/// Reads a number.
pub fn parse_number(text: &str) -> (r: Option<u64>)
    ensures
        r == number_of(text@),
{
    let len: usize = text.unicode_len();
    let start: usize = if len > 1 && text.get_char(0) == '+' {
        1
    } else {
        0
    };
    let ghost digits = unsigned_digits(text@);
    assert(digits =~= text@.skip(start as int));
    if len == start {
        return None;
    }
    let mut value: u64 = 0;
    let mut i: usize = start;
    while i < len
        invariant
            start <= i <= len,
            start <= 1,
            len == text@.len(),
            digits == text@.skip(start as int),
            digits == unsigned_digits(text@),
            forall|j: int| #![trigger digits[j]] 0 <= j < i - start ==> is_digit(digits[j]),
            value == digits_value(digits.take(i - start)),
        decreases len - i,
    {
        let c: char = text.get_char(i);
        assert(digits[i - start] == c);
        if c < '0' || c > '9' {
            assert(!is_digit(digits[i - start]));
            return None;
        }
        let digit: u64 = c as u64 - '0' as u64;
        proof {
            assert(digits.take(i + 1 - start).drop_last() =~= digits.take(i - start));
            assert(digits.take(i + 1 - start).last() == c);
            longer_is_no_smaller(digits, i + 1 - start);
        }
        let scaled: u64 = match value.checked_mul(10) {
            Some(scaled) => scaled,
            None => {
                return None;
            },
        };
        value = match scaled.checked_add(digit) {
            Some(sum) => sum,
            None => {
                return None;
            },
        };
        i += 1;
    }
    assert(digits.take(len - start) =~= digits);
    Some(value)
}

/// The options of the benchmark program.
#[derive(Debug)]
pub struct Options {
    pub debug_exe: String,
    pub release_exe: String,
    pub output: String,
    pub timeout_secs: u64,
}

/// The options read so far.
#[derive(Debug)]
pub struct PartialOptions {
    pub debug_exe: Option<String>,
    pub release_exe: Option<String>,
    pub output: Option<String>,
    pub timeout_secs: u64,
}

/// The options as values.
pub struct OptionValues {
    pub debug_exe: Option<Seq<char>>,
    pub release_exe: Option<Seq<char>>,
    pub output: Option<Seq<char>>,
    pub timeout_secs: u64,
}

impl PartialOptions {
    pub open spec fn values(self) -> OptionValues {
        OptionValues {
            debug_exe: crate::eval::opt_text(self.debug_exe),
            release_exe: crate::eval::opt_text(self.release_exe),
            output: crate::eval::opt_text(self.output),
            timeout_secs: self.timeout_secs,
        }
    }

    /// Takes in one flag.
    fn absorb(&mut self, flag: &str, value: &str) -> (r: Result<(), String>)
        ensures
            match old(self).values().with_flag(flag@, value@) {
                Ok(next) => r is Ok && final(self).values() == next,
                Err(error) => r matches Err(shown) && shown@ == error,
            },
    {
        if same_text(flag, "--debug-exe") {
            self.debug_exe = Some(value.to_owned());
        } else if same_text(flag, "--release-exe") {
            self.release_exe = Some(value.to_owned());
        } else if same_text(flag, "--output") {
            self.output = Some(value.to_owned());
        } else if same_text(flag, "--timeout-seconds") {
            match parse_number(value) {
                Some(secs) => {
                    self.timeout_secs = secs;
                },
                None => {
                    let mut error = "invalid timeout: ".to_owned();
                    error.append(value);
                    return Err(error);
                },
            }
        } else {
            let mut error = "unknown option: ".to_owned();
            error.append(flag);
            return Err(error);
        }
        Ok(())
    }
}

impl OptionValues {
    /// The options after one more flag. A later value replaces an earlier one.
    pub open spec fn with_flag(self, flag: Seq<char>, value: Seq<char>) -> Result<
        OptionValues,
        Seq<char>,
    > {
        if flag == "--debug-exe"@ {
            Ok(OptionValues { debug_exe: Some(value), ..self })
        } else if flag == "--release-exe"@ {
            Ok(OptionValues { release_exe: Some(value), ..self })
        } else if flag == "--output"@ {
            Ok(OptionValues { output: Some(value), ..self })
        } else if flag == "--timeout-seconds"@ {
            match number_of(value) {
                Some(secs) => Ok(OptionValues { timeout_secs: secs, ..self }),
                None => Err("invalid timeout: "@ + value),
            }
        } else {
            Err("unknown option: "@ + flag)
        }
    }

    /// The options after all flags, read in pairs from the left. The first
    /// fault ends the reading; a flag without a value is one before its name is
    /// looked at.
    pub open spec fn with_all(self, arguments: Seq<Seq<char>>) -> Result<OptionValues, Seq<char>>
        decreases arguments.len(),
    {
        if arguments.len() == 0 {
            Ok(self)
        } else if arguments.len() == 1 {
            Err("missing value for "@ + arguments[0])
        } else {
            match self.with_flag(arguments[0], arguments[1]) {
                Ok(next) => next.with_all(arguments.skip(2)),
                Err(error) => Err(error),
            }
        }
    }

    /// No flag was read yet.
    pub open spec fn initial() -> OptionValues {
        OptionValues {
            debug_exe: None,
            release_exe: None,
            output: None,
            timeout_secs: DEFAULT_TIMEOUT_SECS,
        }
    }

    /// What is missing, if anything.
    pub open spec fn missing(self) -> Option<Seq<char>> {
        if self.debug_exe is None {
            Some("--debug-exe is required"@)
        } else if self.release_exe is None {
            Some("--release-exe is required"@)
        } else if self.output is None {
            Some("--output is required"@)
        } else {
            None
        }
    }
}

/// The texts of the arguments.
pub open spec fn argument_texts(arguments: Seq<String>) -> Seq<Seq<char>> {
    arguments.map_values(|argument: String| argument@)
}

impl Options {
    /// Reads the arguments after the program's name.
    pub fn parse(arguments: &Vec<String>) -> (r: Result<Options, String>)
        ensures
            match OptionValues::initial().with_all(argument_texts(arguments@)) {
                Err(error) => r matches Err(shown) && shown@ == error,
                Ok(values) => match values.missing() {
                    Some(error) => r matches Err(shown) && shown@ == error,
                    None => r matches Ok(options) && Some(options.debug_exe@) == values.debug_exe
                        && Some(options.release_exe@) == values.release_exe && Some(
                        options.output@,
                    ) == values.output && options.timeout_secs == values.timeout_secs,
                },
            },
    {
        let ghost all = argument_texts(arguments@);
        let mut partial = PartialOptions {
            debug_exe: None,
            release_exe: None,
            output: None,
            timeout_secs: DEFAULT_TIMEOUT_SECS,
        };
        let mut i: usize = 0;
        assert(all.skip(0) =~= all);
        while i < arguments.len()
            invariant
                i <= arguments@.len(),
                all == argument_texts(arguments@),
                OptionValues::initial().with_all(all) == partial.values().with_all(
                    all.skip(i as int),
                ),
            decreases arguments@.len() - i,
        {
            let flag = arguments[i].as_str();
            assert(all.skip(i as int)[0] == flag@);
            if i == arguments.len() - 1 {
                let mut error = "missing value for ".to_owned();
                error.append(flag);
                return Err(error);
            }
            let value = arguments[i + 1].as_str();
            assert(all.skip(i as int)[1] == value@);
            match partial.absorb(flag, value) {
                Err(error) => {
                    return Err(error);
                },
                Ok(()) => {},
            }
            assert(all.skip(i as int).skip(2) =~= all.skip(i + 2));
            i += 2;
        }
        assert(all.skip(i as int) =~= Seq::<Seq<char>>::empty());
        let debug_exe = match partial.debug_exe {
            Some(value) => value,
            None => {
                return Err("--debug-exe is required".to_owned());
            },
        };
        let release_exe = match partial.release_exe {
            Some(value) => value,
            None => {
                return Err("--release-exe is required".to_owned());
            },
        };
        let output = match partial.output {
            Some(value) => value,
            None => {
                return Err("--output is required".to_owned());
            },
        };
        Ok(Options { debug_exe, release_exe, output, timeout_secs: partial.timeout_secs })
    }
}

/// What came of a child process.
#[derive(Debug)]
pub enum ChildOutcome {
    /// It ran longer than this.
    TimedOut { timeout_secs: u64 },
    /// It ended, with this exit status, and left a report.
    Ended { exited_well: bool, shown_status: String, report: StartupBenchmarkReport },
}

/// Takes in the outcome of a child. Its exit and its report have to agree.
pub fn child_report(profile: &str, run_kind: &str, outcome: ChildOutcome) -> (r: Result<
    StartupBenchmarkReport,
    String,
>)
    ensures
        match outcome {
            ChildOutcome::TimedOut { timeout_secs } => r matches Err(error) && error@ == profile@
                + " "@ + run_kind@ + " run exceeded "@ + crate::text::decimal(timeout_secs as nat)
                + "s"@,
            ChildOutcome::Ended { exited_well, shown_status, report } => if exited_well
                == report.success {
                r == Ok::<StartupBenchmarkReport, String>(report)
            } else {
                r matches Err(error) && error@ == profile@ + " "@ + run_kind@
                    + " exit/report disagreement: exit="@ + shown_status@ + ", report success="@ + (
                if report.success {
                    "true"@
                } else {
                    "false"@
                })
            },
        },
{
    let mut error = profile.to_owned();
    error.append(" ");
    error.append(run_kind);
    match outcome {
        ChildOutcome::TimedOut { timeout_secs } => {
            error.append(" run exceeded ");
            push_decimal(&mut error, timeout_secs);
            error.append("s");
            Err(error)
        },
        ChildOutcome::Ended { exited_well, shown_status, report } => {
            if exited_well == report.success {
                return Ok(report);
            }
            error.append(" exit/report disagreement: exit=");
            error.append(shown_status.as_str());
            error.append(", report success=");
            if report.success {
                error.append("true");
            } else {
                error.append("false");
            }
            Err(error)
        },
    }
}

/// The next run of a suite.
#[derive(Debug, Clone, Copy, PartialEq, Eq, Structural)]
pub struct RunSlot {
    /// The release build runs, not the debug one.
    pub release: bool,
    /// The run reuses the cache of the one before it; otherwise its cache
    /// directory is emptied first.
    pub warm: bool,
}

impl RunSlot {
    pub open spec fn profile_name(self) -> Seq<char> {
        if self.release {
            "release"@
        } else {
            "debug"@
        }
    }

    pub fn profile(self) -> (r: &'static str)
        ensures
            r@ == self.profile_name(),
    {
        if self.release {
            "release"
        } else {
            "debug"
        }
    }

    pub fn run_kind(self) -> (r: &'static str)
        ensures
            r@ == if self.warm {
                "warm"@
            } else {
                "cold"@
            },
    {
        if self.warm {
            "warm"
        } else {
            "cold"
        }
    }
}

/// A suite in progress.
#[derive(Debug)]
pub struct SuiteRun {
    pub reports: Vec<StartupBenchmarkReport>,
    pub comparisons: Vec<StartupBenchmarkComparison>,
}

impl SuiteRun {
    /// The run that follows `done` runs: debug before release, and in each a
    /// cold run right before a warm one.
    pub open spec fn slot(done: int) -> Option<RunSlot> {
        if 0 <= done < 4 {
            Some(RunSlot { release: done >= 2, warm: done % 2 == 1 })
        } else {
            None
        }
    }

    pub fn new() -> (r: Self)
        ensures
            r.reports@.len() == 0,
            r.comparisons@.len() == 0,
    {
        SuiteRun { reports: Vec::new(), comparisons: Vec::new() }
    }

    pub fn next_run(&self) -> (r: Option<RunSlot>)
        ensures
            r == Self::slot(self.reports@.len() as int),
    {
        let done: usize = self.reports.len();
        if done < 4 {
            Some(RunSlot { release: done >= 2, warm: done % 2 == 1 })
        } else {
            None
        }
    }

    /// Takes in the report of the next run. A warm run is held against the cold
    /// one before it.
    pub fn record(&mut self, report: StartupBenchmarkReport) -> (r: Result<(), String>)
        requires
            old(self).reports@.len() < 4,
        ensures
            final(self).reports@ == old(self).reports@.push(report),
            old(self).reports@.len() % 2 == 0 ==> r is Ok && final(self).comparisons@ == old(
                self,
            ).comparisons@,
            old(self).reports@.len() % 2 == 1 ==> {
                let cold = old(self).reports@.last();
                match pair_fault(
                    cold.adapter.pipeline_cache_enabled,
                    cold.pipeline_cache,
                    report.pipeline_cache,
                ) {
                    Some(fault) => {
                        &&& r matches Err(error)
                        &&& error@ == fault.words(
                            crate::logging::debug_text(
                                fault.subject(cold.pipeline_cache, report.pipeline_cache),
                            ),
                        )
                        &&& final(self).comparisons@ == old(self).comparisons@
                    },
                    None => {
                        &&& r is Ok
                        &&& final(self).comparisons@.len() == old(self).comparisons@.len() + 1
                        &&& final(self).comparisons@.drop_last() == old(self).comparisons@
                        &&& final(self).comparisons@.last().profile@ == Self::slot(
                            old(self).reports@.len() as int,
                        )->0.profile_name()
                        &&& final(self).comparisons@.last().cold_ms == cold.boot_duration_ms
                        &&& final(self).comparisons@.last().warm_ms == report.boot_duration_ms
                        &&& final(self).comparisons@.last().speedup_ms == speedup(
                            cold.boot_duration_ms,
                            report.boot_duration_ms,
                        )
                    },
                }
            },
    {
        let done: usize = self.reports.len();
        if done % 2 == 0 {
            self.reports.push(report);
            return Ok(());
        }
        let slot = RunSlot { release: done >= 2, warm: true };
        let verdict = validate_cache_pair(&self.reports[done - 1], &report);
        if verdict.is_ok() {
            let comparison = compare_pair(slot.profile(), &self.reports[done - 1], &report);
            self.comparisons.push(comparison);
            assert(self.comparisons@.drop_last() =~= old(self).comparisons@);
        }
        self.reports.push(report);
        verdict
    }

    /// Puts the suite together.
    pub fn finish(self) -> (r: Result<StartupBenchmarkSuite, String>)
        ensures
            pids(self.reports@).no_duplicates() ==> {
                &&& r matches Ok(suite)
                &&& suite.schema_version == 2
                &&& suite.cold_warm_definition@ == COLD_WARM_DEFINITION@
                &&& suite.comparisons == self.comparisons
                &&& suite.reports == self.reports
            },
            !pids(self.reports@).no_duplicates() ==> (r matches Err(error) && error@
                == "a benchmark child PID was reused; fresh-process isolation is unproven"@),
    {
        assemble_suite(self.reports, self.comparisons)
    }
}

/// Every warm run directly follows the cold run of its own build.
pub proof fn warm_runs_follow_their_cold_run(done: int)
    requires
        SuiteRun::slot(done) matches Some(slot) && slot.warm,
    ensures
        SuiteRun::slot(done - 1) == Some(
            RunSlot { release: SuiteRun::slot(done)->0.release, warm: false },
        ),
{
}

/// A cold run and its warm successor swap into opposite speedups, as long as
/// the difference fits.
pub proof fn speedup_is_antisymmetric(a: u64, b: u64)
    requires
        -i64::MAX <= a - b <= i64::MAX,
    ensures
        speedup(a, b) == -speedup(b, a),
        speedup(a, a) == 0,
{
}

/// Two different flags can be given in either order.
pub proof fn different_flags_commute(
    options: OptionValues,
    a: Seq<char>,
    x: Seq<char>,
    b: Seq<char>,
    y: Seq<char>,
)
    requires
        a != b,
        options.with_flag(a, x) is Ok,
        options.with_flag(b, y) is Ok,
    ensures
        options.with_flag(a, x)->Ok_0.with_flag(b, y) == options.with_flag(b, y)->Ok_0.with_flag(
            a,
            x,
        ),
{
}

/// The last value of a flag counts.
pub proof fn later_values_replace_earlier_ones(
    options: OptionValues,
    flag: Seq<char>,
    x: Seq<char>,
    y: Seq<char>,
)
    requires
        options.with_flag(flag, x) is Ok,
    ensures
        options.with_flag(flag, x)->Ok_0.with_flag(flag, y) == options.with_flag(flag, y),
{
}

/// A report is started on where it was asked for.
pub proof fn reports_are_started_on_request(output: Option<&AppPath>, step: ReportStep)
    requires
        call_ensures(ReportStep::begin, (output,), step),
    ensures
        output is Some <==> step is Serialize,
        output is None <==> step == ReportStep::Finished(Ok(false)),
{
}

/// A stage that went well leads to the next and the last to success; one that failed
/// ends in its own words.
pub proof fn stages_go_in_order(
    stage: ReportStage,
    shown: &str,
    outcome: Result<(), String>,
    step: ReportStep,
)
    requires
        call_ensures(ReportStep::after, (stage, shown, outcome), step),
    ensures
        outcome is Ok && stage is Serialize ==> step is CreateDirectory,
        outcome is Ok && stage is CreateDirectory ==> step is Write,
        outcome is Ok && stage is Write ==> step == ReportStep::Finished(Ok(true)),
        outcome matches Err(error) ==> (step matches ReportStep::Finished(Err(text)) && {
            &&& stage is Serialize ==> text@ == "serialize startup benchmark report: "@ + error@
            &&& stage is CreateDirectory ==> text@ == "create benchmark output directory: "@
                + error@
            &&& stage is Write ==> text@ == "write benchmark report "@ + shown@ + ": "@ + error@
        }),
{
}

/// A millisecond counts once it is over; a count that does not fit stays at the
/// largest number.
pub proof fn started_milliseconds_do_not_count(duration: Duration, ms: u64)
    requires
        call_ensures(millis, (duration,), ms),
    ensures
        ms * 1_000_000 <= duration.nanos,
        ms < u64::MAX ==> duration.nanos < (ms + 1) * 1_000_000,
{
}

/// A compilation is reported under its own names, with when it started and how long
/// it took.
pub proof fn compilations_are_reported_as_recorded(
    record: &CompilationRecord,
    report: PipelineReport,
    started: u64,
    took: u64,
)
    requires
        call_ensures(pipeline_report, (record,), report),
        call_ensures(millis, (record.started_after_reset,), started),
        call_ensures(millis, (record.duration,), took),
    ensures
        report.kind == record.kind,
        report.label == record.label,
        report.status == record.status,
        report.started_ms == started,
        report.duration_ms == took,
{
}

/// Every pipeline is reported, and nothing but pipelines is.
pub proof fn every_pipeline_is_reported(records: Seq<CompilationRecord>, at: int)
    ensures
        0 <= at < records.len() && records[at].is_pipeline ==> reported_pipelines(records).contains(
            reported(records[at]),
        ),
        forall|k: int|
            #![trigger reported_pipelines(records)[k]]
            0 <= k < reported_pipelines(records).len() ==> exists|j: int|
                #![trigger records[j]]
                0 <= j < records.len() && records[j].is_pipeline && reported(records[j])
                    == reported_pipelines(records)[k],
        records.len() > 0 && records.last().is_pipeline ==> reported_pipelines(records).len()
            == reported_pipelines(records.drop_last()).len() + 1,
        records.len() > 0 && !records.last().is_pipeline ==> reported_pipelines(records)
            == reported_pipelines(records.drop_last()),
    decreases records.len(),
{
    reveal(Seq::filter);
    let listed = reported_pipelines(records);
    if records.len() > 0 {
        let front = records.drop_last();
        let before = reported_pipelines(front);
        every_pipeline_is_reported(front, at);
        if records.last().is_pipeline {
            assert(listed =~= before.push(reported(records.last())));
        } else {
            assert(listed =~= before);
        }
        if 0 <= at < records.len() && records[at].is_pipeline {
            if at < front.len() {
                assert(front[at] == records[at]);
                let k = choose|k: int|
                    0 <= k < before.len() && before[k] == reported(records[at]);
                assert(listed[k] == reported(records[at]));
            } else {
                assert(listed[before.len() as int] == reported(records[at]));
            }
        }
        assert forall|k: int| #![trigger listed[k]] 0 <= k < listed.len() implies exists|j: int|
            #![trigger records[j]]
            0 <= j < records.len() && records[j].is_pipeline && reported(records[j])
                == listed[k] by {
            if k < before.len() {
                assert(listed[k] == before[k]);
                let j = choose|j: int|
                    #![trigger front[j]]
                    0 <= j < front.len() && front[j].is_pipeline && reported(front[j]) == before[k];
                assert(front[j] == records[j]);
            } else {
                assert(records[records.len() - 1].is_pipeline);
            }
        }
    }
}

/// A report succeeds exactly where no error is handed in, and keeps what it is about.
pub proof fn reports_keep_what_was_measured(
    run: RunIdentity,
    adapter: Option<AdapterReport>,
    cache: PipelineCacheReport,
    records: &Vec<CompilationRecord>,
    dominant: Option<&CompilationRecord>,
    generation: u64,
    elapsed: Duration,
    error: Option<String>,
    report: StartupBenchmarkReport,
    took: u64,
)
    requires
        call_ensures(
            startup_report,
            (run, adapter, cache, records, dominant, generation, elapsed, error),
            report,
        ),
        call_ensures(millis, (elapsed,), took),
    ensures
        report.success <==> report.error is None,
        report.error == error,
        report.boot_duration_ms == took,
        report.pid == run.pid,
        report.generation == generation,
        report.app_version == run.app_version,
        report.pipeline_cache == cache,
        run.profile matches Some(name) ==> report.profile@ == name@,
        run.profile is None ==> report.profile@ == "unknown"@,
        run.run_kind matches Some(name) ==> report.run_kind@ == name@,
        run.run_kind is None ==> report.run_kind@ == "unknown"@,
        adapter matches Some(known) ==> report.adapter == known,
        adapter is None ==> report.adapter.name@ == ""@ && !report.adapter.pipeline_cache_enabled
            && !report.adapter.pipeline_cache_supported,
        report.dominant_pipeline is Some <==> dominant is Some,
        dominant matches Some(record) ==> report.dominant_pipeline == Some(reported(*record)),
{
}

/// A pair has no fault exactly where its caches did what cold and warm mean: the cold
/// run missed and saved, the warm one loaded and saved, and without a cache neither
/// claims one.
pub proof fn sound_pairs_have_no_fault(
    cold: &StartupBenchmarkReport,
    warm: &StartupBenchmarkReport,
    verdict: Result<(), String>,
)
    requires
        call_ensures(validate_cache_pair, (cold, warm), verdict),
    ensures
        cold.adapter.pipeline_cache_enabled ==> (verdict is Ok <==> cold.pipeline_cache.blob_status@
            == "miss"@ && cold.pipeline_cache.save_result@ == "saved"@
            && warm.pipeline_cache.blob_status@ == "blob-loaded"@
            && warm.pipeline_cache.save_result@ == "saved"@),
        !cold.adapter.pipeline_cache_enabled ==> (verdict is Ok
            <==> cold.pipeline_cache.blob_status@ == "unsupported"@
            && warm.pipeline_cache.blob_status@ == "unsupported"@),
        cold.adapter.pipeline_cache_enabled && cold.pipeline_cache.blob_status@ != "miss"@ ==> (
        verdict matches Err(error) && error@ == "supported cold run reported cache status "@
            + crate::logging::debug_text(cold.pipeline_cache.blob_status@)),
        cold.adapter.pipeline_cache_enabled && cold.pipeline_cache.blob_status@ == "miss"@
            && cold.pipeline_cache.save_result@ != "saved"@ ==> (verdict matches Err(error)
            && error@ == "supported cold run did not save cache data: "@
            + crate::logging::debug_text(cold.pipeline_cache.save_result@)),
        cold.adapter.pipeline_cache_enabled && cold.pipeline_cache.blob_status@ == "miss"@
            && cold.pipeline_cache.save_result@ == "saved"@ && warm.pipeline_cache.blob_status@
            != "blob-loaded"@ ==> (verdict matches Err(error) && error@
            == "supported warm run did not load Terra cache data: "@ + crate::logging::debug_text(
            warm.pipeline_cache.blob_status@,
        )),
        cold.adapter.pipeline_cache_enabled && cold.pipeline_cache.blob_status@ == "miss"@
            && cold.pipeline_cache.save_result@ == "saved"@ && warm.pipeline_cache.blob_status@
            == "blob-loaded"@ && warm.pipeline_cache.save_result@ != "saved"@ ==> (
        verdict matches Err(error) && error@ == "supported warm run did not update cache data: "@
            + crate::logging::debug_text(warm.pipeline_cache.save_result@)),
        !cold.adapter.pipeline_cache_enabled && verdict is Err ==> (verdict matches Err(error)
            && error@ == "unsupported backend did not report unsupported cache status"@),
{
}

/// A comparison gives both times and what the warm run saved of the cold one's; a
/// difference that does not fit stays at the nearest end.
pub proof fn comparisons_give_what_was_saved(
    profile: &str,
    cold: &StartupBenchmarkReport,
    warm: &StartupBenchmarkReport,
    comparison: StartupBenchmarkComparison,
)
    requires
        call_ensures(compare_pair, (profile, cold, warm), comparison),
    ensures
        comparison.profile@ == profile@,
        comparison.cold_ms == cold.boot_duration_ms,
        comparison.warm_ms == warm.boot_duration_ms,
        i64::MIN <= cold.boot_duration_ms - warm.boot_duration_ms <= i64::MAX
            ==> comparison.warm_ms + comparison.speedup_ms == comparison.cold_ms,
        cold.boot_duration_ms - warm.boot_duration_ms > i64::MAX ==> comparison.speedup_ms
            == i64::MAX,
        cold.boot_duration_ms - warm.boot_duration_ms < i64::MIN ==> comparison.speedup_ms
            == i64::MIN,
{
}

/// A suite is put together exactly where every run was a process of its own.
pub proof fn runs_are_processes_of_their_own(
    reports: Vec<StartupBenchmarkReport>,
    comparisons: Vec<StartupBenchmarkComparison>,
    suite: Result<StartupBenchmarkSuite, String>,
    i: int,
    j: int,
)
    requires
        call_ensures(assemble_suite, (reports, comparisons), suite),
        0 <= i < j < reports@.len(),
    ensures
        reports@[i].pid == reports@[j].pid ==> suite is Err,
        suite matches Ok(whole) ==> whole.reports == reports && whole.comparisons == comparisons,
        suite is Err ==> !pids(reports@).no_duplicates(),
{
    assert(pids(reports@)[i] == reports@[i].pid);
    assert(pids(reports@)[j] == reports@[j].pid);
}

/// A suite runs the debug build cold and warm, then the release build cold and warm,
/// and then nothing.
pub proof fn suites_run_cold_and_warm(run: SuiteRun, next: Option<RunSlot>)
    requires
        call_ensures(SuiteRun::next_run, (&run,), next),
    ensures
        run.reports@.len() == 0 ==> next == Some(RunSlot { release: false, warm: false }),
        run.reports@.len() == 1 ==> next == Some(RunSlot { release: false, warm: true }),
        run.reports@.len() == 2 ==> next == Some(RunSlot { release: true, warm: false }),
        run.reports@.len() == 3 ==> next == Some(RunSlot { release: true, warm: true }),
        run.reports@.len() >= 4 ==> next is None,
{
}

/// A run is named after its build and its cache.
pub proof fn runs_are_named_after_what_they_are(slot: RunSlot, profile: &'static str, kind: &'static str)
    requires
        call_ensures(RunSlot::profile, (slot,), profile),
        call_ensures(RunSlot::run_kind, (slot,), kind),
    ensures
        slot.release ==> profile@ == "release"@,
        !slot.release ==> profile@ == "debug"@,
        slot.warm ==> kind@ == "warm"@,
        !slot.warm ==> kind@ == "cold"@,
{
}

/// Every report is kept; a warm one is held against the cold one before it, and is
/// compared with it where the two are sound.
pub proof fn warm_runs_are_compared(
    run: &mut SuiteRun,
    report: StartupBenchmarkReport,
    verdict: Result<(), String>,
)
    requires
        old(run).reports@.len() < 4,
        call_ensures(SuiteRun::record, (run, report), verdict),
    ensures
        final(run).reports@ == old(run).reports@.push(report),
        old(run).reports@.len() == 0 || old(run).reports@.len() == 2 ==> verdict is Ok && final(run).comparisons@ == old(run).comparisons@,
        old(run).reports@.len() == 1 || old(run).reports@.len() == 3 ==> {
            let cold = old(run).reports@.last();
            &&& verdict is Ok <==> final(run).comparisons@.len() == old(run).comparisons@.len() + 1
            &&& verdict is Err ==> final(run).comparisons@ == old(run).comparisons@
            &&& cold.adapter.pipeline_cache_enabled && verdict is Ok
                ==> cold.pipeline_cache.blob_status@ == "miss"@ && report.pipeline_cache.blob_status@
                == "blob-loaded"@
            &&& verdict is Ok ==> final(run).comparisons@.last().cold_ms == cold.boot_duration_ms
                && final(run).comparisons@.last().warm_ms == report.boot_duration_ms
            &&& verdict is Ok && old(run).reports@.len() == 1 ==> final(run).comparisons@.last().profile@ == "debug"@
            &&& verdict is Ok && old(run).reports@.len() == 3 ==> final(run).comparisons@.last().profile@ == "release"@
        },
{
}

/// A child that ran too long, or whose exit and report disagree, is an error that says
/// so; the report of any other is taken as it is.
pub proof fn children_have_to_agree_with_themselves(
    profile: &str,
    run_kind: &str,
    outcome: ChildOutcome,
    taken: Result<StartupBenchmarkReport, String>,
)
    requires
        call_ensures(child_report, (profile, run_kind, outcome), taken),
    ensures
        outcome matches ChildOutcome::TimedOut { timeout_secs } ==> (taken matches Err(error)
            && error@ == profile@ + " "@ + run_kind@ + " run exceeded "@ + crate::text::decimal(
            timeout_secs as nat,
        ) + "s"@),
        outcome matches ChildOutcome::Ended { exited_well, shown_status, report } ==> {
            &&& taken is Ok <==> exited_well == report.success
            &&& taken matches Ok(kept) ==> kept == report
            &&& taken is Err && report.success ==> (taken matches Err(error) && error@ == profile@
                + " "@ + run_kind@ + " exit/report disagreement: exit="@ + shown_status@
                + ", report success="@ + "true"@)
        },
{
}

/// A number is read back from its numeral, with or without a plus sign, and a text
/// with anything but digits behind the sign is none.
pub proof fn numerals_are_read(n: u64, text: &str, number: Option<u64>)
    requires
        call_ensures(parse_number, (text,), number),
    ensures
        text@ == crate::text::decimal(n as nat) ==> number == Some(n),
        text@ == seq!['+'] + crate::text::decimal(n as nat) ==> number == Some(n),
        text@.len() == 0 ==> number is None,
        text@ == seq!['+'] ==> number is None,
        forall|i: int|
            #![trigger text@[i]]
            1 <= i < text@.len() && !is_digit(text@[i]) ==> number is None,
        text@.len() > 0 && !is_digit(text@[0]) && text@[0] != '+' ==> number is None,
{
    let numeral = crate::text::decimal(n as nat);
    crate::text::numerals_read_as_their_number(n as nat);
    values_agree(numeral);
    if text@ == numeral {
        assert('0' <= numeral[0]);
        assert(unsigned_digits(text@) == numeral);
    }
    if text@ == seq!['+'] + numeral {
        assert(text@.skip(1) =~= numeral);
    }
    let digits = unsigned_digits(text@);
    assert forall|i: int| #![trigger text@[i]]
        1 <= i < text@.len() && !is_digit(text@[i]) implies number is None by {
        if text@[0] == '+' {
            assert(digits[i - 1] == text@[i]);
        } else {
            assert(digits[i] == text@[i]);
        }
    }
}

proof fn values_agree(digits: Seq<char>)
    ensures
        digits_value(digits) == crate::text::numeral_value(digits),
    decreases digits.len(),
{
    if digits.len() > 0 {
        values_agree(digits.drop_last());
    }
}

/// A flag sets what it is named after and leaves the rest.
pub proof fn flags_set_what_they_name(options: OptionValues, value: Seq<char>)
    ensures
        options.with_flag("--debug-exe"@, value) == Ok::<OptionValues, Seq<char>>(
            OptionValues { debug_exe: Some(value), ..options },
        ),
        options.with_flag("--release-exe"@, value) == Ok::<OptionValues, Seq<char>>(
            OptionValues { release_exe: Some(value), ..options },
        ),
        options.with_flag("--output"@, value) == Ok::<OptionValues, Seq<char>>(
            OptionValues { output: Some(value), ..options },
        ),
        number_of(value) matches Some(secs) ==> options.with_flag("--timeout-seconds"@, value)
            == Ok::<OptionValues, Seq<char>>(OptionValues { timeout_secs: secs, ..options }),
        number_of(value) is None ==> options.with_flag("--timeout-seconds"@, value) == Err::<
            OptionValues,
            Seq<char>,
        >("invalid timeout: "@ + value),
{
    reveal_strlit("--debug-exe");
    reveal_strlit("--release-exe");
    reveal_strlit("--output");
    reveal_strlit("--timeout-seconds");
    assert("--debug-exe"@.len() == 11);
    assert("--release-exe"@.len() == 13);
    assert("--output"@.len() == 8);
    assert("--timeout-seconds"@.len() == 17);
}

/// A flag that is none of the four is refused by its name.
pub proof fn unknown_flags_are_refused(options: OptionValues, flag: Seq<char>, value: Seq<char>)
    requires
        flag != "--debug-exe"@,
        flag != "--release-exe"@,
        flag != "--output"@,
        flag != "--timeout-seconds"@,
    ensures
        options.with_flag(flag, value) == Err::<OptionValues, Seq<char>>("unknown option: "@ + flag),
{
}

/// Flags are read from the left, each with its value, and a last one without a value
/// is an error.
pub proof fn flags_are_read_from_the_left(
    options: OptionValues,
    flag: Seq<char>,
    value: Seq<char>,
    rest: Seq<Seq<char>>,
)
    ensures
        options.with_all(Seq::empty()) == Ok::<OptionValues, Seq<char>>(options),
        options.with_all(seq![flag]) == Err::<OptionValues, Seq<char>>("missing value for "@ + flag),
        options.with_flag(flag, value) matches Ok(next) ==> options.with_all(
            seq![flag, value] + rest,
        ) == next.with_all(rest),
        options.with_flag(flag, value) matches Err(error) ==> options.with_all(
            seq![flag, value] + rest,
        ) == Err::<OptionValues, Seq<char>>(error),
{
    let all = seq![flag, value] + rest;
    assert(all[0] == flag);
    assert(all[1] == value);
    assert(all.skip(2) =~= rest);
}

/// The three files are required and the timeout is not; flags come in pairs.
pub proof fn the_files_are_required(arguments: &Vec<String>, options: Result<Options, String>)
    requires
        call_ensures(Options::parse, (arguments,), options),
    ensures
        options is Ok ==> arguments@.len() % 2 == 0,
        arguments@.len() == 0 ==> (options matches Err(error) && error@
            == "--debug-exe is required"@),
        options matches Ok(read) ==> (OptionValues::initial().with_all(
            argument_texts(arguments@),
        ) matches Ok(values) && values.debug_exe == Some(read.debug_exe@) && values.release_exe
            == Some(read.release_exe@) && values.output == Some(read.output@)
            && values.timeout_secs == read.timeout_secs),
        OptionValues::initial().timeout_secs == 900,
{
    let texts = argument_texts(arguments@);
    pairs_are_read(OptionValues::initial(), texts);
    if arguments@.len() == 0 {
        assert(texts =~= Seq::<Seq<char>>::empty());
    }
}

proof fn pairs_are_read(options: OptionValues, arguments: Seq<Seq<char>>)
    ensures
        options.with_all(arguments) is Ok ==> arguments.len() % 2 == 0,
    decreases arguments.len(),
{
    if arguments.len() >= 2 {
        if let Ok(next) = options.with_flag(arguments[0], arguments[1]) {
            pairs_are_read(next, arguments.skip(2));
        }
    }
}

/// What is missing is named, in the order of the files.
pub proof fn missing_files_are_named(options: OptionValues)
    ensures
        options.missing() is None <==> options.debug_exe is Some && options.release_exe is Some
            && options.output is Some,
        options.debug_exe is None ==> options.missing() == Some("--debug-exe is required"@),
        options.debug_exe is Some && options.release_exe is None ==> options.missing() == Some(
            "--release-exe is required"@,
        ),
        options.debug_exe is Some && options.release_exe is Some && options.output is None
            ==> options.missing() == Some("--output is required"@),
{
}

/// A report of a child lies beside the output of its suite, under the output's name
/// with what ran, and the caches lie in a directory beside it.
pub proof fn runs_leave_their_files_beside_the_output(
    output: &AppPath,
    name: Seq<char>,
    profile: &str,
    run_kind: &str,
    child: AppPath,
    cache: Result<AppPath, String>,
)
    requires
        call_ensures(child_output, (output, profile, run_kind), child),
        call_ensures(benchmark_cache_root, (output,), cache),
        output@.len() > 1,
        output@.last() == crate::paths::Part::Normal(name),
        name != ""@,
        name != "."@,
        name != ".."@,
    ensures
        child@.len() == output@.len(),
        child@.drop_last() == output@.drop_last(),
        child@.last() == crate::paths::Part::Normal(
            crate::paths::stem_of(name) + "."@ + (profile@ + "-"@ + run_kind@ + ".child.json"@),
        ),
        cache matches Ok(root) && root@.drop_last() == output@.drop_last() && root@.last()
            == crate::paths::Part::Normal(name + ".pipeline-cache"@),
{
    assert(crate::paths::last_name(output@) == Some(name));
    assert(child@.drop_last() =~= output@.drop_last());
    if let Ok(root) = cache {
        assert(root@.drop_last() =~= output@.drop_last());
    }
}

/// Of an adapter that is not known nothing is said.
pub proof fn unknown_adapters_are_blank(adapter: AdapterReport)
    requires
        call_ensures(AdapterReport::default, (), adapter),
    ensures
        adapter.name@ == ""@,
        adapter.vendor == 0,
        adapter.device == 0,
        adapter.device_type@ == ""@,
        adapter.backend@ == ""@,
        adapter.driver@ == ""@,
        adapter.driver_info@ == ""@,
        adapter.downlevel_shader_model@ == ""@,
        !adapter.pipeline_cache_supported,
        !adapter.pipeline_cache_enabled,
{
}

} // verus!
