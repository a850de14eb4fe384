//! Composition of the process-wide event pipeline: the writer strategy
//! (console, or primary file plus error file with severity windows), the
//! optional remote-export stage, and the install-once state machine.

use vstd::prelude::*;

use crate::config::{Config, ExporterEndpoint, LevelInner, LogPath, RotationKind};
use crate::filter::{
    filter_resolution_ok, opt_str_view, rendered_filter, resolve_filter, spec_severity_from_name,
    EffectiveFilter,
};
use crate::paths::{derived_error_path, spec_directory, spec_filename};

verus! {

/// Number of spans shipped to the remote collector in one batch.
pub const EXPORT_BATCH_SIZE: u32 = 12;

/// A fatal initialization failure.
#[derive(Copy, Clone, Debug, PartialEq, Eq, Structural)]
pub enum InitError {
    /// The resolved filter does not pin down the single severity needed to
    /// build the windowed primary file sink.
    InvalidCeiling,
    /// A global event pipeline was already installed in this process.
    AlreadyInitialized,
}

impl InitError {
    /// The description of the failure.
    pub open spec fn spec_describe(self) -> Seq<char> {
        match self {
            InitError::InvalidCeiling => "the resolved filter does not name a single severity"@,
            InitError::AlreadyInitialized => "already initialized: a global event pipeline was installed before"@,
        }
    }

    /// Describes the failure.
    pub fn describe(&self) -> (r: &'static str)
        ensures
            r@ == self.spec_describe(),
    {
        match self {
            InitError::InvalidCeiling => "the resolved filter does not name a single severity",
            InitError::AlreadyInitialized => "already initialized: a global event pipeline was installed before",
        }
    }
}

/// The chosen destination(s) for log events.
#[derive(Clone, Debug, PartialEq, Eq)]
pub enum WriterPlan {
    /// Standard output, wrapped in the asynchronous non-blocking writer.
    Console,
    /// A dual-file arrangement: a rotating primary file with a severity
    /// window, and an error-only file.
    Files {
        /// Where the primary log file lives.
        primary: LogPath,
        /// Rotation policy of the primary file.
        rotation: RotationKind,
        /// Ceiling of the primary file's severity window: events more
        /// important than this severity are excluded from the primary file.
        ceiling: LevelInner,
        /// Where the error log file lives.
        error: LogPath,
        /// Rotation policy of the error file: always daily, whatever the
        /// primary rotation kind.
        error_rotation: RotationKind,
    },
}

/// What the writer plan must be, given the configuration and the single
/// severity the resolved filter pins down, if any. With no configuration or
/// no primary log path the console is the sole destination; otherwise the
/// dual-file arrangement is planned, and a filter that pins down no single
/// severity is a fatal failure.
pub open spec fn writer_plan_ok(
    config: Option<&Config>,
    pinned: Option<LevelInner>,
    r: Result<WriterPlan, InitError>,
) -> bool {
    match config {
        None => r == Ok::<WriterPlan, InitError>(WriterPlan::Console),
        Some(c) => match c.log_path {
            None => r == Ok::<WriterPlan, InitError>(WriterPlan::Console),
            Some(p) => match pinned {
                Some(l) => match r {
                    Ok(w) => match w {
                        WriterPlan::Files { primary, rotation, ceiling, error, error_rotation } => {
                            &&& primary.directory@ == spec_directory(p@)
                            &&& primary.filename@ == spec_filename(p@)
                            &&& rotation == c.rotation
                            &&& ceiling == l
                            &&& error_rotation == RotationKind::Daily
                            &&& match c.log_error_path {
                                Some(q) => error.directory@ == spec_directory(q@)
                                    && error.filename@ == spec_filename(q@),
                                None => error.directory@ == spec_directory(p@)
                                    && error.filename@ == "error_"@ + spec_filename(p@),
                            }
                        },
                        WriterPlan::Console => false,
                    },
                    Err(_) => false,
                },
                None => r == Err::<WriterPlan, InitError>(InitError::InvalidCeiling),
            },
        },
    }
}

/// Chooses the destination(s) for log events.
pub fn build_writer_plan(config: Option<&Config>, filter: &EffectiveFilter) -> (r: Result<
    WriterPlan,
    InitError,
>)
    ensures
        writer_plan_ok(config, filter.spec_ceiling(), r),
{
    let c = match config {
        Some(c) => c,
        None => {
            return Ok(WriterPlan::Console);
        },
    };
    let p = match &c.log_path {
        Some(p) => p,
        None => {
            return Ok(WriterPlan::Console);
        },
    };
    let primary = Config::build_path(p);
    let ceiling = match filter.ceiling() {
        Some(l) => l,
        None => {
            return Err(InitError::InvalidCeiling);
        },
    };
    let error = match &c.log_error_path {
        Some(q) => Config::build_path(q),
        None => derived_error_path(&primary),
    };
    Ok(
        WriterPlan::Files {
            primary,
            rotation: c.rotation,
            ceiling,
            error,
            error_rotation: RotationKind::Daily,
        },
    )
}

/// The primary file's severity window: at least `Info` (events more verbose
/// than `Info` are always suppressed from file output) and no more important
/// than the ceiling taken from the configured level.
pub open spec fn spec_primary_accepts(ceiling: LevelInner, sev: LevelInner) -> bool {
    LevelInner::Info.rank() <= sev.rank() && sev.rank() <= ceiling.rank()
}

/// The error file's severity window: `Warn` or more important.
pub open spec fn spec_error_accepts(sev: LevelInner) -> bool {
    LevelInner::Warn.rank() <= sev.rank()
}

/// The fan-out over the two file sinks: an admitted event is written to
/// whichever of the primary and error sinks accepts its severity.
pub fn file_destinations(ceiling: LevelInner, sev: LevelInner) -> (r: (bool, bool))
    ensures
        r.0 == spec_primary_accepts(ceiling, sev),
        r.1 == spec_error_accepts(sev),
{
    (sev.at_least(LevelInner::Info) && ceiling.at_least(sev), sev.at_least(LevelInner::Warn))
}

/// Where an event goes through the whole pipeline when the dual-file
/// arrangement is planned with the window ceiling `ceiling`: the event must
/// pass the global filter first, then the per-sink windows.
///
/// A global filter built from the configured level alone would be in
/// tension with the windows: it admits only events at least that important,
/// while the primary window admits at most that important, so with a `Warn`
/// level an `Info` event would be dropped globally although the primary
/// window `[Info, Warn]` accepts it. A file plan therefore widens its
/// effective global filter to the more verbose of `Info` and the ceiling,
/// which admits everything either file window admits: with a `Warn` level
/// an `Info` event is written to the primary sink only.
pub fn pipeline_destinations(ceiling: LevelInner, sev: LevelInner) -> (r: (bool, bool))
    ensures
        r.0 == (sev.rank() >= ceiling.spec_min_importance(LevelInner::Info).rank()
            && spec_primary_accepts(ceiling, sev)),
        r.1 == (sev.rank() >= ceiling.spec_min_importance(LevelInner::Info).rank()
            && spec_error_accepts(sev)),
{
    let admitted = ceiling.min_importance(LevelInner::Info).admits(sev);
    let (primary, error) = file_destinations(ceiling, sev);
    (admitted && primary, admitted && error)
}

/// The fully assembled pipeline: the global severity filter, the writer
/// strategy, the optional remote-export stage, and the fixed tuning values.
#[derive(Clone, Debug, PartialEq, Eq)]
pub struct PipelinePlan {
    /// The effective global severity filter. For a file plan it is widened
    /// to the more verbose of `Info` and the window ceiling, so the global
    /// stage admits everything either file window admits and the windows
    /// alone decide where an event is written.
    pub filter: EffectiveFilter,
    /// The chosen destination(s).
    pub writer: WriterPlan,
    /// Connection string of the remote trace collector, when spans are to be
    /// shipped there.
    pub exporter: Option<String>,
    /// Number of spans per remote-export batch.
    pub batch_size: u32,
    /// Timestamp format of the formatting stage: ISO-style date, locale
    /// time, millisecond fraction, UTC offset.
    pub timestamp_format: String,
    /// Emit an event when a span is opened.
    pub emit_span_open: bool,
    /// Emit an event when a span is closed.
    pub emit_span_close: bool,
}

/// The configured severity threshold, if a configuration is given.
pub open spec fn spec_config_level(config: Option<&Config>) -> Option<LevelInner> {
    match config {
        Some(c) => c.level,
        None => None,
    }
}

/// Whether the configuration asks for file destinations.
pub open spec fn has_file_sink(config: Option<&Config>) -> bool {
    match config {
        Some(c) => c.log_path is Some,
        None => false,
    }
}

/// The single severity that filter resolution will pin down, or `None` when
/// the environment-sourced expression names no single severity.
pub open spec fn spec_effective_ceiling(
    level: Option<LevelInner>,
    env: Option<Seq<char>>,
) -> Option<LevelInner> {
    match level {
        Some(l) => if rendered_filter(l.spec_name()) is Some {
            Some(l)
        } else {
            Some(LevelInner::Info)
        },
        None => match env {
            Some(e) => if !vstd::utf8::is_ascii_chars(e) {
                Some(LevelInner::Info)
            } else {
                match rendered_filter(e) {
                    Some(t) => spec_severity_from_name(t),
                    None => Some(LevelInner::Info),
                }
            },
            None => Some(LevelInner::Info),
        },
    }
}

/// A resolved filter pins down exactly the severity that
/// `spec_effective_ceiling` names.
proof fn lemma_resolution_ceiling(
    level: Option<LevelInner>,
    env: Option<Seq<char>>,
    f: EffectiveFilter,
)
    requires
        filter_resolution_ok(level, env, f),
    ensures
        f.spec_ceiling() == spec_effective_ceiling(level, env),
{
}

/// Assembles the whole pipeline plan from the configuration, the optional
/// exporter endpoint, and the filter expression supplied by the process
/// environment, if any. Succeeds for every input unless file destinations
/// are asked for and the resolved filter pins down no single severity. For
/// a file plan the global filter is widened to the more verbose of `Info`
/// and the window ceiling, so that every event a file window accepts also
/// passes the global stage.
pub fn init_plan(
    exporter_endpoint: Option<&ExporterEndpoint>,
    config: Option<&Config>,
    env_expr: Option<&String>,
) -> (r: Result<PipelinePlan, InitError>)
    ensures
        ({
            let level = spec_config_level(config);
            let env = opt_str_view(env_expr);
            &&& (r is Ok <==> (has_file_sink(config) ==> spec_effective_ceiling(level, env)
                is Some))
            &&& match r {
                Ok(plan) => {
                    &&& (!has_file_sink(config) ==> filter_resolution_ok(level, env, plan.filter))
                    &&& (has_file_sink(config) ==> match spec_effective_ceiling(level, env) {
                        Some(l) => plan.filter == EffectiveFilter::Level(
                            l.spec_min_importance(LevelInner::Info),
                        ),
                        None => false,
                    })
                    &&& writer_plan_ok(
                        config,
                        spec_effective_ceiling(level, env),
                        Ok::<WriterPlan, InitError>(plan.writer),
                    )
                    &&& match exporter_endpoint {
                        Some(e) => plan.exporter matches Some(s) && s@ == e.spec_host_string(),
                        None => plan.exporter is None,
                    }
                    &&& plan.batch_size == EXPORT_BATCH_SIZE
                    &&& plan.timestamp_format@ == "[%F %X%.3f %:z]"@
                    &&& plan.emit_span_open
                    &&& plan.emit_span_close
                },
                Err(e) => {
                    &&& e == InitError::InvalidCeiling
                    &&& has_file_sink(config)
                    &&& spec_effective_ceiling(level, env) is None
                },
            }
        }),
{
    let level = match config {
        Some(c) => c.level,
        None => None,
    };
    let resolved = resolve_filter(level, env_expr);
    proof {
        lemma_resolution_ceiling(spec_config_level(config), opt_str_view(env_expr), resolved);
    }
    let writer = match build_writer_plan(config, &resolved) {
        Ok(w) => w,
        Err(e) => {
            return Err(e);
        },
    };
    let filter = match &writer {
        WriterPlan::Console => resolved,
        WriterPlan::Files { ceiling, .. } => EffectiveFilter::Level(
            ceiling.min_importance(LevelInner::Info),
        ),
    };
    let exporter = match exporter_endpoint {
        Some(e) => Some(e.get_host()),
        None => None,
    };
    Ok(
        PipelinePlan {
            filter,
            writer,
            exporter,
            batch_size: EXPORT_BATCH_SIZE,
            timestamp_format: "[%F %X%.3f %:z]".to_owned(),
            emit_span_open: true,
            emit_span_close: true,
        },
    )
}

/// The two states of the subsystem: the global pipeline is installed at most
/// once per process, and there is no teardown transition.
#[derive(Copy, Clone, Debug, PartialEq, Eq, Structural)]
pub enum PipelineState {
    /// No global pipeline has been installed yet.
    Uninitialized,
    /// The one global pipeline is installed.
    Initialized,
}

impl PipelineState {
    /// One step of the install state machine: the state after an install
    /// attempt, and whether that attempt succeeds.
    pub open spec fn spec_install(self) -> (PipelineState, bool) {
        match self {
            PipelineState::Uninitialized => (PipelineState::Initialized, true),
            PipelineState::Initialized => (PipelineState::Initialized, false),
        }
    }

    /// Attempts the one-way transition to `Initialized`; fails
    /// deterministically when a pipeline is already installed.
    pub fn try_install(&mut self) -> (r: Result<(), InitError>)
        ensures
            *final(self) == old(self).spec_install().0,
            r is Ok <==> old(self).spec_install().1,
            r matches Err(e) ==> e == InitError::AlreadyInitialized,
    {
        match *self {
            PipelineState::Uninitialized => {
                *self = PipelineState::Initialized;
                Ok(())
            },
            PipelineState::Initialized => Err(InitError::AlreadyInitialized),
        }
    }
}

/// Law: installation is one way. Any install attempt leaves the subsystem
/// `Initialized`; an attempt made in the `Initialized` state fails; so after
/// one successful install, every further attempt fails while the state is
/// unchanged.
pub proof fn lemma_install_once(s: PipelineState)
    ensures
        s.spec_install().0 == PipelineState::Initialized,
        !s.spec_install().0.spec_install().1,
        s.spec_install().0.spec_install().0 == PipelineState::Initialized,
        s is Initialized ==> !s.spec_install().1,
{
}

/// Relies on `tracing_appender::non_blocking::WorkerGuard`: the flush guard
/// of the background writer thread. Its drop signals the worker and waits,
/// up to the collaborator's own timeouts, for buffered events to be
/// flushed: a best-effort, time-bounded flush, not an absolute guarantee.
#[verifier::external_type_specification]
#[verifier::external_body]
pub struct ExWorkerGuard(tracing_appender::non_blocking::WorkerGuard);

/// The resource handle returned by initialization. It owns the background
/// writer's flush guard and holds no other state; dropping it signals the
/// background worker and waits, up to the collaborator's timeout, for any
/// buffered, not-yet-written events to be flushed (the flushing itself is
/// `WorkerGuard`'s drop behaviour, best-effort and time-bounded). It must
/// be kept alive for as long as logging is expected to occur.
pub struct InitGuard {
    /// The owned flush guard of the non-blocking writer.
    pub worker: tracing_appender::non_blocking::WorkerGuard,
}

impl InitGuard {
    /// Wraps the flush guard handed back when the writer was built.
    pub fn new(worker: tracing_appender::non_blocking::WorkerGuard) -> (r: InitGuard)
        ensures
            r.worker == worker,
    {
        InitGuard { worker }
    }
}

} // verus!
