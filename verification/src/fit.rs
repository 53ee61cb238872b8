//! The fit analyzer: pick an execution path for a model on a machine,
//! compute the memory cost and pool of that path, grade the fit, and record
//! diagnostic notes.

use vstd::prelude::*;
use crate::hardware::SystemSpecs;
use crate::models::LlmModel;
use crate::models::spec_moe_active_vram_mib;
use crate::models::spec_moe_offloaded_ram_mib;

verus! {

/// How comfortably a model's memory needs are met by the chosen pool.
/// Ordered best first: `Perfect > Good > Marginal > TooTight`.
#[derive(Debug, Clone, Copy, PartialEq, Eq, Structural)]
pub enum FitLevel {
    /// Recommended memory met on a pure GPU path.
    Perfect,
    /// Fits with at least 20% headroom (or a GPU path short of recommended).
    Good,
    /// Minimum memory met, but tight.
    Marginal,
    /// Does not fit in the available pool.
    TooTight,
}

/// Which memory pool(s) and device would run inference.
/// Ordered by preference: `Gpu` ahead of every other mode.
#[derive(Debug, Clone, Copy, PartialEq, Eq, Structural)]
pub enum RunMode {
    /// Fully resident in VRAM (or a unified pool).
    Gpu,
    /// Active experts in VRAM, inactive experts offloaded to system RAM.
    MoeOffload,
    /// Spills past VRAM into system RAM.
    CpuOffload,
    /// Entirely in system RAM.
    CpuOnly,
}

/// Sort key of a fit level: better fits first.
pub open spec fn fit_level_rank(l: FitLevel) -> int {
    match l {
        FitLevel::Perfect => 0,
        FitLevel::Good => 1,
        FitLevel::Marginal => 2,
        FitLevel::TooTight => 3,
    }
}

/// Sort key of a run mode: preferred modes first.
pub open spec fn run_mode_rank(m: RunMode) -> int {
    match m {
        RunMode::Gpu => 0,
        RunMode::MoeOffload => 1,
        RunMode::CpuOffload => 2,
        RunMode::CpuOnly => 3,
    }
}

/// The grade for a run mode, given the memory cost and pool of that mode and
/// the model's recommended RAM, all in MiB. A cost above the pool is always
/// `TooTight`; within the pool, only a pure GPU path can reach `Perfect`
/// (when the recommendation is met), offload paths cap at `Good` (20%
/// headroom, the exact rational `available >= 6/5 * required`), and CPU-only
/// inference is at best `Marginal`.
pub open spec fn spec_score_fit(
    required: u64,
    available: u64,
    recommended: u64,
    mode: RunMode,
) -> FitLevel {
    if required > available {
        FitLevel::TooTight
    } else {
        match mode {
            RunMode::Gpu => if recommended <= available {
                FitLevel::Perfect
            } else if 5 * available >= 6 * required {
                FitLevel::Good
            } else {
                FitLevel::Marginal
            },
            RunMode::MoeOffload => if 5 * available >= 6 * required {
                FitLevel::Good
            } else {
                FitLevel::Marginal
            },
            RunMode::CpuOffload => if 5 * available >= 6 * required {
                FitLevel::Good
            } else {
                FitLevel::Marginal
            },
            RunMode::CpuOnly => FitLevel::Marginal,
        }
    }
}

/// Grade a memory fit. See [`spec_score_fit`] for the exact rules.
pub fn score_fit(required: u64, available: u64, recommended: u64, mode: RunMode) -> (level:
    FitLevel)
    ensures
        level == spec_score_fit(required, available, recommended, mode),
        required > available ==> level == FitLevel::TooTight,
        mode == RunMode::CpuOnly ==> level == FitLevel::Marginal || level == FitLevel::TooTight,
        mode == RunMode::MoeOffload || mode == RunMode::CpuOffload ==> level != FitLevel::Perfect,
{
    if required > available {
        return FitLevel::TooTight;
    }
    let headroom_ok = 5 * (available as u128) >= 6 * (required as u128);
    match mode {
        RunMode::Gpu => if recommended <= available {
            FitLevel::Perfect
        } else if headroom_ok {
            FitLevel::Good
        } else {
            FitLevel::Marginal
        },
        RunMode::MoeOffload => if headroom_ok {
            FitLevel::Good
        } else {
            FitLevel::Marginal
        },
        RunMode::CpuOffload => if headroom_ok {
            FitLevel::Good
        } else {
            FitLevel::Marginal
        },
        RunMode::CpuOnly => FitLevel::Marginal,
    }
}

/// One diagnostic note attached to a fit result. Notes explain the chosen
/// path and carry the numbers a presenter needs; they have no effect on the
/// grade. Memory amounts are in MiB, expert counts are counts.
#[derive(Debug, Clone, Copy, PartialEq, Eq, Structural)]
pub enum Note {
    /// GPU and CPU share the same pool.
    UnifiedMemoryShared,
    /// Mixture-of-experts on a unified pool: all experts share it.
    MoeExpertsUnified { active: u32, total: u32 },
    /// Model loaded fully into VRAM.
    GpuFullLoad,
    /// Mixture-of-experts fully in VRAM.
    MoeAllExpertsInVram { total: u32 },
    /// Insufficient VRAM; spilling to system RAM.
    GpuSpillToRam,
    /// Performance will be significantly reduced.
    PerformanceReduced,
    /// Insufficient VRAM and system RAM.
    InsufficientBoth,
    /// What a dense load would need in either pool.
    NeedVramOrRam { min_vram_mib: u64, min_ram_mib: u64 },
    /// GPU detected but its VRAM could not be sized.
    GpuVramUnknown,
    /// Model loaded into system RAM for CPU-only inference.
    CpuOnlyLoad,
    /// Mixture-of-experts architecture, but expert offloading needs a GPU.
    MoeNeedsGpu,
    /// Active experts resident in VRAM.
    MoeActiveInVram { active: u32, total: u32, active_vram_mib: u64 },
    /// Inactive experts offloaded to system RAM.
    MoeOffloadedToRam { offloaded_mib: u64 },
    /// Insufficient VRAM even for expert offloading.
    MoeInsufficientVram,
    /// What a full load or an expert-offload load would need in VRAM.
    NeedVramFullOrMoe { full_vram_mib: u64, moe_vram_mib: u64 },
    /// The whole model spills to system RAM.
    SpillEntireModel,
    /// No GPU: inference will be slow.
    NoGpuSlow,
    /// A low core count may bottleneck CPU inference.
    LowCpuCores,
}

/// One analysis outcome: the chosen run mode, the memory cost and pool that
/// grade it, the grade, and the notes, together with a copy of the model it
/// was computed for. Recomputed fresh per query, never cached or mutated.
#[derive(Debug, PartialEq)]
pub struct ModelFit {
    pub model: LlmModel,
    pub fit_level: FitLevel,
    pub run_mode: RunMode,
    /// The memory the chosen run mode needs, in MiB.
    pub memory_required_mib: u64,
    /// The pool the chosen run mode draws on, in MiB.
    pub memory_available_mib: u64,
    pub notes: Vec<Note>,
    /// RAM occupied by inactive experts; present exactly when the run mode
    /// is [`RunMode::MoeOffload`].
    pub moe_offloaded_mib: Option<u64>,
}

/// The minimum VRAM a model asks for; a model with no stated GPU
/// requirement is treated as needing its minimum RAM from whichever pool.
pub open spec fn spec_min_vram_mib(m: LlmModel) -> u64 {
    match m.min_vram_mib {
        Some(v) => v,
        None => m.min_ram_mib,
    }
}

/// Expert offloading is viable when both estimator figures exist, the
/// active experts fit in VRAM, and the offloaded experts fit in available
/// system RAM.
pub open spec fn spec_moe_viable(m: LlmModel, s: SystemSpecs, vram: u64) -> bool {
    match (spec_moe_active_vram_mib(m), spec_moe_offloaded_ram_mib(m)) {
        (Some(av), Some(og)) => av <= vram && og <= s.available_ram_mib,
        _ => false,
    }
}

/// The run-mode decision tree, first matching branch winning:
/// no GPU, or one that cannot be sized, runs CPU-only; a unified pool runs
/// as GPU; a separate VRAM pool that holds the model runs as GPU; otherwise
/// a mixture-of-experts model tries expert offloading, and a model whose
/// minimum RAM fits spills to system RAM; when nothing fits, the shortfall
/// is reported against the preferred pool, VRAM.
pub open spec fn spec_run_mode(m: LlmModel, s: SystemSpecs) -> RunMode {
    if !s.has_gpu {
        RunMode::CpuOnly
    } else if s.unified_memory {
        match s.gpu_vram_mib {
            Some(_) => RunMode::Gpu,
            None => RunMode::CpuOnly,
        }
    } else {
        match s.gpu_vram_mib {
            Some(vram) => if spec_min_vram_mib(m) <= vram {
                RunMode::Gpu
            } else if m.is_moe && spec_moe_viable(m, s, vram) {
                RunMode::MoeOffload
            } else if m.min_ram_mib <= s.available_ram_mib {
                RunMode::CpuOffload
            } else {
                RunMode::Gpu
            },
            None => RunMode::CpuOnly,
        }
    }
}

/// The memory cost graded for the chosen run mode: the effective minimum
/// VRAM on a GPU path, the active-expert footprint under expert offloading,
/// and the minimum RAM on the CPU paths.
pub open spec fn spec_memory_required_mib(m: LlmModel, s: SystemSpecs) -> u64 {
    match spec_run_mode(m, s) {
        RunMode::Gpu => spec_min_vram_mib(m),
        RunMode::MoeOffload => spec_moe_active_vram_mib(m).unwrap(),
        RunMode::CpuOffload => m.min_ram_mib,
        RunMode::CpuOnly => m.min_ram_mib,
    }
}

/// The pool the chosen run mode is graded against: the VRAM (or unified)
/// pool on GPU paths, available system RAM on CPU paths.
pub open spec fn spec_memory_available_mib(m: LlmModel, s: SystemSpecs) -> u64 {
    match spec_run_mode(m, s) {
        RunMode::Gpu => s.gpu_vram_mib.unwrap(),
        RunMode::MoeOffload => s.gpu_vram_mib.unwrap(),
        RunMode::CpuOffload => s.available_ram_mib,
        RunMode::CpuOnly => s.available_ram_mib,
    }
}

/// The grade of the chosen run mode.
pub open spec fn spec_fit_level(m: LlmModel, s: SystemSpecs) -> FitLevel {
    spec_score_fit(
        spec_memory_required_mib(m, s),
        spec_memory_available_mib(m, s),
        m.recommended_ram_mib,
        spec_run_mode(m, s),
    )
}

/// The offloaded-expert figure, present exactly on the expert-offload path.
pub open spec fn spec_moe_offloaded_field(m: LlmModel, s: SystemSpecs) -> Option<u64> {
    if spec_run_mode(m, s) == RunMode::MoeOffload {
        spec_moe_offloaded_ram_mib(m)
    } else {
        None
    }
}

/// Notes of the CPU-only path.
pub open spec fn spec_cpu_path_notes(m: LlmModel) -> Seq<Note> {
    if m.is_moe {
        seq![Note::CpuOnlyLoad, Note::MoeNeedsGpu]
    } else {
        seq![Note::CpuOnlyLoad]
    }
}

/// Notes of the expert-offload attempt (reached only for mixture-of-experts
/// models that do not fit wholly in a known, separate VRAM pool).
pub open spec fn spec_moe_path_notes(m: LlmModel, s: SystemSpecs, vram: u64) -> Seq<Note> {
    if spec_moe_viable(m, s, vram) {
        seq![
            Note::MoeActiveInVram {
                active: m.active_experts.unwrap_or(0),
                total: m.num_experts.unwrap_or(0),
                active_vram_mib: spec_moe_active_vram_mib(m).unwrap(),
            },
            Note::MoeOffloadedToRam { offloaded_mib: spec_moe_offloaded_ram_mib(m).unwrap() },
        ]
    } else if m.min_ram_mib <= s.available_ram_mib {
        seq![Note::MoeInsufficientVram, Note::SpillEntireModel, Note::PerformanceReduced]
    } else {
        seq![
            Note::InsufficientBoth,
            Note::NeedVramFullOrMoe {
                full_vram_mib: spec_min_vram_mib(m),
                moe_vram_mib: spec_moe_active_vram_mib(m).unwrap_or(spec_min_vram_mib(m)),
            },
        ]
    }
}

/// Notes of the branch that chose the run mode.
pub open spec fn spec_branch_notes(m: LlmModel, s: SystemSpecs) -> Seq<Note> {
    if !s.has_gpu {
        spec_cpu_path_notes(m)
    } else if s.unified_memory {
        match s.gpu_vram_mib {
            Some(_) => if m.is_moe {
                seq![
                    Note::UnifiedMemoryShared,
                    Note::MoeExpertsUnified {
                        active: m.active_experts.unwrap_or(0),
                        total: m.num_experts.unwrap_or(0),
                    },
                ]
            } else {
                seq![Note::UnifiedMemoryShared]
            },
            None => spec_cpu_path_notes(m),
        }
    } else {
        match s.gpu_vram_mib {
            Some(vram) => if spec_min_vram_mib(m) <= vram {
                if m.is_moe {
                    seq![
                        Note::GpuFullLoad,
                        Note::MoeAllExpertsInVram { total: m.num_experts.unwrap_or(0) },
                    ]
                } else {
                    seq![Note::GpuFullLoad]
                }
            } else if m.is_moe {
                spec_moe_path_notes(m, s, vram)
            } else if m.min_ram_mib <= s.available_ram_mib {
                seq![Note::GpuSpillToRam, Note::PerformanceReduced]
            } else {
                seq![
                    Note::InsufficientBoth,
                    Note::NeedVramOrRam {
                        min_vram_mib: spec_min_vram_mib(m),
                        min_ram_mib: m.min_ram_mib,
                    },
                ]
            },
            None => seq![Note::GpuVramUnknown] + spec_cpu_path_notes(m),
        }
    }
}

/// All notes of an analysis: the branch notes, then the supplementary
/// cautions appended after grading (a no-GPU note on the CPU-only path and
/// a low-core-count caution on CPU-bound paths of machines with fewer than
/// four cores).
pub open spec fn spec_notes(m: LlmModel, s: SystemSpecs) -> Seq<Note> {
    let mode = spec_run_mode(m, s);
    let with_gpu_note = if mode == RunMode::CpuOnly {
        spec_branch_notes(m, s).push(Note::NoGpuSlow)
    } else {
        spec_branch_notes(m, s)
    };
    if (mode == RunMode::CpuOffload || mode == RunMode::CpuOnly) && s.total_cpu_cores < 4 {
        with_gpu_note.push(Note::LowCpuCores)
    } else {
        with_gpu_note
    }
}

/// `f` is the analysis of model `m` on machine `s`: every field is pinned.
pub open spec fn spec_is_analysis(m: LlmModel, s: SystemSpecs, f: ModelFit) -> bool {
    &&& f.model == m
    &&& f.run_mode == spec_run_mode(m, s)
    &&& f.memory_required_mib == spec_memory_required_mib(m, s)
    &&& f.memory_available_mib == spec_memory_available_mib(m, s)
    &&& f.fit_level == spec_fit_level(m, s)
    &&& f.notes@ == spec_notes(m, s)
    &&& f.moe_offloaded_mib == spec_moe_offloaded_field(m, s)
}

/// The one-glyph status marker of each fit grade.
pub open spec fn spec_fit_emoji(l: FitLevel) -> Seq<char> {
    match l {
        FitLevel::Perfect => "\u{1F7E2}"@,
        FitLevel::Good => "\u{1F7E1}"@,
        FitLevel::Marginal => "\u{1F7E0}"@,
        FitLevel::TooTight => "\u{1F534}"@,
    }
}

/// The display text of each fit grade.
pub open spec fn spec_fit_text(l: FitLevel) -> Seq<char> {
    match l {
        FitLevel::Perfect => "Perfect"@,
        FitLevel::Good => "Good"@,
        FitLevel::Marginal => "Marginal"@,
        FitLevel::TooTight => "Too Tight"@,
    }
}

/// The display text of each run mode.
pub open spec fn spec_run_mode_text(m: RunMode) -> Seq<char> {
    match m {
        RunMode::Gpu => "GPU"@,
        RunMode::MoeOffload => "MoE"@,
        RunMode::CpuOffload => "CPU+GPU"@,
        RunMode::CpuOnly => "CPU"@,
    }
}

/// Memory utilization of a fit, in permille of the pool (500 is 50.0%);
/// `None` stands for a zero pool, infinite utilization.
pub open spec fn spec_utilization_permille(required: u64, available: u64) -> Option<u128> {
    if available == 0 {
        None
    } else {
        Some(((required * 1000) / (available as int)) as u128)
    }
}

/// The CPU-only path: the model's minimum RAM against available system RAM.
fn cpu_path(model: &LlmModel, system: &SystemSpecs, notes: &mut Vec<Note>) -> (r: (
    RunMode,
    u64,
    u64,
))
    ensures
        final(notes)@ == old(notes)@ + spec_cpu_path_notes(*model),
        r == (RunMode::CpuOnly, model.min_ram_mib, system.available_ram_mib),
{
    notes.push(Note::CpuOnlyLoad);
    if model.is_moe {
        notes.push(Note::MoeNeedsGpu);
    }
    assert(final(notes)@ =~= old(notes)@ + spec_cpu_path_notes(*model));
    (RunMode::CpuOnly, model.min_ram_mib, system.available_ram_mib)
}

/// Expert offloading: active experts in VRAM, inactive in RAM; falls back
/// to the spill and nothing-fits paths when not viable.
fn moe_offload_path(
    model: &LlmModel,
    system: &SystemSpecs,
    system_vram: u64,
    total_vram: u64,
    notes: &mut Vec<Note>,
) -> (r: (RunMode, u64, u64))
    requires
        model.is_moe,
        system.has_gpu,
        !system.unified_memory,
        system.gpu_vram_mib == Some(system_vram),
        total_vram == spec_min_vram_mib(*model),
        total_vram > system_vram,
    ensures
        r.0 == spec_run_mode(*model, *system),
        r.1 == spec_memory_required_mib(*model, *system),
        r.2 == spec_memory_available_mib(*model, *system),
        final(notes)@ == old(notes)@ + spec_moe_path_notes(*model, *system, system_vram),
{
    let active_vram = model.moe_active_vram_mib();
    let offloaded = model.moe_offloaded_ram_mib();
    if let (Some(moe_vram), Some(offloaded_mib)) = (active_vram, offloaded) {
        if moe_vram <= system_vram && offloaded_mib <= system.available_ram_mib {
            notes.push(
                Note::MoeActiveInVram {
                    active: model.active_experts.unwrap_or(0),
                    total: model.num_experts.unwrap_or(0),
                    active_vram_mib: moe_vram,
                },
            );
            notes.push(Note::MoeOffloadedToRam { offloaded_mib });
            assert(final(notes)@ =~= old(notes)@ + spec_moe_path_notes(
                *model,
                *system,
                system_vram,
            ));
            return (RunMode::MoeOffload, moe_vram, system_vram);
        }
    }
    if model.min_ram_mib <= system.available_ram_mib {
        notes.push(Note::MoeInsufficientVram);
        notes.push(Note::SpillEntireModel);
        notes.push(Note::PerformanceReduced);
        assert(final(notes)@ =~= old(notes)@ + spec_moe_path_notes(*model, *system, system_vram));
        (RunMode::CpuOffload, model.min_ram_mib, system.available_ram_mib)
    } else {
        notes.push(Note::InsufficientBoth);
        let moe_vram_mib = match active_vram {
            Some(v) => v,
            None => total_vram,
        };
        notes.push(Note::NeedVramFullOrMoe { full_vram_mib: total_vram, moe_vram_mib });
        assert(final(notes)@ =~= old(notes)@ + spec_moe_path_notes(*model, *system, system_vram));
        (RunMode::Gpu, total_vram, system_vram)
    }
}

impl ModelFit {
    /// Analyze one model against one machine. Total: every input produces a
    /// result, missing optional data falls through to an explicit branch,
    /// and no input is an error. The grade obeys the caps stated in
    /// [`spec_score_fit`]: an over-budget fit is `TooTight` whatever the
    /// mode, CPU-only is at best `Marginal`, and the offload modes never
    /// reach `Perfect`.
    pub fn analyze(model: &LlmModel, system: &SystemSpecs) -> (fit: ModelFit)
        ensures
            spec_is_analysis(*model, *system, fit),
            fit.memory_required_mib > fit.memory_available_mib ==> fit.fit_level
                == FitLevel::TooTight,
            fit.run_mode == RunMode::CpuOnly ==> fit.fit_level == FitLevel::Marginal
                || fit.fit_level == FitLevel::TooTight,
            fit.run_mode == RunMode::MoeOffload || fit.run_mode == RunMode::CpuOffload
                ==> fit.fit_level != FitLevel::Perfect,
    {
        let mut notes: Vec<Note> = Vec::new();

        let min_vram = match model.min_vram_mib {
            Some(v) => v,
            None => model.min_ram_mib,
        };

        let (run_mode, mem_required, mem_available): (RunMode, u64, u64) = if system.has_gpu {
            if system.unified_memory {
                if let Some(pool) = system.gpu_vram_mib {
                    notes.push(Note::UnifiedMemoryShared);
                    if model.is_moe {
                        notes.push(
                            Note::MoeExpertsUnified {
                                active: model.active_experts.unwrap_or(0),
                                total: model.num_experts.unwrap_or(0),
                            },
                        );
                    }
                    (RunMode::Gpu, min_vram, pool)
                } else {
                    cpu_path(model, system, &mut notes)
                }
            } else if let Some(system_vram) = system.gpu_vram_mib {
                if min_vram <= system_vram {
                    notes.push(Note::GpuFullLoad);
                    if model.is_moe {
                        notes.push(
                            Note::MoeAllExpertsInVram { total: model.num_experts.unwrap_or(0) },
                        );
                    }
                    (RunMode::Gpu, min_vram, system_vram)
                } else if model.is_moe {
                    moe_offload_path(model, system, system_vram, min_vram, &mut notes)
                } else if model.min_ram_mib <= system.available_ram_mib {
                    notes.push(Note::GpuSpillToRam);
                    notes.push(Note::PerformanceReduced);
                    (RunMode::CpuOffload, model.min_ram_mib, system.available_ram_mib)
                } else {
                    notes.push(Note::InsufficientBoth);
                    notes.push(
                        Note::NeedVramOrRam {
                            min_vram_mib: min_vram,
                            min_ram_mib: model.min_ram_mib,
                        },
                    );
                    (RunMode::Gpu, min_vram, system_vram)
                }
            } else {
                notes.push(Note::GpuVramUnknown);
                cpu_path(model, system, &mut notes)
            }
        } else {
            cpu_path(model, system, &mut notes)
        };

        assert(notes@ =~= spec_branch_notes(*model, *system));

        let fit_level = score_fit(mem_required, mem_available, model.recommended_ram_mib, run_mode);

        if run_mode == RunMode::CpuOnly {
            notes.push(Note::NoGpuSlow);
        }
        if (run_mode == RunMode::CpuOffload || run_mode == RunMode::CpuOnly)
            && system.total_cpu_cores < 4 {
            notes.push(Note::LowCpuCores);
        }
        assert(notes@ =~= spec_notes(*model, *system));

        let moe_offloaded_mib = if run_mode == RunMode::MoeOffload {
            model.moe_offloaded_ram_mib()
        } else {
            None
        };

        ModelFit {
            model: model.duplicate(),
            fit_level,
            run_mode,
            memory_required_mib: mem_required,
            memory_available_mib: mem_available,
            notes,
            moe_offloaded_mib,
        }
    }

    /// A one-glyph status marker for the fit grade.
    pub fn fit_emoji(&self) -> (r: &'static str)
        ensures
            r@ == spec_fit_emoji(self.fit_level),
    {
        match self.fit_level {
            FitLevel::Perfect => "\u{1F7E2}",
            FitLevel::Good => "\u{1F7E1}",
            FitLevel::Marginal => "\u{1F7E0}",
            FitLevel::TooTight => "\u{1F534}",
        }
    }

    /// The fit grade as display text.
    pub fn fit_text(&self) -> (r: &'static str)
        ensures
            r@ == spec_fit_text(self.fit_level),
    {
        match self.fit_level {
            FitLevel::Perfect => "Perfect",
            FitLevel::Good => "Good",
            FitLevel::Marginal => "Marginal",
            FitLevel::TooTight => "Too Tight",
        }
    }

    /// The run mode as display text.
    pub fn run_mode_text(&self) -> (r: &'static str)
        ensures
            r@ == spec_run_mode_text(self.run_mode),
    {
        match self.run_mode {
            RunMode::Gpu => "GPU",
            RunMode::MoeOffload => "MoE",
            RunMode::CpuOffload => "CPU+GPU",
            RunMode::CpuOnly => "CPU",
        }
    }

    /// Memory utilization in permille of the pool; `None` when the pool is
    /// zero (infinite utilization, not an error).
    pub fn utilization_permille(&self) -> (r: Option<u128>)
        ensures
            r == spec_utilization_permille(self.memory_required_mib, self.memory_available_mib),
    {
        if self.memory_available_mib == 0 {
            None
        } else {
            Some((self.memory_required_mib as u128) * 1000 / (self.memory_available_mib as u128))
        }
    }
}

} // verus!

