use llmfit::{rank_models_by_fit, run_fit, FitLevel, LlmModel, ModelFit, Quantization, RunMode,
    SystemSpecs};

fn named_model(name: &str) -> LlmModel {
    LlmModel {
        name: name.to_string(),
        provider: "TestLab".to_string(),
        parameter_count: "7B".to_string(),
        parameters_raw: None,
        min_ram_mib: 8192,
        recommended_ram_mib: 12288,
        min_vram_mib: None,
        quantization: Quantization::Q4_K_M,
        context_length: 8192,
        use_case: "general".to_string(),
        is_moe: false,
        num_experts: None,
        active_experts: None,
        active_parameters: None,
    }
}

fn fit_entry(
    name: &str,
    fit_level: FitLevel,
    run_mode: RunMode,
    required: u64,
    available: u64,
) -> ModelFit {
    ModelFit {
        model: named_model(name),
        fit_level,
        run_mode,
        memory_required_mib: required,
        memory_available_mib: available,
        notes: vec![],
        moe_offloaded_mib: None,
    }
}

fn names(fits: &[ModelFit]) -> Vec<String> {
    fits.iter().map(|f| f.model.name.clone()).collect()
}

#[test]
fn rank_orders_by_fit_level() {
    let ranked = rank_models_by_fit(vec![
        fit_entry("marginal", FitLevel::Marginal, RunMode::Gpu, 10, 20),
        fit_entry("too-tight", FitLevel::TooTight, RunMode::Gpu, 30, 20),
        fit_entry("perfect", FitLevel::Perfect, RunMode::Gpu, 10, 20),
        fit_entry("good", FitLevel::Good, RunMode::Gpu, 10, 20),
    ]);
    assert_eq!(names(&ranked), vec!["perfect", "good", "marginal", "too-tight"]);
}

#[test]
fn rank_prefers_gpu_within_a_level() {
    let ranked = rank_models_by_fit(vec![
        fit_entry("cpu", FitLevel::Good, RunMode::CpuOnly, 10, 20),
        fit_entry("offload", FitLevel::Good, RunMode::CpuOffload, 10, 20),
        fit_entry("gpu", FitLevel::Good, RunMode::Gpu, 10, 20),
        fit_entry("moe", FitLevel::Good, RunMode::MoeOffload, 10, 20),
    ]);
    assert_eq!(names(&ranked), vec!["gpu", "moe", "offload", "cpu"]);
}

#[test]
fn rank_orders_by_utilization_ascending() {
    let ranked = rank_models_by_fit(vec![
        fit_entry("half", FitLevel::Good, RunMode::Gpu, 50, 100),
        fit_entry("tenth", FitLevel::Good, RunMode::Gpu, 10, 100),
        fit_entry("third", FitLevel::Good, RunMode::Gpu, 1, 3),
    ]);
    assert_eq!(names(&ranked), vec!["tenth", "third", "half"]);
}

#[test]
fn rank_compares_utilization_exactly() {
    // 333/1000 is strictly below 1/3: cross-multiplication keeps the exact
    // rational order.
    let ranked = rank_models_by_fit(vec![
        fit_entry("a-third", FitLevel::Good, RunMode::Gpu, 1, 3),
        fit_entry("just-under", FitLevel::Good, RunMode::Gpu, 333, 1000),
    ]);
    assert_eq!(names(&ranked), vec!["just-under", "a-third"]);
}

#[test]
fn rank_puts_infinite_utilization_last() {
    let ranked = rank_models_by_fit(vec![
        fit_entry("empty-pool", FitLevel::TooTight, RunMode::Gpu, 10, 0),
        fit_entry("finite", FitLevel::TooTight, RunMode::Gpu, 30, 20),
    ]);
    assert_eq!(names(&ranked), vec!["finite", "empty-pool"]);
}

#[test]
fn rank_is_stable_on_full_ties() {
    // Equal grade, mode, and utilization (1/10 == 10/100): input order is
    // kept.
    let ranked = rank_models_by_fit(vec![
        fit_entry("first", FitLevel::Good, RunMode::Gpu, 1, 10),
        fit_entry("second", FitLevel::Good, RunMode::Gpu, 10, 100),
        fit_entry("third", FitLevel::Good, RunMode::Gpu, 1, 10),
    ]);
    assert_eq!(names(&ranked), vec!["first", "second", "third"]);
}

#[test]
fn rank_is_stable_across_moves() {
    // The tied pair keeps its order even when a better entry moves past it.
    let ranked = rank_models_by_fit(vec![
        fit_entry("tied-a", FitLevel::Marginal, RunMode::CpuOnly, 10, 20),
        fit_entry("tied-b", FitLevel::Marginal, RunMode::CpuOnly, 10, 20),
        fit_entry("winner", FitLevel::Perfect, RunMode::Gpu, 10, 20),
    ]);
    assert_eq!(names(&ranked), vec!["winner", "tied-a", "tied-b"]);
}

#[test]
fn rank_permutes_its_input() {
    let input = vec![
        fit_entry("a", FitLevel::Marginal, RunMode::CpuOnly, 10, 20),
        fit_entry("b", FitLevel::Perfect, RunMode::Gpu, 10, 20),
        fit_entry("c", FitLevel::Good, RunMode::Gpu, 10, 20),
    ];
    let ranked = rank_models_by_fit(input);
    assert_eq!(ranked.len(), 3);
    let mut seen = names(&ranked);
    seen.sort();
    assert_eq!(seen, vec!["a", "b", "c"]);
}

#[test]
fn rank_of_empty_is_empty() {
    let ranked = rank_models_by_fit(vec![]);
    assert!(ranked.is_empty());
}

#[test]
fn rank_of_single_is_itself() {
    let ranked = rank_models_by_fit(vec![fit_entry("only", FitLevel::Good, RunMode::Gpu, 1, 2)]);
    assert_eq!(names(&ranked), vec!["only"]);
}

#[test]
fn rank_is_idempotent() {
    let build = || vec![
        fit_entry("a", FitLevel::Marginal, RunMode::CpuOnly, 10, 20),
        fit_entry("b", FitLevel::Perfect, RunMode::Gpu, 10, 20),
        fit_entry("tied-1", FitLevel::Good, RunMode::Gpu, 1, 10),
        fit_entry("tied-2", FitLevel::Good, RunMode::Gpu, 10, 100),
        fit_entry("c", FitLevel::Good, RunMode::CpuOffload, 10, 0),
    ];
    let once = rank_models_by_fit(build());
    let twice = rank_models_by_fit(rank_models_by_fit(build()));
    assert_eq!(twice, once);
}

fn pipeline_machine() -> SystemSpecs {
    SystemSpecs {
        total_ram_mib: 65536,
        available_ram_mib: 32768,
        total_cpu_cores: 8,
        cpu_name: "Test CPU".to_string(),
        has_gpu: true,
        gpu_vram_mib: Some(24576),
        unified_memory: false,
    }
}

fn catalog_model(name: &str, min_ram_mib: u64, recommended_ram_mib: u64, min_vram_mib: Option<u64>) -> LlmModel {
    let mut m = named_model(name);
    m.min_ram_mib = min_ram_mib;
    m.recommended_ram_mib = recommended_ram_mib;
    m.min_vram_mib = min_vram_mib;
    m
}

#[test]
fn run_fit_ranks_the_whole_catalog() {
    let models = vec![
        // CPU spill: Good (32768 >= 6/5 * 25600).
        catalog_model("spills", 25600, 28672, Some(32768)),
        // GPU, recommendation met: Perfect.
        catalog_model("fits-gpu", 16384, 20480, Some(16384)),
        // GPU, recommendation missed, 20% headroom missed: Marginal.
        catalog_model("tight-gpu", 22528, 28672, Some(22528)),
    ];
    let report = run_fit(&models, &pipeline_machine(), false, None);
    assert_eq!(names(&report), vec!["fits-gpu", "spills", "tight-gpu"]);
}

#[test]
fn run_fit_perfect_only_screens() {
    let models = vec![
        catalog_model("spills", 25600, 28672, Some(32768)),
        catalog_model("fits-gpu", 16384, 20480, Some(16384)),
    ];
    let report = run_fit(&models, &pipeline_machine(), true, None);
    assert_eq!(names(&report), vec!["fits-gpu"]);
    assert_eq!(report[0].fit_level, FitLevel::Perfect);
}

#[test]
fn run_fit_limit_truncates_after_ranking() {
    let models = vec![
        catalog_model("spills", 25600, 28672, Some(32768)),
        catalog_model("fits-gpu", 16384, 20480, Some(16384)),
        catalog_model("tight-gpu", 22528, 28672, Some(22528)),
    ];
    let report = run_fit(&models, &pipeline_machine(), false, Some(2));
    assert_eq!(names(&report), vec!["fits-gpu", "spills"]);
    let unlimited = run_fit(&models, &pipeline_machine(), false, Some(100));
    assert_eq!(unlimited.len(), 3);
}
