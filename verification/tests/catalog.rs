use llmfit::{LlmModel, ModelDatabase, Quantization};

fn catalog_entry(name: &str, provider: &str, parameter_count: &str) -> LlmModel {
    LlmModel {
        name: name.to_string(),
        provider: provider.to_string(),
        parameter_count: parameter_count.to_string(),
        parameters_raw: None,
        min_ram_mib: 8192,
        recommended_ram_mib: 12288,
        min_vram_mib: None,
        quantization: Quantization::Q4_K_M,
        context_length: 8192,
        use_case: "general".to_string(),
        is_moe: false,
        num_experts: None,
        active_experts: None,
        active_parameters: None,
    }
}

fn sample_db() -> ModelDatabase {
    ModelDatabase::new(vec![
        catalog_entry("Llama-3-8B", "Meta", "8B"),
        catalog_entry("Mistral-7B", "Mistral AI", "7B"),
        catalog_entry("Phi-3-mini", "Microsoft", "3.8B"),
    ])
}

#[test]
fn get_all_models_returns_the_catalog() {
    let db = sample_db();
    let all = db.get_all_models();
    assert_eq!(all.len(), 3);
    assert_eq!(all[0].name, "Llama-3-8B");
    assert_eq!(all[2].name, "Phi-3-mini");
}

#[test]
fn find_model_is_case_insensitive_on_the_query() {
    // An upper-case query still matches a lower-case name: both sides are
    // case-folded before matching.
    let db = sample_db();
    let hits = db.find_model("LLAMA");
    assert_eq!(hits.len(), 1);
    assert_eq!(hits[0].name, "Llama-3-8B");
}

#[test]
fn find_model_is_case_insensitive_on_the_name() {
    let db = sample_db();
    let hits = db.find_model("mist");
    assert_eq!(hits.len(), 1);
    assert_eq!(hits[0].name, "Mistral-7B");
}

#[test]
fn find_model_searches_provider() {
    let db = sample_db();
    let hits = db.find_model("microsoft");
    assert_eq!(hits.len(), 1);
    assert_eq!(hits[0].name, "Phi-3-mini");
}

#[test]
fn find_model_searches_parameter_count() {
    let db = sample_db();
    let hits = db.find_model("3.8b");
    assert_eq!(hits.len(), 1);
    assert_eq!(hits[0].name, "Phi-3-mini");
}

#[test]
fn find_model_keeps_catalog_order() {
    // "7b" occurs in Mistral's parameter count only; "b" in all three.
    let db = sample_db();
    let hits = db.find_model("b");
    let found: Vec<&str> = hits.iter().map(|m| m.name.as_str()).collect();
    assert_eq!(found, vec!["Llama-3-8B", "Mistral-7B", "Phi-3-mini"]);
}

#[test]
fn find_model_misses_cleanly() {
    let db = sample_db();
    assert!(db.find_model("gemma").is_empty());
}

#[test]
fn fitting_screen_checks_ram() {
    let mut small = catalog_entry("Small", "Lab", "1B");
    small.min_ram_mib = 4096;
    let mut big = catalog_entry("Big", "Lab", "70B");
    big.min_ram_mib = 65536;
    let db = ModelDatabase::new(vec![small, big]);
    let fitting = db.models_fitting_system(16384, false, None);
    assert_eq!(fitting.len(), 1);
    assert_eq!(fitting[0].name, "Small");
}

#[test]
fn fitting_screen_checks_vram_when_known() {
    let mut wants_gpu = catalog_entry("Wants-GPU", "Lab", "13B");
    wants_gpu.min_vram_mib = Some(16384);
    let db = ModelDatabase::new(vec![wants_gpu]);
    assert!(db.models_fitting_system(32768, true, Some(8192)).is_empty());
    assert_eq!(db.models_fitting_system(32768, true, Some(24576)).len(), 1);
}

#[test]
fn fitting_screen_allows_unknown_vram() {
    let mut wants_gpu = catalog_entry("Wants-GPU", "Lab", "13B");
    wants_gpu.min_vram_mib = Some(16384);
    let db = ModelDatabase::new(vec![wants_gpu]);
    assert_eq!(db.models_fitting_system(32768, true, None).len(), 1);
}

#[test]
fn fitting_screen_without_gpu_needs_recommended_ram() {
    let mut wants_gpu = catalog_entry("Wants-GPU", "Lab", "13B");
    wants_gpu.min_vram_mib = Some(16384);
    wants_gpu.min_ram_mib = 8192;
    wants_gpu.recommended_ram_mib = 24576;
    let db = ModelDatabase::new(vec![wants_gpu]);
    // Minimum RAM alone is not enough without a GPU...
    assert!(db.models_fitting_system(16384, false, None).is_empty());
    // ...but recommended RAM is.
    assert_eq!(db.models_fitting_system(24576, false, None).len(), 1);
}
