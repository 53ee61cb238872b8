use llmfit::{LlmModel, Quantization};

fn entry(
    quantization: Quantization,
    is_moe: bool,
    active_parameters: Option<u64>,
    parameters_raw: Option<u64>,
) -> LlmModel {
    LlmModel {
        name: "Estimator-Model".to_string(),
        provider: "TestLab".to_string(),
        parameter_count: "12B".to_string(),
        parameters_raw,
        min_ram_mib: 8192,
        recommended_ram_mib: 12288,
        min_vram_mib: None,
        quantization,
        context_length: 4096,
        use_case: "general".to_string(),
        is_moe,
        num_experts: Some(16),
        active_experts: Some(2),
        active_parameters,
    }
}

#[test]
fn quantization_labels_parse() {
    assert_eq!(Quantization::from_label("F32"), Quantization::F32);
    assert_eq!(Quantization::from_label("F16"), Quantization::F16);
    assert_eq!(Quantization::from_label("BF16"), Quantization::BF16);
    assert_eq!(Quantization::from_label("Q8_0"), Quantization::Q8_0);
    assert_eq!(Quantization::from_label("Q6_K"), Quantization::Q6_K);
    assert_eq!(Quantization::from_label("Q5_K_M"), Quantization::Q5_K_M);
    assert_eq!(Quantization::from_label("Q4_K_M"), Quantization::Q4_K_M);
    assert_eq!(Quantization::from_label("Q4_0"), Quantization::Q4_0);
    assert_eq!(Quantization::from_label("Q3_K_M"), Quantization::Q3_K_M);
    assert_eq!(Quantization::from_label("Q2_K"), Quantization::Q2_K);
}

#[test]
fn unknown_quantization_label_defaults() {
    assert_eq!(Quantization::from_label("Q9_X"), Quantization::Other);
    assert_eq!(Quantization::from_label(""), Quantization::Other);
    assert_eq!(Quantization::from_label("f32"), Quantization::Other);
}

#[test]
fn bytes_per_parameter_table() {
    // In sixteenths of a byte: 4.0, 2.0, 2.0, 1.0, 0.75, 0.625, 0.5, 0.5,
    // 0.4375, 0.3125 bytes, and the 4-bit default for unknown labels.
    assert_eq!(Quantization::F32.bpp_sixteenths(), 64);
    assert_eq!(Quantization::F16.bpp_sixteenths(), 32);
    assert_eq!(Quantization::BF16.bpp_sixteenths(), 32);
    assert_eq!(Quantization::Q8_0.bpp_sixteenths(), 16);
    assert_eq!(Quantization::Q6_K.bpp_sixteenths(), 12);
    assert_eq!(Quantization::Q5_K_M.bpp_sixteenths(), 10);
    assert_eq!(Quantization::Q4_K_M.bpp_sixteenths(), 8);
    assert_eq!(Quantization::Q4_0.bpp_sixteenths(), 8);
    assert_eq!(Quantization::Q3_K_M.bpp_sixteenths(), 7);
    assert_eq!(Quantization::Q2_K.bpp_sixteenths(), 5);
    assert_eq!(Quantization::Other.bpp_sixteenths(), 8);
}

#[test]
fn active_vram_exact_value() {
    // floor(1e9 * 32 * 11 / (10 * 2^24)) = 2098 MiB for a billion F16
    // parameters.
    let m = entry(Quantization::F16, true, Some(1_000_000_000), Some(2_000_000_000));
    assert_eq!(m.moe_active_vram_mib(), Some(2098));
}

#[test]
fn active_vram_floors_at_half_gib() {
    let m = entry(Quantization::Q2_K, true, Some(1_000_000), Some(2_000_000));
    assert_eq!(m.moe_active_vram_mib(), Some(512));
}

#[test]
fn active_vram_absent_for_dense_models() {
    let m = entry(Quantization::F16, false, Some(1_000_000_000), Some(2_000_000_000));
    assert_eq!(m.moe_active_vram_mib(), None);
    assert_eq!(m.moe_offloaded_ram_mib(), None);
}

#[test]
fn active_vram_absent_without_active_count() {
    let m = entry(Quantization::F16, true, None, Some(2_000_000_000));
    assert_eq!(m.moe_active_vram_mib(), None);
    assert_eq!(m.moe_offloaded_ram_mib(), None);
}

#[test]
fn offloaded_ram_exact_value() {
    // A billion inactive F16 parameters: floor(1e9 * 32 / 2^24) = 1907 MiB.
    let m = entry(Quantization::F16, true, Some(1_000_000_000), Some(2_000_000_000));
    assert_eq!(m.moe_offloaded_ram_mib(), Some(1907));
}

#[test]
fn offloaded_ram_absent_without_total_count() {
    let m = entry(Quantization::F16, true, Some(1_000_000_000), None);
    assert_eq!(m.moe_offloaded_ram_mib(), None);
}

#[test]
fn offloaded_ram_clamps_bad_data_to_zero() {
    // More active than total parameters is a data error; the estimate
    // clamps to zero instead of going negative.
    let m = entry(Quantization::F16, true, Some(2_000_000_000), Some(1_000_000_000));
    assert_eq!(m.moe_offloaded_ram_mib(), Some(0));
}

#[test]
fn estimator_handles_the_largest_parameter_count() {
    // The costliest possible entry: u64::MAX parameters at four bytes each.
    // floor(u64::MAX * 64 * 11 / (10 * 2^24)) and
    // floor(u64::MAX * 64 / 2^24), with no overflow.
    let m = entry(Quantization::F32, true, Some(u64::MAX), Some(u64::MAX));
    assert_eq!(m.moe_active_vram_mib(), Some(77_405_618_595_430));
    assert_eq!(m.moe_offloaded_ram_mib(), Some(0));
    let n = entry(Quantization::F32, true, Some(0), Some(u64::MAX));
    assert_eq!(n.moe_offloaded_ram_mib(), Some(70_368_744_177_663));
}

#[test]
fn duplicate_is_equal() {
    let m = entry(Quantization::Q6_K, true, Some(123), Some(456));
    assert_eq!(m.duplicate(), m);
}
