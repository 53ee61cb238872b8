//! Model resource profiles and the cost estimator for mixture-of-experts
//! offloading.
//!
//! Parameter counts are raw counts; per-parameter storage cost is kept in
//! sixteenths of a byte, so every quantization level in the table below is
//! exact. Memory footprints are in MiB (one MiB is 2^20 bytes, so a raw
//! parameter count times sixteenths-of-a-byte divides by 16 * 2^20 = 2^24).

use vstd::prelude::*;
use vstd::arithmetic::div_mod::lemma_div_is_ordered;
use vstd::arithmetic::mul::lemma_mul_upper_bound;
use crate::text::lower_of;
use crate::text::spec_contains_seq;
use crate::text::str_contains;
use crate::text::to_lowercase_str;

verus! {

/// A quantization scheme: how many bits each stored parameter takes.
/// Labels outside the known set map to [`Quantization::Other`], which is
/// costed like a 4-bit scheme rather than rejected.
#[allow(non_camel_case_types)]
#[derive(Debug, Clone, Copy, PartialEq, Eq, Structural)]
pub enum Quantization {
    F32,
    F16,
    BF16,
    Q8_0,
    Q6_K,
    Q5_K_M,
    Q4_K_M,
    Q4_0,
    Q3_K_M,
    Q2_K,
    Other,
}

/// Storage cost of one parameter, in sixteenths of a byte
/// (64 = 4 bytes for `F32`, down to 5 = 0.3125 bytes for `Q2_K`;
/// unknown schemes are costed as 4-bit, 8 sixteenths).
pub open spec fn quant_bpp_sixteenths(q: Quantization) -> u64 {
    match q {
        Quantization::F32 => 64,
        Quantization::F16 => 32,
        Quantization::BF16 => 32,
        Quantization::Q8_0 => 16,
        Quantization::Q6_K => 12,
        Quantization::Q5_K_M => 10,
        Quantization::Q4_K_M => 8,
        Quantization::Q4_0 => 8,
        Quantization::Q3_K_M => 7,
        Quantization::Q2_K => 5,
        Quantization::Other => 8,
    }
}

/// Which quantization scheme a catalog label names.
pub open spec fn spec_quant_of_label(s: Seq<char>) -> Quantization {
    if s == "F32"@ {
        Quantization::F32
    } else if s == "F16"@ {
        Quantization::F16
    } else if s == "BF16"@ {
        Quantization::BF16
    } else if s == "Q8_0"@ {
        Quantization::Q8_0
    } else if s == "Q6_K"@ {
        Quantization::Q6_K
    } else if s == "Q5_K_M"@ {
        Quantization::Q5_K_M
    } else if s == "Q4_K_M"@ {
        Quantization::Q4_K_M
    } else if s == "Q4_0"@ {
        Quantization::Q4_0
    } else if s == "Q3_K_M"@ {
        Quantization::Q3_K_M
    } else if s == "Q2_K"@ {
        Quantization::Q2_K
    } else {
        Quantization::Other
    }
}

impl Quantization {
    /// Parse a catalog label; anything unrecognized is `Other`, never an error.
    pub fn from_label(label: &str) -> (q: Quantization)
        ensures
            q == spec_quant_of_label(label@),
    {
        let l = label.to_owned();
        if l == String::from_str("F32") {
            Quantization::F32
        } else if l == String::from_str("F16") {
            Quantization::F16
        } else if l == String::from_str("BF16") {
            Quantization::BF16
        } else if l == String::from_str("Q8_0") {
            Quantization::Q8_0
        } else if l == String::from_str("Q6_K") {
            Quantization::Q6_K
        } else if l == String::from_str("Q5_K_M") {
            Quantization::Q5_K_M
        } else if l == String::from_str("Q4_K_M") {
            Quantization::Q4_K_M
        } else if l == String::from_str("Q4_0") {
            Quantization::Q4_0
        } else if l == String::from_str("Q3_K_M") {
            Quantization::Q3_K_M
        } else if l == String::from_str("Q2_K") {
            Quantization::Q2_K
        } else {
            Quantization::Other
        }
    }

    /// Storage cost of one parameter under this scheme, in sixteenths of a
    /// byte. See [`quant_bpp_sixteenths`].
    pub fn bpp_sixteenths(&self) -> (b: u64)
        ensures
            b == quant_bpp_sixteenths(*self),
    {
        match *self {
            Quantization::F32 => 64,
            Quantization::F16 => 32,
            Quantization::BF16 => 32,
            Quantization::Q8_0 => 16,
            Quantization::Q6_K => 12,
            Quantization::Q5_K_M => 10,
            Quantization::Q4_K_M => 8,
            Quantization::Q4_0 => 8,
            Quantization::Q3_K_M => 7,
            Quantization::Q2_K => 5,
            Quantization::Other => 8,
        }
    }
}

/// One catalog entry: a model's declared resource costs.
///
/// `recommended_ram_mib` should be at least `min_ram_mib`, and for
/// mixture-of-experts entries `active_parameters` should not exceed
/// `parameters_raw`; the analysis is total either way. The four
/// mixture-of-experts fields are optional: expert offloading is only
/// considered when the parameter counts it needs are present.
#[derive(Debug, PartialEq)]
pub struct LlmModel {
    pub name: String,
    pub provider: String,
    /// Human-readable parameter count, e.g. a "7B" label.
    pub parameter_count: String,
    /// Total stored parameters, as a raw count.
    pub parameters_raw: Option<u64>,
    pub min_ram_mib: u64,
    pub recommended_ram_mib: u64,
    /// Absent when the model states no GPU requirement.
    pub min_vram_mib: Option<u64>,
    pub quantization: Quantization,
    pub context_length: u32,
    pub use_case: String,
    pub is_moe: bool,
    pub num_experts: Option<u32>,
    pub active_experts: Option<u32>,
    /// Parameters active per inference step, as a raw count.
    pub active_parameters: Option<u64>,
}

/// 16 * 2^20: divides a (raw parameter count * sixteenths of a byte)
/// product down to MiB.
pub open spec fn param_sixteenths_per_mib() -> int {
    0x1000000
}

/// Estimated VRAM for the active experts of a mixture-of-experts model, in
/// MiB: the active parameters' storage plus a fixed 10% overhead allowance,
/// floored at 512 MiB. Absent for dense models or when the active parameter
/// count is unknown.
pub open spec fn spec_moe_active_vram_mib(m: LlmModel) -> Option<u64> {
    if m.is_moe {
        match m.active_parameters {
            Some(p) => {
                let raw = (p * quant_bpp_sixteenths(m.quantization) * 11) / (10
                    * param_sixteenths_per_mib());
                Some((if raw < 512 { 512int } else { raw }) as u64)
            },
            None => None,
        }
    } else {
        None
    }
}

/// Estimated system RAM for the inactive (offloaded) experts of a
/// mixture-of-experts model, in MiB. Absent for dense models or when either
/// parameter count is unknown; an active count above the total (a data
/// error) clamps to zero rather than going negative.
pub open spec fn spec_moe_offloaded_ram_mib(m: LlmModel) -> Option<u64> {
    if m.is_moe {
        match (m.active_parameters, m.parameters_raw) {
            (Some(active), Some(total)) => if total <= active {
                Some(0u64)
            } else {
                Some((((total - active) * quant_bpp_sixteenths(m.quantization))
                    / param_sixteenths_per_mib()) as u64)
            },
            _ => None,
        }
    } else {
        None
    }
}

/// The product of a raw parameter count, a per-parameter cost from the
/// quantization table, and a factor of at most 11, divided down to MiB,
/// fits comfortably in 64 bits.
proof fn lemma_param_cost_fits_u64(p: u64, b: u64, factor: u64, divisor: int)
    requires
        b <= 64,
        factor <= 11,
        divisor >= param_sixteenths_per_mib(),
    ensures
        0 <= (p * b * factor) / divisor <= u64::MAX,
        p * b * factor < u128::MAX,
{
    lemma_mul_upper_bound(p as int, u64::MAX as int, b as int, 64);
    lemma_mul_upper_bound(p * b, u64::MAX * 64, factor as int, 11);
    lemma_div_is_ordered(p * b * factor, u64::MAX * 64 * 11, divisor);
    vstd::arithmetic::div_mod::lemma_div_is_ordered_by_denominator(
        u64::MAX * 64 * 11,
        param_sixteenths_per_mib(),
        divisor,
    );
}

impl LlmModel {
    /// Per-parameter storage cost of this model's quantization scheme, in
    /// sixteenths of a byte.
    pub(crate) fn quant_bpp(&self) -> (b: u64)
        ensures
            b == quant_bpp_sixteenths(self.quantization),
    {
        self.quantization.bpp_sixteenths()
    }

    /// Estimated VRAM for active experts only; `None` for dense models.
    /// See [`spec_moe_active_vram_mib`].
    pub fn moe_active_vram_mib(&self) -> (r: Option<u64>)
        ensures
            r == spec_moe_active_vram_mib(*self),
    {
        if !self.is_moe {
            return None;
        }
        let p = match self.active_parameters {
            Some(p) => p,
            None => { return None; },
        };
        let b = self.quant_bpp();
        proof {
            lemma_param_cost_fits_u64(p, b, 11, 10 * param_sixteenths_per_mib());
        }
        let raw: u128 = ((p as u128) * (b as u128) * 11) / (10 * 0x1000000);
        let mib: u128 = if raw < 512 { 512 } else { raw };
        Some(mib as u64)
    }

    /// Estimated RAM for offloaded (inactive) experts; `None` for dense
    /// models. See [`spec_moe_offloaded_ram_mib`].
    pub fn moe_offloaded_ram_mib(&self) -> (r: Option<u64>)
        ensures
            r == spec_moe_offloaded_ram_mib(*self),
    {
        if !self.is_moe {
            return None;
        }
        let active = match self.active_parameters {
            Some(p) => p,
            None => { return None; },
        };
        let total = match self.parameters_raw {
            Some(t) => t,
            None => { return None; },
        };
        if total <= active {
            return Some(0);
        }
        let inactive = total - active;
        let b = self.quant_bpp();
        proof {
            lemma_param_cost_fits_u64(inactive, b, 1, param_sixteenths_per_mib());
        }
        let mib: u128 = ((inactive as u128) * (b as u128)) / 0x1000000;
        Some(mib as u64)
    }

    /// An equal copy of this profile (the analysis result owns one).
    pub fn duplicate(&self) -> (r: LlmModel)
        ensures
            r == *self,
    {
        LlmModel {
            name: self.name.clone(),
            provider: self.provider.clone(),
            parameter_count: self.parameter_count.clone(),
            parameters_raw: self.parameters_raw,
            min_ram_mib: self.min_ram_mib,
            recommended_ram_mib: self.recommended_ram_mib,
            min_vram_mib: self.min_vram_mib,
            quantization: self.quantization,
            context_length: self.context_length,
            use_case: self.use_case.clone(),
            is_moe: self.is_moe,
            num_experts: self.num_experts,
            active_experts: self.active_experts,
            active_parameters: self.active_parameters,
        }
    }
}

/// `m` matches an already-lowercased query: the query occurs,
/// case-insensitively, in the model's name, provider, or parameter-count
/// label.
pub open spec fn spec_matches_query(m: LlmModel, lowered_query: Seq<char>) -> bool {
    ||| spec_contains_seq(lower_of(m.name@), lowered_query)
    ||| spec_contains_seq(lower_of(m.provider@), lowered_query)
    ||| spec_contains_seq(lower_of(m.parameter_count@), lowered_query)
}

/// The models matching a lowered query, in catalog order.
pub open spec fn spec_matching_models(ms: Seq<LlmModel>, lowered_query: Seq<char>) -> Seq<
    LlmModel,
>
    decreases ms.len(),
{
    if ms.len() == 0 {
        Seq::empty()
    } else if spec_matches_query(ms.last(), lowered_query) {
        spec_matching_models(ms.drop_last(), lowered_query).push(ms.last())
    } else {
        spec_matching_models(ms.drop_last(), lowered_query)
    }
}

/// A coarse compatibility screen (not the full analysis): the model's
/// minimum RAM must fit, a GPU-requiring model is checked against known
/// VRAM, is allowed through when a GPU's VRAM is unknown, and without any
/// GPU must meet its recommended RAM from system memory alone.
pub open spec fn spec_fits_system(
    m: LlmModel,
    available_ram_mib: u64,
    has_gpu: bool,
    vram_mib: Option<u64>,
) -> bool {
    let ram_ok = m.min_ram_mib <= available_ram_mib;
    match m.min_vram_mib {
        Some(min_vram) => if has_gpu {
            match vram_mib {
                Some(system_vram) => ram_ok && min_vram <= system_vram,
                None => ram_ok,
            }
        } else {
            ram_ok && available_ram_mib >= m.recommended_ram_mib
        },
        None => ram_ok,
    }
}

/// The models passing the compatibility screen, in catalog order.
pub open spec fn spec_fitting_models(
    ms: Seq<LlmModel>,
    available_ram_mib: u64,
    has_gpu: bool,
    vram_mib: Option<u64>,
) -> Seq<LlmModel>
    decreases ms.len(),
{
    if ms.len() == 0 {
        Seq::empty()
    } else if spec_fits_system(ms.last(), available_ram_mib, has_gpu, vram_mib) {
        spec_fitting_models(ms.drop_last(), available_ram_mib, has_gpu, vram_mib).push(ms.last())
    } else {
        spec_fitting_models(ms.drop_last(), available_ram_mib, has_gpu, vram_mib)
    }
}

/// The model catalog. Loading and parsing the catalog from its data source
/// is a collaborator's job; the collaborator hands the entries over as
/// plain [`LlmModel`] values.
pub struct ModelDatabase {
    models: Vec<LlmModel>,
}

impl View for ModelDatabase {
    type V = Seq<LlmModel>;

    closed spec fn view(&self) -> Seq<LlmModel> {
        self.models@
    }
}

impl ModelDatabase {
    /// A database over the given catalog entries, in the given order.
    pub fn new(models: Vec<LlmModel>) -> (db: ModelDatabase)
        ensures
            db@ == models@,
    {
        ModelDatabase { models }
    }

    /// All catalog entries, in order.
    pub fn get_all_models(&self) -> (r: &Vec<LlmModel>)
        ensures
            r@ == self@,
    {
        &self.models
    }

    /// The entries whose name, provider, or parameter-count label contains
    /// the query, case-insensitively, in catalog order.
    pub fn find_model(&self, query: &str) -> (r: Vec<&LlmModel>)
        ensures
            r@.map_values(|m: &LlmModel| *m) == spec_matching_models(self@, lower_of(query@)),
    {
        let query_lower = to_lowercase_str(query);
        let ghost ql = lower_of(query@);
        let mut out: Vec<&LlmModel> = Vec::new();
        let mut idx: usize = 0;
        while idx < self.models.len()
            invariant
                idx <= self.models.len(),
                query_lower@ == ql,
                out@.map_values(|m: &LlmModel| *m) == spec_matching_models(self@.take(idx as int), ql),
            decreases self.models.len() - idx,
        {
            let ghost prev = out@;
            let m: &LlmModel = &self.models[idx];
            let name_lower = to_lowercase_str(m.name.as_str());
            let provider_lower = to_lowercase_str(m.provider.as_str());
            let size_lower = to_lowercase_str(m.parameter_count.as_str());
            if str_contains(name_lower.as_str(), query_lower.as_str()) || str_contains(
                provider_lower.as_str(),
                query_lower.as_str(),
            ) || str_contains(size_lower.as_str(), query_lower.as_str()) {
                out.push(m);
                assert(out@.map_values(|mm: &LlmModel| *mm) =~= prev.map_values(
                    |mm: &LlmModel| *mm,
                ).push(*m));
            }
            proof {
                assert(self@.take(idx + 1).drop_last() =~= self@.take(idx as int));
                assert(self@.take(idx + 1).last() == self@[idx as int]);
            }
            idx = idx + 1;
        }
        proof {
            assert(self@.take(self.models.len() as int) =~= self@);
        }
        out
    }

    /// The entries passing the compatibility screen of
    /// [`spec_fits_system`], in catalog order.
    pub fn models_fitting_system(
        &self,
        available_ram_mib: u64,
        has_gpu: bool,
        vram_mib: Option<u64>,
    ) -> (r: Vec<&LlmModel>)
        ensures
            r@.map_values(|m: &LlmModel| *m) == spec_fitting_models(
                self@,
                available_ram_mib,
                has_gpu,
                vram_mib,
            ),
    {
        let mut out: Vec<&LlmModel> = Vec::new();
        let mut idx: usize = 0;
        while idx < self.models.len()
            invariant
                idx <= self.models.len(),
                out@.map_values(|m: &LlmModel| *m) == spec_fitting_models(
                    self@.take(idx as int),
                    available_ram_mib,
                    has_gpu,
                    vram_mib,
                ),
            decreases self.models.len() - idx,
        {
            let ghost prev = out@;
            let m: &LlmModel = &self.models[idx];
            let ram_ok = m.min_ram_mib <= available_ram_mib;
            let keep = match m.min_vram_mib {
                Some(min_vram) => if has_gpu {
                    match vram_mib {
                        Some(system_vram) => ram_ok && min_vram <= system_vram,
                        None => ram_ok,
                    }
                } else {
                    ram_ok && available_ram_mib >= m.recommended_ram_mib
                },
                None => ram_ok,
            };
            if keep {
                out.push(m);
                assert(out@.map_values(|mm: &LlmModel| *mm) =~= prev.map_values(
                    |mm: &LlmModel| *mm,
                ).push(*m));
            }
            proof {
                assert(self@.take(idx + 1).drop_last() =~= self@.take(idx as int));
                assert(self@.take(idx + 1).last() == self@[idx as int]);
            }
            idx = idx + 1;
        }
        proof {
            assert(self@.take(self.models.len() as int) =~= self@);
        }
        out
    }
}

} // verus!
