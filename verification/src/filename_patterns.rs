//! Detecting a model's architecture, parameter count and quantization from its
//! file name, by tables of patterns tried in order.

use vstd::prelude::*;
use crate::text::{chars_of, lookup_in_table, table_lookup, to_lowercase, unicode_lowercase};

verus! {

/// Architecture patterns, in the order they are tried.
pub open spec fn architecture_table() -> Seq<(&'static str, &'static str)> {
    seq![
        ("llama", "LLaMA"),
        ("mistral", "Mistral"),
        ("devstral", "Devstral"),
        ("mixtral", "Mixtral"),
        ("qwen", "Qwen"),
        ("gemma", "Gemma"),
        ("phi", "Phi"),
        ("granite", "Granite"),
        ("starcoder", "StarCoder"),
        ("codellama", "CodeLlama"),
        ("deepseek", "DeepSeek"),
        ("yi", "Yi"),
        ("falcon", "Falcon"),
        ("mpt", "MPT"),
        ("bloom", "BLOOM"),
        ("opt", "OPT"),
        ("gpt-j", "GPT-J"),
        ("gpt-neo", "GPT-Neo"),
        ("pythia", "Pythia"),
        ("stablelm", "StableLM"),
        ("vicuna", "Vicuna"),
        ("wizard", "Wizard"),
        ("orca", "Orca"),
        ("openhermes", "OpenHermes"),
        ("neural", "Neural"),
        ("minicpm", "MiniCPM"),
        ("internlm", "InternLM"),
        ("baichuan", "Baichuan"),
        ("chatglm", "ChatGLM"),
        ("command", "Command"),
        ("solar", "Solar"),
        ("nous", "Nous"),
    ]
}

/// Parameter-size patterns, in the order they are tried.
pub open spec fn parameter_table() -> Seq<(&'static str, &'static str)> {
    seq![
        ("405b", "405B"),
        ("180b", "180B"),
        ("141b", "141B"),
        ("123b", "123B"),
        ("110b", "110B"),
        ("72b", "72B"),
        ("70b", "70B"),
        ("65b", "65B"),
        ("46b", "46B"),
        ("34b", "34B"),
        ("33b", "33B"),
        ("30b", "30B"),
        ("27b", "27B"),
        ("22b", "22B"),
        ("20b", "20B"),
        ("14b", "14B"),
        ("13b", "13B"),
        ("12b", "12B"),
        ("11b", "11B"),
        ("10b", "10B"),
        ("9b", "9B"),
        ("8b", "8B"),
        ("7b", "7B"),
        ("6b", "6B"),
        ("4b", "4B"),
        ("3b", "3B"),
        ("2b", "2B"),
        ("1.5b", "1.5B"),
        ("1b", "1B"),
        ("500m", "500M"),
        ("350m", "350M"),
        ("125m", "125M"),
    ]
}

/// Quantization patterns, in the order they are tried.
pub open spec fn quantization_table() -> Seq<(&'static str, &'static str)> {
    seq![
        ("q8_0", "Q8_0"),
        ("q6_k", "Q6_K"),
        ("q5_k_m", "Q5_K_M"),
        ("q5_k_s", "Q5_K_S"),
        ("q5_k", "Q5_K"),
        ("q5_0", "Q5_0"),
        ("q5_1", "Q5_1"),
        ("q4_k_m", "Q4_K_M"),
        ("q4_k_s", "Q4_K_S"),
        ("q4_k", "Q4_K"),
        ("q4_0", "Q4_0"),
        ("q4_1", "Q4_1"),
        ("q3_k_m", "Q3_K_M"),
        ("q3_k_s", "Q3_K_S"),
        ("q3_k_l", "Q3_K_L"),
        ("q3_k", "Q3_K"),
        ("q2_k", "Q2_K"),
        ("iq4_xs", "IQ4_XS"),
        ("iq4_nl", "IQ4_NL"),
        ("iq3_xxs", "IQ3_XXS"),
        ("iq3_xs", "IQ3_XS"),
        ("iq3_s", "IQ3_S"),
        ("iq3_m", "IQ3_M"),
        ("iq2_xxs", "IQ2_XXS"),
        ("iq2_xs", "IQ2_XS"),
        ("iq2_s", "IQ2_S"),
        ("iq1_s", "IQ1_S"),
        ("iq1_m", "IQ1_M"),
        ("fp16", "FP16"),
        ("fp32", "FP32"),
        ("bf16", "BF16"),
        ("f16", "F16"),
        ("f32", "F32"),
    ]
}

/// The architecture table as a vector.
fn architecture_patterns() -> (t: Vec<(&'static str, &'static str)>)
    ensures
        t@ == architecture_table(),
{
    let mut t = Vec::new();
    t.push(("llama", "LLaMA"));
    t.push(("mistral", "Mistral"));
    t.push(("devstral", "Devstral"));
    t.push(("mixtral", "Mixtral"));
    t.push(("qwen", "Qwen"));
    t.push(("gemma", "Gemma"));
    t.push(("phi", "Phi"));
    t.push(("granite", "Granite"));
    t.push(("starcoder", "StarCoder"));
    t.push(("codellama", "CodeLlama"));
    t.push(("deepseek", "DeepSeek"));
    t.push(("yi", "Yi"));
    t.push(("falcon", "Falcon"));
    t.push(("mpt", "MPT"));
    t.push(("bloom", "BLOOM"));
    t.push(("opt", "OPT"));
    t.push(("gpt-j", "GPT-J"));
    t.push(("gpt-neo", "GPT-Neo"));
    t.push(("pythia", "Pythia"));
    t.push(("stablelm", "StableLM"));
    t.push(("vicuna", "Vicuna"));
    t.push(("wizard", "Wizard"));
    t.push(("orca", "Orca"));
    t.push(("openhermes", "OpenHermes"));
    t.push(("neural", "Neural"));
    t.push(("minicpm", "MiniCPM"));
    t.push(("internlm", "InternLM"));
    t.push(("baichuan", "Baichuan"));
    t.push(("chatglm", "ChatGLM"));
    t.push(("command", "Command"));
    t.push(("solar", "Solar"));
    t.push(("nous", "Nous"));
    t
}

/// The parameter table as a vector.
fn parameter_patterns() -> (t: Vec<(&'static str, &'static str)>)
    ensures
        t@ == parameter_table(),
{
    let mut t = Vec::new();
    t.push(("405b", "405B"));
    t.push(("180b", "180B"));
    t.push(("141b", "141B"));
    t.push(("123b", "123B"));
    t.push(("110b", "110B"));
    t.push(("72b", "72B"));
    t.push(("70b", "70B"));
    t.push(("65b", "65B"));
    t.push(("46b", "46B"));
    t.push(("34b", "34B"));
    t.push(("33b", "33B"));
    t.push(("30b", "30B"));
    t.push(("27b", "27B"));
    t.push(("22b", "22B"));
    t.push(("20b", "20B"));
    t.push(("14b", "14B"));
    t.push(("13b", "13B"));
    t.push(("12b", "12B"));
    t.push(("11b", "11B"));
    t.push(("10b", "10B"));
    t.push(("9b", "9B"));
    t.push(("8b", "8B"));
    t.push(("7b", "7B"));
    t.push(("6b", "6B"));
    t.push(("4b", "4B"));
    t.push(("3b", "3B"));
    t.push(("2b", "2B"));
    t.push(("1.5b", "1.5B"));
    t.push(("1b", "1B"));
    t.push(("500m", "500M"));
    t.push(("350m", "350M"));
    t.push(("125m", "125M"));
    t
}

/// The quantization table as a vector.
fn quantization_patterns() -> (t: Vec<(&'static str, &'static str)>)
    ensures
        t@ == quantization_table(),
{
    let mut t = Vec::new();
    t.push(("q8_0", "Q8_0"));
    t.push(("q6_k", "Q6_K"));
    t.push(("q5_k_m", "Q5_K_M"));
    t.push(("q5_k_s", "Q5_K_S"));
    t.push(("q5_k", "Q5_K"));
    t.push(("q5_0", "Q5_0"));
    t.push(("q5_1", "Q5_1"));
    t.push(("q4_k_m", "Q4_K_M"));
    t.push(("q4_k_s", "Q4_K_S"));
    t.push(("q4_k", "Q4_K"));
    t.push(("q4_0", "Q4_0"));
    t.push(("q4_1", "Q4_1"));
    t.push(("q3_k_m", "Q3_K_M"));
    t.push(("q3_k_s", "Q3_K_S"));
    t.push(("q3_k_l", "Q3_K_L"));
    t.push(("q3_k", "Q3_K"));
    t.push(("q2_k", "Q2_K"));
    t.push(("iq4_xs", "IQ4_XS"));
    t.push(("iq4_nl", "IQ4_NL"));
    t.push(("iq3_xxs", "IQ3_XXS"));
    t.push(("iq3_xs", "IQ3_XS"));
    t.push(("iq3_s", "IQ3_S"));
    t.push(("iq3_m", "IQ3_M"));
    t.push(("iq2_xxs", "IQ2_XXS"));
    t.push(("iq2_xs", "IQ2_XS"));
    t.push(("iq2_s", "IQ2_S"));
    t.push(("iq1_s", "IQ1_S"));
    t.push(("iq1_m", "IQ1_M"));
    t.push(("fp16", "FP16"));
    t.push(("fp32", "FP32"));
    t.push(("bf16", "BF16"));
    t.push(("f16", "F16"));
    t.push(("f32", "F32"));
    t
}

/// The lower-cased characters of `filename`.
fn lowered(filename: &str) -> (v: Vec<char>)
    ensures
        v@ == unicode_lowercase(filename@),
{
    let lower = to_lowercase(filename);
    chars_of(lower.as_str())
}

/// Detect the architecture from a file name: the display name of the first
/// architecture pattern that the lower-cased name contains, else `Unknown`.
pub fn detect_architecture(filename: &str) -> (r: &'static str)
    ensures
        r@ == table_lookup(unicode_lowercase(filename@), architecture_table()),
{
    let lower = lowered(filename);
    lookup_in_table(&lower, &architecture_patterns())
}

/// Detect the parameter count from a file name, by the parameter table.
pub fn detect_parameters(filename: &str) -> (r: &'static str)
    ensures
        r@ == table_lookup(unicode_lowercase(filename@), parameter_table()),
{
    let lower = lowered(filename);
    lookup_in_table(&lower, &parameter_patterns())
}

/// Detect the quantization from a file name, by the quantization table.
pub fn detect_quantization(filename: &str) -> (r: &'static str)
    ensures
        r@ == table_lookup(unicode_lowercase(filename@), quantization_table()),
{
    let lower = lowered(filename);
    lookup_in_table(&lower, &quantization_patterns())
}

/// Architecture, parameter count and quantization detected from one file name.
pub struct FilenameMetadata {
    pub architecture: &'static str,
    pub parameters: &'static str,
    pub quantization: &'static str,
}

/// All three detections for one file name.
pub fn extract_metadata_from_filename(filename: &str) -> (m: FilenameMetadata)
    ensures
        m.architecture@ == table_lookup(unicode_lowercase(filename@), architecture_table()),
        m.parameters@ == table_lookup(unicode_lowercase(filename@), parameter_table()),
        m.quantization@ == table_lookup(unicode_lowercase(filename@), quantization_table()),
{
    FilenameMetadata {
        architecture: detect_architecture(filename),
        parameters: detect_parameters(filename),
        quantization: detect_quantization(filename),
    }
}

} // verus!
