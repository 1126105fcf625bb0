use vstd::prelude::*;

use crate::history::History;
use crate::mode::Mode;

verus! {

/// One conversation turn's full parameter set for the generation service.
///
/// Sampling parameters that the service reads as floating-point numbers are
/// held as their IEEE-754 encodings (fields ending in `_bits`): binary32 in a
/// `u32`, binary64 in a `u64`. They are carried through unchanged.
pub struct ChatRequest {
    /// The new user message.
    pub user_input: String,
    pub max_new_tokens: u32,
    /// Prior turns, resent on every call.
    pub history: History,
    pub mode: Mode,
    pub character: String,
    pub instruction_template: String,
    pub your_name: String,
    pub regenerate: bool,
    /// Travels under the key `continue`.
    pub continue_generation: bool,
    pub stop_at_newline: bool,
    pub chat_generation_attempts: u32,
    pub chat_instruct_command: String,
    pub preset: String,
    pub do_sample: bool,
    /// Randomness of outputs: 0 is deterministic, higher is more random.
    pub temperature_bits: u32,
    /// Select tokens whose probabilities add up to less than this number.
    pub top_p_bits: u32,
    /// Keep only tokens at least this much more likely than random ones.
    pub typical_p_bits: u32,
    /// Probability floor, in units of 1e-4.
    pub epsilon_cutoff_bits: u32,
    /// In units of 1e-4.
    pub eta_cutoff_bits: u32,
    pub tfs: u64,
    /// Exponential penalty for repeating prior tokens; 1 means none.
    pub repetition_penalty_bits: u32,
    /// How many recent tokens the repetition penalty looks at; 0 means all.
    pub repetition_penalty_range_bits: u32,
    /// Penalty on tokens absent from the prior text.
    pub encoder_repetition_penalty_bits: u32,
    /// Select only the `top_k` most likely tokens.
    pub top_k: u32,
    /// Minimum generation length in tokens.
    pub min_length: u32,
    /// Length of token sets that may not repeat; 0 disables.
    pub no_repeat_ngram_size: u32,
    pub num_beams: u32,
    /// Contrastive search strength, used with `do_sample` off.
    pub penalty_alpha_bits: u32,
    pub length_penalty_bits: u32,
    pub early_stopping: bool,
    pub mirostat_mode: u64,
    pub mirostat_tau: u64,
    /// Binary64 encoding.
    pub mirostat_eta_bits: u64,
    /// Sampling seed; -1 picks one at random.
    pub seed: i64,
    pub add_bos_token: bool,
    pub truncation_length: u32,
    pub ban_eos_token: bool,
    pub skip_special_tokens: bool,
    /// Generation halts when any of these is produced.
    pub stopping_strings: Vec<String>,
}

/// Binary32 encoding of 0.0.
pub const F32_ZERO: u32 = 0x0000_0000;

/// Binary32 encoding of 0.7.
pub const F32_POINT_SEVEN: u32 = 0x3f33_3333;

/// Binary32 encoding of 0.9.
pub const F32_POINT_NINE: u32 = 0x3f66_6666;

/// Binary32 encoding of 1.0.
pub const F32_ONE: u32 = 0x3f80_0000;

/// Binary32 encoding of 1.18.
pub const F32_ONE_POINT_ONE_EIGHT: u32 = 0x3f97_0a3d;

/// Binary64 encoding of 0.1.
pub const F64_POINT_ONE: u64 = 0x3fb9_9999_9999_999a;

impl ChatRequest {
    /// The baseline request: sensible sampling settings, an empty history
    /// and no user input yet.
    pub fn default() -> (r: ChatRequest)
        ensures
            r.user_input@ == Seq::<char>::empty(),
            r.max_new_tokens == 2048,
            r.history.internal_turns().len() == 0,
            r.history.visible_turns().len() == 0,
            r.mode == Mode::Chat,
            r.character@ == "Example"@,
            r.instruction_template@ == "Vicuna-v1.1"@,
            r.your_name@ == "You"@,
            !r.regenerate,
            r.continue_generation,
            !r.stop_at_newline,
            r.chat_generation_attempts == 1,
            r.chat_instruct_command@ == Seq::<char>::empty(),
            r.preset@ == "None"@,
            r.do_sample,
            r.temperature_bits == F32_POINT_SEVEN,
            r.top_p_bits == F32_POINT_NINE,
            r.typical_p_bits == F32_ONE,
            r.epsilon_cutoff_bits == F32_ZERO,
            r.eta_cutoff_bits == F32_ZERO,
            r.tfs == 1,
            r.repetition_penalty_bits == F32_ONE_POINT_ONE_EIGHT,
            r.repetition_penalty_range_bits == F32_ZERO,
            r.encoder_repetition_penalty_bits == F32_ONE,
            r.top_k == 20,
            r.min_length == 0,
            r.no_repeat_ngram_size == 0,
            r.num_beams == 1,
            r.penalty_alpha_bits == F32_ZERO,
            r.length_penalty_bits == F32_ONE,
            !r.early_stopping,
            r.mirostat_mode == 0,
            r.mirostat_tau == 5,
            r.mirostat_eta_bits == F64_POINT_ONE,
            r.seed == -1,
            r.add_bos_token,
            r.truncation_length == 2048,
            !r.ban_eos_token,
            r.skip_special_tokens,
            r.stopping_strings@.len() == 0,
    {
        ChatRequest {
            user_input: String::new(),
            max_new_tokens: 2048,
            history: History::default(),
            mode: Mode::Chat,
            character: "Example".to_owned(),
            instruction_template: "Vicuna-v1.1".to_owned(),
            your_name: "You".to_owned(),
            regenerate: false,
            continue_generation: true,
            stop_at_newline: false,
            chat_generation_attempts: 1,
            chat_instruct_command: String::new(),
            preset: "None".to_owned(),
            do_sample: true,
            temperature_bits: F32_POINT_SEVEN,
            top_p_bits: F32_POINT_NINE,
            typical_p_bits: F32_ONE,
            epsilon_cutoff_bits: F32_ZERO,
            eta_cutoff_bits: F32_ZERO,
            tfs: 1,
            repetition_penalty_bits: F32_ONE_POINT_ONE_EIGHT,
            repetition_penalty_range_bits: F32_ZERO,
            encoder_repetition_penalty_bits: F32_ONE,
            top_k: 20,
            min_length: 0,
            no_repeat_ngram_size: 0,
            num_beams: 1,
            penalty_alpha_bits: F32_ZERO,
            length_penalty_bits: F32_ONE,
            early_stopping: false,
            mirostat_mode: 0,
            mirostat_tau: 5,
            mirostat_eta_bits: F64_POINT_ONE,
            seed: -1,
            add_bos_token: true,
            truncation_length: 2048,
            ban_eos_token: false,
            skip_special_tokens: true,
            stopping_strings: Vec::new(),
        }
    }
}

} // verus!
