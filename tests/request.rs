use textgen_api::mode::Mode;
use textgen_api::request::ChatRequest;

#[test]
fn default_request_values() {
    let r = ChatRequest::default();
    assert_eq!(r.user_input, "");
    assert_eq!(r.max_new_tokens, 2048);
    assert!(matches!(r.mode, Mode::Chat));
    assert_eq!(r.character, "Example");
    assert_eq!(r.instruction_template, "Vicuna-v1.1");
    assert_eq!(r.your_name, "You");
    assert!(r.continue_generation);
    assert!(!r.regenerate);
    assert!(r.do_sample);
    assert_eq!(f32::from_bits(r.temperature_bits), 0.7);
    assert_eq!(f32::from_bits(r.top_p_bits), 0.9);
    assert_eq!(f32::from_bits(r.typical_p_bits), 1.0);
    assert_eq!(f32::from_bits(r.repetition_penalty_bits), 1.18);
    assert_eq!(r.top_k, 20);
    assert_eq!(r.num_beams, 1);
    assert_eq!(r.seed, -1);
    assert!(r.add_bos_token);
    assert_eq!(r.truncation_length, 2048);
    assert!(r.skip_special_tokens);
    assert!(r.stopping_strings.is_empty());
    assert!(r.history.internal.is_empty());
    assert!(r.history.visible.is_empty());
}

#[test]
fn default_request_remaining_values() {
    let r = ChatRequest::default();
    assert!(!r.stop_at_newline);
    assert_eq!(r.chat_generation_attempts, 1);
    assert_eq!(r.chat_instruct_command, "");
    assert_eq!(r.preset, "None");
    assert_eq!(f32::from_bits(r.epsilon_cutoff_bits), 0.0);
    assert_eq!(f32::from_bits(r.eta_cutoff_bits), 0.0);
    assert_eq!(r.tfs, 1);
    assert_eq!(f32::from_bits(r.repetition_penalty_range_bits), 0.0);
    assert_eq!(f32::from_bits(r.encoder_repetition_penalty_bits), 1.0);
    assert_eq!(r.min_length, 0);
    assert_eq!(r.no_repeat_ngram_size, 0);
    assert_eq!(f32::from_bits(r.penalty_alpha_bits), 0.0);
    assert_eq!(f32::from_bits(r.length_penalty_bits), 1.0);
    assert!(!r.early_stopping);
    assert_eq!(r.mirostat_mode, 0);
    assert_eq!(r.mirostat_tau, 5);
    assert_eq!(f64::from_bits(r.mirostat_eta_bits), 0.1);
    assert!(!r.ban_eos_token);
}

#[test]
fn mode_wire_names() {
    assert_eq!(Mode::Chat.wire_name(), "chat");
    assert_eq!(Mode::ChatInstruct.wire_name(), "chat-instruct");
    assert_eq!(Mode::Instruct.wire_name(), "instruct");
}

#[test]
fn mode_wire_round_trip() {
    for m in [Mode::Chat, Mode::ChatInstruct, Mode::Instruct] {
        assert_eq!(Mode::from_wire(&m.wire_name()), Some(m));
    }
}

#[test]
fn mode_from_unknown_wire_name() {
    assert_eq!(Mode::from_wire("Chat"), None);
    assert_eq!(Mode::from_wire("chat_instruct"), None);
    assert_eq!(Mode::from_wire(""), None);
}
