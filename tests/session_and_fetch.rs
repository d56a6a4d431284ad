use breve::catalog::{GEMMA_3_1B, LLAMA_3_2_1B};
use breve::conversation::Conversation;
use breve::fetcher::ModelFetcher;
use breve::generation::GenerateError;
use breve::session::{record_reply, SessionError, Inference};
use breve::settings::Config;

#[test]
fn session_params_follow_the_selected_model() {
    let mut cfg = Config::init();
    cfg.default_model = GEMMA_3_1B.to_string();
    let p = Inference::init(&cfg).ok().unwrap();
    assert_eq!(p.batch_size, 32768);
    assert_eq!(p.max_context_length, 28672);
    assert_eq!(p.max_output_length, 4096);
    assert_eq!(p.template.name, "Gemma-3-1B-It");
    assert_eq!(p.context_sizes(), (32768, 32768));
}

#[test]
fn session_params_errors() {
    let cfg = Config::init();
    assert_eq!(Inference::init(&cfg).err(), Some(SessionError::ModelNotAvailable));
    let mut cfg = Config::init();
    cfg.default_model = LLAMA_3_2_1B.to_string();
    cfg.max_output_length = 8192;
    assert_eq!(Inference::init(&cfg).err(), Some(SessionError::BudgetsTooLarge));
    let mut cfg = Config::init();
    cfg.default_model = LLAMA_3_2_1B.to_string();
    cfg.batch_size = 1 << 40;
    assert_eq!(Inference::init(&cfg).err(), Some(SessionError::BatchTooLarge));
}

#[test]
fn fitted_prompt_and_reply_fit_one_batch() {
    let mut cfg = Config::init();
    cfg.default_model = LLAMA_3_2_1B.to_string();
    cfg.batch_size = 10;
    cfg.max_context_length = 6;
    cfg.max_output_length = 4;
    let p = Inference::init(&cfg).ok().unwrap();
    let tokens = p.fit_prompt((0..20).collect());
    assert_eq!(tokens, vec![0, 1, 2, 3, 4, 5]);
    assert!(tokens.len() as u64 + p.max_output_length <= p.batch_size);
    let g = p.start_generation("c".to_string(), tokens.len() as u64).unwrap();
    assert_eq!(g.n_cur, 6);
}

#[test]
fn session_formats_the_prompt_with_its_template() {
    let mut cfg = Config::init();
    cfg.default_model = LLAMA_3_2_1B.to_string();
    cfg.system_prompt = "S".to_string();
    let p = Inference::init(&cfg).ok().unwrap();
    let mut conv = Conversation::new("c".to_string(), "t".to_string());
    conv.add_message("user", "Hi");
    assert_eq!(
        p.format_prompt(&conv),
        "<|start_header_id|>system<|end_header_id|>\nS<|eot_id|><|start_header_id|>user<|end_header_id|>\nHi<|eot_id|><|start_header_id|>assistant<|end_header_id|>\n"
    );
}

#[test]
fn reply_is_recorded_as_assistant_turn() {
    let mut conv = Conversation::new("c".to_string(), "t".to_string());
    conv.add_message("user", "Hi");
    assert_eq!(record_reply(&mut conv, Ok("Hello!".to_string())), Some("Hello!".to_string()));
    assert_eq!(conv.body.len(), 2);
    assert_eq!(conv.body[1].role, "assistant");
    assert_eq!(conv.body[1].content, "Hello!");
    assert_eq!(record_reply(&mut conv, Err(GenerateError::DecodeFailed)), None);
    assert_eq!(conv.body.len(), 2);
}

#[test]
fn download_url_points_at_main_branch() {
    assert_eq!(
        ModelFetcher::download_url("bartowski/Llama-3.2-1B-Instruct-GGUF", LLAMA_3_2_1B),
        "https://huggingface.co/bartowski/Llama-3.2-1B-Instruct-GGUF/resolve/main/Llama-3.2-1B-Instruct-Q4_K_M.gguf"
    );
}

#[test]
fn progress_percent_is_bounded() {
    assert_eq!(ModelFetcher::progress_percent(50, Some(200)), 25);
    assert_eq!(ModelFetcher::progress_percent(200, Some(200)), 100);
    assert_eq!(ModelFetcher::progress_percent(300, Some(200)), 100);
    assert_eq!(ModelFetcher::progress_percent(0, Some(0)), 100);
    assert_eq!(ModelFetcher::progress_percent(u64::MAX, Some(1)), 100);
    assert_eq!(ModelFetcher::progress_percent(512 * 1024 * 1024, None), 50);
    assert_eq!(ModelFetcher::progress_percent(4 * 1024 * 1024 * 1024, None), 99);
}
