use breve::catalog::{default_models, GEMMA_3_1B, LLAMA_3_2_1B, SMOLLM2_360M};
use breve::config::Config as FixedConfig;
use breve::paths::{get_db_path, join_path};
use breve::settings::{Config, DEFAULT_SYSTEM_PROMPT};

#[test]
fn default_catalog_lists_three_models() {
    let catalog = default_models();
    assert_eq!(catalog.entries.len(), 3);
    let ids: Vec<&str> = catalog.entries.iter().map(|e| e.id.as_str()).collect();
    assert_eq!(ids, vec![GEMMA_3_1B, LLAMA_3_2_1B, SMOLLM2_360M]);
    let llama = catalog.get(LLAMA_3_2_1B).unwrap();
    assert_eq!(llama.name, "Llama-3.2-1B-Instruct");
    assert_eq!(llama.repo, "bartowski/Llama-3.2-1B-Instruct-GGUF");
    assert_eq!(llama.prefix, "<|start_header_id|>");
    assert_eq!(llama.suffix, "<|end_header_id|>\n");
    assert_eq!(llama.eot, "<|eot_id|>");
    assert_eq!(llama.sys, "system");
    assert_eq!(llama.us, "user");
    assert_eq!(llama.ast, "assistant");
    assert_eq!(llama.size, 1024 * 1024 * 1024);
    assert!(!llama.supports_vision);
    assert_eq!(llama.params, "1B");
    let gemma = catalog.get(GEMMA_3_1B).unwrap();
    assert!(gemma.supports_vision);
    assert_eq!(gemma.sys, "model");
    assert_eq!(catalog.get(SMOLLM2_360M).unwrap().params, "360M");
}

#[test]
fn catalog_lookup_of_unknown_model_is_none() {
    let catalog = default_models();
    assert!(catalog.get("model-not-in-catalog.gguf").is_none());
    assert!(!catalog.contains("model-not-in-catalog.gguf"));
    assert!(!catalog.contains(""));
    assert!(catalog.contains(SMOLLM2_360M));
}

#[test]
fn settings_config_sizes_budgets() {
    let cfg = Config::init();
    assert_eq!(cfg.batch_size, 32768);
    assert_eq!(cfg.max_output_length, 4096);
    assert_eq!(cfg.max_context_length, 28672);
    assert!(cfg.max_context_length + cfg.max_output_length <= cfg.batch_size);
    assert_eq!(cfg.system_prompt, DEFAULT_SYSTEM_PROMPT);
    assert_eq!(cfg.default_model, "");
    assert_eq!(cfg.get_available_models().entries.len(), 3);
}

#[test]
fn settings_config_model_path() {
    let mut cfg = Config::init();
    cfg.default_model = LLAMA_3_2_1B.to_string();
    assert_eq!(cfg.get_model_path("/data"), "/data/Llama-3.2-1B-Instruct-Q4_K_M.gguf");
}

#[test]
fn fixed_config_sizes_window() {
    let cfg = FixedConfig::init().unwrap();
    assert_eq!(cfg.get_batch_size(), 10240);
    assert_eq!(cfg.get_max_context_size(), 2048);
    assert_eq!(cfg.get_max_context_length(), 8192);
    assert_eq!(cfg.get_model_name(), "Llama-3.2-1B-Instruct-Q4_K_S.gguf");
    assert_eq!(cfg.model_url, "bartowski/Llama-3.2-1B-Instruct-GGUF");
    assert_eq!(cfg.get_model_path("/srv/app"), "/srv/app/Llama-3.2-1B-Instruct-Q4_K_S.gguf");
    assert_eq!(cfg.get_db_path("/srv/app/"), "/srv/app/data_store.sqlite");
}

#[test]
fn paths_join_with_one_separator() {
    assert_eq!(get_db_path("/data"), "/data/data_store.sqlite");
    assert_eq!(get_db_path("/data/"), "/data/data_store.sqlite");
    assert_eq!(get_db_path(""), "data_store.sqlite");
    assert_eq!(join_path("é", "x"), "é/x");
}
