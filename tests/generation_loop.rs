use breve::generation::{Action, GenerateError, Generation, Phase};

fn started(n_prompt: u64, batch: u64, max_out: u64) -> Generation {
    let mut g = Generation::start("conv".to_string(), n_prompt, batch, max_out).unwrap();
    assert!(matches!(g.first_action(), Action::ClearCache));
    match g.cache_cleared() {
        Action::DecodePrompt { n_tokens } => assert_eq!(n_tokens, n_prompt),
        other => panic!("unexpected {:?}", other),
    }
    g
}

#[test]
fn end_of_sequence_first_gives_empty_reply() {
    let mut g = started(5, 100, 10);
    match g.prompt_decoded(true) {
        Action::Sample { index } => assert_eq!(index, 4),
        other => panic!("unexpected {:?}", other),
    }
    assert!(matches!(g.sampled(true, ""), Action::Stop));
    assert_eq!(g.outcome(), Ok(String::new()));
}

#[test]
fn fragments_are_streamed_and_accumulated() {
    let mut g = started(3, 100, 10);
    assert!(matches!(g.prompt_decoded(true), Action::Sample { index: 2 }));
    match g.sampled(false, "Hel") {
        Action::EmitAndDecode { fragment, position } => {
            assert_eq!(fragment.id, "conv");
            assert_eq!(fragment.content, "Hel");
            assert_eq!(position, 3);
        }
        other => panic!("unexpected {:?}", other),
    }
    assert!(matches!(g.token_decoded(true), Action::Sample { index: 0 }));
    match g.sampled(false, "lo") {
        Action::EmitAndDecode { fragment, position } => {
            assert_eq!(fragment.content, "lo");
            assert_eq!(position, 4);
        }
        other => panic!("unexpected {:?}", other),
    }
    assert!(matches!(g.token_decoded(true), Action::Sample { index: 0 }));
    assert!(matches!(g.sampled(true, ""), Action::Stop));
    assert_eq!(g.outcome(), Ok("Hello".to_string()));
}

#[test]
fn prompt_decode_failure_is_an_error() {
    let mut g = started(3, 100, 10);
    assert!(matches!(g.prompt_decoded(false), Action::Stop));
    assert_eq!(g.phase, Phase::Failed);
    assert_eq!(g.outcome(), Err(GenerateError::DecodeFailed));
}

#[test]
fn mid_loop_decode_failure_returns_partial_text() {
    let mut g = started(3, 100, 10);
    g.prompt_decoded(true);
    g.sampled(false, "partial");
    assert!(matches!(g.token_decoded(false), Action::Stop));
    assert_eq!(g.outcome(), Ok("partial".to_string()));
}

#[test]
fn reply_budget_stops_generation() {
    let mut g = started(3, 100, 2);
    g.prompt_decoded(true);
    g.sampled(false, "a");
    assert!(matches!(g.token_decoded(true), Action::Sample { .. }));
    g.sampled(false, "b");
    assert!(matches!(g.token_decoded(true), Action::Stop));
    assert_eq!(g.outcome(), Ok("ab".to_string()));
    assert_eq!(g.n_cur, 5);
}

#[test]
fn batch_ceiling_stops_generation() {
    let mut g = started(4, 5, 10);
    g.prompt_decoded(true);
    match g.sampled(false, "z") {
        Action::EmitAndDecode { position, .. } => assert_eq!(position, 4),
        other => panic!("unexpected {:?}", other),
    }
    assert!(matches!(g.token_decoded(true), Action::Stop));
    assert_eq!(g.outcome(), Ok("z".to_string()));
}

#[test]
fn full_prompt_leaves_no_room_to_sample() {
    let mut g = started(5, 5, 10);
    assert!(matches!(g.prompt_decoded(true), Action::Stop));
    assert_eq!(g.outcome(), Ok(String::new()));
}

#[test]
fn unfinished_generation_has_no_outcome() {
    let g = Generation::start("c".to_string(), 2, 10, 10).unwrap();
    assert_eq!(g.phase, Phase::ClearCache);
    assert_eq!(g.outcome(), Err(GenerateError::Unfinished));
}

#[test]
fn start_rejects_empty_and_oversized_prompts() {
    assert_eq!(Generation::start("c".to_string(), 0, 10, 10).err(), Some(GenerateError::EmptyPrompt));
    assert_eq!(Generation::start("c".to_string(), 11, 10, 10).err(), Some(GenerateError::PromptTooLong));
    assert!(Generation::start("c".to_string(), 10, 10, 10).is_ok());
}

#[test]
fn every_generation_clears_the_cache_first() {
    for _ in 0..2 {
        let g = Generation::start("same".to_string(), 3, 100, 10).unwrap();
        assert_eq!(g.phase, Phase::ClearCache);
        assert!(matches!(g.first_action(), Action::ClearCache));
    }
}
