use offline_gemma::driver::{Driver, Phase, StepOutcome, StopReason};
use offline_gemma::error::EngineError;
use offline_gemma::options::{DevicePreference, GenerationOptions};
use offline_gemma::prompt::format_prompt;
use offline_gemma::tokenizer::TokenizerAdapter;

const FOUR: u32 = 3;
const EOS: u32 = 4;
const VOCABULARY: usize = 5;

fn raw() -> tokenizers::Tokenizer {
    let text = r#"{"version":"1.0","truncation":null,"padding":null,
"added_tokens":[{"id":4,"content":"<eos>","single_word":false,"lstrip":false,"rstrip":false,"normalized":false,"special":true}],
"normalizer":null,"pre_tokenizer":{"type":"Whitespace"},"post_processor":null,"decoder":null,
"model":{"type":"WordLevel","vocab":{"hello":0,"world":1,"[UNK]":2,"4":3},"unk_token":"[UNK]"}}"#;
    tokenizers::Tokenizer::from_bytes(text).unwrap()
}

fn tokenizer() -> TokenizerAdapter {
    TokenizerAdapter::from_tokenizer(raw()).unwrap()
}

/// Formats and encodes the prompt as the shell does, and hands the ids to
/// the driver.
fn start(driver: &mut Driver, prompt: &str) -> Result<(), EngineError> {
    driver.prepare();
    let text = format_prompt(prompt);
    let encoded = raw().encode(text.as_str(), true).ok().map(|e| e.get_ids().to_vec());
    driver.begin(encoded)
}

fn options(max_new_tokens: usize, stop_token_ids: Vec<u32>) -> GenerationOptions {
    GenerationOptions { max_new_tokens, stop_token_ids, device_preference: DevicePreference::CpuOnly }
}

fn favouring(id: u32) -> Vec<i64> {
    let mut scores = vec![-3i64; VOCABULARY];
    scores[id as usize] = 10;
    scores
}

/// Runs the loop with a model that favours `plan[step]`, and an output that
/// is found closed once `close_after` fragments were taken.
fn run(
    prompt: &str,
    options: GenerationOptions,
    plan: &[u32],
    close_after: Option<usize>,
) -> (Driver, Vec<String>, usize) {
    let tokenizer = tokenizer();
    let mut driver = Driver::new(options);
    let mut fragments: Vec<String> = Vec::new();
    let mut forward_calls = 0usize;
    if start(&mut driver, prompt).is_err() {
        return (driver, fragments, forward_calls);
    }
    while driver.wants_scores() {
        let scores = favouring(plan[forward_calls.min(plan.len() - 1)]);
        forward_calls += 1;
        let mut closed = false;
        match driver.step(&tokenizer, &scores) {
            StepOutcome::Emit(text) => {
                if close_after.map_or(false, |k| fragments.len() >= k) {
                    closed = true;
                } else {
                    fragments.push(text);
                }
            }
            StepOutcome::Silent => {}
            StepOutcome::Failed(_) | StepOutcome::Ignored => break,
        }
        driver.after_emit(closed);
    }
    driver.finish();
    (driver, fragments, forward_calls)
}

#[test]
fn zero_new_tokens_emits_nothing_and_closes_normally() {
    let tokenizer = tokenizer();
    let mut driver = Driver::new(options(0, vec![EOS]));
    assert_eq!(driver.phase(), Phase::Initializing);
    assert_eq!(start(&mut driver, "hello"), Ok(()));
    assert_eq!(driver.phase(), Phase::Finishing);
    assert_eq!(driver.stop_reason(), Some(StopReason::LimitReached));
    assert!(!driver.wants_scores());
    assert!(matches!(driver.step(&tokenizer, &favouring(FOUR)), StepOutcome::Ignored));
    assert_eq!(driver.generated(), 0);
    assert!(driver.finish());
    assert_eq!(driver.phase(), Phase::Terminated);
    assert_eq!(driver.failure(), None);

    let (driver, fragments, forward_calls) = run("hello", options(0, vec![EOS]), &[FOUR], None);
    assert!(fragments.is_empty());
    assert_eq!(forward_calls, 0);
    assert_eq!(driver.phase(), Phase::Terminated);
}

#[test]
fn end_to_end_stops_at_the_end_of_sequence_id() {
    let (driver, fragments, forward_calls) =
        run("What is 2+2?", options(5, vec![EOS]), &[FOUR, EOS], None);
    assert_eq!(forward_calls, 2);
    assert_eq!(driver.generated(), 2);
    assert_eq!(fragments[0], "4");
    assert_eq!(fragments.concat(), "4");
    assert_eq!(fragments, vec![String::from("4"), String::new()]);
    let tokens = driver.tokens();
    assert_eq!(&tokens[tokens.len() - 2..], &[FOUR, EOS]);
    assert_eq!(driver.stop_reason(), Some(StopReason::EndOfSequence));
    assert_eq!(driver.phase(), Phase::Terminated);
    assert_eq!(driver.failure(), None);
}

#[test]
fn steps_equal_the_limit_when_nothing_intervenes() {
    for limit in 1..8usize {
        let (driver, fragments, forward_calls) =
            run("hello", options(limit, vec![EOS]), &[FOUR], None);
        assert_eq!(forward_calls, limit);
        assert_eq!(driver.generated(), limit);
        assert_eq!(fragments.len(), limit);
        assert!(fragments.iter().all(|f| f == "4"));
        assert_eq!(driver.stop_reason(), Some(StopReason::LimitReached));
        assert_eq!(driver.phase(), Phase::Terminated);
    }
}

#[test]
fn default_limit_gives_two_hundred_steps() {
    let (driver, fragments, forward_calls) =
        run("hello", GenerationOptions::default(), &[FOUR], None);
    assert_eq!(forward_calls, 200);
    assert_eq!(fragments.len(), 200);
    assert_eq!(driver.generated(), 200);
}

#[test]
fn closing_the_output_stops_within_one_step() {
    for k in 0..4usize {
        let (driver, fragments, forward_calls) =
            run("hello", options(10, Vec::new()), &[FOUR], Some(k));
        assert_eq!(fragments.len(), k);
        assert_eq!(forward_calls, k + 1);
        assert_eq!(driver.generated(), k + 1);
        assert_eq!(driver.stop_reason(), Some(StopReason::Cancelled));
        assert_eq!(driver.phase(), Phase::Terminated);
        assert_eq!(driver.failure(), None);
    }
}

#[test]
fn closed_output_wins_over_the_other_stop_conditions() {
    let tokenizer = tokenizer();
    let mut driver = Driver::new(options(5, vec![EOS]));
    start(&mut driver, "hello").unwrap();
    assert!(matches!(driver.step(&tokenizer, &favouring(FOUR)), StepOutcome::Emit(_)));
    assert!(!driver.wants_scores());
    assert!(!driver.after_emit(true));
    assert_eq!(driver.phase(), Phase::Finishing);
    assert!(matches!(driver.step(&tokenizer, &favouring(FOUR)), StepOutcome::Ignored));
    assert_eq!(driver.generated(), 1);

    let mut all_at_once = Driver::new(options(1, vec![EOS]));
    start(&mut all_at_once, "hello").unwrap();
    all_at_once.step(&tokenizer, &favouring(EOS));
    assert!(!all_at_once.after_emit(true));
    assert_eq!(all_at_once.stop_reason(), Some(StopReason::Cancelled));

    let mut stop_and_limit = Driver::new(options(1, vec![EOS]));
    start(&mut stop_and_limit, "hello").unwrap();
    stop_and_limit.step(&tokenizer, &favouring(EOS));
    assert!(!stop_and_limit.after_emit(false));
    assert_eq!(stop_and_limit.stop_reason(), Some(StopReason::EndOfSequence));
}

#[test]
fn closing_between_steps_ends_the_request() {
    let tokenizer = tokenizer();
    let mut driver = Driver::new(options(5, Vec::new()));
    start(&mut driver, "hello").unwrap();
    assert!(driver.wants_scores());
    assert!(!driver.after_emit(true));
    assert_eq!(driver.phase(), Phase::Finishing);
    assert_eq!(driver.stop_reason(), Some(StopReason::Cancelled));
    assert_eq!(driver.generated(), 0);
    assert!(driver.finish());
}

#[test]
fn greedy_runs_are_deterministic() {
    let plan = [FOUR, 0, 1, FOUR, EOS, 0];
    let (first, first_fragments, _) = run("What is 2+2?", options(9, vec![EOS]), &plan, None);
    let (second, second_fragments, _) = run("What is 2+2?", options(9, vec![EOS]), &plan, None);
    assert_eq!(first.tokens(), second.tokens());
    assert_eq!(first_fragments, second_fragments);
    assert_eq!(first_fragments, vec!["4", "hello", "world", "4", ""]);
    assert_eq!(first.generated(), 5);
}

#[test]
fn token_sequence_grows_by_one_per_step() {
    let tokenizer = tokenizer();
    let mut driver = Driver::new(options(3, Vec::new()));
    start(&mut driver, "hello world").unwrap();
    let prompt_len = driver.tokens().len();
    assert!(prompt_len > 0);
    for step in 1..=3usize {
        assert!(driver.wants_scores());
        let outcome = driver.step(&tokenizer, &favouring(1));
        assert!(matches!(outcome, StepOutcome::Emit(ref text) if text == "world"));
        assert_eq!(driver.tokens().len(), prompt_len + step);
        assert_eq!(driver.tokens()[prompt_len + step - 1], 1);
        assert_eq!(driver.after_emit(false), step < 3);
    }
    assert_eq!(driver.phase(), Phase::Finishing);
}

#[test]
fn empty_scores_fail_the_request() {
    let tokenizer = tokenizer();
    let mut driver = Driver::new(options(5, Vec::new()));
    start(&mut driver, "hello").unwrap();
    let before = driver.tokens().clone();
    assert!(matches!(
        driver.step(&tokenizer, &Vec::new()),
        StepOutcome::Failed(EngineError::Inference)
    ));
    assert_eq!(driver.phase(), Phase::Terminated);
    assert_eq!(driver.failure(), Some(EngineError::Inference));
    assert_eq!(driver.stop_reason(), None);
    assert_eq!(driver.tokens(), &before);
    assert!(!driver.finish());
}

#[test]
fn failed_forward_pass_keeps_what_was_generated() {
    let tokenizer = tokenizer();
    let mut driver = Driver::new(options(5, Vec::new()));
    start(&mut driver, "hello").unwrap();
    assert!(matches!(driver.step(&tokenizer, &favouring(FOUR)), StepOutcome::Emit(_)));
    assert!(!driver.forward_failed());
    assert!(driver.after_emit(false));
    assert!(driver.forward_failed());
    assert_eq!(driver.generated(), 1);
    assert_eq!(driver.failure(), Some(EngineError::Inference));
    assert_eq!(driver.phase(), Phase::Terminated);
    assert!(matches!(driver.step(&tokenizer, &favouring(FOUR)), StepOutcome::Ignored));
}

#[test]
fn encoding_failure_terminates_before_any_step() {
    let mut driver = Driver::new(options(5, Vec::new()));
    assert!(driver.prepare());
    assert_eq!(driver.phase(), Phase::Encoding);
    assert_eq!(driver.begin(None), Err(EngineError::Encoding));
    assert_eq!(driver.phase(), Phase::Terminated);
    assert_eq!(driver.failure(), Some(EngineError::Encoding));
    assert!(!driver.wants_scores());
    assert!(driver.tokens().is_empty());
}

#[test]
fn accept_takes_a_token_from_any_sampler() {
    let mut driver = Driver::new(options(2, vec![7]));
    assert!(matches!(driver.accept(1, 8, None), StepOutcome::Ignored));
    driver.prepare();
    assert_eq!(driver.begin(Some(vec![10, 11])), Ok(()));
    assert_eq!(driver.phase(), Phase::Stepping);
    assert!(matches!(driver.accept(5, 8, None), StepOutcome::Silent));
    assert!(matches!(driver.accept(6, 8, None), StepOutcome::Ignored));
    assert!(driver.after_emit(false));
    let outcome = driver.accept(7, 8, Some(String::from("end")));
    assert!(matches!(outcome, StepOutcome::Emit(ref text) if text == "end"));
    assert!(!driver.after_emit(false));
    assert_eq!(driver.tokens(), &vec![10, 11, 5, 7]);
    assert_eq!(driver.generated(), 2);
    assert_eq!(driver.phase(), Phase::Finishing);
}

#[test]
fn empty_prompt_is_accepted() {
    let tokenizer = tokenizer();
    let mut driver = Driver::new(options(1, Vec::new()));
    assert_eq!(start(&mut driver, ""), Ok(()));
    assert_eq!(driver.phase(), Phase::Stepping);
    let mut bare = Driver::new(options(1, Vec::new()));
    bare.prepare();
    assert_eq!(bare.begin(Some(Vec::new())), Ok(()));
    assert!(bare.wants_scores());
}

#[test]
fn start_happens_once() {
    let tokenizer = tokenizer();
    let mut driver = Driver::new(options(2, Vec::new()));
    start(&mut driver, "hello").unwrap();
    let tokens = driver.tokens().clone();
    assert_eq!(start(&mut driver, "world world world"), Ok(()));
    assert_eq!(driver.tokens(), &tokens);
    assert_eq!(driver.phase(), Phase::Stepping);
}

#[test]
fn step_emits_the_text_of_the_chosen_token() {
    let tokenizer = tokenizer();
    let mut driver = Driver::new(options(4, Vec::new()));
    start(&mut driver, "hello").unwrap();
    for id in [0u32, 1, FOUR, EOS] {
        let expected = tokenizer.decode_token(id);
        match driver.step(&tokenizer, &favouring(id)) {
            StepOutcome::Emit(text) => assert_eq!(Some(text), expected),
            StepOutcome::Silent => assert_eq!(None, expected),
            _ => panic!("a token was due"),
        }
        assert_eq!(driver.tokens().last(), Some(&id));
        driver.after_emit(false);
    }
}

#[test]
fn accept_refuses_an_id_past_the_vocabulary() {
    for (id, vocabulary) in [(8u32, 8usize), (u32::MAX, 8), (0, 0), (9, 8)] {
        let mut driver = Driver::new(options(3, Vec::new()));
        driver.prepare();
        driver.begin(Some(vec![10, 11])).unwrap();
        let outcome = driver.accept(id, vocabulary, Some(String::from("x")));
        assert!(matches!(outcome, StepOutcome::Failed(EngineError::Inference)));
        assert_eq!(driver.tokens(), &vec![10, 11]);
        assert_eq!(driver.generated(), 0);
        assert_eq!(driver.phase(), Phase::Terminated);
        assert_eq!(driver.failure(), Some(EngineError::Inference));
    }
    let mut driver = Driver::new(options(3, Vec::new()));
    driver.prepare();
    driver.begin(Some(vec![10, 11])).unwrap();
    assert!(matches!(driver.accept(7, 8, None), StepOutcome::Silent));
    assert_eq!(driver.tokens(), &vec![10, 11, 7]);
}
