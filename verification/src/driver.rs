use crate::error::EngineError;
use crate::options::{contains_id, GenerationOptions};
use crate::sampler::{greedy_choice, select_token};
use crate::tokenizer::TokenizerAdapter;
use vstd::prelude::*;

verus! {

/// Where a generation request stands.
#[derive(Clone, Copy, Debug, PartialEq, Eq, Structural)]
pub enum Phase {
    /// Made, nothing done yet.
    Initializing,
    /// The prompt is being formatted and encoded.
    Encoding,
    /// Tokens are being generated, one per step.
    Stepping,
    /// Generation is over; the output channel is to be closed normally.
    Finishing,
    /// Nothing more happens.
    Terminated,
}

/// Why generation ended without an error. Where several reasons hold after
/// one step, the first of these in order is the one recorded.
#[derive(Clone, Copy, Debug, PartialEq, Eq, Structural)]
pub enum StopReason {
    /// The caller closed the output.
    Cancelled,
    /// The chosen token is an end-of-sequence id.
    EndOfSequence,
    /// As many tokens were generated as the request allows.
    LimitReached,
}

/// What one step hands to the caller.
#[derive(Debug)]
pub enum StepOutcome {
    /// A token was appended; this is its text, to be pushed to the output.
    Emit(String),
    /// A token was appended, but the tokenizer gave no text for it.
    Silent,
    /// The request failed and is terminated.
    Failed(EngineError),
    /// The driver was not waiting for this; nothing changed.
    Ignored,
}

/// The driver as a mathematical value.
pub struct DriverView {
    pub phase: Phase,
    /// The prompt's ids followed by the generated ids.
    pub tokens: Seq<u32>,
    /// How many of `tokens` came from the prompt.
    pub prompt_len: nat,
    pub max_new_tokens: nat,
    pub stop_ids: Seq<u32>,
    /// A token was appended and the stop conditions are still to be checked.
    pub awaiting_sink: bool,
    /// Why generation ended, once it has ended without an error.
    pub stop: Option<StopReason>,
    /// The error that terminated the request, if one did.
    pub failure: Option<EngineError>,
}

impl DriverView {
    /// How many steps have been performed: the tokens appended to the prompt.
    pub open spec fn generated(self) -> int {
        self.tokens.len() - self.prompt_len
    }

    /// The driver waits for the scores of the next position.
    pub open spec fn ready(self) -> bool {
        self.phase == Phase::Stepping && !self.awaiting_sink
    }

    /// What holds of every driver.
    pub open spec fn wf(self) -> bool {
        &&& self.prompt_len <= self.tokens.len()
        &&& self.generated() <= self.max_new_tokens
        &&& (self.phase == Phase::Initializing || self.phase == Phase::Encoding)
            ==> self.tokens.len() == 0
        &&& self.awaiting_sink ==> self.phase == Phase::Stepping && self.generated() >= 1
        &&& self.ready() ==> self.generated() < self.max_new_tokens
        &&& self.failure is Some ==> self.phase == Phase::Terminated
        &&& self.stop is Some <==> (self.phase == Phase::Finishing || (self.phase
            == Phase::Terminated && self.failure is None))
        &&& self.stop == Some(StopReason::LimitReached) ==> self.generated()
            == self.max_new_tokens
        &&& self.stop == Some(StopReason::EndOfSequence) ==> self.generated() >= 1
            && self.stop_ids.contains(self.tokens.last())
    }

    /// A fresh driver for a request with the given limits.
    pub open spec fn init(max_new_tokens: nat, stop_ids: Seq<u32>) -> DriverView {
        DriverView {
            phase: Phase::Initializing,
            tokens: Seq::empty(),
            prompt_len: 0,
            max_new_tokens,
            stop_ids,
            awaiting_sink: false,
            stop: None,
            failure: None,
        }
    }

    /// Terminated by `error`.
    pub open spec fn failed(self, error: EngineError) -> DriverView {
        DriverView {
            phase: Phase::Terminated,
            awaiting_sink: false,
            failure: Some(error),
            ..self
        }
    }

    /// The inputs are accepted: on to encoding.
    pub open spec fn prepared(self) -> DriverView {
        if self.phase == Phase::Initializing {
            DriverView { phase: Phase::Encoding, ..self }
        } else {
            self
        }
    }

    /// The tokenizer has answered. With ids the request starts stepping, or
    /// goes straight to finishing where no token may be generated; without,
    /// it is terminated by the encoding error.
    pub open spec fn begun(self, encoded: Option<Seq<u32>>) -> DriverView {
        if self.phase == Phase::Encoding {
            match encoded {
                Some(ids) => DriverView {
                    phase: if self.max_new_tokens == 0 {
                        Phase::Finishing
                    } else {
                        Phase::Stepping
                    },
                    stop: if self.max_new_tokens == 0 {
                        Some(StopReason::LimitReached)
                    } else {
                        None
                    },
                    tokens: ids,
                    prompt_len: ids.len(),
                    ..self
                },
                None => self.failed(EngineError::Encoding),
            }
        } else {
            self
        }
    }

    /// The token `id` was chosen: it is appended, and the stop conditions
    /// are due.
    pub open spec fn accepted(self, id: u32) -> DriverView {
        if self.ready() {
            DriverView { tokens: self.tokens.push(id), awaiting_sink: true, ..self }
        } else {
            self
        }
    }

    /// A sampler has chosen `id` from a vocabulary of `vocabulary_size`
    /// ids: an id of the vocabulary is appended, any other fails the request
    /// as a failed forward pass does.
    pub open spec fn sampled(self, id: u32, vocabulary_size: nat) -> DriverView {
        if id < vocabulary_size {
            self.accepted(id)
        } else {
            self.forward_failed()
        }
    }

    /// The forward pass failed while the driver waited for its scores.
    pub open spec fn forward_failed(self) -> DriverView {
        if self.ready() {
            self.failed(EngineError::Inference)
        } else {
            self
        }
    }

    /// The scores of the next position have come: the greedy choice is
    /// appended, or the request fails where there is none to make.
    pub open spec fn stepped(self, scores: Seq<i64>) -> DriverView {
        if scores.len() > 0 && greedy_choice(scores) <= u32::MAX {
            self.accepted(greedy_choice(scores) as u32)
        } else {
            self.forward_failed()
        }
    }

    /// Why the request ends after the step that appended the last token,
    /// if it does. The conditions are tried in order: the output was closed;
    /// the token is an end-of-sequence id; the limit is reached.
    pub open spec fn stop_after_step(self, sink_closed: bool) -> Option<StopReason> {
        if sink_closed {
            Some(StopReason::Cancelled)
        } else if self.stop_ids.contains(self.tokens.last()) {
            Some(StopReason::EndOfSequence)
        } else if self.generated() >= self.max_new_tokens {
            Some(StopReason::LimitReached)
        } else {
            None
        }
    }

    /// The stop conditions were checked after a step. A closed output ends
    /// the request between steps too.
    pub open spec fn checked(self, sink_closed: bool) -> DriverView {
        if self.phase == Phase::Stepping && (self.awaiting_sink || sink_closed) {
            DriverView {
                phase: if self.stop_after_step(sink_closed) is Some {
                    Phase::Finishing
                } else {
                    Phase::Stepping
                },
                stop: self.stop_after_step(sink_closed),
                awaiting_sink: false,
                ..self
            }
        } else {
            self
        }
    }

    /// The output was closed normally.
    pub open spec fn finished(self) -> DriverView {
        if self.phase == Phase::Finishing {
            DriverView { phase: Phase::Terminated, ..self }
        } else {
            self
        }
    }
}

/// The tokenizer's answer as a mathematical value.
pub open spec fn ids_of(encoded: Option<Vec<u32>>) -> Option<Seq<u32>> {
    match encoded {
        Some(ids) => Some(ids@),
        None => None,
    }
}

/// What the caller gets for an appended token, given the tokenizer's text.
pub open spec fn emission(decoded: Option<String>) -> StepOutcome {
    match decoded {
        Some(text) => StepOutcome::Emit(text),
        None => StepOutcome::Silent,
    }
}

/// The text that an outcome carries, if it carries one.
pub open spec fn fragment_of(outcome: StepOutcome) -> Option<Seq<char>> {
    match outcome {
        StepOutcome::Emit(text) => Some(text@),
        _ => None,
    }
}

/// The state of one generation request: the growing token sequence and the
/// phase. It decides; the caller runs the model and the output channel and
/// reports back.
pub struct Driver {
    phase: Phase,
    tokens: Vec<u32>,
    prompt_len: usize,
    max_new_tokens: usize,
    stop_token_ids: Vec<u32>,
    awaiting_sink: bool,
    stop: Option<StopReason>,
    failure: Option<EngineError>,
}

impl View for Driver {
    type V = DriverView;

    closed spec fn view(&self) -> DriverView {
        DriverView {
            phase: self.phase,
            tokens: self.tokens@,
            prompt_len: self.prompt_len as nat,
            max_new_tokens: self.max_new_tokens as nat,
            stop_ids: self.stop_token_ids@,
            awaiting_sink: self.awaiting_sink,
            stop: self.stop,
            failure: self.failure,
        }
    }
}

impl Driver {
    /// What every driver satisfies; each method keeps it.
    pub open spec fn wf(&self) -> bool {
        self@.wf()
    }

    /// A driver for one request, in `Phase::Initializing`.
    pub fn new(options: GenerationOptions) -> (driver: Driver)
        ensures
            driver.wf(),
            driver@ == DriverView::init(options.max_new_tokens as nat, options.stop_token_ids@),
    {
        Driver {
            phase: Phase::Initializing,
            tokens: Vec::new(),
            prompt_len: 0,
            max_new_tokens: options.max_new_tokens,
            stop_token_ids: options.stop_token_ids,
            awaiting_sink: false,
            stop: None,
            failure: None,
        }
    }

    /// Leaves `Initializing` for `Encoding`: the caller now formats the
    /// prompt and has it encoded. An empty prompt is accepted. Says whether
    /// the driver waits for the encoded prompt.
    pub fn prepare(&mut self) -> (encoding: bool)
        requires
            old(self).wf(),
        ensures
            final(self).wf(),
            final(self)@ == old(self)@.prepared(),
            encoding == (final(self)@.phase == Phase::Encoding),
    {
        if self.phase == Phase::Initializing {
            self.phase = Phase::Encoding;
        }
        self.phase == Phase::Encoding
    }

    /// Takes what the tokenizer made of the formatted prompt, `None` where
    /// it failed, and enters the loop: from `Encoding` to `Stepping`, to
    /// `Finishing` where the limit is zero, or to `Terminated` with the
    /// encoding error. Elsewhere nothing happens. The result is the
    /// request's failure, if it has one.
    pub fn begin(&mut self, encoded: Option<Vec<u32>>) -> (result: Result<(), EngineError>)
        requires
            old(self).wf(),
        ensures
            final(self).wf(),
            final(self)@ == old(self)@.begun(ids_of(encoded)),
            result is Err <==> final(self)@.failure is Some,
            result matches Err(e) ==> final(self)@.failure == Some(e),
    {
        if self.phase == Phase::Encoding {
            match encoded {
                Some(ids) => {
                    self.prompt_len = ids.len();
                    self.tokens = ids;
                    if self.max_new_tokens == 0 {
                        self.phase = Phase::Finishing;
                        self.stop = Some(StopReason::LimitReached);
                    } else {
                        self.phase = Phase::Stepping;
                    }
                },
                None => {
                    self.phase = Phase::Terminated;
                    self.awaiting_sink = false;
                    self.failure = Some(EngineError::Encoding);
                },
            }
        }
        match self.failure {
            Some(e) => Err(e),
            None => Ok(()),
        }
    }

    /// One step on the scores of the next position: chooses greedily,
    /// appends the choice and decodes it alone, special tokens left out; the
    /// fragment is the tokenizer's text for that one id, and there is none
    /// where the tokenizer gave an error. Without a choice (no scores, or an
    /// index that is no token id) the request fails with
    /// `EngineError::Inference`. Where the driver does not wait for scores,
    /// nothing happens.
    pub fn step(&mut self, tokenizer: &TokenizerAdapter, scores: &Vec<i64>) -> (outcome:
        StepOutcome)
        requires
            old(self).wf(),
        ensures
            final(self).wf(),
            final(self)@ == old(self)@.stepped(scores@),
            !old(self)@.ready() <==> outcome is Ignored,
            outcome is Failed <==> old(self)@.ready() && !(scores@.len() > 0 && greedy_choice(
                scores@,
            ) <= u32::MAX),
            outcome matches StepOutcome::Failed(e) ==> e == EngineError::Inference,
            (outcome is Emit || outcome is Silent) ==> final(self)@.tokens.last() < scores@.len(),
            (outcome is Emit || outcome is Silent) ==> tokenizer@.contains_pair(
                (seq![final(self)@.tokens.last()], true),
                fragment_of(outcome),
            ),
    {
        if !self.wants_scores() {
            return StepOutcome::Ignored;
        }
        match select_token(scores) {
            Some(id) => {
                let decoded = tokenizer.decode_token(id);
                self.accept(id, scores.len(), decoded)
            },
            None => {
                self.forward_failed();
                StepOutcome::Failed(EngineError::Inference)
            },
        }
    }

    /// Appends the token `id`, chosen from a vocabulary of
    /// `vocabulary_size` ids, and hands out its text `decoded`, or nothing
    /// where the tokenizer gave none. Any sampler may stand before this. An
    /// id past the vocabulary is never appended: it fails the request with
    /// `EngineError::Inference`. Where the driver does not wait for a token,
    /// nothing happens.
    pub fn accept(&mut self, id: u32, vocabulary_size: usize, decoded: Option<String>) -> (outcome:
        StepOutcome)
        requires
            old(self).wf(),
        ensures
            final(self).wf(),
            final(self)@ == old(self)@.sampled(id, vocabulary_size as nat),
            outcome == (if !old(self)@.ready() {
                StepOutcome::Ignored
            } else if id < vocabulary_size {
                emission(decoded)
            } else {
                StepOutcome::Failed(EngineError::Inference)
            }),
            (outcome is Emit || outcome is Silent) ==> final(self)@.tokens.last()
                < vocabulary_size,
    {
        if !self.wants_scores() {
            return StepOutcome::Ignored;
        }
        if id as usize >= vocabulary_size {
            self.forward_failed();
            return StepOutcome::Failed(EngineError::Inference);
        }
        self.tokens.push(id);
        self.awaiting_sink = true;
        match decoded {
            Some(text) => StepOutcome::Emit(text),
            None => StepOutcome::Silent,
        }
    }

    /// Reports that the forward pass failed: the request is terminated with
    /// `EngineError::Inference`. What was emitted before stays valid.
    pub fn forward_failed(&mut self) -> (failed: bool)
        requires
            old(self).wf(),
        ensures
            final(self).wf(),
            final(self)@ == old(self)@.forward_failed(),
            failed == old(self)@.ready(),
    {
        if !self.wants_scores() {
            return false;
        }
        self.phase = Phase::Terminated;
        self.awaiting_sink = false;
        self.failure = Some(EngineError::Inference);
        true
    }

    /// Checks the stop conditions after a step, in this order: the output
    /// was closed; the token is an end-of-sequence id; the limit is reached.
    /// Says whether another forward pass is wanted.
    pub fn after_emit(&mut self, sink_closed: bool) -> (more: bool)
        requires
            old(self).wf(),
        ensures
            final(self).wf(),
            final(self)@ == old(self)@.checked(sink_closed),
            more == final(self)@.ready(),
            sink_closed ==> !more,
    {
        if self.phase == Phase::Stepping {
            if sink_closed {
                self.awaiting_sink = false;
                self.phase = Phase::Finishing;
                self.stop = Some(StopReason::Cancelled);
            } else if self.awaiting_sink {
                let last = self.tokens[self.tokens.len() - 1];
                let generated = self.tokens.len() - self.prompt_len;
                self.awaiting_sink = false;
                if contains_id(&self.stop_token_ids, last) {
                    self.phase = Phase::Finishing;
                    self.stop = Some(StopReason::EndOfSequence);
                } else if generated >= self.max_new_tokens {
                    self.phase = Phase::Finishing;
                    self.stop = Some(StopReason::LimitReached);
                }
            }
        }
        self.wants_scores()
    }

    /// Leaves `Finishing` for `Terminated`: the caller closes the output
    /// normally. Says whether it did so.
    pub fn finish(&mut self) -> (closed: bool)
        requires
            old(self).wf(),
        ensures
            final(self).wf(),
            final(self)@ == old(self)@.finished(),
            closed == (old(self)@.phase == Phase::Finishing),
    {
        if self.phase == Phase::Finishing {
            self.phase = Phase::Terminated;
            true
        } else {
            false
        }
    }

    /// Whether the driver waits for the scores of the next position.
    pub fn wants_scores(&self) -> (ready: bool)
        ensures
            ready == self@.ready(),
    {
        self.phase == Phase::Stepping && !self.awaiting_sink
    }

    /// Where the request stands.
    pub fn phase(&self) -> (phase: Phase)
        ensures
            phase == self@.phase,
    {
        self.phase
    }

    /// The context for the next forward pass: the prompt's ids and all
    /// generated ids, in order.
    pub fn tokens(&self) -> (tokens: &Vec<u32>)
        ensures
            tokens@ == self@.tokens,
    {
        &self.tokens
    }

    /// How many tokens have been generated.
    pub fn generated(&self) -> (count: usize)
        requires
            self.wf(),
        ensures
            count == self@.generated(),
            count <= self@.max_new_tokens,
    {
        self.tokens.len() - self.prompt_len
    }

    /// Why generation ended, once it has ended without an error.
    pub fn stop_reason(&self) -> (stop: Option<StopReason>)
        ensures
            stop == self@.stop,
    {
        self.stop
    }

    /// The error that terminated the request, if one did.
    pub fn failure(&self) -> (failure: Option<EngineError>)
        ensures
            failure == self@.failure,
    {
        self.failure
    }
}

} // verus!
