//! Request and response shapes of the remote translation service, and the
//! retry/backoff policy that guards the call to it.
//!
//! The network call itself is I/O and stays outside the library; callers
//! perform one attempt at a time and feed its outcome to
//! [`client_step`], which decides whether to return the translated text,
//! back off and retry, or give up.

use vstd::prelude::*;
use vstd::string::*;

verus! {

/// A request to the remote text-generation service: a fixed model
/// identifier, an instruction string and the input text to translate.
pub struct AiRequest {
    pub model: String,
    pub instructions: String,
    pub input: String,
}

impl AiRequest {
    /// Builds a request for the fixed model, carrying the given
    /// instructions and input text.
    pub fn new(instructions: String, input: String) -> (r: AiRequest)
        ensures
            r.model@ == "gpt-4o-mini"@,
            r.instructions@ == instructions@,
            r.input@ == input@,
    {
        AiRequest { model: "gpt-4o-mini".to_owned(), instructions, input }
    }
}

/// One line of text inside a response item.
pub struct ContentLine {
    pub text: String,
}

/// One output item of a response: a list of content lines.
pub struct ResponseContent {
    pub content: Vec<ContentLine>,
}

/// A successful response of the remote service: a list of output items.
pub struct AiReponse {
    pub output: Vec<ResponseContent>,
}

/// The text that remains when one pair of surrounding quote characters,
/// if present, is removed.
pub open spec fn strip_quote_pair_spec(s: Seq<char>) -> Seq<char> {
    if s.len() >= 2 && s[0] == '"' && s[s.len() - 1] == '"' {
        s.subrange(1, s.len() - 1)
    } else {
        s
    }
}

/// Removes a single pair of surrounding quote characters, if both are
/// present; any other text is returned unchanged.
pub fn strip_quote_pair(s: &str) -> (r: String)
    ensures
        r@ == strip_quote_pair_spec(s@),
{
    let n = s.unicode_len();
    if n >= 2 && s.get_char(0) == '"' && s.get_char(n - 1) == '"' {
        s.substring_char(1, n - 1).to_owned()
    } else {
        s.to_owned()
    }
}

impl AiReponse {
    /// The translated text of a successful response: the text field of the
    /// first content line of the first output item, with a single pair of
    /// surrounding quote characters stripped if present.
    pub fn extract_translation_result(&self) -> (r: String)
        requires
            self.output@.len() > 0,
            self.output@[0].content@.len() > 0,
        ensures
            r@ == strip_quote_pair_spec(self.output@[0].content@[0].text@),
    {
        strip_quote_pair(self.output[0].content[0].text.as_str())
    }
}

/// The retry budget: after this many failed attempts have been retried,
/// the next failure is fatal.
pub const MAX_RETRIES: u32 = 5;

/// Two to the power `n`.
pub open spec fn pow2(n: nat) -> nat
    decreases n,
{
    if n == 0 {
        1
    } else {
        2 * pow2((n - 1) as nat)
    }
}

/// The backoff wait in milliseconds before the retry that follows the
/// given number of failures: 100ms doubled once per earlier failure.
pub open spec fn backoff_wait_spec(failures: nat) -> nat {
    100 * pow2(failures)
}

proof fn lemma_pow2_small(n: nat)
    requires
        n <= 5,
    ensures
        pow2(n) <= 32,
{
    reveal_with_fuel(pow2, 6);
}

/// Computes the backoff wait in milliseconds after the given number of
/// failures.
pub fn backoff_wait_ms(failures: u32) -> (w: u64)
    requires
        failures <= MAX_RETRIES,
    ensures
        w == backoff_wait_spec(failures as nat),
{
    let mut w: u64 = 100;
    let mut j: u32 = 0;
    while j < failures
        invariant
            j <= failures <= MAX_RETRIES,
            w == backoff_wait_spec(j as nat),
        decreases failures - j,
    {
        proof {
            lemma_pow2_small(j as nat);
        }
        w = w * 2;
        j = j + 1;
    }
    w
}

/// How many attempts have failed so far in one call of the client.
pub struct RetryState {
    pub failures: u32,
}

impl RetryState {
    /// A fresh state: no attempt has failed yet.
    pub fn new() -> (s: RetryState)
        ensures
            s.failures == 0,
    {
        RetryState { failures: 0 }
    }
}

/// The outcome of one attempt to reach the remote service, as the caller
/// observed it: the extracted text of a successful response, or the error
/// text of a transport failure or non-success status.
pub enum AttemptOutcome {
    Success(String),
    Failure(String),
}

/// What the client does after one attempt: return the translated text,
/// sleep for `wait_ms` milliseconds and try again, or fail because the
/// retry budget is spent.
pub enum ClientAction {
    Done(String),
    Backoff { attempt: u32, wait_ms: u64, error: String },
    Exhausted,
}

/// Decides what follows one attempt.
///
/// A success ends the call with its text. A failure is retried with
/// exponential backoff (100ms doubled per failure) while fewer than
/// [`MAX_RETRIES`] attempts have failed; once the budget is spent the next
/// failure is fatal.
pub fn client_step(state: &mut RetryState, outcome: AttemptOutcome) -> (a: ClientAction)
    requires
        old(state).failures <= MAX_RETRIES,
    ensures
        final(state).failures <= MAX_RETRIES,
        match outcome {
            AttemptOutcome::Success(t) => a == ClientAction::Done(t) && *final(state) == *old(state),
            AttemptOutcome::Failure(e) => if old(state).failures < MAX_RETRIES {
                a == (ClientAction::Backoff {
                    attempt: old(state).failures,
                    wait_ms: backoff_wait_spec(old(state).failures as nat) as u64,
                    error: e,
                }) && final(state).failures == old(state).failures + 1
            } else {
                a == ClientAction::Exhausted && *final(state) == *old(state)
            },
        },
{
    match outcome {
        AttemptOutcome::Success(t) => ClientAction::Done(t),
        AttemptOutcome::Failure(e) => {
            if state.failures < MAX_RETRIES {
                let wait = backoff_wait_ms(state.failures);
                let attempt = state.failures;
                proof {
                    lemma_pow2_small(state.failures as nat);
                }
                state.failures = state.failures + 1;
                ClientAction::Backoff { attempt, wait_ms: wait, error: e }
            } else {
                ClientAction::Exhausted
            }
        },
    }
}

} // verus!
