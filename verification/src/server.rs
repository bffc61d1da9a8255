//! The redirect that brings the user back after authorizing the bot: which
//! requests hand over an authorization code.
use vstd::prelude::*;

verus! {

/// The address the redirect server listens on.
pub const CALLBACK_ADDRESS: &'static str = "0.0.0.0:3000";

/// How long, in seconds, the redirect server lets a request run.
pub const CALLBACK_TIMEOUT_SECS: u64 = 10;

/// What to make of a request that reached the redirect server.
pub enum CallbackOutcome {
    /// The request carries a code and the expected state: hand the code over
    /// and stop the server.
    Authorized(String),
    /// The request carries a code, but its state is not the expected one.
    StateMismatch { expected: String, received: Option<String> },
    /// The user refused to authorize the bot.
    Rejected,
    /// The request carries neither a code nor an error.
    Unexpected,
}

/// A [`CallbackOutcome`] with its texts as sequences of characters.
pub enum CallbackOutcomeView {
    Authorized(Seq<char>),
    StateMismatch { expected: Seq<char>, received: Option<Seq<char>> },
    Rejected,
    Unexpected,
}

/// The view of an optional string.
pub open spec fn opt_view(s: Option<String>) -> Option<Seq<char>> {
    match s {
        Some(t) => Some(t@),
        None => None,
    }
}

impl View for CallbackOutcome {
    type V = CallbackOutcomeView;

    open spec fn view(&self) -> CallbackOutcomeView {
        match self {
            CallbackOutcome::Authorized(code) => CallbackOutcomeView::Authorized(code@),
            CallbackOutcome::StateMismatch { expected, received } =>
                CallbackOutcomeView::StateMismatch { expected: expected@, received: opt_view(*received) },
            CallbackOutcome::Rejected => CallbackOutcomeView::Rejected,
            CallbackOutcome::Unexpected => CallbackOutcomeView::Unexpected,
        }
    }
}

/// What a request to the redirect server means: with a `code` parameter, it
/// is accepted if and only if its `state` parameter is the expected state;
/// without one, an `error` parameter means the user refused.
pub open spec fn callback_outcome(
    expected: Seq<char>,
    code: Option<Seq<char>>,
    state: Option<Seq<char>>,
    has_error: bool,
) -> CallbackOutcomeView {
    match code {
        Some(c) => if state == Some(expected) {
            CallbackOutcomeView::Authorized(c)
        } else {
            CallbackOutcomeView::StateMismatch { expected, received: state }
        },
        None => if has_error {
            CallbackOutcomeView::Rejected
        } else {
            CallbackOutcomeView::Unexpected
        },
    }
}

/// Classifies a request to the redirect server from its `code` and `state`
/// parameters and whether it has an `error` parameter.
pub fn classify_callback(
    expected_state: &String,
    code: Option<String>,
    state: Option<String>,
    has_error: bool,
) -> (outcome: CallbackOutcome)
    ensures
        outcome@ == callback_outcome(expected_state@, opt_view(code), opt_view(state), has_error),
        outcome is Authorized ==> (code is Some && outcome->Authorized_0@ == code->0@),
        outcome is Authorized ==> (state is Some && state->0@ == expected_state@),
        (code is Some && state is Some && state->0@ == expected_state@) ==> (outcome is Authorized
            && outcome->Authorized_0@ == code->0@),
{
    match code {
        Some(c) => {
            let matches = match &state {
                Some(st) => st.eq(expected_state),
                None => false,
            };
            if matches {
                CallbackOutcome::Authorized(c)
            } else {
                CallbackOutcome::StateMismatch { expected: expected_state.clone(), received: state }
            }
        },
        None => {
            if has_error {
                CallbackOutcome::Rejected
            } else {
                CallbackOutcome::Unexpected
            }
        },
    }
}

/// A request that carries a code is authorized, with that very code, if and
/// only if its state is the expected one; any other request with a code is a
/// state mismatch that reports what came. A request without a code is a
/// refusal when it carries an error, and unexpected otherwise.
pub proof fn lemma_callback_outcomes(
    expected: Seq<char>,
    code: Seq<char>,
    state: Option<Seq<char>>,
    has_error: bool,
)
    ensures
        callback_outcome(expected, Some(code), Some(expected), has_error)
            == CallbackOutcomeView::Authorized(code),
        state != Some(expected) ==> callback_outcome(expected, Some(code), state, has_error)
            == (CallbackOutcomeView::StateMismatch { expected, received: state }),
        callback_outcome(expected, None, state, true) == CallbackOutcomeView::Rejected,
        callback_outcome(expected, None, state, false) == CallbackOutcomeView::Unexpected,
{
}

} // verus!
