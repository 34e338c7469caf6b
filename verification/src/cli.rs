//! What the command-line surface decides, as plain functions: mapping the
//! user's model-tier argument to a wire-level model identifier, normalizing
//! an entered question, and recognizing the quit command. Reading arguments
//! and lines is outside this crate; it hands the strings in.

use vstd::prelude::*;

use crate::text::{lower_of, str_equal, to_lower_str, trim_of, trim_str};

verus! {

/// The wire-level model identifier for a tier argument: `small` and
/// `medium` name their tiers, every other value falls back to the cheapest
/// tier.
pub open spec fn spec_model_for(arg: Seq<char>) -> Seq<char> {
    if arg == "small"@ {
        "mistral-small"@
    } else if arg == "medium"@ {
        "mistral-medium"@
    } else {
        "mistral-tiny"@
    }
}

/// Maps the model-tier argument to the wire-level model identifier,
/// defaulting unrecognized tiers to `mistral-tiny`.
pub fn get_ai_model(model_arg: &str) -> (r: String)
    ensures
        r@ == spec_model_for(model_arg@),
{
    if str_equal(model_arg, "small") {
        "mistral-small".to_owned()
    } else if str_equal(model_arg, "medium") {
        "mistral-medium".to_owned()
    } else {
        "mistral-tiny".to_owned()
    }
}

/// Every model-tier argument other than `small` and `medium` resolves to
/// the default tier's wire identifier.
pub proof fn lemma_unknown_model_defaults(arg: Seq<char>)
    requires
        arg != "small"@,
        arg != "medium"@,
    ensures
        spec_model_for(arg) == "mistral-tiny"@,
{
}

/// The quit tokens, recognized on the already-normalized question: `quit`,
/// `exit`, `q`, `ex`, or an empty line.
pub open spec fn spec_is_quit(q: Seq<char>) -> bool {
    q == "quit"@ || q == "exit"@ || q == "q"@ || q == "ex"@ || q == ""@
}

/// Whether a normalized question is a quit command.
pub fn check_quit(question: &str) -> (r: bool)
    ensures
        r == spec_is_quit(question@),
{
    str_equal(question, "quit") || str_equal(question, "exit") || str_equal(question, "q")
        || str_equal(question, "ex") || str_equal(question, "")
}

/// Normalizes an entered question the way the prompt loop does: trimmed,
/// then lower-cased.
pub fn normalize_question(raw: &str) -> (r: String)
    ensures
        r@ == lower_of(trim_of(raw@)),
{
    let trimmed = trim_str(raw);
    to_lower_str(trimmed)
}

} // verus!
