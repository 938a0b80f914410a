use vstd::prelude::*;

verus! {

/// Why an indexed selection could not produce an index.
#[derive(Clone, Copy, Debug, PartialEq, Eq, Structural)]
pub enum InteractionError {
    /// The option list was empty: there is nothing to choose from, and no
    /// safe default to substitute.
    EmptyOptions,
    /// The requested default highlight does not name an option.
    DefaultOutOfRange,
    /// The interaction layer itself failed (non-interactive terminal,
    /// terminated input stream) and produced no answer.
    LayerFailure,
    /// The interaction layer produced an index that names no option.
    AnswerOutOfRange,
}

/// Settle an indexed selection over `options`, with `default_index` as the
/// initially highlighted entry. The caller renders the navigable list and
/// hands in what the interaction produced: `Some(i)` for a confirmed choice,
/// `None` when the interaction layer failed.
///
/// A misshapen request — an empty option list, or a default that names no
/// option — fails fast, before any answer is consulted, rather than index
/// out of bounds. A selection failure is never recovered by substituting the
/// default: the caller chose the non-default path, so the error is surfaced
/// and the session aborts.
pub fn select_index(options: &Vec<String>, default_index: usize, answer: Option<usize>) -> (r: Result<
    usize,
    InteractionError,
>)
    ensures
        options@.len() == 0 ==> r == Err::<usize, InteractionError>(InteractionError::EmptyOptions),
        options@.len() > 0 && default_index >= options@.len() ==> r == Err::<usize, InteractionError>(
            InteractionError::DefaultOutOfRange,
        ),
        options@.len() > 0 && default_index < options@.len() ==> match answer {
            Some(i) => if i < options@.len() {
                r == Ok::<usize, InteractionError>(i)
            } else {
                r == Err::<usize, InteractionError>(InteractionError::AnswerOutOfRange)
            },
            None => r == Err::<usize, InteractionError>(InteractionError::LayerFailure),
        },
        r matches Ok(i) ==> i < options@.len() && answer == Some(i),
{
    if options.len() == 0 {
        return Err(InteractionError::EmptyOptions);
    }
    if default_index >= options.len() {
        return Err(InteractionError::DefaultOutOfRange);
    }
    match answer {
        Some(i) => {
            if i < options.len() {
                Ok(i)
            } else {
                Err(InteractionError::AnswerOutOfRange)
            }
        },
        None => Err(InteractionError::LayerFailure),
    }
}

} // verus!
