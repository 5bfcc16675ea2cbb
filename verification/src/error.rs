//! Diagnostics: the messages of this crate, and how the diagnostics of
//! independent steps are gathered into one.

use vstd::prelude::*;

verus! {

pub const ACCESSORS_ON_ENUM_ERROR_MESSAGE: &'static str =
    "Accessors derive macro does not support Enum types.";

pub const ACCESSORS_ON_UNION_ERROR_MESSAGE: &'static str =
    "Accessors derive macro does not support Union types.";

pub const ACCESSORS_ATTR_DATA_ONLY_TAKE_ACCESSORS_ATTR: &'static str =
    "AccessorsAttrData from meta need to be a meta list with the ident accessors.";

pub const EXPECTED_IDENTIFIER_ERROR_MESSAGE: &'static str = "expected identifier";

pub const EXPECTED_COMMA_ERROR_MESSAGE: &'static str = "expected `,`";

/// `syn::Error`: a diagnostic that carries one message or several.
#[verifier::external_type_specification]
#[verifier::external_body]
pub struct ExError(syn::Error);

/// The messages that a diagnostic carries, in the order in which they are
/// reported.
pub uninterp spec fn messages(error: syn::Error) -> Seq<Seq<char>>;

/// Whether a diagnostic carries a message at all. One that carries none
/// would be reported as nothing.
pub open spec fn has_message(error: syn::Error) -> bool {
    messages(error).len() > 0
}

/// What `{:?}` writes for a string: the string between double quotes, with
/// the characters escaped that `str`'s `Debug` escapes.
pub uninterp spec fn debug_text(text: Seq<char>) -> Seq<char>;

/// `syn::Error::new`: a diagnostic with the one message given, which points
/// at the place given.
#[verifier::external_body]
pub(crate) fn new_error(span: proc_macro2::Span, message: &str) -> (error: syn::Error)
    ensures
        messages(error) == seq![message@],
{
    syn::Error::new(span, message)
}

/// The place of the item at an index, where the places are known that far;
/// the place given otherwise.
pub fn span_at(spans: &Vec<proc_macro2::Span>, index: usize, otherwise: proc_macro2::Span) -> (span:
    proc_macro2::Span)
    ensures
        span == if index < spans@.len() {
            spans@[index as int]
        } else {
            otherwise
        },
{
    if index < spans.len() {
        spans[index]
    } else {
        otherwise
    }
}

/// `syn::Error::combine` appends the messages of `another` to those that the
/// diagnostic already carries.
pub assume_specification[ syn::Error::combine ](error: &mut syn::Error, another: syn::Error)
    ensures
        messages(*final(error)) == messages(*old(error)) + messages(another),
;

/// An outcome as contracts speak of it: the value, or the messages of the
/// diagnostic.
pub open spec fn outcome<T>(result: Result<T, syn::Error>) -> Result<T, Seq<Seq<char>>> {
    match result {
        Ok(value) => Ok(value),
        Err(error) => Err(messages(error)),
    }
}

/// `format!("{:?}", text)`: the `Debug` form of a string.
#[verifier::external_body]
fn debug_str(text: &str) -> (quoted: String)
    ensures
        quoted@ == debug_text(text@),
{
    format!("{:?}", text)
}

/// The message for an argument that is not in the vocabulary, around the
/// argument as it is quoted.
pub open spec fn invalid_arg_message(quoted: Seq<char>) -> Seq<char> {
    "Invalid arg "@ + quoted + " as input for accessors. Try get, get_copy, get_mut or set."@
}

/// The message for an argument, already quoted, that is not in the
/// vocabulary.
pub fn invalid_quoted_arg_error_message(quoted: &str) -> (message: String)
    ensures
        message@ == invalid_arg_message(quoted@),
{
    let mut message = String::from_str("Invalid arg ");
    message.append(quoted);
    message.append(" as input for accessors. Try get, get_copy, get_mut or set.");
    message
}

/// The message for an argument that is not in the vocabulary: it names the
/// argument, quoted as `{:?}` quotes it, and lists the vocabulary.
pub fn invalid_accessors_arg_error_message(arg: &str) -> (message: String)
    ensures
        message@ == invalid_arg_message(debug_text(arg@)),
{
    let quoted = debug_str(arg);
    invalid_quoted_arg_error_message(quoted.as_str())
}

/// The outcomes of a sequence of steps, as contracts speak of them.
pub open spec fn outcomes<T>(results: Seq<Result<T, syn::Error>>) -> Seq<
    Result<T, Seq<Seq<char>>>,
> {
    Seq::new(results.len(), |i: int| outcome(results[i]))
}

/// Whether every step succeeded.
pub open spec fn all_ok<T>(results: Seq<Result<T, Seq<Seq<char>>>>) -> bool {
    forall|i: int| 0 <= i < results.len() ==> (#[trigger] results[i]) is Ok
}

/// The values of the steps that succeeded, in order.
pub open spec fn successes<T>(results: Seq<Result<T, Seq<Seq<char>>>>) -> Seq<T>
    decreases results.len(),
{
    if results.len() == 0 {
        Seq::empty()
    } else {
        let before = successes(results.drop_last());
        match results.last() {
            Ok(value) => before.push(value),
            Err(_) => before,
        }
    }
}

/// The messages of the steps that failed, in order.
pub open spec fn failures<T>(results: Seq<Result<T, Seq<Seq<char>>>>) -> Seq<Seq<char>>
    decreases results.len(),
{
    if results.len() == 0 {
        Seq::empty()
    } else {
        let before = failures(results.drop_last());
        match results.last() {
            Ok(_) => before,
            Err(messages) => before + messages,
        }
    }
}

/// The outcomes of independent steps gathered into one: the values of all,
/// in order, where all succeeded; else the messages of every step that
/// failed, in order.
pub open spec fn gathered<T>(results: Seq<Result<T, Seq<Seq<char>>>>) -> Result<
    Seq<T>,
    Seq<Seq<char>>,
> {
    if all_ok(results) {
        Ok(successes(results))
    } else {
        Err(failures(results))
    }
}

/// All steps succeeded exactly when all but the last did and the last did.
pub proof fn lemma_all_ok_step<T>(results: Seq<Result<T, Seq<Seq<char>>>>)
    requires
        results.len() > 0,
    ensures
        all_ok(results) <==> all_ok(results.drop_last()) && results.last() is Ok,
{
    let before = results.drop_last();
    if all_ok(results) {
        assert forall|i: int| 0 <= i < before.len() implies (#[trigger] before[i]) is Ok by {
            assert(before[i] == results[i]);
        }
    }
    if all_ok(before) && results.last() is Ok {
        assert forall|i: int| 0 <= i < results.len() implies (#[trigger] results[i]) is Ok by {
            if i < before.len() {
                assert(before[i] == results[i]);
            }
        }
    }
}

/// Where every step succeeded there is no message, and every value is kept
/// in its place.
pub proof fn lemma_all_ok_keeps_all<T>(results: Seq<Result<T, Seq<Seq<char>>>>)
    requires
        all_ok(results),
    ensures
        failures(results) == Seq::<Seq<char>>::empty(),
        successes(results).len() == results.len(),
        forall|i: int|
            0 <= i < results.len() ==> results[i] == Ok::<T, Seq<Seq<char>>>(
                #[trigger] successes(results)[i],
            ),
    decreases results.len(),
{
    if results.len() > 0 {
        lemma_all_ok_step(results);
        lemma_all_ok_keeps_all(results.drop_last());
    }
}

/// Where a step failed and every failure has a message, the gathered
/// failures have one.
pub proof fn lemma_failures_have_messages<T>(results: Seq<Result<T, Seq<Seq<char>>>>)
    requires
        !all_ok(results),
        forall|i: int|
            0 <= i < results.len() && (#[trigger] results[i]) is Err ==> results[i]->Err_0.len()
                > 0,
    ensures
        failures(results).len() > 0,
    decreases results.len(),
{
    if results.len() > 0 {
        let before = results.drop_last();
        lemma_all_ok_step(results);
        assert(results.last() == results[results.len() - 1]);
        if results.last() is Ok {
            assert forall|i: int| 0 <= i < before.len() && (#[trigger] before[i]) is Err implies
                before[i]->Err_0.len() > 0 by {
                assert(before[i] == results[i]);
            }
            lemma_failures_have_messages(before);
        }
    }
}

/// Gathers the outcomes of independent steps. Where all succeeded, their
/// values come back in order. Where any failed, one diagnostic comes back
/// that carries the messages of every failure, in order: none is dropped, and
/// the first does not hide the rest.
pub fn combine_syn_errors<T>(results: Vec<Result<T, syn::Error>>) -> (combined: Result<
    Vec<T>,
    syn::Error,
>)
    ensures
        match combined {
            Ok(values) => gathered(outcomes(results@)) == Ok::<Seq<T>, Seq<Seq<char>>>(values@),
            Err(error) => gathered(outcomes(results@)) == Err::<Seq<T>, Seq<Seq<char>>>(
                messages(error),
            ),
        },
{
    let ghost all = outcomes(results@);
    let mut values: Vec<T> = Vec::new();
    let mut failed: Option<syn::Error> = None;
    for result in iter: results
        invariant
            iter.seq() == results@,
            all == outcomes(results@),
            values@ == successes(all.take(iter.index() as int)),
            match failed {
                None => all_ok(all.take(iter.index() as int)),
                Some(error) => !all_ok(all.take(iter.index() as int)) && messages(error)
                    == failures(all.take(iter.index() as int)),
            },
    {
        proof {
            let done = all.take(iter.index() + 1);
            assert(done.drop_last() == all.take(iter.index() as int));
            assert(done.last() == outcome(result));
            lemma_all_ok_step(done);
            if failed is None {
                lemma_all_ok_keeps_all(done.drop_last());
            }
        }
        match result {
            Ok(value) => {
                values.push(value);
            },
            Err(error) => {
                failed = match failed {
                    None => Some(error),
                    Some(mut earlier) => {
                        earlier.combine(error);
                        Some(earlier)
                    },
                };
            },
        }
    }
    assert(all.take(all.len() as int) == all);
    match failed {
        None => Ok(values),
        Some(error) => Err(error),
    }
}

} // verus!
