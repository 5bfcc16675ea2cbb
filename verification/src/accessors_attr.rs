//! The directive set of one field, and how two of them merge.

use crate::error::{
    debug_text, invalid_accessors_arg_error_message, invalid_arg_message, messages, new_error,
    span_at,
    outcome, ACCESSORS_ATTR_DATA_ONLY_TAKE_ACCESSORS_ATTR, EXPECTED_COMMA_ERROR_MESSAGE,
    EXPECTED_IDENTIFIER_ERROR_MESSAGE,
};
use crate::syntax::{Delimiter, MetaItem, Path, Token};
use vstd::prelude::*;

verus! {

/// Whether the path is the identifier `accessors`.
pub open spec fn spec_is_accessors_path(path: Path) -> bool {
    match path.ident {
        Some(ident) => ident@ == "accessors"@,
        None => false,
    }
}

/// Whether the path is the identifier `accessors`: the marker of the
/// attributes that this crate reads.
pub fn is_accessors_path(path: &Path) -> (marked: bool)
    ensures
        marked == spec_is_accessors_path(*path),
{
    match &path.ident {
        Some(ident) => *ident == String::from_str("accessors"),
        None => false,
    }
}

/// Whether the token is a comma.
pub open spec fn is_comma(token: Token) -> bool {
    token matches Token::Punct(c) && c == ','
}

/// The arguments that a list of tokens holds: identifiers separated by
/// commas, with or without a comma behind the last. Where a token is not
/// what its place asks for, the first such token decides the message: an
/// identifier was expected at an even place, a comma at an odd one.
pub open spec fn params_of(tokens: Seq<Token>) -> Result<Seq<String>, Seq<char>>
    decreases tokens.len(),
{
    if tokens.len() == 0 {
        Ok(Seq::empty())
    } else {
        match params_of(tokens.drop_last()) {
            Ok(params) => if tokens.len() % 2 == 1 {
                match tokens.last() {
                    Token::Ident(name) => Ok(params.push(name)),
                    _ => Err(EXPECTED_IDENTIFIER_ERROR_MESSAGE@),
                }
            } else if is_comma(tokens.last()) {
                Ok(params)
            } else {
                Err(EXPECTED_COMMA_ERROR_MESSAGE@)
            },
            Err(message) => Err(message),
        }
    }
}

/// Whether each token is what its place asks for: an identifier at an even
/// place, a comma at an odd one.
pub open spec fn is_param_list(tokens: Seq<Token>) -> bool {
    forall|i: int|
        0 <= i < tokens.len() ==> if i % 2 == 0 {
            (#[trigger] tokens[i]) is Ident
        } else {
            is_comma(tokens[i])
        }
}

/// Reads the arguments of an attribute off its tokens: identifiers separated
/// by commas, with or without a comma behind the last. With the arguments
/// comes the place of each. The diagnostic points at the token that is out
/// of place, where `spans` holds its place, and at `otherwise` where not.
pub fn parse_params(
    tokens: Vec<Token>,
    spans: &Vec<proc_macro2::Span>,
    otherwise: proc_macro2::Span,
) -> (parsed: Result<(Vec<String>, Vec<proc_macro2::Span>), syn::Error>)
    ensures
        match parsed {
            Ok(read) => params_of(tokens@) == Ok::<Seq<String>, Seq<char>>(read.0@)
                && read.1@.len() == read.0@.len(),
            Err(error) => params_of(tokens@) is Err && messages(error) == seq![
                params_of(tokens@)->Err_0,
            ],
        },
{
    let mut params: Vec<String> = Vec::new();
    let mut places: Vec<proc_macro2::Span> = Vec::new();
    let mut index: usize = 0;
    while index < tokens.len()
        invariant
            index <= tokens.len(),
            places@.len() == params@.len(),
            params_of(tokens@.take(index as int)) == Ok::<Seq<String>, Seq<char>>(params@),
        decreases tokens.len() - index,
    {
        proof {
            let done = tokens@.take(index + 1);
            assert(done.drop_last() == tokens@.take(index as int));
            assert(done.last() == tokens@[index as int]);
        }
        let place = span_at(spans, index, otherwise);
        if index % 2 == 0 {
            match &tokens[index] {
                Token::Ident(name) => {
                    params.push(name.clone());
                    places.push(place);
                },
                _ => {
                    proof {
                        lemma_params_of_stays_err(tokens@, index + 1);
                    }
                    return Err(new_error(place, EXPECTED_IDENTIFIER_ERROR_MESSAGE));
                },
            }
        } else {
            let comma = match &tokens[index] {
                Token::Punct(c) => *c == ',',
                _ => false,
            };
            if !comma {
                proof {
                    lemma_params_of_stays_err(tokens@, index + 1);
                }
                return Err(new_error(place, EXPECTED_COMMA_ERROR_MESSAGE));
            }
        }
        index = index + 1;
    }
    assert(tokens@.take(tokens@.len() as int) == tokens@);
    Ok((params, places))
}

/// Once a token is not what its place asks for, the tokens after it change
/// nothing.
pub proof fn lemma_params_of_stays_err(tokens: Seq<Token>, upto: int)
    requires
        0 <= upto <= tokens.len(),
        params_of(tokens.take(upto)) is Err,
    ensures
        params_of(tokens) == params_of(tokens.take(upto)),
    decreases tokens.len(),
{
    if upto < tokens.len() {
        assert(tokens.drop_last().take(upto) == tokens.take(upto));
        lemma_params_of_stays_err(tokens.drop_last(), upto);
    } else {
        assert(tokens.take(upto) == tokens);
    }
}

/// Tokens hold arguments exactly when each token is what its place asks
/// for; the arguments are then the identifiers at the even places, in order.
pub proof fn lemma_params_of_param_list(tokens: Seq<Token>)
    ensures
        params_of(tokens) is Ok <==> is_param_list(tokens),
        params_of(tokens) matches Ok(params) ==> {
            &&& params.len() == (tokens.len() + 1) / 2
            &&& forall|j: int|
                0 <= j < params.len() ==> tokens[2 * j] == Token::Ident(#[trigger] params[j])
        },
    decreases tokens.len(),
{
    if tokens.len() > 0 {
        let before = tokens.drop_last();
        lemma_params_of_param_list(before);
        if is_param_list(tokens) {
            assert forall|i: int| 0 <= i < before.len() implies if i % 2 == 0 {
                (#[trigger] before[i]) is Ident
            } else {
                is_comma(before[i])
            } by {
                assert(before[i] == tokens[i]);
            }
            assert(tokens[tokens.len() - 1] == tokens.last());
        }
        if is_param_list(before) && params_of(tokens) is Ok {
            assert forall|i: int| 0 <= i < tokens.len() implies if i % 2 == 0 {
                (#[trigger] tokens[i]) is Ident
            } else {
                is_comma(tokens[i])
            } by {
                if i < before.len() {
                    assert(before[i] == tokens[i]);
                }
            }
        }
        if params_of(tokens) is Ok {
            let params = params_of(tokens)->Ok_0;
            let earlier = params_of(before)->Ok_0;
            assert forall|j: int| 0 <= j < params.len() implies tokens[2 * j] == Token::Ident(
                #[trigger] params[j],
            ) by {
                if j < earlier.len() {
                    assert(before[2 * j] == tokens[2 * j]);
                    assert(params[j] == earlier[j]);
                }
            }
        }
    }
}

/// Whether the argument is one of the four that the vocabulary holds.
pub open spec fn is_valid_param(param: Seq<char>) -> bool {
    param == "get"@ || param == "get_copy"@ || param == "get_mut"@ || param == "set"@
}

/// The directive set after one more argument: `get` and `get_copy` fill the
/// same slot, so the later of them replaces the earlier; an argument outside
/// the vocabulary changes nothing.
pub open spec fn apply_param(data: AccessorsAttrData, param: Seq<char>) -> AccessorsAttrData {
    if param == "get"@ {
        AccessorsAttrData { get: Some(GetKind::Ref), ..data }
    } else if param == "get_copy"@ {
        AccessorsAttrData { get: Some(GetKind::Copy), ..data }
    } else if param == "get_mut"@ {
        AccessorsAttrData { get_mut: Some(()), ..data }
    } else if param == "set"@ {
        AccessorsAttrData { set: Some(()), ..data }
    } else {
        data
    }
}

/// The directive set that a list of arguments asks for, read from left to
/// right.
pub open spec fn params_data(params: Seq<String>) -> AccessorsAttrData
    decreases params.len(),
{
    if params.len() == 0 {
        AccessorsAttrData::empty()
    } else {
        apply_param(params_data(params.drop_last()), params.last()@)
    }
}

/// One message for each argument outside the vocabulary, in order.
pub open spec fn params_messages(params: Seq<String>) -> Seq<Seq<char>>
    decreases params.len(),
{
    if params.len() == 0 {
        Seq::empty()
    } else {
        let before = params_messages(params.drop_last());
        if is_valid_param(params.last()@) {
            before
        } else {
            before.push(invalid_arg_message(debug_text(params.last()@)))
        }
    }
}

/// What a list of arguments resolves to: its directive set where every
/// argument is in the vocabulary, else the messages for those that are not.
pub open spec fn params_outcome(params: Seq<String>) -> Result<AccessorsAttrData, Seq<Seq<char>>> {
    if params_messages(params).len() == 0 {
        Ok(params_data(params))
    } else {
        Err(params_messages(params))
    }
}

/// The directive sets merged from left to right, each over what came before.
pub open spec fn merged(sets: Seq<AccessorsAttrData>) -> AccessorsAttrData
    decreases sets.len(),
{
    if sets.len() == 0 {
        AccessorsAttrData::empty()
    } else {
        merged(sets.drop_last()).spec_merge(sets.last())
    }
}

/// What the content of an attribute resolves to. Only the list form between
/// parentheses under the path `accessors` is read; its arguments have to be
/// identifiers separated by commas.
pub open spec fn meta_outcome(meta: MetaItem) -> Result<AccessorsAttrData, Seq<Seq<char>>> {
    match meta {
        MetaItem::List(list) => if spec_is_accessors_path(list.path) && list.delimiter
            == Delimiter::Parenthesis {
            match params_of(list.nested@) {
                Ok(params) => params_outcome(params),
                Err(message) => Err(seq![message]),
            }
        } else {
            Err(seq![ACCESSORS_ATTR_DATA_ONLY_TAKE_ACCESSORS_ATTR@])
        },
        MetaItem::Path(_) => Err(seq![ACCESSORS_ATTR_DATA_ONLY_TAKE_ACCESSORS_ATTR@]),
        MetaItem::NameValue(_) => Err(seq![ACCESSORS_ATTR_DATA_ONLY_TAKE_ACCESSORS_ATTR@]),
    }
}

/// How a getter hands the field out.
#[derive(Debug, Clone, Copy, PartialEq, Eq, Structural)]
pub enum GetKind {
    /// By reference.
    Ref,
    /// By value; the field's type has to be `Copy`.
    Copy,
}

/// What was asked for one field: a getter of one kind at most, a mutable
/// getter, a setter. Each slot is independent of the others.
#[derive(Debug, Clone, Copy, PartialEq, Eq)]
pub struct AccessorsAttrData {
    pub get: Option<GetKind>,
    pub get_mut: Option<()>,
    pub set: Option<()>,
}

impl AccessorsAttrData {
    /// The directive set that asks for nothing.
    pub open spec fn empty() -> Self {
        AccessorsAttrData { get: None, get_mut: None, set: None }
    }

    /// Slot by slot, what `other` asks for, and what `self` asks for where
    /// `other` is silent.
    pub open spec fn spec_merge(self, other: Self) -> Self {
        AccessorsAttrData {
            get: if other.get is Some { other.get } else { self.get },
            get_mut: if other.get_mut is Some { other.get_mut } else { self.get_mut },
            set: if other.set is Some { other.set } else { self.set },
        }
    }

    /// The number of functions that this directive set asks for.
    pub open spec fn count(self) -> nat {
        (if self.get is Some { 1nat } else { 0nat })
            + (if self.get_mut is Some { 1nat } else { 0nat })
            + (if self.set is Some { 1nat } else { 0nat })
    }

    /// Reads a list of arguments from left to right. Every argument outside
    /// the vocabulary is reported, not the first alone, each at its place
    /// where `spans` holds it and at `otherwise` where not.
    pub fn from_params(
        params: &Vec<String>,
        spans: &Vec<proc_macro2::Span>,
        otherwise: proc_macro2::Span,
    ) -> (resolved: Result<Self, syn::Error>)
        ensures
            outcome(resolved) == params_outcome(params@),
    {
        let mut data = AccessorsAttrData { get: None, get_mut: None, set: None };
        let mut failed: Option<syn::Error> = None;
        let mut index: usize = 0;
        while index < params.len()
            invariant
                index <= params.len(),
                data == params_data(params@.take(index as int)),
                match failed {
                    None => params_messages(params@.take(index as int)).len() == 0,
                    Some(error) => messages(error) == params_messages(params@.take(index as int))
                        && messages(error).len() > 0,
                },
            decreases params.len() - index,
        {
            proof {
                let done = params@.take(index + 1);
                assert(done.drop_last() == params@.take(index as int));
                assert(done.last() == params@[index as int]);
            }
            let param = &params[index];
            if *param == String::from_str("get") {
                data.get = Some(GetKind::Ref);
            } else if *param == String::from_str("get_copy") {
                data.get = Some(GetKind::Copy);
            } else if *param == String::from_str("get_mut") {
                data.get_mut = Some(());
            } else if *param == String::from_str("set") {
                data.set = Some(());
            } else {
                let message = invalid_accessors_arg_error_message(param.as_str());
                let error = new_error(span_at(spans, index, otherwise), message.as_str());
                failed = match failed {
                    None => Some(error),
                    Some(mut earlier) => {
                        earlier.combine(error);
                        Some(earlier)
                    },
                };
            }
            index = index + 1;
        }
        assert(params@.take(params.len() as int) == params@);
        match failed {
            None => Ok(data),
            Some(error) => Err(error),
        }
    }

    /// Resolves the content of one attribute into a directive set.
    pub fn try_from(meta: MetaItem) -> (resolved: Result<Self, syn::Error>)
        ensures
            outcome(resolved) == meta_outcome(meta),
    {
        match meta {
            MetaItem::List(list) => {
                let parenthesized = match list.delimiter {
                    Delimiter::Parenthesis => true,
                    _ => false,
                };
                if is_accessors_path(&list.path) && parenthesized {
                    match parse_params(list.nested, &list.spans, list.path.span) {
                        Ok(read) => AccessorsAttrData::from_params(
                            &read.0,
                            &read.1,
                            list.path.span,
                        ),
                        Err(error) => Err(error),
                    }
                } else {
                    Err(new_error(list.path.span, ACCESSORS_ATTR_DATA_ONLY_TAKE_ACCESSORS_ATTR))
                }
            },
            MetaItem::Path(path) => Err(
                new_error(path.span, ACCESSORS_ATTR_DATA_ONLY_TAKE_ACCESSORS_ATTR),
            ),
            MetaItem::NameValue(path) => Err(
                new_error(path.span, ACCESSORS_ATTR_DATA_ONLY_TAKE_ACCESSORS_ATTR),
            ),
        }
    }

    /// Merges `other` over `self`: the later, or more specific, directive wins
    /// slot by slot.
    pub fn merge(&self, other: &Self) -> (merged: Self)
        ensures
            merged == self.spec_merge(*other),
    {
        AccessorsAttrData {
            get: match other.get {
                Some(kind) => Some(kind),
                None => self.get,
            },
            get_mut: match other.get_mut {
                Some(present) => Some(present),
                None => self.get_mut,
            },
            set: match other.set {
                Some(present) => Some(present),
                None => self.set,
            },
        }
    }
}

impl Default for AccessorsAttrData {
    fn default() -> (data: Self)
        ensures
            data == AccessorsAttrData::empty(),
    {
        AccessorsAttrData { get: None, get_mut: None, set: None }
    }
}

/// The content of an attribute that does not resolve gives a message.
pub proof fn lemma_meta_failure_has_message(meta: MetaItem)
    ensures
        meta_outcome(meta) is Err ==> meta_outcome(meta)->Err_0.len() > 0,
{
}

/// The empty directive set is the identity of merging, on either side.
pub proof fn lemma_merge_identity(data: AccessorsAttrData)
    ensures
        AccessorsAttrData::empty().spec_merge(data) == data,
        data.spec_merge(AccessorsAttrData::empty()) == data,
{
}

/// Merging is associative.
pub proof fn lemma_merge_associative(
    first: AccessorsAttrData,
    second: AccessorsAttrData,
    third: AccessorsAttrData,
)
    ensures
        first.spec_merge(second).spec_merge(third) == first.spec_merge(second.spec_merge(third)),
{
}

/// Merging is right-biased slot by slot: a slot that the later set fills is
/// its own in the result, whatever the earlier set and the other slots hold;
/// a slot that it leaves empty is the earlier set's.
pub proof fn lemma_merge_right_biased(earlier: AccessorsAttrData, later: AccessorsAttrData)
    ensures
        later.get is Some ==> earlier.spec_merge(later).get == later.get,
        later.get is None ==> earlier.spec_merge(later).get == earlier.get,
        later.get_mut is Some ==> earlier.spec_merge(later).get_mut == later.get_mut,
        later.get_mut is None ==> earlier.spec_merge(later).get_mut == earlier.get_mut,
        later.set is Some ==> earlier.spec_merge(later).set == later.set,
        later.set is None ==> earlier.spec_merge(later).set == earlier.set,
{
}

/// There are as many messages as there are arguments outside the vocabulary,
/// and the message of each of them is among them.
pub proof fn lemma_every_invalid_param_reported(params: Seq<String>)
    ensures
        params_messages(params).len() == params.filter(
            |param: String| !is_valid_param(param@),
        ).len(),
        forall|i: int|
            0 <= i < params.len() && !is_valid_param(#[trigger] params[i]@)
                ==> params_messages(params).contains(
                invalid_arg_message(debug_text(params[i]@)),
            ),
    decreases params.len(),
{
    reveal(Seq::filter);
    if params.len() > 0 {
        let before = params.drop_last();
        let reported = params_messages(params);
        lemma_every_invalid_param_reported(before);
        assert forall|i: int|
            0 <= i < params.len() && !is_valid_param(#[trigger] params[i]@) implies reported.contains(
            invalid_arg_message(debug_text(params[i]@)),
        ) by {
            if i < before.len() {
                assert(before[i] == params[i]);
                let found = params_messages(before).index_of(
                    invalid_arg_message(debug_text(params[i]@)),
                );
                assert(reported[found] == params_messages(before)[found]);
            } else {
                assert(reported.last() == invalid_arg_message(debug_text(params[i]@)));
            }
        }
    }
}

/// A list of arguments resolves exactly when each of them is in the
/// vocabulary.
pub proof fn lemma_params_resolve_iff_valid(params: Seq<String>)
    ensures
        params_outcome(params) is Ok <==> forall|i: int|
            0 <= i < params.len() ==> is_valid_param(#[trigger] params[i]@),
    decreases params.len(),
{
    if params.len() > 0 {
        let before = params.drop_last();
        lemma_params_resolve_iff_valid(before);
        if params_outcome(params) is Ok {
            assert forall|i: int| 0 <= i < params.len() implies is_valid_param(
                #[trigger] params[i]@,
            ) by {
                if i < before.len() {
                    assert(before[i] == params[i]);
                }
            }
        }
        if forall|i: int| 0 <= i < params.len() ==> is_valid_param(#[trigger] params[i]@) {
            assert forall|i: int| 0 <= i < before.len() implies is_valid_param(
                #[trigger] before[i]@,
            ) by {
                assert(before[i] == params[i]);
            }
            assert(is_valid_param(params[params.len() - 1]@));
        }
    }
}

/// What a list of arguments from the vocabulary resolves to is the same
/// after it is merged over the empty default.
pub proof fn lemma_resolve_then_merge_over_empty(params: Seq<String>)
    requires
        forall|i: int| 0 <= i < params.len() ==> is_valid_param(#[trigger] params[i]@),
    ensures
        params_outcome(params) == Ok::<AccessorsAttrData, Seq<Seq<char>>>(params_data(params)),
        AccessorsAttrData::empty().spec_merge(params_data(params)) == params_data(params),
{
    lemma_params_resolve_iff_valid(params);
}

} // verus!
