//! Accessor synthesis for records: the part of a derive macro that decides
//! which accessor functions a field gets and writes them out.
//!
//! Directives of the form `#[accessors(get, get_copy, get_mut, set)]` on a
//! record set the default for its fields; on a field they override the
//! default slot by slot. [`expand`] resolves the directives of a
//! [`syntax::Declaration`] into one [`accessors_attr::AccessorsAttrData`] per
//! field and writes the functions that it asks for into one implementation
//! block. [`accessors_derive`] does so from tokens to tokens: [`reader`] reads
//! the declaration off the tree that `syn` builds.

pub mod accessors_attr;
pub mod error;
pub mod reader;
pub mod syntax;

use crate::accessors_attr::{
    is_accessors_path, lemma_merge_identity, lemma_meta_failure_has_message, merged, meta_outcome,
    spec_is_accessors_path, AccessorsAttrData, GetKind,
};
use crate::error::{
    combine_syn_errors, gathered, has_message, lemma_failures_have_messages, messages,
    new_error, outcome, outcomes, ACCESSORS_ON_ENUM_ERROR_MESSAGE,
    ACCESSORS_ON_UNION_ERROR_MESSAGE,
};
use crate::reader::{
    diagnostic_text, error_tokens, lexed, parse_tokens, parsed_tree, read_declaration, reads,
    reads_declaration, token_text,
};
use crate::syntax::{Attr, Data, Declaration, FieldDef, Generics, MetaItem};
use vstd::prelude::*;

verus! {

/// The getter of a field: named after the field, it takes `&self` and hands
/// the field out by reference or by value.
pub open spec fn getter_text(ident: Seq<char>, ty: Seq<char>, kind: GetKind) -> Seq<char> {
    match kind {
        GetKind::Ref => "pub fn "@ + ident + "(&self) -> & "@ + ty + " { &self."@ + ident + " } "@,
        GetKind::Copy => "pub fn "@ + ident + "(&self) -> "@ + ty + " { self."@ + ident + " } "@,
    }
}

/// The name of a field as it enters a longer name: a raw identifier without
/// its prefix `r#`, any other as it is.
pub open spec fn unraw(ident: Seq<char>) -> Seq<char> {
    if ident.len() >= 2 && ident[0] == 'r' && ident[1] == '#' {
        ident.skip(2)
    } else {
        ident
    }
}

/// The mutable getter of a field: `<field>_mut` takes `&mut self` and hands
/// the field out by mutable reference.
pub open spec fn mutable_getter_text(ident: Seq<char>, ty: Seq<char>) -> Seq<char> {
    "pub fn "@ + unraw(ident) + "_mut(&mut self) -> &mut "@ + ty + " { &mut self."@ + ident
        + " } "@
}

/// The setter of a field: `set_<field>` takes `&mut self` and a value named
/// after the field, and assigns it.
pub open spec fn setter_text(ident: Seq<char>, ty: Seq<char>) -> Seq<char> {
    "pub fn set_"@ + unraw(ident) + "(&mut self, "@ + ident + ": "@ + ty + ") { self."@ + ident
        + " = "@ + ident + "; } "@
}

/// The functions that a directive set asks for on one field, in the order
/// getter, mutable getter, setter. A slot that is absent gives no function.
pub open spec fn accessor_functions(
    ident: Seq<char>,
    ty: Seq<char>,
    data: AccessorsAttrData,
) -> Seq<Seq<char>> {
    let none = Seq::<Seq<char>>::empty();
    let read = match data.get {
        Some(kind) => none.push(getter_text(ident, ty, kind)),
        None => none,
    };
    let read_mut = match data.get_mut {
        Some(_) => read.push(mutable_getter_text(ident, ty)),
        None => read,
    };
    match data.set {
        Some(_) => read_mut.push(setter_text(ident, ty)),
        None => read_mut,
    }
}

/// The texts one after the other.
pub open spec fn concat(texts: Seq<Seq<char>>) -> Seq<char>
    decreases texts.len(),
{
    if texts.len() == 0 {
        Seq::empty()
    } else {
        concat(texts.drop_last()) + texts.last()
    }
}

/// The implementation block of a record around the functions given: for the
/// record's name, with each part of its generics in its place, as written.
pub open spec fn impl_text(ident: Seq<char>, generics: Generics, functions: Seq<char>) -> Seq<
    char,
> {
    "impl"@ + generics.impl_generics@ + " "@ + ident + generics.ty_generics@ + " "@
        + generics.where_clause@ + " { "@ + functions + "}"@
}

/// The contents of the attributes that are marked `accessors`, in order.
/// Attributes under another path are passed over.
pub open spec fn accessors_metas(attrs: Seq<Attr>) -> Seq<MetaItem>
    decreases attrs.len(),
{
    if attrs.len() == 0 {
        Seq::empty()
    } else {
        let before = accessors_metas(attrs.drop_last());
        if spec_is_accessors_path(attrs.last().path) {
            before.push(attrs.last().meta)
        } else {
            before
        }
    }
}

/// What each attribute resolves to: its directive set, or the messages that
/// say why it has none.
pub open spec fn metas_outcomes(metas: Seq<MetaItem>) -> Seq<
    Result<AccessorsAttrData, Seq<Seq<char>>>,
> {
    Seq::new(metas.len(), |i: int| meta_outcome(metas[i]))
}

/// What the attributes of one declaration resolve to. Where each resolves,
/// the directive sets merged in order, a later one over the earlier ones.
/// Else the messages of all that do not, in order.
pub open spec fn metas_outcome(metas: Seq<MetaItem>) -> Result<
    AccessorsAttrData,
    Seq<Seq<char>>,
> {
    match gathered(metas_outcomes(metas)) {
        Ok(sets) => Ok(merged(sets)),
        Err(messages) => Err(messages),
    }
}

/// What the attributes on a record or on a field resolve to.
pub open spec fn attrs_outcome(attrs: Seq<Attr>) -> Result<AccessorsAttrData, Seq<Seq<char>>> {
    metas_outcome(accessors_metas(attrs))
}

/// The fields of a record; for another shape, the message that names it.
pub open spec fn struct_fields(data: Data) -> Result<Seq<FieldDef>, Seq<Seq<char>>> {
    match data {
        Data::Struct(fields) => Ok(fields@),
        Data::Enum => Err(seq![ACCESSORS_ON_ENUM_ERROR_MESSAGE@]),
        Data::Union => Err(seq![ACCESSORS_ON_UNION_ERROR_MESSAGE@]),
    }
}

/// The functions of one field under the record's default: those that its own
/// directives, merged over the default, ask for. A field without a name gets
/// none, but its attributes are resolved all the same.
pub open spec fn field_outcome(field: FieldDef, default: AccessorsAttrData) -> Result<
    Seq<char>,
    Seq<Seq<char>>,
> {
    match attrs_outcome(field.attrs@) {
        Ok(own) => match field.ident {
            Some(ident) => Ok(
                concat(accessor_functions(ident@, field.ty@, default.spec_merge(own))),
            ),
            None => Ok(Seq::empty()),
        },
        Err(messages) => Err(messages),
    }
}

/// The functions of all fields in declaration order; the messages of the
/// first field that does not resolve, where there is one.
pub open spec fn fields_outcome(fields: Seq<FieldDef>, default: AccessorsAttrData) -> Result<
    Seq<char>,
    Seq<Seq<char>>,
>
    decreases fields.len(),
{
    if fields.len() == 0 {
        Ok(Seq::empty())
    } else {
        match fields_outcome(fields.drop_last(), default) {
            Ok(before) => match field_outcome(fields.last(), default) {
                Ok(functions) => Ok(before + functions),
                Err(messages) => Err(messages),
            },
            Err(messages) => Err(messages),
        }
    }
}

/// What a declaration expands to. The shape is looked at first, then the
/// attributes of the record, which give the default, then the fields.
pub open spec fn expansion(input: Declaration) -> Result<Seq<char>, Seq<Seq<char>>> {
    match struct_fields(input.data) {
        Ok(fields) => match attrs_outcome(input.attrs@) {
            Ok(default) => match fields_outcome(fields, default) {
                Ok(functions) => Ok(impl_text(input.ident@, input.generics, functions)),
                Err(messages) => Err(messages),
            },
            Err(messages) => Err(messages),
        },
        Err(messages) => Err(messages),
    }
}

/// A text as contracts speak of it, or the messages of the diagnostic.
pub open spec fn text_outcome(result: Result<String, syn::Error>) -> Result<
    Seq<char>,
    Seq<Seq<char>>,
> {
    match result {
        Ok(text) => Ok(text@),
        Err(error) => Err(messages(error)),
    }
}

/// A text more at the end comes last in the whole.
pub proof fn lemma_concat_push(texts: Seq<Seq<char>>, text: Seq<char>)
    ensures
        concat(texts.push(text)) == concat(texts) + text,
{
    assert(texts.push(text).drop_last() == texts);
}

/// Writes the getter of a field.
pub fn getter_function(field_ident: &str, field_type: &str, kind: GetKind) -> (text: String)
    ensures
        text@ == getter_text(field_ident@, field_type@, kind),
{
    let mut text = String::from_str("pub fn ");
    text.append(field_ident);
    match kind {
        GetKind::Ref => {
            text.append("(&self) -> & ");
            text.append(field_type);
            text.append(" { &self.");
        },
        GetKind::Copy => {
            text.append("(&self) -> ");
            text.append(field_type);
            text.append(" { self.");
        },
    }
    text.append(field_ident);
    text.append(" } ");
    text
}

/// The name of a field as it enters a longer name: a raw identifier without
/// its prefix `r#`, any other as it is.
pub fn unraw_ident(field_ident: &str) -> (name: String)
    ensures
        name@ == unraw(field_ident@),
{
    let length = field_ident.unicode_len();
    if length >= 2 && field_ident.get_char(0) == 'r' && field_ident.get_char(1) == '#' {
        let name = String::from_str(field_ident.substring_char(2, length));
        assert(field_ident@.subrange(2, length as int) == field_ident@.skip(2));
        name
    } else {
        String::from_str(field_ident)
    }
}

/// Writes the mutable getter of a field.
pub fn mutable_getter_function(field_ident: &str, field_type: &str) -> (text: String)
    ensures
        text@ == mutable_getter_text(field_ident@, field_type@),
{
    let mut text = String::from_str("pub fn ");
    text.append(unraw_ident(field_ident).as_str());
    text.append("_mut(&mut self) -> &mut ");
    text.append(field_type);
    text.append(" { &mut self.");
    text.append(field_ident);
    text.append(" } ");
    text
}

/// Writes the setter of a field.
pub fn setter_function(field_ident: &str, field_type: &str) -> (text: String)
    ensures
        text@ == setter_text(field_ident@, field_type@),
{
    let mut text = String::from_str("pub fn set_");
    text.append(unraw_ident(field_ident).as_str());
    text.append("(&mut self, ");
    text.append(field_ident);
    text.append(": ");
    text.append(field_type);
    text.append(") { self.");
    text.append(field_ident);
    text.append(" = ");
    text.append(field_ident);
    text.append("; } ");
    text
}

/// Writes the functions that a directive set asks for on one field, one after
/// the other: as many as it has slots present, and nothing where it has none.
pub fn get_accessors_func_for_field_token_stream(
    field_ident: &str,
    field_type: &str,
    accessors_attr_data: AccessorsAttrData,
) -> (text: String)
    ensures
        text@ == concat(accessor_functions(field_ident@, field_type@, accessors_attr_data)),
        accessor_functions(field_ident@, field_type@, accessors_attr_data).len()
            == accessors_attr_data.count(),
{
    let mut text = String::new();
    let ghost mut written = Seq::<Seq<char>>::empty();
    assert(text@ == concat(written));
    if let Some(kind) = accessors_attr_data.get {
        let get_fn = getter_function(field_ident, field_type, kind);
        text.append(get_fn.as_str());
        proof {
            lemma_concat_push(written, get_fn@);
            written = written.push(get_fn@);
        }
        assert(text@ == concat(written));
    }
    if let Some(_) = accessors_attr_data.get_mut {
        let get_mut_fn = mutable_getter_function(field_ident, field_type);
        text.append(get_mut_fn.as_str());
        proof {
            lemma_concat_push(written, get_mut_fn@);
            written = written.push(get_mut_fn@);
        }
        assert(text@ == concat(written));
    }
    if let Some(_) = accessors_attr_data.set {
        let set_fn = setter_function(field_ident, field_type);
        text.append(set_fn.as_str());
        proof {
            lemma_concat_push(written, set_fn@);
            written = written.push(set_fn@);
        }
        assert(text@ == concat(written));
    }
    text
}

/// Writes the implementation block of a record around the functions given.
/// The generics are repeated as they stand: nothing of them is read or
/// changed.
pub fn get_impl_token_stream(
    struct_ident: &str,
    generics: &Generics,
    accessors_fn_token_stream: &str,
) -> (text: String)
    ensures
        text@ == impl_text(struct_ident@, *generics, accessors_fn_token_stream@),
{
    let mut text = String::from_str("impl");
    text.append(generics.impl_generics.as_str());
    text.append(" ");
    text.append(struct_ident);
    text.append(generics.ty_generics.as_str());
    text.append(" ");
    text.append(generics.where_clause.as_str());
    text.append(" { ");
    text.append(accessors_fn_token_stream);
    text.append("}");
    text
}

/// Picks the attributes that are marked `accessors` and hands out the
/// content of each, in order. No other attribute is looked into.
pub fn parse_meta_vec_for_accessors_attrs(struct_attrs: Vec<Attr>) -> (metas: Vec<MetaItem>)
    ensures
        metas@ == accessors_metas(struct_attrs@),
{
    let mut metas: Vec<MetaItem> = Vec::new();
    for attr in iter: struct_attrs
        invariant
            iter.seq() == struct_attrs@,
            metas@ == accessors_metas(struct_attrs@.take(iter.index() as int)),
    {
        proof {
            let done = struct_attrs@.take(iter.index() + 1);
            assert(done.drop_last() == struct_attrs@.take(iter.index() as int));
            assert(done.last() == attr);
        }
        if is_accessors_path(&attr.path) {
            metas.push(attr.meta);
        }
    }
    assert(struct_attrs@.take(struct_attrs@.len() as int) == struct_attrs@);
    metas
}

/// Resolves the attributes of one declaration into one directive set. Every
/// attribute is resolved, so that the diagnostic names all that is wrong with
/// any of them.
pub fn reduce_meta_iter_to_accessors_attr_data(meta_iter: Vec<MetaItem>) -> (resolved: Result<
    AccessorsAttrData,
    syn::Error,
>)
    ensures
        outcome(resolved) == metas_outcome(meta_iter@),
{
    let mut results: Vec<Result<AccessorsAttrData, syn::Error>> = Vec::new();
    for meta in iter: meta_iter
        invariant
            iter.seq() == meta_iter@,
            results@.len() == iter.index(),
            outcomes(results@) == metas_outcomes(meta_iter@.take(iter.index() as int)),
    {
        let ghost before = results@;
        results.push(AccessorsAttrData::try_from(meta));
        proof {
            let done = meta_iter@.take(iter.index() + 1);
            assert forall|j: int| 0 <= j < done.len() implies outcomes(results@)[j]
                == metas_outcomes(done)[j] by {
                if j < iter.index() {
                    assert(outcomes(before)[j] == metas_outcomes(
                        meta_iter@.take(iter.index() as int),
                    )[j]);
                }
            }
            assert(outcomes(results@) =~= metas_outcomes(done));
        }
    }
    assert(meta_iter@.take(meta_iter@.len() as int) == meta_iter@);
    match combine_syn_errors(results) {
        Ok(sets) => {
            let mut data = AccessorsAttrData::default();
            let mut index: usize = 0;
            while index < sets.len()
                invariant
                    index <= sets.len(),
                    data == merged(sets@.take(index as int)),
                decreases sets.len() - index,
            {
                assert(sets@.take(index + 1).drop_last() == sets@.take(index as int));
                data = data.merge(&sets[index]);
                index = index + 1;
            }
            assert(sets@.take(sets.len() as int) == sets@);
            Ok(data)
        },
        Err(error) => Err(error),
    }
}

/// The fields of a record. Nothing is derived for an enum or for a union:
/// the diagnostic points at the place given.
pub fn get_struct_fields(data: Data, span: proc_macro2::Span) -> (fields: Result<
    Vec<FieldDef>,
    syn::Error,
>)
    ensures
        match fields {
            Ok(fields) => struct_fields(data) == Ok::<Seq<FieldDef>, Seq<Seq<char>>>(fields@),
            Err(error) => struct_fields(data) == Err::<Seq<FieldDef>, Seq<Seq<char>>>(
                messages(error),
            ),
        },
{
    match data {
        Data::Struct(fields) => Ok(fields),
        Data::Enum => Err(new_error(span, ACCESSORS_ON_ENUM_ERROR_MESSAGE)),
        Data::Union => Err(new_error(span, ACCESSORS_ON_UNION_ERROR_MESSAGE)),
    }
}

/// Expands a declaration: the implementation block with the accessors of
/// its fields, or one diagnostic and no text at all.
pub fn expand(input: Declaration) -> (expanded: Result<String, syn::Error>)
    ensures
        text_outcome(expanded) == expansion(input),
{
    let Declaration { attrs, ident, generics, data, span } = input;
    let fields = match get_struct_fields(data, span) {
        Ok(fields) => fields,
        Err(error) => {
            return Err(error);
        },
    };
    let default_metas = parse_meta_vec_for_accessors_attrs(attrs);
    let default_accessors_attr_data = match reduce_meta_iter_to_accessors_attr_data(
        default_metas,
    ) {
        Ok(data) => data,
        Err(error) => {
            return Err(error);
        },
    };
    let mut accessors_fn_text = String::new();
    for field in iter: fields
        invariant
            iter.seq() == fields@,
            struct_fields(input.data) == Ok::<Seq<FieldDef>, Seq<Seq<char>>>(fields@),
            attrs_outcome(input.attrs@) == Ok::<AccessorsAttrData, Seq<Seq<char>>>(
                default_accessors_attr_data,
            ),
            fields_outcome(fields@.take(iter.index() as int), default_accessors_attr_data) == Ok::<
                Seq<char>,
                Seq<Seq<char>>,
            >(accessors_fn_text@),
    {
        proof {
            let done = fields@.take(iter.index() + 1);
            assert(done.drop_last() == fields@.take(iter.index() as int));
            assert(done.last() == field);
        }
        let FieldDef { attrs: field_attrs, ident: field_ident, ty: field_type } = field;
        let metas = parse_meta_vec_for_accessors_attrs(field_attrs);
        let accessors_attr_data = match reduce_meta_iter_to_accessors_attr_data(metas) {
            Ok(data) => data,
            Err(error) => {
                proof {
                    assert(attrs_outcome(field_attrs@) == Err::<
                        AccessorsAttrData,
                        Seq<Seq<char>>,
                    >(messages(error)));
                    assert(fields_outcome(
                        fields@.take(iter.index() + 1),
                        default_accessors_attr_data,
                    ) == Err::<Seq<char>, Seq<Seq<char>>>(messages(error)));
                    lemma_fields_outcome_stays_err(
                        fields@,
                        default_accessors_attr_data,
                        iter.index() + 1,
                    );
                }
                return Err(error);
            },
        };
        if let Some(field_ident) = field_ident {
            let functions = get_accessors_func_for_field_token_stream(
                field_ident.as_str(),
                field_type.as_str(),
                default_accessors_attr_data.merge(&accessors_attr_data),
            );
            accessors_fn_text.append(functions.as_str());
        }
    }
    assert(fields@.take(fields@.len() as int) == fields@);
    Ok(get_impl_token_stream(ident.as_str(), &generics, accessors_fn_text.as_str()))
}

/// The tokens as contracts speak of them, by their text, or the messages of
/// the diagnostic.
pub open spec fn tokens_outcome(output: Result<proc_macro2::TokenStream, syn::Error>) -> Result<
    Seq<char>,
    Seq<Seq<char>>,
> {
    match output {
        Ok(tokens) => Ok(token_text(tokens)),
        Err(error) => Err(messages(error)),
    }
}

/// What becomes of an expansion as tokens: the text goes through the lexer,
/// a failure stays as it is.
pub open spec fn derived(expanded: Result<Seq<char>, Seq<Seq<char>>>) -> Result<
    Seq<char>,
    Seq<Seq<char>>,
> {
    match expanded {
        Ok(text) => lexed(text),
        Err(failed) => Err(failed),
    }
}

/// Whether an outcome is that of the derive on the tokens given: the
/// diagnostic of the parser where the tokens are no declaration, and else
/// what the expansion of the declaration that they hold gives as tokens.
pub open spec fn derives(
    input: proc_macro2::TokenStream,
    outcome: Result<Seq<char>, Seq<Seq<char>>>,
) -> bool {
    match parsed_tree(input) {
        Ok(tree) => exists|read: Declaration| #[trigger]
            reads_declaration(tree, read) && outcome == derived(expansion(read)),
        Err(failed) => outcome == Err::<Seq<char>, Seq<Seq<char>>>(failed),
    }
}

/// The text of what a derive hands back for an outcome: the tokens, or in
/// place of them the diagnostic as tokens.
pub open spec fn output_text(outcome: Result<Seq<char>, Seq<Seq<char>>>) -> Seq<char> {
    match outcome {
        Ok(text) => text,
        Err(failed) => diagnostic_text(failed),
    }
}

/// Expands a declaration into tokens: the tokens that the lexer reads in the
/// text of the expansion, or the diagnostic of the expansion and no tokens.
pub fn expand_to_tokens(input: Declaration) -> (output: Result<
    proc_macro2::TokenStream,
    syn::Error,
>)
    ensures
        tokens_outcome(output) == derived(expansion(input)),
        output is Err ==> has_message(output->Err_0),
{
    proof {
        lemma_failure_has_message(input);
    }
    match expand(input) {
        Ok(text) => parse_tokens(text.as_str()),
        Err(error) => Err(error),
    }
}

/// Derives the accessors of a declaration given as tokens: parses the
/// tokens, reads the declaration off the tree and expands it. A failure is
/// never silent: the diagnostic carries at least one message.
pub fn accessors_derive_inner(input: proc_macro2::TokenStream) -> (output: Result<
    proc_macro2::TokenStream,
    syn::Error,
>)
    ensures
        derives(input, tokens_outcome(output)),
        output is Err ==> has_message(output->Err_0),
{
    match read_declaration(input) {
        Ok(declaration) => {
            let ghost read = declaration;
            let output = expand_to_tokens(declaration);
            assert(reads_declaration(parsed_tree(input)->Ok_0, read) && tokens_outcome(output)
                == derived(expansion(read)));
            output
        },
        Err(error) => Err(error),
    }
}

/// What a derive hands back for an outcome: the tokens as they are, or in
/// place of them the diagnostic as tokens that make the compiler report it.
pub fn into_tokens(derived: Result<proc_macro2::TokenStream, syn::Error>) -> (output:
    proc_macro2::TokenStream)
    ensures
        derived is Ok ==> output == derived->Ok_0,
        token_text(output) == output_text(tokens_outcome(derived)),
{
    match derived {
        Ok(tokens) => tokens,
        Err(error) => error_tokens(error),
    }
}

/// The derive itself: the accessors of the declaration, or the diagnostic as
/// tokens that make the compiler report it.
pub fn accessors_derive(input: proc_macro2::TokenStream) -> (output: proc_macro2::TokenStream)
    ensures
        exists|outcome: Result<Seq<char>, Seq<Seq<char>>>| #[trigger]
            derives(input, outcome) && token_text(output) == output_text(outcome),
{
    let derived = accessors_derive_inner(input);
    let ghost outcome = tokens_outcome(derived);
    let output = into_tokens(derived);
    assert(derives(input, outcome) && token_text(output) == output_text(outcome));
    output
}

/// A directive set gives one function for each slot that is present; the
/// empty directive set gives none, and no text.
pub proof fn lemma_one_function_per_slot(ident: Seq<char>, ty: Seq<char>, data: AccessorsAttrData)
    ensures
        accessor_functions(ident, ty, data).len() == data.count(),
        data == AccessorsAttrData::empty() ==> concat(accessor_functions(ident, ty, data))
            == Seq::<char>::empty(),
{
}

/// Attributes of which none is marked `accessors` resolve to the empty
/// directive set.
pub proof fn lemma_unmarked_attrs_resolve_to_empty(attrs: Seq<Attr>)
    requires
        forall|i: int| 0 <= i < attrs.len() ==> !spec_is_accessors_path(#[trigger] attrs[i].path),
    ensures
        accessors_metas(attrs) == Seq::<MetaItem>::empty(),
        attrs_outcome(attrs) == Ok::<AccessorsAttrData, Seq<Seq<char>>>(
            AccessorsAttrData::empty(),
        ),
    decreases attrs.len(),
{
    if attrs.len() > 0 {
        let before = attrs.drop_last();
        assert forall|i: int| 0 <= i < before.len() implies !spec_is_accessors_path(
            #[trigger] before[i].path,
        ) by {
            assert(before[i] == attrs[i]);
        }
        lemma_unmarked_attrs_resolve_to_empty(before);
        assert(!spec_is_accessors_path(attrs[attrs.len() - 1].path));
    }
    let none = Seq::<MetaItem>::empty();
    assert(metas_outcomes(none) =~= Seq::<Result<AccessorsAttrData, Seq<Seq<char>>>>::empty());
}

/// A named field without a directive of its own gets the functions of the
/// record's default, and no function at all where the record has no default
/// either.
pub proof fn lemma_field_without_directive(field: FieldDef, default: AccessorsAttrData)
    requires
        field.ident is Some,
        forall|i: int|
            0 <= i < field.attrs@.len() ==> !spec_is_accessors_path(
                #[trigger] field.attrs@[i].path,
            ),
    ensures
        field_outcome(field, default) == Ok::<Seq<char>, Seq<Seq<char>>>(
            concat(accessor_functions(field.ident->Some_0@, field.ty@, default)),
        ),
        default == AccessorsAttrData::empty() ==> field_outcome(field, default) == Ok::<
            Seq<char>,
            Seq<Seq<char>>,
        >(Seq::empty()),
{
    lemma_unmarked_attrs_resolve_to_empty(field.attrs@);
    assert(default.spec_merge(AccessorsAttrData::empty()) == default);
}

/// Under an empty default a field gets what its own directives ask for:
/// merging them over the empty directive set changes nothing.
pub proof fn lemma_field_under_empty_default(field: FieldDef)
    requires
        field.ident is Some,
    ensures
        field_outcome(field, AccessorsAttrData::empty()) == match attrs_outcome(field.attrs@) {
            Ok(own) => Ok::<Seq<char>, Seq<Seq<char>>>(
                concat(accessor_functions(field.ident->Some_0@, field.ty@, own)),
            ),
            Err(messages) => Err(messages),
        },
{
    if attrs_outcome(field.attrs@) is Ok {
        lemma_merge_identity(attrs_outcome(field.attrs@)->Ok_0);
    }
}

/// Only a record expands: an enum and a union give the message that names
/// their shape, whatever else they hold, and no text.
pub proof fn lemma_only_records_expand(input: Declaration)
    ensures
        input.data is Enum ==> expansion(input) == Err::<Seq<char>, Seq<Seq<char>>>(
            seq![ACCESSORS_ON_ENUM_ERROR_MESSAGE@],
        ),
        input.data is Union ==> expansion(input) == Err::<Seq<char>, Seq<Seq<char>>>(
            seq![ACCESSORS_ON_UNION_ERROR_MESSAGE@],
        ),
        expansion(input) is Ok ==> input.data is Struct,
{
}

/// The implementation block holds each part of the generics unchanged and
/// in its place: the parameters with their bounds right behind `impl`, the
/// parameters alone right behind the record's name, the `where` clause
/// behind them and before the opening brace.
pub proof fn lemma_impl_text_keeps_generics(
    ident: Seq<char>,
    generics: Generics,
    functions: Seq<char>,
)
    ensures
        ({
            let text = impl_text(ident, generics, functions);
            let after_impl: int = 4int + generics.impl_generics@.len();
            let after_ident: int = after_impl + 1 + ident.len();
            let after_ty: int = after_ident + generics.ty_generics@.len();
            let after_where: int = after_ty + 1 + generics.where_clause@.len();
            let after_brace: int = after_where + 3;
            &&& text.len() == after_brace + functions.len() + 1
            &&& text.subrange(0, 4) == "impl"@
            &&& text.subrange(4, after_impl) == generics.impl_generics@
            &&& text.subrange(after_impl + 1, after_ident) == ident
            &&& text.subrange(after_ident, after_ty) == generics.ty_generics@
            &&& text.subrange(after_ty + 1, after_where) == generics.where_clause@
            &&& text.subrange(after_where, after_brace) == " { "@
            &&& text.subrange(after_brace, after_brace + functions.len()) == functions
        }),
{
    reveal_strlit("impl");
    reveal_strlit(" ");
    reveal_strlit(" { ");
    reveal_strlit("}");
    let text = impl_text(ident, generics, functions);
    let after_impl: int = 4int + generics.impl_generics@.len();
    let after_ident: int = after_impl + 1 + ident.len();
    let after_ty: int = after_ident + generics.ty_generics@.len();
    let after_where: int = after_ty + 1 + generics.where_clause@.len();
    let after_brace: int = after_where + 3;
    assert(text.subrange(0, 4) =~= "impl"@);
    assert(text.subrange(4, after_impl) =~= generics.impl_generics@);
    assert(text.subrange(after_impl + 1, after_ident) =~= ident);
    assert(text.subrange(after_ident, after_ty) =~= generics.ty_generics@);
    assert(text.subrange(after_ty + 1, after_where) =~= generics.where_clause@);
    assert(text.subrange(after_where, after_brace) =~= " { "@);
    assert(text.subrange(after_brace, after_brace + functions.len()) =~= functions);
}

/// Attributes that do not resolve give a message.
pub proof fn lemma_attrs_failure_has_message(attrs: Seq<Attr>)
    ensures
        attrs_outcome(attrs) is Err ==> attrs_outcome(attrs)->Err_0.len() > 0,
{
    let metas = accessors_metas(attrs);
    let results = metas_outcomes(metas);
    if attrs_outcome(attrs) is Err {
        assert forall|i: int| 0 <= i < results.len() && (#[trigger] results[i]) is Err implies
            results[i]->Err_0.len() > 0 by {
            lemma_meta_failure_has_message(metas[i]);
        }
        lemma_failures_have_messages(results);
    }
}

/// Fields that do not resolve give a message.
pub proof fn lemma_fields_failure_has_message(fields: Seq<FieldDef>, default: AccessorsAttrData)
    ensures
        fields_outcome(fields, default) is Err ==> fields_outcome(fields, default)->Err_0.len()
            > 0,
    decreases fields.len(),
{
    if fields.len() > 0 {
        lemma_fields_failure_has_message(fields.drop_last(), default);
        lemma_attrs_failure_has_message(fields.last().attrs@);
    }
}

/// A declaration that does not expand gives a message: the failure is never
/// silent.
pub proof fn lemma_failure_has_message(input: Declaration)
    ensures
        expansion(input) is Err ==> expansion(input)->Err_0.len() > 0,
{
    lemma_attrs_failure_has_message(input.attrs@);
    if input.data is Struct {
        let fields = input.data->Struct_0@;
        if attrs_outcome(input.attrs@) is Ok {
            lemma_fields_failure_has_message(fields, attrs_outcome(input.attrs@)->Ok_0);
        }
    }
}

/// Once a field has failed to resolve, the fields after it change nothing:
/// the outcome of the whole is the outcome of the fields up to that one.
pub proof fn lemma_fields_outcome_stays_err(
    fields: Seq<FieldDef>,
    default: AccessorsAttrData,
    upto: int,
)
    requires
        0 <= upto <= fields.len(),
        fields_outcome(fields.take(upto), default) is Err,
    ensures
        fields_outcome(fields, default) == fields_outcome(fields.take(upto), default),
    decreases fields.len(),
{
    if upto < fields.len() {
        assert(fields.drop_last().take(upto) == fields.take(upto));
        lemma_fields_outcome_stays_err(fields.drop_last(), default, upto);
    } else {
        assert(fields.take(upto) == fields);
    }
}

} // verus!
