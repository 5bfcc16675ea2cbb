//! Reads a declaration off the syntax tree that `syn` builds, and turns the
//! text that was written back into tokens.
//!
//! What `syn` and `proc_macro2` hold cannot be looked into from here. Each
//! thing that is read off them has a name, and the contracts say over these
//! names what was read: [`reads_declaration`] for a declaration, [`lexed`]
//! for the tokens of a text.

use crate::error::{has_message, messages};
use crate::syntax::{
    Attr, Data, Declaration, Delimiter, FieldDef, Generics, MetaItem, MetaList, Path, Token,
};
use quote::ToTokens;
use syn::spanned::Spanned;
use vstd::prelude::*;

verus! {

/// `proc_macro2::TokenStream`: tokens, as a macro gets and gives them.
#[verifier::external_type_specification]
#[verifier::external_body]
pub struct ExTokenStream(proc_macro2::TokenStream);

/// `proc_macro2::TokenTree`: one token, or a group of tokens between
/// delimiters.
#[verifier::external_type_specification]
#[verifier::external_body]
pub struct ExTokenTree(proc_macro2::TokenTree);

/// `syn::DeriveInput`: the syntax tree of a declaration.
#[verifier::external_type_specification]
#[verifier::external_body]
pub struct ExDeriveInput(syn::DeriveInput);

/// `syn::Field`: the syntax tree of a field.
#[verifier::external_type_specification]
#[verifier::external_body]
pub struct ExField(syn::Field);

/// `syn::Attribute`: the syntax tree of an attribute.
#[verifier::external_type_specification]
#[verifier::external_body]
pub struct ExAttribute(syn::Attribute);

/// The shape of a declaration.
#[derive(Debug, Clone, Copy, PartialEq, Eq, Structural)]
pub enum Shape {
    Struct,
    Enum,
    Union,
}

/// The form of the content of an attribute.
#[derive(Debug, Clone, Copy, PartialEq, Eq, Structural)]
pub enum Form {
    Path,
    List(Delimiter),
    NameValue,
}

/// The kind of a token.
#[derive(Debug, Clone, Copy, PartialEq, Eq, Structural)]
pub enum TokenKind {
    Ident,
    Punct,
    Literal,
    Group,
}

/// What `syn::parse2` makes of tokens as a declaration: the tree, or the
/// messages of the parser's diagnostic.
pub uninterp spec fn parsed_tree(input: proc_macro2::TokenStream) -> Result<
    syn::DeriveInput,
    Seq<Seq<char>>,
>;

/// The attributes on a declaration, in order.
pub uninterp spec fn attrs_in(tree: syn::DeriveInput) -> Seq<syn::Attribute>;

/// The name of a declaration.
pub uninterp spec fn ident_in(tree: syn::DeriveInput) -> Seq<char>;

/// The generics of a declaration as `split_for_impl` cuts them, each part
/// written out as its tokens: what follows `impl`, what follows the name,
/// and the `where` clause.
pub uninterp spec fn generics_in(tree: syn::DeriveInput) -> (Seq<char>, Seq<char>, Seq<char>);

/// The shape of a declaration and, for a record, its fields in order.
pub uninterp spec fn shape_in(tree: syn::DeriveInput) -> (Shape, Seq<syn::Field>);

/// The attributes on a field, in order.
pub uninterp spec fn field_attrs_in(field: syn::Field) -> Seq<syn::Attribute>;

/// The name of a field, if it has one.
pub uninterp spec fn field_ident_in(field: syn::Field) -> Option<Seq<char>>;

/// The type of a field, written out as its tokens.
pub uninterp spec fn field_type_in(field: syn::Field) -> Seq<char>;

/// The one identifier that the path of an attribute consists of, if it is a
/// single identifier.
pub uninterp spec fn path_ident_in(attr: syn::Attribute) -> Option<Seq<char>>;

/// The form of the content of an attribute.
pub uninterp spec fn form_in(attr: syn::Attribute) -> Form;

/// The tokens between the delimiters of an attribute of the list form, in
/// order; none for another form.
pub uninterp spec fn trees_in(attr: syn::Attribute) -> Seq<proc_macro2::TokenTree>;

/// The kind of a token.
pub uninterp spec fn kind_in(tree: proc_macro2::TokenTree) -> TokenKind;

/// The name of an identifier, as `to_string` writes it.
pub uninterp spec fn name_in(tree: proc_macro2::TokenTree) -> Seq<char>;

/// The character of a punctuation.
pub uninterp spec fn char_in(tree: proc_macro2::TokenTree) -> char;

/// Where a token stands.
pub uninterp spec fn span_in(tree: proc_macro2::TokenTree) -> proc_macro2::Span;

/// Where the path of an attribute stands.
pub uninterp spec fn path_span_in(attr: syn::Attribute) -> proc_macro2::Span;

/// Where the keyword of a declaration stands: `struct`, `enum` or `union`.
pub uninterp spec fn keyword_span_in(tree: syn::DeriveInput) -> proc_macro2::Span;

/// The text that `to_string` writes for tokens.
pub uninterp spec fn token_text(tokens: proc_macro2::TokenStream) -> Seq<char>;

/// What `syn::parse_str` makes of a text as tokens: the text of the tokens,
/// or the messages of the lexer's diagnostic.
pub uninterp spec fn lexed(text: Seq<char>) -> Result<Seq<char>, Seq<Seq<char>>>;

/// The text of the tokens that `syn::Error::into_compile_error` writes for
/// the messages of a diagnostic.
pub uninterp spec fn diagnostic_text(messages: Seq<Seq<char>>) -> Seq<char>;

/// `syn::parse2`: the tokens as a declaration, or the diagnostic of the
/// parser, which carries a message as every `syn::Error` does: each is built
/// with one message, and none is ever taken away.
#[verifier::external_body]
fn parse_derive_input(input: proc_macro2::TokenStream) -> (parsed: Result<
    syn::DeriveInput,
    syn::Error,
>)
    ensures
        match parsed {
            Ok(tree) => parsed_tree(input) == Ok::<syn::DeriveInput, Seq<Seq<char>>>(tree),
            Err(error) => parsed_tree(input) == Err::<syn::DeriveInput, Seq<Seq<char>>>(
                messages(error),
            ) && has_message(error),
        },
{
    syn::parse2(input)
}

/// The field `attrs` of a `syn::DeriveInput`, cloned.
#[verifier::external_body]
fn input_attrs(tree: &syn::DeriveInput) -> (attrs: Vec<syn::Attribute>)
    ensures
        attrs@ == attrs_in(*tree),
{
    tree.attrs.clone()
}

/// The field `ident` of a `syn::DeriveInput`, as `Ident`'s `to_string` writes
/// it.
#[verifier::external_body]
fn input_ident(tree: &syn::DeriveInput) -> (ident: String)
    ensures
        ident@ == ident_in(*tree),
{
    tree.ident.to_string()
}

/// `syn::Generics::split_for_impl` on the field `generics` of a
/// `syn::DeriveInput`, each of the three parts written out as its tokens.
#[verifier::external_body]
fn input_generics(tree: &syn::DeriveInput) -> (generics: Generics)
    ensures
        generics.impl_generics@ == generics_in(*tree).0,
        generics.ty_generics@ == generics_in(*tree).1,
        generics.where_clause@ == generics_in(*tree).2,
{
    let (impl_generics, ty_generics, where_clause) = tree.generics.split_for_impl();
    Generics {
        impl_generics: impl_generics.to_token_stream().to_string(),
        ty_generics: ty_generics.to_token_stream().to_string(),
        where_clause: where_clause.to_token_stream().to_string(),
    }
}

/// The variant of the field `data` of a `syn::DeriveInput`; for a record, the
/// fields that `syn::Fields::iter` walks, cloned.
#[verifier::external_body]
fn input_shape(tree: &syn::DeriveInput) -> (shape: (Shape, Vec<syn::Field>))
    ensures
        shape.0 == shape_in(*tree).0,
        shape.1@ == shape_in(*tree).1,
{
    match &tree.data {
        syn::Data::Struct(data) => (Shape::Struct, data.fields.iter().cloned().collect()),
        syn::Data::Enum(_) => (Shape::Enum, Vec::new()),
        syn::Data::Union(_) => (Shape::Union, Vec::new()),
    }
}

/// The field `attrs` of a `syn::Field`, cloned.
#[verifier::external_body]
fn field_attrs(field: &syn::Field) -> (attrs: Vec<syn::Attribute>)
    ensures
        attrs@ == field_attrs_in(*field),
{
    field.attrs.clone()
}

/// The field `ident` of a `syn::Field`, as `Ident`'s `to_string` writes it.
#[verifier::external_body]
fn field_ident(field: &syn::Field) -> (ident: Option<String>)
    ensures
        match ident {
            Some(name) => field_ident_in(*field) == Some(name@),
            None => field_ident_in(*field) is None,
        },
{
    field.ident.as_ref().map(|ident| ident.to_string())
}

/// The field `ty` of a `syn::Field`, written out as its tokens.
#[verifier::external_body]
fn field_type(field: &syn::Field) -> (ty: String)
    ensures
        ty@ == field_type_in(*field),
{
    field.ty.to_token_stream().to_string()
}

/// `syn::Path::get_ident` on the path that `syn::Attribute::path` gives, and
/// the span of that path as `Spanned::span` gives it.
#[verifier::external_body]
fn attribute_path(attr: &syn::Attribute) -> (path: Path)
    ensures
        match path.ident {
            Some(name) => path_ident_in(*attr) == Some(name@),
            None => path_ident_in(*attr) is None,
        },
        path.span == path_span_in(*attr),
{
    Path {
        ident: attr.path().get_ident().map(|ident| ident.to_string()),
        span: attr.path().span(),
    }
}

/// The span of the keyword in the field `data` of a `syn::DeriveInput`.
#[verifier::external_body]
fn input_span(tree: &syn::DeriveInput) -> (span: proc_macro2::Span)
    ensures
        span == keyword_span_in(*tree),
{
    match &tree.data {
        syn::Data::Struct(data) => data.struct_token.span,
        syn::Data::Enum(data) => data.enum_token.span,
        syn::Data::Union(data) => data.union_token.span,
    }
}

/// `proc_macro2::TokenTree::span`.
#[verifier::external_body]
fn token_span(tree: &proc_macro2::TokenTree) -> (span: proc_macro2::Span)
    ensures
        span == span_in(*tree),
{
    tree.span()
}

/// The variant of the field `meta` of a `syn::Attribute`, and for a list the
/// variant of its delimiter.
#[verifier::external_body]
fn attribute_form(attr: &syn::Attribute) -> (form: Form)
    ensures
        form == form_in(*attr),
{
    match &attr.meta {
        syn::Meta::Path(_) => Form::Path,
        syn::Meta::NameValue(_) => Form::NameValue,
        syn::Meta::List(list) => Form::List(
            match list.delimiter {
                syn::MacroDelimiter::Paren(_) => Delimiter::Parenthesis,
                syn::MacroDelimiter::Brace(_) => Delimiter::Brace,
                syn::MacroDelimiter::Bracket(_) => Delimiter::Bracket,
            },
        ),
    }
}

/// The field `tokens` of the `syn::MetaList` of an attribute, token by
/// token; nothing for an attribute of another form.
#[verifier::external_body]
fn attribute_trees(attr: &syn::Attribute) -> (trees: Vec<proc_macro2::TokenTree>)
    ensures
        trees@ == trees_in(*attr),
{
    match &attr.meta {
        syn::Meta::List(list) => list.tokens.clone().into_iter().collect(),
        _ => Vec::new(),
    }
}

/// The variant of a `proc_macro2::TokenTree`; of an identifier its name as
/// `to_string` writes it, of a punctuation what `as_char` gives.
#[verifier::external_body]
fn read_token(tree: &proc_macro2::TokenTree) -> (token: Token)
    ensures
        match token {
            Token::Ident(name) => kind_in(*tree) == TokenKind::Ident && name@ == name_in(*tree),
            Token::Punct(c) => kind_in(*tree) == TokenKind::Punct && c == char_in(*tree),
            Token::Literal => kind_in(*tree) == TokenKind::Literal,
            Token::Group => kind_in(*tree) == TokenKind::Group,
        },
{
    match tree {
        proc_macro2::TokenTree::Ident(ident) => Token::Ident(ident.to_string()),
        proc_macro2::TokenTree::Punct(punct) => Token::Punct(punct.as_char()),
        proc_macro2::TokenTree::Literal(_) => Token::Literal,
        proc_macro2::TokenTree::Group(_) => Token::Group,
    }
}

/// `syn::parse_str` for a `TokenStream`: the tokens that the text holds, or
/// the diagnostic of the lexer, which carries a message as every
/// `syn::Error` does.
#[verifier::external_body]
pub(crate) fn parse_tokens(text: &str) -> (parsed: Result<proc_macro2::TokenStream, syn::Error>)
    ensures
        match parsed {
            Ok(tokens) => lexed(text@) == Ok::<Seq<char>, Seq<Seq<char>>>(token_text(tokens)),
            Err(error) => lexed(text@) == Err::<Seq<char>, Seq<Seq<char>>>(messages(error))
                && has_message(error),
        },
{
    syn::parse_str(text)
}

/// `syn::Error::into_compile_error`: an invocation of `compile_error!` for
/// each message of the diagnostic.
#[verifier::external_body]
pub(crate) fn error_tokens(error: syn::Error) -> (tokens: proc_macro2::TokenStream)
    ensures
        token_text(tokens) == diagnostic_text(messages(error)),
{
    error.into_compile_error()
}

/// Whether the path is the path of the attribute, at its place.
pub open spec fn reads_path(attr: syn::Attribute, path: Path) -> bool {
    &&& match path.ident {
        Some(name) => path_ident_in(attr) == Some(name@),
        None => path_ident_in(attr) is None,
    }
    &&& path.span == path_span_in(attr)
}

/// Whether the places are those of the trees, one for one and in order.
pub open spec fn reads_spans(
    trees: Seq<proc_macro2::TokenTree>,
    spans: Seq<proc_macro2::Span>,
) -> bool {
    &&& spans.len() == trees.len()
    &&& forall|i: int| 0 <= i < trees.len() ==> #[trigger] spans[i] == span_in(trees[i])
}

/// Whether the token is what the tree holds.
pub open spec fn reads_token(tree: proc_macro2::TokenTree, token: Token) -> bool {
    match token {
        Token::Ident(name) => kind_in(tree) == TokenKind::Ident && name@ == name_in(tree),
        Token::Punct(c) => kind_in(tree) == TokenKind::Punct && c == char_in(tree),
        Token::Literal => kind_in(tree) == TokenKind::Literal,
        Token::Group => kind_in(tree) == TokenKind::Group,
    }
}

/// Whether the tokens are what the trees hold, one for one and in order.
pub open spec fn reads_tokens(trees: Seq<proc_macro2::TokenTree>, tokens: Seq<Token>) -> bool {
    &&& tokens.len() == trees.len()
    &&& forall|i: int| 0 <= i < trees.len() ==> reads_token(trees[i], #[trigger] tokens[i])
}

/// Whether the content is that of the attribute: of its form, under its
/// path, and for a list between its delimiters and with its tokens.
pub open spec fn reads_meta(attr: syn::Attribute, meta: MetaItem) -> bool {
    match meta {
        MetaItem::Path(path) => form_in(attr) == Form::Path && reads_path(attr, path),
        MetaItem::NameValue(path) => form_in(attr) == Form::NameValue && reads_path(attr, path),
        MetaItem::List(list) => {
            &&& form_in(attr) == Form::List(list.delimiter)
            &&& reads_path(attr, list.path)
            &&& reads_tokens(trees_in(attr), list.nested@)
            &&& reads_spans(trees_in(attr), list.spans@)
        },
    }
}

/// Whether what was read is the attribute.
pub open spec fn reads_attr(attr: syn::Attribute, read: Attr) -> bool {
    reads_path(attr, read.path) && reads_meta(attr, read.meta)
}

/// Whether what was read are the attributes, one for one and in order.
pub open spec fn reads_attrs(attrs: Seq<syn::Attribute>, read: Seq<Attr>) -> bool {
    &&& read.len() == attrs.len()
    &&& forall|i: int| 0 <= i < attrs.len() ==> reads_attr(attrs[i], #[trigger] read[i])
}

/// Whether what was read is the field: its name, its type and its
/// attributes.
pub open spec fn reads_field(field: syn::Field, read: FieldDef) -> bool {
    &&& match read.ident {
        Some(name) => field_ident_in(field) == Some(name@),
        None => field_ident_in(field) is None,
    }
    &&& read.ty@ == field_type_in(field)
    &&& reads_attrs(field_attrs_in(field), read.attrs@)
}

/// Whether what was read are the fields, one for one and in order.
pub open spec fn reads_fields(fields: Seq<syn::Field>, read: Seq<FieldDef>) -> bool {
    &&& read.len() == fields.len()
    &&& forall|i: int| 0 <= i < fields.len() ==> reads_field(fields[i], #[trigger] read[i])
}

/// Whether what was read is the declaration in the tree: its name, the
/// three parts of its generics, its attributes, its shape, and for a record
/// its fields.
pub open spec fn reads_declaration(tree: syn::DeriveInput, read: Declaration) -> bool {
    &&& read.ident@ == ident_in(tree)
    &&& read.generics.impl_generics@ == generics_in(tree).0
    &&& read.generics.ty_generics@ == generics_in(tree).1
    &&& read.generics.where_clause@ == generics_in(tree).2
    &&& reads_attrs(attrs_in(tree), read.attrs@)
    &&& read.span == keyword_span_in(tree)
    &&& match read.data {
        Data::Struct(fields) => shape_in(tree).0 == Shape::Struct && reads_fields(
            shape_in(tree).1,
            fields@,
        ),
        Data::Enum => shape_in(tree).0 == Shape::Enum,
        Data::Union => shape_in(tree).0 == Shape::Union,
    }
}

/// What reading makes of tokens: whether the outcome is the declaration that
/// the parser finds in them, or its diagnostic.
pub open spec fn reads(input: proc_macro2::TokenStream, read: Result<Declaration, syn::Error>) -> bool {
    match parsed_tree(input) {
        Ok(tree) => read is Ok && reads_declaration(tree, read->Ok_0),
        Err(failed) => read is Err && messages(read->Err_0) == failed,
    }
}

/// Reads tokens off the tree, in order.
fn read_tokens(trees: &Vec<proc_macro2::TokenTree>) -> (read: Vec<Token>)
    ensures
        reads_tokens(trees@, read@),
{
    let mut read: Vec<Token> = Vec::new();
    let mut index: usize = 0;
    while index < trees.len()
        invariant
            index <= trees.len(),
            reads_tokens(trees@.take(index as int), read@),
        decreases trees.len() - index,
    {
        let token = read_token(&trees[index]);
        assert(reads_token(trees@[index as int], token));
        read.push(token);
        index = index + 1;
    }
    assert(trees@.take(trees.len() as int) == trees@);
    read
}

/// Reads the places of tokens off the tree, in order.
fn read_spans(trees: &Vec<proc_macro2::TokenTree>) -> (read: Vec<proc_macro2::Span>)
    ensures
        reads_spans(trees@, read@),
{
    let mut read: Vec<proc_macro2::Span> = Vec::new();
    let mut index: usize = 0;
    while index < trees.len()
        invariant
            index <= trees.len(),
            reads_spans(trees@.take(index as int), read@),
        decreases trees.len() - index,
    {
        read.push(token_span(&trees[index]));
        index = index + 1;
    }
    assert(trees@.take(trees.len() as int) == trees@);
    read
}

/// Reads the content of an attribute off the tree.
fn read_meta(attr: &syn::Attribute) -> (read: MetaItem)
    ensures
        reads_meta(*attr, read),
{
    let path = attribute_path(attr);
    match attribute_form(attr) {
        Form::Path => MetaItem::Path(path),
        Form::NameValue => MetaItem::NameValue(path),
        Form::List(delimiter) => {
            let trees = attribute_trees(attr);
            MetaItem::List(
                MetaList {
                    path,
                    delimiter,
                    nested: read_tokens(&trees),
                    spans: read_spans(&trees),
                },
            )
        },
    }
}

/// Reads attributes off the tree, in order.
fn read_attributes(attrs: &Vec<syn::Attribute>) -> (read: Vec<Attr>)
    ensures
        reads_attrs(attrs@, read@),
{
    let mut read: Vec<Attr> = Vec::new();
    let mut index: usize = 0;
    while index < attrs.len()
        invariant
            index <= attrs.len(),
            reads_attrs(attrs@.take(index as int), read@),
        decreases attrs.len() - index,
    {
        let attr = &attrs[index];
        read.push(Attr { path: attribute_path(attr), meta: read_meta(attr) });
        index = index + 1;
    }
    assert(attrs@.take(attrs.len() as int) == attrs@);
    read
}

/// Reads fields off the tree, in order.
fn read_fields(fields: &Vec<syn::Field>) -> (read: Vec<FieldDef>)
    ensures
        reads_fields(fields@, read@),
{
    let mut read: Vec<FieldDef> = Vec::new();
    let mut index: usize = 0;
    while index < fields.len()
        invariant
            index <= fields.len(),
            reads_fields(fields@.take(index as int), read@),
        decreases fields.len() - index,
    {
        let field = &fields[index];
        read.push(
            FieldDef {
                attrs: read_attributes(&field_attrs(field)),
                ident: field_ident(field),
                ty: field_type(field),
            },
        );
        index = index + 1;
    }
    assert(fields@.take(fields.len() as int) == fields@);
    read
}

/// Reads a declaration off the tree.
fn read_derive_input(tree: &syn::DeriveInput) -> (read: Declaration)
    ensures
        reads_declaration(*tree, read),
{
    let (shape, fields) = input_shape(tree);
    let data = match shape {
        Shape::Struct => Data::Struct(read_fields(&fields)),
        Shape::Enum => Data::Enum,
        Shape::Union => Data::Union,
    };
    Declaration {
        attrs: read_attributes(&input_attrs(tree)),
        ident: input_ident(tree),
        generics: input_generics(tree),
        data,
        span: input_span(tree),
    }
}

/// Parses tokens as a declaration and reads it off the tree: the name, the
/// generics in their three parts, the shape, and for a record its fields in
/// order, each attribute with its path and its content. Tokens that are no
/// declaration give the diagnostic of the parser.
pub fn read_declaration(input: proc_macro2::TokenStream) -> (read: Result<
    Declaration,
    syn::Error,
>)
    ensures
        reads(input, read),
        read is Err ==> has_message(read->Err_0),
{
    match parse_derive_input(input) {
        Ok(tree) => Ok(read_derive_input(&tree)),
        Err(error) => Err(error),
    }
}

} // verus!
