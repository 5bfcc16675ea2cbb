//! What the library reads of a declaration: its name, its generics, its
//! shape, its fields and the attributes on each of them, as plain values.

use vstd::prelude::*;

verus! {

/// `proc_macro2::Span`: a place in the source, where a diagnostic points.
#[verifier::external_type_specification]
#[verifier::external_body]
pub struct ExSpan(proc_macro2::Span);

/// The path of an attribute, as far as attributes are told apart by it: the
/// one identifier that the path consists of, if it is a single identifier.
#[derive(Debug)]
pub struct Path {
    pub ident: Option<String>,
    /// Where the path stands.
    pub span: proc_macro2::Span,
}

/// The delimiters that the list of an attribute can stand between.
#[derive(Debug, Clone, Copy, PartialEq, Eq, Structural)]
pub enum Delimiter {
    Parenthesis,
    Brace,
    Bracket,
}

/// A token, as far as the arguments of an attribute are read: an identifier
/// with its name, a punctuation character, a literal, or a group between
/// delimiters.
#[derive(Debug, PartialEq, Eq)]
pub enum Token {
    Ident(String),
    Punct(char),
    Literal,
    Group,
}

/// An attribute of the form `path(...)`, `path{...}` or `path[...]`.
#[derive(Debug)]
pub struct MetaList {
    pub path: Path,
    pub delimiter: Delimiter,
    /// The tokens between the delimiters.
    pub nested: Vec<Token>,
    /// Where each of these tokens stands, in the same order.
    pub spans: Vec<proc_macro2::Span>,
}

/// The three forms that the content of an attribute can have.
#[derive(Debug)]
pub enum MetaItem {
    /// `path`
    Path(Path),
    /// `path(...)`
    List(MetaList),
    /// `path = value`
    NameValue(Path),
}

/// An attribute on a record or on a field.
#[derive(Debug)]
pub struct Attr {
    pub path: Path,
    /// The content in one of its three forms.
    pub meta: MetaItem,
}

/// A field of a record. A positional field has no identifier.
#[derive(Debug)]
pub struct FieldDef {
    pub attrs: Vec<Attr>,
    pub ident: Option<String>,
    /// The field's type, as it is written.
    pub ty: String,
}

/// The generics of a record, cut into the three parts that an implementation
/// block repeats, each as it is written there. A part that the record does
/// not have is empty.
#[derive(Debug)]
pub struct Generics {
    /// The parameters with their bounds, between angle brackets: what follows
    /// `impl`.
    pub impl_generics: String,
    /// The parameters alone, between angle brackets: what follows the
    /// record's name.
    pub ty_generics: String,
    /// The `where` clause.
    pub where_clause: String,
}

/// The shape of a declaration.
#[derive(Debug)]
pub enum Data {
    Struct(Vec<FieldDef>),
    Enum,
    Union,
}

/// A declaration that a derive is asked for.
#[derive(Debug)]
pub struct Declaration {
    pub attrs: Vec<Attr>,
    pub ident: String,
    pub generics: Generics,
    pub data: Data,
    /// Where the keyword stands that names the shape.
    pub span: proc_macro2::Span,
}

} // verus!
