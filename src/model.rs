//! The record declaration that the transformation reads and rewrites, as
//! plain values, with the predicates that its contracts are stated in.

use vstd::prelude::*;

verus! {

/// Fields whose identifier starts with this text form the aggregate family.
pub const CLOWNCOPTERIZE_PREFIX: &'static str = "clowntown";

/// The type that a family member must be declared with.
pub const FLAG_TYPE: &'static str = "bool";

/// The path of the directive that marks a field as a command-line option.
pub const OPTION_DIRECTIVE: &'static str = "arg";

/// The word, inside an option directive, that asks for a long-form option.
pub const LONG_OPTION: &'static str = "long";

/// The value that a set boolean option holds, and the default it then gives.
pub const TRUE_VALUE: &'static str = "true";

/// The doc line given to the synthesized aggregate field.
pub const AGGREGATE_DOC: &'static str = " Turns all the clowntown flags on";

/// The declared type of a field.
#[derive(Clone, Debug, PartialEq, Eq)]
pub enum FieldType {
    /// A type written as one plain identifier, such as `bool` or `String`.
    Ident(String),
    /// Any other type, as written in the declaration.
    Other(String),
}

/// One argument inside an option directive's list.
#[derive(Clone, Debug, PartialEq, Eq)]
pub enum DirectiveArg {
    /// A bare word, such as `long` or `short`.
    Word(String),
    /// `key = value`, the value as written.
    Setting(String, String),
    /// `default_value_if(flag, when, value)`: this option defaults to `value`
    /// whenever the option `flag` was parsed as `when`.
    DefaultValueIf { flag: String, when: String, value: String },
    /// Any other argument, as written.
    Other(String),
}

/// What follows a directive's path.
#[derive(Clone, Debug, PartialEq, Eq)]
pub enum DirectiveBody {
    /// Nothing: `#[path]`.
    Bare,
    /// A parenthesised argument list: `#[path(a, b)]`.
    List(Vec<DirectiveArg>),
    /// An assigned value: `#[path = value]`, the value as written.
    Value(String),
}

/// One attribute-like annotation on a field.
#[derive(Clone, Debug, PartialEq, Eq)]
pub struct Directive {
    pub path: String,
    pub body: DirectiveBody,
}

/// A named field of a record.
#[derive(Clone, Debug, PartialEq, Eq)]
pub struct Field {
    /// The visibility as written (empty when inherited).
    pub vis: String,
    pub ident: String,
    pub ty: FieldType,
    /// Doc lines, in order.
    pub docs: Vec<String>,
    /// Directives other than doc lines, in order.
    pub directives: Vec<Directive>,
}

/// The fields of a record.
#[derive(Clone, Debug, PartialEq, Eq)]
pub enum RecordFields {
    Named(Vec<Field>),
    /// Positional fields, by type.
    Unnamed(Vec<FieldType>),
    Unit,
}

/// A record type declaration.
#[derive(Clone, Debug, PartialEq, Eq)]
pub struct Record {
    pub name: String,
    pub fields: RecordFields,
}

/// The field is declared with the flag type.
pub open spec fn is_flag_type(t: FieldType) -> bool {
    t matches FieldType::Ident(s) && s@ == FLAG_TYPE@
}

/// The identifier carries the family prefix.
pub open spec fn has_family_prefix(ident: Seq<char>) -> bool {
    CLOWNCOPTERIZE_PREFIX@.is_prefix_of(ident)
}

/// The field belongs to the aggregate family.
pub open spec fn eligible(f: Field) -> bool {
    is_flag_type(f.ty) && has_family_prefix(f.ident@)
}

/// The directive marks its field as a command-line option.
pub open spec fn is_option_directive(d: Directive) -> bool {
    d.path@ == OPTION_DIRECTIVE@
}

/// An option directive without an argument list, which cannot be extended.
pub open spec fn is_malformed(d: Directive) -> bool {
    is_option_directive(d) && !(d.body is List)
}

pub open spec fn has_malformed_directive(f: Field) -> bool {
    exists|j: int| 0 <= j < f.directives@.len() && is_malformed(#[trigger] f.directives@[j])
}

/// `default_value_if(flag, "true", "true")`.
pub open spec fn is_conditional_default(a: DirectiveArg, flag: Seq<char>) -> bool {
    &&& a matches DirectiveArg::DefaultValueIf { flag: f, when, value }
    &&& f@ == flag
    &&& when@ == TRUE_VALUE@
    &&& value@ == TRUE_VALUE@
}

/// `e` is `d` after the rewrite: an option directive gains the conditional
/// default as its last argument; any other directive stays as it was.
pub open spec fn directive_rewritten(d: Directive, e: Directive, flag: Seq<char>) -> bool {
    if is_option_directive(d) {
        &&& e.path == d.path
        &&& d.body matches DirectiveBody::List(a)
        &&& e.body matches DirectiveBody::List(b)
        &&& b@.len() == a@.len() + 1
        &&& b@.drop_last() == a@
        &&& is_conditional_default(b@.last(), flag)
    } else {
        e == d
    }
}

/// `g` is `f` with each of its directives rewritten and all else kept.
pub open spec fn field_rewritten(f: Field, g: Field, flag: Seq<char>) -> bool {
    &&& g.vis == f.vis
    &&& g.ident == f.ident
    &&& g.ty == f.ty
    &&& g.docs == f.docs
    &&& g.directives@.len() == f.directives@.len()
    &&& forall|j: int|
        0 <= j < f.directives@.len() ==> directive_rewritten(
            #[trigger] f.directives@[j],
            g.directives@[j],
            flag,
        )
}

/// The synthesized field: `name: bool`, documented, with a bare long-option
/// directive.
pub open spec fn is_aggregate_field(g: Field, name: Seq<char>) -> bool {
    &&& g.vis@ == Seq::<char>::empty()
    &&& g.ident@ == name
    &&& is_flag_type(g.ty)
    &&& g.docs@.len() == 1
    &&& g.docs@[0]@ == AGGREGATE_DOC@
    &&& g.directives@.len() == 1
    &&& is_option_directive(g.directives@[0])
    &&& g.directives@[0].body matches DirectiveBody::List(a)
    &&& a@.len() == 1
    &&& a@[0] matches DirectiveArg::Word(w)
    &&& w@ == LONG_OPTION@
}

} // verus!
