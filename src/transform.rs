//! The transformation: rewrite every family member's option directive, then
//! append the aggregate flag if any member was found.

use vstd::prelude::*;
use crate::config::{config_spec, Clowncopterize, ConfigError, ConfigToken};
use crate::model::{
    directive_rewritten, eligible, field_rewritten, has_malformed_directive, is_aggregate_field,
    is_conditional_default, is_malformed, Directive, DirectiveArg, DirectiveBody, Field, FieldType,
    Record, RecordFields, AGGREGATE_DOC, CLOWNCOPTERIZE_PREFIX, FLAG_TYPE, LONG_OPTION,
    OPTION_DIRECTIVE, TRUE_VALUE,
};
use crate::text::{same_text, starts_with};

verus! {

/// Why a transformation was refused.
#[derive(Clone, Copy, Debug, PartialEq, Eq, Structural)]
pub enum TransformError {
    /// The configuration was refused.
    Config(ConfigError),
    /// The family member at this index has an option directive without an
    /// argument list.
    MalformedDirective(usize),
    /// A field already has the aggregate flag's identifier.
    NameTaken,
}

/// A family member that cannot be rewritten.
pub open spec fn is_bad(f: Field) -> bool {
    eligible(f) && has_malformed_directive(f)
}

/// `i` is the first index of a family member that cannot be rewritten.
pub open spec fn first_bad(s: Seq<Field>, i: int) -> bool {
    &&& 0 <= i < s.len()
    &&& is_bad(s[i])
    &&& forall|j: int| 0 <= j < i ==> !is_bad(#[trigger] s[j])
}

pub open spec fn any_eligible(s: Seq<Field>) -> bool {
    exists|i: int| 0 <= i < s.len() && eligible(#[trigger] s[i])
}

pub open spec fn name_taken(s: Seq<Field>, flag: Seq<char>) -> bool {
    exists|i: int| 0 <= i < s.len() && (#[trigger] s[i]).ident@ == flag
}

/// The error, if any, that rewriting the fields `s` for the aggregate flag
/// `flag` ends in.
pub open spec fn fields_error(flag: Seq<char>, s: Seq<Field>) -> Option<TransformError> {
    if exists|i: int| first_bad(s, i) {
        Some(TransformError::MalformedDirective((choose|i: int| first_bad(s, i)) as usize))
    } else if any_eligible(s) && name_taken(s, flag) {
        Some(TransformError::NameTaken)
    } else {
        None
    }
}

/// `out` is `s` with every family member rewritten, every other field kept,
/// and the aggregate field appended when there was a family member.
pub open spec fn rewritten_fields(flag: Seq<char>, s: Seq<Field>, out: Seq<Field>) -> bool {
    &&& out.len() == s.len() + if any_eligible(s) {
        1int
    } else {
        0int
    }
    &&& forall|i: int|
        0 <= i < s.len() ==> if eligible(#[trigger] s[i]) {
            field_rewritten(s[i], out[i], flag)
        } else {
            out[i] == s[i]
        }
    &&& any_eligible(s) ==> is_aggregate_field(out[s.len() as int], flag)
}

pub open spec fn fields_outcome(
    flag: Seq<char>,
    s: Seq<Field>,
    r: Result<Vec<Field>, TransformError>,
) -> bool {
    match r {
        Ok(out) => fields_error(flag, s) is None && rewritten_fields(flag, s, out@),
        Err(e) => fields_error(flag, s) == Some(e),
    }
}

/// What transforming the record `before` for the aggregate flag `flag` gives.
pub open spec fn struct_outcome(
    flag: Seq<char>,
    before: Record,
    r: Result<Record, TransformError>,
) -> bool {
    match before.fields {
        RecordFields::Named(fs) => match r {
            Ok(after) => {
                &&& after.name == before.name
                &&& after.fields matches RecordFields::Named(out)
                &&& fields_error(flag, fs@) is None
                &&& rewritten_fields(flag, fs@, out@)
            },
            Err(e) => fields_error(flag, fs@) == Some(e),
        },
        _ => r == Ok::<Record, TransformError>(before),
    }
}

/// What the whole transformation gives for configuration tokens `attr`.
pub open spec fn transform_outcome(
    attr: Seq<ConfigToken>,
    before: Record,
    r: Result<Record, TransformError>,
) -> bool {
    match config_spec(attr) {
        Err(e) => r == Err::<Record, TransformError>(TransformError::Config(e)),
        Ok(flag) => struct_outcome(flag, before, r),
    }
}

/// Whether the field belongs to the aggregate family.
pub fn is_eligible(field: &Field) -> (r: bool)
    ensures
        r == eligible(*field),
{
    match &field.ty {
        FieldType::Ident(t) => same_text(t.as_str(), FLAG_TYPE) && starts_with(
            field.ident.as_str(),
            CLOWNCOPTERIZE_PREFIX,
        ),
        FieldType::Other(_) => false,
    }
}

impl Clowncopterize {
    /// `default_value_if(<flag>, "true", "true")` for this configuration's
    /// aggregate flag.
    fn conditional_default(&self) -> (r: DirectiveArg)
        ensures
            is_conditional_default(r, self.clowncopterizer@),
    {
        DirectiveArg::DefaultValueIf {
            flag: self.clowncopterizer.clone(),
            when: String::from_str(TRUE_VALUE),
            value: String::from_str(TRUE_VALUE),
        }
    }

    /// Rewrites a family member: each of its option directives gains the
    /// conditional default on the aggregate flag as its last argument. Gives
    /// `None` when one of its option directives has no argument list.
    pub fn clowncopterize_field(&self, field: Field) -> (r: Option<Field>)
        ensures
            match r {
                Some(g) => !has_malformed_directive(field) && field_rewritten(
                    field,
                    g,
                    self.clowncopterizer@,
                ),
                None => has_malformed_directive(field),
            },
    {
        let ghost flag = self.clowncopterizer@;
        let ghost ds = field.directives@;
        let Field { vis, ident, ty, docs, directives } = field;
        let mut rewritten: Vec<Directive> = Vec::new();
        for d in it: directives.into_iter()
            invariant
                it.seq() == ds,
                ds == field.directives@,
                flag == self.clowncopterizer@,
                rewritten@.len() == it.index(),
                forall|j: int|
                    0 <= j < it.index() ==> directive_rewritten(
                        #[trigger] ds[j],
                        rewritten@[j],
                        flag,
                    ) && !is_malformed(ds[j]),
        {
            let ghost k = it.index() as int;
            if same_text(d.path.as_str(), OPTION_DIRECTIVE) {
                let Directive { path, body } = d;
                match body {
                    DirectiveBody::List(mut args) => {
                        let ghost before = args@;
                        args.push(self.conditional_default());
                        assert(args@.drop_last() =~= before);
                        rewritten.push(Directive { path, body: DirectiveBody::List(args) });
                    },
                    _ => {
                        assert(is_malformed(field.directives@[k]));
                        return None;
                    },
                }
            } else {
                rewritten.push(d);
            }
        }
        Some(Field { vis, ident, ty, docs, directives: rewritten })
    }

    /// The synthesized aggregate field: documented, named by this
    /// configuration, of the flag type, with a bare long-option directive.
    pub fn aggregate_field(&self) -> (r: Field)
        ensures
            is_aggregate_field(r, self.clowncopterizer@),
    {
        let mut docs: Vec<String> = Vec::new();
        docs.push(String::from_str(AGGREGATE_DOC));
        let mut args: Vec<DirectiveArg> = Vec::new();
        args.push(DirectiveArg::Word(String::from_str(LONG_OPTION)));
        let mut directives: Vec<Directive> = Vec::new();
        directives.push(
            Directive { path: String::from_str(OPTION_DIRECTIVE), body: DirectiveBody::List(args) },
        );
        Field {
            vis: String::new(),
            ident: self.clowncopterizer.clone(),
            ty: FieldType::Ident(String::from_str(FLAG_TYPE)),
            docs,
            directives,
        }
    }

    /// Rewrites every family member among `fields`, keeps every other field
    /// in place, and appends the aggregate field when a member was found.
    pub fn clowncopterize_fields(&self, fields: Vec<Field>) -> (r: Result<
        Vec<Field>,
        TransformError,
    >)
        ensures
            fields_outcome(self.clowncopterizer@, fields@, r),
    {
        let ghost flag = self.clowncopterizer@;
        let ghost s = fields@;
        let mut out: Vec<Field> = Vec::new();
        let mut is_clown = false;
        let mut taken = false;
        for field in it: fields.into_iter()
            invariant
                it.seq() == s,
                flag == self.clowncopterizer@,
                out@.len() == it.index(),
                forall|k: int|
                    0 <= k < it.index() ==> !is_bad(#[trigger] s[k]) && if eligible(s[k]) {
                        field_rewritten(s[k], out@[k], flag)
                    } else {
                        out@[k] == s[k]
                    },
                is_clown == exists|k: int| 0 <= k < it.index() && eligible(#[trigger] s[k]),
                taken == exists|k: int| 0 <= k < it.index() && (#[trigger] s[k]).ident@ == flag,
        {
            let ghost i = it.index() as int;
            if same_text(field.ident.as_str(), self.clowncopterizer.as_str()) {
                taken = true;
            }
            if is_eligible(&field) {
                is_clown = true;
                match self.clowncopterize_field(field) {
                    Some(g) => out.push(g),
                    None => {
                        proof {
                            assert(first_bad(s, i));
                            let c = choose|c: int| first_bad(s, c);
                            assert(c == i) by {
                                if c < i {
                                    assert(!is_bad(s[c]));
                                } else if c > i {
                                    assert(!is_bad(s[i]));
                                }
                            }
                        }
                        return Err(TransformError::MalformedDirective(out.len()));
                    },
                }
            } else {
                out.push(field);
            }
        }
        if is_clown {
            if taken {
                return Err(TransformError::NameTaken);
            }
            out.push(self.aggregate_field());
        }
        Ok(out)
    }

    /// Transforms a record declaration with this configuration. A record
    /// without named fields is given back unchanged.
    pub fn clowncopterize_struct(&self, ast: Record) -> (r: Result<Record, TransformError>)
        ensures
            struct_outcome(self.clowncopterizer@, ast, r),
    {
        let Record { name, fields } = ast;
        match fields {
            RecordFields::Named(named) => match self.clowncopterize_fields(named) {
                Ok(out) => Ok(Record { name, fields: RecordFields::Named(out) }),
                Err(e) => Err(e),
            },
            other => Ok(Record { name, fields: other }),
        }
    }
}

/// Transforms the record declaration `item` as configured by the tokens
/// `attr`: no tokens, or `aggregate_flag_name = "<name>"`.
pub fn clowncopterize(attr: &Vec<ConfigToken>, item: Record) -> (r: Result<
    Record,
    TransformError,
>)
    ensures
        transform_outcome(attr@, item, r),
{
    match Clowncopterize::parse(attr) {
        Ok(clowncopterizer) => clowncopterizer.clowncopterize_struct(item),
        Err(e) => Err(TransformError::Config(e)),
    }
}

} // verus!
