//! Properties that hold of every transformation, proved from the contracts
//! of [`crate::transform`].

use vstd::prelude::*;
use crate::config::{config_spec, Clowncopterize, ConfigError, ConfigToken, CLOWNCOPTERIZE_FLAG};
use crate::model::{eligible, has_family_prefix, is_aggregate_field, is_flag_type, Field, Record};
use crate::transform::{any_eligible, struct_outcome, transform_outcome, TransformError};

verus! {

/// The number of family members among `s`.
pub open spec fn eligible_count(s: Seq<Field>) -> nat
    decreases s.len(),
{
    if s.len() == 0 {
        0
    } else {
        eligible_count(s.drop_last()) + if eligible(s.last()) {
            1nat
        } else {
            0nat
        }
    }
}

/// There is a family member exactly when the count of members is positive.
pub proof fn lemma_eligible_count_positive(s: Seq<Field>)
    ensures
        eligible_count(s) >= 1 <==> any_eligible(s),
        eligible_count(s) <= s.len(),
    decreases s.len(),
{
    if s.len() > 0 {
        let t = s.drop_last();
        lemma_eligible_count_positive(t);
        if any_eligible(t) {
            let i = choose|i: int| 0 <= i < t.len() && eligible(#[trigger] t[i]);
            assert(s[i] == t[i]);
        }
        if any_eligible(s) && !eligible(s.last()) {
            let i = choose|i: int| 0 <= i < s.len() && eligible(#[trigger] s[i]);
            assert(t[i] == s[i]);
        }
        if eligible(s.last()) {
            assert(eligible(s[s.len() - 1]));
        }
    }
}

/// Field count: a record with `n` family members and `m` other named fields
/// has, once transformed, `n + m + 1` fields when `n >= 1`, and `n + m` when
/// `n == 0`.
pub proof fn lemma_field_count(c: Clowncopterize, before: Record, r: Result<Record, TransformError>)
    requires
        before.fields is Named,
        struct_outcome(c.clowncopterizer@, before, r),
        r is Ok,
    ensures
        ({
            let s = before.fields->Named_0@;
            let n = eligible_count(s);
            let m = s.len() - n;
            &&& r->Ok_0.fields is Named
            &&& r->Ok_0.fields->Named_0@.len() == n + m + if n >= 1 {
                1int
            } else {
                0int
            }
        }),
{
    lemma_eligible_count_positive(before.fields->Named_0@);
}

/// Order: every field of the input keeps its position, identifier and type, and
/// the synthesized field, if any, comes last.
pub proof fn lemma_order_kept(c: Clowncopterize, before: Record, r: Result<Record, TransformError>)
    requires
        before.fields is Named,
        struct_outcome(c.clowncopterizer@, before, r),
        r is Ok,
    ensures
        ({
            let s = before.fields->Named_0@;
            let out = r->Ok_0.fields->Named_0@;
            &&& r->Ok_0.fields is Named
            &&& s.len() <= out.len() <= s.len() + 1
            &&& forall|i: int|
                0 <= i < s.len() ==> (#[trigger] out[i]).ident == s[i].ident && out[i].ty
                    == s[i].ty
            &&& out.len() == s.len() + 1 ==> is_aggregate_field(out.last(), c.clowncopterizer@)
        }),
{
}

/// Default naming: with no configuration tokens, the synthesized field is
/// named by the default name.
pub proof fn lemma_default_name(attr: Seq<ConfigToken>, before: Record, r: Result<Record, TransformError>)
    requires
        attr.len() == 0,
        before.fields is Named,
        any_eligible(before.fields->Named_0@),
        transform_outcome(attr, before, r),
        r is Ok,
    ensures
        r->Ok_0.fields is Named,
        r->Ok_0.fields->Named_0@.last().ident@ == CLOWNCOPTERIZE_FLAG@,
{
    assert(config_spec(attr) == Ok::<Seq<char>, ConfigError>(CLOWNCOPTERIZE_FLAG@));
}

/// Non-boolean exclusion: a field that is not of the flag type is never
/// rewritten, and when no field carrying the family prefix is of the flag
/// type, nothing is synthesized and the fields come back as they were.
pub proof fn lemma_non_flag_untouched(c: Clowncopterize, before: Record, r: Result<Record, TransformError>)
    requires
        before.fields is Named,
        struct_outcome(c.clowncopterizer@, before, r),
    ensures
        ({
            let s = before.fields->Named_0@;
            &&& r is Ok ==> forall|i: int|
                0 <= i < s.len() && !is_flag_type(#[trigger] s[i].ty) ==> r->Ok_0.fields->Named_0@[i]
                    == s[i]
            &&& (forall|i: int|
                0 <= i < s.len() && has_family_prefix((#[trigger] s[i]).ident@) ==> !is_flag_type(
                    s[i].ty,
                )) ==> r is Ok && r->Ok_0.fields->Named_0@ == s
        }),
{
    let s = before.fields->Named_0@;
    if forall|i: int|
        0 <= i < s.len() && has_family_prefix((#[trigger] s[i]).ident@) ==> !is_flag_type(s[i].ty) {
        assert(!any_eligible(s));
        assert(r->Ok_0.fields->Named_0@ =~= s);
    }
}

/// No match, no change: when no field carries the family prefix, the fields
/// come back as they were.
pub proof fn lemma_no_match_no_change(c: Clowncopterize, before: Record, r: Result<Record, TransformError>)
    requires
        before.fields is Named,
        forall|i: int|
            0 <= i < before.fields->Named_0@.len() ==> !has_family_prefix(
                (#[trigger] before.fields->Named_0@[i]).ident@,
            ),
        struct_outcome(c.clowncopterizer@, before, r),
    ensures
        r is Ok,
        r->Ok_0.name == before.name,
        r->Ok_0.fields is Named,
        r->Ok_0.fields->Named_0@ == before.fields->Named_0@,
{
    lemma_non_flag_untouched(c, before, r);
}

} // verus!
