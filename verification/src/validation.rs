//! Field-length validation, reported the way the `validator` crate reports
//! it: every field outside its bounds is collected, and the error's text is
//! the crate's rendering of the collected field errors.

use vstd::prelude::*;
use crate::error::AppError;
use crate::text::{length_between, length_within};

verus! {

#[verifier::external_type_specification]
#[verifier::external_body]
pub struct ExValidationError(validator::ValidationError);

#[verifier::external_type_specification]
#[verifier::external_body]
pub struct ExValidationErrors(validator::ValidationErrors);

/// A field whose length in characters lies outside `min..=max`.
#[derive(Debug, Clone, PartialEq, Eq)]
pub struct LengthViolation {
    pub field: &'static str,
    pub min: u64,
    pub max: u64,
    /// The field's value.
    pub value: String,
}

/// `v` records that `field`, whose value is `value`, is outside `min..=max`.
pub open spec fn records(v: LengthViolation, field: Seq<char>, value: Seq<char>, min: u64, max: u64) -> bool {
    v.field@ == field && v.value@ == value && v.min == min && v.max == max
}

/// Some violation in `vs` is of field `f`.
pub open spec fn has_field(vs: Seq<LengthViolation>, f: Seq<char>) -> bool {
    exists|i: int| 0 <= i < vs.len() && vs[i].field@ == f
}

/// When `value` lies outside `min..=max`, `e` is a validation error whose
/// text names field `f` (as `f: `).
pub open spec fn names_if_outside(e: AppError, f: Seq<char>, value: Seq<char>, min: nat, max: nat) -> bool {
    !length_within(value, min, max) ==> (e matches AppError::Validation(m) && contains_text(m@, f + ": "@))
}

/// Checks the length of one field; a field outside its bounds is added to
/// `out`.
pub fn length_check(out: &mut Vec<LengthViolation>, field: &'static str, value: &String, min: u64, max: u64)
    requires
        min <= max,
        max <= usize::MAX,
    ensures
        length_within(value@, min as nat, max as nat) ==> final(out)@ == old(out)@,
        !length_within(value@, min as nat, max as nat) ==> {
            &&& final(out)@.len() == old(out)@.len() + 1
            &&& final(out)@.drop_last() == old(out)@
            &&& records(final(out)@.last(), field@, value@, min, max)
        },
        !length_within(value@, min as nat, max as nat) ==> has_field(final(out)@, field@),
        forall|f: Seq<char>| #[trigger] has_field(old(out)@, f) ==> has_field(final(out)@, f),
{
    if !length_between(value, min as usize, max as usize) {
        let ghost before = out@;
        out.push(LengthViolation { field, min, max, value: value.clone() });
        proof {
            assert(out@[before.len() as int].field@ == field@);
            assert forall|f: Seq<char>| #[trigger] has_field(before, f) implies has_field(out@, f) by {
                let i = choose|i: int| 0 <= i < before.len() && before[i].field@ == f;
                assert(out@[i] == before[i]);
            }
        }
    }
}

/// One field error as the contracts see it: its code, its number
/// parameters and its text parameters.
pub type FieldError = (Seq<char>, Map<Seq<char>, u64>, Map<Seq<char>, Seq<char>>);

/// The code of a `validator::ValidationError`.
pub uninterp spec fn error_code(e: validator::ValidationError) -> Seq<char>;

/// The parameters of a `validator::ValidationError` that hold JSON numbers.
pub uninterp spec fn number_params(e: validator::ValidationError) -> Map<Seq<char>, u64>;

/// The parameters of a `validator::ValidationError` that hold JSON strings.
pub uninterp spec fn text_params(e: validator::ValidationError) -> Map<Seq<char>, Seq<char>>;

/// What a `validator::ValidationErrors` holds: for each field, the errors
/// filed under it, in filing order.
pub uninterp spec fn field_errors(e: validator::ValidationErrors) -> Map<Seq<char>, Seq<FieldError>>;

/// Every entry of a `validator::ValidationErrors` is a list of field errors
/// (none is a nested struct or list).
pub uninterp spec fn only_field_errors(e: validator::ValidationErrors) -> bool;

pub open spec fn field_error_of(e: validator::ValidationError) -> FieldError {
    (error_code(e), number_params(e), text_params(e))
}

/// `m` with `x` filed after the errors `f` already has.
pub open spec fn file_error(m: Map<Seq<char>, Seq<FieldError>>, f: Seq<char>, x: FieldError) -> Map<Seq<char>, Seq<FieldError>> {
    m.insert(f, (if m.dom().contains(f) { m[f] } else { Seq::empty() }).push(x))
}

/// The `length` error the `validator` crate's derived checks record for a
/// violation: its `min` and `max` bounds and the offending `value`.
pub open spec fn length_error_of(v: LengthViolation) -> FieldError {
    (
        "length"@,
        Map::<Seq<char>, u64>::empty().insert("min"@, v.min).insert("max"@, v.max),
        Map::<Seq<char>, Seq<char>>::empty().insert("value"@, v.value@),
    )
}

/// The field errors of the violations, filed in order.
pub open spec fn filed_violations(vs: Seq<LengthViolation>) -> Map<Seq<char>, Seq<FieldError>>
    decreases vs.len(),
{
    if vs.len() == 0 {
        Map::empty()
    } else {
        file_error(filed_violations(vs.drop_last()), vs.last().field@, length_error_of(vs.last()))
    }
}

/// `t` occurs in `s`.
pub open spec fn contains_text(s: Seq<char>, t: Seq<char>) -> bool {
    exists|k: int| 0 <= k && k + t.len() <= s.len() && #[trigger] s.subrange(k, k + t.len()) == t
}

/// `validator::ValidationErrors::new()`: no field errors yet.
#[verifier::external_body]
fn new_errors() -> (r: validator::ValidationErrors)
    ensures
        field_errors(r).dom().is_empty(),
        only_field_errors(r),
{
    validator::ValidationErrors::new()
}

/// `validator::ValidationError::new(code)`: an error with this code, no
/// message and no parameters.
#[verifier::external_body]
fn new_error(code: &'static str) -> (r: validator::ValidationError)
    ensures
        error_code(r) == code@,
        number_params(r).dom().is_empty(),
        text_params(r).dom().is_empty(),
{
    validator::ValidationError::new(code)
}

/// `ValidationError::add_param` with a number: the parameter `name` now
/// holds that JSON number (replacing what it held).
#[verifier::external_body]
fn add_number_param(err: &mut validator::ValidationError, name: &'static str, value: u64)
    ensures
        error_code(*final(err)) == error_code(*old(err)),
        number_params(*final(err)) == number_params(*old(err)).insert(name@, value),
        text_params(*final(err)) == text_params(*old(err)).remove(name@),
{
    err.add_param(std::borrow::Cow::from(name), &value);
}

/// `ValidationError::add_param` with a text: the parameter `name` now holds
/// that JSON string (replacing what it held).
#[verifier::external_body]
fn add_text_param(err: &mut validator::ValidationError, name: &'static str, value: &String)
    ensures
        error_code(*final(err)) == error_code(*old(err)),
        number_params(*final(err)) == number_params(*old(err)).remove(name@),
        text_params(*final(err)) == text_params(*old(err)).insert(name@, value@),
{
    err.add_param(std::borrow::Cow::from(name), value);
}

/// `ValidationErrors::add`: files `err` after the errors `field` already
/// has. The crate panics when `field` holds a nested struct or list entry;
/// `requires` leaves that out, and the entries stay field errors.
#[verifier::external_body]
fn add_field_error(errors: &mut validator::ValidationErrors, field: &'static str, err: validator::ValidationError)
    requires
        only_field_errors(*old(errors)),
    ensures
        only_field_errors(*final(errors)),
        field_errors(*final(errors)) == file_error(field_errors(*old(errors)), field@, field_error_of(err)),
{
    errors.add(field, err);
}

/// The `Display` text of `validator::ValidationErrors` holding only field
/// errors: one line per field, `field: ` followed by its errors. No fields
/// give an empty text. The fields and the parameters sit in hash maps, so
/// the order in which they are written differs from one process to the
/// next; what is said here holds in every order: each field's `field: `
/// occurs in the text. The rest of the text is left unsaid for that reason.
#[verifier::external_body]
fn errors_text(errors: &validator::ValidationErrors) -> (r: String)
    requires
        only_field_errors(*errors),
    ensures
        field_errors(*errors).dom().is_empty() ==> r@ == Seq::<char>::empty(),
        forall|f: Seq<char>| #[trigger] field_errors(*errors).dom().contains(f) ==> contains_text(r@, f + ": "@),
{
    errors.to_string()
}

/// The `length` error of one violation, as the `validator` crate's derived
/// checks record it.
fn length_error(v: &LengthViolation) -> (r: validator::ValidationError)
    ensures
        field_error_of(r) == length_error_of(*v),
{
    let mut err = new_error("length");
    proof {
        assert(number_params(err) =~= Map::<Seq<char>, u64>::empty());
        assert(text_params(err) =~= Map::<Seq<char>, Seq<char>>::empty());
    }
    add_number_param(&mut err, "min", v.min);
    add_number_param(&mut err, "max", v.max);
    add_text_param(&mut err, "value", &v.value);
    proof {
        reveal_strlit("min");
        reveal_strlit("max");
        reveal_strlit("value");
        assert("value"@.len() != "min"@.len());
        assert("value"@.len() != "max"@.len());
        assert(number_params(err) =~= length_error_of(*v).1);
        assert(text_params(err) =~= length_error_of(*v).2);
    }
    err
}

/// The field errors of the collected violations: for each, in order, a
/// `length` error filed under its field with the parameters `min`, `max` and
/// `value`, as the `validator` crate's derived checks record them.
pub fn length_errors(violations: &Vec<LengthViolation>) -> (r: validator::ValidationErrors)
    ensures
        only_field_errors(r),
        field_errors(r) == filed_violations(violations@),
{
    let mut errors = new_errors();
    proof {
        assert(field_errors(errors) =~= filed_violations(violations@.take(0)));
    }
    let mut i: usize = 0;
    while i < violations.len()
        invariant
            i <= violations@.len(),
            only_field_errors(errors),
            field_errors(errors) == filed_violations(violations@.take(i as int)),
        decreases violations@.len() - i,
    {
        let v = &violations[i];
        let err = length_error(v);
        add_field_error(&mut errors, v.field, err);
        proof {
            assert(violations@.take(i + 1).drop_last() =~= violations@.take(i as int));
            assert(violations@.take(i + 1).last() == violations@[i as int]);
        }
        i += 1;
    }
    proof {
        assert(violations@.take(violations@.len() as int) =~= violations@);
    }
    errors
}

proof fn lemma_filed_fields(vs: Seq<LengthViolation>)
    ensures
        forall|f: Seq<char>| #[trigger] filed_violations(vs).dom().contains(f) <==> exists|j: int| 0 <= j < vs.len() && vs[j].field@ == f,
    decreases vs.len(),
{
    if vs.len() > 0 {
        lemma_filed_fields(vs.drop_last());
        assert forall|f: Seq<char>| #[trigger] filed_violations(vs).dom().contains(f) <==> exists|j: int| 0 <= j < vs.len() && vs[j].field@ == f by {
            if exists|j: int| 0 <= j < vs.len() && vs[j].field@ == f {
                let j = choose|j: int| 0 <= j < vs.len() && vs[j].field@ == f;
                if j < vs.len() - 1 {
                    assert(vs.drop_last()[j] == vs[j]);
                }
            }
            if filed_violations(vs.drop_last()).dom().contains(f) {
                let j = choose|j: int| 0 <= j < vs.drop_last().len() && vs.drop_last()[j].field@ == f;
                assert(vs[j] == vs.drop_last()[j]);
            }
        }
    }
}

/// The validation error for the collected violations: the `validator`
/// crate's text of their `length_errors`. It names every violated field as
/// `field: `; with no violations it is empty.
pub fn validation_failure(violations: &Vec<LengthViolation>) -> (r: AppError)
    ensures
        r matches AppError::Validation(m) && {
            &&& violations@.len() == 0 ==> m@ == Seq::<char>::empty()
            &&& forall|i: int| 0 <= i < violations@.len() ==> contains_text(m@, #[trigger] violations@[i].field@ + ": "@)
            &&& forall|f: Seq<char>| #[trigger] has_field(violations@, f) ==> contains_text(m@, f + ": "@)
        },
{
    let errors = length_errors(violations);
    let text = errors_text(&errors);
    proof {
        lemma_filed_fields(violations@);
        assert forall|k: int| 0 <= k < violations@.len() implies contains_text(text@, #[trigger] violations@[k].field@ + ": "@) by {
            assert(field_errors(errors).dom().contains(violations@[k].field@));
        }
        if violations@.len() == 0 {
            assert(field_errors(errors).dom() =~= Set::<Seq<char>>::empty());
        }
        assert forall|f: Seq<char>| #[trigger] has_field(violations@, f) implies contains_text(text@, f + ": "@) by {
            let i = choose|i: int| 0 <= i < violations@.len() && violations@[i].field@ == f;
            assert(field_errors(errors).dom().contains(violations@[i].field@));
        }
    }
    AppError::validation(text)
}

} // verus!
