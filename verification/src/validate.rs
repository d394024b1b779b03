//! Checking an instance against the kind it declares.

use crate::instance::{InstanceView, NodeInstance};
use crate::json::{JsonType, JsonValue};
use crate::kind::{definition_of, registered, KindDefinition, KindRegistry, KindView};
use vstd::prelude::*;

verus! {

/// Why an instance does not validate.
#[derive(Debug, PartialEq, Eq)]
pub enum ValidationError {
    /// The instance declares a kind that is not registered.
    UnknownKind(String),
    /// The instance carries a field that its kind does not declare.
    UnknownField(String),
    /// The instance carries a declared field with a value of another type.
    WrongType { field: String, expected: JsonType, actual: JsonType },
}

impl Clone for ValidationError {
    /// An equal error.
    fn clone(&self) -> (e: Self)
        ensures
            e == *self,
    {
        match self {
            ValidationError::UnknownKind(k) => ValidationError::UnknownKind(k.clone()),
            ValidationError::UnknownField(f) => ValidationError::UnknownField(f.clone()),
            ValidationError::WrongType { field, expected, actual } => ValidationError::WrongType {
                field: field.clone(),
                expected: *expected,
                actual: *actual,
            },
        }
    }
}

/// A `ValidationError` with its names as text.
pub enum ValidationFault {
    UnknownKind(Seq<char>),
    UnknownField(Seq<char>),
    WrongType { field: Seq<char>, expected: JsonType, actual: JsonType },
}

impl View for ValidationError {
    type V = ValidationFault;

    open spec fn view(&self) -> ValidationFault {
        match self {
            ValidationError::UnknownKind(k) => ValidationFault::UnknownKind(k@),
            ValidationError::UnknownField(f) => ValidationFault::UnknownField(f@),
            ValidationError::WrongType { field, expected, actual } => ValidationFault::WrongType {
                field: field@,
                expected: *expected,
                actual: *actual,
            },
        }
    }
}

/// What is wrong with one field of an instance of kind `def`, if anything:
/// the kind does not declare it, or declares it with another type than the
/// value has. Only the kind's own fields count; its parent's do not.
pub open spec fn field_fault(def: KindView, field: Seq<char>, value: JsonValue) -> Option<
    ValidationFault,
> {
    if !def.fields.contains_key(field) {
        Some(ValidationFault::UnknownField(field))
    } else if def.fields[field] != value.json_type() {
        Some(
            ValidationFault::WrongType {
                field,
                expected: def.fields[field],
                actual: value.json_type(),
            },
        )
    } else {
        None
    }
}

/// Every field the instance carries is declared by `def` with the type of
/// its value. Fields that `def` declares and the instance lacks are no
/// fault.
pub open spec fn conforms(def: KindView, inst: InstanceView) -> bool {
    forall|i: int|
        0 <= i < inst.entries.len() ==> field_fault(
            def,
            (#[trigger] inst.entries[i]).0,
            inst.entries[i].1,
        ).is_none()
}

/// Field `i` of the instance is at fault and no earlier field is.
pub open spec fn first_fault_at(def: KindView, inst: InstanceView, i: int) -> bool {
    &&& 0 <= i < inst.entries.len()
    &&& field_fault(def, inst.entries[i].0, inst.entries[i].1).is_some()
    &&& forall|j: int|
        0 <= j < i ==> field_fault(def, (#[trigger] inst.entries[j]).0, inst.entries[j].1).is_none()
}

/// `fault` is what validation against the catalog `kinds` reports for
/// `inst`: that its kind is unknown, or else the fault of its first field at
/// fault.
pub open spec fn reports(kinds: Seq<KindView>, inst: InstanceView, fault: ValidationFault) -> bool {
    if !registered(kinds, inst.kind) {
        fault == ValidationFault::UnknownKind(inst.kind)
    } else {
        exists|i: int|
            #![trigger inst.entries[i]]
            first_fault_at(definition_of(kinds, inst.kind), inst, i) && Some(fault) == field_fault(
                definition_of(kinds, inst.kind),
                inst.entries[i].0,
                inst.entries[i].1,
            )
    }
}

/// Does the instance validate against the catalog `kinds`: is its kind
/// registered, and does it conform to that kind?
pub open spec fn valid(kinds: Seq<KindView>, inst: InstanceView) -> bool {
    registered(kinds, inst.kind) && conforms(definition_of(kinds, inst.kind), inst)
}

/// An instance of a kind that was never registered does not validate, and
/// the fault reported is `UnknownKind`, whatever the instance carries.
pub proof fn law_unknown_kind(kinds: Seq<KindView>, inst: InstanceView, fault: ValidationFault)
    requires
        !registered(kinds, inst.kind),
        reports(kinds, inst, fault),
    ensures
        !valid(kinds, inst),
        fault == ValidationFault::UnknownKind(inst.kind),
{
}

/// Validation is open for omission: an instance that carries only fields
/// that a valid instance of the same kind carries, with the same values, is
/// valid too. In particular an instance without fields is valid for every
/// registered kind.
pub proof fn law_omission_is_no_fault(kinds: Seq<KindView>, full: InstanceView, part: InstanceView)
    requires
        valid(kinds, full),
        part.kind == full.kind,
        forall|j: int|
            0 <= j < part.entries.len() ==> exists|i: int|
                0 <= i < full.entries.len() && #[trigger] full.entries[i] == #[trigger] part.entries[j],
    ensures
        valid(kinds, part),
{
    let def = definition_of(kinds, full.kind);
    assert forall|j: int| 0 <= j < part.entries.len() implies field_fault(
        def,
        (#[trigger] part.entries[j]).0,
        part.entries[j].1,
    ).is_none() by {
        let i = choose|i: int|
            0 <= i < full.entries.len() && #[trigger] full.entries[i] == #[trigger] part.entries[j];
        assert(full.entries[i] == part.entries[j]);
    }
}

/// Validation is closed for extension: an instance that carries a field its
/// kind does not declare, or a declared field with a value of another type,
/// is not valid.
pub proof fn law_fault_is_fatal(kinds: Seq<KindView>, inst: InstanceView, i: int)
    requires
        registered(kinds, inst.kind),
        0 <= i < inst.entries.len(),
        field_fault(definition_of(kinds, inst.kind), inst.entries[i].0, inst.entries[i].1).is_some(),
    ensures
        !valid(kinds, inst),
{
}

/// Validation reads shapes only: instances that are alike are valid
/// together, and what is reported for the one is reported for the other.
pub proof fn law_alike_validate_alike(
    kinds: Seq<KindView>,
    a: InstanceView,
    b: InstanceView,
    fault: ValidationFault,
)
    requires
        a.alike(b),
    ensures
        valid(kinds, a) == valid(kinds, b),
        reports(kinds, a, fault) == reports(kinds, b, fault),
{
    let def = definition_of(kinds, a.kind);
    assert forall|i: int| 0 <= i < a.entries.len() implies field_fault(
        def,
        (#[trigger] a.entries[i]).0,
        a.entries[i].1,
    ) == field_fault(def, b.entries[i].0, b.entries[i].1) by {}
    assert forall|i: int| 0 <= i < b.entries.len() implies field_fault(
        def,
        (#[trigger] b.entries[i]).0,
        b.entries[i].1,
    ) == field_fault(def, a.entries[i].0, a.entries[i].1) by {}
    if registered(kinds, a.kind) {
        assert forall|i: int| first_fault_at(def, a, i) == first_fault_at(def, b, i) by {}
    }
}

/// Validation never reports a fault for a valid instance, and reports at
/// most one fault for any instance.
pub proof fn law_report_is_unique(
    kinds: Seq<KindView>,
    inst: InstanceView,
    a: ValidationFault,
    b: ValidationFault,
)
    requires
        reports(kinds, inst, a),
        reports(kinds, inst, b),
    ensures
        a == b,
        !valid(kinds, inst),
{
    if registered(kinds, inst.kind) {
        let def = definition_of(kinds, inst.kind);
        let i = choose|i: int|
            #![trigger inst.entries[i]]
            first_fault_at(def, inst, i) && Some(a) == field_fault(
                def,
                inst.entries[i].0,
                inst.entries[i].1,
            );
        let j = choose|j: int|
            #![trigger inst.entries[j]]
            first_fault_at(def, inst, j) && Some(b) == field_fault(
                def,
                inst.entries[j].0,
                inst.entries[j].1,
            );
        assert(i == j);
    }
}

/// Checks one field of an instance against the kind `def`.
pub fn check_field(def: &KindDefinition, field: &str, value: &JsonValue) -> (r: Result<
    (),
    ValidationError,
>)
    requires
        def.wf(),
    ensures
        match r {
            Ok(()) => field_fault(def@, field@, *value).is_none(),
            Err(e) => field_fault(def@, field@, *value) == Some(e@),
        },
{
    match def.field_type(field) {
        None => Err(ValidationError::UnknownField(field.to_owned())),
        Some(expected) => {
            let actual = JsonType::of(value);
            if expected == actual {
                Ok(())
            } else {
                Err(ValidationError::WrongType { field: field.to_owned(), expected, actual })
            }
        },
    }
}

/// Validates `instance` against the kind it declares. It passes exactly
/// when that kind is registered and every field the instance carries is
/// declared on that kind with the type its value has. Otherwise the error
/// is `UnknownKind` for an unregistered kind, and else the fault of the first
/// field, in the instance's field order, that is undeclared or mistyped.
pub fn validate_instance(catalog: &KindRegistry, instance: &NodeInstance) -> (r: Result<
    (),
    ValidationError,
>)
    requires
        catalog.wf(),
        instance.wf(),
    ensures
        match r {
            Ok(()) => valid(catalog.kinds(), instance@),
            Err(e) => !valid(catalog.kinds(), instance@) && reports(catalog.kinds(), instance@, e@),
        },
        !catalog.contains(instance@.kind) ==> r.is_err() && r.unwrap_err()@
            == ValidationFault::UnknownKind(instance@.kind),
{
    let def = match catalog.get(instance.kind()) {
        Some(def) => def,
        None => {
            return Err(ValidationError::UnknownKind(instance.kind().to_owned()));
        },
    };
    let n = instance.field_count();
    let mut i: usize = 0;
    while i < n
        invariant
            i <= n,
            n == instance@.entries.len(),
            instance.wf(),
            def.wf(),
            def@ == catalog.kind_of(instance@.kind),
            catalog.contains(instance@.kind),
            forall|j: int|
                0 <= j < i ==> field_fault(
                    def@,
                    (#[trigger] instance@.entries[j]).0,
                    instance@.entries[j].1,
                ).is_none(),
        decreases n - i,
    {
        let (field, value) = instance.field_at(i);
        match check_field(def, field, value) {
            Ok(()) => {},
            Err(e) => {
                proof {
                    assert(field_fault(
                        def@,
                        instance@.entries[i as int].0,
                        instance@.entries[i as int].1,
                    ).is_some());
                }
                return Err(e);
            },
        }
        i += 1;
    }
    Ok(())
}

} // verus!
