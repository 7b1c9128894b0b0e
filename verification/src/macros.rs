//! Deriving how a type is dumped.
//!
//! A type without a lifetime named `'tape` and without type parameters is
//! dumped the way it is debugged. Any other type is dumped like `Debug` would
//! do it, variant by variant and field by field, except that a field whose type
//! mentions `'tape` or a type parameter goes through the dumper.

use vstd::prelude::*;

verus! {

/// What is known of a field: its name, where the fields have names, and what
/// its type mentions.
pub struct Field {
    /// The name of the field; empty where the fields have no names.
    pub name: String,
    /// Whether the type of the field mentions a type parameter.
    pub mentions_type_param: bool,
    /// Whether the type of the field mentions the lifetime `'tape`.
    pub mentions_tape: bool,
}

/// How the fields of a variant are written.
#[derive(Clone, Copy, Debug, PartialEq, Eq, Structural)]
pub enum Style {
    /// With names, between braces.
    Named,
    /// Without names, between parentheses.
    Unnamed,
    /// There are none.
    Unit,
}

/// A variant of an enum, or the one variant that a struct is.
pub struct Variant {
    /// The name of the variant; that of the type, for a struct.
    pub name: String,
    /// How the fields are written.
    pub style: Style,
    /// The fields, in order.
    pub fields: Vec<Field>,
}

/// The shape of a type.
pub struct Shape {
    /// Whether the type has a lifetime parameter named `'tape`.
    pub has_tape_lifetime: bool,
    /// Whether the type has type parameters.
    pub has_type_params: bool,
    /// The variants, in order.
    pub variants: Vec<Variant>,
}

/// How a field is handed to the formatter.
pub struct FieldExpr {
    /// The name of the field; empty where the fields have no names.
    pub name: String,
    /// Whether the field goes through the dumper.
    pub bridged: bool,
}

/// How a variant is dumped.
pub struct Arm {
    /// The name that the formatter is given.
    pub ctor: String,
    /// How the fields are written.
    pub style: Style,
    /// The fields, in order.
    pub fields: Vec<FieldExpr>,
}

/// How a type is dumped.
pub struct Derived {
    /// Whether the implementation brings the lifetime `'tape` along, because
    /// the type has none of that name.
    pub adds_tape_lifetime: bool,
    /// Whether dumping is left to `Debug`.
    pub delegates: bool,
    /// How each variant is dumped, where dumping is not left to `Debug`.
    pub arms: Vec<Arm>,
}

/// Whether a field goes through the dumper: its type mentions a type
/// parameter, or the lifetime `'tape` that the type of the field belongs to
/// has.
pub open spec fn spec_bridged(field: &Field, has_tape_lifetime: bool) -> bool {
    field.mentions_type_param || (has_tape_lifetime && field.mentions_tape)
}

/// Whether `expr` is how `field` is handed to the formatter.
pub open spec fn spec_field_expr(expr: &FieldExpr, field: &Field, has_tape_lifetime: bool) -> bool {
    expr.name@ == field.name@ && expr.bridged == spec_bridged(field, has_tape_lifetime)
}

/// Whether `arm` is how `variant` is dumped.
pub open spec fn spec_arm(arm: &Arm, variant: &Variant, has_tape_lifetime: bool) -> bool {
    &&& arm.ctor@ == variant.name@
    &&& arm.style == variant.style
    &&& arm.fields@.len() == variant.fields@.len()
    &&& forall|j: int|
        0 <= j < arm.fields@.len() ==> spec_field_expr(
            #[trigger] &arm.fields@[j],
            &variant.fields@[j],
            has_tape_lifetime,
        )
}

/// Whether `derived` is how a type of the shape `shape` is dumped.
pub open spec fn spec_derived(derived: &Derived, shape: &Shape) -> bool {
    &&& derived.adds_tape_lifetime == !shape.has_tape_lifetime
    &&& derived.delegates == (!shape.has_tape_lifetime && !shape.has_type_params)
    &&& derived.delegates ==> derived.arms@.len() == 0
    &&& !derived.delegates ==> {
        &&& derived.arms@.len() == shape.variants@.len()
        &&& forall|i: int|
            0 <= i < derived.arms@.len() ==> spec_arm(
                #[trigger] &derived.arms@[i],
                &shape.variants@[i],
                shape.has_tape_lifetime,
            )
    }
}

/// Tells how a field is handed to the formatter.
pub fn field_expr(field: &Field, has_tape_lifetime: bool) -> (expr: FieldExpr)
    ensures
        spec_field_expr(&expr, field, has_tape_lifetime),
{
    let bridged = field.mentions_type_param || (has_tape_lifetime && field.mentions_tape);
    FieldExpr { name: field.name.clone(), bridged }
}

/// Tells how a variant is dumped.
pub fn arm(variant: &Variant, has_tape_lifetime: bool) -> (arm: Arm)
    ensures
        spec_arm(&arm, variant, has_tape_lifetime),
{
    let mut fields: Vec<FieldExpr> = Vec::new();
    let n = variant.fields.len();
    let mut j: usize = 0;
    while j < n
        invariant
            j <= n,
            n == variant.fields@.len(),
            fields@.len() == j,
            forall|k: int|
                0 <= k < j ==> spec_field_expr(
                    #[trigger] &fields@[k],
                    &variant.fields@[k],
                    has_tape_lifetime,
                ),
        decreases n - j,
    {
        fields.push(field_expr(&variant.fields[j], has_tape_lifetime));
        j += 1;
    }
    Arm { ctor: variant.name.clone(), style: variant.style, fields }
}

/// Tells how a type of the shape `shape` is dumped.
pub fn dump_derive(shape: &Shape) -> (derived: Derived)
    ensures
        spec_derived(&derived, shape),
{
    let adds_tape_lifetime = !shape.has_tape_lifetime;
    if !shape.has_tape_lifetime && !shape.has_type_params {
        return Derived { adds_tape_lifetime, delegates: true, arms: Vec::new() };
    }
    let mut arms: Vec<Arm> = Vec::new();
    let n = shape.variants.len();
    let mut i: usize = 0;
    while i < n
        invariant
            i <= n,
            n == shape.variants@.len(),
            arms@.len() == i,
            forall|k: int|
                0 <= k < i ==> spec_arm(
                    #[trigger] &arms@[k],
                    &shape.variants@[k],
                    shape.has_tape_lifetime,
                ),
        decreases n - i,
    {
        arms.push(arm(&shape.variants[i], shape.has_tape_lifetime));
        i += 1;
    }
    Derived { adds_tape_lifetime, delegates: false, arms }
}

} // verus!
