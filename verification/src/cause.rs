//! Finding the cause field of a variant and classifying its type, and the
//! cause behaviour of a whole type.

use vstd::prelude::*;
use crate::annotation::{cause_marked, is_cause};
use crate::error::GenerationError;
use crate::message::outcome;
use crate::schema::{
    view_each, DefinitionModel, Field, FieldModel, ShapeModel, TypeDefinition, TypeDescriptor,
    Variant, VariantModel,
};
use crate::sequence::{
    first_index, lemma_first_index_found, lemma_first_index_none, lemma_try_each_fails,
    lemma_try_each_succeeds, try_each,
};
use crate::text::same_text;

verus! {

/// The name of the constructor of an optional value.
pub const OPTION_TYPE: &'static str = "Option";

/// The name of the constructor of an owned box.
pub const BOX_TYPE: &'static str = "Box";

/// How a variant holds its cause.
#[derive(Debug, Clone, Copy, PartialEq, Eq, Structural)]
pub enum CauseBinding {
    /// No field is marked as the cause.
    Absent,
    /// The field is itself the cause.
    Direct,
    /// The field is a box, and what the box holds is the cause.
    Boxed,
    /// The field may hold a box, and what that box holds is the cause.
    OptionalBoxed,
}

/// Where one variant finds its cause: the way its cause field holds it, and
/// the index of that field. Without a cause field the index is zero and
/// means nothing.
#[derive(Debug, Clone, Copy, PartialEq, Eq, Structural)]
pub struct CauseArm {
    pub binding: CauseBinding,
    pub field: usize,
}

/// What a [`CauseArm`] is to the contracts.
pub ghost struct CauseArmModel {
    pub binding: CauseBinding,
    pub field: nat,
}

impl View for CauseArm {
    type V = CauseArmModel;

    open spec fn view(&self) -> CauseArmModel {
        CauseArmModel { binding: self.binding, field: self.field as nat }
    }
}

/// The cause behaviour of a type: one arm for each variant, in order.
#[derive(Debug, Clone, PartialEq, Eq)]
pub struct ErrorImpl {
    pub arms: Vec<CauseArm>,
}

impl View for ErrorImpl {
    type V = Seq<CauseArmModel>;

    open spec fn view(&self) -> Seq<CauseArmModel> {
        view_each(self.arms@)
    }
}

/// How a field of the given type holds a cause. An `Option` must have a `Box`
/// as its first type argument; a `Box` holds the cause; a type of any other
/// name is taken to be the cause itself. A type without a name cannot be a
/// cause.
pub open spec fn cause_shape(ty: ShapeModel) -> Result<CauseBinding, GenerationError> {
    match ty {
        ShapeModel::Unnamed => Err(GenerationError::InvalidCauseShape),
        ShapeModel::Named { name, args } => {
            if name == OPTION_TYPE@ {
                if args.len() > 0 && args[0] is Named && args[0]->name == BOX_TYPE@ {
                    Ok(CauseBinding::OptionalBoxed)
                } else {
                    Err(GenerationError::InvalidCauseShape)
                }
            } else if name == BOX_TYPE@ {
                Ok(CauseBinding::Boxed)
            } else {
                Ok(CauseBinding::Direct)
            }
        },
    }
}

/// Where a variant finds its cause: in the first of its fields that bears
/// the cause marker, by the shape of that field's type.
pub open spec fn cause_arm(variant: VariantModel) -> Result<CauseArmModel, GenerationError> {
    match first_index(variant.fields, |f: FieldModel| cause_marked(f)) {
        None => Ok(CauseArmModel { binding: CauseBinding::Absent, field: 0 }),
        Some(i) => match cause_shape(variant.fields[i].ty) {
            Err(e) => Err(e),
            Ok(binding) => Ok(CauseArmModel { binding, field: i as nat }),
        },
    }
}

/// The cause behaviour of a type; the failure of the first variant that
/// fails.
pub open spec fn error_impl(def: DefinitionModel) -> Result<Seq<CauseArmModel>, GenerationError> {
    try_each(def.variants, |v: VariantModel| cause_arm(v))
}

/// Classifies the type of a cause field.
pub fn classify_cause(ty: &TypeDescriptor) -> (binding: Result<CauseBinding, GenerationError>)
    ensures
        binding == cause_shape(ty@),
{
    match ty {
        TypeDescriptor::Unnamed => Err(GenerationError::InvalidCauseShape),
        TypeDescriptor::Named { name, args } => {
            if same_text(name.as_str(), OPTION_TYPE) {
                if args.len() == 0 {
                    return Err(GenerationError::InvalidCauseShape);
                }
                assert(ty@->args[0] == args@[0]@);
                match &args[0] {
                    TypeDescriptor::Named { name: inner, .. } => {
                        if same_text(inner.as_str(), BOX_TYPE) {
                            Ok(CauseBinding::OptionalBoxed)
                        } else {
                            Err(GenerationError::InvalidCauseShape)
                        }
                    },
                    TypeDescriptor::Unnamed => Err(GenerationError::InvalidCauseShape),
                }
            } else if same_text(name.as_str(), BOX_TYPE) {
                Ok(CauseBinding::Boxed)
            } else {
                Ok(CauseBinding::Direct)
            }
        },
    }
}

/// Finds the first field that bears the cause marker.
pub fn find_cause(fields: &Vec<Field>) -> (found: Option<usize>)
    ensures
        match found {
            Some(i) => first_index(view_each(fields@), |f: FieldModel| cause_marked(f)) == Some(
                i as int,
            ),
            None => first_index(view_each(fields@), |f: FieldModel| cause_marked(f)) is None,
        },
{
    let ghost all = view_each(fields@);
    let ghost marked = |f: FieldModel| cause_marked(f);
    let mut i: usize = 0;
    while i < fields.len()
        invariant
            i <= fields.len(),
            all == view_each(fields@),
            marked == |f: FieldModel| cause_marked(f),
            forall|j: int| 0 <= j < i ==> !marked(#[trigger] all[j]),
        decreases fields.len() - i,
    {
        if is_cause(&fields[i]) {
            proof {
                lemma_first_index_found(all, marked, i as int);
            }
            return Some(i);
        }
        i += 1;
    }
    proof {
        lemma_first_index_none(all, marked);
    }
    None
}

/// Works out where `variant` finds its cause.
pub fn resolve_cause(variant: &Variant) -> (arm: Result<CauseArm, GenerationError>)
    ensures
        outcome(arm) == cause_arm(variant@),
{
    match find_cause(&variant.fields) {
        None => Ok(CauseArm { binding: CauseBinding::Absent, field: 0 }),
        Some(i) => match classify_cause(&variant.fields[i].ty) {
            Err(e) => Err(e),
            Ok(binding) => Ok(CauseArm { binding, field: i }),
        },
    }
}

/// Generates the cause behaviour of a type: where each of its variants
/// finds its cause.
pub fn generate_error_impl(def: &TypeDefinition) -> (generated: Result<ErrorImpl, GenerationError>)
    ensures
        outcome(generated) == error_impl(def@),
{
    let ghost variants = view_each(def.variants@);
    let ghost resolve = |v: VariantModel| cause_arm(v);
    let mut arms: Vec<CauseArm> = Vec::new();
    let mut i: usize = 0;
    while i < def.variants.len()
        invariant
            i <= def.variants.len(),
            variants == view_each(def.variants@),
            resolve == |v: VariantModel| cause_arm(v),
            arms.len() == i,
            forall|j: int| 0 <= j < i ==> resolve(#[trigger] variants[j]) == Ok::<CauseArmModel, GenerationError>(arms@[j]@),
        decreases def.variants.len() - i,
    {
        match resolve_cause(&def.variants[i]) {
            Ok(arm) => {
                arms.push(arm);
            },
            Err(e) => {
                proof {
                    lemma_try_each_fails(variants, resolve, i as int);
                }
                return Err(e);
            },
        }
        i += 1;
    }
    proof {
        lemma_try_each_succeeds(variants, resolve);
        assert(variants.map_values(|v: VariantModel| resolve(v)->Ok_0) =~= view_each(arms@));
    }
    Ok(ErrorImpl { arms })
}

} // verus!
