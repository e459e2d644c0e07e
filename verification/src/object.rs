//! Values that carry generated behaviours: how they are rendered, and where
//! they find their cause.

use vstd::prelude::*;
use vstd::string::StringExecFns;
use crate::cause::{CauseArm, CauseArmModel, CauseBinding};
use crate::derive::{Behaviour, BehaviourModel};
use crate::error::FormatFailure;
use crate::template::{fill, substitute, texts};
use crate::message::{indices, RenderArm, RenderArmModel};

verus! {

/// What a value renders as when none of the generated arms is for its
/// variant.
pub const UNKNOWN_ERROR: &'static str = "There was an unknown error.";

/// What every value answers when asked to describe itself.
pub const DESCRIPTION: &'static str =
    "For a description please use the Display trait implementation of this Error";

/// A value that can be rendered and asked for its cause.
#[derive(Debug, PartialEq, Eq)]
pub enum Object {
    /// A value from elsewhere, such as a string, a number or a foreign
    /// error. It renders as the text given, and has no cause.
    Text(String),
    /// A value of a type that behaviours were generated for: which of the
    /// type's variants it is, counted from zero, and the values of the
    /// variant's fields in declaration order.
    Instance { behaviour: Behaviour, variant: usize, fields: Vec<FieldValue> },
}

/// The value of a field, and how the field holds it.
#[derive(Debug, PartialEq, Eq)]
pub enum FieldValue {
    /// The field is the value itself.
    Plain(Object),
    /// The field is a box that holds the value.
    Boxed(Box<Object>),
    /// The field may hold a boxed value.
    OptionalBoxed(Option<Box<Object>>),
}

/// What an [`Object`] is to the contracts.
pub ghost enum ObjectModel {
    Text(Seq<char>),
    Instance { behaviour: BehaviourModel, variant: nat, fields: Seq<SlotModel> },
}

/// What a [`FieldValue`] is to the contracts.
pub ghost enum SlotModel {
    Plain(ObjectModel),
    Boxed(ObjectModel),
    OptionalBoxed(Option<ObjectModel>),
}

/// The model of a value.
pub open spec fn object_model(object: Object) -> ObjectModel
    decreases object,
{
    match object {
        Object::Text(text) => ObjectModel::Text(text@),
        Object::Instance { behaviour, variant, fields } => ObjectModel::Instance {
            behaviour: behaviour@,
            variant: variant as nat,
            fields: slot_models(fields@),
        },
    }
}

/// The models of the values of the fields, in order.
pub open spec fn slot_models(values: Seq<FieldValue>) -> Seq<SlotModel>
    decreases values,
{
    Seq::new(
        values.len(),
        |i: int|
            if 0 <= i < values.len() {
                slot_model(values[i])
            } else {
                SlotModel::OptionalBoxed(None)
            },
    )
}

/// The model of a field's value.
pub open spec fn slot_model(value: FieldValue) -> SlotModel
    decreases value,
{
    match value {
        FieldValue::Plain(object) => SlotModel::Plain(object_model(object)),
        FieldValue::Boxed(held) => SlotModel::Boxed(object_model(*held)),
        FieldValue::OptionalBoxed(Some(held)) => SlotModel::OptionalBoxed(
            Some(object_model(*held)),
        ),
        FieldValue::OptionalBoxed(None) => SlotModel::OptionalBoxed(None),
    }
}

impl View for Object {
    type V = ObjectModel;

    open spec fn view(&self) -> ObjectModel {
        object_model(*self)
    }
}

impl View for FieldValue {
    type V = SlotModel;

    open spec fn view(&self) -> SlotModel {
        slot_model(*self)
    }
}

/// What a value renders as; nothing where rendering fails.
///
/// A text renders as itself. An instance renders by the arm of its variant:
/// as the variant's name, or as the template with the renderings of the
/// argument fields in the place of its placeholders. An instance of a
/// variant that has no arm renders as [`UNKNOWN_ERROR`].
pub open spec fn rendering(object: ObjectModel) -> Option<Seq<char>>
    decreases object,
{
    match object {
        ObjectModel::Text(text) => Some(text),
        ObjectModel::Instance { behaviour, variant, fields } => {
            if variant >= behaviour.display.len() {
                Some(UNKNOWN_ERROR@)
            } else {
                match behaviour.display[variant as int] {
                    RenderArmModel::Name(name) => Some(name),
                    RenderArmModel::Template { template, args } => {
                        match arguments(rendered_fields(fields), args) {
                            Some(values) => substitute(template, values),
                            None => None,
                        }
                    },
                }
            }
        },
    }
}

/// What each of the fields renders as.
pub open spec fn rendered_fields(fields: Seq<SlotModel>) -> Seq<Option<Seq<char>>>
    decreases fields,
{
    Seq::new(
        fields.len(),
        |i: int|
            if 0 <= i < fields.len() {
                slot_rendering(fields[i])
            } else {
                None
            },
    )
}

/// What the value of a field renders as: as the value does, whether the
/// field is the value or a box of it. A field that may be empty cannot be
/// rendered.
pub open spec fn slot_rendering(slot: SlotModel) -> Option<Seq<char>>
    decreases slot,
{
    match slot {
        SlotModel::Plain(object) => rendering(object),
        SlotModel::Boxed(object) => rendering(object),
        SlotModel::OptionalBoxed(_) => None,
    }
}

/// The renderings of the fields that the arguments stand for, in the order
/// of the arguments; nothing where an argument stands for no field or for
/// one that cannot be rendered.
pub open spec fn arguments(rendered: Seq<Option<Seq<char>>>, args: Seq<nat>) -> Option<
    Seq<Seq<char>>,
> {
    if forall|i: int|
        0 <= i < args.len() ==> (#[trigger] args[i]) < rendered.len() && rendered[args[i] as int]
            is Some {
        Some(Seq::new(args.len(), |i: int| rendered[args[i] as int]->0))
    } else {
        None
    }
}

/// The cause of a value: what the arm of its variant finds in the fields.
/// A text has no cause, nor has an instance without a cause behaviour or
/// of a variant that has no arm.
pub open spec fn cause_of(object: ObjectModel) -> Option<ObjectModel> {
    match object {
        ObjectModel::Text(_) => None,
        ObjectModel::Instance { behaviour, variant, fields } => match behaviour.error {
            None => None,
            Some(arms) => if variant < arms.len() {
                bound_cause(arms[variant as int], fields)
            } else {
                None
            },
        },
    }
}

/// What an arm finds in the fields: the field itself where the cause is
/// bound directly, what the box holds where it is boxed, what the box
/// holds, if there is one, where it is optional. Nothing where the arm
/// binds no cause, or where the field is missing or does not hold its value
/// the way the arm expects.
pub open spec fn bound_cause(arm: CauseArmModel, fields: Seq<SlotModel>) -> Option<ObjectModel> {
    if arm.field < fields.len() {
        match (arm.binding, fields[arm.field as int]) {
            (CauseBinding::Direct, SlotModel::Plain(object)) => Some(object),
            (CauseBinding::Boxed, SlotModel::Boxed(object)) => Some(object),
            (CauseBinding::OptionalBoxed, SlotModel::OptionalBoxed(held)) => held,
            _ => None,
        }
    } else {
        None
    }
}

/// The model of a value that may be absent.
pub open spec fn optional_model(object: Option<&Object>) -> Option<ObjectModel> {
    match object {
        Some(object) => Some(object@),
        None => None,
    }
}

impl FieldValue {
    /// Renders the value that the field holds.
    pub fn to_text(&self) -> (text: Result<String, FormatFailure>)
        ensures
            match text {
                Ok(text) => slot_rendering(self@) == Some(text@),
                Err(_) => slot_rendering(self@) is None,
            },
        decreases self,
    {
        match self {
            FieldValue::Plain(object) => object.to_text(),
            FieldValue::Boxed(held) => held.to_text(),
            FieldValue::OptionalBoxed(_) => Err(FormatFailure),
        }
    }
}

/// Renders the fields that `args` stand for, in the order of `args`.
fn render_arguments(fields: &Vec<FieldValue>, args: &Vec<usize>) -> (values: Result<
    Vec<String>,
    FormatFailure,
>)
    ensures
        match values {
            Ok(values) => arguments(rendered_fields(slot_models(fields@)), indices(args@)) == Some(
                texts(values@),
            ),
            Err(_) => arguments(rendered_fields(slot_models(fields@)), indices(args@)) is None,
        },
    decreases fields,
{
    let ghost rendered = rendered_fields(slot_models(fields@));
    let ghost chosen = indices(args@);
    let mut values: Vec<String> = Vec::new();
    let mut i: usize = 0;
    while i < args.len()
        invariant
            i <= args.len(),
            rendered == rendered_fields(slot_models(fields@)),
            chosen == indices(args@),
            values.len() == i,
            forall|j: int|
                0 <= j < i ==> (#[trigger] chosen[j]) < rendered.len() && rendered[chosen[j] as int]
                    == Some(values@[j]@),
        decreases args.len() - i,
    {
        let index: usize = args[i];
        if index >= fields.len() {
            return Err(FormatFailure);
        }
        match fields[index].to_text() {
            Ok(value) => {
                values.push(value);
            },
            Err(e) => {
                assert(rendered[chosen[i as int] as int] is None);
                return Err(e);
            },
        }
        i += 1;
    }
    Ok(values)
}

impl Object {
    /// Renders the value.
    pub fn to_text(&self) -> (text: Result<String, FormatFailure>)
        ensures
            match text {
                Ok(text) => rendering(self@) == Some(text@),
                Err(_) => rendering(self@) is None,
            },
        decreases self,
    {
        match self {
            Object::Text(text) => Ok(text.clone()),
            Object::Instance { behaviour, variant, fields } => {
                if *variant >= behaviour.display.arms.len() {
                    return Ok(String::from_str(UNKNOWN_ERROR));
                }
                match &behaviour.display.arms[*variant] {
                    RenderArm::Name(name) => Ok(name.clone()),
                    RenderArm::Template { template, args } => match render_arguments(fields, args) {
                        Ok(values) => fill(template.as_str(), &values),
                        Err(e) => Err(e),
                    },
                }
            },
        }
    }

    /// Writes the rendering of the value to the end of `sink`. Where
    /// rendering fails, `sink` is left as it was.
    pub fn render(&self, sink: &mut String) -> (done: Result<(), FormatFailure>)
        ensures
            match done {
                Ok(_) => rendering(self@) is Some && final(sink)@ == old(sink)@ + rendering(
                    self@,
                )->0,
                Err(_) => rendering(self@) is None && final(sink)@ == old(sink)@,
            },
    {
        match self.to_text() {
            Ok(text) => {
                sink.append(text.as_str());
                Ok(())
            },
            Err(e) => Err(e),
        }
    }

    /// The cause of the value, if it has one.
    pub fn cause(&self) -> (cause: Option<&Object>)
        ensures
            optional_model(cause) == cause_of(self@),
    {
        match self {
            Object::Text(_) => None,
            Object::Instance { behaviour, variant, fields } => {
                let arms = match &behaviour.error {
                    Some(error) => &error.arms,
                    None => {
                        return None;
                    },
                };
                if *variant >= arms.len() {
                    return None;
                }
                let arm = arms[*variant];
                if arm.field >= fields.len() {
                    return None;
                }
                                match (arm.binding, &fields[arm.field]) {
                    (CauseBinding::Direct, FieldValue::Plain(object)) => Some(object),
                    (CauseBinding::Boxed, FieldValue::Boxed(held)) => Some(&**held),
                    (CauseBinding::OptionalBoxed, FieldValue::OptionalBoxed(Some(held))) => Some(
                        &**held,
                    ),
                    _ => None,
                }
            },
        }
    }

    /// A fixed text that sends the reader to the rendering.
    pub fn description(&self) -> (text: &'static str)
        ensures
            text@ == DESCRIPTION@,
    {
        DESCRIPTION
    }
}

} // verus!
