//! What holds of every type definition and of every value of it: how the
//! generated behaviours render the value and where they find its cause.

use vstd::prelude::*;
use crate::annotation::{cause_marked, display_annotation, MessageModel};
use crate::cause::{cause_arm, cause_shape, CauseArmModel, CauseBinding};
use crate::derive::{error_behaviour, kind_behaviour, BehaviourModel};
use crate::error::GenerationError;
use crate::message::{
    argument_ref, render_arm, resolved_argument, resolved_arguments, ArgumentRef, RenderArmModel,
};
use crate::object::{arguments, cause_of, rendered_fields, rendering, ObjectModel, SlotModel};
use crate::schema::{DefinitionModel, EntryModel, FieldModel, VariantModel};
use crate::sequence::{
    first_index, lemma_first_index, lemma_first_index_none, lemma_try_each_results,
    lemma_try_each_succeeds,
};
use crate::template::{brace_free, lemma_substitute_plain, lemma_substitute_shortens, substitute};

verus! {

/// Whether `behaviour` is what one of the two derivations generates for
/// `def`.
pub open spec fn generated_for(def: DefinitionModel, behaviour: BehaviourModel) -> bool {
    error_behaviour(def) == Ok::<BehaviourModel, GenerationError>(behaviour)
        || kind_behaviour(def) == Ok::<BehaviourModel, GenerationError>(behaviour)
}

/// A generated behaviour has one display arm for each variant, and the arm
/// of a variant is what the variant's annotations and fields give.
pub proof fn lemma_generated_render_arm(def: DefinitionModel, behaviour: BehaviourModel, variant: nat)
    requires
        generated_for(def, behaviour),
        variant < def.variants.len(),
    ensures
        behaviour.display.len() == def.variants.len(),
        render_arm(def.variants[variant as int]) == Ok::<RenderArmModel, GenerationError>(
            behaviour.display[variant as int],
        ),
{
    lemma_try_each_results(def.variants, |v: VariantModel| render_arm(v));
}

/// The behaviour generated for an error type has one cause arm for each
/// variant, and the arm of a variant is what the variant's fields give.
pub proof fn lemma_generated_cause_arm(def: DefinitionModel, behaviour: BehaviourModel, variant: nat)
    requires
        error_behaviour(def) == Ok::<BehaviourModel, GenerationError>(behaviour),
        variant < def.variants.len(),
    ensures
        behaviour.error is Some,
        behaviour.error->0.len() == def.variants.len(),
        cause_arm(def.variants[variant as int]) == Ok::<CauseArmModel, GenerationError>(
            behaviour.error->0[variant as int],
        ),
{
    lemma_try_each_results(def.variants, |v: VariantModel| cause_arm(v));
}

/// Every argument of a generated template stands for a field that the
/// variant has.
pub proof fn law_generated_arguments_are_fields(
    def: DefinitionModel,
    behaviour: BehaviourModel,
    variant: nat,
    argument: int,
)
    requires
        generated_for(def, behaviour),
        variant < def.variants.len(),
        behaviour.display[variant as int] is Template,
        0 <= argument < behaviour.display[variant as int]->args.len(),
    ensures
        behaviour.display[variant as int]->args[argument] < def.variants[variant as int].fields.len(),
{
    let described = def.variants[variant as int];
    lemma_generated_render_arm(def, behaviour, variant);
    let message = display_annotation(described.annotations)->Ok_0->0;
    lemma_try_each_results(message.args, |e: EntryModel| resolved_argument(e, described.fields));
    match argument_ref(message.args[argument]) {
        Some(ArgumentRef::Name(id)) => {
            lemma_first_index(described.fields, |f: FieldModel| f.name == Some(id));
        },
        _ => {},
    }
}

/// The cause field of a generated arm that binds a cause is a field that
/// the variant has, and bears the cause marker.
pub proof fn law_generated_cause_is_a_marked_field(
    def: DefinitionModel,
    behaviour: BehaviourModel,
    variant: nat,
)
    requires
        error_behaviour(def) == Ok::<BehaviourModel, GenerationError>(behaviour),
        variant < def.variants.len(),
        behaviour.error->0[variant as int].binding != CauseBinding::Absent,
    ensures
        behaviour.error->0[variant as int].field < def.variants[variant as int].fields.len(),
        cause_marked(
            def.variants[variant as int].fields[behaviour.error->0[variant as int].field as int],
        ),
{
    lemma_generated_cause_arm(def, behaviour, variant);
    lemma_first_index(def.variants[variant as int].fields, |f: FieldModel| cause_marked(f));
}

/// A value of a variant that bears no display marker renders as the
/// variant's declared name, whatever its fields hold.
pub proof fn law_unmarked_variant_renders_its_name(
    def: DefinitionModel,
    behaviour: BehaviourModel,
    variant: nat,
    fields: Seq<SlotModel>,
)
    requires
        generated_for(def, behaviour),
        variant < def.variants.len(),
        display_annotation(def.variants[variant as int].annotations) == Ok::<
            Option<MessageModel>,
            GenerationError,
        >(None),
    ensures
        rendering(ObjectModel::Instance { behaviour, variant, fields }) == Some(
            def.variants[variant as int].name,
        ),
{
    lemma_generated_render_arm(def, behaviour, variant);
}

/// A value of a variant whose message has no arguments, and whose template
/// holds no brace, renders as the template, whatever its fields hold.
pub proof fn law_plain_message_renders_itself(
    def: DefinitionModel,
    behaviour: BehaviourModel,
    variant: nat,
    fields: Seq<SlotModel>,
)
    requires
        generated_for(def, behaviour),
        variant < def.variants.len(),
        display_annotation(def.variants[variant as int].annotations) matches Ok(Some(message))
            && message.args.len() == 0 && brace_free(message.template),
    ensures
        rendering(ObjectModel::Instance { behaviour, variant, fields }) == Some(
            display_annotation(def.variants[variant as int].annotations)->Ok_0->0.template,
        ),
{
    let described = def.variants[variant as int];
    let message = display_annotation(described.annotations)->Ok_0->0;
    lemma_generated_render_arm(def, behaviour, variant);
    lemma_try_each_succeeds(
        message.args,
        |e: EntryModel| resolved_argument(e, described.fields),
    );
    let args = resolved_arguments(message.args, described.fields)->Ok_0;
    assert(behaviour.display[variant as int] == RenderArmModel::Template {
        template: message.template,
        args,
    });
    assert(arguments(rendered_fields(fields), args) == Some(Seq::<Seq<char>>::empty())) by {
        assert(Seq::new(args.len(), |i: int| rendered_fields(fields)[args[i] as int]->0)
            =~= Seq::<Seq<char>>::empty());
    }
    lemma_substitute_plain(message.template);
}

/// A value of a variant whose message has no arguments renders as the
/// template only if the template holds no brace.
pub proof fn law_only_plain_messages_render_themselves(
    def: DefinitionModel,
    behaviour: BehaviourModel,
    variant: nat,
    fields: Seq<SlotModel>,
)
    requires
        generated_for(def, behaviour),
        variant < def.variants.len(),
        display_annotation(def.variants[variant as int].annotations) matches Ok(Some(message))
            && message.args.len() == 0,
        rendering(ObjectModel::Instance { behaviour, variant, fields }) == Some(
            display_annotation(def.variants[variant as int].annotations)->Ok_0->0.template,
        ),
    ensures
        brace_free(display_annotation(def.variants[variant as int].annotations)->Ok_0->0.template),
{
    let described = def.variants[variant as int];
    let message = display_annotation(described.annotations)->Ok_0->0;
    lemma_generated_render_arm(def, behaviour, variant);
    lemma_try_each_succeeds(
        message.args,
        |e: EntryModel| resolved_argument(e, described.fields),
    );
    let args = resolved_arguments(message.args, described.fields)->Ok_0;
    assert(arguments(rendered_fields(fields), args) == Some(Seq::<Seq<char>>::empty())) by {
        assert(Seq::new(args.len(), |i: int| rendered_fields(fields)[args[i] as int]->0)
            =~= Seq::<Seq<char>>::empty());
    }
    lemma_substitute_shortens(message.template);
}

/// A value of a variant with a message renders as the template of the
/// message, with the placeholders taking the renderings of the argument
/// fields in the order in which the arguments are written.
pub proof fn law_placeholders_take_arguments_in_order(
    def: DefinitionModel,
    behaviour: BehaviourModel,
    variant: nat,
    fields: Seq<SlotModel>,
)
    requires
        generated_for(def, behaviour),
        variant < def.variants.len(),
        display_annotation(def.variants[variant as int].annotations) matches Ok(Some(_)),
    ensures
        ({
            let described = def.variants[variant as int];
            let message = display_annotation(described.annotations)->Ok_0->0;
            let targets = resolved_arguments(message.args, described.fields);
            &&& targets is Ok
            &&& targets->Ok_0.len() == message.args.len()
            &&& forall|i: int|
                0 <= i < message.args.len() ==> resolved_argument(
                    #[trigger] message.args[i],
                    described.fields,
                ) == Ok::<nat, GenerationError>(targets->Ok_0[i])
            &&& rendering(ObjectModel::Instance { behaviour, variant, fields }) == match arguments(
                rendered_fields(fields),
                targets->Ok_0,
            ) {
                Some(values) => substitute(message.template, values),
                None => None,
            }
        }),
{
    let described = def.variants[variant as int];
    let message = display_annotation(described.annotations)->Ok_0->0;
    lemma_generated_render_arm(def, behaviour, variant);
    lemma_try_each_results(message.args, |e: EntryModel| resolved_argument(e, described.fields));
}

/// Where the first cause-marked field of a variant has a type that is
/// itself the cause, the cause of a value of that variant is the value of
/// that field.
pub proof fn law_direct_cause_is_the_field(
    def: DefinitionModel,
    behaviour: BehaviourModel,
    variant: nat,
    fields: Seq<SlotModel>,
    field: nat,
    held: ObjectModel,
)
    requires
        error_behaviour(def) == Ok::<BehaviourModel, GenerationError>(behaviour),
        variant < def.variants.len(),
        first_index(def.variants[variant as int].fields, |f: FieldModel| cause_marked(f)) == Some(
            field as int,
        ),
        cause_shape(def.variants[variant as int].fields[field as int].ty) == Ok::<
            CauseBinding,
            GenerationError,
        >(CauseBinding::Direct),
        field < fields.len(),
        fields[field as int] == SlotModel::Plain(held),
    ensures
        cause_of(ObjectModel::Instance { behaviour, variant, fields }) == Some(held),
{
    lemma_generated_cause_arm(def, behaviour, variant);
}

/// Where the first cause-marked field of a variant is a box, the cause of a
/// value of that variant is what the box holds.
pub proof fn law_boxed_cause_is_the_referent(
    def: DefinitionModel,
    behaviour: BehaviourModel,
    variant: nat,
    fields: Seq<SlotModel>,
    field: nat,
    held: ObjectModel,
)
    requires
        error_behaviour(def) == Ok::<BehaviourModel, GenerationError>(behaviour),
        variant < def.variants.len(),
        first_index(def.variants[variant as int].fields, |f: FieldModel| cause_marked(f)) == Some(
            field as int,
        ),
        cause_shape(def.variants[variant as int].fields[field as int].ty) == Ok::<
            CauseBinding,
            GenerationError,
        >(CauseBinding::Boxed),
        field < fields.len(),
        fields[field as int] == SlotModel::Boxed(held),
    ensures
        cause_of(ObjectModel::Instance { behaviour, variant, fields }) == Some(held),
{
    lemma_generated_cause_arm(def, behaviour, variant);
}

/// Where the first cause-marked field of a variant is an optional box, a
/// value of that variant has no cause while the field is empty, and else has
/// what the box holds as its cause.
pub proof fn law_optional_cause_is_the_referent_if_any(
    def: DefinitionModel,
    behaviour: BehaviourModel,
    variant: nat,
    fields: Seq<SlotModel>,
    field: nat,
    held: Option<ObjectModel>,
)
    requires
        error_behaviour(def) == Ok::<BehaviourModel, GenerationError>(behaviour),
        variant < def.variants.len(),
        first_index(def.variants[variant as int].fields, |f: FieldModel| cause_marked(f)) == Some(
            field as int,
        ),
        cause_shape(def.variants[variant as int].fields[field as int].ty) == Ok::<
            CauseBinding,
            GenerationError,
        >(CauseBinding::OptionalBoxed),
        field < fields.len(),
        fields[field as int] == SlotModel::OptionalBoxed(held),
    ensures
        cause_of(ObjectModel::Instance { behaviour, variant, fields }) == held,
{
    lemma_generated_cause_arm(def, behaviour, variant);
}

/// A value of a variant none of whose fields bears the cause marker has no
/// cause, whatever its fields hold.
pub proof fn law_unmarked_variant_has_no_cause(
    def: DefinitionModel,
    behaviour: BehaviourModel,
    variant: nat,
    fields: Seq<SlotModel>,
)
    requires
        generated_for(def, behaviour),
        variant < def.variants.len(),
        forall|i: int|
            0 <= i < def.variants[variant as int].fields.len() ==> !cause_marked(
                #[trigger] def.variants[variant as int].fields[i],
            ),
    ensures
        cause_of(ObjectModel::Instance { behaviour, variant, fields }) is None,
{
    if error_behaviour(def) == Ok::<BehaviourModel, GenerationError>(behaviour) {
        lemma_generated_cause_arm(def, behaviour, variant);
        lemma_first_index_none(
            def.variants[variant as int].fields,
            |f: FieldModel| cause_marked(f),
        );
    }
}

} // verus!
