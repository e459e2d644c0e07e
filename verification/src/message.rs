//! Resolving the arguments of a message template against the fields of a
//! variant, and the display behaviour of a whole type.

use vstd::prelude::*;
use crate::annotation::{display_annotation, parse_display, DisplayAnnotation, MessageModel};
use crate::error::GenerationError;
use crate::schema::{
    view_each, DefinitionModel, EntryModel, Field, FieldModel, MetaEntry, TypeDefinition, Variant,
    VariantModel,
};
use crate::sequence::{
    first_index, lemma_first_index_found, lemma_first_index_none, lemma_try_each_fails,
    lemma_try_each_succeeds, try_each,
};
use crate::text::{characters, same_text};

verus! {

/// What a template argument refers to.
pub ghost enum ArgumentRef {
    /// The field at this position, counted from zero in declaration order.
    Position(nat),
    /// The field with this declared name.
    Name(Seq<char>),
}

/// Whether `c` is one of the ten decimal digits.
pub open spec fn is_digit(c: char) -> bool {
    '0' <= c <= '9'
}

/// The number that a sequence of decimal digits denotes.
pub open spec fn decimal_value(digits: Seq<char>) -> nat
    decreases digits.len(),
{
    if digits.len() == 0 {
        0
    } else {
        (10 * decimal_value(digits.drop_last()) + (digits.last() as int - '0' as int)) as nat
    }
}

/// Whether an identifier has the form `_<digits>`, with at least one digit.
pub open spec fn is_positional_alias(id: Seq<char>) -> bool {
    &&& id.len() >= 2
    &&& id[0] == '_'
    &&& forall|i: int| 1 <= i < id.len() ==> is_digit(#[trigger] id[i])
}

/// What an entry of the marker's list refers to as a template argument: an
/// integer is a position, an identifier `_<digits>` is the position that the
/// digits denote, any other identifier is a field name. Nothing else is an
/// argument.
pub open spec fn argument_ref(entry: EntryModel) -> Option<ArgumentRef> {
    match entry {
        EntryModel::Integer(n) => Some(ArgumentRef::Position(n)),
        EntryModel::Word(id) => if is_positional_alias(id) {
            Some(ArgumentRef::Position(decimal_value(id.skip(1))))
        } else {
            Some(ArgumentRef::Name(id))
        },
        _ => None,
    }
}

/// The index of the field that a reference resolves to: the position itself
/// where the variant has that many fields, or the first field that bears the
/// name.
pub open spec fn resolve(reference: ArgumentRef, fields: Seq<FieldModel>) -> Option<nat> {
    match reference {
        ArgumentRef::Position(n) => if n < fields.len() {
            Some(n)
        } else {
            None
        },
        ArgumentRef::Name(id) => match first_index(fields, |f: FieldModel| f.name == Some(id)) {
            Some(i) => Some(i as nat),
            None => None,
        },
    }
}

/// The index of the field that a template argument stands for.
pub open spec fn resolved_argument(entry: EntryModel, fields: Seq<FieldModel>) -> Result<
    nat,
    GenerationError,
> {
    match argument_ref(entry) {
        None => Err(GenerationError::InvalidAnnotationArgument),
        Some(reference) => match resolve(reference, fields) {
            Some(i) => Ok(i),
            None => Err(GenerationError::UnresolvedFieldReference),
        },
    }
}

/// The indices of the fields that the template arguments stand for, in the
/// order of the arguments; the failure of the first argument that fails.
pub open spec fn resolved_arguments(entries: Seq<EntryModel>, fields: Seq<FieldModel>) -> Result<
    Seq<nat>,
    GenerationError,
> {
    try_each(entries, |e: EntryModel| resolved_argument(e, fields))
}

/// How one variant is rendered.
#[derive(Debug, Clone, PartialEq, Eq)]
pub enum RenderArm {
    /// The variant has no message: it renders as this text, its own name,
    /// letter for letter.
    Name(String),
    /// The variant renders as the template with each placeholder replaced
    /// by the rendering of the field at the index given for it.
    Template { template: String, args: Vec<usize> },
}

/// What a [`RenderArm`] is to the contracts.
pub ghost enum RenderArmModel {
    Name(Seq<char>),
    Template { template: Seq<char>, args: Seq<nat> },
}

impl View for RenderArm {
    type V = RenderArmModel;

    open spec fn view(&self) -> RenderArmModel {
        match self {
            RenderArm::Name(name) => RenderArmModel::Name(name@),
            RenderArm::Template { template, args } => RenderArmModel::Template {
                template: template@,
                args: indices(args@),
            },
        }
    }
}

/// The numbers that a sequence of machine integers holds.
pub open spec fn indices(items: Seq<usize>) -> Seq<nat> {
    items.map_values(|i: usize| i as nat)
}

/// The display behaviour of a type: one arm for each variant, in order.
#[derive(Debug, Clone, PartialEq, Eq)]
pub struct DisplayImpl {
    pub arms: Vec<RenderArm>,
}

impl View for DisplayImpl {
    type V = Seq<RenderArmModel>;

    open spec fn view(&self) -> Seq<RenderArmModel> {
        view_each(self.arms@)
    }
}

/// How a variant is rendered: by its name where it has no message, else by
/// the template of its message with the arguments resolved.
pub open spec fn render_arm(variant: VariantModel) -> Result<RenderArmModel, GenerationError> {
    match display_annotation(variant.annotations) {
        Err(e) => Err(e),
        Ok(None) => Ok(RenderArmModel::Name(variant.name)),
        Ok(Some(message)) => match resolved_arguments(message.args, variant.fields) {
            Err(e) => Err(e),
            Ok(args) => Ok(RenderArmModel::Template { template: message.template, args }),
        },
    }
}

/// The display behaviour of a type; the failure of the first variant that
/// fails.
pub open spec fn display_impl(def: DefinitionModel) -> Result<Seq<RenderArmModel>, GenerationError> {
    try_each(def.variants, |v: VariantModel| render_arm(v))
}

/// The view of a fallible result whose success has a view.
pub open spec fn outcome<T: View>(result: Result<T, GenerationError>) -> Result<
    T::V,
    GenerationError,
> {
    match result {
        Ok(value) => Ok(value@),
        Err(e) => Err(e),
    }
}

/// The view of a fallible index.
pub open spec fn index_outcome(result: Result<usize, GenerationError>) -> Result<
    nat,
    GenerationError,
> {
    match result {
        Ok(i) => Ok(i as nat),
        Err(e) => Err(e),
    }
}

/// The view of a fallible list of indices.
pub open spec fn indices_outcome(result: Result<Vec<usize>, GenerationError>) -> Result<
    Seq<nat>,
    GenerationError,
> {
    match result {
        Ok(list) => Ok(indices(list@)),
        Err(e) => Err(e),
    }
}

/// The value of a decimal digit.
fn digit_value(c: char) -> (value: Option<u8>)
    ensures
        value is Some == is_digit(c),
        value matches Some(d) ==> d == c as int - '0' as int,
{
    match c {
        '0' => Some(0),
        '1' => Some(1),
        '2' => Some(2),
        '3' => Some(3),
        '4' => Some(4),
        '5' => Some(5),
        '6' => Some(6),
        '7' => Some(7),
        '8' => Some(8),
        '9' => Some(9),
        _ => None,
    }
}

/// The number that digits denote grows with every digit that is added.
proof fn lemma_decimal_prefix(digits: Seq<char>, k: int)
    requires
        0 <= k <= digits.len(),
        forall|i: int| 0 <= i < digits.len() ==> is_digit(#[trigger] digits[i]),
    ensures
        decimal_value(digits.take(k)) <= decimal_value(digits),
    decreases digits.len() - k,
{
    if k == digits.len() {
        assert(digits.take(k) == digits);
    } else {
        assert(digits.take(k + 1).drop_last() == digits.take(k));
        lemma_decimal_prefix(digits, k + 1);
    }
}

/// Whether `id` has the form `_<digits>`.
fn is_alias(id: &Vec<char>) -> (alias: bool)
    ensures
        alias == is_positional_alias(id@),
{
    if id.len() < 2 || id[0] != '_' {
        return false;
    }
    let mut i: usize = 1;
    while i < id.len()
        invariant
            1 <= i <= id.len(),
            forall|j: int| 1 <= j < i ==> is_digit(#[trigger] id@[j]),
        decreases id.len() - i,
    {
        if digit_value(id[i]).is_none() {
            return false;
        }
        i += 1;
    }
    true
}

/// The position that the digits of `id` denote, where it is below `limit`.
fn alias_position(id: &Vec<char>, limit: usize) -> (position: Option<usize>)
    requires
        is_positional_alias(id@),
    ensures
        position == if decimal_value(id@.skip(1)) < limit {
            Some(decimal_value(id@.skip(1)) as usize)
        } else {
            None
        },
{
    if limit == 0 {
        return None;
    }
    let ghost digits = id@.skip(1);
    let mut value: usize = 0;
    let mut i: usize = 1;
    while i < id.len()
        invariant
            1 <= i <= id.len(),
            is_positional_alias(id@),
            digits == id@.skip(1),
            value == decimal_value(digits.take(i - 1)),
            value < limit,
        decreases id.len() - i,
    {
        let digit: u8 = match digit_value(id[i]) {
            Some(d) => d,
            None => {
                return None;
            },
        };
        let next: u128 = value as u128 * 10 + digit as u128;
        proof {
            assert(digits.take(i as int).drop_last() == digits.take(i - 1));
            assert(forall|j: int| 0 <= j < digits.len() ==> is_digit(#[trigger] digits[j]));
            lemma_decimal_prefix(digits, i as int);
        }
        if next >= limit as u128 {
            return None;
        }
        value = next as usize;
        i += 1;
    }
    assert(digits.take(i - 1) == digits);
    Some(value)
}

/// Finds the first field that is declared under `name`.
pub fn find_field(fields: &Vec<Field>, name: &str) -> (found: Option<usize>)
    ensures
        match found {
            Some(i) => first_index(view_each(fields@), |f: FieldModel| f.name == Some(name@))
                == Some(i as int),
            None => first_index(view_each(fields@), |f: FieldModel| f.name == Some(name@)) is None,
        },
{
    let ghost all = view_each(fields@);
    let ghost named = |f: FieldModel| f.name == Some(name@);
    let mut i: usize = 0;
    while i < fields.len()
        invariant
            i <= fields.len(),
            all == view_each(fields@),
            named == |f: FieldModel| f.name == Some(name@),
            forall|j: int| 0 <= j < i ==> !named(#[trigger] all[j]),
        decreases fields.len() - i,
    {
        let hit = match &fields[i].name {
            Some(declared) => same_text(declared.as_str(), name),
            None => false,
        };
        if hit {
            proof {
                lemma_first_index_found(all, named, i as int);
            }
            return Some(i);
        }
        i += 1;
    }
    proof {
        lemma_first_index_none(all, named);
    }
    None
}

/// Resolves one template argument to the index of the field it stands for.
pub fn resolve_argument(entry: &MetaEntry, fields: &Vec<Field>) -> (resolved: Result<
    usize,
    GenerationError,
>)
    ensures
        index_outcome(resolved) == resolved_argument(entry@, view_each(fields@)),
{
    match entry {
        MetaEntry::Integer(n) => {
            if *n < fields.len() as u64 {
                Ok(*n as usize)
            } else {
                Err(GenerationError::UnresolvedFieldReference)
            }
        },
        MetaEntry::Word(id) => {
            let letters = characters(id.as_str());
            if is_alias(&letters) {
                match alias_position(&letters, fields.len()) {
                    Some(position) => Ok(position),
                    None => Err(GenerationError::UnresolvedFieldReference),
                }
            } else {
                match find_field(fields, id.as_str()) {
                    Some(i) => Ok(i),
                    None => Err(GenerationError::UnresolvedFieldReference),
                }
            }
        },
        _ => Err(GenerationError::InvalidAnnotationArgument),
    }
}

/// Resolves the template arguments, in order, to the indices of the fields
/// they stand for.
pub fn resolve_arguments(args: &[MetaEntry], fields: &Vec<Field>) -> (resolved: Result<
    Vec<usize>,
    GenerationError,
>)
    ensures
        indices_outcome(resolved) == resolved_arguments(view_each(args@), view_each(fields@)),
{
    let ghost entries = view_each(args@);
    let ghost targets = view_each(fields@);
    let ghost resolver = |e: EntryModel| resolved_argument(e, targets);
    let mut found: Vec<usize> = Vec::new();
    let mut i: usize = 0;
    while i < args.len()
        invariant
            i <= args.len(),
            entries == view_each(args@),
            targets == view_each(fields@),
            resolver == |e: EntryModel| resolved_argument(e, targets),
            found.len() == i,
            forall|j: int| 0 <= j < i ==> resolver(#[trigger] entries[j]) == Ok::<nat, GenerationError>(found@[j] as nat),
        decreases args.len() - i,
    {
        match resolve_argument(&args[i], fields) {
            Ok(index) => {
                found.push(index);
            },
            Err(e) => {
                proof {
                    lemma_try_each_fails(entries, resolver, i as int);
                }
                return Err(e);
            },
        }
        i += 1;
    }
    proof {
        lemma_try_each_succeeds(entries, resolver);
        assert(entries.map_values(|e: EntryModel| resolver(e)->Ok_0) =~= indices(found@));
    }
    Ok(found)
}

/// Works out how `variant` is rendered.
pub fn compile_message(variant: &Variant) -> (arm: Result<RenderArm, GenerationError>)
    ensures
        outcome(arm) == render_arm(variant@),
{
    match parse_display(&variant.annotations) {
        Err(e) => Err(e),
        Ok(None) => Ok(RenderArm::Name(variant.name.clone())),
        Ok(Some(message)) => match resolve_arguments(message.args, &variant.fields) {
            Err(e) => Err(e),
            Ok(args) => Ok(RenderArm::Template { template: message.template.to_owned(), args }),
        },
    }
}

/// Generates the display behaviour of a type: how each of its variants is
/// rendered.
pub fn generate_display_impl(def: &TypeDefinition) -> (generated: Result<DisplayImpl, GenerationError>)
    ensures
        outcome(generated) == display_impl(def@),
{
    let ghost variants = view_each(def.variants@);
    let ghost compile = |v: VariantModel| render_arm(v);
    let mut arms: Vec<RenderArm> = Vec::new();
    let mut i: usize = 0;
    while i < def.variants.len()
        invariant
            i <= def.variants.len(),
            variants == view_each(def.variants@),
            compile == |v: VariantModel| render_arm(v),
            arms.len() == i,
            forall|j: int| 0 <= j < i ==> compile(#[trigger] variants[j]) == Ok::<RenderArmModel, GenerationError>(arms@[j]@),
        decreases def.variants.len() - i,
    {
        match compile_message(&def.variants[i]) {
            Ok(arm) => {
                arms.push(arm);
            },
            Err(e) => {
                proof {
                    lemma_try_each_fails(variants, compile, i as int);
                }
                return Err(e);
            },
        }
        i += 1;
    }
    proof {
        lemma_try_each_succeeds(variants, compile);
        assert(variants.map_values(|v: VariantModel| compile(v)->Ok_0) =~= view_each(arms@));
    }
    Ok(DisplayImpl { arms })
}

} // verus!
