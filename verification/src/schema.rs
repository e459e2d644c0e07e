//! The description of a type that behaviours are generated for.

use vstd::prelude::*;

verus! {

/// One entry of the parenthesised list that an annotation carries.
#[derive(Debug, PartialEq, Eq)]
pub enum MetaEntry {
    /// A bare identifier, as in `(kind)`.
    Word(String),
    /// A name with a text value, as in `(msg = "text")`.
    NameValue(String, String),
    /// An integer literal, as in `(0)`.
    Integer(u64),
    /// Anything else: a literal of another kind, a nested list, a name whose
    /// value is not text.
    Other,
}

/// What a [`MetaEntry`] is to the contracts.
pub ghost enum EntryModel {
    Word(Seq<char>),
    NameValue(Seq<char>, Seq<char>),
    Integer(nat),
    Other,
}

impl View for MetaEntry {
    type V = EntryModel;

    open spec fn view(&self) -> EntryModel {
        match self {
            MetaEntry::Word(id) => EntryModel::Word(id@),
            MetaEntry::NameValue(name, text) => EntryModel::NameValue(name@, text@),
            MetaEntry::Integer(n) => EntryModel::Integer(*n as nat),
            MetaEntry::Other => EntryModel::Other,
        }
    }
}

/// An annotation attached to a type, a variant or a field: `#[name]`,
/// `#[name = ..]` or `#[name(..)]`.
#[derive(Debug, PartialEq, Eq)]
pub struct Annotation {
    pub name: String,
    /// The entries between the parentheses; `None` where the annotation has no
    /// parenthesised list.
    pub entries: Option<Vec<MetaEntry>>,
}

/// What an [`Annotation`] is to the contracts.
pub ghost struct AnnotationModel {
    pub name: Seq<char>,
    pub entries: Option<Seq<EntryModel>>,
}

impl View for Annotation {
    type V = AnnotationModel;

    open spec fn view(&self) -> AnnotationModel {
        AnnotationModel {
            name: self.name@,
            entries: match self.entries {
                Some(list) => Some(view_each(list@)),
                None => None,
            },
        }
    }
}

/// The declared type of a field, as far as generation looks at it.
#[derive(Debug, PartialEq, Eq)]
pub enum TypeDescriptor {
    /// A type written as a path: the name of its outer constructor (the last
    /// segment of the path) and that constructor's generic type arguments.
    Named { name: String, args: Vec<TypeDescriptor> },
    /// Any other type: a reference, a tuple, an array and so on.
    Unnamed,
}

/// What a [`TypeDescriptor`] is to the contracts.
pub ghost enum ShapeModel {
    Named { name: Seq<char>, args: Seq<ShapeModel> },
    Unnamed,
}

impl View for TypeDescriptor {
    type V = ShapeModel;

    open spec fn view(&self) -> ShapeModel
        decreases self,
    {
        match self {
            TypeDescriptor::Named { name, args } => ShapeModel::Named {
                name: name@,
                args: Seq::new(
                    args@.len(),
                    |i: int|
                        if 0 <= i < args@.len() {
                            args@[i].view()
                        } else {
                            ShapeModel::Unnamed
                        },
                ),
            },
            TypeDescriptor::Unnamed => ShapeModel::Unnamed,
        }
    }
}

/// A field of a variant.
#[derive(Debug, PartialEq, Eq)]
pub struct Field {
    /// The declared name; `None` for a positional field.
    pub name: Option<String>,
    pub ty: TypeDescriptor,
    pub annotations: Vec<Annotation>,
}

/// What a [`Field`] is to the contracts.
pub ghost struct FieldModel {
    pub name: Option<Seq<char>>,
    pub ty: ShapeModel,
    pub annotations: Seq<AnnotationModel>,
}

impl View for Field {
    type V = FieldModel;

    open spec fn view(&self) -> FieldModel {
        FieldModel {
            name: match self.name {
                Some(name) => Some(name@),
                None => None,
            },
            ty: self.ty@,
            annotations: view_each(self.annotations@),
        }
    }
}

/// One case of an enum, or the single case that a struct is.
#[derive(Debug, PartialEq, Eq)]
pub struct Variant {
    pub name: String,
    pub annotations: Vec<Annotation>,
    /// The fields in declaration order.
    pub fields: Vec<Field>,
}

/// What a [`Variant`] is to the contracts.
pub ghost struct VariantModel {
    pub name: Seq<char>,
    pub annotations: Seq<AnnotationModel>,
    pub fields: Seq<FieldModel>,
}

impl View for Variant {
    type V = VariantModel;

    open spec fn view(&self) -> VariantModel {
        VariantModel {
            name: self.name@,
            annotations: view_each(self.annotations@),
            fields: view_each(self.fields@),
        }
    }
}

/// A struct or an enum. A struct has exactly one variant, which bears the
/// struct's own name and annotations.
#[derive(Debug, PartialEq, Eq)]
pub struct TypeDefinition {
    pub name: String,
    /// The variants in declaration order.
    pub variants: Vec<Variant>,
}

/// What a [`TypeDefinition`] is to the contracts.
pub ghost struct DefinitionModel {
    pub name: Seq<char>,
    pub variants: Seq<VariantModel>,
}

impl View for TypeDefinition {
    type V = DefinitionModel;

    open spec fn view(&self) -> DefinitionModel {
        DefinitionModel { name: self.name@, variants: view_each(self.variants@) }
    }
}

/// The views of the items of a sequence, in the same order.
pub open spec fn view_each<T: View>(items: Seq<T>) -> Seq<T::V> {
    Seq::new(items.len(), |i: int| items[i]@)
}

} // verus!
