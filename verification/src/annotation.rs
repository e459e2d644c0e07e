//! Reading the display marker of a variant and the cause marker of a field.

use vstd::prelude::*;
use crate::error::GenerationError;
use crate::schema::{Annotation, AnnotationModel, EntryModel, Field, FieldModel, MetaEntry, view_each};
use crate::text::same_text;

verus! {

/// The name of the marker that carries a variant's message.
pub const DISPLAY_ATTR: &'static str = "display";

/// The key of the message text inside the display marker.
pub const DISPLAY_MSG: &'static str = "msg";

/// The name of the marker on the field that holds the cause.
pub const CAUSE_ATTR: &'static str = "cause";

/// The message of a variant: the template and the entries that follow it.
pub struct DisplayAnnotation<'a> {
    pub template: &'a str,
    pub args: &'a [MetaEntry],
}

/// What a [`DisplayAnnotation`] is to the contracts.
pub ghost struct MessageModel {
    pub template: Seq<char>,
    pub args: Seq<EntryModel>,
}

impl<'a> View for DisplayAnnotation<'a> {
    type V = MessageModel;

    open spec fn view(&self) -> MessageModel {
        MessageModel { template: self.template@, args: view_each(self.args@) }
    }
}

/// The annotations that are display markers, in order.
pub open spec fn display_markers(annotations: Seq<AnnotationModel>) -> Seq<AnnotationModel> {
    annotations.filter(|a: AnnotationModel| a.name == DISPLAY_ATTR@)
}

/// The list of the one display marker: nothing where there is no marker, a
/// failure where there are several or where the one has no list.
pub open spec fn error_msg(annotations: Seq<AnnotationModel>) -> Result<
    Option<Seq<EntryModel>>,
    GenerationError,
> {
    let markers = display_markers(annotations);
    if markers.len() == 0 {
        Ok(None)
    } else if markers.len() > 1 {
        Err(GenerationError::DuplicateAnnotation)
    } else {
        match markers[0].entries {
            Some(list) => Ok(Some(list)),
            None => Err(GenerationError::MissingMessageKey),
        }
    }
}

/// The message that a marker's list holds: its first entry must be the pair
/// `msg = "text"` with a text that is not empty; the other entries are the
/// arguments.
pub open spec fn message_of(list: Seq<EntryModel>) -> Result<MessageModel, GenerationError> {
    if list.len() > 0 && list[0] is NameValue && list[0]->NameValue_0 == DISPLAY_MSG@ {
        if list[0]->NameValue_1.len() == 0 {
            Err(GenerationError::EmptyMessage)
        } else {
            Ok(MessageModel { template: list[0]->NameValue_1, args: list.skip(1) })
        }
    } else {
        Err(GenerationError::MissingMessageKey)
    }
}

/// The message that the annotations of a variant give it, if any.
pub open spec fn display_annotation(annotations: Seq<AnnotationModel>) -> Result<
    Option<MessageModel>,
    GenerationError,
> {
    match error_msg(annotations) {
        Err(e) => Err(e),
        Ok(None) => Ok(None),
        Ok(Some(list)) => match message_of(list) {
            Err(e) => Err(e),
            Ok(message) => Ok(Some(message)),
        },
    }
}

/// Whether a field bears the cause marker.
pub open spec fn cause_marked(field: FieldModel) -> bool {
    exists|i: int|
        0 <= i < field.annotations.len() && (#[trigger] field.annotations[i]).name == CAUSE_ATTR@
}

/// What the result of [`find_error_msg`] is to the contracts.
pub open spec fn found_entries(found: Result<Option<&Vec<MetaEntry>>, GenerationError>) -> Result<
    Option<Seq<EntryModel>>,
    GenerationError,
> {
    match found {
        Ok(Some(list)) => Ok(Some(view_each(list@))),
        Ok(None) => Ok(None),
        Err(e) => Err(e),
    }
}

/// What the result of [`parse_display`] is to the contracts.
pub open spec fn parsed_display(parsed: Result<Option<DisplayAnnotation>, GenerationError>) -> Result<
    Option<MessageModel>,
    GenerationError,
> {
    match parsed {
        Ok(Some(message)) => Ok(Some(message@)),
        Ok(None) => Ok(None),
        Err(e) => Err(e),
    }
}

proof fn lemma_markers_step(annotations: Seq<AnnotationModel>, i: int)
    requires
        0 <= i < annotations.len(),
    ensures
        display_markers(annotations.take(i + 1)) == if annotations[i].name == DISPLAY_ATTR@ {
            display_markers(annotations.take(i)).push(annotations[i])
        } else {
            display_markers(annotations.take(i))
        },
{
    reveal(Seq::filter);
    assert(annotations.take(i + 1).drop_last() =~= annotations.take(i));
}

proof fn lemma_markers_grow(annotations: Seq<AnnotationModel>, i: int)
    requires
        0 <= i <= annotations.len(),
    ensures
        display_markers(annotations.take(i)).len() <= display_markers(annotations).len(),
{
    assert(annotations.take(i) + annotations.skip(i) =~= annotations);
    Seq::filter_distributes_over_add(
        annotations.take(i),
        annotations.skip(i),
        |a: AnnotationModel| a.name == DISPLAY_ATTR@,
    );
}

/// Finds the list of the display marker among `attrs`.
pub fn find_error_msg<'a>(attrs: &'a Vec<Annotation>) -> (found: Result<
    Option<&'a Vec<MetaEntry>>,
    GenerationError,
>)
    ensures
        found_entries(found) == error_msg(view_each(attrs@)),
{
    let ghost all = view_each(attrs@);
    let mut marker: Option<usize> = None;
    let mut i: usize = 0;
    proof {
        reveal(Seq::filter);
    }
    while i < attrs.len()
        invariant
            i <= attrs.len(),
            all == view_each(attrs@),
            match marker {
                None => display_markers(all.take(i as int)).len() == 0,
                Some(k) => k < i && display_markers(all.take(i as int)) == seq![all[k as int]],
            },
        decreases attrs.len() - i,
    {
        proof {
            lemma_markers_step(all, i as int);
        }
        if same_text(attrs[i].name.as_str(), DISPLAY_ATTR) {
            if marker.is_some() {
                proof {
                    lemma_markers_grow(all, i + 1);
                }
                return Err(GenerationError::DuplicateAnnotation);
            }
            marker = Some(i);
        }
        i += 1;
    }
    assert(all.take(i as int) == all);
    match marker {
        None => Ok(None),
        Some(k) => match &attrs[k].entries {
            Some(list) => Ok(Some(list)),
            None => Err(GenerationError::MissingMessageKey),
        },
    }
}

/// Reads the message that the annotations of a variant give it.
pub fn parse_display<'a>(attrs: &'a Vec<Annotation>) -> (parsed: Result<
    Option<DisplayAnnotation<'a>>,
    GenerationError,
>)
    ensures
        parsed_display(parsed) == display_annotation(view_each(attrs@)),
{
    let list = match find_error_msg(attrs) {
        Err(e) => {
            return Err(e);
        },
        Ok(None) => {
            return Ok(None);
        },
        Ok(Some(list)) => list,
    };
    if list.len() == 0 {
        return Err(GenerationError::MissingMessageKey);
    }
    match &list[0] {
        MetaEntry::NameValue(key, text) => {
            if !same_text(key.as_str(), DISPLAY_MSG) {
                return Err(GenerationError::MissingMessageKey);
            }
            if text.as_str().is_empty() {
                return Err(GenerationError::EmptyMessage);
            }
            let args = vstd::slice::slice_subrange(list.as_slice(), 1, list.len());
            assert(view_each(args@) == view_each(list@).skip(1));
            Ok(Some(DisplayAnnotation { template: text.as_str(), args }))
        },
        _ => Err(GenerationError::MissingMessageKey),
    }
}

/// Whether `field` bears the cause marker.
pub fn is_cause(field: &Field) -> (marked: bool)
    ensures
        marked == cause_marked(field@),
{
    let mut i: usize = 0;
    while i < field.annotations.len()
        invariant
            i <= field.annotations.len(),
            forall|j: int| 0 <= j < i ==> (#[trigger] field@.annotations[j]).name != CAUSE_ATTR@,
        decreases field.annotations.len() - i,
    {
        if same_text(field.annotations[i].name.as_str(), CAUSE_ATTR) {
            assert(field@.annotations[i as int].name == CAUSE_ATTR@);
            return true;
        }
        i += 1;
    }
    false
}

} // verus!
