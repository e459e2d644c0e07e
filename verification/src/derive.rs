//! The two derivations: the behaviours of an error type, and the display
//! behaviour alone of a type that only names kinds of errors.

use vstd::prelude::*;
use crate::cause::{error_impl, generate_error_impl, CauseArmModel, ErrorImpl};
use crate::error::GenerationError;
use crate::message::{display_impl, generate_display_impl, outcome, DisplayImpl, RenderArmModel};
use crate::schema::{DefinitionModel, TypeDefinition};

verus! {

/// What was generated for a type: how its values are rendered and, for an
/// error type, where they find their cause.
#[derive(Debug, Clone, PartialEq, Eq)]
pub struct Behaviour {
    pub display: DisplayImpl,
    /// `None` for a type that was given the display behaviour alone.
    pub error: Option<ErrorImpl>,
}

/// What a [`Behaviour`] is to the contracts.
pub ghost struct BehaviourModel {
    pub display: Seq<RenderArmModel>,
    pub error: Option<Seq<CauseArmModel>>,
}

impl View for Behaviour {
    type V = BehaviourModel;

    open spec fn view(&self) -> BehaviourModel {
        BehaviourModel {
            display: self.display@,
            error: match self.error {
                Some(error) => Some(error@),
                None => None,
            },
        }
    }
}

/// The behaviours of an error type: its display behaviour and its cause
/// behaviour. A failure of the display behaviour comes before one of the
/// cause behaviour.
pub open spec fn error_behaviour(def: DefinitionModel) -> Result<BehaviourModel, GenerationError> {
    match display_impl(def) {
        Err(e) => Err(e),
        Ok(display) => match error_impl(def) {
            Err(e) => Err(e),
            Ok(error) => Ok(BehaviourModel { display, error: Some(error) }),
        },
    }
}

/// The behaviour of a type of kinds: its display behaviour alone.
pub open spec fn kind_behaviour(def: DefinitionModel) -> Result<BehaviourModel, GenerationError> {
    match display_impl(def) {
        Err(e) => Err(e),
        Ok(display) => Ok(BehaviourModel { display, error: None }),
    }
}

/// Generates the display and the cause behaviour of an error type.
pub fn error_derive(def: &TypeDefinition) -> (generated: Result<Behaviour, GenerationError>)
    ensures
        outcome(generated) == error_behaviour(def@),
{
    let display = match generate_display_impl(def) {
        Ok(display) => display,
        Err(e) => {
            return Err(e);
        },
    };
    let error = match generate_error_impl(def) {
        Ok(error) => error,
        Err(e) => {
            return Err(e);
        },
    };
    Ok(Behaviour { display, error: Some(error) })
}

/// Generates the display behaviour of a type of kinds.
pub fn error_kind_derive(def: &TypeDefinition) -> (generated: Result<Behaviour, GenerationError>)
    ensures
        outcome(generated) == kind_behaviour(def@),
{
    match generate_display_impl(def) {
        Ok(display) => Ok(Behaviour { display, error: None }),
        Err(e) => Err(e),
    }
}

} // verus!
