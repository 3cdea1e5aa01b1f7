//! A loaded model: a sandbox instance together with its own arguments.

use crate::argument::{pairs_of, Argument};
use crate::context::{merged, ArgumentContext};
use crate::model_types::{Metadata, ModelError, Shape, Trap};
use vstd::prelude::*;

verus! {

/// A fatal condition while the host works with loaded models.
#[derive(Debug, PartialEq, Eq)]
pub enum HostError {
    /// No loaded model has the name that was asked for.
    ModelNotFound,
    /// The sandbox trapped while a model described itself.
    Metadata(Trap),
    /// The sandbox trapped while a model generated its shape.
    Generator(Trap),
}

impl HostError {
    /// What to tell the operator.
    pub fn message(&self) -> (text: String)
        ensures
            text@ == match self {
                HostError::ModelNotFound => "Unable to find a model with that name"@,
                HostError::Metadata(trap) => trap@,
                HostError::Generator(_) => "An error occurred while running the model generator"@,
            },
    {
        match self {
            HostError::ModelNotFound => "Unable to find a model with that name".to_owned(),
            HostError::Metadata(trap) => trap.message.clone(),
            HostError::Generator(_) => "An error occurred while running the model generator"
                .to_owned(),
        }
    }
}

/// What a run of a model's generator came to, when the sandbox did not trap.
#[derive(Debug, PartialEq, Eq)]
pub enum Generated {
    /// The model made a shape.
    Shape(Shape),
    /// The model declined, and says why.
    Declined(ModelError),
}

/// How the host reads the outcome of a model's `on_load` entry point.
pub open spec fn metadata_of(on_load: Result<Metadata, Trap>) -> Result<Metadata, HostError> {
    match on_load {
        Ok(metadata) => Ok(metadata),
        Err(trap) => Err(HostError::Metadata(trap)),
    }
}

/// How the host reads the outcome of a model's `generate` entry point.
pub open spec fn generated_of(outcome: Result<Result<Shape, ModelError>, Trap>) -> Result<
    Generated,
    HostError,
> {
    match outcome {
        Ok(Ok(shape)) => Ok(Generated::Shape(shape)),
        Ok(Err(error)) => Ok(Generated::Declined(error)),
        Err(trap) => Err(HostError::Generator(trap)),
    }
}

/// Reading metadata is repeatable as far as the host goes: it adds nothing
/// of its own to what `on_load` came to, so outcomes that are equal read as
/// results that are equal, and metadata is handed on as it came. Whether a
/// model's `on_load` comes to the same every time is the model's affair.
pub proof fn lemma_metadata_is_repeatable(first: Result<Metadata, Trap>, second: Result<Metadata, Trap>)
    requires
        first == second,
    ensures
        metadata_of(first) == metadata_of(second),
        first matches Ok(metadata) ==> metadata_of(second) == Ok::<Metadata, HostError>(metadata),
{
}

/// A shape that leaves the model with every face index in range reaches
/// the caller so: the host hands on the very shape that the model returned.
pub proof fn lemma_shape_reaches_caller_unchanged(shape: Shape)
    ensures
        generated_of(Ok(Ok(shape))) == Ok::<Generated, HostError>(Generated::Shape(shape)),
        shape@.well_formed() ==> (generated_of(Ok(Ok(shape))) matches Ok(Generated::Shape(s))
            && s@.well_formed()),
{
}

/// One loaded model. `I` is the sandbox's handle of the running instance;
/// the host stores it and hands it back, and never looks inside.
pub struct Model<I> {
    pub instance: I,
    pub arguments: ArgumentContext,
}

impl<I> Model<I> {
    /// Pairs a fresh instance with an empty argument context.
    pub fn new(instance: I) -> (model: Self)
        ensures
            model.instance == instance,
            model.arguments@ == Map::<Seq<char>, Seq<char>>::empty(),
    {
        Model { instance, arguments: ArgumentContext::new() }
    }

    /// Reads what the model's `on_load` entry point came to: its metadata,
    /// or the trap as a fatal error. The model itself is left as it is.
    pub fn metadata(&self, on_load: Result<Metadata, Trap>) -> (r: Result<Metadata, HostError>)
        ensures
            r == metadata_of(on_load),
    {
        match on_load {
            Ok(metadata) => Ok(metadata),
            Err(trap) => Err(HostError::Metadata(trap)),
        }
    }

    /// First half of a generation: writes `extra_args` into the model's
    /// context, where its `generate` entry point will look them up. What
    /// earlier runs wrote stays, under the keys that `extra_args` leave alone.
    pub fn prepare(&mut self, extra_args: &[Argument])
        ensures
            final(self).instance == old(self).instance,
            final(self).arguments@ == merged(old(self).arguments@, pairs_of(extra_args@)),
    {
        self.arguments.set_many(extra_args);
    }

    /// Second half of a generation: reads what the model's `generate` entry
    /// point came to. A shape or the model's own error is handed on as it
    /// is; only a trap is fatal.
    pub fn generate(&self, outcome: Result<Result<Shape, ModelError>, Trap>) -> (r: Result<
        Generated,
        HostError,
    >)
        ensures
            r == generated_of(outcome),
    {
        match outcome {
            Ok(Ok(shape)) => Ok(Generated::Shape(shape)),
            Ok(Err(error)) => Ok(Generated::Declined(error)),
            Err(trap) => Err(HostError::Generator(trap)),
        }
    }
}

} // verus!
