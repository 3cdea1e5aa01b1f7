//! The two commands of the host, `list` and `run`, as decisions.
//!
//! Calling into a model is the caller's part. Each function here takes what
//! the calls made so far have come to and says what to do next: which entry
//! point of which model to call, or how the command ends.

use crate::argument::{pairs_of, Argument};
use crate::context::merged;
use crate::model::{generated_of, Generated, HostError, Model};
use crate::model_types::{Metadata, ModelError, Shape, Trap};
use crate::text::same_text;
use vstd::prelude::*;

verus! {

/// A call into a model that the host wants made. The number is the model's
/// place among those loaded.
#[derive(Clone, Copy, Debug, PartialEq, Eq, Structural)]
pub enum Request {
    /// Call `on_load`, for the model's metadata.
    OnLoad(usize),
    /// Call `generate`, for the model's shape.
    Generate(usize),
}

/// What a command does next.
#[derive(Debug, PartialEq, Eq)]
pub enum Step<T> {
    /// Make this call and come back with its outcome.
    Call(Request),
    /// The command is over.
    Done(T),
}

/// Whether the first `count` answers are all metadata, none a trap.
pub open spec fn all_answered(answers: Seq<Result<Metadata, Trap>>, count: int) -> bool {
    forall|j: int| 0 <= j < count && j < answers.len() ==> (#[trigger] answers[j]) is Ok
}

/// Whether an answer is the metadata of the model called `name`.
pub open spec fn is_named(answer: Result<Metadata, Trap>, name: Seq<char>) -> bool {
    answer matches Ok(metadata) && metadata.name@ == name
}

/// Whether none of the first `count` answers is the metadata of `name`.
pub open spec fn none_named(answers: Seq<Result<Metadata, Trap>>, count: int, name: Seq<char>) -> bool {
    forall|j: int| 0 <= j < count && j < answers.len() ==> !is_named(#[trigger] answers[j], name)
}

/// Whether the search for `name` among the first `count` answers comes upon
/// a trap at `t`: the answer there is a trap, and the answers before it are
/// all metadata of other names.
pub open spec fn trapped_at(
    answers: Seq<Result<Metadata, Trap>>,
    count: int,
    name: Seq<char>,
    t: int,
) -> bool {
    &&& 0 <= t < count
    &&& t < answers.len()
    &&& answers[t] is Err
    &&& all_answered(answers, t)
    &&& none_named(answers, t, name)
}

/// Lists the metadata of every model, in order.
///
/// `answers` holds what the `on_load` calls made so far came to: the
/// `i`-th answer is that of the `i`-th model. The first trap ends the
/// command with that trap; until then each model is asked in turn.
pub fn list_models<I>(models: &[Model<I>], answers: &[Result<Metadata, Trap>]) -> (step: Step<
    Result<Vec<Metadata>, HostError>,
>)
    ensures
        match step {
            Step::Call(request) => {
                &&& all_answered(answers@, models@.len() as int)
                &&& answers@.len() < models@.len()
                &&& request matches Request::OnLoad(i) && i == answers@.len()
            },
            Step::Done(Ok(listed)) => {
                &&& all_answered(answers@, models@.len() as int)
                &&& answers@.len() >= models@.len()
                &&& listed@.len() == models@.len()
                &&& forall|j: int|
                    0 <= j < listed@.len() ==> Ok::<Metadata, Trap>(#[trigger] listed@[j])
                        == answers@[j]
            },
            Step::Done(Err(error)) => exists|i: int|
                {
                    &&& 0 <= i < models@.len()
                    &&& i < answers@.len()
                    &&& all_answered(answers@, i)
                    &&& #[trigger] answers@[i] == Err::<Metadata, Trap>(error->Metadata_0)
                    &&& error is Metadata
                },
        },
{
    let mut listed: Vec<Metadata> = Vec::new();
    let mut i: usize = 0;
    while i < models.len() && i < answers.len()
        invariant
            i <= models@.len(),
            i <= answers@.len(),
            listed@.len() == i,
            all_answered(answers@, i as int),
            forall|j: int|
                0 <= j < i ==> Ok::<Metadata, Trap>(#[trigger] listed@[j]) == answers@[j],
        decreases models@.len() - i,
    {
        match &answers[i] {
            Ok(metadata) => listed.push(metadata.clone()),
            Err(trap) => {
                return Step::Done(Err(HostError::Metadata(trap.clone())));
            },
        }
        i += 1;
    }
    if i < models.len() {
        Step::Call(Request::OnLoad(i))
    } else {
        Step::Done(Ok(listed))
    }
}

/// Looks for the first model called `name`.
///
/// `probes` holds what the `on_load` calls made so far came to, the `i`-th
/// answer being that of the `i`-th model. The models are asked in order
/// until one answers with the name. The search ends with the place of that
/// model, or with `None` where every model was asked and none has the
/// name. A trap on the way is fatal: it ends the search with that trap, and
/// no model after it is asked.
pub fn find_model<I>(models: &[Model<I>], name: &str, probes: &[Result<Metadata, Trap>]) -> (step:
    Step<Result<Option<usize>, HostError>>)
    ensures
        match step {
            Step::Call(request) => {
                &&& all_answered(probes@, models@.len() as int)
                &&& none_named(probes@, models@.len() as int, name@)
                &&& probes@.len() < models@.len()
                &&& request matches Request::OnLoad(i) && i == probes@.len()
            },
            Step::Done(Ok(Some(i))) => {
                &&& i < models@.len()
                &&& i < probes@.len()
                &&& all_answered(probes@, i as int)
                &&& none_named(probes@, i as int, name@)
                &&& is_named(probes@[i as int], name@)
            },
            Step::Done(Ok(None)) => {
                &&& all_answered(probes@, models@.len() as int)
                &&& none_named(probes@, models@.len() as int, name@)
                &&& probes@.len() >= models@.len()
            },
            Step::Done(Err(error)) => exists|t: int|
                {
                    &&& trapped_at(probes@, models@.len() as int, name@, t)
                    &&& error == HostError::Metadata(probes@[t]->Err_0)
                },
        },
{
    let mut i: usize = 0;
    while i < models.len() && i < probes.len()
        invariant
            i <= models@.len(),
            i <= probes@.len(),
            all_answered(probes@, i as int),
            none_named(probes@, i as int, name@),
        decreases models@.len() - i,
    {
        match &probes[i] {
            Ok(metadata) => {
                if same_text(metadata.name.as_str(), name) {
                    return Step::Done(Ok(Some(i)));
                }
            },
            Err(trap) => {
                assert(trapped_at(probes@, models@.len() as int, name@, i as int));
                return Step::Done(Err(HostError::Metadata(trap.clone())));
            },
        }
        i += 1;
    }
    if i < models.len() {
        Step::Call(Request::OnLoad(i))
    } else {
        Step::Done(Ok(None))
    }
}

/// Runs the model called `name` with `args`.
///
/// `probes` holds what the `on_load` calls made so far came to, as for
/// [`find_model`], and `generated` what the `generate` call came to, once
/// it was made.
///
/// The model is looked for first. Once it is found it gets `args` written
/// into its context and is then to be run. When the outcome of its run is
/// there, the command ends with it: a shape and a model's own error alike
/// are results, a trap is fatal. A trap during the search is fatal too,
/// and where no model has the name the command ends with
/// [`HostError::ModelNotFound`]; either way no context was touched and no
/// model is run.
pub fn run<I>(
    models: &mut Vec<Model<I>>,
    name: &str,
    args: &[Argument],
    probes: &[Result<Metadata, Trap>],
    generated: Option<Result<Result<Shape, ModelError>, Trap>>,
) -> (step: Step<Result<Generated, HostError>>)
    ensures
        final(models)@.len() == old(models)@.len(),
        forall|j: int|
            0 <= j < old(models)@.len() ==> (#[trigger] final(models)@[j]).instance == old(
                models,
            )@[j].instance,
        match step {
            Step::Call(Request::OnLoad(i)) => {
                &&& all_answered(probes@, old(models)@.len() as int)
                &&& none_named(probes@, old(models)@.len() as int, name@)
                &&& probes@.len() < old(models)@.len()
                &&& i == probes@.len()
                &&& final(models)@ == old(models)@
            },
            Step::Call(Request::Generate(i)) => {
                &&& i < old(models)@.len()
                &&& i < probes@.len()
                &&& all_answered(probes@, i as int)
                &&& none_named(probes@, i as int, name@)
                &&& is_named(probes@[i as int], name@)
                &&& generated is None
                &&& final(models)@[i as int].arguments@ == merged(
                    old(models)@[i as int].arguments@,
                    pairs_of(args@),
                )
                &&& forall|j: int|
                    0 <= j < old(models)@.len() && j != i ==> #[trigger] final(models)@[j] == old(
                        models,
                    )@[j]
            },
            Step::Done(result) => {
                &&& final(models)@ == old(models)@
                &&& forall|t: int|
                    trapped_at(probes@, old(models)@.len() as int, name@, t) ==> result == Err::<
                        Generated,
                        HostError,
                    >(HostError::Metadata(#[trigger] probes@[t]->Err_0))
                &&& !(exists|t: int| trapped_at(probes@, old(models)@.len() as int, name@, t))
                    ==> if none_named(probes@, old(models)@.len() as int, name@) {
                    &&& probes@.len() >= old(models)@.len()
                    &&& result == Err::<Generated, HostError>(HostError::ModelNotFound)
                } else {
                    &&& generated is Some
                    &&& result == generated_of(generated->Some_0)
                }
            },
        },
{
    match find_model(models.as_slice(), name, probes) {
        Step::Call(request) => Step::Call(request),
        Step::Done(Ok(Some(i))) => match generated {
            None => {
                models[i].prepare(args);
                Step::Call(Request::Generate(i))
            },
            Some(outcome) => Step::Done(models[i].generate(outcome)),
        },
        Step::Done(Ok(None)) => Step::Done(Err(HostError::ModelNotFound)),
        Step::Done(Err(error)) => Step::Done(Err(error)),
    }
}

} // verus!
