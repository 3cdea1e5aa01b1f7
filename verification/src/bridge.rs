//! The capabilities that the host lends to a model: logging, and reading
//! the model's own arguments through a handle.

use crate::model::Model;
use vstd::prelude::*;

verus! {

/// How grave a model says its message is, gravest first.
#[derive(Clone, Copy, Debug, PartialEq, Eq, Structural)]
pub enum LogLevel {
    Error,
    Warning,
    Info,
    Debug,
    Verbose,
}

/// The levels of the host's log sink, gravest first.
#[derive(Clone, Copy, Debug, PartialEq, Eq, Structural)]
pub enum Severity {
    Error,
    Warn,
    Info,
    Debug,
    Trace,
}

impl LogLevel {
    /// Place in the order of gravity: 0 is the gravest.
    pub open spec fn rank(self) -> nat {
        match self {
            LogLevel::Error => 0,
            LogLevel::Warning => 1,
            LogLevel::Info => 2,
            LogLevel::Debug => 3,
            LogLevel::Verbose => 4,
        }
    }

    /// The sink's level for a message of this level.
    pub open spec fn routed(self) -> Severity {
        match self {
            LogLevel::Error => Severity::Error,
            LogLevel::Warning => Severity::Warn,
            LogLevel::Info => Severity::Info,
            LogLevel::Debug => Severity::Debug,
            LogLevel::Verbose => Severity::Trace,
        }
    }
}

impl Severity {
    /// Place in the order of gravity: 0 is the gravest.
    pub open spec fn rank(self) -> nat {
        match self {
            Severity::Error => 0,
            Severity::Warn => 1,
            Severity::Info => 2,
            Severity::Debug => 3,
            Severity::Trace => 4,
        }
    }
}

/// Routing keeps the order of gravity, and no two levels share a severity.
pub proof fn lemma_routing_keeps_order(a: LogLevel, b: LogLevel)
    ensures
        a.routed().rank() == a.rank(),
        a.rank() <= b.rank() <==> a.routed().rank() <= b.routed().rank(),
        a.routed() == b.routed() ==> a == b,
{
}

/// One message of a model, ready for the host's log sink.
#[derive(Debug, PartialEq, Eq)]
pub struct LogRecord {
    pub severity: Severity,
    pub message: String,
}

/// The token by which a model names its argument context. It says which
/// model's context is meant and gives no access by itself.
#[derive(Clone, Copy, Debug, PartialEq, Eq, Structural)]
pub struct ContextHandle {
    pub index: usize,
}

/// The capabilities of one model. Each model gets a value of its own when
/// it is loaded, bound to that model's context and to no other.
#[derive(Clone, Copy, Debug, PartialEq, Eq, Structural)]
pub struct Fornjot {
    pub context: ContextHandle,
}

/// What a lookup through a binding yields: the value of `name` in the
/// binding's own model, and nothing for any other handle.
pub open spec fn lookup<I>(
    binding: Fornjot,
    models: Seq<Model<I>>,
    handle: ContextHandle,
    name: Seq<char>,
) -> Option<Seq<char>> {
    if handle == binding.context && handle.index < models.len() && models[handle.index as int]
        .arguments@.contains_key(name) {
        Some(models[handle.index as int].arguments@[name])
    } else {
        None
    }
}

impl Fornjot {
    /// The binding for the model that is, or will be, the `index`-th of
    /// those loaded.
    pub fn new(index: usize) -> (binding: Self)
        ensures
            binding.context.index == index,
    {
        Fornjot { context: ContextHandle { index } }
    }

    /// Turns a model's message into a record for the log sink.
    pub fn log(&self, level: LogLevel, msg: &str) -> (record: LogRecord)
        ensures
            record.severity == level.routed(),
            record.message@ == msg@,
    {
        let severity = match level {
            LogLevel::Error => Severity::Error,
            LogLevel::Warning => Severity::Warn,
            LogLevel::Info => Severity::Info,
            LogLevel::Debug => Severity::Debug,
            LogLevel::Verbose => Severity::Trace,
        };
        LogRecord { severity, message: msg.to_owned() }
    }

    /// The handle of this binding's own context.
    pub fn context_current(&self) -> (handle: ContextHandle)
        ensures
            handle == self.context,
    {
        self.context
    }

    /// The argument `name` of the context that `ctx` names, if the context
    /// is this binding's own and holds one.
    pub fn context_get_argument<I>(
        &self,
        models: &[Model<I>],
        ctx: ContextHandle,
        name: &str,
    ) -> (value: Option<String>)
        ensures
            match value {
                Some(text) => lookup(*self, models@, ctx, name@) == Some(text@),
                None => lookup(*self, models@, ctx, name@) is None,
            },
    {
        if ctx.index == self.context.index && ctx.index < models.len() {
            models[ctx.index].arguments.get(name)
        } else {
            None
        }
    }
}

/// A model cannot read another model's arguments: through its binding, the
/// handle of any other context yields nothing, whatever that context holds.
pub proof fn lemma_contexts_are_isolated<I>(
    binding: Fornjot,
    models: Seq<Model<I>>,
    other: ContextHandle,
    name: Seq<char>,
)
    requires
        other != binding.context,
    ensures
        lookup(binding, models, other, name) is None,
{
}

/// What a model reads through its binding depends on its own context alone.
pub proof fn lemma_lookup_reads_own_context<I>(
    binding: Fornjot,
    before: Seq<Model<I>>,
    after: Seq<Model<I>>,
    name: Seq<char>,
)
    requires
        before.len() == after.len(),
        binding.context.index < before.len() ==> before[binding.context.index as int].arguments@
            == after[binding.context.index as int].arguments@,
    ensures
        lookup(binding, before, binding.context, name) == lookup(
            binding,
            after,
            binding.context,
            name,
        ),
{
}

} // verus!
