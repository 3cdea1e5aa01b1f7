//! Loading models from a directory, as decisions.
//!
//! Reading a file and instantiating a module are the caller's part. The
//! loader says which file it wants read, compiles what was read, says which
//! module it wants instantiated and with which capabilities, and collects
//! the instances, each with a context of its own.

use crate::bridge::Fornjot;
use crate::model::Model;
use crate::sandbox::{compile, imported, new_imports, new_store};
use vstd::prelude::*;
use wasmer::{CompileError, Imports, Module, Store};

verus! {

/// One entry of the model directory, as it was listed.
#[derive(Debug, PartialEq, Eq)]
pub struct DirEntry {
    /// The last component of the entry's path.
    pub file_name: String,
    /// Whether the entry is a regular file.
    pub is_file: bool,
}

/// Why loading stopped. Each of these ends the whole load: no part of the
/// models loaded so far is handed out.
#[derive(Debug)]
pub enum LoadError {
    /// The directory could not be listed.
    Directory(String),
    /// A model file could not be read.
    Read(String),
    /// The sandbox refused a model file.
    Compile(CompileError),
    /// A compiled module could not be instantiated.
    Instantiate(String),
}

/// Whether a file name ends in `.wasm` after a stem that is not empty.
pub open spec fn has_wasm_extension(name: Seq<char>) -> bool {
    name.len() > 5 && name.skip(name.len() - 5) == seq!['.', 'w', 'a', 's', 'm']
}

/// Whether a directory entry is a model file. An entry that could not be
/// listed (`None`) is none.
pub open spec fn eligible(entry: Option<DirEntry>) -> bool {
    entry matches Some(e) && e.is_file && has_wasm_extension(e.file_name@)
}

/// How many of the first `count` entries are model files.
pub open spec fn eligible_before(entries: Seq<Option<DirEntry>>, count: int) -> nat
    decreases count,
{
    if count <= 0 {
        0
    } else {
        eligible_before(entries, count - 1) + if eligible(entries[count - 1]) {
            1nat
        } else {
            0nat
        }
    }
}

/// Whether none of the entries from `from` up to `to` is a model file.
pub open spec fn none_eligible(entries: Seq<Option<DirEntry>>, from: int, to: int) -> bool {
    forall|j: int| from <= j < to ==> !eligible(#[trigger] entries[j])
}

/// A stretch without model files adds nothing to the count.
pub proof fn lemma_eligible_before_skips(entries: Seq<Option<DirEntry>>, from: int, to: int)
    requires
        0 <= from <= to,
        none_eligible(entries, from, to),
    ensures
        eligible_before(entries, to) == eligible_before(entries, from),
    decreases to - from,
{
    if from < to {
        lemma_eligible_before_skips(entries, from, to - 1);
    }
}

/// Whether a file name has the extension of a sandbox binary, `wasm`.
pub fn is_wasm_name(name: &str) -> (r: bool)
    ensures
        r == has_wasm_extension(name@),
{
    let n: usize = name.unicode_len();
    if n <= 5 {
        return false;
    }
    let r = name.get_char(n - 5) == '.' && name.get_char(n - 4) == 'w' && name.get_char(n - 3)
        == 'a' && name.get_char(n - 2) == 's' && name.get_char(n - 1) == 'm';
    proof {
        let tail = name@.skip(n - 5);
        assert(tail.len() == 5);
        assert(tail[0] == name@[n - 5]);
        assert(tail[1] == name@[n - 4]);
        assert(tail[2] == name@[n - 3]);
        assert(tail[3] == name@[n - 2]);
        assert(tail[4] == name@[n - 1]);
        if r {
            assert(tail =~= seq!['.', 'w', 'a', 's', 'm']);
        }
    }
    r
}

/// Whether a directory entry is a model file: a regular file with the
/// extension `wasm`.
pub fn is_model_file(entry: &Option<DirEntry>) -> (r: bool)
    ensures
        r == eligible(*entry),
{
    match entry {
        Some(e) => e.is_file && is_wasm_name(e.file_name.as_str()),
        None => false,
    }
}

/// A load under way: the listing, the entry being worked on and the models
/// made from the entries before it.
pub struct Loader<I> {
    entries: Vec<Option<DirEntry>>,
    cursor: usize,
    models: Vec<Model<I>>,
}

impl<I> Loader<I> {
    /// The entry at the cursor is a model file, and every model file before
    /// it has its model.
    #[verifier::type_invariant]
    spec fn wf(&self) -> bool {
        &&& self.cursor < self.entries@.len()
        &&& eligible(self.entries@[self.cursor as int])
        &&& self.models@.len() == eligible_before(self.entries@, self.cursor as int)
    }

    /// The listing that is being gone through.
    pub closed spec fn entries(&self) -> Seq<Option<DirEntry>> {
        self.entries@
    }

    /// The place in the listing of the model file that is being loaded.
    pub closed spec fn cursor(&self) -> int {
        self.cursor as int
    }

    /// The models made so far, in order.
    pub closed spec fn models(&self) -> Seq<Model<I>> {
        self.models@
    }

    /// The name of the model file at the cursor.
    fn current_name(&self) -> (name: &str)
        ensures
            0 <= self.cursor() < self.entries().len(),
            self.entries()[self.cursor()] matches Some(entry) && name@ == entry.file_name@,
    {
        proof {
            use_type_invariant(self);
        }
        match &self.entries[self.cursor] {
            Some(entry) => entry.file_name.as_str(),
            None => "",
        }
    }

    /// The place in the listing of the model file at the cursor.
    fn current_index(&self) -> (index: usize)
        ensures
            index == self.cursor(),
            index < self.entries().len(),
    {
        proof {
            use_type_invariant(self);
        }
        self.cursor
    }

    /// Goes on from `from` to the next model file, or to the end.
    fn seek(entries: Vec<Option<DirEntry>>, from: usize, models: Vec<Model<I>>) -> (step: LoadStep<
        I,
    >)
        requires
            from <= entries@.len(),
            models@.len() == eligible_before(entries@, from as int),
        ensures
            sought(step, entries@, from as int, models@),
    {
        let mut cursor: usize = from;
        while cursor < entries.len()
            invariant
                from <= cursor <= entries@.len(),
                none_eligible(entries@, from as int, cursor as int),
            ensures
                cursor < entries@.len() ==> eligible(entries@[cursor as int]),
            decreases entries@.len() - cursor,
        {
            if is_model_file(&entries[cursor]) {
                break ;
            }
            cursor += 1;
        }
        proof {
            lemma_eligible_before_skips(entries@, from as int, cursor as int);
        }
        if cursor < entries.len() {
            LoadStep::Read(PendingRead { loader: Loader { entries, cursor, models } })
        } else {
            LoadStep::Done(Ok(models))
        }
    }
}

/// The loader waits for the contents of a model file.
pub struct PendingRead<I> {
    loader: Loader<I>,
}

/// The loader waits for the instance of a compiled module.
pub struct PendingInstance<I> {
    loader: Loader<I>,
}

/// A binary that the sandbox accepted, with the store that it was compiled
/// in and is to be instantiated in, and an import object of its own to put
/// its capabilities in.
pub struct Compiled {
    pub store: Store,
    pub module: Module,
    pub imports: Imports,
}

/// What the loader does next.
pub enum LoadStep<I> {
    /// Read the file that [`PendingRead::file_name`] names and resume with
    /// its contents.
    Read(PendingRead<I>),
    /// Instantiate the compiled module with the capabilities of
    /// [`PendingInstance::bridge`] and resume with the instance.
    Instantiate(PendingInstance<I>, Compiled),
    /// Loading is over: with every model, or with the first failure.
    Done(Result<Vec<Model<I>>, LoadError>),
}

impl<I> LoadStep<I> {
    /// The models that a step holds: those made so far, or those handed
    /// out at the end.
    pub open spec fn models(self) -> Seq<Model<I>> {
        match self {
            LoadStep::Read(pending) => pending.state().models(),
            LoadStep::Instantiate(pending, _) => pending.state().models(),
            LoadStep::Done(Ok(models)) => models@,
            LoadStep::Done(Err(_)) => Seq::empty(),
        }
    }
}

/// Whether `step` is where a loader comes to that holds `models` and goes
/// through `entries` from `from` on: it waits at the first model file
/// there, or is done with all the models where there is none.
pub open spec fn sought<I>(
    step: LoadStep<I>,
    entries: Seq<Option<DirEntry>>,
    from: int,
    models: Seq<Model<I>>,
) -> bool {
    match step {
        LoadStep::Read(pending) => {
            &&& pending.state().entries() == entries
            &&& pending.state().models() == models
            &&& from <= pending.state().cursor() < entries.len()
            &&& eligible(entries[pending.state().cursor()])
            &&& none_eligible(entries, from, pending.state().cursor())
            &&& models.len() == eligible_before(entries, pending.state().cursor())
        },
        LoadStep::Done(Ok(loaded)) => {
            &&& loaded@ == models
            &&& none_eligible(entries, from, entries.len() as int)
            &&& models.len() == eligible_before(entries, entries.len() as int)
        },
        _ => false,
    }
}

/// Starts loading the models of a directory from its listing: the entries
/// in the order in which they were seen, `None` for one that could not be
/// listed, or the reason why the directory could not be listed at all.
pub fn load_models<I>(listing: Result<Vec<Option<DirEntry>>, String>) -> (step: LoadStep<I>)
    ensures
        match listing {
            Ok(entries) => {
                &&& sought(step, entries@, 0, Seq::<Model<I>>::empty())
                &&& none_eligible(entries@, 0, entries@.len() as int) ==> (step matches LoadStep::Done(
                    Ok(loaded),
                ) && loaded@.len() == 0)
            },
            Err(reason) => step matches LoadStep::Done(Err(LoadError::Directory(r))) && r
                == reason,
        },
{
    match listing {
        Ok(entries) => Loader::seek(entries, 0, Vec::new()),
        Err(reason) => LoadStep::Done(Err(LoadError::Directory(reason))),
    }
}

impl<I> PendingRead<I> {
    /// The load that waits.
    pub closed spec fn state(&self) -> Loader<I> {
        self.loader
    }

    /// The name of the file to read.
    pub fn file_name(&self) -> (name: &str)
        ensures
            0 <= self.state().cursor() < self.state().entries().len(),
            self.state().entries()[self.state().cursor()] matches Some(entry) && name@
                == entry.file_name@,
    {
        self.loader.current_name()
    }

    /// The place in the listing of that file.
    pub fn index(&self) -> (index: usize)
        ensures
            index == self.state().cursor(),
            index < self.state().entries().len(),
    {
        self.loader.current_index()
    }

    /// Goes on with what reading the file came to. A file that could not
    /// be read ends the load. One that was read is compiled: where the
    /// sandbox refuses it the load ends, else the loader waits for the
    /// module's instance.
    pub fn resume(self, contents: Result<Vec<u8>, String>) -> (step: LoadStep<I>)
        ensures
            match contents {
                Ok(_) => match step {
                    LoadStep::Instantiate(pending, compiled) => {
                        &&& pending.state() == self.state()
                        &&& imported(compiled.imports) == Set::<(Seq<char>, Seq<char>)>::empty()
                    },
                    LoadStep::Done(Err(LoadError::Compile(_))) => true,
                    _ => false,
                },
                Err(reason) => step matches LoadStep::Done(Err(LoadError::Read(r))) && r == reason,
            },
    {
        match contents {
            Ok(bytes) => {
                let store = new_store();
                let outcome = compile(&store, bytes.as_slice());
                self.compiled(store, outcome)
            },
            Err(reason) => LoadStep::Done(Err(LoadError::Read(reason))),
        }
    }

    /// Goes on with what compiling the file in `store` came to: a refusal
    /// ends the load, a module is handed out to be instantiated, with its
    /// store and an import object that holds nothing yet.
    pub fn compiled(self, store: Store, outcome: Result<Module, CompileError>) -> (step: LoadStep<
        I,
    >)
        ensures
            match outcome {
                Ok(module) => step matches LoadStep::Instantiate(pending, compiled) && {
                    &&& pending.state() == self.state()
                    &&& compiled.store == store
                    &&& compiled.module == module
                    &&& imported(compiled.imports) == Set::<(Seq<char>, Seq<char>)>::empty()
                },
                Err(error) => step matches LoadStep::Done(Err(LoadError::Compile(e))) && e
                    == error,
            },
    {
        match outcome {
            Ok(module) => LoadStep::Instantiate(
                PendingInstance { loader: self.loader },
                Compiled { store, module, imports: new_imports() },
            ),
            Err(error) => LoadStep::Done(Err(LoadError::Compile(error))),
        }
    }
}

impl<I> PendingInstance<I> {
    /// The load that waits.
    pub closed spec fn state(&self) -> Loader<I> {
        self.loader
    }

    /// The name of the file that the module was compiled from.
    pub fn file_name(&self) -> (name: &str)
        ensures
            0 <= self.state().cursor() < self.state().entries().len(),
            self.state().entries()[self.state().cursor()] matches Some(entry) && name@
                == entry.file_name@,
    {
        self.loader.current_name()
    }

    /// The place in the listing of that file.
    pub fn index(&self) -> (index: usize)
        ensures
            index == self.state().cursor(),
            index < self.state().entries().len(),
    {
        self.loader.current_index()
    }

    /// The capabilities to instantiate the module with: a binding of its
    /// own, to the context of the model that is about to be made.
    pub fn bridge(&self) -> (binding: Fornjot)
        ensures
            binding.context.index == self.state().models().len(),
            binding.context.index == eligible_before(
                self.state().entries(),
                self.state().cursor(),
            ),
    {
        proof {
            use_type_invariant(&self.loader);
        }
        Fornjot::new(self.loader.models.len())
    }

    /// Goes on with what instantiating the module came to. A failure ends
    /// the load. An instance becomes the next model, with an empty context,
    /// and the loader goes on to the next model file. So the models stand
    /// in the order of their files in the listing: the place of each is the
    /// number of model files before its own.
    pub fn resume(self, outcome: Result<I, String>) -> (step: LoadStep<I>)
        ensures
            self.state().models().len() == eligible_before(
                self.state().entries(),
                self.state().cursor(),
            ),
            match outcome {
                Ok(instance) => {
                    &&& sought(
                        step,
                        self.state().entries(),
                        self.state().cursor() + 1,
                        step.models(),
                    )
                    &&& step.models().len() == self.state().models().len() + 1
                    &&& step.models().drop_last() == self.state().models()
                    &&& step.models().last().instance == instance
                    &&& step.models().last().arguments@ == Map::<Seq<char>, Seq<char>>::empty()
                },
                Err(reason) => step matches LoadStep::Done(Err(LoadError::Instantiate(r))) && r
                    == reason,
            },
    {
        proof {
            use_type_invariant(&self.loader);
        }
        match outcome {
            Ok(instance) => {
                let Loader { entries, cursor, mut models } = self.loader;
                assert(cursor < entries.len());
                models.push(Model::new(instance));
                assert(models@.drop_last() =~= self.loader.models@);
                Loader::seek(entries, cursor + 1, models)
            },
            Err(reason) => LoadStep::Done(Err(LoadError::Instantiate(reason))),
        }
    }
}

} // verus!
