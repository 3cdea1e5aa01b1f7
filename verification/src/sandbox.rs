//! The sandbox runtime, as far as the host calls it itself: compiling a
//! binary into a module.

use vstd::prelude::*;
use wasmer::{CompileError, Imports, Module, Store};

verus! {

/// `wasmer::Store`: the engine that modules are compiled with and the state
/// of what was instantiated in it. Nothing of its contents is visible here.
#[verifier::external_type_specification]
#[verifier::external_body]
pub struct ExStore(Store);

/// `wasmer::Module`: a compiled binary, ready to be instantiated. Nothing of
/// its contents is visible here.
#[verifier::external_type_specification]
#[verifier::external_body]
pub struct ExModule(Module);

/// `wasmer::CompileError`: why a binary was refused. Nothing of its contents
/// is visible here.
#[verifier::external_type_specification]
#[verifier::external_body]
pub struct ExCompileError(CompileError);

/// `wasmer::Imports`: what a module is given when it is instantiated, each
/// item under the name of a module and a name within it.
#[verifier::external_type_specification]
#[verifier::external_body]
pub struct ExImports(Imports);

/// The names under which an import object holds an item: pairs of a
/// module's name and a name within it.
pub uninterp spec fn imported(imports: Imports) -> Set<(Seq<char>, Seq<char>)>;

/// `wasmer::Imports::new`: an import object that holds nothing.
#[verifier::external_body]
pub(crate) fn new_imports() -> (imports: Imports)
    ensures
        imported(imports) == Set::<(Seq<char>, Seq<char>)>::empty(),
{
    Imports::new()
}

/// `<wasmer::Store as Default>::default`: a new store on a new engine of
/// the default kind. Nothing is claimed of it.
#[verifier::external_body]
pub(crate) fn new_store() -> Store {
    Store::default()
}

/// `wasmer::Module::new`: validates `bytes`, a binary or its text form, and
/// compiles it with the engine of `store`. Whether that succeeds is up to
/// the runtime; nothing is claimed of the result.
#[verifier::external_body]
pub(crate) fn compile(store: &Store, bytes: &[u8]) -> Result<Module, CompileError> {
    Module::new(store, bytes)
}

} // verus!
