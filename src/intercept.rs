//! What the replacement chunk loader does with a chunk the host loads.
use vstd::prelude::*;
use vstd::string::*;
use crate::loader::{LoadError, ModuleLoad, load_module, start_load};

verus! {

/// The way an intercepted chunk load goes.
pub enum Interception {
    /// Hand the call, unchanged, to the original loader and return its status.
    Forward,
    /// Install the rewritten source as a module with this loader.
    Load(ModuleLoad),
}

/// Decides an intercepted load of the chunk `name`, given what the patch source
/// made of it: no rewrite forwards the call unchanged; a rewrite is loaded as
/// the module `name`, unless a NUL byte keeps it from the VM.
pub fn intercept(name: &str, rewritten: Option<&str>) -> (r: Result<Interception, LoadError>)
    ensures
        rewritten is None ==> r matches Ok(Interception::Forward),
        rewritten is Some ==> {
            let source = rewritten->Some_0;
            &&& name.spec_bytes().contains(0u8) ==> r == Err::<Interception, LoadError>(
                LoadError::NulInName,
            )
            &&& !name.spec_bytes().contains(0u8) && source.spec_bytes().contains(0u8) ==> r
                == Err::<Interception, LoadError>(LoadError::NulInSource)
            &&& !name.spec_bytes().contains(0u8) && !source.spec_bytes().contains(0u8) ==> (r matches Ok(
                Interception::Load(l),
            ) && l@ == start_load(name@, source@) && l.wf())
        },
{
    match rewritten {
        None => Ok(Interception::Forward),
        Some(source) => match load_module(name, source) {
            Ok(l) => Ok(Interception::Load(l)),
            Err(e) => Err(e),
        },
    }
}

} // verus!
