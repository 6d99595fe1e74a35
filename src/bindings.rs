//! The outcome of generating contract bindings from an interface document.
use vstd::prelude::*;

verus! {

/// Why binding generation failed.
#[derive(Clone, Copy, Debug, PartialEq, Eq, Structural)]
pub enum AbigenError {
    /// The interface document could not be read.
    ReadInput,
    /// The document was malformed, or no bindings could be generated from it.
    Generation,
    /// The generated source could not be formatted.
    Format,
    /// The output could not be written.
    WriteOutput,
}

/// The binding source, from what the generator gave (`None` where it failed)
/// and what the formatter gave on that output (`None` where it failed or did
/// not run). Only formatted source is ever handed out.
pub fn generate_abi(generated: Option<String>, formatted: Option<String>) -> (r: Result<
    String,
    AbigenError,
>)
    ensures
        generated is None ==> r == Err::<String, AbigenError>(AbigenError::Generation),
        generated is Some && formatted is None ==> r == Err::<String, AbigenError>(
            AbigenError::Format,
        ),
        generated is Some && formatted is Some ==> r is Ok && r->Ok_0@ == formatted->0@,
{
    match generated {
        None => Err(AbigenError::Generation),
        Some(_) => match formatted {
            None => Err(AbigenError::Format),
            Some(source) => Ok(source),
        },
    }
}

} // verus!
