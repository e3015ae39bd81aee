//! Where the generated bindings go: standard output, or a file that is
//! created or truncated.

use vstd::prelude::*;

verus! {

/// The destination of the generated bindings.
#[derive(Clone, Debug)]
pub enum OutputSink {
    /// The process's standard output.
    Stdout,
    /// A file at this path, created or truncated before it is written.
    File(String),
}

/// Chooses the sink that an output token names: `-` is standard output,
/// any other token is the path of a file.
pub fn select_output(token: &str) -> (r: OutputSink)
    ensures
        match r {
            OutputSink::Stdout => token@ == "-"@,
            OutputSink::File(p) => token@ != "-"@ && p@ == token@,
        },
{
    let t = token.to_owned();
    if t == "-".to_owned() {
        OutputSink::Stdout
    } else {
        OutputSink::File(t)
    }
}

} // verus!
