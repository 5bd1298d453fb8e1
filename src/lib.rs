//! Turns the text that valgrind's memcheck and cachegrind tools print into
//! summary records, and renders byte counts for people to read.
use vstd::prelude::*;

pub mod report;
pub mod target;
pub mod text;
pub mod types;
pub mod utils;

verus! {

/// What to profile and how to print the result.
#[derive(Debug)]
pub struct Prof {
    pub command: Commands,
    /// The binary target to profile.
    pub bin: Option<String>,
    /// JSON output with total bytes, instead of YAML with byte counts for people.
    pub json: bool,
    /// Arguments handed on to the target binary.
    pub target_args: Vec<String>,
}

/// The kinds of profile.
#[derive(Debug, Clone, Copy)]
pub enum Commands {
    /// The total bytes allocated and freed by the program.
    Heap(Heap),
    /// The bytes the program leaked.
    Leak(Leak),
    /// Cache miss rates.
    Cache(Cache),
}

/// Options of a leak profile.
#[derive(Debug, Clone, Copy)]
pub struct Leak {}

/// Options of a cache profile.
#[derive(Debug, Clone, Copy)]
pub struct Cache {}

/// Options of a heap profile.
#[derive(Debug, Clone, Copy)]
pub struct Heap {
    /// Bytes taken off the total allocated.
    pub subtract_bytes: i64,
}

/// The arguments that select valgrind's tool for a kind of profile.
pub open spec fn tool_args(command: Commands) -> Seq<Seq<char>> {
    match command {
        Commands::Cache(_) => seq!["--tool=cachegrind"@],
        _ => seq![],
    }
}

/// Copies of `v`'s strings, appended to `out`.
fn append_all(out: &mut Vec<String>, v: &Vec<String>)
    ensures
        final(out).deep_view() == old(out).deep_view() + v.deep_view(),
{
    let ghost start = out.deep_view();
    let mut i: usize = 0;
    while i < v.len()
        invariant
            i <= v.len(),
            out.deep_view() == start + v.deep_view().subrange(0, i as int),
        decreases v.len() - i,
    {
        let ghost before = out.deep_view();
        out.push(v[i].clone());
        assert(out.deep_view() =~= before.push(v.deep_view()[i as int]));
        assert(v.deep_view().subrange(0, i + 1) =~= v.deep_view().subrange(0, i as int).push(
            v.deep_view()[i as int],
        ));
        i += 1;
    }
    assert(v.deep_view().subrange(0, v.len() as int) =~= v.deep_view());
}

impl Commands {
    /// The arguments of valgrind for this kind of profile: the tool's
    /// arguments, then the binary, then the binary's own arguments.
    pub fn valgrind_args(&self, bin: &str, target_args: &Vec<String>) -> (r: Vec<String>)
        ensures
            r.deep_view() == tool_args(*self) + seq![bin@] + target_args.deep_view(),
    {
        let mut args: Vec<String> = Vec::new();
        match self {
            Commands::Cache(_) => args.push(String::from_str("--tool=cachegrind")),
            _ => {},
        }
        args.push(String::from_str(bin));
        assert(args.deep_view() =~= tool_args(*self) + seq![bin@]);
        append_all(&mut args, target_args);
        args
    }
}

} // verus!
