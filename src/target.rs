//! Building the profiled crate and finding its binary.
use vstd::prelude::*;
use vstd::string::*;

use crate::text::chars_of;

verus! {

/// A build target of a package, as the package's metadata lists it.
#[derive(Debug)]
pub struct BinTarget {
    pub name: String,
    /// The target's kinds, such as `bin` or `lib`.
    pub kinds: Vec<String>,
    /// The path of the target's root source file.
    pub src_path: String,
}

/// The part of a path that marks a package of the cargo registry.
pub const REGISTRY_PATH: &'static str = ".cargo/registry";

/// Where release builds put binaries.
pub const RELEASE_DIR: &'static str = "target/release/";

/// Whether `pat` occurs in `s`.
pub open spec fn contains_text(s: Seq<char>, pat: Seq<char>) -> bool {
    exists|i: int| 0 <= i <= s.len() - pat.len() && #[trigger] s.subrange(i, i + pat.len()) == pat
}

/// Whether `t` is a binary of the crate itself, not of a registry package.
pub open spec fn is_local_bin(t: BinTarget) -> bool {
    &&& !contains_text(t.src_path@, REGISTRY_PATH@)
    &&& exists|k: int| 0 <= k < t.kinds.len() && #[trigger] t.kinds@[k]@ == "bin"@
}

/// The arguments of `cargo` that build the release binaries, or only `bin`.
pub open spec fn cargo_build_args_of(bin: Option<Seq<char>>) -> Seq<Seq<char>> {
    match bin {
        Some(b) => seq!["build"@, "--release"@, "--bin"@, b],
        None => seq!["build"@, "--release"@],
    }
}

/// The arguments of `cargo` that build the release binaries, or only `bin`.
pub fn cargo_build_args(bin: &Option<String>) -> (r: Vec<String>)
    ensures
        r.deep_view() == cargo_build_args_of(bin.deep_view()),
{
    let mut args: Vec<String> = Vec::new();
    args.push(String::from_str("build"));
    args.push(String::from_str("--release"));
    match bin {
        Some(b) => {
            args.push(String::from_str("--bin"));
            args.push(b.clone());
        },
        None => {},
    }
    assert(args.deep_view() =~= cargo_build_args_of(bin.deep_view()));
    args
}

/// Whether `pat` occurs in `s` at position `i`.
fn occurs_at(s: &Vec<char>, pat: &Vec<char>, i: usize) -> (r: bool)
    requires
        i + pat.len() <= s.len(),
    ensures
        r == (s@.subrange(i as int, i + pat.len()) == pat@),
{
    let mut j: usize = 0;
    while j < pat.len()
        invariant
            i + pat.len() <= s.len(),
            j <= pat.len(),
            s@.subrange(i as int, i + j) == pat@.subrange(0, j as int),
        decreases pat.len() - j,
    {
        if s[i + j] != pat[j] {
            assert(s@.subrange(i as int, i + pat.len())[j as int] != pat@[j as int]);
            return false;
        }
        assert(s@.subrange(i as int, i + j + 1) =~= s@.subrange(i as int, i + j).push(s@[i + j]));
        assert(pat@.subrange(0, j + 1) =~= pat@.subrange(0, j as int).push(pat@[j as int]));
        j += 1;
    }
    assert(pat@.subrange(0, pat.len() as int) =~= pat@);
    true
}

/// Whether `pat` occurs anywhere in `s`.
pub fn contains(s: &str, pat: &str) -> (r: bool)
    ensures
        r == contains_text(s@, pat@),
{
    let cs = chars_of(s);
    let ps = chars_of(pat);
    if ps.len() > cs.len() {
        return false;
    }
    let last = cs.len() - ps.len();
    let mut i: usize = 0;
    loop
        invariant
            cs@ == s@,
            ps@ == pat@,
            last == cs.len() - ps.len(),
            i <= last,
            forall|k: int| 0 <= k < i ==> #[trigger] s@.subrange(k, k + pat@.len()) != pat@,
        decreases last - i,
    {
        if occurs_at(&cs, &ps, i) {
            return true;
        }
        if i == last {
            return false;
        }
        i += 1;
    }
}

/// Whether some kind of `t` is `bin`.
fn has_bin_kind(t: &BinTarget) -> (r: bool)
    ensures
        r == exists|k: int| 0 <= k < t.kinds.len() && #[trigger] t.kinds@[k]@ == "bin"@,
{
    let bin = String::from_str("bin");
    let mut k: usize = 0;
    while k < t.kinds.len()
        invariant
            bin@ == "bin"@,
            k <= t.kinds.len(),
            forall|j: int| 0 <= j < k ==> #[trigger] t.kinds@[j]@ != "bin"@,
        decreases t.kinds.len() - k,
    {
        if t.kinds[k] == bin {
            return true;
        }
        k += 1;
    }
    false
}

/// The path of the release build of the first target that is a binary of the
/// crate itself; `None` when no target is.
pub fn release_bin_path(targets: &Vec<BinTarget>) -> (r: Option<String>)
    ensures
        match r {
            Some(path) => exists|i: int|
                0 <= i < targets.len() && is_local_bin(#[trigger] targets@[i]) && (forall|j: int|
                    0 <= j < i ==> !is_local_bin(#[trigger] targets@[j])) && path@ == RELEASE_DIR@
                    + targets@[i].name@,
            None => forall|i: int| 0 <= i < targets.len() ==> !is_local_bin(#[trigger] targets@[i]),
        },
{
    let mut i: usize = 0;
    while i < targets.len()
        invariant
            i <= targets.len(),
            forall|j: int| 0 <= j < i ==> !is_local_bin(#[trigger] targets@[j]),
        decreases targets.len() - i,
    {
        let t = &targets[i];
        if !contains(t.src_path.as_str(), REGISTRY_PATH) && has_bin_kind(t) {
            let path = String::from_str(RELEASE_DIR).concat(t.name.as_str());
            assert(is_local_bin(targets@[i as int]));
            return Some(path);
        }
        i += 1;
    }
    None
}

} // verus!
