//! The tool's version text, assembled from the build's version components.

use vstd::prelude::*;
use vstd::string::StringExecFns;

verus! {

/// A component that the build did not supply stands as "X".
pub open spec fn component_or_x(c: Option<Seq<char>>) -> Seq<char> {
    match c {
        Some(s) => s,
        None => "X"@,
    }
}

/// A missing pre-release component stands as the empty text.
pub open spec fn pre_or_empty(c: Option<Seq<char>>) -> Seq<char> {
    match c {
        Some(s) => s,
        None => Seq::<char>::empty(),
    }
}

pub open spec fn opt_str_view(s: Option<&str>) -> Option<Seq<char>> {
    match s {
        Some(t) => Some(t@),
        None => None,
    }
}

/// The version text: the tool's name, then MAJOR "." MINOR "." PATCH PRE.
pub open spec fn spec_version(
    major: Option<Seq<char>>,
    minor: Option<Seq<char>>,
    patch: Option<Seq<char>>,
    pre: Option<Seq<char>>,
) -> Seq<char> {
    "cargo-brust64 "@ + component_or_x(major) + "."@ + component_or_x(minor) + "."@
        + component_or_x(patch) + pre_or_empty(pre)
}

fn append_component(out: &mut String, c: Option<&str>)
    ensures
        final(out)@ == old(out)@ + component_or_x(opt_str_view(c)),
{
    match c {
        Some(s) => out.append(s),
        None => out.append("X"),
    }
}

/// Formats the version line shown for `--version`; each component the build
/// left unset is written as "X", a missing pre-release part as nothing.
pub fn version(
    major: Option<&str>,
    minor: Option<&str>,
    patch: Option<&str>,
    pre: Option<&str>,
) -> (r: String)
    ensures
        r@ == spec_version(
            opt_str_view(major),
            opt_str_view(minor),
            opt_str_view(patch),
            opt_str_view(pre),
        ),
{
    let mut out = "cargo-brust64 ".to_owned();
    append_component(&mut out, major);
    out.append(".");
    append_component(&mut out, minor);
    out.append(".");
    append_component(&mut out, patch);
    match pre {
        Some(p) => out.append(p),
        None => (),
    }
    proof {
        assert(out@ =~= spec_version(
            opt_str_view(major),
            opt_str_view(minor),
            opt_str_view(patch),
            opt_str_view(pre),
        ));
    }
    out
}

} // verus!
