//! Sets of glob patterns, matched by the `globset` crate.
//!
//! Verus does not read `globset`. What a builder and a set hold is named
//! by functions without a body, and so is what the crate answers: whether
//! a pattern parses, whether a list of patterns can be compiled into a set,
//! and whether a set matches a text. The crate treats the backslash
//! differently from one platform to another, as an escape on some and as a
//! path separator on others; so the contracts below tie an answer to its
//! name only for texts without a backslash.

use globset::{Glob, GlobSet, GlobSetBuilder};
use vstd::prelude::*;

verus! {

/// `globset::GlobSet`, which the verifier takes as opaque.
#[verifier::external_type_specification]
#[verifier::external_body]
pub struct ExGlobSet(GlobSet);

/// `globset::GlobSetBuilder`, which the verifier takes as opaque.
#[verifier::external_type_specification]
#[verifier::external_body]
pub struct ExGlobSetBuilder(GlobSetBuilder);

/// The patterns that were added to a builder, in order.
pub uninterp spec fn builder_globs(b: GlobSetBuilder) -> Seq<Seq<char>>;

/// The patterns that a set was compiled from, in order.
pub uninterp spec fn set_globs(s: GlobSet) -> Seq<Seq<char>>;

/// Whether `Glob::new` reads `pattern` as a glob.
pub uninterp spec fn glob_parses(pattern: Seq<char>) -> bool;

/// Whether `GlobSetBuilder::build` compiles these patterns, each of which
/// parses, into a set.
pub uninterp spec fn glob_set_builds(patterns: Seq<Seq<char>>) -> bool;

/// Whether `GlobSet::is_match` finds that one of these patterns matches
/// `candidate`.
pub uninterp spec fn glob_set_matches(patterns: Seq<Seq<char>>, candidate: Seq<char>) -> bool;

/// Whether the crate reads `text` alike on every platform: it holds no
/// backslash.
pub open spec fn portable(text: Seq<char>) -> bool {
    forall|i: int| 0 <= i < text.len() ==> text[i] != '\\'
}

/// Whether the crate reads each of `list` alike on every platform.
pub open spec fn all_portable(list: Seq<Seq<char>>) -> bool {
    forall|i: int| 0 <= i < list.len() ==> portable(#[trigger] list[i])
}

/// `GlobSetBuilder::new`: a builder to which nothing was added.
#[verifier::external_body]
pub(crate) fn builder_new() -> (b: GlobSetBuilder)
    ensures
        builder_globs(b) == Seq::<Seq<char>>::empty(),
{
    GlobSetBuilder::new()
}

/// `Glob::new`, and `GlobSetBuilder::add` where the pattern parsed: the
/// pattern is added at the end, or, where it does not parse, nothing is
/// added.
#[verifier::external_body]
pub(crate) fn builder_add(b: &mut GlobSetBuilder, pattern: &str) -> (added: bool)
    ensures
        portable(pattern@) ==> added == glob_parses(pattern@),
        added ==> builder_globs(*final(b)) == builder_globs(*old(b)).push(pattern@),
        !added ==> builder_globs(*final(b)) == builder_globs(*old(b)),
{
    match Glob::new(pattern) {
        Ok(glob) => {
            b.add(glob);
            true
        },
        Err(_) => false,
    }
}

/// `GlobSetBuilder::build`: the set of the patterns that were added, if
/// they can be compiled.
#[verifier::external_body]
pub(crate) fn builder_build(b: &GlobSetBuilder) -> (set: Option<GlobSet>)
    ensures
        all_portable(builder_globs(*b)) ==> (set is Some <==> glob_set_builds(builder_globs(*b))),
        set is Some ==> set_globs(set.unwrap()) == builder_globs(*b),
{
    b.build().ok()
}

/// `GlobSet::is_match`: whether one of the set's patterns matches. A set
/// of no patterns matches nothing.
#[verifier::external_body]
pub(crate) fn set_is_match(set: &GlobSet, candidate: &str) -> (matched: bool)
    ensures
        all_portable(set_globs(*set)) && portable(candidate@) ==> matched == glob_set_matches(
            set_globs(*set),
            candidate@,
        ),
        set_globs(*set).len() == 0 ==> !matched,
{
    set.is_match(candidate)
}

} // verus!
