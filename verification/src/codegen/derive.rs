//! Which derives a mock gets: the supertraits of the mocked trait that can be derived.
use super::error::{Diagnostic, DiagnosticKind, Error};
use super::trait_decl::{GenericBoundModel, PathModel, PathSegmentModel, TraitDecl};
use vstd::prelude::*;

verus! {

/// The number of traits that a mock can derive.
pub const DERIVABLE_TRAIT_COUNT: usize = 9;

/// The derivable traits: the name used in `#[derive(..)]` and the full path,
/// in the order in which they are looked up.
pub open spec fn spec_derivable_trait(index: int) -> (Seq<char>, Seq<char>) {
    if index == 0 {
        ("Clone"@, "std::clone::Clone"@)
    } else if index == 1 {
        ("Hash"@, "std::hash::Hash"@)
    } else if index == 2 {
        ("PartialEq"@, "std::cmp::PartialEq"@)
    } else if index == 3 {
        ("Eq"@, "std::cmp::Eq"@)
    } else if index == 4 {
        ("PartialOrd"@, "std::cmp::PartialOrd"@)
    } else if index == 5 {
        ("Ord"@, "std::cmp::Ord"@)
    } else if index == 6 {
        ("Debug"@, "std::fmt::Debug"@)
    } else if index == 7 {
        ("Default"@, "std::default::Default"@)
    } else {
        ("Copy"@, "std::marker::Copy"@)
    }
}

/// Whether `path` is a path whose last segment is `name`: it ends in `::name`.
pub open spec fn path_ends_in(path: Seq<char>, name: Seq<char>) -> bool {
    &&& path.len() >= name.len() + 2
    &&& path.subrange(path.len() - name.len(), path.len() as int) == name
    &&& path[path.len() - name.len() - 1] == ':'
    &&& path[path.len() - name.len() - 2] == ':'
}

/// Each derivable trait is looked up by a full path that names it: the path's
/// last segment is the name used in `#[derive(..)]`. No two derivable traits
/// share a name or a path, so a resolved path derives exactly one trait.
pub proof fn lemma_derivable_paths_name_their_traits()
    ensures
        forall|i: int|
            0 <= i < DERIVABLE_TRAIT_COUNT ==> path_ends_in(
                #[trigger] spec_derivable_trait(i).1,
                spec_derivable_trait(i).0,
            ),
        forall|i: int, j: int|
            0 <= i < j < DERIVABLE_TRAIT_COUNT ==> #[trigger] spec_derivable_trait(i).0
                != #[trigger] spec_derivable_trait(j).0 && spec_derivable_trait(i).1
                != spec_derivable_trait(j).1,
{
    reveal_strlit("Clone");
    reveal_strlit("Hash");
    reveal_strlit("PartialEq");
    reveal_strlit("Eq");
    reveal_strlit("PartialOrd");
    reveal_strlit("Ord");
    reveal_strlit("Debug");
    reveal_strlit("Default");
    reveal_strlit("Copy");
    reveal_strlit("std::clone::Clone");
    reveal_strlit("std::hash::Hash");
    reveal_strlit("std::cmp::PartialEq");
    reveal_strlit("std::cmp::Eq");
    reveal_strlit("std::cmp::PartialOrd");
    reveal_strlit("std::cmp::Ord");
    reveal_strlit("std::fmt::Debug");
    reveal_strlit("std::default::Default");
    reveal_strlit("std::marker::Copy");
    assert(path_ends_in(spec_derivable_trait(0).1, spec_derivable_trait(0).0)) by {
        assert("std::clone::Clone"@.subrange(12, 17) =~= "Clone"@);
    }
    assert(path_ends_in(spec_derivable_trait(1).1, spec_derivable_trait(1).0)) by {
        assert("std::hash::Hash"@.subrange(11, 15) =~= "Hash"@);
    }
    assert(path_ends_in(spec_derivable_trait(2).1, spec_derivable_trait(2).0)) by {
        assert("std::cmp::PartialEq"@.subrange(10, 19) =~= "PartialEq"@);
    }
    assert(path_ends_in(spec_derivable_trait(3).1, spec_derivable_trait(3).0)) by {
        assert("std::cmp::Eq"@.subrange(10, 12) =~= "Eq"@);
    }
    assert(path_ends_in(spec_derivable_trait(4).1, spec_derivable_trait(4).0)) by {
        assert("std::cmp::PartialOrd"@.subrange(10, 20) =~= "PartialOrd"@);
    }
    assert(path_ends_in(spec_derivable_trait(5).1, spec_derivable_trait(5).0)) by {
        assert("std::cmp::Ord"@.subrange(10, 13) =~= "Ord"@);
    }
    assert(path_ends_in(spec_derivable_trait(6).1, spec_derivable_trait(6).0)) by {
        assert("std::fmt::Debug"@.subrange(10, 15) =~= "Debug"@);
    }
    assert(path_ends_in(spec_derivable_trait(7).1, spec_derivable_trait(7).0)) by {
        assert("std::default::Default"@.subrange(14, 21) =~= "Default"@);
    }
    assert(path_ends_in(spec_derivable_trait(8).1, spec_derivable_trait(8).0)) by {
        assert("std::marker::Copy"@.subrange(13, 17) =~= "Copy"@);
    }
    assert forall|i: int, j: int|
        0 <= i < j < DERIVABLE_TRAIT_COUNT implies #[trigger] spec_derivable_trait(i).0
            != #[trigger] spec_derivable_trait(j).0 && spec_derivable_trait(i).1
            != spec_derivable_trait(j).1 by {
        let (a, b) = (spec_derivable_trait(i), spec_derivable_trait(j));
        if a.0.len() == b.0.len() {
            assert(a.0[0] != b.0[0]);
        }
        if a.1.len() == b.1.len() {
            assert(a.1[a.1.len() - 1] != b.1[b.1.len() - 1]);
        }
    }
}

/// The derivable trait at `index`: its name in `#[derive(..)]` and its full path.
pub fn derivable_trait(index: usize) -> (r: (&'static str, &'static str))
    requires
        index < DERIVABLE_TRAIT_COUNT,
    ensures
        r.0@ == spec_derivable_trait(index as int).0,
        r.1@ == spec_derivable_trait(index as int).1,
{
    match index {
        0 => ("Clone", "std::clone::Clone"),
        1 => ("Hash", "std::hash::Hash"),
        2 => ("PartialEq", "std::cmp::PartialEq"),
        3 => ("Eq", "std::cmp::Eq"),
        4 => ("PartialOrd", "std::cmp::PartialOrd"),
        5 => ("Ord", "std::cmp::Ord"),
        6 => ("Debug", "std::fmt::Debug"),
        7 => ("Default", "std::default::Default"),
        _ => ("Copy", "std::marker::Copy"),
    }
}

/// The first derivable trait whose resolved definition is `path_def`, among
/// the first `n` resolutions.
pub open spec fn spec_first_resolved_as(
    path_def: u64,
    derivable_defs: Seq<Option<u64>>,
    n: nat,
) -> Option<usize>
    decreases n,
{
    if n == 0 {
        None
    } else {
        match spec_first_resolved_as(path_def, derivable_defs, (n - 1) as nat) {
            Some(i) => Some(i),
            None => if derivable_defs[n - 1] == Some(path_def) {
                Some((n - 1) as usize)
            } else {
                None
            },
        }
    }
}

/// Resolves a path into a derivable trait: the compiler resolved the path to
/// `path_def` (or could not resolve it) and each derivable trait's full path
/// to `derivable_defs[i]`; the result is the index of the first derivable
/// trait that is the same definition.
pub fn resolve_derivable_name(path_def: Option<u64>, derivable_defs: &Vec<Option<u64>>) -> (r:
    Option<usize>)
    requires
        derivable_defs@.len() == DERIVABLE_TRAIT_COUNT,
    ensures
        match path_def {
            None => r is None,
            Some(d) => r == spec_first_resolved_as(d, derivable_defs@, DERIVABLE_TRAIT_COUNT as nat),
        },
        r matches Some(i) ==> i < DERIVABLE_TRAIT_COUNT,
{
    let def_id = match path_def {
        Some(def_id) => def_id,
        None => {
            return None;
        },
    };
    let mut k: usize = 0;
    while k < DERIVABLE_TRAIT_COUNT
        invariant
            path_def == Some(def_id),
            k <= DERIVABLE_TRAIT_COUNT,
            derivable_defs@.len() == DERIVABLE_TRAIT_COUNT,
            spec_first_resolved_as(def_id, derivable_defs@, k as nat) is None,
        decreases DERIVABLE_TRAIT_COUNT - k,
    {
        let matches = match derivable_defs[k] {
            Some(other) => other == def_id,
            None => false,
        };
        if matches {
            proof {
                lemma_first_resolved_settles(
                    def_id,
                    derivable_defs@,
                    (k + 1) as nat,
                    DERIVABLE_TRAIT_COUNT as nat,
                );
            }
            return Some(k);
        }
        k = k + 1;
    }
    None
}

/// Once a derivable trait is found among the first `m` resolutions, it stays
/// the first one among more resolutions.
pub proof fn lemma_first_resolved_settles(
    path_def: u64,
    derivable_defs: Seq<Option<u64>>,
    m: nat,
    n: nat,
)
    requires
        m <= n,
        spec_first_resolved_as(path_def, derivable_defs, m) is Some,
    ensures
        spec_first_resolved_as(path_def, derivable_defs, n) == spec_first_resolved_as(
            path_def,
            derivable_defs,
            m,
        ),
    decreases n,
{
    if n > m {
        lemma_first_resolved_settles(path_def, derivable_defs, m, (n - 1) as nat);
    }
}

/// A trait bound of the mocked trait.
pub struct TraitBound {
    /// The bound's path, without generic arguments.
    pub path: PathModel,
    /// Where the bound stands.
    pub span: u64,
}

/// The path with the generic arguments of every segment removed.
pub fn path_without_generic_args(path: &PathModel) -> (r: PathModel)
    ensures
        r.span == path.span,
        r.segments@.len() == path.segments@.len(),
        forall|i: int|
            0 <= i < r.segments@.len() ==> (#[trigger] r.segments@[i]).ident@
                == path.segments@[i].ident@ && !r.segments@[i].has_generic_args,
{
    let mut segments: Vec<PathSegmentModel> = Vec::new();
    let mut k: usize = 0;
    while k < path.segments.len()
        invariant
            k <= path.segments@.len(),
            segments@.len() == k,
            forall|i: int|
                0 <= i < k ==> (#[trigger] segments@[i]).ident@ == path.segments@[i].ident@
                    && !segments@[i].has_generic_args,
        decreases path.segments@.len() - k,
    {
        let ident = path.segments[k].ident.clone();
        segments.push(PathSegmentModel { ident, has_generic_args: false });
        k = k + 1;
    }
    PathModel { segments, span: path.span }
}

/// A supertrait bound is a trait bound when it names a trait; lifetime
/// bounds are skipped.
pub fn parse_trait_bound(generic_bound: &GenericBoundModel) -> (r: Option<TraitBound>)
    ensures
        match generic_bound {
            GenericBoundModel::Trait(path) => r matches Some(b) && b.span == path.span
                && b.path.segments@.len() == path.segments@.len() && forall|i: int|
                0 <= i < b.path.segments@.len() ==> (#[trigger] b.path.segments@[i]).ident@
                    == path.segments@[i].ident@ && !b.path.segments@[i].has_generic_args,
            GenericBoundModel::Lifetime => r is None,
        },
{
    match generic_bound {
        GenericBoundModel::Trait(path) => Some(
            TraitBound { path: path_without_generic_args(path), span: path.span },
        ),
        GenericBoundModel::Lifetime => None,
    }
}

/// The trait bounds among the supertraits of the mocked trait.
pub struct TraitBounds(pub Vec<TraitBound>);

/// The paths of the trait bounds among the first `n` supertraits, in order.
pub open spec fn spec_trait_bound_paths(bounds: Seq<GenericBoundModel>, n: nat) -> Seq<PathModel>
    decreases n,
{
    if n == 0 {
        Seq::empty()
    } else {
        let prev = spec_trait_bound_paths(bounds, (n - 1) as nat);
        match bounds[n - 1] {
            GenericBoundModel::Trait(path) => prev.push(path),
            GenericBoundModel::Lifetime => prev,
        }
    }
}

/// Whether `bound` was read from `path`: same place, same segment names, no
/// generic arguments.
pub open spec fn spec_bound_read_from(bound: TraitBound, path: PathModel) -> bool {
    &&& bound.span == path.span
    &&& bound.path.segments@.len() == path.segments@.len()
    &&& forall|i: int|
        0 <= i < bound.path.segments@.len() ==> (#[trigger] bound.path.segments@[i]).ident@
            == path.segments@[i].ident@ && !bound.path.segments@[i].has_generic_args
}

impl TraitBounds {
    /// The trait bounds of the mocked trait, in order; lifetime bounds are skipped.
    pub fn parse(trait_decl: &TraitDecl) -> (r: TraitBounds)
        ensures
            r.0@.len() == spec_trait_bound_paths(
                trait_decl.supertraits@,
                trait_decl.supertraits@.len(),
            ).len(),
            forall|i: int|
                0 <= i < r.0@.len() ==> spec_bound_read_from(
                    #[trigger] r.0@[i],
                    spec_trait_bound_paths(
                        trait_decl.supertraits@,
                        trait_decl.supertraits@.len(),
                    )[i],
                ),
    {
        let mut bounds: Vec<TraitBound> = Vec::new();
        let mut k: usize = 0;
        while k < trait_decl.supertraits.len()
            invariant
                k <= trait_decl.supertraits@.len(),
                bounds@.len() == spec_trait_bound_paths(trait_decl.supertraits@, k as nat).len(),
                forall|i: int|
                    0 <= i < bounds@.len() ==> spec_bound_read_from(
                        #[trigger] bounds@[i],
                        spec_trait_bound_paths(trait_decl.supertraits@, k as nat)[i],
                    ),
            decreases trait_decl.supertraits@.len() - k,
        {
            let ghost old_bounds = bounds@;
            let ghost prev = spec_trait_bound_paths(trait_decl.supertraits@, k as nat);
            match parse_trait_bound(&trait_decl.supertraits[k]) {
                Some(bound) => {
                    bounds.push(bound);
                    proof {
                        let next = spec_trait_bound_paths(trait_decl.supertraits@, (k + 1) as nat);
                        assert forall|i: int| 0 <= i < bounds@.len() implies spec_bound_read_from(
                            #[trigger] bounds@[i],
                            next[i],
                        ) by {
                            if i < old_bounds.len() {
                                assert(bounds@[i] == old_bounds[i]);
                                assert(next[i] == prev[i]);
                            }
                        }
                    }
                },
                None => {},
            }
            k = k + 1;
        }
        TraitBounds(bounds)
    }
}

/// Decides the `#[derive(..)]` list of a mock: every trait bound of the
/// mocked trait must resolve to a derivable trait. `resolutions[i]` is what
/// the `i`-th trait bound resolved to (see `resolve_derivable_name`). When
/// some do not, each of them gets a diagnostic, in order.
pub fn generate_derive_list(bounds: &TraitBounds, resolutions: &Vec<Option<usize>>) -> (r: Result<
    Vec<usize>,
    Error,
>)
    requires
        resolutions@.len() == bounds.0@.len(),
    ensures
        (forall|i: int| 0 <= i < resolutions@.len() ==> (#[trigger] resolutions@[i]) is Some) ==> (
        r matches Ok(list) && list@.len() == resolutions@.len() && forall|i: int|
            0 <= i < list@.len() ==> resolutions@[i] == Some(#[trigger] list@[i])),
        (exists|i: int| 0 <= i < resolutions@.len() && (#[trigger] resolutions@[i]) is None) ==> (
        r matches Err(e) && e.spec_diagnostics() == spec_not_derivable(
            bounds.0@,
            resolutions@,
            resolutions@.len(),
        )),
{
    let mut list: Vec<usize> = Vec::new();
    let mut errors: Vec<Diagnostic> = Vec::new();
    let mut k: usize = 0;
    while k < resolutions.len()
        invariant
            k <= resolutions@.len(),
            resolutions@.len() == bounds.0@.len(),
            errors@ == spec_not_derivable(bounds.0@, resolutions@, k as nat),
            errors@.len() == 0 <==> forall|i: int| 0 <= i < k ==> (#[trigger] resolutions@[i]) is Some,
            errors@.len() == 0 ==> (list@.len() == k && forall|i: int|
                0 <= i < k ==> resolutions@[i] == Some(#[trigger] list@[i])),
        decreases resolutions@.len() - k,
    {
        match resolutions[k] {
            Some(index) => {
                list.push(index);
            },
            None => {
                errors.push(Diagnostic { kind: DiagnosticKind::NotDerivable, span: bounds.0[k].span });
            },
        }
        k = k + 1;
    }
    if errors.len() > 0 {
        Err(Error::MultipleDiagnostics(errors))
    } else {
        Ok(list)
    }
}

/// One diagnostic for each of the first `n` trait bounds that did not
/// resolve to a derivable trait, in order.
pub open spec fn spec_not_derivable(
    bounds: Seq<TraitBound>,
    resolutions: Seq<Option<usize>>,
    n: nat,
) -> Seq<Diagnostic>
    decreases n,
{
    if n == 0 {
        Seq::empty()
    } else {
        let prev = spec_not_derivable(bounds, resolutions, (n - 1) as nat);
        if resolutions[n - 1] is None {
            prev.push(Diagnostic { kind: DiagnosticKind::NotDerivable, span: bounds[n - 1].span })
        } else {
            prev
        }
    }
}

} // verus!
