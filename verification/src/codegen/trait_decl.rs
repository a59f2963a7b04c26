//! Reading a mockable trait declaration and its methods.
use super::error::{Diagnostic, DiagnosticKind, Error};
use super::method::{spec_arg_errors, spec_has_subpat, spec_is_self_arg, FnArgModel, MethodInputs};
use vstd::prelude::*;

verus! {

/// The signature of a method in a trait declaration.
pub struct MethodSigModel {
    /// The method's attributes, as written.
    pub attrs: Vec<String>,
    /// The method's name.
    pub ident: String,
    /// The method's generic parameters and `where` clause, as written.
    pub generics: String,
    /// Whether the method is `const`.
    pub is_const: bool,
    /// Whether the method is `async`.
    pub is_async: bool,
    /// Whether the method is `unsafe`.
    pub is_unsafe: bool,
    /// The parameters, receiver included.
    pub inputs: Vec<FnArgModel>,
    /// Where the parameter list stands.
    pub inputs_span: u64,
    /// The return type, if the method declares one.
    pub output: Option<String>,
    /// Where the method stands.
    pub span: u64,
}

/// An item of a trait declaration.
pub enum TraitItemModel {
    /// A method.
    Method(MethodSigModel),
    /// Any other item (a constant, a type, a macro).
    Other { span: u64 },
}

/// A segment of a path, such as `Debug` in `std::fmt::Debug`.
pub struct PathSegmentModel {
    /// The segment's name.
    pub ident: String,
    /// Whether the segment carries generic arguments (`Foo<T>`).
    pub has_generic_args: bool,
}

/// A path, such as `std::fmt::Debug`.
pub struct PathModel {
    /// The segments, in order.
    pub segments: Vec<PathSegmentModel>,
    /// Where the path stands.
    pub span: u64,
}

/// A bound in a supertrait list.
pub enum GenericBoundModel {
    /// A trait bound, with its path.
    Trait(PathModel),
    /// A lifetime bound.
    Lifetime,
}

/// A trait declaration.
pub struct TraitModel {
    /// The trait's name.
    pub ident: String,
    /// The trait's generic parameters and `where` clause, as written.
    pub generics: String,
    /// Whether the trait is `unsafe`.
    pub is_unsafe: bool,
    /// Whether the trait is an `auto` trait.
    pub is_auto: bool,
    /// The supertraits, in order.
    pub supertraits: Vec<GenericBoundModel>,
    /// The items, in order.
    pub items: Vec<TraitItemModel>,
    /// Where the trait stands.
    pub span: u64,
}

/// The item that the attribute is applied to.
pub enum ItemModel {
    /// A trait declaration.
    Trait(TraitModel),
    /// Any other item.
    Other { span: u64 },
}

/// A method of a mockable trait.
pub struct MethodDecl {
    /// The method's attributes, kept for the generated method.
    pub attrs: Vec<String>,
    /// The method's name.
    pub ident: String,
    /// The method's generic parameters and `where` clause.
    pub generics: String,
    /// Whether the method is `unsafe`.
    pub is_unsafe: bool,
    /// The receiver and the arguments.
    pub inputs: MethodInputs,
    /// The return type, if any.
    pub output: Option<String>,
    /// Where the method stands.
    pub span: u64,
}

/// A mockable trait.
pub struct TraitDecl {
    /// The trait's name.
    pub ident: String,
    /// The trait's generic parameters and `where` clause.
    pub generics: String,
    /// Where the trait stands.
    pub span: u64,
    /// The supertraits, in order.
    pub supertraits: Vec<GenericBoundModel>,
    /// The methods, in order.
    pub methods: Vec<MethodDecl>,
}

/// Whether no argument of the method is bound with a sub-pattern, which
/// Rust does not allow in a method declaration.
pub open spec fn spec_sig_is_well_formed(sig: MethodSigModel) -> bool {
    forall|i: int| 1 <= i < sig.inputs@.len() ==> !spec_has_subpat(#[trigger] sig.inputs@[i])
}

/// Whether every method of the trait item is well formed.
pub open spec fn spec_items_are_well_formed(items: Seq<TraitItemModel>) -> bool {
    forall|i: int|
        0 <= i < items.len() ==> (#[trigger] items[i] matches TraitItemModel::Method(sig)
            ==> spec_sig_is_well_formed(sig))
}

/// The diagnostics for a trait item; empty when it is a method that can be mocked.
/// `const` and `async` methods and methods whose first parameter is not
/// `self` each get one diagnostic; otherwise every ignored or uncaptured
/// argument gets one.
pub open spec fn spec_item_errors(item: TraitItemModel) -> Seq<Diagnostic> {
    match item {
        TraitItemModel::Other { span } => seq![
            Diagnostic { kind: DiagnosticKind::OnlyMethods, span: span },
        ],
        TraitItemModel::Method(sig) => if sig.is_const {
            seq![Diagnostic { kind: DiagnosticKind::ConstMethod, span: sig.span }]
        } else if sig.is_async {
            seq![Diagnostic { kind: DiagnosticKind::AsyncMethod, span: sig.span }]
        } else if sig.inputs@.len() == 0 || !spec_is_self_arg(sig.inputs@[0]) {
            seq![Diagnostic { kind: DiagnosticKind::FirstParameterNotSelf, span: sig.inputs_span }]
        } else {
            spec_arg_errors(sig.inputs@.drop_first())
        },
    }
}

/// The diagnostics for all items of a trait, item after item.
pub open spec fn spec_items_errors(items: Seq<TraitItemModel>) -> Seq<Diagnostic>
    decreases items.len(),
{
    if items.len() == 0 {
        Seq::empty()
    } else {
        spec_items_errors(items.drop_last()) + spec_item_errors(items.last())
    }
}

/// Whether the diagnostics of a trait item come as one diagnostic rather
/// than as a list: every error but those of the arguments, which are
/// collected into a list.
pub open spec fn spec_item_error_is_single(item: TraitItemModel) -> bool {
    match item {
        TraitItemModel::Other { .. } => true,
        TraitItemModel::Method(sig) => sig.is_const || sig.is_async || sig.inputs@.len() == 0
            || !spec_is_self_arg(sig.inputs@[0]),
    }
}

/// Whether `decl` is the method read from the trait item `item`.
pub open spec fn spec_method_read_from(decl: MethodDecl, item: TraitItemModel) -> bool {
    item matches TraitItemModel::Method(sig) && decl.ident@ == sig.ident@ && decl.attrs
        == sig.attrs && decl.generics@ == sig.generics@ && decl.is_unsafe
        == sig.is_unsafe && decl.span == sig.span && decl.inputs.spec_read_from(sig.inputs@)
        && match (decl.output, sig.output) {
        (Some(a), Some(b)) => a@ == b@,
        (None, None) => true,
        _ => false,
    }
}

/// Whether a method is rejected, and how, does not depend on whether it is
/// `unsafe`: two signatures that differ only in their unsafety get the same
/// diagnostics, and an `unsafe` method is accepted like any other.
pub proof fn lemma_unsafe_methods_are_mocked_like_others(a: MethodSigModel, b: MethodSigModel)
    requires
        a.attrs == b.attrs,
        a.ident == b.ident,
        a.generics == b.generics,
        a.is_const == b.is_const,
        a.is_async == b.is_async,
        a.inputs == b.inputs,
        a.inputs_span == b.inputs_span,
        a.output == b.output,
        a.span == b.span,
    ensures
        spec_item_errors(TraitItemModel::Method(a)) == spec_item_errors(TraitItemModel::Method(b)),
        spec_item_error_is_single(TraitItemModel::Method(a)) == spec_item_error_is_single(
            TraitItemModel::Method(b),
        ),
        !a.is_const && !a.is_async && a.inputs@.len() > 0 && spec_is_self_arg(a.inputs@[0])
            && spec_arg_errors(a.inputs@.drop_first()).len() == 0 ==> spec_item_errors(
            TraitItemModel::Method(a),
        ).len() == 0,
{
}

/// Rejects `const` methods.
pub fn check_constness(is_const: bool, span: u64) -> (r: Result<(), Error>)
    ensures
        is_const ==> r == Err::<(), Error>(
            Error::Diagnostic(Diagnostic { kind: DiagnosticKind::ConstMethod, span: span }),
        ),
        !is_const ==> r is Ok,
{
    if !is_const {
        Ok(())
    } else {
        Err(Error::Diagnostic(Diagnostic { kind: DiagnosticKind::ConstMethod, span }))
    }
}

/// Rejects `async` methods.
pub fn check_asyncness(is_async: bool, span: u64) -> (r: Result<(), Error>)
    ensures
        is_async ==> r == Err::<(), Error>(
            Error::Diagnostic(Diagnostic { kind: DiagnosticKind::AsyncMethod, span: span }),
        ),
        !is_async ==> r is Ok,
{
    if !is_async {
        Ok(())
    } else {
        Err(Error::Diagnostic(Diagnostic { kind: DiagnosticKind::AsyncMethod, span }))
    }
}

impl MethodDecl {
    /// Reads a trait item, which must be a method that can be mocked.
    pub fn parse(trait_item: TraitItemModel) -> (r: Result<MethodDecl, Error>)
        requires
            trait_item matches TraitItemModel::Method(sig) ==> spec_sig_is_well_formed(sig),
        ensures
            spec_item_errors(trait_item).len() > 0 ==> (r matches Err(e) && e.spec_diagnostics()
                == spec_item_errors(trait_item) && (e is Diagnostic <==> spec_item_error_is_single(
                trait_item,
            ))),
            spec_item_errors(trait_item).len() == 0 ==> (r matches Ok(m) && spec_method_read_from(
                m,
                trait_item,
            )),
    {
        match trait_item {
            TraitItemModel::Method(method) => Self::parse_method(method),
            TraitItemModel::Other { span } => Err(
                Error::Diagnostic(Diagnostic { kind: DiagnosticKind::OnlyMethods, span }),
            ),
        }
    }

    fn parse_method(method: MethodSigModel) -> (r: Result<MethodDecl, Error>)
        requires
            spec_sig_is_well_formed(method),
        ensures
            spec_item_errors(TraitItemModel::Method(method)).len() > 0 ==> (r matches Err(e)
                && e.spec_diagnostics() == spec_item_errors(TraitItemModel::Method(method)) && (e is Diagnostic
                <==> spec_item_error_is_single(TraitItemModel::Method(method)))),
            spec_item_errors(TraitItemModel::Method(method)).len() == 0 ==> (r matches Ok(m)
                && spec_method_read_from(m, TraitItemModel::Method(method))),
    {
        let MethodSigModel {
            attrs,
            ident,
            generics,
            is_const,
            is_async,
            is_unsafe,
            inputs,
            inputs_span,
            output,
            span,
        } = method;
        check_constness(is_const, span)?;
        check_asyncness(is_async, span)?;
        let inputs = MethodInputs::parse(inputs, inputs_span)?;
        Ok(MethodDecl { attrs, ident, generics, is_unsafe, inputs, output, span })
    }
}

impl TraitDecl {
    /// Whether this is the declaration read from trait `t`: same name, place
    /// and supertraits, and one method read from each item.
    pub open spec fn spec_read_from(&self, t: TraitModel) -> bool {
        &&& self.ident@ == t.ident@
        &&& self.generics@ == t.generics@
        &&& self.span == t.span
        &&& self.supertraits == t.supertraits
        &&& self.methods@.len() == t.items@.len()
        &&& forall|i: int|
            0 <= i < self.methods@.len() ==> spec_method_read_from(
                #[trigger] self.methods@[i],
                t.items@[i],
            )
    }

    /// The diagnostics with which `parse` rejects the item (empty when it
    /// accepts it): the item must be a trait, not `unsafe`, not an auto
    /// trait; otherwise the diagnostics of all its items.
    pub open spec fn spec_parse_errors(item: ItemModel) -> Seq<Diagnostic> {
        match item {
            ItemModel::Other { span } => seq![
                Diagnostic { kind: DiagnosticKind::OnlyTraits, span: span },
            ],
            ItemModel::Trait(t) => if t.is_unsafe {
                seq![Diagnostic { kind: DiagnosticKind::UnsafeTrait, span: t.span }]
            } else if t.is_auto {
                seq![Diagnostic { kind: DiagnosticKind::AutoTrait, span: t.span }]
            } else {
                spec_items_errors(t.items@)
            },
        }
    }

    /// Whether `parse` rejects the item with one diagnostic rather than a
    /// list: when it is not a trait, or an `unsafe` or auto trait; the
    /// diagnostics of the items are collected into a list.
    pub open spec fn spec_parse_error_is_single(item: ItemModel) -> bool {
        match item {
            ItemModel::Other { .. } => true,
            ItemModel::Trait(t) => t.is_unsafe || t.is_auto,
        }
    }

    /// Whether `parse` accepts the item: a trait that is neither `unsafe` nor
    /// an auto trait, all of whose items are methods that can be mocked.
    pub open spec fn parse_succeeds(item: ItemModel) -> bool {
        item matches ItemModel::Trait(t) && !t.is_unsafe && !t.is_auto && spec_items_errors(
            t.items@,
        ).len() == 0
    }

    /// Reads the item that `#[mockable]` is applied to: it must be a trait
    /// that is neither `unsafe` nor an auto trait, and all its items must be
    /// methods that can be mocked. The diagnostics of all items are reported together.
    pub fn parse(item: ItemModel) -> (r: Result<TraitDecl, Error>)
        requires
            item matches ItemModel::Trait(t) ==> spec_items_are_well_formed(t.items@),
        ensures
            r is Ok <==> Self::parse_succeeds(item),
            r matches Err(e) ==> e.spec_diagnostics() == Self::spec_parse_errors(item) && (e is Diagnostic
                <==> Self::spec_parse_error_is_single(item)),
            match item {
                ItemModel::Other { span } => r matches Err(e) && e.spec_diagnostics() == seq![
                    Diagnostic { kind: DiagnosticKind::OnlyTraits, span: span },
                ],
                ItemModel::Trait(t) => if t.is_unsafe {
                    r matches Err(e) && e.spec_diagnostics() == seq![
                        Diagnostic { kind: DiagnosticKind::UnsafeTrait, span: t.span },
                    ]
                } else if t.is_auto {
                    r matches Err(e) && e.spec_diagnostics() == seq![
                        Diagnostic { kind: DiagnosticKind::AutoTrait, span: t.span },
                    ]
                } else if spec_items_errors(t.items@).len() > 0 {
                    r matches Err(e) && e.spec_diagnostics() == spec_items_errors(t.items@)
                } else {
                    r matches Ok(d) && d.spec_read_from(t)
                },
            },
    {
        let item_trait = match item {
            ItemModel::Trait(item_trait) => item_trait,
            ItemModel::Other { span } => {
                return Err(
                    Error::Diagnostic(Diagnostic { kind: DiagnosticKind::OnlyTraits, span }),
                );
            },
        };
        let TraitModel { ident, generics, is_unsafe, is_auto, supertraits, items, span } = item_trait;
        if is_unsafe {
            return Err(Error::Diagnostic(Diagnostic { kind: DiagnosticKind::UnsafeTrait, span }));
        }
        if is_auto {
            return Err(Error::Diagnostic(Diagnostic { kind: DiagnosticKind::AutoTrait, span }));
        }
        let ghost all = items@;
        let mut items = items;
        let mut methods: Vec<MethodDecl> = Vec::new();
        let mut collected: Vec<Diagnostic> = Vec::new();
        let mut k: usize = 0;
        let n = items.len();
        while items.len() > 0
            invariant
                n == all.len(),
                k + items@.len() == n,
                items@ == all.skip(k as int),
                spec_items_are_well_formed(all),
                collected@ == spec_items_errors(all.take(k as int)),
                collected@.len() == 0 ==> (methods@.len() == k && forall|i: int|
                    0 <= i < k ==> spec_method_read_from(#[trigger] methods@[i], all[i])),
            decreases items@.len(),
        {
            let trait_item = items.remove(0);
            proof {
                assert(trait_item == all[k as int]);
                assert(all.take(k + 1).drop_last() =~= all.take(k as int));
                assert(all.take(k + 1).last() == all[k as int]);
            }
            let ghost old_methods = methods@;
            match MethodDecl::parse(trait_item) {
                Ok(m) => {
                    if collected.len() == 0 {
                        methods.push(m);
                        proof {
                            assert forall|i: int| 0 <= i < k implies methods@[i] == old_methods[i] by {}
                        }
                    }
                },
                Err(e) => {
                    let ds = e.diagnostics();
                    let mut j: usize = 0;
                    let ghost before = collected@;
                    while j < ds.len()
                        invariant
                            j <= ds@.len(),
                            collected@ == before + ds@.take(j as int),
                        decreases ds@.len() - j,
                    {
                        collected.push(ds[j]);
                        proof {
                            assert(ds@.take(j + 1) =~= ds@.take(j as int).push(ds@[j as int]));
                        }
                        j = j + 1;
                    }
                    proof {
                        assert(ds@.take(ds@.len() as int) =~= ds@);
                    }
                },
            }
            proof {
                assert(items@ =~= all.skip(k + 1));
            }
            k = k + 1;
        }
        proof {
            assert(all.take(n as int) =~= all);
        }
        if collected.len() > 0 {
            Err(Error::MultipleDiagnostics(collected))
        } else {
            Ok(TraitDecl { ident, generics, span, supertraits, methods })
        }
    }
}

} // verus!
