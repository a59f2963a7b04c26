//! Reading the arguments of `#[mockable(..)]`.
use super::error::{Diagnostic, DiagnosticKind, Error};
use vstd::prelude::*;

verus! {

/// A literal in an attribute.
pub enum LitModel {
    /// A string literal: its value, and where the literal stands.
    Str { value: String, span: u64 },
    /// Any other literal.
    Other,
}

/// A meta item of an attribute, such as `name = "FooMock"`.
pub enum MetaModel {
    /// A bare word: `name`.
    Word { name: String, span: u64 },
    /// A list: `derive(Eq, PartialEq)`, with the words in the list.
    List { name: String, items: Vec<String>, span: u64 },
    /// A name with a value: `name = "FooMock"`.
    NameValue { name: String, lit: LitModel, span: u64 },
}

/// An argument of an attribute.
pub enum NestedMetaModel {
    /// A meta item.
    Meta(MetaModel),
    /// A bare literal: `"Bar"`.
    Literal { span: u64 },
}

impl MetaModel {
    /// The name of the meta item.
    pub open spec fn spec_name(&self) -> Seq<char> {
        match self {
            MetaModel::Word { name, .. } => name@,
            MetaModel::List { name, .. } => name@,
            MetaModel::NameValue { name, .. } => name@,
        }
    }

    /// Where the meta item stands.
    pub open spec fn spec_span(&self) -> u64 {
        match self {
            MetaModel::Word { span, .. } => *span,
            MetaModel::List { span, .. } => *span,
            MetaModel::NameValue { span, .. } => *span,
        }
    }

    /// Whether the meta item is called `name`.
    pub fn is_named(&self, expected: &str) -> (r: bool)
        ensures
            r == (self.spec_name() == expected@),
    {
        let expected = String::from_str(expected);
        match self {
            MetaModel::Word { name, .. } => *name == expected,
            MetaModel::List { name, .. } => *name == expected,
            MetaModel::NameValue { name, .. } => *name == expected,
        }
    }

    /// Where the meta item stands.
    pub fn span(&self) -> (r: u64)
        ensures
            r == self.spec_span(),
    {
        match self {
            MetaModel::Word { span, .. } => *span,
            MetaModel::List { span, .. } => *span,
            MetaModel::NameValue { span, .. } => *span,
        }
    }
}

/// The custom name of the mock struct.
pub struct NameAttr {
    /// The name.
    pub ident: String,
    /// Where the name stands.
    pub span: u64,
}

/// The string given to `name`, when the meta item is `name = "..."`.
pub open spec fn spec_name_value(meta: MetaModel) -> Option<Seq<char>> {
    match meta {
        MetaModel::NameValue { lit, .. } => match lit {
            LitModel::Str { value, .. } => Some(value@),
            LitModel::Other => None,
        },
        _ => None,
    }
}

/// Where the string literal of `name = "..."` stands.
pub open spec fn spec_name_literal_span(meta: MetaModel) -> u64 {
    match meta {
        MetaModel::NameValue { lit: LitModel::Str { span, .. }, .. } => span,
        _ => 0,
    }
}

impl NameAttr {
    /// The identifier of the mock struct.
    pub fn expand(self) -> (r: String)
        ensures
            r@ == self.ident@,
    {
        self.ident
    }

    /// Reads `name = "..."`: the value must be a string literal.
    pub fn parse(meta_item: MetaModel) -> (r: Result<NameAttr, Error>)
        ensures
            match spec_name_value(meta_item) {
                Some(s) => r matches Ok(a) && a.ident@ == s && a.span == spec_name_literal_span(
                    meta_item,
                ),
                None => r matches Err(Error::Diagnostic(d)) && d == (Diagnostic {
                    kind: DiagnosticKind::NameNotStringLiteral,
                    span: meta_item.spec_span(),
                }),
            },
    {
        let span = meta_item.span();
        match meta_item {
            MetaModel::NameValue { lit, .. } => match lit {
                LitModel::Str { value, span: literal_span } => {
                    return Ok(NameAttr { ident: value, span: literal_span });
                },
                LitModel::Other => {},
            },
            _ => {},
        }
        Err(Error::Diagnostic(Diagnostic { kind: DiagnosticKind::NameNotStringLiteral, span }))
    }
}

/// The parsed arguments of `#[mockable(..)]`.
pub struct MockableAttr {
    /// The custom name of the mock, if one was given (the last one wins).
    pub name_attr: Option<NameAttr>,
    /// Whether `static_references` was given: values stored in the argument
    /// matchers must then be `'static`, so that the mock is `'static` too
    /// (needed to downcast the mocked trait through `Any`).
    pub static_references: bool,
    /// The warnings found while reading the arguments.
    pub warnings: Vec<Diagnostic>,
}

impl MockableAttr {
    /// Whether these are the arguments described by `read`: the custom
    /// name, whether `static_references` was given, and the warnings.
    pub open spec fn spec_is(&self, read: (Option<Seq<char>>, bool, Seq<Diagnostic>)) -> bool {
        &&& match (self.name_attr, read.0) {
            (Some(attr), Some(s)) => attr.ident@ == s,
            (None, None) => true,
            _ => false,
        }
        &&& self.static_references == read.1
        &&& self.warnings@ == read.2
    }
}

/// What reading the arguments yields: the custom name, whether
/// `static_references` was given, and the warnings; or, at the first argument
/// that cannot be used, the warnings found before it followed by its diagnostic.
/// Arguments are read in order: a literal is an error; `name` sets the name
/// (with a warning when it was set before) and must be a string literal;
/// `static_references` must be a bare word; any other property is an error.
pub open spec fn spec_mockable_attr(args: Seq<NestedMetaModel>) -> Result<
    (Option<Seq<char>>, bool, Seq<Diagnostic>),
    Seq<Diagnostic>,
>
    decreases args.len(),
{
    if args.len() == 0 {
        Ok((None, false, Seq::empty()))
    } else {
        match spec_mockable_attr(args.drop_last()) {
            Err(ds) => Err(ds),
            Ok((name, static_references, warnings)) => match args.last() {
                NestedMetaModel::Literal { span } => Err(
                    warnings.push(
                        Diagnostic { kind: DiagnosticKind::UnsupportedAttributeSyntax, span: span },
                    ),
                ),
                NestedMetaModel::Meta(meta) => if meta.spec_name() == "name"@ {
                    let warnings = if name is Some {
                        warnings.push(
                            Diagnostic {
                                kind: DiagnosticKind::NameSpecifiedTwice,
                                span: meta.spec_span(),
                            },
                        )
                    } else {
                        warnings
                    };
                    match spec_name_value(meta) {
                        Some(s) => Ok((Some(s), static_references, warnings)),
                        None => Err(
                            warnings.push(
                                Diagnostic {
                                    kind: DiagnosticKind::NameNotStringLiteral,
                                    span: meta.spec_span(),
                                },
                            ),
                        ),
                    }
                } else if meta.spec_name() == "static_references"@ {
                    if meta is Word {
                        Ok((name, true, warnings))
                    } else {
                        Err(
                            warnings.push(
                                Diagnostic {
                                    kind: DiagnosticKind::UnsupportedAttributeSyntax,
                                    span: meta.spec_span(),
                                },
                            ),
                        )
                    }
                } else {
                    Err(
                        warnings.push(
                            Diagnostic {
                                kind: DiagnosticKind::UnsupportedAttributeProperty,
                                span: meta.spec_span(),
                            },
                        ),
                    )
                },
            },
        }
    }
}

/// An error that reports the warnings found so far, then the diagnostic.
fn error_after_warnings(warnings: Vec<Diagnostic>, diagnostic: Diagnostic) -> (r: Error)
    ensures
        r.spec_diagnostics() == warnings@.push(diagnostic),
        r is Diagnostic <==> warnings@.len() == 0,
{
    if warnings.len() == 0 {
        proof {
            assert(warnings@.push(diagnostic) =~= seq![diagnostic]);
        }
        Error::Diagnostic(diagnostic)
    } else {
        let mut all = warnings;
        all.push(diagnostic);
        Error::MultipleDiagnostics(all)
    }
}

/// Once an argument cannot be used, reading more arguments reports the same diagnostic.
pub proof fn lemma_mockable_attr_error_persists(args: Seq<NestedMetaModel>, m: nat, n: nat)
    requires
        m <= n <= args.len(),
        spec_mockable_attr(args.take(m as int)) is Err,
    ensures
        spec_mockable_attr(args.take(n as int)) == spec_mockable_attr(args.take(m as int)),
    decreases n,
{
    if n > m {
        lemma_mockable_attr_error_persists(args, m, (n - 1) as nat);
        assert(args.take(n as int).drop_last() =~= args.take(n - 1));
    }
}

/// Reading one more argument: a bare `static_references` keeps the name and
/// the warnings read so far and sets the flag; `name = "s"` sets the name to
/// `s` and keeps the flag, warning when a name was set before.
pub proof fn lemma_mockable_attr_arguments_are_independent(
    args: Seq<NestedMetaModel>,
    next: NestedMetaModel,
    name: Option<Seq<char>>,
    static_references: bool,
    warnings: Seq<Diagnostic>,
)
    requires
        spec_mockable_attr(args) == Ok::<(Option<Seq<char>>, bool, Seq<Diagnostic>), Seq<Diagnostic>>(
            (name, static_references, warnings),
        ),
    ensures
        next matches NestedMetaModel::Meta(MetaModel::Word { name: word, .. }) && word@
            == "static_references"@ ==> spec_mockable_attr(args.push(next)) == Ok::<
            (Option<Seq<char>>, bool, Seq<Diagnostic>),
            Seq<Diagnostic>,
        >((name, true, warnings)),
        next matches NestedMetaModel::Meta(
            MetaModel::NameValue { name: key, lit: LitModel::Str { value, .. }, span },
        ) ==> (key@ == "name"@ ==> spec_mockable_attr(args.push(next)) == Ok::<
            (Option<Seq<char>>, bool, Seq<Diagnostic>),
            Seq<Diagnostic>,
        >(
            (
                Some(value@),
                static_references,
                if name is Some {
                    warnings.push(Diagnostic { kind: DiagnosticKind::NameSpecifiedTwice, span: span })
                } else {
                    warnings
                },
            ),
        )),
{
    assert(args.push(next).drop_last() =~= args);
    reveal_strlit("name");
    reveal_strlit("static_references");
    assert("name"@.len() != "static_references"@.len());
}

impl MockableAttr {
    /// Reads the arguments of `#[mockable(..)]`; see `spec_mockable_attr`.
    pub fn parse(args: Vec<NestedMetaModel>) -> (r: Result<MockableAttr, Error>)
        ensures
            match spec_mockable_attr(args@) {
                Ok(read) => r matches Ok(a) && a.spec_is(read),
                Err(ds) => r matches Err(e) && e.spec_diagnostics() == ds && (e is Diagnostic <==> ds.len()
                    == 1),
            },
    {
        let ghost all = args@;
        let mut remaining = args;
        let mut name_attr: Option<NameAttr> = None;
        let mut static_references = false;
        let mut warnings: Vec<Diagnostic> = Vec::new();
        let mut k: usize = 0;
        let n = remaining.len();
        while remaining.len() > 0
            invariant
                all == args@,
                n == all.len(),
                k + remaining@.len() == n,
                remaining@ == all.skip(k as int),
                spec_mockable_attr(all.take(k as int)) matches Ok((name, statics, w)) && warnings@
                    == w && static_references == statics && match (name_attr, name) {
                    (Some(attr), Some(s)) => attr.ident@ == s,
                    (None, None) => true,
                    _ => false,
                },
            decreases remaining@.len(),
        {
            let item = remaining.remove(0);
            proof {
                assert(item == all[k as int]);
                assert(all.take(k + 1).drop_last() =~= all.take(k as int));
                assert(all.take(k + 1).last() == all[k as int]);
                assert(remaining@ =~= all.skip(k + 1));
            }
            let meta = match item {
                NestedMetaModel::Meta(meta) => meta,
                NestedMetaModel::Literal { span } => {
                    let d = Diagnostic { kind: DiagnosticKind::UnsupportedAttributeSyntax, span };
                    proof {
                        assert(spec_mockable_attr(all.take(k + 1)) == Err::<
                            (Option<Seq<char>>, bool, Seq<Diagnostic>),
                            Seq<Diagnostic>,
                        >(warnings@.push(d)));
                        lemma_mockable_attr_error_persists(all, (k + 1) as nat, n as nat);
                        assert(all.take(n as int) =~= all);
                    }
                    return Err(error_after_warnings(warnings, d));
                },
            };
            if meta.is_named("name") {
                if name_attr.is_some() {
                    warnings.push(
                        Diagnostic { kind: DiagnosticKind::NameSpecifiedTwice, span: meta.span() },
                    );
                }
                let span = meta.span();
                let parsed = NameAttr::parse(meta);
                match parsed {
                    Ok(attr) => {
                        name_attr = Some(attr);
                    },
                    Err(_) => {
                        let d = Diagnostic { kind: DiagnosticKind::NameNotStringLiteral, span };
                        proof {
                            lemma_mockable_attr_error_persists(all, (k + 1) as nat, n as nat);
                            assert(all.take(n as int) =~= all);
                        }
                        return Err(error_after_warnings(warnings, d));
                    },
                }
            } else if meta.is_named("static_references") {
                if matches!(meta, MetaModel::Word { .. }) {
                    static_references = true;
                } else {
                    let d = Diagnostic {
                        kind: DiagnosticKind::UnsupportedAttributeSyntax,
                        span: meta.span(),
                    };
                    proof {
                        assert(spec_mockable_attr(all.take(k + 1)) == Err::<
                            (Option<Seq<char>>, bool, Seq<Diagnostic>),
                            Seq<Diagnostic>,
                        >(warnings@.push(d)));
                        lemma_mockable_attr_error_persists(all, (k + 1) as nat, n as nat);
                        assert(all.take(n as int) =~= all);
                    }
                    return Err(error_after_warnings(warnings, d));
                }
            } else {
                let d = Diagnostic {
                    kind: DiagnosticKind::UnsupportedAttributeProperty,
                    span: meta.span(),
                };
                proof {
                    assert(spec_mockable_attr(all.take(k + 1)) == Err::<
                        (Option<Seq<char>>, bool, Seq<Diagnostic>),
                        Seq<Diagnostic>,
                    >(warnings@.push(d)));
                    lemma_mockable_attr_error_persists(all, (k + 1) as nat, n as nat);
                    assert(all.take(n as int) =~= all);
                }
                return Err(error_after_warnings(warnings, d));
            }
            k = k + 1;
        }
        proof {
            assert(all.take(n as int) =~= all);
        }
        Ok(MockableAttr { name_attr, static_references, warnings })
    }
}

/// The `derive(..)` property: the traits the mock should derive.
pub struct DeriveAttr {
    /// Where the property stands.
    pub span: u64,
    /// The traits to derive, in order.
    pub list: Vec<String>,
}

impl DeriveAttr {
    /// The words of the `#[derive(..)]` attribute the mock is given, in order.
    pub fn expand(self) -> (r: Vec<String>)
        ensures
            r@ == self.list@,
    {
        self.list
    }

    /// Reads `derive(..)`: it must be given a list.
    pub fn parse(meta_item: MetaModel) -> (r: Result<DeriveAttr, Error>)
        ensures
            match meta_item {
                MetaModel::List { items, span, .. } => r matches Ok(d) && d.list@ == items@
                    && d.span == span,
                _ => r matches Err(Error::Diagnostic(d)) && d == (Diagnostic {
                    kind: DiagnosticKind::DeriveNotList,
                    span: meta_item.spec_span(),
                }),
            },
    {
        let span = meta_item.span();
        match meta_item {
            MetaModel::List { items, span, .. } => Ok(DeriveAttr { span, list: items }),
            _ => Err(Error::Diagnostic(Diagnostic { kind: DiagnosticKind::DeriveNotList, span })),
        }
    }
}

} // verus!
