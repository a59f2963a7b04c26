//! The diagnostics that `#[mockable]` reports, and how several are combined.
use vstd::prelude::*;

verus! {

/// The severity of a diagnostic.
#[derive(PartialEq, Eq, Structural, Debug, Clone, Copy)]
pub enum Level {
    /// The mock cannot be generated.
    Error,
    /// The mock is generated; something deserves attention.
    Warning,
}

/// What a diagnostic is about; each kind has a fixed message.
#[derive(PartialEq, Eq, Structural, Debug, Clone, Copy)]
pub enum DiagnosticKind {
    /// The attribute was applied to something other than a trait.
    OnlyTraits,
    /// The trait is `unsafe`.
    UnsafeTrait,
    /// The trait is an auto trait.
    AutoTrait,
    /// The trait contains an item that is not a method.
    OnlyMethods,
    /// A `const` method.
    ConstMethod,
    /// An `async` method.
    AsyncMethod,
    /// A method whose first parameter is not `self`.
    FirstParameterNotSelf,
    /// An argument that is not bound to a name (`_: u64`).
    IgnoredArgument,
    /// An argument that is not a captured argument.
    UncapturedArgument,
    /// A literal in the attribute's arguments.
    UnsupportedAttributeSyntax,
    /// An attribute property other than `name`.
    UnsupportedAttributeProperty,
    /// `name` is not given a string literal.
    NameNotStringLiteral,
    /// `name` is given more than once (a warning).
    NameSpecifiedTwice,
    /// `derive` is not given a list.
    DeriveNotList,
    /// A supertrait that cannot be derived.
    NotDerivable,
}

impl DiagnosticKind {
    /// The severity: only a repeated `name` is a warning.
    pub open spec fn spec_level(self) -> Level {
        if self == DiagnosticKind::NameSpecifiedTwice {
            Level::Warning
        } else {
            Level::Error
        }
    }

    /// The severity: only a repeated `name` is a warning.
    pub fn level(&self) -> (r: Level)
        ensures
            r == self.spec_level(),
    {
        match self {
            DiagnosticKind::NameSpecifiedTwice => Level::Warning,
            _ => Level::Error,
        }
    }

    /// The message of the diagnostic.
    pub open spec fn spec_message(self) -> Seq<char> {
        match self {
            DiagnosticKind::OnlyTraits => "#[mockable] can only be used with traits"@,
            DiagnosticKind::UnsafeTrait => "#[mockable] does not work with unsafe traits"@,
            DiagnosticKind::AutoTrait => "#[mockable] does not work with auto traits"@,
            DiagnosticKind::OnlyMethods => "Traits are currently only allowed to contain traits"@,
            DiagnosticKind::ConstMethod => "`const` methods are not supported"@,
            DiagnosticKind::AsyncMethod => "`async` methods are not yet supported"@,
            DiagnosticKind::FirstParameterNotSelf => "The first parameter of a method must be self, so that the trait is object-safe"@,
            DiagnosticKind::IgnoredArgument => "Ignored arguments are not supported"@,
            DiagnosticKind::UncapturedArgument => "Only captured arguments are supported"@,
            DiagnosticKind::UnsupportedAttributeSyntax => "Unsupported syntax for #[mockable]"@,
            DiagnosticKind::UnsupportedAttributeProperty => "This attribute property is not supported by #[mockable]"@,
            DiagnosticKind::NameNotStringLiteral => "#[mockable(name = \"...\") expects a string literal"@,
            DiagnosticKind::NameSpecifiedTwice => "`name` is specified more than once. The latter definition will take precedence."@,
            DiagnosticKind::DeriveNotList => "#[mockable(derive(..)] must contain a list"@,
            DiagnosticKind::NotDerivable => "The referenced trait is not a derivable trait"@,
        }
    }

    /// The message of the diagnostic.
    pub fn message(&self) -> (r: &'static str)
        ensures
            r@ == self.spec_message(),
    {
        match self {
            DiagnosticKind::OnlyTraits => "#[mockable] can only be used with traits",
            DiagnosticKind::UnsafeTrait => "#[mockable] does not work with unsafe traits",
            DiagnosticKind::AutoTrait => "#[mockable] does not work with auto traits",
            DiagnosticKind::OnlyMethods => "Traits are currently only allowed to contain traits",
            DiagnosticKind::ConstMethod => "`const` methods are not supported",
            DiagnosticKind::AsyncMethod => "`async` methods are not yet supported",
            DiagnosticKind::FirstParameterNotSelf =>
                "The first parameter of a method must be self, so that the trait is object-safe",
            DiagnosticKind::IgnoredArgument => "Ignored arguments are not supported",
            DiagnosticKind::UncapturedArgument => "Only captured arguments are supported",
            DiagnosticKind::UnsupportedAttributeSyntax => "Unsupported syntax for #[mockable]",
            DiagnosticKind::UnsupportedAttributeProperty =>
                "This attribute property is not supported by #[mockable]",
            DiagnosticKind::NameNotStringLiteral =>
                "#[mockable(name = \"...\") expects a string literal",
            DiagnosticKind::NameSpecifiedTwice =>
                "`name` is specified more than once. The latter definition will take precedence.",
            DiagnosticKind::DeriveNotList => "#[mockable(derive(..)] must contain a list",
            DiagnosticKind::NotDerivable => "The referenced trait is not a derivable trait",
        }
    }

    /// Advice that accompanies the message, where there is some.
    pub open spec fn spec_help(self) -> Option<Seq<char>> {
        match self {
            DiagnosticKind::UnsupportedAttributeSyntax => Some("Example usage: #[mockable(name = \"FooMock\")]"@),
            DiagnosticKind::NameNotStringLiteral => Some("Example usage: #[mockable(name = \"FooMock\")]"@),
            DiagnosticKind::DeriveNotList => Some("Example usage: #[mockable(derive(Eq, PartialEq))]"@),
            DiagnosticKind::NotDerivable => Some("Only traits that are automatically derivable are supported as supertrait"@),
            _ => None,
        }
    }

    /// Advice that accompanies the message, where there is some.
    pub fn help(&self) -> (r: Option<&'static str>)
        ensures
            match r {
                Some(h) => self.spec_help() == Some(h@),
                None => self.spec_help() is None,
            },
    {
        match self {
            DiagnosticKind::UnsupportedAttributeSyntax => Some(
                "Example usage: #[mockable(name = \"FooMock\")]",
            ),
            DiagnosticKind::NameNotStringLiteral => Some(
                "Example usage: #[mockable(name = \"FooMock\")]",
            ),
            DiagnosticKind::DeriveNotList => Some(
                "Example usage: #[mockable(derive(Eq, PartialEq))]",
            ),
            DiagnosticKind::NotDerivable => Some(
                "Only traits that are automatically derivable are supported as supertrait",
            ),
            _ => None,
        }
    }

    /// A note that accompanies the message, where there is one.
    pub open spec fn spec_note(self) -> Option<Seq<char>> {
        match self {
            DiagnosticKind::UncapturedArgument => Some("This error should never appear, because rustc already enforces these requirements"@),
            _ => None,
        }
    }

    /// A note that accompanies the message, where there is one.
    pub fn note(&self) -> (r: Option<&'static str>)
        ensures
            match r {
                Some(n) => self.spec_note() == Some(n@),
                None => self.spec_note() is None,
            },
    {
        match self {
            DiagnosticKind::UncapturedArgument => Some(
                "This error should never appear, because rustc already enforces these requirements",
            ),
            _ => None,
        }
    }
}

/// A diagnostic about the syntax node identified by `span`.
#[derive(PartialEq, Eq, Structural, Debug, Clone, Copy)]
pub struct Diagnostic {
    /// What the diagnostic is about.
    pub kind: DiagnosticKind,
    /// The syntax node it points at, as numbered by the caller.
    pub span: u64,
}

/// Why a trait declaration or an attribute cannot be used.
#[derive(Debug)]
pub enum Error {
    /// One diagnostic.
    Diagnostic(Diagnostic),
    /// Several diagnostics, in the order in which they were found.
    MultipleDiagnostics(Vec<Diagnostic>),
}

impl Error {
    /// The diagnostics that this error holds, in order.
    pub open spec fn spec_diagnostics(&self) -> Seq<Diagnostic> {
        match self {
            Error::Diagnostic(d) => seq![*d],
            Error::MultipleDiagnostics(ds) => ds@,
        }
    }

    /// The diagnostics that this error holds, in order.
    pub fn diagnostics(&self) -> (r: Vec<Diagnostic>)
        ensures
            r@ == self.spec_diagnostics(),
    {
        match self {
            Error::Diagnostic(d) => {
                let mut v = Vec::new();
                v.push(*d);
                v
            },
            Error::MultipleDiagnostics(ds) => {
                let mut v = Vec::new();
                let mut i: usize = 0;
                while i < ds.len()
                    invariant
                        i <= ds@.len(),
                        v@ == ds@.take(i as int),
                    decreases ds@.len() - i,
                {
                    v.push(ds[i]);
                    proof {
                        assert(ds@.take(i + 1) =~= ds@.take(i as int).push(ds@[i as int]));
                    }
                    i = i + 1;
                }
                proof {
                    assert(ds@.take(ds@.len() as int) =~= ds@);
                }
                v
            },
        }
    }

    /// Creates one error holding the diagnostics of all given errors, in order.
    pub fn merge(errors: Vec<Error>) -> (r: Error)
        ensures
            r is MultipleDiagnostics,
            r.spec_diagnostics() == all_diagnostics(errors@),
    {
        let mut collected: Vec<Diagnostic> = Vec::new();
        let mut i: usize = 0;
        while i < errors.len()
            invariant
                i <= errors@.len(),
                collected@ == all_diagnostics(errors@.take(i as int)),
            decreases errors@.len() - i,
        {
            let more = errors[i].diagnostics();
            let mut j: usize = 0;
            let ghost before = collected@;
            while j < more.len()
                invariant
                    j <= more@.len(),
                    collected@ == before + more@.take(j as int),
                decreases more@.len() - j,
            {
                collected.push(more[j]);
                proof {
                    assert(more@.take(j + 1) =~= more@.take(j as int).push(more@[j as int]));
                }
                j = j + 1;
            }
            proof {
                assert(more@.take(more@.len() as int) =~= more@);
                assert(errors@.take(i + 1).drop_last() =~= errors@.take(i as int));
            }
            i = i + 1;
        }
        proof {
            assert(errors@.take(errors@.len() as int) =~= errors@);
        }
        Error::MultipleDiagnostics(collected)
    }
}

/// The diagnostics of a sequence of errors, one error after the other.
pub open spec fn all_diagnostics(errors: Seq<Error>) -> Seq<Diagnostic>
    decreases errors.len(),
{
    if errors.len() == 0 {
        Seq::empty()
    } else {
        all_diagnostics(errors.drop_last()) + errors.last().spec_diagnostics()
    }
}

} // verus!
