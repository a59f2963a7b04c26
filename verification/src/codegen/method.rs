//! Reading the methods of a mockable trait: their receiver and arguments.
use super::error::{Diagnostic, DiagnosticKind, Error};
use vstd::prelude::*;

verus! {

/// The pattern of a method argument, as far as the attribute reads it.
pub enum PatModel {
    /// A name, possibly with a sub-pattern (`name @ pattern`).
    Ident { ident: String, has_subpat: bool },
    /// Any other pattern, such as `_`.
    Other,
}

/// A parameter of a method declaration.
pub enum FnArgModel {
    /// `&self` or `&mut self`.
    SelfRef { mutable: bool, span: u64 },
    /// `self` or `mut self`.
    SelfValue { mutable: bool, span: u64 },
    /// `pattern: Type`, which includes `self: Box<Self>`.
    Captured { pat: PatModel, ty: String, span: u64 },
    /// A parameter of another form.
    Other { span: u64 },
}

/// How a method takes `self`.
pub enum MethodSelfArg {
    /// `self` is taken by reference: `&self` or `&mut self`.
    Ref { mutable: bool },
    /// `self` is consumed: `self`.
    Value { mutable: bool },
    /// `self` has a type. Example: `self: Box<Self>`.
    Captured { ty: String },
}

/// An argument of a method after the receiver.
pub struct MethodArg {
    /// The argument's name.
    pub ident: String,
    /// The argument's type.
    pub ty: String,
    /// Where the argument stands.
    pub span: u64,
}

/// The receiver and the arguments of a method.
pub struct MethodInputs {
    /// How the method takes `self`.
    pub self_arg: MethodSelfArg,
    /// The remaining arguments, in order.
    pub args: Vec<MethodArg>,
}

/// Whether a parameter can serve as the receiver of a method.
pub open spec fn spec_is_self_arg(arg: FnArgModel) -> bool {
    match arg {
        FnArgModel::SelfRef { .. } => true,
        FnArgModel::SelfValue { .. } => true,
        FnArgModel::Captured { pat, .. } => match pat {
            PatModel::Ident { ident, .. } => ident@ == "self"@,
            PatModel::Other => false,
        },
        FnArgModel::Other { .. } => false,
    }
}

/// Why a parameter after the receiver cannot be an argument of a mocked
/// method; `None` when it can.
pub open spec fn spec_arg_error(arg: FnArgModel) -> Option<Diagnostic> {
    match arg {
        FnArgModel::Captured { pat, span, .. } => match pat {
            PatModel::Ident { .. } => None,
            PatModel::Other => Some(
                Diagnostic { kind: DiagnosticKind::IgnoredArgument, span: span },
            ),
        },
        FnArgModel::Other { span } => Some(
            Diagnostic { kind: DiagnosticKind::UncapturedArgument, span: span },
        ),
        FnArgModel::SelfRef { span, .. } => Some(
            Diagnostic { kind: DiagnosticKind::UncapturedArgument, span: span },
        ),
        FnArgModel::SelfValue { span, .. } => Some(
            Diagnostic { kind: DiagnosticKind::UncapturedArgument, span: span },
        ),
    }
}

/// Whether a parameter is bound with a sub-pattern, which a method
/// declaration cannot contain.
pub open spec fn spec_has_subpat(arg: FnArgModel) -> bool {
    arg matches FnArgModel::Captured { pat: PatModel::Ident { has_subpat, .. }, .. } && has_subpat
}

/// Whether `arg` is the argument read from parameter `model`: same name,
/// same type, same place.
pub open spec fn spec_read_from(arg: MethodArg, model: FnArgModel) -> bool {
    model matches FnArgModel::Captured { pat: PatModel::Ident { ident, .. }, ty, span }
        && arg.ident@ == ident@ && arg.ty@ == ty@ && arg.span == span
}

/// Whether `receiver` is the receiver read from parameter `model`.
pub open spec fn spec_self_arg_read_from(receiver: MethodSelfArg, model: FnArgModel) -> bool {
    match model {
        FnArgModel::SelfRef { mutable, .. } => receiver == MethodSelfArg::Ref { mutable },
        FnArgModel::SelfValue { mutable, .. } => receiver == MethodSelfArg::Value { mutable },
        FnArgModel::Captured { ty, .. } => receiver matches MethodSelfArg::Captured { ty: t }
            && t@ == ty@,
        FnArgModel::Other { .. } => false,
    }
}

/// The diagnostics for the parameters among `args`, in order.
pub open spec fn spec_arg_errors(args: Seq<FnArgModel>) -> Seq<Diagnostic>
    decreases args.len(),
{
    if args.len() == 0 {
        Seq::empty()
    } else {
        let prev = spec_arg_errors(args.drop_last());
        match spec_arg_error(args.last()) {
            Some(d) => prev.push(d),
            None => prev,
        }
    }
}

impl MethodSelfArg {
    /// Reads the receiver of a method; fails when the parameter is not `self`.
    pub fn parse(arg: FnArgModel) -> (r: Result<MethodSelfArg, ()>)
        ensures
            r is Ok <==> spec_is_self_arg(arg),
            r matches Ok(s) ==> spec_self_arg_read_from(s, arg),
    {
        match arg {
            FnArgModel::SelfRef { mutable, .. } => Ok(MethodSelfArg::Ref { mutable }),
            FnArgModel::SelfValue { mutable, .. } => Ok(MethodSelfArg::Value { mutable }),
            FnArgModel::Captured { pat, ty, span } => Self::parse_captured_arg(pat, ty),
            FnArgModel::Other { .. } => Err(()),
        }
    }

    /// A typed `self` parameter, such as `self: Box<Self>`.
    fn parse_captured_arg(pat: PatModel, ty: String) -> (r: Result<MethodSelfArg, ()>)
        ensures
            r is Ok <==> (pat matches PatModel::Ident { ident, .. } && ident@ == "self"@),
            r matches Ok(s) ==> s matches MethodSelfArg::Captured { ty: t } && t@ == ty@,
    {
        match pat {
            PatModel::Ident { ident, .. } => {
                let self_name = String::from_str("self");
                if ident == self_name {
                    Ok(MethodSelfArg::Captured { ty })
                } else {
                    Err(())
                }
            },
            PatModel::Other => Err(()),
        }
    }
}

impl MethodArg {
    /// Reads an argument after the receiver: it must be bound to a name.
    pub fn parse(arg: FnArgModel) -> (r: Result<MethodArg, Error>)
        requires
            !spec_has_subpat(arg),
        ensures
            match spec_arg_error(arg) {
                Some(d) => r == Err::<MethodArg, Error>(Error::Diagnostic(d)),
                None => r matches Ok(a) && spec_read_from(a, arg),
            },
    {
        match arg {
            FnArgModel::Captured { pat, ty, span } => match pat {
                PatModel::Ident { ident, .. } => Ok(MethodArg { ident, ty, span }),
                PatModel::Other => Err(
                    Error::Diagnostic(Diagnostic { kind: DiagnosticKind::IgnoredArgument, span }),
                ),
            },
            FnArgModel::Other { span } => Err(
                Error::Diagnostic(Diagnostic { kind: DiagnosticKind::UncapturedArgument, span }),
            ),
            FnArgModel::SelfRef { span, .. } => Err(
                Error::Diagnostic(Diagnostic { kind: DiagnosticKind::UncapturedArgument, span }),
            ),
            FnArgModel::SelfValue { span, .. } => Err(
                Error::Diagnostic(Diagnostic { kind: DiagnosticKind::UncapturedArgument, span }),
            ),
        }
    }
}

impl MethodInputs {
    /// Whether these are the inputs read from the parameters `inputs`: the
    /// receiver from the first, one argument from each of the others.
    pub open spec fn spec_read_from(&self, inputs: Seq<FnArgModel>) -> bool {
        &&& inputs.len() > 0
        &&& spec_self_arg_read_from(self.self_arg, inputs[0])
        &&& self.args@.len() == inputs.len() - 1
        &&& forall|i: int|
            0 <= i < self.args@.len() ==> spec_read_from(#[trigger] self.args@[i], inputs[i + 1])
    }

    /// Reads the parameters of a method: the first must be `self`, so that
    /// the trait is object-safe, and every other one must be bound to a name.
    /// Errors in the later parameters are reported together.
    pub fn parse(inputs: Vec<FnArgModel>, span: u64) -> (r: Result<MethodInputs, Error>)
        requires
            forall|i: int| 1 <= i < inputs@.len() ==> !spec_has_subpat(#[trigger] inputs@[i]),
        ensures
            (inputs@.len() == 0 || !spec_is_self_arg(inputs@[0])) ==> (r matches Err(
                Error::Diagnostic(d),
            ) && d == (Diagnostic { kind: DiagnosticKind::FirstParameterNotSelf, span: span })),
            (inputs@.len() > 0 && spec_is_self_arg(inputs@[0])) ==> {
                let errors = spec_arg_errors(inputs@.drop_first());
                &&& errors.len() > 0 ==> (r matches Err(Error::MultipleDiagnostics(ds)) && ds@
                    == errors)
                &&& errors.len() == 0 ==> (r matches Ok(m) && m.spec_read_from(inputs@))
            },
    {
        let mut inputs = inputs;
        let ghost all = inputs@;
        if inputs.len() == 0 {
            return Err(
                Error::Diagnostic(Diagnostic { kind: DiagnosticKind::FirstParameterNotSelf, span }),
            );
        }
        let first = inputs.remove(0);
        proof {
            assert(inputs@ =~= all.drop_first());
        }
        let self_arg = match MethodSelfArg::parse(first) {
            Ok(self_arg) => self_arg,
            Err(()) => {
                return Err(
                    Error::Diagnostic(
                        Diagnostic { kind: DiagnosticKind::FirstParameterNotSelf, span },
                    ),
                );
            },
        };
        let rest = inputs;
        let ghost rest_view = rest@;
        let mut args: Vec<MethodArg> = Vec::new();
        let mut collected: Vec<Diagnostic> = Vec::new();
        let mut rest = rest;
        let mut k: usize = 0;
        let n = rest.len();
        while rest.len() > 0
            invariant
                rest_view == all.drop_first(),
                n == rest_view.len(),
                k + rest@.len() == n,
                rest@ == rest_view.skip(k as int),
                forall|i: int| 0 <= i < rest_view.len() ==> !spec_has_subpat(#[trigger] rest_view[i]),
                collected@ == spec_arg_errors(rest_view.take(k as int)),
                collected@.len() == 0 ==> (args@.len() == k && forall|i: int|
                    0 <= i < k ==> spec_read_from(#[trigger] args@[i], rest_view[i])),
            decreases rest@.len(),
        {
            let arg = rest.remove(0);
            proof {
                assert(arg == rest_view[k as int]);
                assert(rest_view.take(k + 1).drop_last() =~= rest_view.take(k as int));
                assert(rest_view.take(k + 1).last() == rest_view[k as int]);
            }
            let ghost old_args = args@;
            match MethodArg::parse(arg) {
                Ok(a) => {
                    if collected.len() == 0 {
                        args.push(a);
                        proof {
                            assert(args@[k as int] == a);
                            assert forall|i: int| 0 <= i < k implies args@[i] == old_args[i] by {}
                        }
                    }
                },
                Err(e) => {
                    let ds = e.diagnostics();
                    collected.push(ds[0]);
                },
            }
            proof {
                assert(rest@ =~= rest_view.skip(k + 1));
            }
            k = k + 1;
        }
        proof {
            assert(rest_view.take(n as int) =~= rest_view);
        }
        if collected.len() > 0 {
            Err(Error::MultipleDiagnostics(collected))
        } else {
            Ok(MethodInputs { self_arg, args })
        }
    }
}

} // verus!
