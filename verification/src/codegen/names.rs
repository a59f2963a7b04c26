//! The identifiers and lifetimes that a generated mock is built from.
use crate::fmt::{decimal, decimal_string};
use heck::{CamelCase, SnakeCase};
use vstd::prelude::*;
use vstd::string::*;

verus! {

/// What `heck`'s `to_camel_case` makes of a string (upper camel case).
pub uninterp spec fn camel_case(s: Seq<char>) -> Seq<char>;

/// What `heck`'s `to_snake_case` makes of a string.
pub uninterp spec fn snake_case(s: Seq<char>) -> Seq<char>;

/// `heck::CamelCase::to_camel_case`: the contract names its result, which
/// depends on the string alone (word boundaries and Unicode case tables).
#[verifier::external_body]
fn to_camel_case(s: &str) -> (r: String)
    ensures
        r@ == camel_case(s@),
{
    s.to_camel_case()
}

/// `heck::SnakeCase::to_snake_case`: the contract names its result, which
/// depends on the string alone.
#[verifier::external_body]
fn to_snake_case(s: &str) -> (r: String)
    ensures
        r@ == snake_case(s@),
{
    s.to_snake_case()
}

/// The lifetime that every lifetime of an arguments struct is rewritten to.
pub open spec fn spec_arguments_lifetime() -> Seq<char> {
    "'__mockiato_args"@
}

/// The lifetime generated for the argument at `index`.
pub fn argument_lifetime(index: u64) -> (r: String)
    ensures
        r@ == "'__mockiato_arg"@ + decimal(index as nat),
{
    let mut s = String::from_str("'__mockiato_arg");
    let digits = decimal_string(index);
    s.append(digits.as_str());
    s
}

/// The lifetime shared by all arguments of an arguments struct.
pub fn arguments_lifetime() -> (r: String)
    ensures
        r@ == spec_arguments_lifetime(),
{
    String::from_str("'__mockiato_args")
}

/// The name of the mock struct: the `name` given to the attribute, otherwise
/// the trait's name followed by `Mock`.
pub fn mock_struct_ident(trait_ident: &str, name_attr: Option<String>) -> (r: String)
    ensures
        r@ == match name_attr {
            Some(name) => name@,
            None => trait_ident@ + "Mock"@,
        },
{
    match name_attr {
        Some(name) => name,
        None => {
            let mut s = String::from_str(trait_ident);
            s.append("Mock");
            s
        },
    }
}

/// The name of the sub-module that holds the arguments structs of a mock:
/// `__mockiato_` followed by the mock's name in snake case.
pub fn mod_ident(mock_ident: &str) -> (r: String)
    ensures
        r@ == "__mockiato_"@ + snake_case(mock_ident@),
{
    let mut s = String::from_str("__mockiato_");
    let snake = to_snake_case(mock_ident);
    s.append(snake.as_str());
    s
}

/// The name of the method that registers an expected call: `expect_<method>`.
pub fn expect_method_ident(method_ident: &str) -> (r: String)
    ensures
        r@ == "expect_"@ + method_ident@,
{
    let mut s = String::from_str("expect_");
    s.append(method_ident);
    s
}

/// The generic parameter for the argument at `index`: `A<index>`.
pub fn generic_parameter_ident(index: u64) -> (r: String)
    ensures
        r@ == "A"@ + decimal(index as nat),
{
    let mut s = String::from_str("A");
    let digits = decimal_string(index);
    s.append(digits.as_str());
    s
}

/// The name of the arguments struct of a method: the method's name in camel
/// case followed by `Arguments`.
pub fn arguments_ident(method_ident: &str) -> (r: String)
    ensures
        r@ == camel_case(method_ident@) + "Arguments"@,
{
    let mut s = to_camel_case(method_ident);
    s.append("Arguments");
    s
}

/// The name of the arguments matcher struct of a method: the method's name in
/// camel case followed by `ArgumentsMatcher`.
pub fn arguments_matcher_ident(method_ident: &str) -> (r: String)
    ensures
        r@ == camel_case(method_ident@) + "ArgumentsMatcher"@,
{
    let mut s = to_camel_case(method_ident);
    s.append("ArgumentsMatcher");
    s
}

/// Replaces all lifetimes with the same lifetime, and records that it did.
#[derive(Debug, Default)]
pub struct UniformLifetimeGenerator {
    /// Indicates that the rewriter found at least one lifetime.
    pub has_lifetimes: bool,
}

impl UniformLifetimeGenerator {
    /// The lifetime that replaces any lifetime; afterwards `has_lifetimes` is set.
    pub fn generate_lifetime(&mut self) -> (r: String)
        ensures
            r@ == spec_arguments_lifetime(),
            final(self).has_lifetimes,
    {
        self.has_lifetimes = true;
        arguments_lifetime()
    }
}

/// The generics of an arguments struct: the shared lifetime when the
/// rewriter met a lifetime in the arguments' types, none otherwise.
pub fn arguments_generics(generator: &UniformLifetimeGenerator) -> (r: String)
    ensures
        r@ == if generator.has_lifetimes {
            "<"@ + spec_arguments_lifetime() + ">"@
        } else {
            Seq::empty()
        },
{
    if generator.has_lifetimes {
        let mut s = String::from_str("<");
        let lifetime = arguments_lifetime();
        s.append(lifetime.as_str());
        s.append(">");
        s
    } else {
        String::new()
    }
}

/// The index of the next definition that the compiler will create, when
/// `generated_items` items are generated before it: one past the compiler's
/// next free index, plus the generated items.
pub fn predict_next_id(next_index: u32, generated_items: u32) -> (r: u32)
    requires
        next_index + 1 + generated_items <= u32::MAX,
    ensures
        r == next_index + 1 + generated_items,
{
    next_index + 1 + generated_items
}

} // verus!
