//! A strict, yet friendly mocking library: the bookkeeping behind generated
//! mocks. Each mocked method keeps its expected calls ([`method::Method`]);
//! a call of the mock is dispatched to the expected call whose argument
//! matchers accept it, counted there, and answered with the configured return
//! value; at the end every expected call is checked against how often it was
//! expected to be called.
pub mod codegen;
pub mod expected_calls;
pub mod fmt;
pub mod matcher;
pub mod method;
pub mod method_call;
pub mod return_value;

pub use crate::expected_calls::{ExpectedCalls, ExpectedCallsKind};
pub use crate::matcher::Argument;
pub use crate::method_call::MethodCallBuilder;
