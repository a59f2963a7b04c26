//! What `#[mockable]` does with a trait: read the attribute and the trait,
//! and name everything the mock is made of.
use super::attr::{spec_mockable_attr, MockableAttr, NestedMetaModel};
use super::error::Error;
use super::names::{
    arguments_ident, arguments_matcher_ident, camel_case, expect_method_ident, mock_struct_ident,
    mod_ident, snake_case,
};
use super::trait_decl::{spec_items_are_well_formed, ItemModel, TraitDecl};
use vstd::prelude::*;

verus! {

/// The `#[mockable]` attribute.
#[derive(Debug, Default)]
pub struct Mockable;

impl Mockable {
    /// The attribute.
    pub fn new() -> (r: Self) {
        Mockable
    }

    /// Reads the attribute's arguments and the trait it is applied to; the
    /// arguments are checked first. On success the mock can be generated from
    /// the returned attribute and trait.
    pub fn expand(&self, attr: Vec<NestedMetaModel>, item: ItemModel) -> (r: Result<
        (MockableAttr, TraitDecl),
        Error,
    >)
        requires
            item matches ItemModel::Trait(t) ==> spec_items_are_well_formed(t.items@),
        ensures
            spec_mockable_attr(attr@) matches Err(ds) ==> (r matches Err(e) && e.spec_diagnostics()
                == ds && (e is Diagnostic <==> ds.len() == 1)),
            spec_mockable_attr(attr@) is Ok ==> (r is Ok <==> TraitDecl::parse_succeeds(item)),
            spec_mockable_attr(attr@) is Ok && !TraitDecl::parse_succeeds(item) ==> (r matches Err(
                e,
            ) && e.spec_diagnostics() == TraitDecl::spec_parse_errors(item) && (e is Diagnostic
                <==> TraitDecl::spec_parse_error_is_single(item))),
            r matches Ok((a, d)) ==> (spec_mockable_attr(attr@) matches Ok(read) && a.spec_is(read)
                && (item matches ItemModel::Trait(t) && d.spec_read_from(t))),
    {
        let mockable_attr = MockableAttr::parse(attr)?;
        let trait_decl = TraitDecl::parse(item)?;
        Ok((mockable_attr, trait_decl))
    }
}

/// The names generated for one method of the mocked trait.
pub struct MethodPlan {
    /// The method's name.
    pub ident: String,
    /// The name of the method that registers an expected call.
    pub expect_ident: String,
    /// The name of the arguments struct.
    pub arguments_ident: String,
    /// The name of the arguments matcher struct.
    pub arguments_matcher_ident: String,
}

/// The names a mock is generated with.
pub struct MockPlan {
    /// The name of the mock struct.
    pub mock_ident: String,
    /// The name of the sub-module with the arguments structs.
    pub mod_ident: String,
    /// The names for each method, in the order of the trait.
    pub methods: Vec<MethodPlan>,
}

/// Names the mock of `trait_decl`, with the custom name if one was given.
pub fn plan_mock(name: Option<String>, trait_decl: &TraitDecl) -> (r: MockPlan)
    ensures
        r.mock_ident@ == match name {
            Some(n) => n@,
            None => trait_decl.ident@ + "Mock"@,
        },
        r.mod_ident@ == "__mockiato_"@ + snake_case(r.mock_ident@),
        r.methods@.len() == trait_decl.methods@.len(),
        forall|i: int|
            0 <= i < r.methods@.len() ==> {
                let m = #[trigger] r.methods@[i];
                let ident = trait_decl.methods@[i].ident@;
                &&& m.ident@ == ident
                &&& m.expect_ident@ == "expect_"@ + ident
                &&& m.arguments_ident@ == camel_case(ident) + "Arguments"@
                &&& m.arguments_matcher_ident@ == camel_case(ident) + "ArgumentsMatcher"@
            },
{
    let mock_ident = mock_struct_ident(trait_decl.ident.as_str(), name);
    let mod_ident = mod_ident(mock_ident.as_str());
    let mut methods: Vec<MethodPlan> = Vec::new();
    let mut k: usize = 0;
    while k < trait_decl.methods.len()
        invariant
            k <= trait_decl.methods@.len(),
            methods@.len() == k,
            forall|i: int|
                0 <= i < k ==> {
                    let m = #[trigger] methods@[i];
                    let ident = trait_decl.methods@[i].ident@;
                    &&& m.ident@ == ident
                    &&& m.expect_ident@ == "expect_"@ + ident
                    &&& m.arguments_ident@ == camel_case(ident) + "Arguments"@
                    &&& m.arguments_matcher_ident@ == camel_case(ident) + "ArgumentsMatcher"@
                },
        decreases trait_decl.methods@.len() - k,
    {
        let ident = trait_decl.methods[k].ident.as_str();
        let plan = MethodPlan {
            ident: String::from_str(ident),
            expect_ident: expect_method_ident(ident),
            arguments_ident: arguments_ident(ident),
            arguments_matcher_ident: arguments_matcher_ident(ident),
        };
        methods.push(plan);
        k = k + 1;
    }
    MockPlan { mock_ident, mod_ident, methods }
}

} // verus!
