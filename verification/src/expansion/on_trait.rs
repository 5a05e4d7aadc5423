//! An interface: from its description to the plans of its operations and the
//! names of what is generated for it.
use crate::expansion::on_sig::{
    compiles_to, definition_errors, on_sig, DefinitionError, Description,
};
use crate::expansion::{Args, Meta};
use crate::operation::Operation;
use vstd::prelude::*;

verus! {

/// The description of an interface: its name and its operations.
#[derive(Debug)]
pub struct TraitDescription {
    pub name: String,
    pub operations: Vec<Description>,
}

/// An operation that has no plan, and why.
#[derive(Debug, PartialEq, Eq)]
pub struct Rejected {
    /// The index of the operation in the description of the interface.
    pub operation: usize,
    /// Everything that is wrong with it.
    pub errors: Vec<DefinitionError>,
}

/// What is generated for an interface.
#[derive(Debug)]
pub struct Interface {
    /// The name of the generated trait.
    pub trait_name: String,
    /// The name of the generated client.
    pub struct_name: String,
    /// The transport that the client wraps.
    pub crab: String,
    /// The attributes of the generated trait.
    pub trait_attributes: Vec<String>,
    /// The attributes of the generated client.
    pub struct_attributes: Vec<String>,
    /// The plans of the operations that have one, in the order of the
    /// description.
    pub operations: Vec<Operation>,
    /// The operations that have none, in the order of the description.
    pub rejected: Vec<Rejected>,
}

/// The characters of a list of strings.
pub open spec fn texts_of(items: Seq<String>) -> Seq<Seq<char>> {
    items.map_values(|s: String| s@)
}

/// The attribute that `meta` gives: the one item of a list of one item.
pub open spec fn attribute_of(meta: Meta) -> Seq<Seq<char>> {
    match meta {
        Meta::List(_, nested) => if nested@.len() == 1 {
            seq![nested@[0]@]
        } else {
            Seq::empty()
        },
        _ => Seq::empty(),
    }
}

/// The attributes that the first `upto` of `metas` give, in their order.
pub open spec fn attributes_of(metas: Seq<Meta>, upto: int) -> Seq<Seq<char>>
    decreases upto,
{
    if upto <= 0 || upto > metas.len() {
        Seq::empty()
    } else {
        attributes_of(metas, upto - 1) + attribute_of(metas[upto - 1])
    }
}

/// The indices of those of the first `upto` descriptions that are without
/// error, if `clean`, or with errors, if not.
pub open spec fn sorted_out(descriptions: Seq<Description>, clean: bool, upto: int) -> Seq<int>
    decreases upto,
{
    if upto <= 0 || upto > descriptions.len() {
        Seq::empty()
    } else if (definition_errors(descriptions[upto - 1]).len() == 0) == clean {
        sorted_out(descriptions, clean, upto - 1).push(upto - 1)
    } else {
        sorted_out(descriptions, clean, upto - 1)
    }
}

/// The name of the generated trait.
pub open spec fn trait_name(name: Seq<char>) -> Seq<char> {
    name + "Crab"@
}

/// The name of the generated client: the one asked for, or that of the
/// interface followed by `Client`.
pub open spec fn struct_name(on: Option<String>, name: Seq<char>) -> Seq<char> {
    match on {
        Some(asked) => asked@,
        None => name + "Client"@,
    }
}

/// Whether `operations` are the plans of the descriptions at `indices`.
pub open spec fn plans_of(
    descriptions: Seq<Description>,
    indices: Seq<int>,
    operations: Seq<Operation>,
) -> bool {
    &&& operations.len() == indices.len()
    &&& forall|k: int|
        0 <= k < indices.len() ==> 0 <= #[trigger] indices[k] < descriptions.len() && compiles_to(
            descriptions[indices[k]],
            operations[k],
        )
}

/// Whether `rejected` name the descriptions at `indices`, each with all its
/// errors.
pub open spec fn refusals_of(
    descriptions: Seq<Description>,
    indices: Seq<int>,
    rejected: Seq<Rejected>,
) -> bool {
    &&& rejected.len() == indices.len()
    &&& forall|k: int|
        0 <= k < indices.len() ==> 0 <= #[trigger] indices[k] < descriptions.len()
            && rejected[k].operation == indices[k] && rejected[k].errors@ == definition_errors(
            descriptions[indices[k]],
        )
}

/// Every description is sorted to one side: with a plan, or rejected.
pub proof fn lemma_sorted_out_covers(descriptions: Seq<Description>, upto: int)
    requires
        0 <= upto <= descriptions.len(),
    ensures
        sorted_out(descriptions, true, upto).len() + sorted_out(descriptions, false, upto).len()
            == upto,
        forall|k: int|
            0 <= k < sorted_out(descriptions, true, upto).len() ==> 0 <= #[trigger] sorted_out(
                descriptions,
                true,
                upto,
            )[k] < upto && definition_errors(
                descriptions[sorted_out(descriptions, true, upto)[k]],
            ).len() == 0,
        forall|k: int|
            0 <= k < sorted_out(descriptions, false, upto).len() ==> 0 <= #[trigger] sorted_out(
                descriptions,
                false,
                upto,
            )[k] < upto && definition_errors(
                descriptions[sorted_out(descriptions, false, upto)[k]],
            ).len() > 0,
    decreases upto,
{
    if upto > 0 {
        lemma_sorted_out_covers(descriptions, upto - 1);
    }
}

/// The attributes that `metas` give.
fn pick_attributes(metas: &Vec<Meta>) -> (r: Vec<String>)
    ensures
        texts_of(r@) == attributes_of(metas@, metas@.len() as int),
{
    let mut out: Vec<String> = Vec::new();
    let mut i: usize = 0;
    assert(texts_of(out@) =~= attributes_of(metas@, 0));
    while i < metas.len()
        invariant
            i <= metas@.len(),
            texts_of(out@) == attributes_of(metas@, i as int),
        decreases metas@.len() - i,
    {
        let ghost before = texts_of(out@);
        match &metas[i] {
            Meta::List(_, nested) => {
                if nested.len() == 1 {
                    out.push(nested[0].clone());
                    assert(texts_of(out@) =~= before.push(nested@[0]@));
                }
            },
            _ => {},
        }
        assert(texts_of(out@) =~= before + attribute_of(metas@[i as int]));
        i = i + 1;
    }
    out
}

/// Compiles the description of an interface.
///
/// Each operation is compiled by `on_sig`. One with errors is left out of the
/// plans and listed with all its errors; the others are not touched by it.
/// The generated trait is named after the interface with `Crab` behind it, the
/// client as `args` ask or after the interface with `Client` behind it.
pub fn on_trait(args: &Args, input: &TraitDescription) -> (r: Interface)
    ensures
        r.trait_name@ == trait_name(input.name@),
        r.struct_name@ == struct_name(args.on, input.name@),
        r.crab == args.crab,
        texts_of(r.trait_attributes@) == match args.attributes {
            Some(attributes) => attributes_of(attributes.crab@, attributes.crab@.len() as int),
            None => Seq::empty(),
        },
        texts_of(r.struct_attributes@) == match args.attributes {
            Some(attributes) => attributes_of(attributes.client@, attributes.client@.len() as int),
            None => Seq::empty(),
        },
        plans_of(
            input.operations@,
            sorted_out(input.operations@, true, input.operations@.len() as int),
            r.operations@,
        ),
        refusals_of(
            input.operations@,
            sorted_out(input.operations@, false, input.operations@.len() as int),
            r.rejected@,
        ),
{
    let trait_name = input.name.clone().concat("Crab");
    let struct_name = match &args.on {
        Some(asked) => asked.clone(),
        None => input.name.clone().concat("Client"),
    };
    let (trait_attributes, struct_attributes) = match &args.attributes {
        Some(attributes) => (
            pick_attributes(&attributes.crab),
            pick_attributes(&attributes.client),
        ),
        None => {
            let none: Vec<String> = Vec::new();
            let neither: Vec<String> = Vec::new();
            assert(texts_of(none@) =~= Seq::<Seq<char>>::empty());
            assert(texts_of(neither@) =~= Seq::<Seq<char>>::empty());
            (none, neither)
        },
    };
    let mut operations: Vec<Operation> = Vec::new();
    let mut rejected: Vec<Rejected> = Vec::new();
    let mut i: usize = 0;
    while i < input.operations.len()
        invariant
            i <= input.operations@.len(),
            plans_of(
                input.operations@,
                sorted_out(input.operations@, true, i as int),
                operations@,
            ),
            refusals_of(
                input.operations@,
                sorted_out(input.operations@, false, i as int),
                rejected@,
            ),
        decreases input.operations@.len() - i,
    {
        match on_sig(&input.operations[i]) {
            Ok(operation) => {
                operations.push(operation);
            },
            Err(errors) => {
                rejected.push(Rejected { operation: i, errors });
            },
        }
        i = i + 1;
    }
    Interface {
        trait_name,
        struct_name,
        crab: args.crab.clone(),
        trait_attributes,
        struct_attributes,
        operations,
        rejected,
    }
}

} // verus!
