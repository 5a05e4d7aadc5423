//! From the description of an interface to the plans of its operations.
use vstd::prelude::*;

pub mod on_sig;
pub mod on_trait;

pub use on_sig::on_sig;
pub use on_trait::on_trait;

verus! {

/// A literal of a declaration.
#[derive(Debug, PartialEq, Eq)]
pub enum Literal {
    Str(String),
    Int(i64),
    Bool(bool),
}

/// An item of a list in a declaration.
#[derive(Debug, PartialEq, Eq)]
pub enum NestedMeta {
    /// A literal.
    Lit(Literal),
    /// Anything else, as written.
    Meta(String),
}

/// An attribute as written in a declaration.
#[derive(Debug, PartialEq, Eq)]
pub enum Meta {
    /// A bare name.
    Path(String),
    /// A name with a list of items, each as written.
    List(String, Vec<String>),
    /// A name with a value.
    NameValue(String, String),
}

/// The attributes to put on what is generated.
#[derive(Debug)]
pub struct AttributesArgs {
    /// For the generated trait.
    pub crab: Vec<Meta>,
    /// For the generated client.
    pub client: Vec<Meta>,
}

/// The arguments of the declaration of an interface.
#[derive(Debug)]
pub struct Args {
    /// The name of the client, where it is not to be derived from that of the
    /// interface.
    pub on: Option<String>,
    /// The transport that the client wraps.
    pub crab: String,
    pub attributes: Option<AttributesArgs>,
}

} // verus!
