//! The typed structure of a bus object's introspection data: nodes,
//! interfaces, methods, signals, properties and their annotations.
//!
//! The XML text itself is produced and consumed by external
//! collaborators; this module holds only the typed form.

use vstd::prelude::*;

verus! {

/// One object node: its name, the interfaces it implements, and its
/// child nodes.
#[derive(Debug, PartialEq)]
pub struct Node {
    pub name: Option<String>,
    pub interfaces: Vec<Interface>,
    pub nodes: Vec<Node>,
}

/// One interface of a node.
#[derive(Clone, Debug, PartialEq)]
pub struct Interface {
    pub name: String,
    pub methods: Vec<Method>,
    pub signals: Vec<Signal>,
    pub properties: Vec<Property>,
    pub annotations: Vec<Annotation>,
}

/// One method of an interface.
#[derive(Clone, Debug, PartialEq)]
pub struct Method {
    pub name: String,
    pub args: Vec<MethodArg>,
    pub annotations: Vec<Annotation>,
}

/// One signal of an interface.
#[derive(Clone, Debug, PartialEq)]
pub struct Signal {
    pub name: String,
    pub args: Vec<SignalArg>,
    pub annotations: Vec<Annotation>,
}

/// One property of an interface.
#[derive(Clone, Debug, PartialEq)]
pub struct Property {
    pub name: String,
    pub dbustype: String,
    pub access: Access,
    pub annotations: Vec<Annotation>,
}

/// One argument of a method.
#[derive(Clone, Debug, PartialEq)]
pub struct MethodArg {
    pub name: Option<String>,
    pub dbustype: String,
    pub direction: Direction,
    pub annotations: Vec<Annotation>,
}

/// One argument of a signal.
#[derive(Clone, Debug, PartialEq)]
pub struct SignalArg {
    pub name: Option<String>,
    pub dbustype: String,
    pub direction: Direction,
    pub annotations: Vec<Annotation>,
}

/// One annotation: a named value attached to an item.
#[derive(Clone, Debug, PartialEq)]
pub struct Annotation {
    pub name: String,
    pub value: String,
}

/// The direction of an argument.
#[derive(Copy, Clone, Debug, PartialEq, Eq, Structural)]
pub enum Direction {
    In,
    Out,
}

/// The access mode of a property.
#[derive(Copy, Clone, Debug, PartialEq, Eq, Structural)]
pub enum Access {
    ReadWrite,
    Read,
    Write,
}

/// The direction a method argument has when its introspection data
/// names none.
pub fn default_method_arg_direction() -> (r: Direction)
    ensures
        r == Direction::In,
{
    Direction::In
}

/// The direction a signal argument has when its introspection data
/// names none.
pub fn default_signal_arg_direction() -> (r: Direction)
    ensures
        r == Direction::Out,
{
    Direction::Out
}

} // verus!
