use vstd::prelude::*;

verus! {

/// Errors reported by registry and component operations.
#[derive(Debug, Clone, PartialEq, Eq)]
pub enum FrameworkError {
    /// A component type identity was blank.
    InvalidComponentType,
    /// A component type identity was registered twice.
    DuplicateComponentType(String),
    /// A markup tag was registered twice.
    DuplicateComponentTag(String),
    /// A binding named a type that is not registered.
    MissingComponentType(String),
}

} // verus!
