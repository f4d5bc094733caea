//! The simpler, name-and-documentation project record of the data-model
//! layer.

use vstd::prelude::*;

verus! {

/// One member of a project's body; opaque payload from this module's point of
/// view.
#[derive(Debug, Clone, PartialEq)]
pub struct Field {
    /// Name of the field.
    pub name: String,
}

/// Represents a project in a schema document.
#[derive(Debug, Clone, PartialEq, Default)]
pub struct Project {
    /// Name of the project.
    pub name: String,
    /// Fields of the project.
    pub fields: Vec<Field>,
    /// Comments associated with this project.
    pub documentation: Option<String>,
}

impl Project {
    /// Creates a new project: the given name, no fields, no documentation.
    pub fn new(name: String) -> (r: Project)
        ensures
            r.name == name,
            r.fields@ == Seq::<Field>::empty(),
            r.documentation is None,
    {
        Project { name, fields: Vec::new(), documentation: None }
    }
}

} // verus!
