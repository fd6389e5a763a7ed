use vstd::prelude::*;

use crate::text::str_eq;

verus! {

/// The kinds of work an inbound request can ask for.
#[derive(Clone, Copy, Debug, PartialEq, Eq, Structural)]
pub enum ExecutionKind {
    ActionRun,
    Management,
    Resolver,
    SchemaVariantDefinition,
    Validation,
    Kill,
}

/// The subject suffix that names each kind on the inbound bus.
pub open spec fn suffix_of(k: ExecutionKind) -> Seq<char> {
    match k {
        ExecutionKind::ActionRun => "actionrun"@,
        ExecutionKind::Management => "management"@,
        ExecutionKind::Resolver => "resolver"@,
        ExecutionKind::SchemaVariantDefinition => "schemavariantdefinition"@,
        ExecutionKind::Validation => "validation"@,
        ExecutionKind::Kill => "kill"@,
    }
}

/// The kind whose suffix is `s`, if any.
pub open spec fn kind_of_suffix(s: Seq<char>) -> Option<ExecutionKind> {
    if s == "actionrun"@ {
        Some(ExecutionKind::ActionRun)
    } else if s == "management"@ {
        Some(ExecutionKind::Management)
    } else if s == "resolver"@ {
        Some(ExecutionKind::Resolver)
    } else if s == "schemavariantdefinition"@ {
        Some(ExecutionKind::SchemaVariantDefinition)
    } else if s == "validation"@ {
        Some(ExecutionKind::Validation)
    } else if s == "kill"@ {
        Some(ExecutionKind::Kill)
    } else {
        None
    }
}

/// The sub-command an executor is told to run for each kind; a kill never
/// reaches an executor.
pub open spec fn sub_command_of(k: ExecutionKind) -> Option<Seq<char>> {
    match k {
        ExecutionKind::ActionRun => Some("actionRun"@),
        ExecutionKind::Management => Some("management"@),
        ExecutionKind::Resolver => Some("resolverfunction"@),
        ExecutionKind::SchemaVariantDefinition => Some("schemaVariantDefinition"@),
        ExecutionKind::Validation => Some("validation"@),
        ExecutionKind::Kill => None,
    }
}

impl ExecutionKind {
    /// Reads a kind from the last part of an inbound subject.
    pub fn from_subject_suffix(s: &str) -> (r: Option<ExecutionKind>)
        ensures
            r == kind_of_suffix(s@),
    {
        if str_eq(s, "actionrun") {
            Some(ExecutionKind::ActionRun)
        } else if str_eq(s, "management") {
            Some(ExecutionKind::Management)
        } else if str_eq(s, "resolver") {
            Some(ExecutionKind::Resolver)
        } else if str_eq(s, "schemavariantdefinition") {
            Some(ExecutionKind::SchemaVariantDefinition)
        } else if str_eq(s, "validation") {
            Some(ExecutionKind::Validation)
        } else if str_eq(s, "kill") {
            Some(ExecutionKind::Kill)
        } else {
            None
        }
    }

    /// The subject suffix of this kind.
    pub fn subject_suffix(&self) -> (r: &'static str)
        ensures
            r@ == suffix_of(*self),
    {
        match self {
            ExecutionKind::ActionRun => "actionrun",
            ExecutionKind::Management => "management",
            ExecutionKind::Resolver => "resolver",
            ExecutionKind::SchemaVariantDefinition => "schemavariantdefinition",
            ExecutionKind::Validation => "validation",
            ExecutionKind::Kill => "kill",
        }
    }

    /// The sub-command written in the start frame for this kind.
    pub fn sub_command(&self) -> (r: Option<&'static str>)
        ensures
            r is Some <==> sub_command_of(*self) is Some,
            r is Some ==> r->0@ == sub_command_of(*self)->0,
    {
        match self {
            ExecutionKind::ActionRun => Some("actionRun"),
            ExecutionKind::Management => Some("management"),
            ExecutionKind::Resolver => Some("resolverfunction"),
            ExecutionKind::SchemaVariantDefinition => Some("schemaVariantDefinition"),
            ExecutionKind::Validation => Some("validation"),
            ExecutionKind::Kill => None,
        }
    }

    /// Whether this kind runs on an executor (every kind but a kill).
    pub fn is_requestable(&self) -> (r: bool)
        ensures
            r == (*self != ExecutionKind::Kill),
    {
        !matches!(self, ExecutionKind::Kill)
    }
}

} // verus!
