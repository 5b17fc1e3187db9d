//! The in-memory model of an ABI manifest: the JSON-Schema subset that
//! an ABI producer emits, the type catalogue, and the method list.

use vstd::prelude::*;
use vstd::string::StringExecFns;

verus! {

/// One type definition of the JSON-Schema subset handled here:
/// primitives, arrays, objects with named fields, tagged unions of
/// literal variants, references to another definition by name, and an
/// optional wrapper.
pub enum Schema {
    /// An integer primitive.
    Integer,
    /// A text primitive.
    Text,
    /// A boolean primitive.
    Boolean,
    /// A floating-point primitive. Only the name of the generated
    /// target type is involved; the generator itself never computes
    /// with such values.
    Float,
    /// A sequence of elements, optionally named.
    Array { title: Option<String>, elem: Box<Schema> },
    /// A record with named fields, each holding its own schema.
    /// A title is mandatory for expansion: it becomes the generated
    /// type's name.
    Object { title: Option<String>, fields: Vec<(String, Schema)> },
    /// A tagged union of literal variants, in declared order.
    Union { title: Option<String>, variants: Vec<String> },
    /// A reference to another definition by its title.
    Reference { target: String },
    /// A value that may be absent.
    Optional { elem: Box<Schema> },
}

/// One entry of the manifest's type catalogue: a numeric identifier,
/// unique within the manifest, and the schema it denotes.
pub struct TypeEntry {
    pub id: u32,
    pub schema: Schema,
}

/// One callable method of the manifest: its name, the type ids of its
/// arguments in order, the type id of its result if it declares one,
/// and whether the call is read-only (`is_view`) or mutates remote
/// state.
pub struct MethodEntry {
    pub name: String,
    pub args: Vec<u32>,
    pub result: Option<u32>,
    pub is_view: bool,
}

/// The root ABI document: an ordered type catalogue and an ordered
/// method list.
pub struct Manifest {
    pub types: Vec<TypeEntry>,
    pub methods: Vec<MethodEntry>,
}

/// Everything that can go wrong while compiling a manifest. All of
/// these are input errors: none is recovered silently, and a failed
/// compilation produces no output at all.
#[derive(Debug)]
pub enum Error {
    /// The manifest itself is structurally invalid, for instance two
    /// catalogue entries share a numeric id.
    MalformedManifest,
    /// A schema document does not fit the supported subset.
    MalformedSchema,
    /// An object or union schema that must be expanded into a named
    /// declaration carries no title.
    MissingTypeName,
    /// A reference names a definition that was never expanded.
    UnresolvedReference { target: String },
    /// A method argument references a type id absent from the
    /// catalogue.
    UnknownTypeId { id: u32 },
    /// A method declares no result type, or its result references a
    /// type id absent from the catalogue.
    UnresolvedReturnType,
    /// Writing the generated unit to its destination failed. Produced
    /// only by callers that perform output, never by the compilation
    /// itself.
    OutputWriteFailure,
}

/// The mathematical shape of an [`Error`], with names as character
/// sequences.
pub ghost enum ErrorV {
    MalformedManifest,
    MalformedSchema,
    MissingTypeName,
    UnresolvedReference { target: Seq<char> },
    UnknownTypeId { id: u32 },
    UnresolvedReturnType,
    OutputWriteFailure,
}

impl View for Error {
    type V = ErrorV;

    open spec fn view(&self) -> ErrorV {
        match self {
            Error::MalformedManifest => ErrorV::MalformedManifest,
            Error::MalformedSchema => ErrorV::MalformedSchema,
            Error::MissingTypeName => ErrorV::MissingTypeName,
            Error::UnresolvedReference { target } => ErrorV::UnresolvedReference {
                target: target@,
            },
            Error::UnknownTypeId { id } => ErrorV::UnknownTypeId { id: *id },
            Error::UnresolvedReturnType => ErrorV::UnresolvedReturnType,
            Error::OutputWriteFailure => ErrorV::OutputWriteFailure,
        }
    }
}

impl Error {
    /// A short description of the error, suitable for diagnostics.
    pub fn describe(&self) -> (s: String)
        ensures
            s@ == self.spec_describe(),
    {
        match self {
            Error::MalformedManifest => String::from_str("manifest is structurally invalid"),
            Error::MalformedSchema => String::from_str("schema is outside the supported subset"),
            Error::MissingTypeName => String::from_str("object schema carries no title"),
            Error::UnresolvedReference { target } => String::from_str(
                "reference to a definition that was never expanded: ",
            ).concat(target.as_str()),
            Error::UnknownTypeId { id: _ } => String::from_str(
                "method argument references a type id absent from the catalogue",
            ),
            Error::UnresolvedReturnType => String::from_str(
                "method result type is missing or cannot be resolved",
            ),
            Error::OutputWriteFailure => String::from_str("generated unit could not be written"),
        }
    }

    /// What [`Error::describe`] returns.
    pub open spec fn spec_describe(&self) -> Seq<char> {
        match self {
            Error::MalformedManifest => "manifest is structurally invalid"@,
            Error::MalformedSchema => "schema is outside the supported subset"@,
            Error::MissingTypeName => "object schema carries no title"@,
            Error::UnresolvedReference { target } => "reference to a definition that was never expanded: "@
                + target@,
            Error::UnknownTypeId { id: _ } => "method argument references a type id absent from the catalogue"@,
            Error::UnresolvedReturnType => "method result type is missing or cannot be resolved"@,
            Error::OutputWriteFailure => "generated unit could not be written"@,
        }
    }
}

} // verus!
