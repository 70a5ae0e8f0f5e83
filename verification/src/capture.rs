//! Capture records handed back by the pattern-query layer, and the closed
//! set of capture kinds the reconciler understands.
//!
//! A query match is an ordered list of named captures; each capture carries
//! the source text of its node and the node's byte range, so that further
//! queries can be run against that region.  Capture names outside the closed
//! set are a query/configuration defect and are reported as errors rather
//! than silently dropped.
use vstd::prelude::*;

verus! {

/// One named capture of a query match: the capture name, the source text of
/// the captured node, and the node's byte range within the parsed buffer.
#[derive(Clone, Debug)]
pub struct RawCapture {
    pub name: String,
    pub text: String,
    pub start: usize,
    pub end: usize,
}

/// One query match: its captures, in the order the query engine reports them.
#[derive(Clone, Debug)]
pub struct RawMatch {
    pub captures: Vec<RawCapture>,
}

/// The closed set of capture names used by the query tables of all supported
/// languages.  An unrecognized name maps to `None` and is treated as an error
/// by the reconciler, so a query edit cannot silently add capture kinds.
#[derive(Clone, Copy, Debug, PartialEq, Eq, Structural)]
pub enum CaptureKind {
    StructName,
    ClassName,
    ClassFields,
    ClassFunctions,
    ClassWhole,
    ClassExtends,
    FieldVisibility,
    FieldName,
    FieldType,
    FunctionVisibility,
    FunctionName,
    FunctionParameters,
    FunctionReturnType,
    ParameterName,
    ParameterType,
    AssociationTo,
    AssociationToTitle,
}

/// The fixed capture-name-to-kind mapping shared by all query tables.
pub open spec fn kind_of_name(n: Seq<char>) -> Option<CaptureKind> {
    if n == "struct.name"@ {
        Some(CaptureKind::StructName)
    } else if n == "class.name"@ {
        Some(CaptureKind::ClassName)
    } else if n == "class.fields"@ {
        Some(CaptureKind::ClassFields)
    } else if n == "class.functions"@ {
        Some(CaptureKind::ClassFunctions)
    } else if n == "class"@ {
        Some(CaptureKind::ClassWhole)
    } else if n == "class.extends"@ {
        Some(CaptureKind::ClassExtends)
    } else if n == "class.field.visibility"@ {
        Some(CaptureKind::FieldVisibility)
    } else if n == "class.field.name"@ {
        Some(CaptureKind::FieldName)
    } else if n == "class.field.type"@ {
        Some(CaptureKind::FieldType)
    } else if n == "function.visibility"@ {
        Some(CaptureKind::FunctionVisibility)
    } else if n == "function.name"@ {
        Some(CaptureKind::FunctionName)
    } else if n == "function.parameters"@ {
        Some(CaptureKind::FunctionParameters)
    } else if n == "function.return_type"@ {
        Some(CaptureKind::FunctionReturnType)
    } else if n == "function.parameter.name"@ {
        Some(CaptureKind::ParameterName)
    } else if n == "function.parameter.type"@ {
        Some(CaptureKind::ParameterType)
    } else if n == "class.association.to"@ {
        Some(CaptureKind::AssociationTo)
    } else if n == "class.association.to_title"@ {
        Some(CaptureKind::AssociationToTitle)
    } else {
        None
    }
}

/// True exactly when `n` spells `lit`.
pub(crate) fn name_is(n: &String, lit: &str) -> (r: bool)
    ensures
        r == (n@ == lit@),
{
    let owned: String = lit.to_owned();
    *n == owned
}

/// Resolves a capture name to its kind; `None` for a name outside the
/// closed set.
pub fn capture_kind(n: &String) -> (r: Option<CaptureKind>)
    ensures
        r == kind_of_name(n@),
{
    if name_is(n, "struct.name") {
        Some(CaptureKind::StructName)
    } else if name_is(n, "class.name") {
        Some(CaptureKind::ClassName)
    } else if name_is(n, "class.fields") {
        Some(CaptureKind::ClassFields)
    } else if name_is(n, "class.functions") {
        Some(CaptureKind::ClassFunctions)
    } else if name_is(n, "class") {
        Some(CaptureKind::ClassWhole)
    } else if name_is(n, "class.extends") {
        Some(CaptureKind::ClassExtends)
    } else if name_is(n, "class.field.visibility") {
        Some(CaptureKind::FieldVisibility)
    } else if name_is(n, "class.field.name") {
        Some(CaptureKind::FieldName)
    } else if name_is(n, "class.field.type") {
        Some(CaptureKind::FieldType)
    } else if name_is(n, "function.visibility") {
        Some(CaptureKind::FunctionVisibility)
    } else if name_is(n, "function.name") {
        Some(CaptureKind::FunctionName)
    } else if name_is(n, "function.parameters") {
        Some(CaptureKind::FunctionParameters)
    } else if name_is(n, "function.return_type") {
        Some(CaptureKind::FunctionReturnType)
    } else if name_is(n, "function.parameter.name") {
        Some(CaptureKind::ParameterName)
    } else if name_is(n, "function.parameter.type") {
        Some(CaptureKind::ParameterType)
    } else if name_is(n, "class.association.to") {
        Some(CaptureKind::AssociationTo)
    } else if name_is(n, "class.association.to_title") {
        Some(CaptureKind::AssociationToTitle)
    } else {
        None
    }
}

} // verus!
