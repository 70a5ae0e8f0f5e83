//! The canonical, language-agnostic UML entity model.
//!
//! Entities are plain value records, created during a parse run and read by
//! the renderer afterwards.  Visibility has exactly two values; `extends` and
//! `associations` carry type names spelled exactly as in the source.
use vstd::prelude::*;

verus! {

#[derive(Clone, Copy, Debug, PartialEq, Eq, Structural)]
pub enum UmlVisibility {
    Private,
    Public,
}

#[derive(Clone, Copy, Debug, PartialEq, Eq, Structural)]
pub enum UmlClassModifier {
    Abstract,
    Interface,
}

#[derive(Clone, Debug, PartialEq, Eq)]
pub struct UmlEnum {
    pub name: String,
    pub variants: Vec<String>,
}

#[derive(Clone, Debug, PartialEq, Eq)]
pub struct UmlParameter {
    pub data_type: String,
    pub name: String,
}

#[derive(Clone, Debug, PartialEq, Eq)]
pub struct UmlAssociation {
    pub to: String,
    pub from_title: String,
    pub to_title: String,
}

#[derive(Clone, Debug, PartialEq, Eq)]
pub struct UmlMethod {
    pub name: String,
    pub visibility: UmlVisibility,
    pub parameters: Vec<UmlParameter>,
    pub return_type: Option<String>,
}

#[derive(Clone, Debug, PartialEq, Eq)]
pub struct UmlField {
    pub name: String,
    pub data_type: String,
    pub visibility: UmlVisibility,
}

#[derive(Clone, Debug, PartialEq, Eq)]
pub struct UmlInterface {
    pub name: String,
    pub modifier: Option<UmlClassModifier>,
    pub visibility: UmlVisibility,
    pub methods: Vec<UmlMethod>,
}

#[derive(Clone, Debug, PartialEq, Eq)]
pub struct UmlClass {
    pub name: String,
    pub modifier: Option<UmlClassModifier>,
    pub visibility: UmlVisibility,
    pub methods: Vec<UmlMethod>,
    pub fields: Vec<UmlField>,
    pub extends: Vec<String>,
    pub implements: Vec<String>,
    pub associations: Vec<UmlAssociation>,
}

#[derive(Clone, Debug, PartialEq, Eq)]
pub struct UmlStruct {
    pub name: String,
    pub visibility: UmlVisibility,
}

#[derive(Clone, Debug, PartialEq, Eq)]
pub enum UmlTopEntity {
    Class(UmlClass),
    Enum(UmlEnum),
}

/// The mathematical model of a method: `UmlMethod` with its parameter vector
/// abstracted to a sequence.
pub struct MethodView {
    pub name: String,
    pub visibility: UmlVisibility,
    pub parameters: Seq<UmlParameter>,
    pub return_type: Option<String>,
}

/// The mathematical model of a class: `UmlClass` with each vector abstracted
/// to a sequence.
pub struct ClassView {
    pub name: String,
    pub modifier: Option<UmlClassModifier>,
    pub visibility: UmlVisibility,
    pub methods: Seq<MethodView>,
    pub fields: Seq<UmlField>,
    pub extends: Seq<String>,
    pub implements: Seq<String>,
    pub associations: Seq<UmlAssociation>,
}

/// The model of a method value.
pub open spec fn method_view(m: UmlMethod) -> MethodView {
    MethodView {
        name: m.name,
        visibility: m.visibility,
        parameters: m.parameters@,
        return_type: m.return_type,
    }
}

/// The model of a class value.
pub open spec fn class_view(c: UmlClass) -> ClassView {
    ClassView {
        name: c.name,
        modifier: c.modifier,
        visibility: c.visibility,
        methods: c.methods@.map_values(|m: UmlMethod| method_view(m)),
        fields: c.fields@,
        extends: c.extends@,
        implements: c.implements@,
        associations: c.associations@,
    }
}

/// The models of a sequence of classes.
pub open spec fn class_views(cs: Seq<UmlClass>) -> Seq<ClassView> {
    cs.map_values(|c: UmlClass| class_view(c))
}

} // verus!
