//! The language-agnostic extractor contract and the extraction error
//! taxonomy.
//!
//! Each supported language has one extractor type implementing `LangParser`.
//! An extractor owns its entity lists, which grow append-only over the parse
//! calls of one run.
use vstd::prelude::*;

use crate::uml::ClassView;
use crate::uml::UmlAssociation;
use crate::uml::UmlClass;
use crate::uml::UmlEnum;
use crate::uml::class_views;

verus! {

/// The supported source languages.
#[derive(Clone, Copy, Debug, PartialEq, Eq, Structural)]
pub enum LangChoice {
    RUST,
    CPP,
}

/// Why an extraction step failed.
///
/// `ParseFailed` is an unrecoverable syntax failure; `MalformedMatch` and
/// `UnrecognizedCapture` signal a query/grammar contract violation;
/// `QueryBuild` a pattern that the grammar rejects; `Unsupported` a typed
/// not-implemented signal for a language variant.
#[derive(Clone, Copy, Debug, PartialEq, Eq, Structural)]
pub enum ExtractError {
    ParseFailed,
    QueryBuild,
    MalformedMatch,
    UnrecognizedCapture,
    Unsupported,
}

/// The uniform per-language extractor contract: feed byte buffers in with
/// `parse`, read the accumulated entity model back out.
pub trait LangParser {
    /// The classes accumulated so far in this run.
    spec fn classes_model(&self) -> Seq<UmlClass>;

    /// The enums accumulated so far in this run.
    spec fn enums_model(&self) -> Seq<UmlEnum>;

    /// What this extractor's query table derives from one buffer: a function
    /// of the buffer alone.
    spec fn extraction(&self, src: Seq<u8>) -> Result<Seq<ClassView>, ExtractError>;

    fn parse(&mut self, buffer: &Vec<u8>) -> (r: Result<(), ExtractError>)
        ensures
            r is Ok <==> old(self).extraction(buffer@) is Ok,
            r is Ok ==> class_views(final(self).classes_model()) == class_views(
                old(self).classes_model(),
            ) + old(self).extraction(buffer@)->Ok_0,
            r is Err ==> final(self).classes_model() == old(self).classes_model(),
            final(self).enums_model() == old(self).enums_model(),
            final(self).extraction(buffer@) == old(self).extraction(buffer@),
    ;

    fn classes(&self) -> (r: &Vec<UmlClass>)
        ensures
            r@ == self.classes_model(),
    ;

    fn assocations(&self) -> Result<&Vec<UmlAssociation>, ExtractError>;

    fn enums(&self) -> (r: &Vec<UmlEnum>)
        ensures
            r@ == self.enums_model(),
    ;
}

} // verus!
