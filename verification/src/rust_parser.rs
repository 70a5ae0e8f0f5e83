//! The extractor for the Rust-family language.
//!
//! Its query table joins a struct's data shape with the impl blocks naming
//! the same type: the join is a structural constraint of the class pattern
//! itself, so a behavior block without a matching data shape never surfaces
//! as a class, while a data shape with no behavior block still yields a
//! class with an empty method sequence.  Field and method visibility default
//! to private, flipped to public by an explicit `pub` marker.
use vstd::prelude::*;

use crate::capture::CaptureKind;
use crate::capture::RawMatch;
use crate::capture::capture_kind;
use crate::parser::ExtractError;
use crate::parser::LangChoice;
use crate::parser::LangParser;
use crate::provider::RustEngine;
use crate::provider::SourceTree;
use crate::provider::rust_class_matches;
use crate::provider::rust_field_matches;
use crate::provider::rust_method_matches;
use crate::provider::rust_param_matches;
use crate::reconcile::build_fields;
use crate::reconcile::build_parameters;
use crate::reconcile::class_res;
use crate::reconcile::classes_res;
use crate::reconcile::method_of_match;
use crate::reconcile::method_res;
use crate::reconcile::method_scan;
use crate::reconcile::methods_of_matches;
use crate::reconcile::methods_res;
use crate::reconcile::params_of_matches;
use crate::reconcile::rust_class_of_match;
use crate::reconcile::rust_class_scan;
use crate::reconcile::rust_classes_of;
use crate::reconcile::rust_entities;
use crate::reconcile::seq_res;
use crate::reconcile::ok_concat;
use crate::reconcile::fields_of_matches;
use crate::uml::ClassView;
use crate::uml::MethodView;
use crate::uml::UmlAssociation;
use crate::uml::UmlClass;
use crate::uml::UmlEnum;
use crate::uml::UmlField;
use crate::uml::UmlMethod;
use crate::uml::UmlParameter;
use crate::uml::UmlVisibility;
use crate::uml::class_view;
use crate::uml::class_views;
use crate::uml::method_view;

verus! {

pub const METHOD_ARGS_QUERY: &'static str = "
(parameter pattern: (identifier) @function.parameter.name
  type: (_) @function.parameter.type)
";

pub const METHOD_QUERY: &'static str = "
(function_item
  (visibility_modifier)? @function.visibility
    name: (identifier) @function.name
    parameters: (parameters) @function.parameters
    return_type: (_)? @function.return_type)
";

pub const CLASS_FIELDS_QUERY: &'static str = "
(field_declaration
  (visibility_modifier)? @class.field.visibility
  name: (field_identifier) @class.field.name
  type: (_) @class.field.type)
";

pub const CLASS_QUERY: &'static str = "
(
  (struct_item
    name: (type_identifier) @struct.name
    body: (field_declaration_list ) @class.fields)
  (impl_item
    type: (type_identifier) @class.name
    body: (declaration_list) @class.functions)*
(#eq? @struct.name @class.name))";

/// The Rust-family extractor: one engine with the compiled query table, and
/// the entity lists it appends to, one parse call per buffer.
pub struct RustParser {
    engine: RustEngine,
    classes: Vec<UmlClass>,
    enums: Vec<UmlEnum>,
}

impl RustParser {
    /// The classes accumulated so far in this run.
    pub closed spec fn classes_seq(self) -> Seq<UmlClass> {
        self.classes@
    }

    /// The enums accumulated so far in this run.
    pub closed spec fn enums_seq(self) -> Seq<UmlEnum> {
        self.enums@
    }

    /// A fresh extractor with empty entity lists.
    pub fn new() -> (r: RustParser)
        ensures
            r.classes_seq() == Seq::<UmlClass>::empty(),
            r.enums_seq() == Seq::<UmlEnum>::empty(),
    {
        match RustEngine::new(CLASS_QUERY, METHOD_QUERY, METHOD_ARGS_QUERY, CLASS_FIELDS_QUERY) {
            Ok(engine) => RustParser { engine, classes: Vec::new(), enums: Vec::new() },
            Err(_) => vstd::pervasive::unreached(),
        }
    }

    /// Parses a buffer into a syntax tree for this extractor's grammar,
    /// without touching the entity lists.
    pub fn parse_source(&mut self, buffer: &Vec<u8>) -> (r: Result<SourceTree, ExtractError>)
        ensures
            r is Ok,
            r->Ok_0.lang() == LangChoice::RUST && r->Ok_0.src() == buffer@,
            final(self).classes_seq() == old(self).classes_seq(),
            final(self).enums_seq() == old(self).enums_seq(),
    {
        self.engine.parse_tree(buffer)
    }

    /// Reconciles the parameter matches of the given region.
    pub fn parse_method_args(&self, st: &SourceTree, start: usize, end: usize) -> (r: Result<
        Vec<UmlParameter>,
        ExtractError,
    >)
        requires
            st.lang() == LangChoice::RUST,
        ensures
            seq_res(r) == params_of_matches(
                rust_param_matches(st.src(), start as int, end as int),
            ),
    {
        let ms = self.engine.param_matches(st, start, end);
        build_parameters(&ms)
    }

    /// Reconciles one method match, resolving its parameter-list region.
    fn build_method(&self, st: &SourceTree, m: &RawMatch) -> (r: Result<UmlMethod, ExtractError>)
        requires
            st.lang() == LangChoice::RUST,
        ensures
            method_res(r) == method_of_match(LangChoice::RUST, st.src(), *m),
    {
        let mut name: Option<String> = None;
        let mut ret: Option<String> = None;
        let mut params: Vec<UmlParameter> = Vec::new();
        let mut vis: UmlVisibility = UmlVisibility::Private;
        let mut j: usize = 0;
        proof {
            assert(m.captures@.skip(0) =~= m.captures@);
            assert(params@ =~= Seq::<UmlParameter>::empty());
        }
        while j < m.captures.len()
            invariant
                j <= m.captures.len(),
                st.lang() == LangChoice::RUST,
                method_of_match(LangChoice::RUST, st.src(), *m) == method_scan(
                    LangChoice::RUST,
                    st.src(),
                    m.captures@.skip(j as int),
                    name,
                    ret,
                    params@,
                    vis,
                ),
            decreases m.captures.len() - j,
        {
            let c = &m.captures[j];
            proof {
                assert(m.captures@.skip(j as int).first() == m.captures@[j as int]);
                assert(m.captures@.skip(j as int).drop_first() =~= m.captures@.skip(j as int + 1));
            }
            match capture_kind(&c.name) {
                Some(CaptureKind::FunctionName) => {
                    name = Some(c.text.clone());
                },
                Some(CaptureKind::FunctionReturnType) => {
                    ret = Some(c.text.clone());
                },
                Some(CaptureKind::FunctionVisibility) => {
                    if crate::capture::name_is(&c.text, "pub") {
                        vis = UmlVisibility::Public;
                    }
                },
                Some(CaptureKind::FunctionParameters) => {
                    let pms = self.engine.param_matches(st, c.start, c.end);
                    match build_parameters(&pms) {
                        Ok(ps) => {
                            params = ps;
                        },
                        Err(e) => {
                            return Err(e);
                        },
                    }
                },
                _ => {
                    return Err(ExtractError::UnrecognizedCapture);
                },
            }
            j += 1;
        }
        proof {
            assert(m.captures@.skip(j as int) =~= Seq::<crate::capture::RawCapture>::empty());
        }
        match name {
            Some(n) => Ok(
                UmlMethod { name: n, visibility: vis, parameters: params, return_type: ret },
            ),
            None => Err(ExtractError::MalformedMatch),
        }
    }

    /// Reconciles the method matches of the given region.
    pub fn parse_methods(&self, st: &SourceTree, start: usize, end: usize) -> (r: Result<
        Vec<UmlMethod>,
        ExtractError,
    >)
        requires
            st.lang() == LangChoice::RUST,
        ensures
            methods_res(r) == methods_of_matches(
                LangChoice::RUST,
                st.src(),
                rust_method_matches(st.src(), start as int, end as int),
            ),
    {
        let ms = self.engine.method_matches(st, start, end);
        let ghost all = methods_of_matches(LangChoice::RUST, st.src(), ms@);
        let mut out: Vec<UmlMethod> = Vec::new();
        let mut i: usize = 0;
        proof {
            assert(ms@.skip(0) =~= ms@);
            assert(out@.map_values(|m: UmlMethod| method_view(m)) =~= Seq::<MethodView>::empty());
            if all is Ok {
                assert(Seq::<MethodView>::empty() + all->Ok_0 =~= all->Ok_0);
            }
        }
        while i < ms.len()
            invariant
                i <= ms.len(),
                st.lang() == LangChoice::RUST,
                ms@ == rust_method_matches(st.src(), start as int, end as int),
                all == methods_of_matches(LangChoice::RUST, st.src(), ms@),
                all == ok_concat(
                    out@.map_values(|m: UmlMethod| method_view(m)),
                    methods_of_matches(LangChoice::RUST, st.src(), ms@.skip(i as int)),
                ),
            decreases ms.len() - i,
        {
            proof {
                assert(ms@.skip(i as int).first() == ms@[i as int]);
                assert(ms@.skip(i as int).drop_first() =~= ms@.skip(i as int + 1));
            }
            match self.build_method(st, &ms[i]) {
                Ok(mm) => {
                    proof {
                        let pre = out@.map_values(|m: UmlMethod| method_view(m));
                        let tail = methods_of_matches(
                            LangChoice::RUST,
                            st.src(),
                            ms@.skip(i as int + 1),
                        );
                        assert(out@.push(mm).map_values(|m: UmlMethod| method_view(m)) =~= pre.push(
                            method_view(mm),
                        ));
                        if tail is Ok {
                            assert((pre + (seq![method_view(mm)] + tail->Ok_0)) =~= (pre.push(
                                method_view(mm),
                            ) + tail->Ok_0));
                        }
                    }
                    out.push(mm);
                },
                Err(e) => {
                    return Err(e);
                },
            }
            i += 1;
        }
        proof {
            assert(ms@.skip(i as int) =~= Seq::<RawMatch>::empty());
            assert(out@.map_values(|m: UmlMethod| method_view(m)) + Seq::<MethodView>::empty()
                =~= out@.map_values(|m: UmlMethod| method_view(m)));
        }
        Ok(out)
    }

    /// Reconciles the field matches of the given region, with the private
    /// default visibility of this language.
    fn parse_class_fields(&self, st: &SourceTree, start: usize, end: usize) -> (r: Result<
        Vec<UmlField>,
        ExtractError,
    >)
        requires
            st.lang() == LangChoice::RUST,
        ensures
            seq_res(r) == fields_of_matches(
                rust_field_matches(st.src(), start as int, end as int),
                UmlVisibility::Private,
            ),
    {
        let ms = self.engine.field_matches(st, start, end);
        build_fields(&ms, UmlVisibility::Private)
    }

    /// Assembles one joined class match: the data shape's fields and every
    /// behavior block's methods, concatenated in capture order.
    fn build_class(&self, st: &SourceTree, m: &RawMatch) -> (r: Result<UmlClass, ExtractError>)
        requires
            st.lang() == LangChoice::RUST,
        ensures
            class_res(r) == rust_class_of_match(st.src(), *m),
    {
        let mut name: Option<String> = None;
        let mut fields: Vec<UmlField> = Vec::new();
        let mut methods: Vec<UmlMethod> = Vec::new();
        let mut j: usize = 0;
        proof {
            assert(m.captures@.skip(0) =~= m.captures@);
            assert(fields@ =~= Seq::<UmlField>::empty());
            assert(methods@.map_values(|x: UmlMethod| method_view(x)) =~= Seq::<
                MethodView,
            >::empty());
        }
        while j < m.captures.len()
            invariant
                j <= m.captures.len(),
                st.lang() == LangChoice::RUST,
                rust_class_of_match(st.src(), *m) == rust_class_scan(
                    st.src(),
                    m.captures@.skip(j as int),
                    name,
                    fields@,
                    methods@.map_values(|x: UmlMethod| method_view(x)),
                ),
            decreases m.captures.len() - j,
        {
            let c = &m.captures[j];
            proof {
                assert(m.captures@.skip(j as int).first() == m.captures@[j as int]);
                assert(m.captures@.skip(j as int).drop_first() =~= m.captures@.skip(j as int + 1));
            }
            match capture_kind(&c.name) {
                Some(CaptureKind::StructName) => {
                    name = Some(c.text.clone());
                },
                Some(CaptureKind::ClassName) => {
                    name = Some(c.text.clone());
                },
                Some(CaptureKind::ClassFields) => {
                    match self.parse_class_fields(st, c.start, c.end) {
                        Ok(mut fs) => {
                            proof {
                                assert(fields@ + fs@ =~= fields@ + fs@);
                            }
                            fields.append(&mut fs);
                        },
                        Err(e) => {
                            return Err(e);
                        },
                    }
                },
                Some(CaptureKind::ClassFunctions) => {
                    match self.parse_methods(st, c.start, c.end) {
                        Ok(mut msv) => {
                            proof {
                                assert((methods@ + msv@).map_values(|x: UmlMethod| method_view(x))
                                    =~= methods@.map_values(|x: UmlMethod| method_view(x))
                                    + msv@.map_values(|x: UmlMethod| method_view(x)));
                            }
                            methods.append(&mut msv);
                        },
                        Err(e) => {
                            return Err(e);
                        },
                    }
                },
                _ => {
                    return Err(ExtractError::UnrecognizedCapture);
                },
            }
            j += 1;
        }
        proof {
            assert(m.captures@.skip(j as int) =~= Seq::<crate::capture::RawCapture>::empty());
        }
        match name {
            Some(n) => Ok(
                UmlClass {
                    name: n,
                    modifier: None,
                    visibility: UmlVisibility::Public,
                    methods,
                    fields,
                    extends: Vec::new(),
                    implements: Vec::new(),
                    associations: Vec::new(),
                },
            ),
            None => Err(ExtractError::MalformedMatch),
        }
    }

    /// Assembles the classes of the join pattern's matches over the given
    /// region, one class per match, in match order.
    pub fn parse_classes(&self, st: &SourceTree, start: usize, end: usize) -> (r: Result<
        Vec<UmlClass>,
        ExtractError,
    >)
        requires
            st.lang() == LangChoice::RUST,
        ensures
            classes_res(r) == rust_classes_of(
                st.src(),
                rust_class_matches(st.src(), start as int, end as int),
            ),
    {
        let ms = self.engine.class_matches(st, start, end);
        let ghost all = rust_classes_of(st.src(), ms@);
        let mut out: Vec<UmlClass> = Vec::new();
        let mut i: usize = 0;
        proof {
            assert(ms@.skip(0) =~= ms@);
            assert(out@.map_values(|c: UmlClass| class_view(c)) =~= Seq::<ClassView>::empty());
            if all is Ok {
                assert(Seq::<ClassView>::empty() + all->Ok_0 =~= all->Ok_0);
            }
        }
        while i < ms.len()
            invariant
                i <= ms.len(),
                st.lang() == LangChoice::RUST,
                ms@ == rust_class_matches(st.src(), start as int, end as int),
                all == rust_classes_of(st.src(), ms@),
                all == ok_concat(
                    out@.map_values(|c: UmlClass| class_view(c)),
                    rust_classes_of(st.src(), ms@.skip(i as int)),
                ),
            decreases ms.len() - i,
        {
            proof {
                assert(ms@.skip(i as int).first() == ms@[i as int]);
                assert(ms@.skip(i as int).drop_first() =~= ms@.skip(i as int + 1));
            }
            match self.build_class(st, &ms[i]) {
                Ok(cc) => {
                    proof {
                        let pre = out@.map_values(|c: UmlClass| class_view(c));
                        let tail = rust_classes_of(st.src(), ms@.skip(i as int + 1));
                        assert(out@.push(cc).map_values(|c: UmlClass| class_view(c)) =~= pre.push(
                            class_view(cc),
                        ));
                        if tail is Ok {
                            assert((pre + (seq![class_view(cc)] + tail->Ok_0)) =~= (pre.push(
                                class_view(cc),
                            ) + tail->Ok_0));
                        }
                    }
                    out.push(cc);
                },
                Err(e) => {
                    return Err(e);
                },
            }
            i += 1;
        }
        proof {
            assert(ms@.skip(i as int) =~= Seq::<RawMatch>::empty());
            assert(out@.map_values(|c: UmlClass| class_view(c)) + Seq::<ClassView>::empty()
                =~= out@.map_values(|c: UmlClass| class_view(c)));
        }
        Ok(out)
    }

    /// Parses one buffer and appends every class it yields to this
    /// extractor's entity list.  It succeeds exactly when extraction does —
    /// a buffer yielding zero entities is a success — and the lists are
    /// untouched on failure.
    pub fn parse(&mut self, buffer: &Vec<u8>) -> (r: Result<(), ExtractError>)
        ensures
            r is Ok <==> rust_entities(buffer@) is Ok,
            r is Ok ==> class_views(final(self).classes_seq()) == class_views(
                old(self).classes_seq(),
            ) + rust_entities(buffer@)->Ok_0,
            r is Err ==> final(self).classes_seq() == old(self).classes_seq() && rust_entities(
                buffer@,
            ) == Err::<Seq<ClassView>, ExtractError>(r->Err_0),
            final(self).enums_seq() == old(self).enums_seq(),
    {
        let st = match self.engine.parse_tree(buffer) {
            Ok(st) => st,
            Err(_) => vstd::pervasive::unreached(),
        };
        match self.parse_classes(&st, 0, buffer.len()) {
            Ok(mut cs) => {
                proof {
                    assert(class_views(self.classes@ + cs@) =~= class_views(self.classes@)
                        + class_views(cs@));
                }
                self.classes.append(&mut cs);
                Ok(())
            },
            Err(e) => Err(e),
        }
    }

    /// The classes parsed so far in this run.
    pub fn classes(&self) -> (r: &Vec<UmlClass>)
        ensures
            r@ == self.classes_seq(),
    {
        &self.classes
    }

    /// The enums parsed so far in this run.
    pub fn enums(&self) -> (r: &Vec<UmlEnum>)
        ensures
            r@ == self.enums_seq(),
    {
        &self.enums
    }

    /// Association extraction is not implemented for this language variant:
    /// a typed signal, never a crash.
    pub fn assocations(&self) -> (r: Result<&Vec<UmlAssociation>, ExtractError>)
        ensures
            r is Err && r->Err_0 == ExtractError::Unsupported,
    {
        Err(ExtractError::Unsupported)
    }
}

impl LangParser for RustParser {
    open spec fn classes_model(&self) -> Seq<UmlClass> {
        self.classes_seq()
    }

    open spec fn enums_model(&self) -> Seq<UmlEnum> {
        self.enums_seq()
    }

    open spec fn extraction(&self, src: Seq<u8>) -> Result<Seq<ClassView>, ExtractError> {
        rust_entities(src)
    }

    fn parse(&mut self, buffer: &Vec<u8>) -> Result<(), ExtractError> {
        RustParser::parse(self, buffer)
    }

    fn classes(&self) -> &Vec<UmlClass> {
        RustParser::classes(self)
    }

    fn assocations(&self) -> Result<&Vec<UmlAssociation>, ExtractError> {
        RustParser::assocations(self)
    }

    fn enums(&self) -> &Vec<UmlEnum> {
        RustParser::enums(self)
    }
}

} // verus!
