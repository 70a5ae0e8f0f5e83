//! The match reconciler: folds the raw matches of one query into typed UML
//! records.
//!
//! Per match, every capture is dispatched on its kind and assigned to the
//! field of the record under construction; a capture outside the closed kind
//! set is an `UnrecognizedCapture` error, and a record whose mandatory
//! fields (name; for fields and parameters also the declared type) never
//! resolved is a `MalformedMatch` error.  Optional fields default per
//! language rule.  The spec functions below are the reference folds; each
//! executable function returns exactly what its fold says.
use vstd::prelude::*;

use crate::capture::CaptureKind;
use crate::capture::RawCapture;
use crate::capture::RawMatch;
use crate::capture::capture_kind;
use crate::capture::kind_of_name;
use crate::capture::name_is;
use crate::parser::ExtractError;
use crate::parser::LangChoice;
use crate::provider::cpp_assoc_matches;
use crate::provider::cpp_class_matches;
use crate::provider::cpp_extends_matches;
use crate::provider::cpp_field_matches;
use crate::provider::cpp_method_matches;
use crate::provider::cpp_param_matches;
use crate::provider::rust_class_matches;
use crate::provider::rust_field_matches;
use crate::provider::rust_method_matches;
use crate::provider::rust_param_matches;
use crate::uml::ClassView;
use crate::uml::MethodView;
use crate::uml::UmlAssociation;
use crate::uml::UmlClass;
use crate::uml::UmlField;
use crate::uml::UmlMethod;
use crate::uml::UmlParameter;
use crate::uml::UmlVisibility;
use crate::uml::class_view;
use crate::uml::method_view;

verus! {

/// The view of a fallible record vector.
pub open spec fn seq_res<T>(r: Result<Vec<T>, ExtractError>) -> Result<Seq<T>, ExtractError> {
    match r {
        Ok(v) => Ok(v@),
        Err(e) => Err(e),
    }
}

/// Already-reconciled records, prepended to a fallible tail.
pub open spec fn ok_concat<T>(pre: Seq<T>, rest: Result<Seq<T>, ExtractError>) -> Result<
    Seq<T>,
    ExtractError,
> {
    match rest {
        Ok(s) => Ok(pre + s),
        Err(e) => Err(e),
    }
}

/// True of the source text of an explicit public-visibility marker.
pub open spec fn is_pub_marker(t: Seq<char>) -> bool {
    t == "pub"@
}

/// One parameter match, folded capture by capture.
pub open spec fn param_scan(
    caps: Seq<RawCapture>,
    name: Option<String>,
    ty: Option<String>,
) -> Result<UmlParameter, ExtractError>
    decreases caps.len(),
{
    if caps.len() == 0 {
        match (name, ty) {
            (Some(n), Some(t)) => Ok(UmlParameter { data_type: t, name: n }),
            _ => Err(ExtractError::MalformedMatch),
        }
    } else {
        let c = caps.first();
        match kind_of_name(c.name@) {
            Some(CaptureKind::ParameterName) => param_scan(caps.drop_first(), Some(c.text), ty),
            Some(CaptureKind::ParameterType) => param_scan(caps.drop_first(), name, Some(c.text)),
            _ => Err(ExtractError::UnrecognizedCapture),
        }
    }
}

/// The parameter of one match.
pub open spec fn param_of_match(m: RawMatch) -> Result<UmlParameter, ExtractError> {
    param_scan(m.captures@, None, None)
}

/// The parameters of a match sequence, in match order; the first failing
/// match decides the error.
pub open spec fn params_of_matches(ms: Seq<RawMatch>) -> Result<Seq<UmlParameter>, ExtractError>
    decreases ms.len(),
{
    if ms.len() == 0 {
        Ok(Seq::empty())
    } else {
        match param_of_match(ms.first()) {
            Ok(p) => ok_concat(seq![p], params_of_matches(ms.drop_first())),
            Err(e) => Err(e),
        }
    }
}

/// Reconciles one parameter match.
pub(crate) fn build_parameter(m: &RawMatch) -> (r: Result<UmlParameter, ExtractError>)
    ensures
        r == param_of_match(*m),
{
    let mut name: Option<String> = None;
    let mut ty: Option<String> = None;
    let mut j: usize = 0;
    proof {
        assert(m.captures@.skip(0) =~= m.captures@);
    }
    while j < m.captures.len()
        invariant
            j <= m.captures.len(),
            param_of_match(*m) == param_scan(m.captures@.skip(j as int), name, ty),
        decreases m.captures.len() - j,
    {
        let c = &m.captures[j];
        proof {
            assert(m.captures@.skip(j as int).first() == m.captures@[j as int]);
            assert(m.captures@.skip(j as int).drop_first() =~= m.captures@.skip(j as int + 1));
        }
        match capture_kind(&c.name) {
            Some(CaptureKind::ParameterName) => {
                name = Some(c.text.clone());
            },
            Some(CaptureKind::ParameterType) => {
                ty = Some(c.text.clone());
            },
            _ => {
                return Err(ExtractError::UnrecognizedCapture);
            },
        }
        j += 1;
    }
    proof {
        assert(m.captures@.skip(j as int) =~= Seq::<RawCapture>::empty());
    }
    match (name, ty) {
        (Some(n), Some(t)) => Ok(UmlParameter { data_type: t, name: n }),
        _ => Err(ExtractError::MalformedMatch),
    }
}

/// Reconciles a parameter match sequence.
pub(crate) fn build_parameters(ms: &Vec<RawMatch>) -> (r: Result<Vec<UmlParameter>, ExtractError>)
    ensures
        seq_res(r) == params_of_matches(ms@),
{
    let mut out: Vec<UmlParameter> = Vec::new();
    let mut i: usize = 0;
    proof {
        assert(ms@.skip(0) =~= ms@);
        if params_of_matches(ms@) is Ok {
            assert(Seq::<UmlParameter>::empty() + params_of_matches(ms@)->Ok_0 =~= params_of_matches(
                ms@,
            )->Ok_0);
        }
    }
    while i < ms.len()
        invariant
            i <= ms.len(),
            params_of_matches(ms@) == ok_concat(out@, params_of_matches(ms@.skip(i as int))),
        decreases ms.len() - i,
    {
        proof {
            assert(ms@.skip(i as int).first() == ms@[i as int]);
            assert(ms@.skip(i as int).drop_first() =~= ms@.skip(i as int + 1));
        }
        match build_parameter(&ms[i]) {
            Ok(p) => {
                proof {
                    let tail = params_of_matches(ms@.skip(i as int + 1));
                    if tail is Ok {
                        assert((out@ + (seq![p] + tail->Ok_0)) =~= (out@.push(p) + tail->Ok_0));
                    }
                }
                out.push(p);
            },
            Err(e) => {
                return Err(e);
            },
        }
        i += 1;
    }
    proof {
        assert(ms@.skip(i as int) =~= Seq::<RawMatch>::empty());
        assert(out@ + Seq::<UmlParameter>::empty() =~= out@);
    }
    Ok(out)
}

/// One field match, folded capture by capture; `vis` starts at the
/// language's default and flips to public on an explicit `pub` marker.
pub open spec fn field_scan(
    caps: Seq<RawCapture>,
    name: Option<String>,
    ty: Option<String>,
    vis: UmlVisibility,
) -> Result<UmlField, ExtractError>
    decreases caps.len(),
{
    if caps.len() == 0 {
        match (name, ty) {
            (Some(n), Some(t)) => Ok(UmlField { name: n, data_type: t, visibility: vis }),
            _ => Err(ExtractError::MalformedMatch),
        }
    } else {
        let c = caps.first();
        match kind_of_name(c.name@) {
            Some(CaptureKind::FieldName) => field_scan(caps.drop_first(), Some(c.text), ty, vis),
            Some(CaptureKind::FieldType) => field_scan(caps.drop_first(), name, Some(c.text), vis),
            Some(CaptureKind::FieldVisibility) => field_scan(
                caps.drop_first(),
                name,
                ty,
                if is_pub_marker(c.text@) {
                    UmlVisibility::Public
                } else {
                    vis
                },
            ),
            _ => Err(ExtractError::UnrecognizedCapture),
        }
    }
}

/// The field of one match, under the given default visibility.
pub open spec fn field_of_match(m: RawMatch, default_vis: UmlVisibility) -> Result<
    UmlField,
    ExtractError,
> {
    field_scan(m.captures@, None, None, default_vis)
}

/// The fields of a match sequence, in match order.
pub open spec fn fields_of_matches(ms: Seq<RawMatch>, default_vis: UmlVisibility) -> Result<
    Seq<UmlField>,
    ExtractError,
>
    decreases ms.len(),
{
    if ms.len() == 0 {
        Ok(Seq::empty())
    } else {
        match field_of_match(ms.first(), default_vis) {
            Ok(f) => ok_concat(seq![f], fields_of_matches(ms.drop_first(), default_vis)),
            Err(e) => Err(e),
        }
    }
}

/// Reconciles one field match.
pub(crate) fn build_field(m: &RawMatch, default_vis: UmlVisibility) -> (r: Result<
    UmlField,
    ExtractError,
>)
    ensures
        r == field_of_match(*m, default_vis),
{
    let mut name: Option<String> = None;
    let mut ty: Option<String> = None;
    let mut vis: UmlVisibility = default_vis;
    let mut j: usize = 0;
    proof {
        assert(m.captures@.skip(0) =~= m.captures@);
    }
    while j < m.captures.len()
        invariant
            j <= m.captures.len(),
            field_of_match(*m, default_vis) == field_scan(
                m.captures@.skip(j as int),
                name,
                ty,
                vis,
            ),
        decreases m.captures.len() - j,
    {
        let c = &m.captures[j];
        proof {
            assert(m.captures@.skip(j as int).first() == m.captures@[j as int]);
            assert(m.captures@.skip(j as int).drop_first() =~= m.captures@.skip(j as int + 1));
        }
        match capture_kind(&c.name) {
            Some(CaptureKind::FieldName) => {
                name = Some(c.text.clone());
            },
            Some(CaptureKind::FieldType) => {
                ty = Some(c.text.clone());
            },
            Some(CaptureKind::FieldVisibility) => {
                if name_is(&c.text, "pub") {
                    vis = UmlVisibility::Public;
                }
            },
            _ => {
                return Err(ExtractError::UnrecognizedCapture);
            },
        }
        j += 1;
    }
    proof {
        assert(m.captures@.skip(j as int) =~= Seq::<RawCapture>::empty());
    }
    match (name, ty) {
        (Some(n), Some(t)) => Ok(UmlField { name: n, data_type: t, visibility: vis }),
        _ => Err(ExtractError::MalformedMatch),
    }
}

/// Reconciles a field match sequence.
pub(crate) fn build_fields(ms: &Vec<RawMatch>, default_vis: UmlVisibility) -> (r: Result<
    Vec<UmlField>,
    ExtractError,
>)
    ensures
        seq_res(r) == fields_of_matches(ms@, default_vis),
{
    let mut out: Vec<UmlField> = Vec::new();
    let mut i: usize = 0;
    proof {
        assert(ms@.skip(0) =~= ms@);
        if fields_of_matches(ms@, default_vis) is Ok {
            assert(Seq::<UmlField>::empty() + fields_of_matches(ms@, default_vis)->Ok_0
                =~= fields_of_matches(ms@, default_vis)->Ok_0);
        }
    }
    while i < ms.len()
        invariant
            i <= ms.len(),
            fields_of_matches(ms@, default_vis) == ok_concat(
                out@,
                fields_of_matches(ms@.skip(i as int), default_vis),
            ),
        decreases ms.len() - i,
    {
        proof {
            assert(ms@.skip(i as int).first() == ms@[i as int]);
            assert(ms@.skip(i as int).drop_first() =~= ms@.skip(i as int + 1));
        }
        match build_field(&ms[i], default_vis) {
            Ok(f) => {
                proof {
                    let tail = fields_of_matches(ms@.skip(i as int + 1), default_vis);
                    if tail is Ok {
                        assert((out@ + (seq![f] + tail->Ok_0)) =~= (out@.push(f) + tail->Ok_0));
                    }
                }
                out.push(f);
            },
            Err(e) => {
                return Err(e);
            },
        }
        i += 1;
    }
    proof {
        assert(ms@.skip(i as int) =~= Seq::<RawMatch>::empty());
        assert(out@ + Seq::<UmlField>::empty() =~= out@);
    }
    Ok(out)
}

/// One association match, folded capture by capture.  The edge's
/// `from_title` and `to_title` both carry the originating field's name.
pub open spec fn assoc_scan(
    caps: Seq<RawCapture>,
    to: Option<String>,
    title: Option<String>,
) -> Result<UmlAssociation, ExtractError>
    decreases caps.len(),
{
    if caps.len() == 0 {
        match (to, title) {
            (Some(t), Some(ti)) => Ok(UmlAssociation { to: t, from_title: ti, to_title: ti }),
            _ => Err(ExtractError::MalformedMatch),
        }
    } else {
        let c = caps.first();
        match kind_of_name(c.name@) {
            Some(CaptureKind::AssociationTo) => assoc_scan(caps.drop_first(), Some(c.text), title),
            Some(CaptureKind::AssociationToTitle) => assoc_scan(
                caps.drop_first(),
                to,
                Some(c.text),
            ),
            _ => Err(ExtractError::UnrecognizedCapture),
        }
    }
}

/// The association of one match.
pub open spec fn assoc_of_match(m: RawMatch) -> Result<UmlAssociation, ExtractError> {
    assoc_scan(m.captures@, None, None)
}

/// The associations of a match sequence, in match order.
pub open spec fn assocs_of_matches(ms: Seq<RawMatch>) -> Result<Seq<UmlAssociation>, ExtractError>
    decreases ms.len(),
{
    if ms.len() == 0 {
        Ok(Seq::empty())
    } else {
        match assoc_of_match(ms.first()) {
            Ok(a) => ok_concat(seq![a], assocs_of_matches(ms.drop_first())),
            Err(e) => Err(e),
        }
    }
}

/// Reconciles one association match.
pub(crate) fn build_assoc(m: &RawMatch) -> (r: Result<UmlAssociation, ExtractError>)
    ensures
        r == assoc_of_match(*m),
{
    let mut to: Option<String> = None;
    let mut title: Option<String> = None;
    let mut j: usize = 0;
    proof {
        assert(m.captures@.skip(0) =~= m.captures@);
    }
    while j < m.captures.len()
        invariant
            j <= m.captures.len(),
            assoc_of_match(*m) == assoc_scan(m.captures@.skip(j as int), to, title),
        decreases m.captures.len() - j,
    {
        let c = &m.captures[j];
        proof {
            assert(m.captures@.skip(j as int).first() == m.captures@[j as int]);
            assert(m.captures@.skip(j as int).drop_first() =~= m.captures@.skip(j as int + 1));
        }
        match capture_kind(&c.name) {
            Some(CaptureKind::AssociationTo) => {
                to = Some(c.text.clone());
            },
            Some(CaptureKind::AssociationToTitle) => {
                title = Some(c.text.clone());
            },
            _ => {
                return Err(ExtractError::UnrecognizedCapture);
            },
        }
        j += 1;
    }
    proof {
        assert(m.captures@.skip(j as int) =~= Seq::<RawCapture>::empty());
    }
    match (to, title) {
        (Some(t), Some(ti)) => Ok(UmlAssociation { to: t, from_title: ti.clone(), to_title: ti }),
        _ => Err(ExtractError::MalformedMatch),
    }
}

/// Reconciles an association match sequence.
pub(crate) fn build_assocs(ms: &Vec<RawMatch>) -> (r: Result<Vec<UmlAssociation>, ExtractError>)
    ensures
        seq_res(r) == assocs_of_matches(ms@),
{
    let mut out: Vec<UmlAssociation> = Vec::new();
    let mut i: usize = 0;
    proof {
        assert(ms@.skip(0) =~= ms@);
        if assocs_of_matches(ms@) is Ok {
            assert(Seq::<UmlAssociation>::empty() + assocs_of_matches(ms@)->Ok_0
                =~= assocs_of_matches(ms@)->Ok_0);
        }
    }
    while i < ms.len()
        invariant
            i <= ms.len(),
            assocs_of_matches(ms@) == ok_concat(out@, assocs_of_matches(ms@.skip(i as int))),
        decreases ms.len() - i,
    {
        proof {
            assert(ms@.skip(i as int).first() == ms@[i as int]);
            assert(ms@.skip(i as int).drop_first() =~= ms@.skip(i as int + 1));
        }
        match build_assoc(&ms[i]) {
            Ok(a) => {
                proof {
                    let tail = assocs_of_matches(ms@.skip(i as int + 1));
                    if tail is Ok {
                        assert((out@ + (seq![a] + tail->Ok_0)) =~= (out@.push(a) + tail->Ok_0));
                    }
                }
                out.push(a);
            },
            Err(e) => {
                return Err(e);
            },
        }
        i += 1;
    }
    proof {
        assert(ms@.skip(i as int) =~= Seq::<RawMatch>::empty());
        assert(out@ + Seq::<UmlAssociation>::empty() =~= out@);
    }
    Ok(out)
}

/// One base-class match: every extends capture contributes a supertype name.
pub open spec fn extends_scan(caps: Seq<RawCapture>) -> Result<Seq<String>, ExtractError>
    decreases caps.len(),
{
    if caps.len() == 0 {
        Ok(Seq::empty())
    } else {
        let c = caps.first();
        match kind_of_name(c.name@) {
            Some(CaptureKind::ClassExtends) => ok_concat(
                seq![c.text],
                extends_scan(caps.drop_first()),
            ),
            _ => Err(ExtractError::UnrecognizedCapture),
        }
    }
}

/// The supertype names of a match sequence, in match order.
pub open spec fn extends_of_matches(ms: Seq<RawMatch>) -> Result<Seq<String>, ExtractError>
    decreases ms.len(),
{
    if ms.len() == 0 {
        Ok(Seq::empty())
    } else {
        match extends_scan(ms.first().captures@) {
            Ok(es) => ok_concat(es, extends_of_matches(ms.drop_first())),
            Err(e) => Err(e),
        }
    }
}

/// Reconciles one base-class match.
pub(crate) fn build_extends_match(m: &RawMatch) -> (r: Result<Vec<String>, ExtractError>)
    ensures
        seq_res(r) == extends_scan(m.captures@),
{
    let mut out: Vec<String> = Vec::new();
    let mut j: usize = 0;
    proof {
        assert(m.captures@.skip(0) =~= m.captures@);
        if extends_scan(m.captures@) is Ok {
            assert(Seq::<String>::empty() + extends_scan(m.captures@)->Ok_0 =~= extends_scan(
                m.captures@,
            )->Ok_0);
        }
    }
    while j < m.captures.len()
        invariant
            j <= m.captures.len(),
            extends_scan(m.captures@) == ok_concat(out@, extends_scan(m.captures@.skip(j as int))),
        decreases m.captures.len() - j,
    {
        let c = &m.captures[j];
        proof {
            assert(m.captures@.skip(j as int).first() == m.captures@[j as int]);
            assert(m.captures@.skip(j as int).drop_first() =~= m.captures@.skip(j as int + 1));
        }
        match capture_kind(&c.name) {
            Some(CaptureKind::ClassExtends) => {
                proof {
                    let tail = extends_scan(m.captures@.skip(j as int + 1));
                    if tail is Ok {
                        assert((out@ + (seq![c.text] + tail->Ok_0)) =~= (out@.push(c.text)
                            + tail->Ok_0));
                    }
                }
                out.push(c.text.clone());
            },
            _ => {
                return Err(ExtractError::UnrecognizedCapture);
            },
        }
        j += 1;
    }
    proof {
        assert(m.captures@.skip(j as int) =~= Seq::<RawCapture>::empty());
        assert(out@ + Seq::<String>::empty() =~= out@);
    }
    Ok(out)
}

/// Reconciles a base-class match sequence.
pub(crate) fn build_extends(ms: &Vec<RawMatch>) -> (r: Result<Vec<String>, ExtractError>)
    ensures
        seq_res(r) == extends_of_matches(ms@),
{
    let mut out: Vec<String> = Vec::new();
    let mut i: usize = 0;
    proof {
        assert(ms@.skip(0) =~= ms@);
        if extends_of_matches(ms@) is Ok {
            assert(Seq::<String>::empty() + extends_of_matches(ms@)->Ok_0 =~= extends_of_matches(
                ms@,
            )->Ok_0);
        }
    }
    while i < ms.len()
        invariant
            i <= ms.len(),
            extends_of_matches(ms@) == ok_concat(out@, extends_of_matches(ms@.skip(i as int))),
        decreases ms.len() - i,
    {
        proof {
            assert(ms@.skip(i as int).first() == ms@[i as int]);
            assert(ms@.skip(i as int).drop_first() =~= ms@.skip(i as int + 1));
        }
        match build_extends_match(&ms[i]) {
            Ok(mut es) => {
                proof {
                    let tail = extends_of_matches(ms@.skip(i as int + 1));
                    if tail is Ok {
                        assert((out@ + (es@ + tail->Ok_0)) =~= ((out@ + es@) + tail->Ok_0));
                    }
                }
                out.append(&mut es);
            },
            Err(e) => {
                return Err(e);
            },
        }
        i += 1;
    }
    proof {
        assert(ms@.skip(i as int) =~= Seq::<RawMatch>::empty());
        assert(out@ + Seq::<String>::empty() =~= out@);
    }
    Ok(out)
}

/// The default member visibility of each language, mirroring the language's
/// own convention: private for the Rust-family grammar, public for the
/// C++-family grammar.
pub open spec fn default_visibility(lang: LangChoice) -> UmlVisibility {
    match lang {
        LangChoice::RUST => UmlVisibility::Private,
        LangChoice::CPP => UmlVisibility::Public,
    }
}

/// The parameter matches of the given region under the given language.
pub open spec fn param_matches_at(lang: LangChoice, src: Seq<u8>, start: int, end: int) -> Seq<
    RawMatch,
> {
    match lang {
        LangChoice::RUST => rust_param_matches(src, start, end),
        LangChoice::CPP => cpp_param_matches(src, start, end),
    }
}

/// One method match, folded capture by capture.  A parameter-list capture is
/// resolved by running the language's parameter pattern over its region.
pub open spec fn method_scan(
    lang: LangChoice,
    src: Seq<u8>,
    caps: Seq<RawCapture>,
    name: Option<String>,
    ret: Option<String>,
    params: Seq<UmlParameter>,
    vis: UmlVisibility,
) -> Result<MethodView, ExtractError>
    decreases caps.len(),
{
    if caps.len() == 0 {
        match name {
            Some(n) => Ok(
                MethodView { name: n, visibility: vis, parameters: params, return_type: ret },
            ),
            None => Err(ExtractError::MalformedMatch),
        }
    } else {
        let c = caps.first();
        match kind_of_name(c.name@) {
            Some(CaptureKind::FunctionName) => method_scan(
                lang,
                src,
                caps.drop_first(),
                Some(c.text),
                ret,
                params,
                vis,
            ),
            Some(CaptureKind::FunctionReturnType) => method_scan(
                lang,
                src,
                caps.drop_first(),
                name,
                Some(c.text),
                params,
                vis,
            ),
            Some(CaptureKind::FunctionVisibility) => method_scan(
                lang,
                src,
                caps.drop_first(),
                name,
                ret,
                params,
                if is_pub_marker(c.text@) {
                    UmlVisibility::Public
                } else {
                    vis
                },
            ),
            Some(CaptureKind::FunctionParameters) => match params_of_matches(
                param_matches_at(lang, src, c.start as int, c.end as int),
            ) {
                Ok(ps) => method_scan(lang, src, caps.drop_first(), name, ret, ps, vis),
                Err(e) => Err(e),
            },
            _ => Err(ExtractError::UnrecognizedCapture),
        }
    }
}

/// The method of one match, under the language's default visibility.
pub open spec fn method_of_match(lang: LangChoice, src: Seq<u8>, m: RawMatch) -> Result<
    MethodView,
    ExtractError,
> {
    method_scan(lang, src, m.captures@, None, None, Seq::empty(), default_visibility(lang))
}

/// The methods of a match sequence, in match order.
pub open spec fn methods_of_matches(lang: LangChoice, src: Seq<u8>, ms: Seq<RawMatch>) -> Result<
    Seq<MethodView>,
    ExtractError,
>
    decreases ms.len(),
{
    if ms.len() == 0 {
        Ok(Seq::empty())
    } else {
        match method_of_match(lang, src, ms.first()) {
            Ok(m) => ok_concat(seq![m], methods_of_matches(lang, src, ms.drop_first())),
            Err(e) => Err(e),
        }
    }
}

/// The view of a fallible method vector.
pub open spec fn methods_res(r: Result<Vec<UmlMethod>, ExtractError>) -> Result<
    Seq<MethodView>,
    ExtractError,
> {
    match r {
        Ok(v) => Ok(v@.map_values(|m: UmlMethod| method_view(m))),
        Err(e) => Err(e),
    }
}

/// One class/impl join match of the Rust-family language, folded capture by
/// capture.  The class name comes from the data shape's name capture or a
/// joined behavior block's target-name capture (the join makes them equal).
/// Each data-shape capture's fields and each behavior-block capture's
/// methods are appended in capture (document) order, so a class joined to
/// several behavior blocks carries the concatenation of all their methods,
/// and one with no behavior block carries none.
pub open spec fn rust_class_scan(
    src: Seq<u8>,
    caps: Seq<RawCapture>,
    name: Option<String>,
    fields: Seq<UmlField>,
    methods: Seq<MethodView>,
) -> Result<ClassView, ExtractError>
    decreases caps.len(),
{
    if caps.len() == 0 {
        match name {
            Some(n) => Ok(
                ClassView {
                    name: n,
                    modifier: None,
                    visibility: UmlVisibility::Public,
                    methods,
                    fields,
                    extends: Seq::empty(),
                    implements: Seq::empty(),
                    associations: Seq::empty(),
                },
            ),
            None => Err(ExtractError::MalformedMatch),
        }
    } else {
        let c = caps.first();
        match kind_of_name(c.name@) {
            Some(CaptureKind::StructName) => rust_class_scan(
                src,
                caps.drop_first(),
                Some(c.text),
                fields,
                methods,
            ),
            Some(CaptureKind::ClassName) => rust_class_scan(
                src,
                caps.drop_first(),
                Some(c.text),
                fields,
                methods,
            ),
            Some(CaptureKind::ClassFields) => match fields_of_matches(
                rust_field_matches(src, c.start as int, c.end as int),
                UmlVisibility::Private,
            ) {
                Ok(fs) => rust_class_scan(src, caps.drop_first(), name, fields + fs, methods),
                Err(e) => Err(e),
            },
            Some(CaptureKind::ClassFunctions) => match methods_of_matches(
                LangChoice::RUST,
                src,
                rust_method_matches(src, c.start as int, c.end as int),
            ) {
                Ok(msv) => rust_class_scan(src, caps.drop_first(), name, fields, methods + msv),
                Err(e) => Err(e),
            },
            _ => Err(ExtractError::UnrecognizedCapture),
        }
    }
}

/// The class of one Rust-family join match.
pub open spec fn rust_class_of_match(src: Seq<u8>, m: RawMatch) -> Result<
    ClassView,
    ExtractError,
> {
    rust_class_scan(src, m.captures@, None, Seq::empty(), Seq::empty())
}

/// The classes of a Rust-family match sequence, in match order.
pub open spec fn rust_classes_of(src: Seq<u8>, ms: Seq<RawMatch>) -> Result<
    Seq<ClassView>,
    ExtractError,
>
    decreases ms.len(),
{
    if ms.len() == 0 {
        Ok(Seq::empty())
    } else {
        match rust_class_of_match(src, ms.first()) {
            Ok(c) => ok_concat(seq![c], rust_classes_of(src, ms.drop_first())),
            Err(e) => Err(e),
        }
    }
}

/// Everything the Rust-family extractor derives from one buffer: the classes
/// of the join pattern's matches over the whole parse.
pub open spec fn rust_entities(src: Seq<u8>) -> Result<Seq<ClassView>, ExtractError> {
    rust_classes_of(src, rust_class_matches(src, 0, src.len() as int))
}

/// One class match of the C++-family language, folded capture by capture.
/// The class/struct shape directly carries the body region; fields, methods
/// and association candidates are all drawn from it in one pass, and the
/// base-class pattern runs over the whole class node.
pub open spec fn cpp_class_scan(
    src: Seq<u8>,
    caps: Seq<RawCapture>,
    name: Option<String>,
    fields: Seq<UmlField>,
    methods: Seq<MethodView>,
    assocs: Seq<UmlAssociation>,
    extends: Seq<String>,
) -> Result<ClassView, ExtractError>
    decreases caps.len(),
{
    if caps.len() == 0 {
        match name {
            Some(n) => Ok(
                ClassView {
                    name: n,
                    modifier: None,
                    visibility: UmlVisibility::Public,
                    methods,
                    fields,
                    extends,
                    implements: Seq::empty(),
                    associations: assocs,
                },
            ),
            None => Err(ExtractError::MalformedMatch),
        }
    } else {
        let c = caps.first();
        match kind_of_name(c.name@) {
            Some(CaptureKind::ClassName) => cpp_class_scan(
                src,
                caps.drop_first(),
                Some(c.text),
                fields,
                methods,
                assocs,
                extends,
            ),
            Some(CaptureKind::ClassWhole) => match extends_of_matches(
                cpp_extends_matches(src, c.start as int, c.end as int),
            ) {
                Ok(es) => cpp_class_scan(src, caps.drop_first(), name, fields, methods, assocs, es),
                Err(e) => Err(e),
            },
            Some(CaptureKind::ClassFields) => match fields_of_matches(
                cpp_field_matches(src, c.start as int, c.end as int),
                UmlVisibility::Public,
            ) {
                Ok(fs) => match methods_of_matches(
                    LangChoice::CPP,
                    src,
                    cpp_method_matches(src, c.start as int, c.end as int),
                ) {
                    Ok(msv) => match assocs_of_matches(
                        cpp_assoc_matches(src, c.start as int, c.end as int),
                    ) {
                        Ok(asc) => cpp_class_scan(
                            src,
                            caps.drop_first(),
                            name,
                            fs,
                            msv,
                            asc,
                            extends,
                        ),
                        Err(e) => Err(e),
                    },
                    Err(e) => Err(e),
                },
                Err(e) => Err(e),
            },
            _ => Err(ExtractError::UnrecognizedCapture),
        }
    }
}

/// The class of one C++-family match.
pub open spec fn cpp_class_of_match(src: Seq<u8>, m: RawMatch) -> Result<ClassView, ExtractError> {
    cpp_class_scan(src, m.captures@, None, Seq::empty(), Seq::empty(), Seq::empty(), Seq::empty())
}

/// The classes of a C++-family match sequence, in match order.
pub open spec fn cpp_classes_of(src: Seq<u8>, ms: Seq<RawMatch>) -> Result<
    Seq<ClassView>,
    ExtractError,
>
    decreases ms.len(),
{
    if ms.len() == 0 {
        Ok(Seq::empty())
    } else {
        match cpp_class_of_match(src, ms.first()) {
            Ok(c) => ok_concat(seq![c], cpp_classes_of(src, ms.drop_first())),
            Err(e) => Err(e),
        }
    }
}

/// Everything the C++-family extractor derives from one buffer.
pub open spec fn cpp_entities(src: Seq<u8>) -> Result<Seq<ClassView>, ExtractError> {
    cpp_classes_of(src, cpp_class_matches(src, 0, src.len() as int))
}

/// The view of a fallible method.
pub open spec fn method_res(r: Result<UmlMethod, ExtractError>) -> Result<
    MethodView,
    ExtractError,
> {
    match r {
        Ok(m) => Ok(method_view(m)),
        Err(e) => Err(e),
    }
}

/// The view of a fallible class.
pub open spec fn class_res(r: Result<UmlClass, ExtractError>) -> Result<ClassView, ExtractError> {
    match r {
        Ok(c) => Ok(class_view(c)),
        Err(e) => Err(e),
    }
}

/// The view of a fallible class vector.
pub open spec fn classes_res(r: Result<Vec<UmlClass>, ExtractError>) -> Result<
    Seq<ClassView>,
    ExtractError,
> {
    match r {
        Ok(v) => Ok(v@.map_values(|c: UmlClass| class_view(c))),
        Err(e) => Err(e),
    }
}

} // verus!
