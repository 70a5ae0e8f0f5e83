//! Laws of the entity builder: how a reconciled class relates to the
//! captures of its join match, and that extraction is a pure function of the
//! buffer.
use vstd::prelude::*;

use crate::capture::CaptureKind;
use crate::capture::RawCapture;
use crate::capture::RawMatch;
use crate::capture::kind_of_name;
use crate::parser::ExtractError;
use crate::parser::LangChoice;
use crate::provider::rust_field_matches;
use crate::provider::rust_method_matches;
use crate::reconcile::fields_of_matches;
use crate::reconcile::methods_of_matches;
use crate::reconcile::rust_class_of_match;
use crate::reconcile::rust_class_scan;
use crate::reconcile::rust_classes_of;
use crate::uml::ClassView;
use crate::uml::MethodView;
use crate::uml::UmlField;
use crate::uml::UmlVisibility;

verus! {

/// The reconciled methods of one behavior-block capture.
pub open spec fn block_methods(src: Seq<u8>, c: RawCapture) -> Seq<MethodView> {
    methods_of_matches(
        LangChoice::RUST,
        src,
        rust_method_matches(src, c.start as int, c.end as int),
    )->Ok_0
}

/// The reconciled fields of one data-shape capture.
pub open spec fn block_fields(src: Seq<u8>, c: RawCapture) -> Seq<UmlField> {
    fields_of_matches(
        rust_field_matches(src, c.start as int, c.end as int),
        UmlVisibility::Private,
    )->Ok_0
}

/// True of a behavior-block capture.
pub open spec fn is_functions_capture(c: RawCapture) -> bool {
    kind_of_name(c.name@) == Some(CaptureKind::ClassFunctions)
}

/// True of a data-shape capture.
pub open spec fn is_fields_capture(c: RawCapture) -> bool {
    kind_of_name(c.name@) == Some(CaptureKind::ClassFields)
}

/// The concatenation, in capture order, of the methods of every
/// behavior-block capture.
pub open spec fn methods_concat(src: Seq<u8>, caps: Seq<RawCapture>) -> Seq<MethodView>
    decreases caps.len(),
{
    if caps.len() == 0 {
        Seq::empty()
    } else {
        (if is_functions_capture(caps.first()) {
            block_methods(src, caps.first())
        } else {
            Seq::empty()
        }) + methods_concat(src, caps.drop_first())
    }
}

/// The concatenation, in capture order, of the fields of every data-shape
/// capture.
pub open spec fn fields_concat(src: Seq<u8>, caps: Seq<RawCapture>) -> Seq<UmlField>
    decreases caps.len(),
{
    if caps.len() == 0 {
        Seq::empty()
    } else {
        (if is_fields_capture(caps.first()) {
            block_fields(src, caps.first())
        } else {
            Seq::empty()
        }) + fields_concat(src, caps.drop_first())
    }
}

/// A successfully reconciled class carries, beyond what the fold was seeded
/// with, exactly the concatenation of its data-shape captures' fields and of
/// its behavior-block captures' methods, in capture order.
proof fn lemma_rust_class_scan_concat(
    src: Seq<u8>,
    caps: Seq<RawCapture>,
    name: Option<String>,
    fields: Seq<UmlField>,
    methods: Seq<MethodView>,
)
    requires
        rust_class_scan(src, caps, name, fields, methods) is Ok,
    ensures
        rust_class_scan(src, caps, name, fields, methods)->Ok_0.methods == methods
            + methods_concat(src, caps),
        rust_class_scan(src, caps, name, fields, methods)->Ok_0.fields == fields + fields_concat(
            src,
            caps,
        ),
    decreases caps.len(),
{
    if caps.len() == 0 {
        assert(methods + methods_concat(src, caps) =~= methods);
        assert(fields + fields_concat(src, caps) =~= fields);
    } else {
        let c = caps.first();
        let rest = caps.drop_first();
        match kind_of_name(c.name@) {
            Some(CaptureKind::StructName) => {
                lemma_rust_class_scan_concat(src, rest, Some(c.text), fields, methods);
                assert(methods + (Seq::<MethodView>::empty() + methods_concat(src, rest))
                    =~= methods + methods_concat(src, rest));
                assert(fields + (Seq::<UmlField>::empty() + fields_concat(src, rest)) =~= fields
                    + fields_concat(src, rest));
            },
            Some(CaptureKind::ClassName) => {
                lemma_rust_class_scan_concat(src, rest, Some(c.text), fields, methods);
                assert(methods + (Seq::<MethodView>::empty() + methods_concat(src, rest))
                    =~= methods + methods_concat(src, rest));
                assert(fields + (Seq::<UmlField>::empty() + fields_concat(src, rest)) =~= fields
                    + fields_concat(src, rest));
            },
            Some(CaptureKind::ClassFields) => {
                let fs = fields_of_matches(
                    rust_field_matches(src, c.start as int, c.end as int),
                    UmlVisibility::Private,
                )->Ok_0;
                lemma_rust_class_scan_concat(src, rest, name, fields + fs, methods);
                assert(methods + (Seq::<MethodView>::empty() + methods_concat(src, rest))
                    =~= methods + methods_concat(src, rest));
                assert((fields + fs) + fields_concat(src, rest) =~= fields + (fs + fields_concat(
                    src,
                    rest,
                )));
            },
            Some(CaptureKind::ClassFunctions) => {
                let msv = methods_of_matches(
                    LangChoice::RUST,
                    src,
                    rust_method_matches(src, c.start as int, c.end as int),
                )->Ok_0;
                lemma_rust_class_scan_concat(src, rest, name, fields, methods + msv);
                assert((methods + msv) + methods_concat(src, rest) =~= methods + (msv
                    + methods_concat(src, rest)));
                assert(fields + (Seq::<UmlField>::empty() + fields_concat(src, rest)) =~= fields
                    + fields_concat(src, rest));
            },
            _ => {},
        }
    }
}

/// `methods_concat` of captures without a behavior block is empty.
proof fn lemma_methods_concat_none(src: Seq<u8>, caps: Seq<RawCapture>)
    requires
        forall|k: int| 0 <= k < caps.len() ==> !is_functions_capture(caps[k]),
    ensures
        methods_concat(src, caps) == Seq::<MethodView>::empty(),
    decreases caps.len(),
{
    if caps.len() == 0 {
    } else {
        assert(caps.first() == caps[0]);
        assert forall|k: int| 0 <= k < caps.drop_first().len() implies !is_functions_capture(
            caps.drop_first()[k],
        ) by {
            assert(caps.drop_first()[k] == caps[k + 1]);
        }
        lemma_methods_concat_none(src, caps.drop_first());
        assert(methods_concat(src, caps) =~= Seq::<MethodView>::empty());
    }
}

/// `methods_concat` of captures with exactly one behavior block is that
/// block's methods.
proof fn lemma_methods_concat_single(src: Seq<u8>, caps: Seq<RawCapture>, i: int)
    requires
        0 <= i < caps.len(),
        is_functions_capture(caps[i]),
        forall|k: int| 0 <= k < caps.len() && k != i ==> !is_functions_capture(caps[k]),
    ensures
        methods_concat(src, caps) == block_methods(src, caps[i]),
    decreases caps.len(),
{
    assert(caps.first() == caps[0]);
    if i == 0 {
        assert forall|k: int| 0 <= k < caps.drop_first().len() implies !is_functions_capture(
            caps.drop_first()[k],
        ) by {
            assert(caps.drop_first()[k] == caps[k + 1]);
        }
        lemma_methods_concat_none(src, caps.drop_first());
        assert(methods_concat(src, caps) =~= block_methods(src, caps[0]));
    } else {
        assert forall|k: int| 0 <= k < caps.drop_first().len() && k != i - 1
            implies !is_functions_capture(caps.drop_first()[k]) by {
            assert(caps.drop_first()[k] == caps[k + 1]);
        }
        assert(caps.drop_first()[i - 1] == caps[i]);
        lemma_methods_concat_single(src, caps.drop_first(), i - 1);
        assert(methods_concat(src, caps) =~= block_methods(src, caps[i]));
    }
}

/// `methods_concat` of captures with exactly two behavior blocks is the
/// concatenation of both blocks' methods, in capture order.
proof fn lemma_methods_concat_double(src: Seq<u8>, caps: Seq<RawCapture>, i: int, j: int)
    requires
        0 <= i < j < caps.len(),
        is_functions_capture(caps[i]),
        is_functions_capture(caps[j]),
        forall|k: int| 0 <= k < caps.len() && k != i && k != j ==> !is_functions_capture(caps[k]),
    ensures
        methods_concat(src, caps) == block_methods(src, caps[i]) + block_methods(src, caps[j]),
    decreases caps.len(),
{
    assert(caps.first() == caps[0]);
    if i == 0 {
        assert forall|k: int| 0 <= k < caps.drop_first().len() && k != j - 1
            implies !is_functions_capture(caps.drop_first()[k]) by {
            assert(caps.drop_first()[k] == caps[k + 1]);
        }
        assert(caps.drop_first()[j - 1] == caps[j]);
        lemma_methods_concat_single(src, caps.drop_first(), j - 1);
        assert(methods_concat(src, caps) =~= block_methods(src, caps[0]) + block_methods(
            src,
            caps[j],
        ));
    } else {
        assert forall|k: int| 0 <= k < caps.drop_first().len() && k != i - 1 && k != j - 1
            implies !is_functions_capture(caps.drop_first()[k]) by {
            assert(caps.drop_first()[k] == caps[k + 1]);
        }
        assert(caps.drop_first()[i - 1] == caps[i]);
        assert(caps.drop_first()[j - 1] == caps[j]);
        lemma_methods_concat_double(src, caps.drop_first(), i - 1, j - 1);
        assert(methods_concat(src, caps) =~= block_methods(src, caps[i]) + block_methods(
            src,
            caps[j],
        ));
    }
}

/// `fields_concat` of captures with exactly one data shape is that shape's
/// fields.
proof fn lemma_fields_concat_single(src: Seq<u8>, caps: Seq<RawCapture>, i: int)
    requires
        0 <= i < caps.len(),
        is_fields_capture(caps[i]),
        forall|k: int| 0 <= k < caps.len() && k != i ==> !is_fields_capture(caps[k]),
    ensures
        fields_concat(src, caps) == block_fields(src, caps[i]),
    decreases caps.len(),
{
    assert(caps.first() == caps[0]);
    if i == 0 {
        assert forall|k: int| 0 <= k < caps.drop_first().len() implies !is_fields_capture(
            caps.drop_first()[k],
        ) by {
            assert(caps.drop_first()[k] == caps[k + 1]);
        }
        lemma_fields_concat_none(src, caps.drop_first());
        assert(fields_concat(src, caps) =~= block_fields(src, caps[0]));
    } else {
        assert forall|k: int| 0 <= k < caps.drop_first().len() && k != i - 1
            implies !is_fields_capture(caps.drop_first()[k]) by {
            assert(caps.drop_first()[k] == caps[k + 1]);
        }
        assert(caps.drop_first()[i - 1] == caps[i]);
        lemma_fields_concat_single(src, caps.drop_first(), i - 1);
        assert(fields_concat(src, caps) =~= block_fields(src, caps[i]));
    }
}

/// `fields_concat` of captures without a data shape is empty.
proof fn lemma_fields_concat_none(src: Seq<u8>, caps: Seq<RawCapture>)
    requires
        forall|k: int| 0 <= k < caps.len() ==> !is_fields_capture(caps[k]),
    ensures
        fields_concat(src, caps) == Seq::<UmlField>::empty(),
    decreases caps.len(),
{
    if caps.len() == 0 {
    } else {
        assert(caps.first() == caps[0]);
        assert forall|k: int| 0 <= k < caps.drop_first().len() implies !is_fields_capture(
            caps.drop_first()[k],
        ) by {
            assert(caps.drop_first()[k] == caps[k + 1]);
        }
        lemma_fields_concat_none(src, caps.drop_first());
        assert(fields_concat(src, caps) =~= Seq::<UmlField>::empty());
    }
}

/// Law: a class reconciled from a join match with one data-shape capture and
/// no behavior-block capture has an empty method sequence, and its field
/// sequence is exactly the data shape's reconciled fields, in declaration
/// order.
pub proof fn lemma_data_shape_without_behavior(src: Seq<u8>, m: RawMatch, i: int)
    requires
        rust_class_of_match(src, m) is Ok,
        0 <= i < m.captures@.len(),
        is_fields_capture(m.captures@[i]),
        forall|k: int| 0 <= k < m.captures@.len() && k != i ==> !is_fields_capture(m.captures@[k]),
        forall|k: int| 0 <= k < m.captures@.len() ==> !is_functions_capture(m.captures@[k]),
    ensures
        rust_class_of_match(src, m)->Ok_0.methods == Seq::<MethodView>::empty(),
        rust_class_of_match(src, m)->Ok_0.fields == block_fields(src, m.captures@[i]),
{
    lemma_rust_class_scan_concat(src, m.captures@, None, Seq::empty(), Seq::empty());
    lemma_methods_concat_none(src, m.captures@);
    lemma_fields_concat_single(src, m.captures@, i);
    assert(Seq::<MethodView>::empty() + Seq::<MethodView>::empty() =~= Seq::<MethodView>::empty());
    assert(Seq::<UmlField>::empty() + block_fields(src, m.captures@[i]) =~= block_fields(
        src,
        m.captures@[i],
    ));
}

/// Law: a class reconciled from a join match with two behavior-block
/// captures carries the concatenation of both blocks' methods, in block
/// order, each block's methods in declaration order.
pub proof fn lemma_two_behavior_blocks(src: Seq<u8>, m: RawMatch, i: int, j: int)
    requires
        rust_class_of_match(src, m) is Ok,
        0 <= i < j < m.captures@.len(),
        is_functions_capture(m.captures@[i]),
        is_functions_capture(m.captures@[j]),
        forall|k: int|
            0 <= k < m.captures@.len() && k != i && k != j ==> !is_functions_capture(
                m.captures@[k],
            ),
    ensures
        rust_class_of_match(src, m)->Ok_0.methods == block_methods(src, m.captures@[i])
            + block_methods(src, m.captures@[j]),
{
    lemma_rust_class_scan_concat(src, m.captures@, None, Seq::empty(), Seq::empty());
    lemma_methods_concat_double(src, m.captures@, i, j);
    assert(Seq::<MethodView>::empty() + (block_methods(src, m.captures@[i]) + block_methods(
        src,
        m.captures@[j],
    )) =~= block_methods(src, m.captures@[i]) + block_methods(src, m.captures@[j]));
}

/// Law: reconciliation emits exactly one class per join match.  A behavior
/// block whose target name has no matching data shape appears in no join
/// match, so no class is ever emitted for it.
pub proof fn lemma_one_class_per_match(src: Seq<u8>, ms: Seq<RawMatch>)
    requires
        rust_classes_of(src, ms) is Ok,
    ensures
        rust_classes_of(src, ms)->Ok_0.len() == ms.len(),
    decreases ms.len(),
{
    if ms.len() == 0 {
    } else {
        lemma_one_class_per_match(src, ms.drop_first());
    }
}

/// Law: extraction is a pure function of the buffer.  Two extractor runs
/// that start from equal entity lists and succeed on equal buffers (so on
/// the same extraction result) end with equal entity lists; in particular
/// two fresh instances parsing the same buffer agree.
pub proof fn lemma_extraction_idempotent(
    entities: Result<Seq<ClassView>, ExtractError>,
    before1: Seq<ClassView>,
    before2: Seq<ClassView>,
    after1: Seq<ClassView>,
    after2: Seq<ClassView>,
)
    requires
        entities is Ok,
        before1 == before2,
        after1 == before1 + entities->Ok_0,
        after2 == before2 + entities->Ok_0,
    ensures
        after1 == after2,
{
}

} // verus!
