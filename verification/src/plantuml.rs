//! The diagram-markup projection of the entity model: a pure, stateless
//! rendering of classes, fields, methods and edges, one `markup` spec per
//! rendered type.
use vstd::prelude::*;

use crate::parser::LangParser;
use crate::uml::ClassView;
use crate::uml::MethodView;
use crate::uml::UmlClass;
use crate::uml::UmlField;
use crate::uml::UmlInterface;
use crate::uml::UmlMethod;
use crate::uml::UmlParameter;
use crate::uml::UmlVisibility;
use crate::uml::class_view;
use crate::uml::class_views;
use crate::uml::method_view;

verus! {

/// The pieces of a sequence, rendered by `f` and joined by `sep`.
pub open spec fn join_map<T>(s: Seq<T>, f: spec_fn(T) -> Seq<char>, sep: Seq<char>) -> Seq<char>
    decreases s.len(),
{
    if s.len() == 0 {
        Seq::empty()
    } else if s.len() == 1 {
        f(s.first())
    } else {
        f(s.first()) + sep + join_map(s.drop_first(), f, sep)
    }
}

/// Appending one piece extends a join by the separator and the piece.
proof fn lemma_join_map_push<T>(s: Seq<T>, f: spec_fn(T) -> Seq<char>, sep: Seq<char>, x: T)
    ensures
        join_map(s.push(x), f, sep) == if s.len() == 0 {
            f(x)
        } else {
            join_map(s, f, sep) + sep + f(x)
        },
    decreases s.len(),
{
    if s.len() == 0 {
        assert(s.push(x).len() == 1);
        assert(s.push(x).first() == x);
    } else {
        assert(s.push(x).first() == s.first());
        assert(s.push(x).drop_first() =~= s.drop_first().push(x));
        lemma_join_map_push(s.drop_first(), f, sep, x);
        if s.len() == 1 {
            assert(s.push(x).len() == 2);
            assert(join_map(s.push(x), f, sep) =~= join_map(s, f, sep) + sep + f(x));
        } else {
            assert(f(s.first()) + sep + (join_map(s.drop_first(), f, sep) + sep + f(x)) =~= (f(
                s.first(),
            ) + sep + join_map(s.drop_first(), f, sep)) + sep + f(x));
        }
    }
}

/// The marker of a visibility: `+` public, `-` private.
pub open spec fn visibility_markup(v: UmlVisibility) -> Seq<char> {
    match v {
        UmlVisibility::Public => "+"@,
        UmlVisibility::Private => "-"@,
    }
}

/// `name : type` of one parameter.
pub open spec fn param_markup(p: UmlParameter) -> Seq<char> {
    p.name@ + " : "@ + p.data_type@
}

/// The parameter list, comma-separated.
pub open spec fn params_markup(ps: Seq<UmlParameter>) -> Seq<char> {
    join_map(ps, |p: UmlParameter| param_markup(p), ", "@)
}

/// `visibility` `name : type` of one field.
pub open spec fn field_markup(f: UmlField) -> Seq<char> {
    visibility_markup(f.visibility) + f.name@ + " : "@ + f.data_type@
}

/// The field lines, one per field.
pub open spec fn fields_markup(fs: Seq<UmlField>) -> Seq<char> {
    join_map(fs, |f: UmlField| field_markup(f), "\n"@)
}

/// One method line, with its return type when it has one.
pub open spec fn method_markup(m: MethodView) -> Seq<char> {
    match m.return_type {
        Some(rt) => visibility_markup(m.visibility) + m.name@ + "("@ + params_markup(m.parameters)
            + "): "@ + rt@,
        None => visibility_markup(m.visibility) + m.name@ + "("@ + params_markup(m.parameters)
            + ")"@,
    }
}

/// The method lines, one per method.
pub open spec fn methods_markup(ms: Seq<MethodView>) -> Seq<char> {
    join_map(ms, |m: MethodView| method_markup(m), "\n"@)
}

/// One association edge line of a class.
pub open spec fn assoc_markup(name: Seq<char>, to: Seq<char>, to_title: Seq<char>) -> Seq<char> {
    name + " --> "@ + to + " : "@ + to_title
}

/// One inheritance edge line of a class.
pub open spec fn extend_markup(name: Seq<char>, super_name: Seq<char>) -> Seq<char> {
    name + " --|> "@ + super_name + " "@
}

/// The block of one interface: its method lines.
pub open spec fn interface_markup(name: Seq<char>, methods: Seq<MethodView>) -> Seq<char> {
    "class "@ + name + " {\n"@ + methods_markup(methods) + "\n}"@
}

/// The block of one class: its member lines, then its association and
/// inheritance edges.
pub open spec fn class_markup(c: ClassView) -> Seq<char> {
    "\nclass "@ + c.name@ + " {\n"@ + fields_markup(c.fields) + "\n"@ + methods_markup(c.methods)
        + "\n}\n"@ + join_map(
        c.associations,
        |a: crate::uml::UmlAssociation| assoc_markup(c.name@, a.to@, a.to_title@),
        "\n"@,
    ) + "\n"@ + join_map(
        c.extends,
        |x: String| extend_markup(c.name@, x@),
        "\n"@,
    ) + "\n"@
}

/// The class blocks of a model, in model order.
pub open spec fn classes_markup(cs: Seq<ClassView>) -> Seq<char> {
    join_map(cs, |c: ClassView| class_markup(c), "\n"@)
}

/// The whole diagram: the class blocks between the start and end directives.
pub open spec fn model_markup(cs: Seq<ClassView>) -> Seq<char> {
    "@startuml\n"@ + classes_markup(cs) + "\n@enduml\n"@
}

/// Renders a value as diagram markup; `markup` is the rendering's
/// specification.
pub trait PlantUml {
    spec fn markup(&self) -> Seq<char>;

    fn to_plantuml(&self) -> (r: String)
        ensures
            r@ == self.markup(),
    ;
}

/// An output-encoding hook for diagram text; encoding is outside this
/// library, so the encoded form is empty.
pub fn plantuml_encode(s: String) -> (r: String)
    ensures
        r@ == Seq::<char>::empty(),
{
    let encoded_string = String::new();
    encoded_string
}

impl PlantUml for UmlParameter {
    open spec fn markup(&self) -> Seq<char> {
        param_markup(*self)
    }

    fn to_plantuml(&self) -> (r: String) {
        let mut s = self.name.clone();
        s.append(" : ");
        s.append(self.data_type.as_str());
        s
    }
}

impl PlantUml for UmlVisibility {
    open spec fn markup(&self) -> Seq<char> {
        visibility_markup(*self)
    }

    fn to_plantuml(&self) -> (r: String) {
        match self {
            UmlVisibility::Public => "+".to_owned(),
            UmlVisibility::Private => "-".to_owned(),
        }
    }
}

impl PlantUml for UmlField {
    open spec fn markup(&self) -> Seq<char> {
        field_markup(*self)
    }

    fn to_plantuml(&self) -> (r: String) {
        let mut s = self.visibility.to_plantuml();
        s.append(self.name.as_str());
        s.append(" : ");
        s.append(self.data_type.as_str());
        s
    }
}

impl PlantUml for Vec<UmlParameter> {
    open spec fn markup(&self) -> Seq<char> {
        params_markup(self@)
    }

    fn to_plantuml(&self) -> (r: String) {
        let ghost f = |p: UmlParameter| param_markup(p);
        let mut s = String::new();
        let mut i: usize = 0;
        proof {
            assert(self@.take(0) =~= Seq::<UmlParameter>::empty());
        }
        while i < self.len()
            invariant
                i <= self.len(),
                s@ == join_map(self@.take(i as int), f, ", "@),
                f == (|p: UmlParameter| param_markup(p)),
            decreases self.len() - i,
        {
            proof {
                assert(self@.take(i as int + 1) =~= self@.take(i as int).push(self@[i as int]));
                lemma_join_map_push(self@.take(i as int), f, ", "@, self@[i as int]);
            }
            if i > 0 {
                s.append(", ");
            }
            let piece = self[i].to_plantuml();
            s.append(piece.as_str());
            i += 1;
        }
        proof {
            assert(self@.take(self@.len() as int) =~= self@);
        }
        s
    }
}

impl PlantUml for UmlMethod {
    open spec fn markup(&self) -> Seq<char> {
        method_markup(method_view(*self))
    }

    fn to_plantuml(&self) -> (r: String) {
        let mut s = self.visibility.to_plantuml();
        s.append(self.name.as_str());
        s.append("(");
        let params = self.parameters.to_plantuml();
        s.append(params.as_str());
        match &self.return_type {
            Some(rt) => {
                s.append("): ");
                s.append(rt.as_str());
            },
            None => {
                s.append(")");
            },
        }
        s
    }
}

impl PlantUml for Vec<UmlField> {
    open spec fn markup(&self) -> Seq<char> {
        fields_markup(self@)
    }

    fn to_plantuml(&self) -> (r: String) {
        let ghost f = |x: UmlField| field_markup(x);
        let mut s = String::new();
        let mut i: usize = 0;
        proof {
            assert(self@.take(0) =~= Seq::<UmlField>::empty());
        }
        while i < self.len()
            invariant
                i <= self.len(),
                s@ == join_map(self@.take(i as int), f, "\n"@),
                f == (|x: UmlField| field_markup(x)),
            decreases self.len() - i,
        {
            proof {
                assert(self@.take(i as int + 1) =~= self@.take(i as int).push(self@[i as int]));
                lemma_join_map_push(self@.take(i as int), f, "\n"@, self@[i as int]);
            }
            if i > 0 {
                s.append("\n");
            }
            let piece = self[i].to_plantuml();
            s.append(piece.as_str());
            i += 1;
        }
        proof {
            assert(self@.take(self@.len() as int) =~= self@);
        }
        s
    }
}

impl PlantUml for Vec<UmlMethod> {
    open spec fn markup(&self) -> Seq<char> {
        methods_markup(self@.map_values(|m: UmlMethod| method_view(m)))
    }

    fn to_plantuml(&self) -> (r: String) {
        let ghost f = |m: MethodView| method_markup(m);
        let ghost views = self@.map_values(|m: UmlMethod| method_view(m));
        let mut s = String::new();
        let mut i: usize = 0;
        proof {
            assert(views.take(0) =~= Seq::<MethodView>::empty());
        }
        while i < self.len()
            invariant
                i <= self.len(),
                views == self@.map_values(|m: UmlMethod| method_view(m)),
                s@ == join_map(views.take(i as int), f, "\n"@),
                f == (|m: MethodView| method_markup(m)),
            decreases self.len() - i,
        {
            proof {
                assert(views.take(i as int + 1) =~= views.take(i as int).push(views[i as int]));
                lemma_join_map_push(views.take(i as int), f, "\n"@, views[i as int]);
            }
            if i > 0 {
                s.append("\n");
            }
            let piece = self[i].to_plantuml();
            s.append(piece.as_str());
            i += 1;
        }
        proof {
            assert(views.take(views.len() as int) =~= views);
        }
        s
    }
}

impl PlantUml for UmlInterface {
    open spec fn markup(&self) -> Seq<char> {
        interface_markup(self.name@, self.methods@.map_values(|m: UmlMethod| method_view(m)))
    }

    fn to_plantuml(&self) -> (r: String) {
        let mut s = "class ".to_owned();
        s.append(self.name.as_str());
        s.append(" {\n");
        let methods = self.methods.to_plantuml();
        s.append(methods.as_str());
        s.append("\n}");
        s
    }
}

impl PlantUml for UmlClass {
    open spec fn markup(&self) -> Seq<char> {
        class_markup(class_view(*self))
    }

    fn to_plantuml(&self) -> (r: String) {
        let ghost cv = class_view(*self);
        let mut s = "\nclass ".to_owned();
        s.append(self.name.as_str());
        s.append(" {\n");
        let fields = self.fields.to_plantuml();
        s.append(fields.as_str());
        s.append("\n");
        let methods = self.methods.to_plantuml();
        s.append(methods.as_str());
        s.append("\n}\n");
        let ghost af = |a: crate::uml::UmlAssociation| assoc_markup(cv.name@, a.to@, a.to_title@);
        let mut i: usize = 0;
        proof {
            assert(self.associations@.take(0) =~= Seq::<crate::uml::UmlAssociation>::empty());
            assert(s@ + Seq::<char>::empty() =~= s@);
        }
        let ghost base = s@;
        while i < self.associations.len()
            invariant
                i <= self.associations.len(),
                cv == class_view(*self),
                af == (|a: crate::uml::UmlAssociation| assoc_markup(cv.name@, a.to@, a.to_title@)),
                s@ == base + join_map(self.associations@.take(i as int), af, "\n"@),
            decreases self.associations.len() - i,
        {
            proof {
                assert(self.associations@.take(i as int + 1) =~= self.associations@.take(
                    i as int,
                ).push(self.associations@[i as int]));
                lemma_join_map_push(
                    self.associations@.take(i as int),
                    af,
                    "\n"@,
                    self.associations@[i as int],
                );
                assert((base + join_map(self.associations@.take(i as int), af, "\n"@)) + "\n"@
                    + self.associations@[i as int].to@ =~= base + (join_map(
                    self.associations@.take(i as int),
                    af,
                    "\n"@,
                ) + "\n"@ + self.associations@[i as int].to@));
            }
            if i > 0 {
                s.append("\n");
            }
            let a = &self.associations[i];
            s.append(self.name.as_str());
            s.append(" --> ");
            s.append(a.to.as_str());
            s.append(" : ");
            s.append(a.to_title.as_str());
            proof {
                assert(s@ =~= base + join_map(
                    self.associations@.take(i as int + 1),
                    af,
                    "\n"@,
                ));
            }
            i += 1;
        }
        proof {
            assert(self.associations@.take(self.associations@.len() as int)
                =~= self.associations@);
        }
        s.append("\n");
        let ghost ef = |x: String| extend_markup(cv.name@, x@);
        let ghost base2 = s@;
        let mut k: usize = 0;
        proof {
            assert(self.extends@.take(0) =~= Seq::<String>::empty());
            assert(s@ + Seq::<char>::empty() =~= s@);
        }
        while k < self.extends.len()
            invariant
                k <= self.extends.len(),
                cv == class_view(*self),
                ef == (|x: String| extend_markup(cv.name@, x@)),
                s@ == base2 + join_map(self.extends@.take(k as int), ef, "\n"@),
            decreases self.extends.len() - k,
        {
            proof {
                assert(self.extends@.take(k as int + 1) =~= self.extends@.take(k as int).push(
                    self.extends@[k as int],
                ));
                lemma_join_map_push(
                    self.extends@.take(k as int),
                    ef,
                    "\n"@,
                    self.extends@[k as int],
                );
            }
            if k > 0 {
                s.append("\n");
            }
            s.append(self.name.as_str());
            s.append(" --|> ");
            s.append(self.extends[k].as_str());
            s.append(" ");
            proof {
                assert(s@ =~= base2 + join_map(self.extends@.take(k as int + 1), ef, "\n"@));
            }
            k += 1;
        }
        proof {
            assert(self.extends@.take(self.extends@.len() as int) =~= self.extends@);
        }
        s.append("\n");
        proof {
            assert(s@ =~= class_markup(cv));
        }
        s
    }
}

impl PlantUml for Vec<UmlClass> {
    open spec fn markup(&self) -> Seq<char> {
        classes_markup(class_views(self@))
    }

    fn to_plantuml(&self) -> (r: String) {
        let ghost f = |c: ClassView| class_markup(c);
        let ghost views = class_views(self@);
        let mut s = String::new();
        let mut i: usize = 0;
        proof {
            assert(views.take(0) =~= Seq::<ClassView>::empty());
        }
        while i < self.len()
            invariant
                i <= self.len(),
                views == class_views(self@),
                s@ == join_map(views.take(i as int), f, "\n"@),
                f == (|c: ClassView| class_markup(c)),
            decreases self.len() - i,
        {
            proof {
                assert(views.take(i as int + 1) =~= views.take(i as int).push(views[i as int]));
                lemma_join_map_push(views.take(i as int), f, "\n"@, views[i as int]);
            }
            if i > 0 {
                s.append("\n");
            }
            let piece = self[i].to_plantuml();
            s.append(piece.as_str());
            i += 1;
        }
        proof {
            assert(views.take(views.len() as int) =~= views);
        }
        s
    }
}

impl<T: LangParser> PlantUml for T {
    open spec fn markup(&self) -> Seq<char> {
        model_markup(class_views(self.classes_model()))
    }

    fn to_plantuml(&self) -> (r: String) {
        let mut s = "@startuml\n".to_owned();
        let body = self.classes().to_plantuml();
        s.append(body.as_str());
        s.append("\n@enduml\n");
        s
    }
}

} // verus!
