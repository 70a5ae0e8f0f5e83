//! A small self-describing entity tree and the dependency-inference
//! heuristic over declared-type text.
//!
//! `dependency_candidates` is the reference for the heuristic: split the
//! type text on the characters that delimit composite type syntax (comma and
//! angle brackets), discard empty fragments, and strip surrounding spaces
//! from each remaining fragment.  A dependency edge is recorded when a
//! candidate is among the names the caller supplies.
use vstd::prelude::*;

verus! {

/// What an entity stands for; a field entity carries its field name here and
/// its declared type in `Entity::name`.
#[derive(Clone, Debug)]
pub enum EntityType {
    Struct,
    Enum,
    Field(String),
}

/// A node of the entity tree: a struct or enum with its field children, or a
/// field (whose `name` is its declared type text).
#[derive(Debug)]
pub struct Entity {
    pub entity_type: EntityType,
    pub name: String,
    pub fields: Vec<Entity>,
}

impl Entity {
    /// A fresh entity node.
    pub fn new(entity_type: EntityType, name: &str, fields: Vec<Entity>) -> (r: Entity)
        ensures
            r.entity_type == entity_type,
            r.name@ == name@,
            r.fields == fields,
    {
        Entity { entity_type, name: name.to_owned(), fields }
    }
}

/// Relies on str::chars: the characters of the string, in order.
#[verifier::external_body]
fn chars_of(s: &str) -> (r: Vec<char>)
    ensures
        r@ == s@,
{
    s.chars().collect()
}

/// Relies on String::from_iter over chars: the string spelling exactly the
/// given characters.
#[verifier::external_body]
fn string_from_chars(v: &Vec<char>) -> (r: String)
    ensures
        r@ == v@,
{
    v.iter().collect()
}

/// The characters that delimit composite/generic type syntax.
pub open spec fn is_type_sep(c: char) -> bool {
    c == ',' || c == '<' || c == '>'
}

/// The fragments of `t` between separators, in order; a text without
/// separators is one fragment, and each separator opens a new one.
pub open spec fn split_fragments(t: Seq<char>) -> Seq<Seq<char>>
    decreases t.len(),
{
    if t.len() == 0 {
        seq![Seq::<char>::empty()]
    } else if is_type_sep(t.first()) {
        seq![Seq::<char>::empty()] + split_fragments(t.drop_first())
    } else {
        let r = split_fragments(t.drop_first());
        seq![seq![t.first()] + r.first()] + r.drop_first()
    }
}

/// A split always yields at least one fragment.
proof fn lemma_split_fragments_len(t: Seq<char>)
    ensures
        split_fragments(t).len() >= 1,
    decreases t.len(),
{
    if t.len() == 0 {
    } else {
        lemma_split_fragments_len(t.drop_first());
    }
}

/// `s` without its leading spaces.
pub open spec fn drop_leading_spaces(s: Seq<char>) -> Seq<char>
    decreases s.len(),
{
    if s.len() > 0 && s.first() == ' ' {
        drop_leading_spaces(s.drop_first())
    } else {
        s
    }
}

/// `s` without its trailing spaces.
pub open spec fn drop_trailing_spaces(s: Seq<char>) -> Seq<char>
    decreases s.len(),
{
    if s.len() > 0 && s.last() == ' ' {
        drop_trailing_spaces(s.drop_last())
    } else {
        s
    }
}

/// `s` without its surrounding spaces.
pub open spec fn trim_spaces(s: Seq<char>) -> Seq<char> {
    drop_trailing_spaces(drop_leading_spaces(s))
}

/// The dependency candidates of a declared-type text: its fragments between
/// `,`, `<` and `>`, empty fragments dropped, each survivor trimmed.
pub open spec fn dependency_candidates(t: Seq<char>) -> Seq<Seq<char>> {
    split_fragments(t).filter(|f: Seq<char>| f.len() > 0).map_values(
        |f: Seq<char>| trim_spaces(f),
    )
}

/// `v` without its surrounding spaces.
fn trim_chars(v: &Vec<char>) -> (r: Vec<char>)
    ensures
        r@ == trim_spaces(v@),
{
    let mut lo: usize = 0;
    proof {
        assert(v@.skip(0) =~= v@);
    }
    while lo < v.len() && v[lo] == ' '
        invariant
            lo <= v.len(),
            drop_leading_spaces(v@) == drop_leading_spaces(v@.skip(lo as int)),
        decreases v.len() - lo,
    {
        proof {
            assert(v@.skip(lo as int).first() == v@[lo as int]);
            assert(v@.skip(lo as int).drop_first() =~= v@.skip(lo as int + 1));
        }
        lo += 1;
    }
    proof {
        assert(drop_leading_spaces(v@.skip(lo as int)) == v@.skip(lo as int));
        assert(v@.subrange(lo as int, v@.len() as int) =~= v@.skip(lo as int));
    }
    let mut hi: usize = v.len();
    while hi > lo && v[hi - 1] == ' '
        invariant
            lo <= hi <= v.len(),
            drop_trailing_spaces(v@.skip(lo as int)) == drop_trailing_spaces(
                v@.subrange(lo as int, hi as int),
            ),
        decreases hi,
    {
        proof {
            assert(v@.subrange(lo as int, hi as int).last() == v@[hi as int - 1]);
            assert(v@.subrange(lo as int, hi as int).drop_last() =~= v@.subrange(
                lo as int,
                hi as int - 1,
            ));
        }
        hi -= 1;
    }
    proof {
        assert(drop_trailing_spaces(v@.subrange(lo as int, hi as int)) == v@.subrange(
            lo as int,
            hi as int,
        ));
    }
    let mut out: Vec<char> = Vec::new();
    let mut k: usize = lo;
    proof {
        assert(out@ =~= v@.subrange(lo as int, lo as int));
    }
    while k < hi
        invariant
            lo <= k <= hi <= v.len(),
            out@ == v@.subrange(lo as int, k as int),
        decreases hi - k,
    {
        out.push(v[k]);
        proof {
            assert(v@.subrange(lo as int, k as int).push(v@[k as int]) =~= v@.subrange(
                lo as int,
                k as int + 1,
            ));
        }
        k += 1;
    }
    out
}

/// Prepends a still-growing fragment to the fragments of the rest of the
/// text.
pub open spec fn cons_first(pre: Seq<char>, r: Seq<Seq<char>>) -> Seq<Seq<char>> {
    seq![pre + r.first()] + r.drop_first()
}

/// The dependency candidates of a declared-type text, in fragment order
/// (duplicates kept; membership is what the inference uses).
pub fn make_dependencies(type_text: &str) -> (r: Vec<String>)
    ensures
        r@.map_values(|s: String| s@) == dependency_candidates(type_text@),
{
    let cs: Vec<char> = chars_of(type_text);
    let mut frags: Vec<Vec<char>> = Vec::new();
    let mut cur: Vec<char> = Vec::new();
    let mut i: usize = 0;
    proof {
        assert(cs@.skip(0) =~= cs@);
        lemma_split_fragments_len(cs@);
        assert(cur@ + split_fragments(cs@).first() =~= split_fragments(cs@).first());
        assert(cons_first(cur@, split_fragments(cs@)) =~= split_fragments(cs@));
        assert(frags@.map_values(|v: Vec<char>| v@) =~= Seq::<Seq<char>>::empty());
        assert(Seq::<Seq<char>>::empty() + cons_first(cur@, split_fragments(cs@)) =~= cons_first(
            cur@,
            split_fragments(cs@),
        ));
    }
    while i < cs.len()
        invariant
            i <= cs.len(),
            cs@ == type_text@,
            split_fragments(cs@) == frags@.map_values(|v: Vec<char>| v@) + cons_first(
                cur@,
                split_fragments(cs@.skip(i as int)),
            ),
        decreases cs.len() - i,
    {
        let c = cs[i];
        proof {
            assert(cs@.skip(i as int).first() == cs@[i as int]);
            assert(cs@.skip(i as int).drop_first() =~= cs@.skip(i as int + 1));
            lemma_split_fragments_len(cs@.skip(i as int + 1));
        }
        if c == ',' || c == '<' || c == '>' {
            proof {
                let rest = split_fragments(cs@.skip(i as int + 1));
                assert(cur@ + Seq::<char>::empty() =~= cur@);
                assert(cons_first(cur@, seq![Seq::<char>::empty()] + rest) =~= seq![cur@] + rest);
                assert(frags@.map_values(|v: Vec<char>| v@) + (seq![cur@] + rest) =~= (frags@.push(
                    cur,
                ).map_values(|v: Vec<char>| v@)) + cons_first(
                    Seq::<char>::empty(),
                    rest,
                ));
            }
            frags.push(cur);
            cur = Vec::new();
        } else {
            proof {
                let rest = split_fragments(cs@.skip(i as int + 1));
                assert(cur@ + (seq![cs@[i as int]] + rest.first()) =~= (cur@.push(cs@[i as int]))
                    + rest.first());
                assert(cons_first(cur@, split_fragments(cs@.skip(i as int))) =~= cons_first(
                    cur@.push(cs@[i as int]),
                    rest,
                ));
            }
            cur.push(c);
        }
        i += 1;
    }
    proof {
        assert(cs@.skip(i as int) =~= Seq::<char>::empty());
        assert(cur@ + Seq::<char>::empty() =~= cur@);
        assert(cons_first(cur@, split_fragments(cs@.skip(i as int))) =~= seq![cur@]);
        assert(frags@.map_values(|v: Vec<char>| v@) + seq![cur@] =~= frags@.push(cur).map_values(
            |v: Vec<char>| v@,
        ));
    }
    frags.push(cur);
    let ghost fviews = frags@.map_values(|v: Vec<char>| v@);
    proof {
        assert(fviews == split_fragments(type_text@));
    }
    let mut out: Vec<String> = Vec::new();
    let mut k: usize = 0;
    proof {
        reveal(Seq::filter);
        assert(fviews.take(0) =~= Seq::<Seq<char>>::empty());
        assert(out@.map_values(|s: String| s@) =~= fviews.take(0).filter(
            |f: Seq<char>| f.len() > 0,
        ).map_values(|f: Seq<char>| trim_spaces(f)));
    }
    while k < frags.len()
        invariant
            k <= frags.len(),
            fviews == frags@.map_values(|v: Vec<char>| v@),
            fviews == split_fragments(type_text@),
            out@.map_values(|s: String| s@) == fviews.take(k as int).filter(
                |f: Seq<char>| f.len() > 0,
            ).map_values(|f: Seq<char>| trim_spaces(f)),
        decreases frags.len() - k,
    {
        proof {
            assert(fviews.take(k as int + 1).drop_last() =~= fviews.take(k as int));
            assert(fviews.take(k as int + 1).last() == frags@[k as int]@);
        }
        if frags[k].len() > 0 {
            let t = trim_chars(&frags[k]);
            let s = string_from_chars(&t);
            proof {
                reveal(Seq::filter);
                let p = |f: Seq<char>| f.len() > 0;
                let g = |f: Seq<char>| trim_spaces(f);
                assert(fviews.take(k as int + 1).filter(p) =~= fviews.take(k as int).filter(p).push(
                    frags@[k as int]@,
                ));
                assert(fviews.take(k as int).filter(p).push(frags@[k as int]@).map_values(g)
                    =~= fviews.take(k as int).filter(p).map_values(g).push(g(frags@[k as int]@)));
                assert(out@.push(s).map_values(|x: String| x@) =~= out@.map_values(
                    |x: String| x@,
                ).push(s@));
            }
            out.push(s);
        } else {
            proof {
                reveal(Seq::filter);
                let p = |f: Seq<char>| f.len() > 0;
                assert(fviews.take(k as int + 1).filter(p) =~= fviews.take(k as int).filter(p));
            }
        }
        k += 1;
    }
    proof {
        assert(fviews.take(frags@.len() as int) =~= fviews);
    }
    out
}

/// True exactly when some name in `names` spells `s`.
pub open spec fn names_contain(names: Seq<String>, s: Seq<char>) -> bool {
    exists|j: int| 0 <= j < names.len() && names[j]@ == s
}

/// Decides membership of `s` among `names`.
fn contains_name(names: &Vec<String>, s: &String) -> (r: bool)
    ensures
        r == names_contain(names@, s@),
{
    let mut i: usize = 0;
    while i < names.len()
        invariant
            i <= names.len(),
            forall|k: int| 0 <= k < i ==> names@[k]@ != s@,
        decreases names.len() - i,
    {
        if crate::capture::name_is(s, names[i].as_str()) {
            return true;
        }
        i += 1;
    }
    false
}

/// True exactly when some dependency candidate of the declared-type text `t`
/// is among the names of `source`.
pub open spec fn depends_on(t: Seq<char>, source: Seq<String>) -> bool {
    exists|k: int|
        0 <= k < dependency_candidates(t).len() && names_contain(
            source,
            dependency_candidates(t)[k],
        )
}

/// True exactly when the declared-type text `type_text` references one of
/// the supplied entity names: some dependency candidate of the text is in
/// `source`.
pub fn has_dependency(type_text: &str, source: &Vec<String>) -> (r: bool)
    ensures
        r == depends_on(type_text@, source@),
{
    let cands = make_dependencies(type_text);
    let ghost cviews = cands@.map_values(|s: String| s@);
    let mut i: usize = 0;
    while i < cands.len()
        invariant
            i <= cands.len(),
            cviews == cands@.map_values(|s: String| s@),
            cviews == dependency_candidates(type_text@),
            forall|k: int| 0 <= k < i ==> !names_contain(source@, cviews[k]),
        decreases cands.len() - i,
    {
        if contains_name(source, &cands[i]) {
            proof {
                assert(names_contain(source@, cviews[i as int]));
            }
            return true;
        }
        i += 1;
    }
    false
}

/// The opening line of an entity's rendering.
pub open spec fn render_prefix(e: Entity) -> Seq<char> {
    match e.entity_type {
        EntityType::Struct => "class \""@ + e.name@ + "\" {\n"@,
        EntityType::Enum => "enum \""@ + e.name@ + "\" {\n"@,
        EntityType::Field(n) => "    + "@ + n@ + ": "@ + e.name@ + "\n"@,
    }
}

/// The rendering of an entity: its opening line, then its field children.
pub open spec fn render_spec(e: Entity) -> Seq<char>
    decreases e, 1int, 0int,
{
    render_prefix(e) + render_children(e.fields@, 0)
}

/// The renderings of the field children from index `k` on; non-field
/// children render as nothing.
pub open spec fn render_children(es: Seq<Entity>, k: int) -> Seq<char>
    decreases es, 0int, es.len() - k,
{
    if k < 0 || k >= es.len() {
        Seq::empty()
    } else {
        (match es[k].entity_type {
            EntityType::Field(_) => render_spec(es[k]),
            _ => Seq::empty(),
        }) + render_children(es, k + 1)
    }
}

/// One dependency edge line.
pub open spec fn dep_line(parent: Seq<char>, child: Seq<char>) -> Seq<char> {
    "\""@ + parent + "\" <-- \""@ + child + "\"\n"@
}

/// The dependency lines of an entity: for each field, first the lines of its
/// own children, then, when the field's declared type references a supplied
/// name, one edge from this entity to the field.
pub open spec fn render_deps_spec(e: Entity, source: Seq<String>) -> Seq<char>
    decreases e, 1int, 0int,
{
    render_deps_fields(e.name, e.fields@, source, 0)
}

/// The dependency lines contributed by the fields from index `k` on.
pub open spec fn render_deps_fields(
    parent: String,
    es: Seq<Entity>,
    source: Seq<String>,
    k: int,
) -> Seq<char>
    decreases es, 0int, es.len() - k,
{
    if k < 0 || k >= es.len() {
        Seq::empty()
    } else {
        render_deps_grand(es[k].fields@, source, 0) + (if depends_on(es[k].name@, source) {
            dep_line(parent@, es[k].name@)
        } else {
            Seq::empty()
        }) + render_deps_fields(parent, es, source, k + 1)
    }
}

/// The dependency lines of the grandchildren from index `j` on.
pub open spec fn render_deps_grand(es: Seq<Entity>, source: Seq<String>, j: int) -> Seq<char>
    decreases es, 0int, es.len() - j,
{
    if j < 0 || j >= es.len() {
        Seq::empty()
    } else {
        render_deps_spec(es[j], source) + render_deps_grand(es, source, j + 1)
    }
}

impl Entity {
    /// Renders this entity: its opening line, then each field child's
    /// rendering.
    pub fn render(&self) -> (r: String)
        ensures
            r@ == render_spec(*self),
        decreases *self,
    {
        let mut s: String = match &self.entity_type {
            EntityType::Struct => {
                let mut p = "class \"".to_owned();
                p.append(self.name.as_str());
                p.append("\" {\n");
                p
            },
            EntityType::Enum => {
                let mut p = "enum \"".to_owned();
                p.append(self.name.as_str());
                p.append("\" {\n");
                p
            },
            EntityType::Field(n) => {
                let mut p = "    + ".to_owned();
                p.append(n.as_str());
                p.append(": ");
                p.append(self.name.as_str());
                p.append("\n");
                p
            },
        };
        proof {
            assert(s@ =~= render_prefix(*self));
        }
        let mut i: usize = 0;
        while i < self.fields.len()
            invariant
                i <= self.fields.len(),
                render_spec(*self) == s@ + render_children(self.fields@, i as int),
            decreases self.fields.len() - i,
        {
            match &self.fields[i].entity_type {
                EntityType::Field(_) => {
                    proof {
                        assert(decreases_to!(*self => self.fields));
                        assert(decreases_to!(self.fields => self.fields@));
                        assert(decreases_to!(self.fields@ => self.fields@[i as int]));
                    }
                    let sub = self.fields[i].render();
                    proof {
                        assert((s@ + render_spec(self.fields@[i as int])) + render_children(
                            self.fields@,
                            i as int + 1,
                        ) =~= s@ + (render_spec(self.fields@[i as int]) + render_children(
                            self.fields@,
                            i as int + 1,
                        )));
                    }
                    s.append(sub.as_str());
                },
                _ => {
                    proof {
                        assert(Seq::<char>::empty() + render_children(self.fields@, i as int + 1)
                            =~= render_children(self.fields@, i as int + 1));
                    }
                },
            }
            i += 1;
        }
        s
    }

    /// Renders this entity's dependency edges against the supplied names:
    /// for each field, its children's edges, then possibly one edge of its
    /// own.
    pub fn render_dependencies(&self, source: &Vec<String>) -> (r: String)
        ensures
            r@ == render_deps_spec(*self, source@),
        decreases *self,
    {
        let mut s = String::new();
        let mut k: usize = 0;
        proof {
            assert(Seq::<char>::empty() + render_deps_fields(self.name, self.fields@, source@, 0)
                =~= render_deps_fields(self.name, self.fields@, source@, 0));
        }
        while k < self.fields.len()
            invariant
                k <= self.fields.len(),
                render_deps_spec(*self, source@) == s@ + render_deps_fields(
                    self.name,
                    self.fields@,
                    source@,
                    k as int,
                ),
            decreases self.fields.len() - k,
        {
            let ghost s0 = s@;
            let f = &self.fields[k];
            let ghost g = f.fields@;
            let mut j: usize = 0;
            while j < f.fields.len()
                invariant
                    j <= f.fields.len(),
                    k < self.fields.len(),
                    *f == self.fields@[k as int],
                    g == f.fields@,
                    s0 + render_deps_grand(g, source@, 0) == s@ + render_deps_grand(
                        g,
                        source@,
                        j as int,
                    ),
                decreases f.fields.len() - j,
            {
                proof {
                    assert(decreases_to!(*self => self.fields));
                    assert(decreases_to!(self.fields => self.fields@));
                    assert(decreases_to!(self.fields@ => self.fields@[k as int]));
                    assert(decreases_to!(self.fields@[k as int] => self.fields@[k as int].fields));
                    assert(decreases_to!(self.fields@[k as int].fields => g));
                    assert(decreases_to!(g => g[j as int]));
                }
                let sub = f.fields[j].render_dependencies(source);
                proof {
                    assert((s@ + render_deps_spec(g[j as int], source@)) + render_deps_grand(
                        g,
                        source@,
                        j as int + 1,
                    ) =~= s@ + (render_deps_spec(g[j as int], source@) + render_deps_grand(
                        g,
                        source@,
                        j as int + 1,
                    )));
                }
                s.append(sub.as_str());
                j += 1;
            }
            proof {
                assert(s@ =~= s0 + render_deps_grand(g, source@, 0));
            }
            if has_dependency(f.name.as_str(), source) {
                s.append("\"");
                s.append(self.name.as_str());
                s.append("\" <-- \"");
                s.append(f.name.as_str());
                s.append("\"\n");
                proof {
                    assert(s@ =~= s0 + (render_deps_grand(g, source@, 0) + dep_line(
                        self.name@,
                        f.name@,
                    )));
                }
            }
            proof {
                let tail = render_deps_fields(self.name, self.fields@, source@, k as int + 1);
                let line = if depends_on(f.name@, source@) {
                    dep_line(self.name@, f.name@)
                } else {
                    Seq::<char>::empty()
                };
                assert(s@ =~= s0 + (render_deps_grand(g, source@, 0) + line));
                assert((s0 + (render_deps_grand(g, source@, 0) + line)) + tail =~= s0 + (
                render_deps_grand(g, source@, 0) + line + tail));
            }
            k += 1;
        }
        s
    }
}

} // verus!
