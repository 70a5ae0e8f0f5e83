//! The syntax-tree provider: the trusted boundary around the `tree_sitter`
//! parsing library.
//!
//! Everything behind this boundary is consumed as a capability: given a byte
//! buffer and a grammar, produce a syntax tree; given a tree and a compiled
//! pattern, produce the ordered sequence of matches, each a list of named
//! captures with their source text and byte range.
//!
//! Parsing and pattern matching are deterministic over the buffer, the
//! grammar and the pattern.  Each engine type below is built by exactly one
//! constructor, from the fixed pattern table of its language, so for each
//! match function the triple (grammar, pattern, buffer region) is determined
//! by its arguments; the `uninterp` functions below name those results.
use vstd::prelude::*;

use crate::capture::RawCapture;
use crate::capture::RawMatch;
use crate::parser::ExtractError;
use crate::parser::LangChoice;

verus! {

#[verifier::external_type_specification]
#[verifier::external_body]
pub struct ExParser(tree_sitter::Parser);

#[verifier::external_type_specification]
#[verifier::external_body]
pub struct ExQuery(tree_sitter::Query);

#[verifier::external_type_specification]
#[verifier::external_body]
pub struct ExTree(tree_sitter::Tree);

#[verifier::external_type_specification]
#[verifier::external_body]
pub struct ExQueryMatch<'cursor, 'tree>(tree_sitter::QueryMatch<'cursor, 'tree>);

#[verifier::external_type_specification]
#[verifier::external_body]
pub struct ExLanguage(tree_sitter::Language);

/// The matches of the Rust class/impl join pattern over the given region of
/// the Rust-grammar parse of `src`.
pub uninterp spec fn rust_class_matches(src: Seq<u8>, start: int, end: int) -> Seq<RawMatch>;

/// The matches of the Rust method pattern over the given region.
pub uninterp spec fn rust_method_matches(src: Seq<u8>, start: int, end: int) -> Seq<RawMatch>;

/// The matches of the Rust parameter pattern over the given region.
pub uninterp spec fn rust_param_matches(src: Seq<u8>, start: int, end: int) -> Seq<RawMatch>;

/// The matches of the Rust field pattern over the given region.
pub uninterp spec fn rust_field_matches(src: Seq<u8>, start: int, end: int) -> Seq<RawMatch>;

/// The matches of the C++ class pattern over the given region of the
/// C++-grammar parse of `src`.
pub uninterp spec fn cpp_class_matches(src: Seq<u8>, start: int, end: int) -> Seq<RawMatch>;

/// The matches of the C++ method pattern over the given region.
pub uninterp spec fn cpp_method_matches(src: Seq<u8>, start: int, end: int) -> Seq<RawMatch>;

/// The matches of the C++ parameter pattern over the given region.
pub uninterp spec fn cpp_param_matches(src: Seq<u8>, start: int, end: int) -> Seq<RawMatch>;

/// The matches of the C++ field pattern over the given region.
pub uninterp spec fn cpp_field_matches(src: Seq<u8>, start: int, end: int) -> Seq<RawMatch>;

/// The matches of the C++ association pattern over the given region.
pub uninterp spec fn cpp_assoc_matches(src: Seq<u8>, start: int, end: int) -> Seq<RawMatch>;

/// The matches of the C++ base-class pattern over the given region.
pub uninterp spec fn cpp_extends_matches(src: Seq<u8>, start: int, end: int) -> Seq<RawMatch>;

/// A parsed buffer: the syntax tree together with the bytes it was parsed
/// from and the language whose grammar parsed it.  Built only by the
/// engines' `parse_tree`, so the tree is always the parse of `src` under
/// the grammar of `lang`.
pub struct SourceTree {
    lang: LangChoice,
    src: Vec<u8>,
    tree: tree_sitter::Tree,
}

impl SourceTree {
    pub closed spec fn lang(self) -> LangChoice {
        self.lang
    }

    pub closed spec fn src(self) -> Seq<u8> {
        self.src@
    }
}

/// Relies on tree_sitter::Query::capture_names and tree_sitter::Node's byte
/// ranges: one query match as plain data, each capture's name, the source
/// text of its node, and the node's byte range, in capture order.
#[verifier::external_body]
fn convert_match(m: &tree_sitter::QueryMatch, names: &[String], src: &Vec<u8>) -> (r: RawMatch) {
    let captures = m.captures.iter().map(
        |c| RawCapture {
            name: names[c.index as usize].clone(),
            text: String::from_utf8_lossy(&src[c.node.byte_range()]).into_owned(),
            start: c.node.start_byte(),
            end: c.node.end_byte(),
        },
    ).collect();
    RawMatch { captures }
}

/// Relies on tree_sitter::QueryCursor::matches and
/// tree_sitter::Node::named_descendant_for_byte_range: the matches of
/// `query` at the named node covering `[start, end)` of the tree (the root
/// when the range covers the whole buffer), in match order.
#[verifier::external_body]
fn run_query(query: &tree_sitter::Query, st: &SourceTree, start: usize, end: usize) -> (r: Vec<
    RawMatch,
>) {
    let hi = end.min(st.src.len());
    let root = st.tree.root_node();
    let node = root.named_descendant_for_byte_range(start.min(hi), hi).unwrap_or(root);
    let mut cursor = tree_sitter::QueryCursor::new();
    cursor.matches(query, node, st.src.as_slice()).map(
        |m| convert_match(&m, query.capture_names(), &st.src),
    ).collect()
}

/// The Rust extraction engine: the parser and the compiled patterns of the
/// Rust query table, built once per extractor instance.
pub struct RustEngine {
    parser: tree_sitter::Parser,
    class_query: tree_sitter::Query,
    method_query: tree_sitter::Query,
    method_args_query: tree_sitter::Query,
    class_fields_query: tree_sitter::Query,
}

/// Relies on tree_sitter::Query::new: compiles one pattern for a grammar.
#[verifier::external_body]
fn compile_query(language: tree_sitter::Language, pattern: &str) -> (r: Result<
    tree_sitter::Query,
    ExtractError,
>) {
    tree_sitter::Query::new(language, pattern).map_err(|_| ExtractError::QueryBuild)
}

/// Relies on tree_sitter::Parser::set_language: a parser for the grammar.
#[verifier::external_body]
fn make_parser(language: tree_sitter::Language) -> (r: Result<
    tree_sitter::Parser,
    ExtractError,
>) {
    let mut parser = tree_sitter::Parser::new();
    match parser.set_language(language) {
        Ok(_) => Ok(parser),
        Err(_) => Err(ExtractError::QueryBuild),
    }
}

impl RustEngine {
    /// Relies on tree_sitter_rust::language and tree_sitter::Query::new: a
    /// parser for the Rust grammar and the compiled patterns of the Rust
    /// query table.  The `requires` admits only the fixed patterns of that
    /// table, which the grammar accepts, so construction succeeds; the
    /// match functions below are named for exactly this table.
    #[verifier::external_body]
    pub(crate) fn new(class_q: &str, method_q: &str, args_q: &str, fields_q: &str) -> (r: Result<
        RustEngine,
        ExtractError,
    >)
        requires
            class_q@ == crate::rust_parser::CLASS_QUERY@,
            method_q@ == crate::rust_parser::METHOD_QUERY@,
            args_q@ == crate::rust_parser::METHOD_ARGS_QUERY@,
            fields_q@ == crate::rust_parser::CLASS_FIELDS_QUERY@,
        ensures
            r is Ok,
    {
        let language = tree_sitter_rust::language();
        Ok(
            RustEngine {
                parser: make_parser(language)?,
                class_query: compile_query(language, class_q)?,
                method_query: compile_query(language, method_q)?,
                method_args_query: compile_query(language, args_q)?,
                class_fields_query: compile_query(language, fields_q)?,
            },
        )
    }

    /// Relies on tree_sitter::Parser::parse with the Rust grammar: builds
    /// the syntax tree of `buffer`.  The parse always returns a tree: its
    /// only documented refusals are a missing language, a timeout and a
    /// cancellation flag, and the language is assigned at construction while
    /// no timeout or flag is ever set.
    #[verifier::external_body]
    pub(crate) fn parse_tree(&mut self, buffer: &Vec<u8>) -> (r: Result<SourceTree, ExtractError>)
        ensures
            r is Ok,
            r->Ok_0.lang() == LangChoice::RUST && r->Ok_0.src() == buffer@,
    {
        match self.parser.parse(buffer, None) {
            Some(tree) => Ok(SourceTree { lang: LangChoice::RUST, src: buffer.clone(), tree }),
            None => Err(ExtractError::ParseFailed),
        }
    }

    /// Relies on tree_sitter::QueryCursor::matches over the Rust class/impl
    /// join pattern: deterministic matches of the pattern in the region.
    #[verifier::external_body]
    pub(crate) fn class_matches(&self, st: &SourceTree, start: usize, end: usize) -> (r: Vec<
        RawMatch,
    >)
        requires
            st.lang() == LangChoice::RUST,
        ensures
            r@ == rust_class_matches(st.src(), start as int, end as int),
    {
        run_query(&self.class_query, st, start, end)
    }

    /// Relies on tree_sitter::QueryCursor::matches over the Rust method
    /// pattern: deterministic matches of the pattern in the region.
    #[verifier::external_body]
    pub(crate) fn method_matches(&self, st: &SourceTree, start: usize, end: usize) -> (r: Vec<
        RawMatch,
    >)
        requires
            st.lang() == LangChoice::RUST,
        ensures
            r@ == rust_method_matches(st.src(), start as int, end as int),
    {
        run_query(&self.method_query, st, start, end)
    }

    /// Relies on tree_sitter::QueryCursor::matches over the Rust parameter
    /// pattern: deterministic matches of the pattern in the region.
    #[verifier::external_body]
    pub(crate) fn param_matches(&self, st: &SourceTree, start: usize, end: usize) -> (r: Vec<
        RawMatch,
    >)
        requires
            st.lang() == LangChoice::RUST,
        ensures
            r@ == rust_param_matches(st.src(), start as int, end as int),
    {
        run_query(&self.method_args_query, st, start, end)
    }

    /// Relies on tree_sitter::QueryCursor::matches over the Rust field
    /// pattern: deterministic matches of the pattern in the region.
    #[verifier::external_body]
    pub(crate) fn field_matches(&self, st: &SourceTree, start: usize, end: usize) -> (r: Vec<
        RawMatch,
    >)
        requires
            st.lang() == LangChoice::RUST,
        ensures
            r@ == rust_field_matches(st.src(), start as int, end as int),
    {
        run_query(&self.class_fields_query, st, start, end)
    }
}

/// The C++ extraction engine: the parser and the compiled patterns of the
/// C++ query table, built once per extractor instance.
pub struct CppEngine {
    parser: tree_sitter::Parser,
    class_query: tree_sitter::Query,
    method_query: tree_sitter::Query,
    method_args_query: tree_sitter::Query,
    class_fields_query: tree_sitter::Query,
    class_associations_query: tree_sitter::Query,
    class_extends_query: tree_sitter::Query,
}

impl CppEngine {
    /// Relies on tree_sitter_cpp::language and tree_sitter::Query::new: a
    /// parser for the C++ grammar and the compiled patterns of the C++ query
    /// table.  The `requires` admits only the fixed patterns of that table,
    /// which the grammar accepts, so construction succeeds; the match
    /// functions below are named for exactly this table.
    #[verifier::external_body]
    pub(crate) fn new(cq: &str, mq: &str, aq: &str, fq: &str, sq: &str, eq: &str) -> (r: Result<
        CppEngine,
        ExtractError,
    >)
        requires
            cq@ == crate::cpp_parser::CLASS_QUERY@,
            mq@ == crate::cpp_parser::METHOD_QUERY@,
            aq@ == crate::cpp_parser::METHOD_ARGS_QUERY@,
            fq@ == crate::cpp_parser::CLASS_FIELDS_QUERY@,
            sq@ == crate::cpp_parser::CLASS_ASSOCIATIONS_QUERY@,
            eq@ == crate::cpp_parser::CLASS_EXTENDS_QUERY@,
        ensures
            r is Ok,
    {
        let language = tree_sitter_cpp::language();
        Ok(
            CppEngine {
                parser: make_parser(language)?,
                class_query: compile_query(language, cq)?,
                method_query: compile_query(language, mq)?,
                method_args_query: compile_query(language, aq)?,
                class_fields_query: compile_query(language, fq)?,
                class_associations_query: compile_query(language, sq)?,
                class_extends_query: compile_query(language, eq)?,
            },
        )
    }

    /// Relies on tree_sitter::Parser::parse with the C++ grammar: builds the
    /// syntax tree of `buffer`.  The parse always returns a tree, for the
    /// reasons given on the Rust engine's `parse_tree`.
    #[verifier::external_body]
    pub(crate) fn parse_tree(&mut self, buffer: &Vec<u8>) -> (r: Result<SourceTree, ExtractError>)
        ensures
            r is Ok,
            r->Ok_0.lang() == LangChoice::CPP && r->Ok_0.src() == buffer@,
    {
        match self.parser.parse(buffer, None) {
            Some(tree) => Ok(SourceTree { lang: LangChoice::CPP, src: buffer.clone(), tree }),
            None => Err(ExtractError::ParseFailed),
        }
    }

    /// Relies on tree_sitter::QueryCursor::matches over the C++ class
    /// pattern: deterministic matches of the pattern in the region.
    #[verifier::external_body]
    pub(crate) fn class_matches(&self, st: &SourceTree, start: usize, end: usize) -> (r: Vec<
        RawMatch,
    >)
        requires
            st.lang() == LangChoice::CPP,
        ensures
            r@ == cpp_class_matches(st.src(), start as int, end as int),
    {
        run_query(&self.class_query, st, start, end)
    }

    /// Relies on tree_sitter::QueryCursor::matches over the C++ method
    /// pattern: deterministic matches of the pattern in the region.
    #[verifier::external_body]
    pub(crate) fn method_matches(&self, st: &SourceTree, start: usize, end: usize) -> (r: Vec<
        RawMatch,
    >)
        requires
            st.lang() == LangChoice::CPP,
        ensures
            r@ == cpp_method_matches(st.src(), start as int, end as int),
    {
        run_query(&self.method_query, st, start, end)
    }

    /// Relies on tree_sitter::QueryCursor::matches over the C++ parameter
    /// pattern: deterministic matches of the pattern in the region.
    #[verifier::external_body]
    pub(crate) fn param_matches(&self, st: &SourceTree, start: usize, end: usize) -> (r: Vec<
        RawMatch,
    >)
        requires
            st.lang() == LangChoice::CPP,
        ensures
            r@ == cpp_param_matches(st.src(), start as int, end as int),
    {
        run_query(&self.method_args_query, st, start, end)
    }

    /// Relies on tree_sitter::QueryCursor::matches over the C++ field
    /// pattern: deterministic matches of the pattern in the region.
    #[verifier::external_body]
    pub(crate) fn field_matches(&self, st: &SourceTree, start: usize, end: usize) -> (r: Vec<
        RawMatch,
    >)
        requires
            st.lang() == LangChoice::CPP,
        ensures
            r@ == cpp_field_matches(st.src(), start as int, end as int),
    {
        run_query(&self.class_fields_query, st, start, end)
    }

    /// Relies on tree_sitter::QueryCursor::matches over the C++ association
    /// pattern: deterministic matches of the pattern in the region.
    #[verifier::external_body]
    pub(crate) fn assoc_matches(&self, st: &SourceTree, start: usize, end: usize) -> (r: Vec<
        RawMatch,
    >)
        requires
            st.lang() == LangChoice::CPP,
        ensures
            r@ == cpp_assoc_matches(st.src(), start as int, end as int),
    {
        run_query(&self.class_associations_query, st, start, end)
    }

    /// Relies on tree_sitter::QueryCursor::matches over the C++ base-class
    /// pattern: deterministic matches of the pattern in the region.
    #[verifier::external_body]
    pub(crate) fn extends_matches(&self, st: &SourceTree, start: usize, end: usize) -> (r: Vec<
        RawMatch,
    >)
        requires
            st.lang() == LangChoice::CPP,
        ensures
            r@ == cpp_extends_matches(st.src(), start as int, end as int),
    {
        run_query(&self.class_extends_query, st, start, end)
    }
}

} // verus!
