//! The `main` attribute: which implementation it may be attached to, and the
//! `main` function that it generates.
//!
//! Token streams are held as their source text, which is empty where the stream
//! is. Source text is read by `syn`, which lexes and prints it with the compiler
//! inside a procedural macro and with a lexer of its own elsewhere. So nothing is
//! said here of which texts are accepted or how tokens are spaced: what is said
//! holds of whatever was read.

use vstd::prelude::*;

use quote::ToTokens;

use crate::error::joined;
use crate::text::{begins_with, ends_with, lemma_ends_of_a_sum, text_equal};

verus! {

/// A segment of a path.
#[derive(Debug, PartialEq, Eq)]
pub struct PathSegment {
    pub name: String,
    /// The segment's generic arguments as source text, empty where it has none.
    pub arguments: String,
}

/// A path.
#[derive(Debug, PartialEq, Eq)]
pub struct PathParts {
    /// Whether the path begins with a double colon.
    pub leading_colon: bool,
    pub segments: Vec<PathSegment>,
}

/// A string literal.
#[derive(Debug, PartialEq, Eq)]
pub struct StringLiteral {
    /// The string.
    pub value: String,
    /// What is attached to the literal behind its closing quote.
    pub suffix: String,
}

/// An attribute argument of the form `path = value`. Such a path has no generic
/// arguments.
#[derive(Debug, PartialEq, Eq)]
pub struct NameValue {
    /// Whether the path begins with a double colon.
    pub leading_colon: bool,
    /// The names of the path's segments.
    pub segments: Vec<String>,
    /// The value, where it is a string literal.
    pub literal: Option<StringLiteral>,
}

/// An implementation block, as far as the attribute looks at it.
#[derive(Debug, PartialEq, Eq)]
pub struct ImplBlock {
    /// The names of the segments of the trait's path, where a trait is
    /// implemented.
    pub trait_path: Option<Vec<String>>,
    /// How many generic parameters the block has.
    pub generic_params: usize,
    /// The implementing type, as source text.
    pub self_ty: String,
}

/// Texts as sequences.
pub open spec fn texts(names: Seq<String>) -> Seq<Seq<char>> {
    names.map_values(|name: String| name@)
}

/// `syn::parse_str` for `syn::MetaNameValue`: the source text read as
/// `path = value`, or `None` where it is not of that form. Which texts are is
/// left open.
#[verifier::external_body]
fn parse_name_value(source: &str) -> (parsed: Option<NameValue>)
{
    let nv = syn::parse_str::<syn::MetaNameValue>(source).ok()?;
    let literal = match &nv.value {
        syn::Expr::Lit(syn::ExprLit { lit: syn::Lit::Str(s), .. }) => Some(
            StringLiteral { value: s.value(), suffix: s.suffix().to_string() },
        ),
        _ => None,
    };
    Some(
        NameValue {
            leading_colon: nv.path.leading_colon.is_some(),
            segments: nv.path.segments.iter().map(|segment| segment.ident.to_string()).collect(),
            literal,
        },
    )
}

/// `syn::LitStr::parse` for `syn::Path`, on a literal without a suffix: its
/// content read as a path, or `None` where it is none. Which contents are is left
/// open.
#[verifier::external_body]
fn parse_path(content: &str) -> (path: Option<PathParts>)
{
    let literal = syn::LitStr::new(content, proc_macro2::Span::call_site());
    let path = literal.parse::<syn::Path>().ok()?;
    let segments = path.segments.iter().map(
        |segment|
            PathSegment {
                name: segment.ident.to_string(),
                arguments: segment.arguments.to_token_stream().to_string(),
            },
    ).collect();
    Some(PathParts { leading_colon: path.leading_colon.is_some(), segments })
}

/// `syn::parse_str` for `syn::ItemImpl`: the source text read as an
/// implementation block, or `None` where it is none. Which texts are, and how the
/// type is spaced, is left open.
#[verifier::external_body]
fn parse_impl_block(source: &str) -> (parsed: Option<ImplBlock>)
{
    let item = syn::parse_str::<syn::ItemImpl>(source).ok()?;
    let trait_path = item.trait_.as_ref().map(
        |(path, _)| path.segments.iter().map(|segment| segment.ident.to_string()).collect(),
    );
    Some(
        ImplBlock {
            trait_path,
            generic_params: item.generics.params.len(),
            self_ty: item.self_ty.to_token_stream().to_string(),
        },
    )
}

/// Whether `parsed` is what `syn` can make of this text as `path = value`.
pub closed spec fn reads_as_name_value(source: Seq<char>, parsed: Option<NameValue>) -> bool {
    exists|text: &str| text@ == source && #[trigger] call_ensures(parse_name_value, (text,), parsed)
}

/// Whether `path` is what `syn` can make of this content of a string literal as a
/// path.
pub closed spec fn reads_as_path(content: Seq<char>, path: Option<PathParts>) -> bool {
    exists|text: &str| text@ == content && #[trigger] call_ensures(parse_path, (text,), path)
}

/// Whether `parsed` is what `syn` can make of this text as an implementation
/// block.
pub closed spec fn reads_as_impl_block(source: Seq<char>, parsed: Option<ImplBlock>) -> bool {
    exists|text: &str| text@ == source && #[trigger] call_ensures(parse_impl_block, (text,), parsed)
}

/// Why the attribute is refused.
#[derive(Clone, Copy, Debug, PartialEq, Eq, Structural)]
pub enum AttributeError {
    /// The arguments are not of the form `path = value`.
    NotNameValue,
    /// The argument's name is not `crate`.
    WrongName,
    /// The argument's value is not a string literal.
    NotAString,
    /// The string is not a path.
    NotAPath,
    /// The item is not an implementation block.
    NotAnImpl,
    /// The trait's path does not end in `Daemonizable`, or there is no trait.
    WrongTrait,
    /// The implementation has generic parameters.
    Generic,
}

impl AttributeError {
    /// What `message` returns.
    pub open spec fn text(&self) -> Seq<char> {
        match self {
            AttributeError::NotNameValue | AttributeError::WrongName
            | AttributeError::NotAString =>
                "#[daemonizable::main] supports only the `crate = \"...\"` argument, e.g. #[dz::main(crate = \"dz\")] for a dependency renamed to `dz`"@,
            AttributeError::NotAPath =>
                "crate = \"...\" must contain a path to the daemonizable crate, e.g. crate = \"dz\" or crate = \"my_facade::daemonizable\""@,
            AttributeError::NotAnImpl =>
                "#[daemonizable::main] must be attached to an `impl Daemonizable for YourApp` block"@,
            AttributeError::WrongTrait =>
                "#[daemonizable::main] must be attached to an `impl Daemonizable for YourApp` block (the trait path must end in `Daemonizable`)"@,
            AttributeError::Generic =>
                "#[daemonizable::main] does not support generic impls: `daemonizable::run` needs one concrete application type to dispatch on"@,
        }
    }

    /// The error as a sentence.
    pub fn message(&self) -> (text: String)
        ensures
            text@ == self.text(),
    {
        match self {
            AttributeError::NotNameValue | AttributeError::WrongName
            | AttributeError::NotAString =>
                "#[daemonizable::main] supports only the `crate = \"...\"` argument, e.g. #[dz::main(crate = \"dz\")] for a dependency renamed to `dz`".to_string(),
            AttributeError::NotAPath =>
                "crate = \"...\" must contain a path to the daemonizable crate, e.g. crate = \"dz\" or crate = \"my_facade::daemonizable\"".to_string(),
            AttributeError::NotAnImpl =>
                "#[daemonizable::main] must be attached to an `impl Daemonizable for YourApp` block".to_string(),
            AttributeError::WrongTrait =>
                "#[daemonizable::main] must be attached to an `impl Daemonizable for YourApp` block (the trait path must end in `Daemonizable`)".to_string(),
            AttributeError::Generic =>
                "#[daemonizable::main] does not support generic impls: `daemonizable::run` needs one concrete application type to dispatch on".to_string(),
        }
    }
}

/// Text, or the error in its place, as a sequence.
pub open spec fn text_view(result: Result<String, AttributeError>) -> Result<
    Seq<char>,
    AttributeError,
> {
    match result {
        Ok(text) => Ok(text@),
        Err(err) => Err(err),
    }
}

/// The content of the literal that names the crate, given the arguments as they
/// were read: the argument has to be named `crate`, and its value a string. A
/// literal with a suffix is no path, whatever it holds.
pub open spec fn crate_literal(parsed: Option<NameValue>) -> Result<Seq<char>, AttributeError> {
    match parsed {
        None => Err(AttributeError::NotNameValue),
        Some(nv) => if nv.leading_colon || texts(nv.segments@) != seq!["crate"@] {
            Err(AttributeError::WrongName)
        } else {
            match nv.literal {
                None => Err(AttributeError::NotAString),
                Some(literal) => if literal.suffix@.len() > 0 {
                    Err(AttributeError::NotAPath)
                } else {
                    Ok(literal.value@)
                },
            }
        },
    }
}

/// A segment as source text.
pub open spec fn segment_text(segment: PathSegment) -> Seq<char> {
    if segment.arguments@.len() == 0 {
        segment.name@
    } else {
        segment.name@ + " "@ + segment.arguments@
    }
}

/// Segments as source text, with double colons between them.
pub open spec fn segments_text(segments: Seq<PathSegment>) -> Seq<char>
    decreases segments.len(),
{
    if segments.len() == 0 {
        Seq::empty()
    } else if segments.len() == 1 {
        segment_text(segments[0])
    } else {
        segments_text(segments.drop_last()) + " :: "@ + segment_text(segments.last())
    }
}

/// A path as source text.
pub open spec fn path_text(path: PathParts) -> Seq<char> {
    if path.leading_colon {
        ":: "@ + segments_text(path.segments@)
    } else {
        segments_text(path.segments@)
    }
}

/// The path that names the crate, given the literal's content as it was read.
pub open spec fn crate_path_of(path: Option<PathParts>) -> Result<Seq<char>, AttributeError> {
    match path {
        Some(path) => Ok(path_text(path)),
        None => Err(AttributeError::NotAPath),
    }
}

/// Whether `path` names the crate for arguments that were read as `parsed`.
pub open spec fn names_crate(
    parsed: Option<NameValue>,
    path: Result<Seq<char>, AttributeError>,
) -> bool {
    match crate_literal(parsed) {
        Err(err) => path == Err::<Seq<char>, AttributeError>(err),
        Ok(content) => exists|parts: Option<PathParts>| #[trigger]
            reads_as_path(content, parts) && path == crate_path_of(parts),
    }
}

/// Whether `path` names the crate for the arguments `attr`: without arguments it
/// is the absolute default, else the path in `crate = "..."`.
pub open spec fn is_crate_path(attr: Seq<char>, path: Result<Seq<char>, AttributeError>) -> bool {
    if attr.len() == 0 {
        path == Ok::<Seq<char>, AttributeError>(":: daemonizable"@)
    } else {
        exists|parsed: Option<NameValue>| #[trigger]
            reads_as_name_value(attr, parsed) && names_crate(parsed, path)
    }
}

/// The content of the literal that names the crate.
pub fn crate_name_literal(parsed: Option<NameValue>) -> (content: Result<String, AttributeError>)
    ensures
        text_view(content) == crate_literal(parsed),
{
    match parsed {
        None => Err(AttributeError::NotNameValue),
        Some(nv) => {
            proof {
                if texts(nv.segments@) == seq!["crate"@] {
                    assert(texts(nv.segments@).len() == 1);
                    assert(texts(nv.segments@)[0] == "crate"@);
                }
            }
            if nv.leading_colon || nv.segments.len() != 1 {
                return Err(AttributeError::WrongName);
            }
            if !text_equal(nv.segments[0].as_str(), "crate") {
                return Err(AttributeError::WrongName);
            }
            assert(texts(nv.segments@) =~= seq!["crate"@]);
            match nv.literal {
                None => Err(AttributeError::NotAString),
                Some(literal) => if literal.suffix.as_str().is_empty() {
                    Ok(literal.value)
                } else {
                    Err(AttributeError::NotAPath)
                },
            }
        },
    }
}

/// A path as source text.
fn shown_path(path: &PathParts) -> (text: String)
    ensures
        text@ == path_text(*path),
{
    let mut text = String::new();
    if path.leading_colon {
        text.append(":: ");
    }
    let ghost head = text@;
    let mut i: usize = 0;
    while i < path.segments.len()
        invariant
            i <= path.segments@.len(),
            text@ == head + segments_text(path.segments@.take(i as int)),
        decreases path.segments.len() - i,
    {
        let ghost before = text@;
        let ghost taken = path.segments@.take(i + 1);
        proof {
            assert(taken.drop_last() =~= path.segments@.take(i as int));
            assert(taken.last() == path.segments@[i as int]);
        }
        if i > 0 {
            text.append(" :: ");
        }
        let segment = &path.segments[i];
        text.append(segment.name.as_str());
        if !segment.arguments.as_str().is_empty() {
            text.append(" ");
            text.append(segment.arguments.as_str());
        }
        assert(text@ =~= head + segments_text(taken));
        i += 1;
    }
    assert(path.segments@.take(path.segments@.len() as int) =~= path.segments@);
    assert(text@ =~= path_text(*path));
    text
}

/// The path that names the crate: the string has to hold one.
pub fn crate_name_path(path: Option<PathParts>) -> (result: Result<String, AttributeError>)
    ensures
        text_view(result) == crate_path_of(path),
{
    match path {
        Some(path) => Ok(shown_path(&path)),
        None => Err(AttributeError::NotAPath),
    }
}

/// Read the attribute's arguments: nothing, or `crate = "some::path"` for a
/// dependency under another name.
pub fn parse_crate_path(attr: &str) -> (path: Result<String, AttributeError>)
    ensures
        is_crate_path(attr@, text_view(path)),
{
    if attr.is_empty() {
        return Ok(":: daemonizable".to_string());
    }
    let parsed = parse_name_value(attr);
    let ghost read = parsed;
    assert(reads_as_name_value(attr@, read));
    let path = match crate_name_literal(parsed) {
        Ok(content) => {
            let parts = parse_path(content.as_str());
            let ghost read_parts = parts;
            assert(reads_as_path(content@, read_parts));
            assert(reads_as_path(crate_literal(read)->Ok_0, read_parts));
            crate_name_path(parts)
        },
        Err(err) => Err(err),
    };
    assert(names_crate(read, text_view(path)));
    path
}

/// The generated `main`, as source text.
pub open spec fn main_text(crate_path: Seq<char>, self_ty: Seq<char>) -> Seq<char> {
    "fn main () -> :: std :: process :: ExitCode { "@ + crate_path + " :: run :: < "@ + self_ty
        + " > () }"@
}

/// Whether the block implements a trait whose path ends in `Daemonizable`.
pub open spec fn is_daemonizable(block: ImplBlock) -> bool {
    block.trait_path matches Some(path) && path@.len() > 0 && path@.last()@ == "Daemonizable"@
}

/// The `main` for an item as it was read, which calls `run` in the crate at
/// `crate_path`.
pub open spec fn main_of(crate_path: Seq<char>, block: Option<ImplBlock>) -> Result<
    Seq<char>,
    AttributeError,
> {
    match block {
        None => Err(AttributeError::NotAnImpl),
        Some(block) => if !is_daemonizable(block) {
            Err(AttributeError::WrongTrait)
        } else if block.generic_params > 0 {
            Err(AttributeError::Generic)
        } else {
            Ok(main_text(crate_path, block.self_ty@))
        },
    }
}

/// Generate `main` for an item as it was read.
pub fn generate_main(crate_path: &str, block: Option<ImplBlock>) -> (generated: Result<
    String,
    AttributeError,
>)
    ensures
        text_view(generated) == main_of(crate_path@, block),
{
    let block = match block {
        Some(block) => block,
        None => {
            return Err(AttributeError::NotAnImpl);
        },
    };
    let is_daemonizable_impl = match &block.trait_path {
        Some(path) => path.len() > 0 && text_equal(path[path.len() - 1].as_str(), "Daemonizable"),
        None => false,
    };
    if !is_daemonizable_impl {
        return Err(AttributeError::WrongTrait);
    }
    if block.generic_params > 0 {
        return Err(AttributeError::Generic);
    }
    let mut text = joined("fn main () -> :: std :: process :: ExitCode { ", crate_path);
    text.append(" :: run :: < ");
    text.append(block.self_ty.as_str());
    text.append(" > () }");
    Ok(text)
}

/// What the attribute expands to: the item, and behind it the generated `main`.
#[derive(Debug, PartialEq, Eq)]
pub struct Expansion {
    /// The item as it was.
    pub item: String,
    /// The generated `main`, as source text.
    pub main: String,
}

/// Whether `generated` is the `main` for the arguments and the item, or why there
/// is none. The arguments are checked before the item is.
pub open spec fn is_generated(
    attr: Seq<char>,
    item: Seq<char>,
    generated: Result<Seq<char>, AttributeError>,
) -> bool {
    exists|path: Result<Seq<char>, AttributeError>| #[trigger]
        is_crate_path(attr, path) && match path {
            Err(err) => generated == Err::<Seq<char>, AttributeError>(err),
            Ok(path) => exists|block: Option<ImplBlock>| #[trigger]
                reads_as_impl_block(item, block) && generated == main_of(path, block),
        }
}

/// Expand the attribute: the item is kept unchanged, and has to be a concrete
/// implementation of a trait named `Daemonizable`.
pub fn expand(attr: &str, item: &str) -> (expansion: Result<Expansion, AttributeError>)
    ensures
        expansion matches Ok(e) ==> e.item@ == item@ && is_generated(attr@, item@, Ok(e.main@)),
        expansion matches Err(err) ==> is_generated(attr@, item@, Err(err)),
{
    let path = parse_crate_path(attr);
    let ghost read_path = text_view(path);
    assert(is_crate_path(attr@, read_path));
    match path {
        Ok(path) => {
            let block = parse_impl_block(item);
            let ghost read_block = block;
            assert(reads_as_impl_block(item@, read_block));
            match generate_main(path.as_str(), block) {
                Ok(main) => Ok(Expansion { item: item.to_string(), main }),
                Err(err) => Err(err),
            }
        },
        Err(err) => Err(err),
    }
}

/// A `main` is generated for exactly those items that are implementations of a
/// trait whose path ends in `Daemonizable` and that have no generic parameters;
/// it calls `run` in the given crate for the implementing type. Every other item
/// is refused, an item that is no implementation before one of another trait, and
/// that before a generic one.
pub proof fn law_main_is_generated_for_concrete_implementations(
    crate_path: &str,
    block: Option<ImplBlock>,
    generated: Result<String, AttributeError>,
)
    requires
        call_ensures(generate_main, (crate_path, block), generated),
    ensures
        block is None ==> generated == Err::<String, AttributeError>(AttributeError::NotAnImpl),
        block matches Some(b) ==> !(b.trait_path matches Some(path) && path@.len() > 0
            && path@.last()@ == "Daemonizable"@) ==> generated == Err::<String, AttributeError>(
            AttributeError::WrongTrait,
        ),
        block matches Some(b) ==> (b.trait_path matches Some(path) && path@.len() > 0
            && path@.last()@ == "Daemonizable"@) && b.generic_params > 0 ==> generated == Err::<
            String,
            AttributeError,
        >(AttributeError::Generic),
        block matches Some(b) ==> (b.trait_path matches Some(path) && path@.len() > 0
            && path@.last()@ == "Daemonizable"@) && b.generic_params == 0 ==> (generated matches Ok(
            text,
        ) && begins_with(
            text@,
            "fn main () -> :: std :: process :: ExitCode { "@ + crate_path@ + " :: run :: < "@,
        ) && ends_with(text@, " :: run :: < "@ + (b.self_ty@ + " > () }"@))),
{
    if let Some(b) = block {
        let head = "fn main () -> :: std :: process :: ExitCode { "@ + crate_path@;
        let tail = b.self_ty@ + " > () }"@;
        let text = main_text(crate_path@, b.self_ty@);
        assert(text =~= (head + " :: run :: < "@) + tail);
        assert(text =~= head + (" :: run :: < "@ + tail));
        lemma_ends_of_a_sum(head + " :: run :: < "@, tail);
        lemma_ends_of_a_sum(head, " :: run :: < "@ + tail);
    }
}

/// The path of the trait counts by its last name alone: what comes before it, and
/// everything else in the item but the number of generic parameters and the type,
/// makes no difference.
pub proof fn law_trait_counts_by_its_last_name(
    crate_path: &str,
    a: ImplBlock,
    b: ImplBlock,
    from_a: Result<String, AttributeError>,
    from_b: Result<String, AttributeError>,
)
    requires
        a.trait_path matches Some(p) && p@.len() > 0,
        b.trait_path matches Some(p) && p@.len() > 0,
        a.trait_path->Some_0@.last()@ == b.trait_path->Some_0@.last()@,
        a.generic_params == b.generic_params,
        a.self_ty@ == b.self_ty@,
        call_ensures(generate_main, (crate_path, Some(a)), from_a),
        call_ensures(generate_main, (crate_path, Some(b)), from_b),
    ensures
        text_view(from_a) == text_view(from_b),
{
}

/// The crate is named by exactly one argument of the form `crate = "..."`: the
/// path is the single word, and the value a plain string. Its content is taken as
/// it is.
pub proof fn law_crate_is_named_by_one_argument(
    parsed: Option<NameValue>,
    content: Result<String, AttributeError>,
)
    requires
        call_ensures(crate_name_literal, (parsed,), content),
    ensures
        content is Ok <==> (parsed matches Some(nv) && !nv.leading_colon && nv.segments@.len() == 1
            && nv.segments@[0]@ == "crate"@ && nv.literal is Some
            && nv.literal->Some_0.suffix@.len() == 0),
        content matches Ok(text) ==> text@ == parsed->Some_0.literal->Some_0.value@,
        parsed is None <==> content == Err::<String, AttributeError>(AttributeError::NotNameValue),
        parsed matches Some(nv) ==> (nv.leading_colon || nv.segments@.len() != 1
            || nv.segments@[0]@ != "crate"@ <==> content == Err::<String, AttributeError>(
            AttributeError::WrongName,
        )),
        parsed matches Some(nv) ==> !nv.leading_colon && nv.segments@.len() == 1
            && nv.segments@[0]@ == "crate"@ ==> (nv.literal is None <==> content == Err::<
            String,
            AttributeError,
        >(AttributeError::NotAString)),
{
    if let Some(nv) = parsed {
        if texts(nv.segments@) == seq!["crate"@] {
            assert(texts(nv.segments@).len() == 1);
            assert(texts(nv.segments@)[0] == "crate"@);
        }
        if nv.segments@.len() == 1 && nv.segments@[0]@ == "crate"@ {
            assert(texts(nv.segments@) =~= seq!["crate"@]);
        }
    }
}

proof fn lemma_segments_text(a: Seq<PathSegment>, b: Seq<PathSegment>)
    requires
        a.len() > 0,
        b.len() > 0,
    ensures
        segments_text(a + b) == segments_text(a) + " :: "@ + segments_text(b),
    decreases b.len(),
{
    let whole = a + b;
    assert(whole.drop_last() =~= a + b.drop_last());
    assert(whole.last() == b.last());
    if b.len() == 1 {
        assert(a + b.drop_last() =~= a);
    } else {
        lemma_segments_text(a, b.drop_last());
        assert(segments_text(whole) =~= segments_text(a) + " :: "@ + segments_text(b));
    }
}

/// A path is shown as it was read: its segments in their order, with double
/// colons between them and in front of them where it had some, and each with its
/// arguments. A path of one name is that name.
pub proof fn law_path_is_shown_as_it_was_read(
    path: PathParts,
    shown: Result<String, AttributeError>,
    none: Result<String, AttributeError>,
    a: Seq<PathSegment>,
    b: Seq<PathSegment>,
)
    requires
        call_ensures(crate_name_path, (Some(path),), shown),
        call_ensures(crate_name_path, (None::<PathParts>,), none),
    ensures
        none == Err::<String, AttributeError>(AttributeError::NotAPath),
        shown is Ok,
        path.segments@.len() == 1 && path.segments@[0].arguments@.len() == 0 && !path.leading_colon
            ==> shown->Ok_0@ == path.segments@[0].name@,
        path.segments@.len() == 1 && path.segments@[0].arguments@.len() > 0 && !path.leading_colon
            ==> shown->Ok_0@ == path.segments@[0].name@ + " "@ + path.segments@[0].arguments@,
        path.segments@ == a + b && a.len() > 0 && b.len() > 0 && !path.leading_colon ==> begins_with(
            shown->Ok_0@,
            segments_text(a) + " :: "@,
        ) && ends_with(shown->Ok_0@, " :: "@ + segments_text(b)),
        path.leading_colon ==> begins_with(shown->Ok_0@, ":: "@) && ends_with(
            shown->Ok_0@,
            segments_text(path.segments@),
        ),
{
    lemma_ends_of_a_sum(":: "@, segments_text(path.segments@));
    if path.segments@ == a + b && a.len() > 0 && b.len() > 0 {
        lemma_segments_text(a, b);
        let text = segments_text(path.segments@);
        assert(text =~= (segments_text(a) + " :: "@) + segments_text(b));
        assert(text =~= segments_text(a) + (" :: "@ + segments_text(b)));
        lemma_ends_of_a_sum(segments_text(a) + " :: "@, segments_text(b));
        lemma_ends_of_a_sum(segments_text(a), " :: "@ + segments_text(b));
    }
}

/// Without arguments the attribute names the crate by its absolute path; and an
/// expansion keeps the item as it was.
pub proof fn law_item_is_kept_and_the_default_is_absolute(
    attr: &str,
    item: &str,
    path: Result<String, AttributeError>,
    expansion: Result<Expansion, AttributeError>,
)
    requires
        attr@.len() == 0,
        call_ensures(parse_crate_path, (attr,), path),
        call_ensures(expand, (attr, item), expansion),
    ensures
        path matches Ok(text) && text@ == ":: daemonizable"@,
        expansion matches Ok(e) ==> e.item@ == item@ && begins_with(
            e.main@,
            "fn main () -> :: std :: process :: ExitCode { "@ + ":: daemonizable"@ + " :: run :: < "@,
        ) && ends_with(e.main@, " > () }"@),
        expansion matches Err(err) ==> err is NotAnImpl || err is WrongTrait || err is Generic,
{
    if let Ok(e) = expansion {
        let generated = Ok::<Seq<char>, AttributeError>(e.main@);
        assert(is_generated(attr@, item@, generated));
        let p = choose|p: Result<Seq<char>, AttributeError>| #[trigger]
            is_crate_path(attr@, p) && match p {
                Err(err) => generated == Err::<Seq<char>, AttributeError>(err),
                Ok(p) => exists|block: Option<ImplBlock>| #[trigger]
                    reads_as_impl_block(item@, block) && generated == main_of(p, block),
            };
        let block = choose|block: Option<ImplBlock>| #[trigger]
            reads_as_impl_block(item@, block) && generated == main_of(p->Ok_0, block);
        let self_ty = block->Some_0.self_ty@;
        let head = "fn main () -> :: std :: process :: ExitCode { "@ + ":: daemonizable"@
            + " :: run :: < "@;
        assert(e.main@ =~= head + (self_ty + " > () }"@));
        lemma_ends_of_a_sum(head, self_ty + " > () }"@);
        assert(e.main@ =~= (head + self_ty) + " > () }"@);
        lemma_ends_of_a_sum(head + self_ty, " > () }"@);
    }
}

/// An attribute with arguments is read as they are: they are read once, the
/// content that names the crate is read as a path, and that path is what is
/// shown; the first of these that is refused decides.
pub proof fn law_arguments_are_read_in_turn(attr: &str, path: Result<String, AttributeError>)
    requires
        attr@.len() > 0,
        call_ensures(parse_crate_path, (attr,), path),
    ensures
        exists|parsed: Option<NameValue>| #[trigger] reads_as_name_value(attr@, parsed) && match path {
            Ok(text) => exists|parts: Option<PathParts>| #[trigger]
                reads_as_path(parsed->Some_0.literal->Some_0.value@, parts) && parts is Some && parsed
                    is Some && !parsed->Some_0.leading_colon && parsed->Some_0.segments@.len() == 1
                    && parsed->Some_0.segments@[0]@ == "crate"@ && parsed->Some_0.literal is Some
                    && text@ == path_text(parts->Some_0),
            Err(AttributeError::NotNameValue) => parsed is None,
            Err(AttributeError::WrongName) => parsed is Some,
            Err(AttributeError::NotAString) => parsed matches Some(nv) && nv.literal is None,
            Err(AttributeError::NotAPath) => parsed matches Some(nv) && nv.literal is Some,
            Err(_) => false,
        },
{
    let view = text_view(path);
    let parsed = choose|parsed: Option<NameValue>| #[trigger]
        reads_as_name_value(attr@, parsed) && names_crate(parsed, view);
    assert(reads_as_name_value(attr@, parsed));
    if let Some(nv) = parsed {
        if texts(nv.segments@) == seq!["crate"@] {
            assert(texts(nv.segments@).len() == 1);
            assert(texts(nv.segments@)[0] == "crate"@);
        }
    }
    if let Ok(text) = path {
        let content = crate_literal(parsed)->Ok_0;
        let parts = choose|parts: Option<PathParts>| #[trigger]
            reads_as_path(content, parts) && view == crate_path_of(parts);
        assert(reads_as_path(parsed->Some_0.literal->Some_0.value@, parts));
    }
}

/// An expansion is made of the path that its arguments name and of what its item
/// is read as; arguments that are refused are so whatever the item is.
pub proof fn law_expansion_is_made_of_arguments_and_item(
    attr: &str,
    item: &str,
    expansion: Result<Expansion, AttributeError>,
)
    requires
        call_ensures(expand, (attr, item), expansion),
    ensures
        expansion matches Ok(e) ==> e.item@ == item@ && exists|path: Seq<char>, block: Option<ImplBlock>|
            #[trigger] is_crate_path(attr@, Ok(path)) && #[trigger] reads_as_impl_block(item@, block)
                && block is Some && e.main@ == main_text(path, block->Some_0.self_ty@)
                && block->Some_0.generic_params == 0,
        expansion matches Err(err) ==> (err is NotNameValue || err is WrongName || err is NotAString
            || err is NotAPath) ==> is_crate_path(attr@, Err(err)),
        expansion matches Err(err) ==> (err is NotAnImpl || err is WrongTrait || err is Generic)
            ==> exists|block: Option<ImplBlock>| #[trigger] reads_as_impl_block(item@, block) && (err
            is NotAnImpl <==> block is None) && (err is Generic ==> block->Some_0.generic_params > 0),
{
    let generated: Result<Seq<char>, AttributeError> = match expansion {
        Ok(e) => Ok(e.main@),
        Err(err) => Err(err),
    };
    assert(is_generated(attr@, item@, generated));
    let p = choose|p: Result<Seq<char>, AttributeError>| #[trigger]
        is_crate_path(attr@, p) && match p {
            Err(err) => generated == Err::<Seq<char>, AttributeError>(err),
            Ok(p) => exists|block: Option<ImplBlock>| #[trigger]
                reads_as_impl_block(item@, block) && generated == main_of(p, block),
        };
    if let Ok(path) = p {
        let block = choose|block: Option<ImplBlock>| #[trigger]
            reads_as_impl_block(item@, block) && generated == main_of(path, block);
        assert(is_crate_path(attr@, Ok(path)));
        assert(reads_as_impl_block(item@, block));
    } else {
        lemma_refused_arguments(attr@, p->Err_0);
    }
}

proof fn lemma_refused_arguments(attr: Seq<char>, err: AttributeError)
    requires
        is_crate_path(attr, Err(err)),
    ensures
        err is NotNameValue || err is WrongName || err is NotAString || err is NotAPath,
{
    let view = Err::<Seq<char>, AttributeError>(err);
    let parsed = choose|parsed: Option<NameValue>| #[trigger]
        reads_as_name_value(attr, parsed) && names_crate(parsed, view);
    if let Ok(content) = crate_literal(parsed) {
        let parts = choose|parts: Option<PathParts>| #[trigger]
            reads_as_path(content, parts) && view == crate_path_of(parts);
    }
}

/// Every use of the attribute is expanded, or refused.
pub proof fn law_every_use_is_expanded_or_refused(
    attr: &str,
    item: &str,
    parsed: Option<NameValue>,
    path: Option<PathParts>,
    block: Option<ImplBlock>,
)
    ensures
        call_requires(expand, (attr, item)),
        call_requires(parse_crate_path, (attr,)),
        call_requires(crate_name_literal, (parsed,)),
        call_requires(crate_name_path, (path,)),
        call_requires(generate_main, (attr, block)),
{
}

} // verus!
