//! Source text in, source text out: parse with full_moon, rewrite the root
//! block, print again.
use crate::strip::{clean_block, strip_block};
use full_moon::ast::{Ast, Block};
use full_moon::Error;
use vstd::prelude::*;

verus! {

#[verifier::external_type_specification]
#[verifier::external_body]
pub struct ExAst(Ast);

#[verifier::external_type_specification]
#[verifier::external_body]
pub struct ExError(Error);

/// Why a program could not be rewritten.
pub enum StripError {
    /// The text is not a valid program; full_moon's error says where and why.
    Parse(Error),
}

/// What full_moon's parser makes of a text.
pub uninterp spec fn parsed(code: Seq<char>) -> Result<Ast, Error>;

/// The root block of a syntax tree.
pub uninterp spec fn ast_nodes(a: Ast) -> Block;

/// A syntax tree with its root block replaced.
pub uninterp spec fn ast_with_nodes(a: Ast, b: Block) -> Ast;

/// The text that full_moon's printer makes of a syntax tree.
pub uninterp spec fn printed(a: Ast) -> Seq<char>;

/// Relies on `full_moon::parse`: the tree or the error, from the text alone.
#[verifier::external_body]
fn parse(code: &str) -> (r: Result<Ast, Error>)
    ensures
        r == parsed(code@),
{
    full_moon::parse(code)
}

/// Relies on `Ast::nodes`.
#[verifier::external_body]
fn nodes(a: &Ast) -> (r: Block)
    ensures
        r == ast_nodes(*a),
{
    a.nodes().clone()
}

/// Relies on `Ast::with_nodes`.
#[verifier::external_body]
fn with_nodes(a: Ast, b: Block) -> (r: Ast)
    ensures
        r == ast_with_nodes(a, b),
{
    a.with_nodes(b)
}

/// Relies on `full_moon::print`: the text, from the tree alone.
#[verifier::external_body]
fn print(a: &Ast) -> (r: String)
    ensures
        r@ == printed(*a),
{
    full_moon::print(a)
}

/// The text of a syntax tree whose root block has been rewritten.
pub open spec fn stripped_text(a: Ast) -> Seq<char> {
    printed(ast_with_nodes(a, strip_block(ast_nodes(a))))
}

/// Rewrites a program's text: parses it, removes type syntax from the root
/// block and the blocks under it, and prints it again. Fails exactly when the
/// text does not parse, with the parser's error.
pub fn strip_source(code: &str) -> (r: Result<String, StripError>)
    ensures
        r is Ok <==> parsed(code@) is Ok,
        r is Ok ==> r->Ok_0@ == stripped_text(parsed(code@)->Ok_0),
        r is Err ==> r == Err::<String, StripError>(StripError::Parse(parsed(code@)->Err_0)),
{
    match parse(code) {
        Ok(ast) => {
            let root = clean_block(nodes(&ast));
            let ast = with_nodes(ast, root);
            Ok(print(&ast))
        },
        Err(e) => Err(StripError::Parse(e)),
    }
}

} // verus!
