//! The parts of full_moon's syntax tree that the rewrite reads and rebuilds.
//!
//! The tree's node types are opaque here. Each accessor or rebuilder that the
//! rewrite needs is a small trusted wrapper whose result has a name below.
use full_moon::ast::{
    Block, Do, ElseIf, FunctionBody, FunctionDeclaration, If, LocalAssignment, LocalFunction, Repeat,
    Stmt, While,
};
use full_moon::tokenizer::TokenReference;
use vstd::prelude::*;

verus! {

#[verifier::external_type_specification]
#[verifier::external_body]
pub struct ExBlock(Block);

#[verifier::external_type_specification]
#[verifier::external_body]
pub struct ExStmt(Stmt);

#[verifier::external_type_specification]
#[verifier::external_body]
pub struct ExTokenReference(TokenReference);

#[verifier::external_type_specification]
#[verifier::external_body]
pub struct ExLocalAssignment(LocalAssignment);

#[verifier::external_type_specification]
#[verifier::external_body]
pub struct ExFunctionDeclaration(FunctionDeclaration);

#[verifier::external_type_specification]
#[verifier::external_body]
pub struct ExLocalFunction(LocalFunction);

#[verifier::external_type_specification]
#[verifier::external_body]
pub struct ExFunctionBody(FunctionBody);

#[verifier::external_type_specification]
#[verifier::external_body]
pub struct ExDo(Do);

#[verifier::external_type_specification]
#[verifier::external_body]
pub struct ExIf(If);

#[verifier::external_type_specification]
#[verifier::external_body]
pub struct ExElseIf(ElseIf);

#[verifier::external_type_specification]
#[verifier::external_body]
pub struct ExWhile(While);

#[verifier::external_type_specification]
#[verifier::external_body]
pub struct ExRepeat(Repeat);

/// A statement paired with the semicolon that may follow it.
pub type Entry = (Stmt, Option<TokenReference>);

/// What the rewrite needs to know of a statement: its kind, and for the kinds
/// that it rebuilds, the node inside.
pub enum Node {
    /// A type declaration, exported or not, carried as it is.
    TypeDeclaration(Stmt),
    LocalAssignment(LocalAssignment),
    FunctionDeclaration(FunctionDeclaration),
    LocalFunction(LocalFunction),
    Do(Do),
    If(If),
    While(While),
    Repeat(Repeat),
    /// Any other statement, carried as it is.
    Other(Stmt),
}

// ---------------------------------------------------------------------------
// Names for what full_moon's functions return.

/// The statements of a block with their semicolons, in order.
pub uninterp spec fn entries_of(b: Block) -> Seq<Entry>;

/// A block with its statements replaced.
pub uninterp spec fn block_with_entries(b: Block, es: Seq<Entry>) -> Block;

/// The number of tokens that full_moon's `Node::tokens` yields for a block.
pub uninterp spec fn block_tokens(b: Block) -> nat;

/// The number of tokens that full_moon's `Node::tokens` yields for a statement.
pub uninterp spec fn stmt_tokens(s: Stmt) -> nat;

/// The number of tokens that full_moon's `Node::tokens` yields for a function body.
pub uninterp spec fn body_tokens(b: FunctionBody) -> nat;

/// The kind of a statement, and the node that it holds.
pub uninterp spec fn node_of(s: Stmt) -> Node;

/// The statement that holds a node.
pub uninterp spec fn stmt_of(n: Node) -> Stmt;

/// A local assignment with its type specifiers removed.
pub uninterp spec fn local_untyped(a: LocalAssignment) -> LocalAssignment;

/// Whether any variable of a local assignment has a type specifier.
pub uninterp spec fn local_typed(a: LocalAssignment) -> bool;

/// Whether any parameter of a function body has a type specifier.
pub uninterp spec fn params_typed(b: FunctionBody) -> bool;

/// Whether a function body declares a return type.
pub uninterp spec fn has_return_type(b: FunctionBody) -> bool;

/// The body of a function declaration.
pub uninterp spec fn fn_decl_body(f: FunctionDeclaration) -> FunctionBody;

/// A function declaration with its body replaced.
pub uninterp spec fn fn_decl_with_body(f: FunctionDeclaration, b: FunctionBody) -> FunctionDeclaration;

/// The body of a local function.
pub uninterp spec fn local_fn_body(f: LocalFunction) -> FunctionBody;

/// A local function with its body replaced.
pub uninterp spec fn local_fn_with_body(f: LocalFunction, b: FunctionBody) -> LocalFunction;

/// The block of a function body.
pub uninterp spec fn body_block(b: FunctionBody) -> Block;

/// A function body with its block replaced.
pub uninterp spec fn body_with_block(b: FunctionBody, blk: Block) -> FunctionBody;

/// A function body with its parameter type specifiers removed.
pub uninterp spec fn body_untyped_params(b: FunctionBody) -> FunctionBody;

/// A function body without a return type.
pub uninterp spec fn body_no_return_type(b: FunctionBody) -> FunctionBody;

/// The block of a `do` statement.
pub uninterp spec fn do_block(d: Do) -> Block;

/// A `do` statement with its block replaced.
pub uninterp spec fn do_with_block(d: Do, blk: Block) -> Do;

/// The block of the first branch of an `if` statement.
pub uninterp spec fn if_block(i: If) -> Block;

/// An `if` statement with the block of its first branch replaced.
pub uninterp spec fn if_with_block(i: If, blk: Block) -> If;

/// The `elseif` branches of an `if` statement, as `If::else_if` gives them.
pub uninterp spec fn if_else_ifs(i: If) -> Option<Vec<ElseIf>>;

/// The `else` block of an `if` statement, as `If::else_block` gives it.
pub uninterp spec fn if_else_block(i: If) -> Option<Block>;

/// The block of a `while` loop.
pub uninterp spec fn while_block(w: While) -> Block;

/// A `while` loop with its block replaced.
pub uninterp spec fn while_with_block(w: While, blk: Block) -> While;

/// The block of a `repeat` loop.
pub uninterp spec fn repeat_block(r: Repeat) -> Block;

/// A `repeat` loop with its block replaced.
pub uninterp spec fn repeat_with_block(r: Repeat, blk: Block) -> Repeat;

// ---------------------------------------------------------------------------
// Wrappers.

/// Relies on `Block::stmts_with_semicolon`: the statements in order; each one's
/// tokens are among the block's.
#[verifier::external_body]
pub(crate) fn entries(b: &Block) -> (r: Vec<Entry>)
    ensures
        r@ == entries_of(*b),
        forall|i: int| 0 <= i < r@.len() ==> stmt_tokens(#[trigger] r@[i].0) <= block_tokens(*b),
{
    b.stmts_with_semicolon().cloned().collect()
}

/// Relies on `Block::with_stmts`: replaces the statements, keeps the last one.
#[verifier::external_body]
pub(crate) fn with_entries(b: Block, es: Vec<Entry>) -> (r: Block)
    ensures
        r == block_with_entries(b, es@),
        entries_of(r) == es@,
        block_with_entries(r, es@) == r,
        forall|i: int| 0 <= i < es@.len() ==> stmt_tokens(#[trigger] es@[i].0) <= block_tokens(r),
{
    b.with_stmts(es)
}

/// Relies on the variants of `Stmt`: tells them apart and clones the node
/// inside; the node wrapped again is the statement.
#[verifier::external_body]
pub(crate) fn classify(s: &Stmt) -> (r: Node)
    ensures
        r == node_of(*s),
        stmt_of(r) == *s,
        r is Other ==> r->Other_0 == *s,
{
    match s {
        Stmt::TypeDeclaration(_) | Stmt::ExportedTypeDeclaration(_) => {
            Node::TypeDeclaration(s.clone())
        },
        Stmt::LocalAssignment(a) => Node::LocalAssignment(a.clone()),
        Stmt::FunctionDeclaration(f) => Node::FunctionDeclaration(f.clone()),
        Stmt::LocalFunction(f) => Node::LocalFunction(f.clone()),
        Stmt::Do(d) => Node::Do(d.clone()),
        Stmt::If(i) => Node::If(i.clone()),
        Stmt::While(w) => Node::While(w.clone()),
        Stmt::Repeat(r) => Node::Repeat(r.clone()),
        _ => Node::Other(s.clone()),
    }
}

/// Relies on the variants of `Stmt`: wraps a node into its statement, which
/// tells apart as that node again.
#[verifier::external_body]
pub(crate) fn into_stmt(n: Node) -> (r: Stmt)
    ensures
        r == stmt_of(n),
        !(n is TypeDeclaration) && !(n is Other) ==> node_of(r) == n,
{
    match n {
        Node::LocalAssignment(a) => Stmt::LocalAssignment(a),
        Node::FunctionDeclaration(f) => Stmt::FunctionDeclaration(f),
        Node::LocalFunction(f) => Stmt::LocalFunction(f),
        Node::Do(d) => Stmt::Do(d),
        Node::If(i) => Stmt::If(i),
        Node::While(w) => Stmt::While(w),
        Node::Repeat(r) => Stmt::Repeat(r),
        Node::TypeDeclaration(s) | Node::Other(s) => s,
    }
}

/// Relies on the derived `Clone` of `TokenReference`: an equal copy.
#[verifier::external_body]
pub(crate) fn copy_semicolon(t: &Option<TokenReference>) -> (r: Option<TokenReference>)
    ensures
        r == *t,
{
    t.clone()
}

/// Relies on `LocalAssignment::with_type_specifiers`, given no specifiers:
/// none is left, and clearing them again changes nothing.
#[verifier::external_body]
pub(crate) fn untype_local(a: LocalAssignment) -> (r: LocalAssignment)
    ensures
        r == local_untyped(a),
        !local_typed(r),
        local_untyped(r) == r,
{
    a.with_type_specifiers(vec![])
}

/// Relies on `FunctionDeclaration::body`: the body's tokens are among the
/// declaration's.
#[verifier::external_body]
pub(crate) fn fn_decl_get_body(f: &FunctionDeclaration) -> (r: FunctionBody)
    ensures
        r == fn_decl_body(*f),
        body_tokens(r) <= stmt_tokens(stmt_of(Node::FunctionDeclaration(*f))),
{
    f.body().clone()
}

/// Relies on `FunctionDeclaration::with_body`: the new body is the one read
/// back, setting it again changes nothing, and its tokens are among the
/// declaration's.
#[verifier::external_body]
pub(crate) fn fn_decl_set_body(f: FunctionDeclaration, b: FunctionBody) -> (r: FunctionDeclaration)
    ensures
        r == fn_decl_with_body(f, b),
        fn_decl_body(r) == b,
        fn_decl_with_body(r, b) == r,
        body_tokens(b) <= stmt_tokens(stmt_of(Node::FunctionDeclaration(r))),
{
    f.with_body(b)
}

/// Relies on `LocalFunction::body`: the body's tokens are among the function's.
#[verifier::external_body]
pub(crate) fn local_fn_get_body(f: &LocalFunction) -> (r: FunctionBody)
    ensures
        r == local_fn_body(*f),
        body_tokens(r) <= stmt_tokens(stmt_of(Node::LocalFunction(*f))),
{
    f.body().clone()
}

/// Relies on `LocalFunction::with_body`: the new body is the one read back,
/// setting it again changes nothing, and its tokens are among the function's.
#[verifier::external_body]
pub(crate) fn local_fn_set_body(f: LocalFunction, b: FunctionBody) -> (r: LocalFunction)
    ensures
        r == local_fn_with_body(f, b),
        local_fn_body(r) == b,
        local_fn_with_body(r, b) == r,
        body_tokens(b) <= stmt_tokens(stmt_of(Node::LocalFunction(r))),
{
    f.with_body(b)
}

/// Relies on `FunctionBody::block`: the body also holds an `end` token, so the
/// block has fewer tokens.
#[verifier::external_body]
pub(crate) fn body_get_block(b: &FunctionBody) -> (r: Block)
    ensures
        r == body_block(*b),
        block_tokens(r) < body_tokens(*b),
{
    b.block().clone()
}

/// Relies on `FunctionBody::with_block`: only the block changes.
#[verifier::external_body]
pub(crate) fn body_set_block(b: FunctionBody, blk: Block) -> (r: FunctionBody)
    ensures
        r == body_with_block(b, blk),
        body_block(r) == blk,
        params_typed(r) == params_typed(b),
        body_untyped_params(b) == b ==> body_untyped_params(r) == r,
{
    b.with_block(blk)
}

/// Relies on `FunctionBody::with_type_specifiers`, given no specifiers: none
/// is left, and clearing them again changes nothing.
#[verifier::external_body]
pub(crate) fn body_untype_params(b: FunctionBody) -> (r: FunctionBody)
    ensures
        r == body_untyped_params(b),
        !params_typed(r),
        body_untyped_params(r) == r,
{
    b.with_type_specifiers(vec![])
}

/// Relies on `FunctionBody::with_return_type`, given none: only the return
/// type changes, and dropping it again changes nothing. A body also holds an
/// `end` token, so its block has fewer tokens.
#[verifier::external_body]
pub(crate) fn body_drop_return_type(b: FunctionBody) -> (r: FunctionBody)
    ensures
        r == body_no_return_type(b),
        !has_return_type(r),
        body_no_return_type(r) == r,
        body_block(r) == body_block(b),
        body_with_block(r, body_block(r)) == r,
        params_typed(r) == params_typed(b),
        body_untyped_params(b) == b ==> body_untyped_params(r) == r,
        block_tokens(body_block(r)) < body_tokens(r),
{
    b.with_return_type(None)
}

/// Relies on `Do::block`: the statement also holds `do` and `end`.
#[verifier::external_body]
pub(crate) fn do_get_block(d: &Do) -> (r: Block)
    ensures
        r == do_block(*d),
        block_tokens(r) < stmt_tokens(stmt_of(Node::Do(*d))),
{
    d.block().clone()
}

/// Relies on `Do::with_block`: the new block is the one read back,
/// setting it again changes nothing, and its tokens are among the statement's.
#[verifier::external_body]
pub(crate) fn do_set_block(d: Do, blk: Block) -> (r: Do)
    ensures
        r == do_with_block(d, blk),
        do_block(r) == blk,
        do_with_block(r, blk) == r,
        block_tokens(blk) < stmt_tokens(stmt_of(Node::Do(r))),
{
    d.with_block(blk)
}

/// Relies on `If::block`: the statement also holds `if`, `then` and `end`.
#[verifier::external_body]
pub(crate) fn if_get_block(i: &If) -> (r: Block)
    ensures
        r == if_block(*i),
        block_tokens(r) < stmt_tokens(stmt_of(Node::If(*i))),
{
    i.block().clone()
}

/// Relies on `If::with_block`: replaces the first branch's block only, so the
/// `elseif` branches and the `else` block stay. The new block is the one read
/// back, setting it again changes nothing, and its tokens are among the
/// statement's.
#[verifier::external_body]
pub(crate) fn if_set_block(i: If, blk: Block) -> (r: If)
    ensures
        r == if_with_block(i, blk),
        if_block(r) == blk,
        if_with_block(r, blk) == r,
        if_else_ifs(r) == if_else_ifs(i),
        if_else_block(r) == if_else_block(i),
        block_tokens(blk) < stmt_tokens(stmt_of(Node::If(r))),
{
    i.with_block(blk)
}

/// Relies on `While::block`: the statement also holds `while`, `do` and `end`.
#[verifier::external_body]
pub(crate) fn while_get_block(w: &While) -> (r: Block)
    ensures
        r == while_block(*w),
        block_tokens(r) < stmt_tokens(stmt_of(Node::While(*w))),
{
    w.block().clone()
}

/// Relies on `While::with_block`: the new block is the one read back,
/// setting it again changes nothing, and its tokens are among the statement's.
#[verifier::external_body]
pub(crate) fn while_set_block(w: While, blk: Block) -> (r: While)
    ensures
        r == while_with_block(w, blk),
        while_block(r) == blk,
        while_with_block(r, blk) == r,
        block_tokens(blk) < stmt_tokens(stmt_of(Node::While(r))),
{
    w.with_block(blk)
}

/// Relies on `Repeat::block`: the statement also holds `repeat` and `until`.
#[verifier::external_body]
pub(crate) fn repeat_get_block(r: &Repeat) -> (res: Block)
    ensures
        res == repeat_block(*r),
        block_tokens(res) < stmt_tokens(stmt_of(Node::Repeat(*r))),
{
    r.block().clone()
}

/// Relies on `Repeat::with_block`: the new block is the one read back,
/// setting it again changes nothing, and its tokens are among the statement's.
#[verifier::external_body]
pub(crate) fn repeat_set_block(r: Repeat, blk: Block) -> (res: Repeat)
    ensures
        res == repeat_with_block(r, blk),
        repeat_block(res) == blk,
        repeat_with_block(res, blk) == res,
        block_tokens(blk) < stmt_tokens(stmt_of(Node::Repeat(res))),
{
    r.with_block(blk)
}

} // verus!
