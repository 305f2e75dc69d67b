//! The rewrite: type declarations are dropped, type annotations are cleared,
//! and the blocks of functions, `do`, the first branch of `if`, `while` and
//! `repeat` are rewritten in turn, at every depth.
use crate::syntax::{
    block_tokens, block_with_entries, body_block, body_drop_return_type, body_get_block,
    body_no_return_type, body_set_block, body_tokens, body_untype_params, body_untyped_params,
    body_with_block, classify, copy_semicolon, do_block, do_get_block, do_set_block,
    do_with_block, entries, entries_of, fn_decl_body, fn_decl_get_body, fn_decl_set_body,
    fn_decl_with_body, has_return_type, if_block, if_else_block, if_else_ifs, if_get_block,
    if_set_block, if_with_block, into_stmt, local_fn_body, local_fn_get_body, local_fn_set_body,
    local_fn_with_body, local_typed, local_untyped, node_of, params_typed, repeat_block,
    repeat_get_block, repeat_set_block, repeat_with_block, stmt_of, stmt_tokens, untype_local,
    while_block, while_get_block, while_set_block, while_with_block, with_entries, Entry, Node,
};
use full_moon::ast::{Block, FunctionBody, Stmt};
use vstd::prelude::*;

verus! {

/// Whether a statement is a type declaration, exported or not.
pub open spec fn is_type_declaration(s: Stmt) -> bool {
    node_of(s) is TypeDeclaration
}

/// How many of the entries are type declarations.
pub open spec fn type_declaration_count(es: Seq<Entry>) -> nat
    decreases es.len(),
{
    if es.len() == 0 {
        0
    } else {
        type_declaration_count(es.drop_last()) + if is_type_declaration(es.last().0) {
            1nat
        } else {
            0nat
        }
    }
}

/// A block rewritten: its statements are replaced by the rewritten ones.
pub open spec fn strip_block(b: Block) -> Block
    decreases block_tokens(b), 3nat, 0nat,
{
    block_with_entries(b, strip_entries(entries_of(b), block_tokens(b)))
}

/// The entries rewritten in order, type declarations left out, each semicolon
/// kept with its statement. `bound` is the token count of the enclosing block,
/// which every nested block stays under.
pub open spec fn strip_entries(es: Seq<Entry>, bound: nat) -> Seq<Entry>
    decreases bound, 2nat, es.len(),
{
    if es.len() == 0 {
        Seq::empty()
    } else {
        let rest = strip_entries(es.drop_last(), bound);
        let e = es.last();
        if is_type_declaration(e.0) {
            rest
        } else {
            rest.push((strip_stmt(e.0, bound), e.1))
        }
    }
}

/// A function body without parameter types or return type, holding `blk`.
pub open spec fn untyped_body(fb: FunctionBody, blk: Block) -> FunctionBody {
    body_no_return_type(body_with_block(body_untyped_params(fb), blk))
}

/// One statement rewritten, by its kind.
pub open spec fn strip_stmt(s: Stmt, bound: nat) -> Stmt
    decreases bound, 1nat, 0nat,
{
    match node_of(s) {
        Node::LocalAssignment(a) => stmt_of(Node::LocalAssignment(local_untyped(a))),
        Node::FunctionDeclaration(f) => {
            let fb = fn_decl_body(f);
            let blk = strip_nested(body_block(fb), bound);
            stmt_of(Node::FunctionDeclaration(fn_decl_with_body(f, untyped_body(fb, blk))))
        },
        Node::LocalFunction(f) => {
            let fb = local_fn_body(f);
            let blk = strip_nested(body_block(fb), bound);
            stmt_of(Node::LocalFunction(local_fn_with_body(f, untyped_body(fb, blk))))
        },
        Node::Do(d) => stmt_of(Node::Do(do_with_block(d, strip_nested(do_block(d), bound)))),
        Node::If(i) => stmt_of(Node::If(if_with_block(i, strip_nested(if_block(i), bound)))),
        Node::While(w) => stmt_of(
            Node::While(while_with_block(w, strip_nested(while_block(w), bound))),
        ),
        Node::Repeat(r) => stmt_of(
            Node::Repeat(repeat_with_block(r, strip_nested(repeat_block(r), bound))),
        ),
        Node::TypeDeclaration(_) | Node::Other(_) => s,
    }
}

/// A nested block rewritten; nested blocks have fewer tokens than the block
/// around them, which `bound` counts.
pub open spec fn strip_nested(blk: Block, bound: nat) -> Block
    decreases bound, 0nat, 0nat,
{
    if block_tokens(blk) < bound {
        strip_block(blk)
    } else {
        blk
    }
}

/// Whether a block holds no type syntax that the rewrite removes: no type
/// declaration, no typed local, no typed parameter or return type, and the
/// same of every block that the rewrite enters, at any depth.
pub open spec fn type_free_block(b: Block) -> bool
    decreases block_tokens(b), 2nat, 0nat,
{
    type_free_entries(entries_of(b), block_tokens(b))
}

/// Whether each entry is free of type syntax and has at most `bound` tokens.
pub open spec fn type_free_entries(es: Seq<Entry>, bound: nat) -> bool
    decreases bound, 1nat, es.len(),
{
    if es.len() == 0 {
        true
    } else {
        let s = es.last().0;
        &&& type_free_entries(es.drop_last(), bound)
        &&& stmt_tokens(s) <= bound
        &&& type_free_stmt(s)
    }
}

/// Whether a function body has no typed parameter, no return type, and a
/// type-free block with fewer tokens than `bound`.
pub open spec fn type_free_body(fb: FunctionBody, bound: nat) -> bool
    decreases bound, 0nat, 1nat,
{
    &&& !params_typed(fb)
    &&& !has_return_type(fb)
    &&& block_tokens(body_block(fb)) < bound
    &&& type_free_block(body_block(fb))
}

/// Whether a block nested in a statement of `bound` tokens is type-free.
pub open spec fn type_free_nested(blk: Block, bound: nat) -> bool
    decreases bound, 0nat, 0nat,
{
    block_tokens(blk) < bound && type_free_block(blk)
}

/// Whether a statement is free of type syntax, by its kind.
pub open spec fn type_free_stmt(s: Stmt) -> bool
    decreases stmt_tokens(s), 0nat, 2nat,
{
    match node_of(s) {
        Node::TypeDeclaration(_) => false,
        Node::LocalAssignment(a) => !local_typed(a),
        Node::FunctionDeclaration(f) => type_free_body(fn_decl_body(f), stmt_tokens(s)),
        Node::LocalFunction(f) => type_free_body(local_fn_body(f), stmt_tokens(s)),
        Node::Do(d) => type_free_nested(do_block(d), stmt_tokens(s)),
        Node::If(i) => type_free_nested(if_block(i), stmt_tokens(s)),
        Node::While(w) => type_free_nested(while_block(w), stmt_tokens(s)),
        Node::Repeat(r) => type_free_nested(repeat_block(r), stmt_tokens(s)),
        Node::Other(_) => true,
    }
}

/// Entries that each hold type-free statements of at most `bound` tokens are
/// type-free together.
proof fn lemma_type_free_entries(es: Seq<Entry>, bound: nat)
    requires
        forall|j: int|
            0 <= j < es.len() ==> stmt_tokens(#[trigger] es[j].0) <= bound && type_free_stmt(
                es[j].0,
            ),
    ensures
        type_free_entries(es, bound),
    decreases es.len(),
{
    if es.len() > 0 {
        let init = es.drop_last();
        assert forall|j: int| 0 <= j < init.len() implies stmt_tokens(#[trigger] init[j].0) <= bound
            && type_free_stmt(init[j].0) by {
            assert(init[j] == es[j]);
        }
        lemma_type_free_entries(init, bound);
    }
}

/// Entries that the rewrite leaves as they are, one by one, it leaves as
/// they are together.
proof fn lemma_strip_entries_fixed(es: Seq<Entry>, bound: nat)
    requires
        forall|j: int|
            0 <= j < es.len() ==> !is_type_declaration(#[trigger] es[j].0) && strip_stmt(
                es[j].0,
                bound,
            ) == es[j].0,
    ensures
        strip_entries(es, bound) == es,
    decreases es.len(),
{
    if es.len() > 0 {
        let init = es.drop_last();
        assert forall|j: int| 0 <= j < init.len() implies !is_type_declaration(
            #[trigger] init[j].0,
        ) && strip_stmt(init[j].0, bound) == init[j].0 by {
            assert(init[j] == es[j]);
        }
        lemma_strip_entries_fixed(init, bound);
        assert(es == init.push(es.last()));
    }
}

/// The positions of the entries that are not type declarations, in order.
pub open spec fn kept_positions(es: Seq<Entry>) -> Seq<int>
    decreases es.len(),
{
    if es.len() == 0 {
        Seq::empty()
    } else {
        let rest = kept_positions(es.drop_last());
        if is_type_declaration(es.last().0) {
            rest
        } else {
            rest.push(es.len() - 1)
        }
    }
}

/// At each level, the rewrite leaves as many statements as there were, less
/// the type declarations among them.
pub proof fn lemma_statement_count(es: Seq<Entry>, bound: nat)
    ensures
        strip_entries(es, bound).len() + type_declaration_count(es) == es.len(),
    decreases es.len(),
{
    if es.len() > 0 {
        lemma_statement_count(es.drop_last(), bound);
    }
}

/// The rewrite keeps exactly the statements that are not type declarations,
/// in their original order: the kept positions rise strictly, and the j-th
/// statement out is the rewrite of the statement at the j-th kept position,
/// with that statement's semicolon.
pub proof fn lemma_order_kept(es: Seq<Entry>, bound: nat)
    ensures
        kept_positions(es).len() == strip_entries(es, bound).len(),
        forall|j: int, k: int|
            0 <= j < k < kept_positions(es).len() ==> kept_positions(es)[j]
                < kept_positions(es)[k],
        forall|j: int|
            #![trigger kept_positions(es)[j]]
            0 <= j < kept_positions(es).len() ==> {
                let p = kept_positions(es)[j];
                &&& 0 <= p < es.len()
                &&& !is_type_declaration(es[p].0)
                &&& strip_entries(es, bound)[j] == (strip_stmt(es[p].0, bound), es[p].1)
            },
        forall|p: int|
            0 <= p < es.len() && !is_type_declaration(#[trigger] es[p].0) ==> kept_positions(
                es,
            ).contains(p),
    decreases es.len(),
{
    if es.len() > 0 {
        let init = es.drop_last();
        lemma_order_kept(init, bound);
        assert forall|p: int|
            0 <= p < init.len() implies #[trigger] es[p] == init[p] by {}
        let k = kept_positions(es);
        let ki = kept_positions(init);
        assert forall|p: int|
            0 <= p < es.len() && !is_type_declaration(#[trigger] es[p].0) implies k.contains(p) by {
            if p < init.len() {
                assert(init[p] == es[p]);
                let w = choose|w: int| 0 <= w < ki.len() && ki[w] == p;
                assert(k[w] == p);
            } else {
                assert(k[k.len() - 1] == p);
            }
        }
    }
}

/// The rewrite enters only the first branch of an `if`: it keeps an `if`
/// statement an `if` statement with the same `elseif` branches and the same
/// `else` block.
pub open spec fn other_branches_kept(s: Stmt, bound: nat) -> bool {
    node_of(s) is If ==> {
        let i = node_of(s)->If_0;
        let t = node_of(strip_stmt(s, bound));
        &&& t is If
        &&& if_else_ifs(t->If_0) == if_else_ifs(i)
        &&& if_else_block(t->If_0) == if_else_block(i)
    }
}

/// A statement that the rewrite produced: free of type syntax, and left as it
/// is by the rewrite within any block that can hold it.
pub open spec fn settled(s: Stmt) -> bool {
    &&& !is_type_declaration(s)
    &&& type_free_stmt(s)
    &&& forall|b: nat| stmt_tokens(s) <= b ==> #[trigger] strip_stmt(s, b) == s
}

/// Removes type syntax from a function body: its parameter types and return
/// type are cleared and its block is rewritten.
pub fn clean_body(body: FunctionBody) -> (r: FunctionBody)
    ensures
        r == untyped_body(body, strip_block(body_block(body))),
        block_tokens(body_block(body)) < body_tokens(body),
        body_block(r) == strip_block(body_block(body)),
        type_free_body(r, body_tokens(r)),
        untyped_body(r, body_block(r)) == r,
        strip_block(body_block(r)) == body_block(r),
    decreases body_tokens(body), 0nat,
{
    let block = body_get_block(&body);
    let block = clean_block(block);
    let body = body_untype_params(body);
    let body = body_set_block(body, block);
    body_drop_return_type(body)
}

/// Removes type syntax from a block: type declarations are dropped, local
/// assignments lose their type specifiers, functions lose their parameter and
/// return types, and the blocks of functions, `do`, the first branch of `if`,
/// `while` and `repeat` are cleaned in turn. Every other statement, and each
/// semicolon, is kept as it was, in the same order.
///
/// The result holds as many statements as the block, less its type
/// declarations; no type syntax is left in it at any depth that the rewrite
/// enters; cleaning it again gives it back unchanged; and every `if` keeps its
/// `elseif` branches and its `else` block as they were.
pub fn clean_block(block: Block) -> (r: Block)
    ensures
        r == strip_block(block),
        entries_of(r) == strip_entries(entries_of(block), block_tokens(block)),
        entries_of(r).len() + type_declaration_count(entries_of(block)) == entries_of(block).len(),
        type_free_block(r),
        strip_block(r) == r,
        forall|p: int|
            0 <= p < entries_of(block).len() ==> other_branches_kept(
                #[trigger] entries_of(block)[p].0,
                block_tokens(block),
            ),
    decreases block_tokens(block), 1nat,
{
    let es = entries(&block);
    let ghost bound = block_tokens(block);
    let mut out: Vec<Entry> = Vec::new();
    let n = es.len();
    let mut i: usize = 0;
    while i < n
        invariant
            n == es@.len(),
            es@ == entries_of(block),
            bound == block_tokens(block),
            0 <= i <= n,
            forall|j: int| 0 <= j < es@.len() ==> stmt_tokens(#[trigger] es@[j].0) <= bound,
            out@ == strip_entries(es@.take(i as int), bound),
            forall|j: int| 0 <= j < out@.len() ==> settled(#[trigger] out@[j].0),
            forall|p: int| 0 <= p < i ==> other_branches_kept(#[trigger] es@[p].0, bound),
        decreases n - i,
    {
        let e = &es[i];
        let node = classify(&e.0);
        assert(es@.take(i + 1).drop_last() == es@.take(i as int));
        assert(es@.take(i + 1).last() == es@[i as int]);
        assert(stmt_tokens(e.0) <= bound);
        match node {
            Node::TypeDeclaration(_) => {},
            Node::LocalAssignment(a) => {
                let s = into_stmt(Node::LocalAssignment(untype_local(a)));
                assert(s == strip_stmt(e.0, bound));
                assert forall|b: nat| stmt_tokens(s) <= b implies #[trigger] strip_stmt(s, b) == s by {}
                assert(settled(s));
                out.push((s, copy_semicolon(&e.1)));
            },
            Node::FunctionDeclaration(f) => {
                let fb = fn_decl_get_body(&f);
                let fb = clean_body(fb);
                let s = into_stmt(Node::FunctionDeclaration(fn_decl_set_body(f, fb)));
                assert(s == strip_stmt(e.0, bound));
                assert forall|b: nat| stmt_tokens(s) <= b implies #[trigger] strip_stmt(s, b) == s by {}
                assert(settled(s));
                out.push((s, copy_semicolon(&e.1)));
            },
            Node::LocalFunction(f) => {
                let fb = local_fn_get_body(&f);
                let fb = clean_body(fb);
                let s = into_stmt(Node::LocalFunction(local_fn_set_body(f, fb)));
                assert(s == strip_stmt(e.0, bound));
                assert forall|b: nat| stmt_tokens(s) <= b implies #[trigger] strip_stmt(s, b) == s by {}
                assert(settled(s));
                out.push((s, copy_semicolon(&e.1)));
            },
            Node::Do(d) => {
                let blk = clean_block(do_get_block(&d));
                let s = into_stmt(Node::Do(do_set_block(d, blk)));
                assert(s == strip_stmt(e.0, bound));
                assert forall|b: nat| stmt_tokens(s) <= b implies #[trigger] strip_stmt(s, b) == s by {}
                assert(settled(s));
                out.push((s, copy_semicolon(&e.1)));
            },
            Node::If(c) => {
                let blk = clean_block(if_get_block(&c));
                let s = into_stmt(Node::If(if_set_block(c, blk)));
                assert(s == strip_stmt(e.0, bound));
                assert forall|b: nat| stmt_tokens(s) <= b implies #[trigger] strip_stmt(s, b) == s by {}
                assert(settled(s));
                out.push((s, copy_semicolon(&e.1)));
            },
            Node::While(w) => {
                let blk = clean_block(while_get_block(&w));
                let s = into_stmt(Node::While(while_set_block(w, blk)));
                assert(s == strip_stmt(e.0, bound));
                assert forall|b: nat| stmt_tokens(s) <= b implies #[trigger] strip_stmt(s, b) == s by {}
                assert(settled(s));
                out.push((s, copy_semicolon(&e.1)));
            },
            Node::Repeat(rp) => {
                let blk = clean_block(repeat_get_block(&rp));
                let s = into_stmt(Node::Repeat(repeat_set_block(rp, blk)));
                assert(s == strip_stmt(e.0, bound));
                assert forall|b: nat| stmt_tokens(s) <= b implies #[trigger] strip_stmt(s, b) == s by {}
                assert(settled(s));
                out.push((s, copy_semicolon(&e.1)));
            },
            Node::Other(s) => {
                assert(s == strip_stmt(e.0, bound));
                assert forall|b: nat| stmt_tokens(s) <= b implies #[trigger] strip_stmt(s, b) == s by {}
                assert(settled(s));
                out.push((s, copy_semicolon(&e.1)));
            },
        }
        assert(other_branches_kept(e.0, bound));
        i = i + 1;
    }
    assert(es@.take(n as int) == es@);
    proof {
        lemma_statement_count(es@, bound);
    }
    let ghost kept = out@;
    let r = with_entries(block, out);
    proof {
        lemma_type_free_entries(kept, block_tokens(r));
        assert forall|j: int| 0 <= j < kept.len() implies !is_type_declaration(#[trigger] kept[j].0)
            && strip_stmt(kept[j].0, block_tokens(r)) == kept[j].0 by {
            assert(settled(kept[j].0));
        }
        lemma_strip_entries_fixed(kept, block_tokens(r));
    }
    r
}

} // verus!
