use luau_strip::source::{strip_source, StripError};
use luau_strip::strip::clean_block;

fn strip(code: &str) -> String {
    match strip_source(code) {
        Ok(s) => s,
        Err(StripError::Parse(e)) => panic!("parse failed: {}", e),
    }
}

/// The program's text with all whitespace removed, so that two programs that
/// differ only in layout compare equal.
fn compact(code: &str) -> String {
    code.chars().filter(|c| !c.is_whitespace()).collect()
}

fn top_level_count(code: &str) -> usize {
    let ast = full_moon::parse(code).unwrap();
    ast.nodes().stmts().count()
}

#[test]
fn type_declaration_is_dropped() {
    assert_eq!(strip("type Foo = number"), "");
}

#[test]
fn exported_type_declaration_is_dropped() {
    assert_eq!(strip("export type Foo = number"), "");
}

#[test]
fn local_type_is_removed() {
    let out = strip("local x: number = 5");
    assert_eq!(compact(&out), compact("local x = 5"));
    assert!(!out.contains("number"));
}

#[test]
fn local_function_types_are_removed() {
    let out = strip("local function f(a: number): number return a end");
    assert_eq!(compact(&out), compact("local function f(a) return a end"));
}

#[test]
fn function_declaration_types_are_removed() {
    let out = strip("function f(a: string, b): boolean return true end");
    assert_eq!(compact(&out), compact("function f(a, b) return true end"));
}

#[test]
fn if_branch_is_stripped() {
    let out = strip("if true then local y: string = \"s\" end");
    assert_eq!(compact(&out), compact("if true then local y = \"s\" end"));
}

#[test]
fn do_block_type_is_dropped() {
    assert_eq!(strip("do type T = number end"), "do end");
}

#[test]
fn while_and_repeat_are_stripped() {
    let out = strip("while x do local a: number = 1 end\nrepeat local b: string = \"\" until b");
    assert_eq!(
        compact(&out),
        compact("while x do local a = 1 end\nrepeat local b = \"\" until b")
    );
}

#[test]
fn stripping_twice_is_stripping_once() {
    let code = "type A = number\nlocal x: A = 1\nlocal function f(p: number): number\n  do local q: string = \"\" end\n  return p\nend\nprint(x)\n";
    let once = strip(code);
    assert_eq!(strip(&once), once);
}

#[test]
fn statement_count_drops_only_type_declarations() {
    let code = "type A = number\nlocal x: A = 1\nexport type B = string\nprint(x)\nlocal y = 2\n";
    let out = strip(code);
    assert_eq!(top_level_count(code), 5);
    assert_eq!(top_level_count(&out), 3);
}

#[test]
fn clean_block_keeps_statement_count_per_level() {
    let ast = full_moon::parse("do type T = number local a: T = 1 print(a) end type U = string").unwrap();
    let cleaned = clean_block(ast.nodes().clone());
    assert_eq!(cleaned.stmts().count(), 1);
    let ast = ast.with_nodes(cleaned);
    assert_eq!(compact(&full_moon::print(&ast)), compact("do local a = 1 print(a) end"));
}

#[test]
fn statement_order_is_kept() {
    let out = strip("print(1)\ntype T = number\nprint(2)\nlocal z: T = 3\nprint(3)\n");
    let p1 = out.find("print(1)").unwrap();
    let p2 = out.find("print(2)").unwrap();
    let z = out.find("local z").unwrap();
    let p3 = out.find("print(3)").unwrap();
    assert!(p1 < p2 && p2 < z && z < p3);
}

#[test]
fn nested_types_are_removed_at_every_depth() {
    let code = "function outer(a: number)\n  while true do\n    do\n      repeat\n        local function inner(b: string): string\n          if b then\n            type Deep = number\n            local c: Deep = 1\n          end\n          return b\n        end\n      until true\n    end\n  end\nend\n";
    let out = strip(code);
    assert!(!out.contains(':'));
    assert!(!out.contains("Deep"));
    assert!(!out.contains("number"));
    assert!(compact(&out).contains("localc=1"));
}

#[test]
fn elseif_else_and_for_bodies_are_left_alone() {
    let code = "if a then local x: number = 1 elseif b then local y: number = 2 else local z: number = 3 end\nfor i = 1, 2 do local w: string = \"\" end\nfor k, v in t do local u: boolean = true end\n";
    let out = strip(code);
    assert!(compact(&out).contains("thenlocalx=1elseif"));
    assert!(out.contains("local y: number = 2"));
    assert!(out.contains("local z: number = 3"));
    assert!(out.contains("local w: string = \"\""));
    assert!(out.contains("local u: boolean = true"));
}

#[test]
fn type_free_program_is_unchanged() {
    let code = "-- a comment\nlocal a = 1 ;\nfunction f(x, y)\n    return x + y -- sum\nend\nwhile a < 3 do a = a + 1 end\nprint(f(a, 2))\n";
    assert_eq!(strip(code), code);
}

#[test]
fn semicolons_stay_with_their_statements() {
    let out = strip("local x: number = 1; type T = number; print(x);");
    assert_eq!(compact(&out), compact("local x = 1; print(x);"));
}

#[test]
fn invalid_program_is_a_parse_error() {
    assert!(matches!(strip_source("local = = 1"), Err(StripError::Parse(_))));
}

#[test]
fn empty_program_stays_empty() {
    assert_eq!(strip(""), "");
}

#[test]
fn clean_block_twice_gives_the_same_tree() {
    let code = "type A = number\nlocal x: A = 1\nfunction f(p: string): string\n  while p do local q: number = 2 end\n  return p\nend\nif x then local y: A = 1 else local z: A = 2 end\n";
    let ast = full_moon::parse(code).unwrap();
    let once = clean_block(ast.nodes().clone());
    let twice = clean_block(once.clone());
    assert_eq!(twice, once);
}
