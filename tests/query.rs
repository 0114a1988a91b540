use std::sync::Arc;

use rune_query::ast::{
    Block, ExprClosure, Expr, ExprCall, Ident, ItemEnumVariant, ItemFn, ItemStruct, ItemStructBody,
    Parenthesized, StructBody, TupleBody,
};
use rune_query::item::Item;
use rune_query::meta::{Call, CompileMeta, CompileMetaCapture};
use rune_query::query::{Build, CompileError, Query};
use rune_query::source::{ParseError, Source};
use rune_query::span::Span;
use rune_query::unit::UnitBuilder;

fn item(path: &[&str]) -> Item {
    Item::with_segments(path.iter().map(|s| s.to_string()).collect())
}

fn span_of(text: &str, needle: &str, from: usize) -> Span {
    let start = from + text[from..].find(needle).unwrap();
    Span::new(start, start + needle.len())
}

fn fields(text: &str, names: &[&str], from: usize) -> Vec<(Ident, Option<Span>)> {
    let mut at = from;
    let mut out = Vec::new();
    for name in names {
        let span = span_of(text, name, at);
        at = span.end;
        out.push((Ident { span }, None));
    }
    out
}

fn tuple_body(text: &str, names: &[&str], from: usize) -> TupleBody {
    TupleBody { open: Span::new(from, from + 1), fields: fields(text, names, from), close: Span::new(from, from + 1) }
}

fn struct_body(text: &str, names: &[&str], from: usize) -> StructBody {
    StructBody { open: Span::new(from, from + 1), fields: fields(text, names, from), close: Span::new(from, from + 1) }
}

fn struct_decl(body: ItemStructBody) -> ItemStruct {
    ItemStruct { struct_: Span::new(0, 6), ident: Ident { span: Span::new(7, 8) }, body }
}

fn empty_block() -> Block {
    Block { open: Span::new(0, 1), exprs: Vec::new(), close: Span::new(1, 2) }
}

fn query() -> Query {
    Query::new(UnitBuilder::new())
}

fn tuple_args(meta: &CompileMeta) -> usize {
    match meta {
        CompileMeta::Tuple { tuple, .. } => tuple.args,
        CompileMeta::TupleVariant { tuple, .. } => tuple.args,
        _ => panic!("not a tuple shape: {:?}", meta),
    }
}

fn resolve(q: &mut Query, path: &[&str]) -> CompileMeta {
    q.query_meta(&item(path), Span::new(0, 0)).unwrap().unwrap()
}

#[test]
fn empty_body_is_zero_arity() {
    let src = Arc::new(Source::new("struct A;".to_string()));
    let mut q = query();
    q.index_struct(item(&["A"]), struct_decl(ItemStructBody::EmptyBody(Span::new(8, 9))), src, 0).unwrap();
    let meta = resolve(&mut q, &["A"]);
    assert_eq!(tuple_args(&meta), 0);
    assert!(matches!(meta, CompileMeta::Tuple { .. }));
}

#[test]
fn positional_body_has_its_arity() {
    let text = "struct A(x, y, z);";
    let src = Arc::new(Source::new(text.to_string()));
    let mut q = query();
    let body = ItemStructBody::TupleBody(tuple_body(text, &["x", "y", "z"], 8), Span::new(17, 18));
    q.index_struct(item(&["A"]), struct_decl(body), src, 0).unwrap();
    assert_eq!(tuple_args(&resolve(&mut q, &["A"])), 3);
}

#[test]
fn named_body_has_its_field_set() {
    let text = "struct A { a, b, c }";
    let src = Arc::new(Source::new(text.to_string()));
    let mut q = query();
    let body = ItemStructBody::StructBody(struct_body(text, &["a", "b", "c"], 9));
    q.index_struct(item(&["A"]), struct_decl(body), src, 0).unwrap();
    match resolve(&mut q, &["A"]) {
        CompileMeta::Struct { object, .. } => {
            assert_eq!(object.field_count(), 3);
            assert!(object.has_field("a"));
            assert!(object.has_field("b"));
            assert!(object.has_field("c"));
            assert!(!object.has_field("d"));
        }
        other => panic!("not a struct: {:?}", other),
    }
}

#[test]
fn duplicate_field_names_collapse() {
    let text = "struct A { a, a }";
    let src = Arc::new(Source::new(text.to_string()));
    let mut q = query();
    let mut fs = fields(text, &["a"], 9);
    fs.push((Ident { span: span_of(text, "a", 12) }, None));
    let body = ItemStructBody::StructBody(StructBody { open: Span::new(9, 10), fields: fs, close: Span::new(16, 17) });
    q.index_struct(item(&["A"]), struct_decl(body), src, 0).unwrap();
    match resolve(&mut q, &["A"]) {
        CompileMeta::Struct { object, .. } => assert_eq!(object.field_count(), 1),
        other => panic!("not a struct: {:?}", other),
    }
}

#[test]
fn bad_field_span_is_a_name_resolution_error() {
    let text = "struct A { a }";
    let src = Arc::new(Source::new(text.to_string()));
    let mut q = query();
    let bad = Span::new(10, 99);
    let body = ItemStructBody::StructBody(StructBody {
        open: Span::new(9, 10),
        fields: vec![(Ident { span: bad }, None)],
        close: Span::new(13, 14),
    });
    q.index_struct(item(&["A"]), struct_decl(body), src, 0).unwrap();
    let r = q.query_meta(&item(&["A"]), Span::new(0, 0));
    assert!(matches!(r, Err(CompileError::Parse(ParseError::BadSlice { span })) if span == bad));
    // The consumed declaration is not restored.
    assert!(matches!(q.query_meta(&item(&["A"]), Span::new(0, 0)), Ok(None)));
}

#[test]
fn field_span_inside_a_character_is_rejected() {
    let text = "struct A { é }";
    let src = Source::new(text.to_string());
    let start = text.find('é').unwrap();
    let ident = Ident { span: Span::new(start, start + 1) };
    assert_eq!(ident.resolve(&src), Err(ParseError::BadSlice { span: Span::new(start, start + 1) }));
    let ident = Ident { span: Span::new(start, start + 2) };
    assert_eq!(ident.resolve(&src), Ok("é".to_string()));
}

#[test]
fn resolving_twice_gives_the_same_descriptor_and_one_work_item() {
    let src = Arc::new(Source::new("fn f() {}".to_string()));
    let mut q = query();
    let ast = ItemFn { fn_: Span::new(0, 2), name: Ident { span: Span::new(3, 4) }, args: Vec::new(), body: empty_block() };
    q.index_fn(item(&["f"]), ast, Call::Immediate, src, 0).unwrap();
    let first = resolve(&mut q, &["f"]);
    let second = resolve(&mut q, &["f"]);
    assert!(matches!(first, CompileMeta::Function { .. }));
    assert!(matches!(second, CompileMeta::Function { .. }));
    assert_eq!(first.type_of(), second.type_of());
    assert_eq!(first.item().segments(), second.item().segments());
    assert_eq!(q.queue_len(), 1);
    resolve(&mut q, &["f"]);
    assert_eq!(q.queue_len(), 1);
}

#[test]
fn registering_twice_fails_and_keeps_the_first() {
    let text = "struct A(x); enum A {}";
    let src = Arc::new(Source::new(text.to_string()));
    let mut q = query();
    let body = ItemStructBody::TupleBody(tuple_body(text, &["x"], 8), Span::new(11, 12));
    q.index_struct(item(&["A"]), struct_decl(body), src.clone(), 0).unwrap();
    let r = q.index_enum(item(&["A"]), src.clone(), 0, Span::new(13, 22));
    match r {
        Err(CompileError::ItemConflict { existing, span }) => {
            assert_eq!(existing.segments(), &vec!["A".to_string()]);
            assert_eq!(span, Span::new(13, 22));
        }
        other => panic!("expected a conflict: {:?}", other),
    }
    assert!(q.unit.contains_name(&item(&["A"])));
    assert_eq!(tuple_args(&resolve(&mut q, &["A"])), 1);
    // A resolved path cannot be declared again either.
    assert!(matches!(q.index_enum(item(&["A"]), src, 0, Span::new(13, 22)), Err(CompileError::ItemConflict { .. })));
}

#[test]
fn resolving_a_variant_resolves_its_enum() {
    let src = Arc::new(Source::new("enum B { C }".to_string()));
    let mut q = query();
    q.index_enum(item(&["B"]), src.clone(), 0, Span::new(0, 12)).unwrap();
    q.index_variant(item(&["B", "C"]), item(&["B"]), ItemEnumVariant::EmptyBody, src, 0, Span::new(9, 10)).unwrap();
    assert!(!q.unit.contains_meta(&item(&["B"])));
    let meta = resolve(&mut q, &["B", "C"]);
    match &meta {
        CompileMeta::TupleVariant { enum_item, tuple, .. } => {
            assert_eq!(enum_item.segments(), &vec!["B".to_string()]);
            assert_eq!(tuple.args, 0);
        }
        other => panic!("not a variant: {:?}", other),
    }
    assert!(q.unit.contains_meta(&item(&["B"])));
    assert!(matches!(q.unit.lookup_meta(&item(&["B"])), Some(CompileMeta::Enum { .. })));
}

#[test]
fn unresolved_declarations_cost_nothing() {
    let src = Arc::new(Source::new("fn f() {} fn g() {}".to_string()));
    let mut q = query();
    for name in ["f", "g"] {
        let ast = ItemFn { fn_: Span::new(0, 2), name: Ident { span: Span::new(3, 4) }, args: Vec::new(), body: empty_block() };
        q.index_fn(item(&[name]), ast, Call::Immediate, src.clone(), 0).unwrap();
    }
    resolve(&mut q, &["f"]);
    assert!(!q.unit.contains_meta(&item(&["g"])));
    let built = q.next_build().unwrap();
    assert_eq!(built.item.segments(), &vec!["f".to_string()]);
    assert!(q.next_build().is_none());
}

#[test]
fn unknown_path_resolves_to_nothing() {
    let mut q = query();
    assert!(matches!(q.query_meta(&item(&["nope"]), Span::new(0, 0)), Ok(None)));
    assert_eq!(q.queue_len(), 0);
}

#[test]
fn identity_depends_on_the_path_alone() {
    let a1 = rune_query::hash::type_hash(&item(&["A"]));
    let a2 = rune_query::hash::type_hash(&item(&["A"]));
    assert_eq!(a1, a2);
    let corpus: Vec<Item> = vec![
        item(&[]),
        item(&["A"]),
        item(&["B"]),
        item(&["AB"]),
        item(&["A", "B"]),
        item(&["B", "A"]),
        item(&["B", "C"]),
        item(&["B", "D"]),
        item(&["f"]),
        item(&["g"]),
        item(&["", "A"]),
        item(&["A", ""]),
    ];
    let hashes: Vec<u64> = corpus.iter().map(rune_query::hash::type_hash).collect();
    for i in 0..hashes.len() {
        for j in 0..i {
            assert_ne!(hashes[i], hashes[j], "{:?} and {:?}", corpus[i], corpus[j]);
        }
    }
    assert_eq!(hashes[0], rune_query::hash::TYPE_SEED);
    // One segment "A": (seed * 257 + 'A' + 1) * 257 + 0, reduced by the modulus.
    let m = rune_query::hash::HASH_MODULUS as u128;
    let step = ((rune_query::hash::TYPE_SEED as u128) * 257 + 66) % m;
    assert_eq!(hashes[1] as u128, (step * 257) % m);
}

#[test]
fn identity_is_the_same_across_passes() {
    let run = || {
        let src = Arc::new(Source::new("enum B { C }".to_string()));
        let mut q = query();
        q.index_enum(item(&["B"]), src.clone(), 0, Span::new(0, 12)).unwrap();
        resolve(&mut q, &["B"]).type_of()
    };
    assert_eq!(run(), run());
    assert_eq!(run(), rune_query::hash::type_hash(&item(&["B"])));
}

#[test]
fn end_to_end_struct_and_enum() {
    let text = "struct A(x); enum B { C(a), D { f } }";
    let src = Arc::new(Source::new(text.to_string()));
    let mut q = query();
    let a_body = ItemStructBody::TupleBody(tuple_body(text, &["x"], 8), Span::new(11, 12));
    q.index_struct(item(&["A"]), struct_decl(a_body), src.clone(), 0).unwrap();
    q.index_enum(item(&["B"]), src.clone(), 0, Span::new(13, text.len())).unwrap();
    let c_at = text.find("C(").unwrap();
    let c = ItemEnumVariant::TupleBody(tuple_body(text, &["a"], c_at + 1));
    q.index_variant(item(&["B", "C"]), item(&["B"]), c, src.clone(), 0, Span::new(c_at, c_at + 4)).unwrap();
    let d_at = text.find("D {").unwrap();
    let d = ItemEnumVariant::StructBody(struct_body(text, &["f"], d_at + 2));
    q.index_variant(item(&["B", "D"]), item(&["B"]), d, src, 0, Span::new(d_at, d_at + 7)).unwrap();
    assert_eq!(q.queue_len(), 0);

    assert_eq!(tuple_args(&resolve(&mut q, &["A"])), 1);
    assert!(matches!(resolve(&mut q, &["B"]), CompileMeta::Enum { .. }));
    assert_eq!(tuple_args(&resolve(&mut q, &["B", "C"])), 1);
    match resolve(&mut q, &["B", "D"]) {
        CompileMeta::StructVariant { object, enum_item, .. } => {
            assert_eq!(object.field_count(), 1);
            assert!(object.has_field("f"));
            assert_eq!(enum_item.segments(), &vec!["B".to_string()]);
        }
        other => panic!("not a struct variant: {:?}", other),
    }
    assert_eq!(q.queue_len(), 0);
    assert!(q.next_build().is_none());
}

/// The paths that the calls of a function body name, read from the source.
fn called_paths(block: &Block, source: &Source) -> Vec<Item> {
    let mut out = Vec::new();
    for (expr, _) in &block.exprs {
        if let Expr::Call(call) = expr {
            if let Expr::Path(ident) = &*call.expr {
                out.push(item(&[ident.resolve(source).unwrap().as_str()]));
            }
        }
    }
    out
}

#[test]
fn end_to_end_functions_in_reference_order() {
    let text = "fn f() { g() } fn g() {}";
    let src = Arc::new(Source::new(text.to_string()));
    let mut q = query();
    let g_call = span_of(text, "g", 0);
    let call = ExprCall {
        expr: Box::new(Expr::Path(Ident { span: g_call })),
        args: Parenthesized { open: Span::new(g_call.end, g_call.end + 1), items: Vec::new(), close: Span::new(g_call.end + 1, g_call.end + 2) },
    };
    assert_eq!(call.span(), Span::new(g_call.start, g_call.end + 2));
    let f_body = Block { open: Span::new(7, 8), exprs: vec![(Expr::Call(call), None)], close: Span::new(13, 14) };
    let f = ItemFn { fn_: Span::new(0, 2), name: Ident { span: Span::new(3, 4) }, args: Vec::new(), body: f_body };
    let g_at = text.rfind("fn g").unwrap();
    let g = ItemFn {
        fn_: Span::new(g_at, g_at + 2),
        name: Ident { span: Span::new(g_at + 3, g_at + 4) },
        args: Vec::new(),
        body: Block { open: Span::new(g_at + 7, g_at + 8), exprs: Vec::new(), close: Span::new(g_at + 8, g_at + 9) },
    };
    q.index_fn(item(&["f"]), f, Call::Immediate, src.clone(), 0).unwrap();
    q.index_fn(item(&["g"]), g, Call::Immediate, src, 0).unwrap();

    resolve(&mut q, &["f"]);
    let mut order = Vec::new();
    while let Some(entry) = q.next_build() {
        order.push(entry.item.segments()[0].clone());
        let body = match &entry.build {
            Build::Function(f) => &f.ast.body,
            _ => panic!("only functions here"),
        };
        for path in called_paths(body, &entry.source) {
            q.query_meta(&path, Span::new(0, 0)).unwrap().unwrap();
        }
    }
    assert_eq!(order, vec!["f".to_string(), "g".to_string()]);
    assert_eq!(q.queue_len(), 0);
}

#[test]
fn closure_captures_are_shared() {
    let src = Arc::new(Source::new("|| x".to_string()));
    let mut q = query();
    let captures = Arc::new(vec![CompileMetaCapture { ident: "x".to_string() }]);
    let ast = ExprClosure { open: Span::new(0, 1), args: Vec::new(), body: empty_block() };
    q.index_closure(item(&["main", "$0"]), ast, captures.clone(), Call::Immediate, src.clone(), 3).unwrap();
    q.index_async_block(item(&["main", "$1"]), empty_block(), captures.clone(), Call::Async, src, 3).unwrap();
    match resolve(&mut q, &["main", "$0"]) {
        CompileMeta::Closure { captures: c, .. } => assert!(Arc::ptr_eq(&c, &captures)),
        other => panic!("not a closure: {:?}", other),
    }
    match resolve(&mut q, &["main", "$1"]) {
        CompileMeta::AsyncBlock { captures: c, .. } => assert!(Arc::ptr_eq(&c, &captures)),
        other => panic!("not an async block: {:?}", other),
    }
    let first = q.next_build().unwrap();
    assert!(matches!(first.build, Build::Closure(_)));
    assert_eq!(first.source_id, 3);
    assert!(matches!(q.next_build().unwrap().build, Build::AsyncBlock(_)));
}
