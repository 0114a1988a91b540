use rune_query::ast::{Block, Expr, ExprBlock, Ident, ItemStruct, ItemStructBody, StructBody, TupleBody};
use rune_query::item::Item;
use rune_query::source::Source;
use rune_query::span::Span;

#[test]
fn join_covers_both_spans() {
    assert_eq!(Span::new(3, 5).join(Span::new(1, 4)), Span::new(1, 5));
    assert_eq!(Span::new(1, 9).join(Span::new(2, 3)), Span::new(1, 9));
}

#[test]
fn struct_span_runs_to_the_end_of_the_body() {
    let empty = ItemStruct { struct_: Span::new(0, 6), ident: Ident { span: Span::new(7, 10) }, body: ItemStructBody::EmptyBody(Span::new(10, 11)) };
    assert_eq!(empty.span(), Span::new(0, 11));
    let tuple = TupleBody { open: Span::new(10, 11), fields: Vec::new(), close: Span::new(11, 12) };
    assert_eq!(tuple.span(), Span::new(10, 12));
    let t = ItemStruct { struct_: Span::new(0, 6), ident: Ident { span: Span::new(7, 10) }, body: ItemStructBody::TupleBody(tuple, Span::new(12, 13)) };
    assert_eq!(t.span(), Span::new(0, 13));
    let body = StructBody { open: Span::new(11, 12), fields: Vec::new(), close: Span::new(20, 21) };
    assert_eq!(body.span(), Span::new(11, 21));
    let s = ItemStruct { struct_: Span::new(0, 6), ident: Ident { span: Span::new(7, 10) }, body: ItemStructBody::StructBody(body) };
    assert_eq!(s.span(), Span::new(0, 21));
}

#[test]
fn block_value_and_constness() {
    let empty = ExprBlock { block: Block { open: Span::new(0, 1), exprs: Vec::new(), close: Span::new(1, 2) } };
    assert!(empty.produces_nothing());
    assert!(empty.is_const());
    assert_eq!(empty.span(), Span::new(0, 2));

    let lit = ExprBlock { block: Block { open: Span::new(0, 1), exprs: vec![(Expr::Lit(Span::new(2, 3)), None)], close: Span::new(4, 5) } };
    assert!(!lit.produces_nothing());
    assert!(lit.is_const());

    let semi = ExprBlock {
        block: Block { open: Span::new(0, 1), exprs: vec![(Expr::Path(Ident { span: Span::new(2, 3) }), Some(Span::new(3, 4)))], close: Span::new(5, 6) },
    };
    assert!(semi.produces_nothing());
    assert!(!semi.is_const());
}

#[test]
fn source_slices_at_character_boundaries() {
    let src = Source::new("ab€c".to_string());
    assert_eq!(src.source(Span::new(0, 2)), Some("ab"));
    assert_eq!(src.source(Span::new(2, 5)), Some("€"));
    assert_eq!(src.source(Span::new(2, 3)), None);
    assert_eq!(src.source(Span::new(3, 2)), None);
    assert_eq!(src.source(Span::new(0, 7)), None);
    assert_eq!(src.source(Span::new(6, 6)), Some(""));
}

#[test]
fn item_paths_join_and_copy() {
    let b = Item::with_segments(vec!["B".to_string()]);
    let c = b.join("C");
    assert_eq!(c.segments(), &vec!["B".to_string(), "C".to_string()]);
    assert_eq!(c.len(), 2);
    assert_eq!(c.copy().segments(), c.segments());
    assert_eq!(Item::new().len(), 0);
}
