use vstd::prelude::*;

use crate::source::{name_at, ParseError, Source};
use crate::span::Span;

verus! {

/// The span covering both spans.
pub open spec fn join_spec(a: Span, b: Span) -> Span {
    Span {
        start: if a.start <= b.start { a.start } else { b.start },
        end: if a.end >= b.end { a.end } else { b.end },
    }
}

/// A name token. Its text is read from the source only when it is needed.
#[derive(Clone, Copy, Debug, PartialEq, Eq, Structural)]
pub struct Ident {
    /// Where the name stands in its source.
    pub span: Span,
}

impl Ident {
    /// Read the name out of the source that it was parsed from.
    pub fn resolve(&self, source: &Source) -> (r: Result<String, ParseError>)
        ensures
            match name_at(source.text@, self.span) {
                Ok(s) => r is Ok && r->Ok_0@ == s,
                Err(e) => r == Err::<String, ParseError>(e),
            },
    {
        match source.source(self.span) {
            Some(s) => Ok(s.to_owned()),
            None => Err(ParseError::BadSlice { span: self.span }),
        }
    }
}

/// A parenthesized list of fields, `( a, b, c )`.
#[derive(Clone, Debug)]
pub struct TupleBody {
    /// The opening paren.
    pub open: Span,
    /// The fields, each with the comma that follows it, if any.
    pub fields: Vec<(Ident, Option<Span>)>,
    /// The closing paren.
    pub close: Span,
}

impl TupleBody {
    /// Get the span for the tuple body.
    pub fn span(&self) -> (r: Span)
        ensures
            r == join_spec(self.open, self.close),
    {
        self.open.join(self.close)
    }
}

/// A braced list of named fields, `{ a, b, c }`.
#[derive(Clone, Debug)]
pub struct StructBody {
    /// The opening brace.
    pub open: Span,
    /// The fields, each with the comma that follows it, if any.
    pub fields: Vec<(Ident, Option<Span>)>,
    /// The closing brace.
    pub close: Span,
}

impl StructBody {
    /// Get the span for the struct body.
    pub fn span(&self) -> (r: Span)
        ensures
            r == join_spec(self.open, self.close),
    {
        self.open.join(self.close)
    }
}

/// The body of a struct declaration.
#[derive(Clone, Debug)]
pub enum ItemStructBody {
    /// An empty struct declaration, closed by its semicolon.
    EmptyBody(Span),
    /// A tuple struct body and its closing semicolon.
    TupleBody(TupleBody, Span),
    /// A regular struct body.
    StructBody(StructBody),
}

/// A struct declaration.
#[derive(Clone, Debug)]
pub struct ItemStruct {
    /// The `struct` keyword.
    pub struct_: Span,
    /// The identifier of the struct declaration.
    pub ident: Ident,
    /// The body of the struct.
    pub body: ItemStructBody,
}

impl ItemStruct {
    /// The span from the keyword to the end of the body.
    pub open spec fn spec_span(&self) -> Span {
        join_spec(
            self.struct_,
            match &self.body {
                ItemStructBody::EmptyBody(semi) => *semi,
                ItemStructBody::TupleBody(_, semi) => *semi,
                ItemStructBody::StructBody(body) => join_spec(body.open, body.close),
            },
        )
    }

    /// Get the span for the declaration: from the keyword to the end of the body.
    pub fn span(&self) -> (r: Span)
        ensures
            r == self.spec_span(),
    {
        let start = self.struct_;
        match &self.body {
            ItemStructBody::EmptyBody(semi) => start.join(*semi),
            ItemStructBody::TupleBody(_, semi) => start.join(*semi),
            ItemStructBody::StructBody(body) => start.join(body.span()),
        }
    }
}

/// The body of an enum variant declaration.
#[derive(Clone, Debug)]
pub enum ItemEnumVariant {
    /// A variant without fields.
    EmptyBody,
    /// A variant with positional fields.
    TupleBody(TupleBody),
    /// A variant with named fields.
    StructBody(StructBody),
}

/// An expression, as far as this front-end looks into it.
#[derive(Debug)]
pub enum Expr {
    /// A reference to a named item.
    Path(Ident),
    /// A literal value.
    Lit(Span),
    /// A function call.
    Call(ExprCall),
}

impl Expr {
    /// The span of the expression.
    pub open spec fn spec_span(&self) -> Span
        decreases self,
    {
        match self {
            Expr::Path(ident) => ident.span,
            Expr::Lit(span) => *span,
            Expr::Call(call) => join_spec(call.expr.spec_span(), join_spec(call.args.open, call.args.close)),
        }
    }

    /// Access the span of the expression.
    pub fn span(&self) -> (r: Span)
        ensures
            r == self.spec_span(),
        decreases self,
    {
        match self {
            Expr::Path(ident) => ident.span,
            Expr::Lit(span) => *span,
            Expr::Call(call) => call.span(),
        }
    }

    /// Whether the expression is a constant.
    pub open spec fn spec_is_const(&self) -> bool {
        self is Lit
    }
}

/// A parenthesized, comma-separated list of expressions.
#[derive(Debug)]
pub struct Parenthesized {
    /// The opening paren.
    pub open: Span,
    /// The items, each with the comma that follows it, if any.
    pub items: Vec<(Expr, Option<Span>)>,
    /// The closing paren.
    pub close: Span,
}

impl Parenthesized {
    /// The span from the opening to the closing paren.
    pub fn span(&self) -> (r: Span)
        ensures
            r == join_spec(self.open, self.close),
    {
        self.open.join(self.close)
    }
}

/// A function call `<expr>(<args>)`.
#[derive(Debug)]
pub struct ExprCall {
    /// The expression naming the function being called.
    pub expr: Box<Expr>,
    /// The arguments of the function call.
    pub args: Parenthesized,
}

impl ExprCall {
    /// Access the span of expression.
    pub fn span(&self) -> (r: Span)
        ensures
            r == join_spec(self.expr.spec_span(), join_spec(self.args.open, self.args.close)),
        decreases self,
    {
        let e = self.expr.span();
        e.join(self.args.span())
    }
}

/// A block of expressions, `{ a; b }`.
#[derive(Debug)]
pub struct Block {
    /// The opening brace.
    pub open: Span,
    /// The expressions, each with the semicolon that follows it, if any.
    pub exprs: Vec<(Expr, Option<Span>)>,
    /// The closing brace.
    pub close: Span,
}

impl Block {
    /// Whether the block ends without a value: it is empty, or its last expression is
    /// closed by a semicolon.
    pub open spec fn spec_produces_nothing(&self) -> bool {
        self.exprs@.len() == 0 || self.exprs@.last().1 is Some
    }

    /// Whether every expression of the block is a constant.
    pub open spec fn spec_is_const(&self) -> bool {
        forall|i: int| 0 <= i < self.exprs@.len() ==> (#[trigger] self.exprs@[i]).0.spec_is_const()
    }

    /// Get the span of the block.
    pub fn span(&self) -> (r: Span)
        ensures
            r == join_spec(self.open, self.close),
    {
        self.open.join(self.close)
    }

    /// Test if the block doesn't produce a value.
    pub fn produces_nothing(&self) -> (r: bool)
        ensures
            r == self.spec_produces_nothing(),
    {
        let n = self.exprs.len();
        if n == 0 {
            true
        } else {
            self.exprs[n - 1].1.is_some()
        }
    }

    /// Test if the block is a constant expression.
    pub fn is_const(&self) -> (r: bool)
        ensures
            r == self.spec_is_const(),
    {
        let mut i: usize = 0;
        while i < self.exprs.len()
            invariant
                i <= self.exprs@.len(),
                forall|k: int| 0 <= k < i ==> (#[trigger] self.exprs@[k]).0.spec_is_const(),
            decreases self.exprs@.len() - i,
        {
            match &self.exprs[i].0 {
                Expr::Lit(_) => {},
                _ => {
                    return false;
                },
            }
            i = i + 1;
        }
        true
    }
}

/// A block used as an expression.
#[derive(Debug)]
pub struct ExprBlock {
    /// The block.
    pub block: Block,
}

impl ExprBlock {
    /// Get the span of the block.
    pub fn span(&self) -> (r: Span)
        ensures
            r == join_spec(self.block.open, self.block.close),
    {
        self.block.span()
    }

    /// Test if the block expression doesn't produce a value.
    pub fn produces_nothing(&self) -> (r: bool)
        ensures
            r == self.block.spec_produces_nothing(),
    {
        self.block.produces_nothing()
    }

    /// Test if the block is a constant expression.
    pub fn is_const(&self) -> (r: bool)
        ensures
            r == self.block.spec_is_const(),
    {
        self.block.is_const()
    }
}

/// A function declaration, `fn name() { ... }`.
#[derive(Debug)]
pub struct ItemFn {
    /// The `fn` keyword.
    pub fn_: Span,
    /// The name of the function.
    pub name: Ident,
    /// The arguments.
    pub args: Vec<(Ident, Option<Span>)>,
    /// The body.
    pub body: Block,
}

/// A closure expression, `|args| body`.
#[derive(Debug)]
pub struct ExprClosure {
    /// The opening pipe.
    pub open: Span,
    /// The arguments.
    pub args: Vec<(Ident, Option<Span>)>,
    /// The body.
    pub body: Block,
}

impl ExprClosure {
    /// The span from the opening pipe to the end of the body.
    pub fn span(&self) -> (r: Span)
        ensures
            r == join_spec(self.open, join_spec(self.body.open, self.body.close)),
    {
        self.open.join(self.body.span())
    }
}

} // verus!
