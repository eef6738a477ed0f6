use vstd::prelude::*;

verus! {

/// A token as the parser hands it over; the tree stores and forwards it.
#[derive(Debug)]
pub struct Token {
    pub lexeme: String,
    pub line: usize,
}

/// A literal's runtime value as the parser hands it over.
#[derive(Debug)]
pub enum Object {
    Number(i64),
    Text(String),
    Boolean(bool),
}

/// The failure a visitor operation raises; the tree only passes it on.
#[derive(Debug)]
pub struct SyntaxError {
    pub line: usize,
    pub message: String,
}

/// An expression: one of four node shapes, each owning its children.
pub enum Expr {
    Binary(BinaryExpr),
    Grouping(GroupingExpr),
    Literal(LiteralExpr),
    Unary(UnaryExpr),
}

/// `left operator right`.
pub struct BinaryExpr {
    pub left: Box<Expr>,
    pub operator: Token,
    pub right: Box<Expr>,
}

/// A parenthesised expression.
pub struct GroupingExpr {
    pub expression: Box<Expr>,
}

/// A literal; `None` is a literal with no runtime value.
pub struct LiteralExpr {
    pub value: Option<Object>,
}

/// `operator right`.
pub struct UnaryExpr {
    pub operator: Token,
    pub right: Box<Expr>,
}

/// An operation over expressions, one method per node shape. Each method decides
/// for itself whether to descend into the node's children; each `*_outcome`
/// says which results its method may return for a node (by default, any).
pub trait ExprVisitor<T> {
    open spec fn binary_outcome(&self, expr: BinaryExpr, r: Result<T, SyntaxError>) -> bool {
        true
    }

    open spec fn grouping_outcome(&self, expr: GroupingExpr, r: Result<T, SyntaxError>) -> bool {
        true
    }

    open spec fn literal_outcome(&self, expr: LiteralExpr, r: Result<T, SyntaxError>) -> bool {
        true
    }

    open spec fn unary_outcome(&self, expr: UnaryExpr, r: Result<T, SyntaxError>) -> bool {
        true
    }

    fn visit_binary_expr(&self, expr: &BinaryExpr) -> (r: Result<T, SyntaxError>)
        ensures
            self.binary_outcome(*expr, r),
    ;

    fn visit_grouping_expr(&self, expr: &GroupingExpr) -> (r: Result<T, SyntaxError>)
        ensures
            self.grouping_outcome(*expr, r),
    ;

    fn visit_literal_expr(&self, expr: &LiteralExpr) -> (r: Result<T, SyntaxError>)
        ensures
            self.literal_outcome(*expr, r),
    ;

    fn visit_unary_expr(&self, expr: &UnaryExpr) -> (r: Result<T, SyntaxError>)
        ensures
            self.unary_outcome(*expr, r),
    ;
}

/// What `visitor` may return for `expr`: the outcome of the method for the node's own shape.
pub open spec fn accept_outcome<T, V: ExprVisitor<T>>(
    visitor: V,
    expr: Expr,
    r: Result<T, SyntaxError>,
) -> bool {
    match expr {
        Expr::Binary(b) => visitor.binary_outcome(b, r),
        Expr::Grouping(g) => visitor.grouping_outcome(g, r),
        Expr::Literal(l) => visitor.literal_outcome(l, r),
        Expr::Unary(u) => visitor.unary_outcome(u, r),
    }
}

impl Expr {
    /// Hands the node to the visitor method for its shape and returns what it returns.
    pub fn accept<T, V: ExprVisitor<T>>(&self, expr_visitor: &V) -> (r: Result<T, SyntaxError>)
        ensures
            accept_outcome(*expr_visitor, *self, r),
    {
        match self {
            Expr::Binary(v) => v.accept(expr_visitor),
            Expr::Grouping(v) => v.accept(expr_visitor),
            Expr::Literal(v) => v.accept(expr_visitor),
            Expr::Unary(v) => v.accept(expr_visitor),
        }
    }
}

impl BinaryExpr {
    /// Calls the visitor's binary method on this node, and nothing else.
    pub fn accept<T, V: ExprVisitor<T>>(&self, visitor: &V) -> (r: Result<T, SyntaxError>)
        ensures
            visitor.binary_outcome(*self, r),
    {
        visitor.visit_binary_expr(self)
    }
}

impl GroupingExpr {
    /// Calls the visitor's grouping method on this node, and nothing else.
    pub fn accept<T, V: ExprVisitor<T>>(&self, visitor: &V) -> (r: Result<T, SyntaxError>)
        ensures
            visitor.grouping_outcome(*self, r),
    {
        visitor.visit_grouping_expr(self)
    }
}

impl LiteralExpr {
    /// Calls the visitor's literal method on this node, and nothing else.
    pub fn accept<T, V: ExprVisitor<T>>(&self, visitor: &V) -> (r: Result<T, SyntaxError>)
        ensures
            visitor.literal_outcome(*self, r),
    {
        visitor.visit_literal_expr(self)
    }
}

impl UnaryExpr {
    /// Calls the visitor's unary method on this node, and nothing else.
    pub fn accept<T, V: ExprVisitor<T>>(&self, visitor: &V) -> (r: Result<T, SyntaxError>)
        ensures
            visitor.unary_outcome(*self, r),
    {
        visitor.visit_unary_expr(self)
    }
}

} // verus!
