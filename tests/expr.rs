use std::cell::Cell;

use frontend_core::expr::{
    BinaryExpr, Expr, ExprVisitor, GroupingExpr, LiteralExpr, Object, SyntaxError, Token,
    UnaryExpr,
};

fn token(lexeme: &str) -> Token {
    Token { lexeme: lexeme.to_string(), line: 1 }
}

fn number(n: i64) -> Box<Expr> {
    Box::new(Expr::Literal(LiteralExpr { value: Some(Object::Number(n)) }))
}

struct Printer;

impl ExprVisitor<String> for Printer {
    fn visit_binary_expr(&self, expr: &BinaryExpr) -> Result<String, SyntaxError> {
        let left = expr.left.accept(self)?;
        let right = expr.right.accept(self)?;
        Ok(format!("{} {} {}", left, expr.operator.lexeme, right))
    }

    fn visit_grouping_expr(&self, expr: &GroupingExpr) -> Result<String, SyntaxError> {
        Ok(format!("({})", expr.expression.accept(self)?))
    }

    fn visit_literal_expr(&self, expr: &LiteralExpr) -> Result<String, SyntaxError> {
        Ok(match &expr.value {
            None => "nil".to_string(),
            Some(Object::Number(n)) => n.to_string(),
            Some(Object::Text(s)) => s.clone(),
            Some(Object::Boolean(b)) => b.to_string(),
        })
    }

    fn visit_unary_expr(&self, expr: &UnaryExpr) -> Result<String, SyntaxError> {
        Ok(format!("{}{}", expr.operator.lexeme, expr.right.accept(self)?))
    }
}

#[derive(Default)]
struct Counter {
    binary: Cell<usize>,
    grouping: Cell<usize>,
    literal: Cell<usize>,
    unary: Cell<usize>,
    saw_no_value: Cell<bool>,
}

impl ExprVisitor<u8> for Counter {
    fn visit_binary_expr(&self, _expr: &BinaryExpr) -> Result<u8, SyntaxError> {
        self.binary.set(self.binary.get() + 1);
        Ok(1)
    }

    fn visit_grouping_expr(&self, _expr: &GroupingExpr) -> Result<u8, SyntaxError> {
        self.grouping.set(self.grouping.get() + 1);
        Ok(2)
    }

    fn visit_literal_expr(&self, expr: &LiteralExpr) -> Result<u8, SyntaxError> {
        self.literal.set(self.literal.get() + 1);
        self.saw_no_value.set(expr.value.is_none());
        Ok(3)
    }

    fn visit_unary_expr(&self, _expr: &UnaryExpr) -> Result<u8, SyntaxError> {
        self.unary.set(self.unary.get() + 1);
        Ok(4)
    }
}

struct Failing;

impl ExprVisitor<String> for Failing {
    fn visit_binary_expr(&self, _expr: &BinaryExpr) -> Result<String, SyntaxError> {
        Ok("binary".to_string())
    }

    fn visit_grouping_expr(&self, expr: &GroupingExpr) -> Result<String, SyntaxError> {
        expr.expression.accept(self)
    }

    fn visit_literal_expr(&self, _expr: &LiteralExpr) -> Result<String, SyntaxError> {
        Err(SyntaxError { line: 7, message: "cannot evaluate literal".to_string() })
    }

    fn visit_unary_expr(&self, _expr: &UnaryExpr) -> Result<String, SyntaxError> {
        Ok("unary".to_string())
    }
}

#[test]
fn printer_renders_binary_of_literals() {
    let tree = Expr::Binary(BinaryExpr { left: number(1), operator: token("+"), right: number(2) });
    assert_eq!(tree.accept(&Printer).ok(), Some("1 + 2".to_string()));
}

#[test]
fn printer_renders_nested_tree() {
    let inner = Expr::Binary(BinaryExpr { left: number(1), operator: token("+"), right: number(2) });
    let grouped = Expr::Grouping(GroupingExpr { expression: Box::new(inner) });
    let negated = Expr::Unary(UnaryExpr { operator: token("-"), right: Box::new(grouped) });
    let tree = Expr::Binary(BinaryExpr {
        left: Box::new(negated),
        operator: token("*"),
        right: Box::new(Expr::Literal(LiteralExpr { value: None })),
    });
    assert_eq!(tree.accept(&Printer).ok(), Some("-(1 + 2) * nil".to_string()));
}

#[test]
fn literal_without_value_calls_only_literal_method() {
    let counter = Counter::default();
    let tree = Expr::Literal(LiteralExpr { value: None });
    assert_eq!(tree.accept(&counter).ok(), Some(3));
    assert_eq!(counter.literal.get(), 1);
    assert!(counter.saw_no_value.get());
    assert_eq!(counter.binary.get(), 0);
    assert_eq!(counter.grouping.get(), 0);
    assert_eq!(counter.unary.get(), 0);
}

#[test]
fn binary_calls_only_binary_method_and_does_not_descend() {
    let counter = Counter::default();
    let tree = Expr::Binary(BinaryExpr { left: number(1), operator: token("+"), right: number(2) });
    assert_eq!(tree.accept(&counter).ok(), Some(1));
    assert_eq!(counter.binary.get(), 1);
    assert_eq!(counter.literal.get(), 0);
    assert_eq!(counter.grouping.get(), 0);
    assert_eq!(counter.unary.get(), 0);
}

#[test]
fn each_shape_reaches_its_own_method() {
    let counter = Counter::default();
    let grouping = GroupingExpr { expression: number(5) };
    assert_eq!(grouping.accept(&counter).ok(), Some(2));
    let unary = UnaryExpr { operator: token("!"), right: number(0) };
    assert_eq!(unary.accept(&counter).ok(), Some(4));
    let literal = LiteralExpr { value: Some(Object::Boolean(true)) };
    assert_eq!(literal.accept(&counter).ok(), Some(3));
    assert!(!counter.saw_no_value.get());
    assert_eq!(counter.grouping.get(), 1);
    assert_eq!(counter.unary.get(), 1);
    assert_eq!(counter.literal.get(), 1);
    assert_eq!(counter.binary.get(), 0);
}

#[test]
fn failure_inside_grouping_is_returned_unchanged() {
    let tree = Expr::Grouping(GroupingExpr {
        expression: Box::new(Expr::Literal(LiteralExpr { value: Some(Object::Text("x".to_string())) })),
    });
    match tree.accept(&Failing) {
        Err(e) => {
            assert_eq!(e.line, 7);
            assert_eq!(e.message, "cannot evaluate literal");
        }
        Ok(_) => panic!("the failure was lost"),
    }
}
