use builder_macro::builder::BuilderField;
use builder_macro::state::{BuilderState, MissingStyle};

#[derive(PartialEq, Debug, Clone)]
pub enum Expr {
    Binary(BinaryExpr),
    Literal(i32),
}

impl From<BinaryExpr> for Expr {
    fn from(expr: BinaryExpr) -> Self {
        Expr::Binary(expr)
    }
}

impl From<i32> for Expr {
    fn from(literal: i32) -> Self {
        Expr::Literal(literal)
    }
}

#[derive(PartialEq, Debug, Clone)]
pub struct BinaryExpr {
    pub lhs: Box<Expr>,
    pub op: BinOp,
    pub rhs: Box<Expr>,
}

#[derive(Clone, Copy, PartialEq, Debug)]
pub enum BinOp {
    Add,
    Sub,
    Mul,
    Div,
}

#[derive(Debug, Clone, PartialEq)]
enum Val {
    E(Box<Expr>),
    Op(BinOp),
}

fn binary_expr_builder() -> BuilderState<Val> {
    let fields = vec![
        BuilderField::new("lhs".to_string(), "Box<Expr>".to_string(), None, false),
        BuilderField::new("op".to_string(), "BinOp".to_string(), None, false),
        BuilderField::new("rhs".to_string(), "Box<Expr>".to_string(), None, false),
    ];
    BuilderState::new(fields, vec![None, None, None], MissingStyle::Labeled)
}

fn into_binary_expr(values: Vec<Val>) -> BinaryExpr {
    let mut it = values.into_iter();
    let lhs = match it.next().unwrap() {
        Val::E(e) => e,
        other => panic!("lhs: {:?}", other),
    };
    let op = match it.next().unwrap() {
        Val::Op(op) => op,
        other => panic!("op: {:?}", other),
    };
    let rhs = match it.next().unwrap() {
        Val::E(e) => e,
        other => panic!("rhs: {:?}", other),
    };
    BinaryExpr { lhs, op, rhs }
}

#[test]
fn test_ast() {
    let inner = into_binary_expr(
        binary_expr_builder()
            .set("lhs", Val::E(Box::new(34.into())))
            .set("op", Val::Op(BinOp::Mul))
            .set("rhs", Val::E(Box::new(56.into())))
            .build()
            .unwrap(),
    );
    let expr = into_binary_expr(
        binary_expr_builder()
            .set("lhs", Val::E(Box::new(12.into())))
            .set("op", Val::Op(BinOp::Add))
            .set("rhs", Val::E(Box::new(inner.into())))
            .build()
            .unwrap(),
    );

    assert_eq!(
        expr,
        BinaryExpr {
            lhs: Box::new(Expr::Literal(12)),
            op: BinOp::Add,
            rhs: Box::new(Expr::Binary(BinaryExpr {
                lhs: Box::new(Expr::Literal(34)),
                op: BinOp::Mul,
                rhs: Box::new(Expr::Literal(56)),
            })),
        }
    );
}
