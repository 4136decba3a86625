//! The abstract syntax tree the translator consumes.
//!
//! The tree is handed in by an external parsing front-end; the translator
//! only reads it. Each enum closes with an `Other` variant standing for
//! every source-language form outside the supported subset, so that new
//! upstream forms are refused rather than silently mis-translated.

use vstd::prelude::*;

verus! {

/// A unary operator.
#[derive(Clone, Copy, Debug)]
pub enum UnOp {
    /// The length operator `#`.
    Length,
    /// Arithmetic negation.
    Minus,
    /// Unary plus.
    Plus,
    /// Any other unary operator; refused by the translator.
    Other,
}

/// A binary operator.
#[derive(Clone, Copy, Debug)]
pub enum BinOp {
    Add,
    Sub,
    Mul,
    Div,
    /// Floor division; rendered as plain division (integer-floor semantics
    /// are not reproduced).
    FloorDiv,
    Mod,
    /// String concatenation `..`.
    Concat,
    Equal,
    NotEqual,
    GreaterThan,
    GreaterEqual,
    LessThan,
    LessEqual,
    /// Any other binary operator; refused by the translator.
    Other,
}

/// A function or method call.
pub struct FunctionCall {
    /// The called expression, or the receiver when `method` is given.
    pub prefix: Box<Expression>,
    /// For a method call `recv:m(..)`, the method name `m`.
    pub method: Option<String>,
    /// The argument expressions.
    pub args: Vec<Expression>,
}

/// One field of a table constructor.
pub enum TableField {
    /// `[key] = value`.
    KeyValue { key: Expression, value: Expression },
    /// `name = value`.
    NameValue { name: String, value: Expression },
    /// A positional field without a key; refused by the translator.
    Positional { value: Expression },
}

/// An expression.
pub enum Expression {
    Ident { name: String },
    Bool { value: bool },
    /// A numeric literal, carried as its decimal text.
    Numeric { text: String },
    Nil,
    /// A string literal, carried as its raw bytes.
    Str { bytes: Vec<u8> },
    Unary { op: UnOp, operand: Box<Expression> },
    Binary { op: BinOp, lhs: Box<Expression>, rhs: Box<Expression> },
    Call(FunctionCall),
    Table { fields: Vec<TableField> },
    Index { table: Box<Expression>, index: Box<Expression> },
    /// Any other expression form; refused by the translator.
    Other,
}

/// One `elseif` arm of an `if` chain.
pub struct ElseIf {
    pub condition: Expression,
    pub block: Block,
}

/// The trailing return of a block, with zero or more value expressions.
pub struct ReturnStatement {
    pub values: Vec<Expression>,
}

/// The parameter list and body shared by function definitions.
pub struct FunctionBody {
    pub parameters: Vec<String>,
    /// Whether the parameter list ends in `...`; refused by the translator.
    pub variadic: bool,
    pub block: Block,
}

/// An ordered sequence of statements plus an optional trailing return.
pub struct Block {
    pub statements: Vec<Statement>,
    pub return_statement: Option<ReturnStatement>,
}

/// A statement.
pub enum Statement {
    /// The empty statement `;`.
    Empty,
    Assignment { targets: Vec<Expression>, values: Vec<Expression> },
    LocalDeclaration { names: Vec<String>, values: Option<Vec<Expression>> },
    If {
        condition: Box<Expression>,
        block: Block,
        else_ifs: Vec<ElseIf>,
        else_block: Option<Block>,
    },
    While { condition: Box<Expression>, block: Block },
    /// A numeric `for` loop.
    For {
        name: String,
        start: Box<Expression>,
        end: Box<Expression>,
        step: Box<Expression>,
        block: Block,
    },
    Break,
    /// A scoped `do .. end` block.
    Do { block: Block },
    Call(FunctionCall),
    FunctionDefinition { name: String, body: FunctionBody },
    LocalFunctionDefinition { name: String, body: FunctionBody },
    /// Any other statement form; refused by the translator.
    Other,
}

} // verus!
