//! The expression translator.
//!
//! [`render_expr`] states, as a recursive specification, exactly what text
//! one expression node translates to, or exactly which error refuses it;
//! [`expr_to_str`] is the executable translator proved equal to it. Both are
//! pure functions of the node alone: no surrounding context enters the
//! result.

use vstd::prelude::*;
use vstd::string::StringExecFns;

use crate::ast::{BinOp, Expression, FunctionCall, TableField, UnOp};
use crate::error::{Construct, TranslateError};
use crate::escape::{append_escaped, escape_bytes};

verus! {

/// The identifier reserved for the implicit method receiver in the target
/// language; a source identifier of this name is refused.
pub open spec fn reserved_name() -> Seq<char> {
    "this"@
}

/// The target-language operator substituted for a supported binary operator.
/// Floor division is rendered as plain division: the integer-floor semantics
/// of the source operator are not reproduced.
pub open spec fn bin_op_text(op: BinOp) -> Seq<char> {
    match op {
        BinOp::Add => "+"@,
        BinOp::Sub => "-"@,
        BinOp::Mul => "*"@,
        BinOp::Div => "/"@,
        BinOp::FloorDiv => "/"@,
        BinOp::Mod => "%"@,
        BinOp::Concat => "+"@,
        BinOp::Equal => "==="@,
        BinOp::NotEqual => "!=="@,
        BinOp::GreaterThan => ">"@,
        BinOp::GreaterEqual => ">="@,
        BinOp::LessThan => "<"@,
        BinOp::LessEqual => "<="@,
        BinOp::Other => Seq::empty(),
    }
}

/// The text an expression translates to, or the error that refuses it.
pub open spec fn render_expr(e: Expression) -> Result<Seq<char>, TranslateError>
    decreases e,
{
    match e {
        Expression::Ident { name } => {
            if name@ == reserved_name() {
                Err(TranslateError::IllegalIdentifier)
            } else {
                Ok(name@)
            }
        },
        Expression::Bool { value } => Ok(if value {
            "true"@
        } else {
            "false"@
        }),
        Expression::Numeric { text } => Ok(text@),
        Expression::Nil => Ok("undefined"@),
        Expression::Str { bytes } => Ok("\""@ + escape_bytes(bytes@) + "\""@),
        Expression::Unary { op, operand } => {
            if op is Other {
                Err(TranslateError::UnsupportedConstruct(Construct::UnaryOperator))
            } else {
                match render_expr(*operand) {
                    Err(err) => Err(err),
                    Ok(s) => Ok(
                        match op {
                            UnOp::Length => "("@ + s + ".length)"@,
                            UnOp::Minus => "(-"@ + s + ")"@,
                            _ => "(+"@ + s + ")"@,
                        },
                    ),
                }
            }
        },
        Expression::Binary { op, lhs, rhs } => {
            if op is Other {
                Err(TranslateError::UnsupportedConstruct(Construct::BinaryOperator))
            } else {
                match render_expr(*lhs) {
                    Err(err) => Err(err),
                    Ok(l) => match render_expr(*rhs) {
                        Err(err) => Err(err),
                        Ok(r) => Ok("("@ + l + bin_op_text(op) + r + ")"@),
                    },
                }
            }
        },
        Expression::Call(c) => render_call(c),
        Expression::Table { fields } => match render_fields(fields@) {
            Err(err) => Err(err),
            Ok(fs) => Ok("({"@ + fs + "})"@),
        },
        Expression::Index { table, index } => match render_expr(*table) {
            Err(err) => Err(err),
            Ok(t) => match render_expr(*index) {
                Err(err) => Err(err),
                Ok(i) => Ok("("@ + t + "["@ + i + "])"@),
            },
        },
        Expression::Other => Err(TranslateError::UnsupportedConstruct(Construct::ExpressionKind)),
    }
}

/// The text of a call. A plain call renders as `callee(args)`. A method
/// call renders its receiver once as the syntactic receiver before the dot
/// and once more as the explicit first argument, reproducing the source
/// language's implicit-self convention.
pub open spec fn render_call(c: FunctionCall) -> Result<Seq<char>, TranslateError>
    decreases c,
{
    match render_expr(*c.prefix) {
        Err(err) => Err(err),
        Ok(p) => match render_args(c.args@) {
            Err(err) => Err(err),
            Ok(a) => Ok(
                match c.method {
                    Some(m) => p + "."@ + m@ + "("@ + p + (if c.args@.len() == 0 {
                        Seq::<char>::empty()
                    } else {
                        ", "@ + a
                    }) + ")"@,
                    None => p + "("@ + a + ")"@,
                },
            ),
        },
    }
}

/// The comma-separated text of an argument list, or its first error.
pub open spec fn render_args(args: Seq<Expression>) -> Result<Seq<char>, TranslateError>
    decreases args,
{
    if args.len() == 0 {
        Ok(Seq::empty())
    } else {
        match render_expr(args[0]) {
            Err(err) => Err(err),
            Ok(first) => match render_args(args.subrange(1, args.len() as int)) {
                Err(err) => Err(err),
                Ok(rest) => Ok(
                    if args.len() == 1 {
                        first
                    } else {
                        first + ", "@ + rest
                    },
                ),
            },
        }
    }
}

/// The text of one table field, or the error that refuses it. A field
/// without a key is refused: no positional fallback is attempted.
pub open spec fn render_field(f: TableField) -> Result<Seq<char>, TranslateError>
    decreases f,
{
    match f {
        TableField::KeyValue { key, value } => match render_expr(key) {
            Err(err) => Err(err),
            Ok(k) => match render_expr(value) {
                Err(err) => Err(err),
                Ok(v) => Ok(k + ": "@ + v),
            },
        },
        TableField::NameValue { name, value } => match render_expr(value) {
            Err(err) => Err(err),
            Ok(v) => Ok("\""@ + name@ + "\": "@ + v),
        },
        TableField::Positional { .. } => Err(
            TranslateError::UnsupportedConstruct(Construct::KeylessTableField),
        ),
    }
}

/// The comma-separated text of a table's fields, or its first error.
pub open spec fn render_fields(fields: Seq<TableField>) -> Result<Seq<char>, TranslateError>
    decreases fields,
{
    if fields.len() == 0 {
        Ok(Seq::empty())
    } else {
        match render_field(fields[0]) {
            Err(err) => Err(err),
            Ok(first) => match render_fields(fields.subrange(1, fields.len() as int)) {
                Err(err) => Err(err),
                Ok(rest) => Ok(
                    if fields.len() == 1 {
                        first
                    } else {
                        first + ", "@ + rest
                    },
                ),
            },
        }
    }
}

/// The view of an executable text result, for stating that an executable
/// translator returns exactly what its specification says.
pub open spec fn text_result(r: Result<String, TranslateError>) -> Result<
    Seq<char>,
    TranslateError,
> {
    match r {
        Ok(s) => Ok(s@),
        Err(err) => Err(err),
    }
}

/// Whether `name` is the reserved method-receiver identifier.
fn is_reserved(name: &String) -> (r: bool)
    ensures
        r == (name@ == reserved_name()),
{
    let reserved: String = "this".to_owned();
    *name == reserved
}

/// The target-language operator for a supported binary operator.
fn bin_op_str(op: BinOp) -> (r: &'static str)
    requires
        !(op is Other),
    ensures
        r@ == bin_op_text(op),
{
    match op {
        BinOp::Add => "+",
        BinOp::Sub => "-",
        BinOp::Mul => "*",
        BinOp::Div => "/",
        BinOp::FloorDiv => "/",
        BinOp::Mod => "%",
        BinOp::Concat => "+",
        BinOp::Equal => "===",
        BinOp::NotEqual => "!==",
        BinOp::GreaterThan => ">",
        BinOp::GreaterEqual => ">=",
        BinOp::LessThan => "<",
        BinOp::LessEqual => "<=",
        BinOp::Other => "",
    }
}

/// Translates one expression node, returning exactly the text that
/// [`render_expr`] gives it, or exactly the error that refuses it.
pub fn expr_to_str(e: &Expression) -> (r: Result<String, TranslateError>)
    ensures
        text_result(r) == render_expr(*e),
    decreases *e,
{
    match e {
        Expression::Ident { name } => {
            if is_reserved(name) {
                Err(TranslateError::IllegalIdentifier)
            } else {
                Ok(name.clone())
            }
        },
        Expression::Bool { value } => {
            if *value {
                Ok("true".to_owned())
            } else {
                Ok("false".to_owned())
            }
        },
        Expression::Numeric { text } => Ok(text.clone()),
        Expression::Nil => Ok("undefined".to_owned()),
        Expression::Str { bytes } => {
            let mut s = String::new();
            s.append("\"");
            append_escaped(&mut s, bytes);
            s.append("\"");
            proof {
                assert(s@ =~= "\""@ + escape_bytes(bytes@) + "\""@);
            }
            Ok(s)
        },
        Expression::Unary { op, operand } => {
            let op = *op;
            if matches!(op, UnOp::Other) {
                return Err(TranslateError::UnsupportedConstruct(Construct::UnaryOperator));
            }
            let inner = match expr_to_str(operand) {
                Ok(t) => t,
                Err(err) => {
                    return Err(err);
                },
            };
            let mut s = String::new();
            match op {
                UnOp::Length => {
                    s.append("(");
                    s.append(inner.as_str());
                    s.append(".length)");
                },
                UnOp::Minus => {
                    s.append("(-");
                    s.append(inner.as_str());
                    s.append(")");
                },
                _ => {
                    s.append("(+");
                    s.append(inner.as_str());
                    s.append(")");
                },
            }
            proof {
                match op {
                    UnOp::Length => assert(s@ =~= "("@ + inner@ + ".length)"@),
                    UnOp::Minus => assert(s@ =~= "(-"@ + inner@ + ")"@),
                    _ => assert(s@ =~= "(+"@ + inner@ + ")"@),
                }
            }
            Ok(s)
        },
        Expression::Binary { op, lhs, rhs } => {
            let op = *op;
            if matches!(op, BinOp::Other) {
                return Err(TranslateError::UnsupportedConstruct(Construct::BinaryOperator));
            }
            let l = match expr_to_str(lhs) {
                Ok(t) => t,
                Err(err) => {
                    return Err(err);
                },
            };
            let r = match expr_to_str(rhs) {
                Ok(t) => t,
                Err(err) => {
                    return Err(err);
                },
            };
            let mut s = String::new();
            s.append("(");
            s.append(l.as_str());
            s.append(bin_op_str(op));
            s.append(r.as_str());
            s.append(")");
            proof {
                assert(s@ =~= "("@ + l@ + bin_op_text(op) + r@ + ")"@);
            }
            Ok(s)
        },
        Expression::Call(c) => funcall_to_string(c),
        Expression::Table { fields } => {
            let fs = match fields_to_str(fields) {
                Ok(t) => t,
                Err(err) => {
                    return Err(err);
                },
            };
            let mut s = String::new();
            s.append("({");
            s.append(fs.as_str());
            s.append("})");
            proof {
                assert(s@ =~= "({"@ + fs@ + "})"@);
            }
            Ok(s)
        },
        Expression::Index { table, index } => {
            let t = match expr_to_str(table) {
                Ok(t) => t,
                Err(err) => {
                    return Err(err);
                },
            };
            let ix = match expr_to_str(index) {
                Ok(t) => t,
                Err(err) => {
                    return Err(err);
                },
            };
            let mut s = String::new();
            s.append("(");
            s.append(t.as_str());
            s.append("[");
            s.append(ix.as_str());
            s.append("])");
            proof {
                assert(s@ =~= "("@ + t@ + "["@ + ix@ + "])"@);
            }
            Ok(s)
        },
        Expression::Other => Err(TranslateError::UnsupportedConstruct(Construct::ExpressionKind)),
    }
}

/// Translates a call node, returning exactly what [`render_call`] gives it.
pub fn funcall_to_string(c: &FunctionCall) -> (r: Result<String, TranslateError>)
    ensures
        text_result(r) == render_call(*c),
    decreases *c,
{
    let p = match expr_to_str(&c.prefix) {
        Ok(t) => t,
        Err(err) => {
            return Err(err);
        },
    };
    let a = match args_to_str(&c.args) {
        Ok(t) => t,
        Err(err) => {
            return Err(err);
        },
    };
    let mut s = String::new();
    match &c.method {
        Some(m) => {
            s.append(p.as_str());
            s.append(".");
            s.append(m.as_str());
            s.append("(");
            s.append(p.as_str());
            if c.args.len() > 0 {
                s.append(", ");
                s.append(a.as_str());
            }
            s.append(")");
            proof {
                if c.args@.len() == 0 {
                    assert(s@ =~= p@ + "."@ + m@ + "("@ + p@ + Seq::<char>::empty() + ")"@);
                } else {
                    assert(s@ =~= p@ + "."@ + m@ + "("@ + p@ + (", "@ + a@) + ")"@);
                }
            }
        },
        None => {
            s.append(p.as_str());
            s.append("(");
            s.append(a.as_str());
            s.append(")");
            proof {
                assert(s@ =~= p@ + "("@ + a@ + ")"@);
            }
        },
    }
    Ok(s)
}

/// Translates an argument list to its comma-separated text.
fn args_to_str(args: &Vec<Expression>) -> (r: Result<String, TranslateError>)
    ensures
        text_result(r) == render_args(args@),
    decreases *args,
{
    let n = args.len();
    let mut s = String::new();
    let mut i: usize = 0;
    proof {
        assert(args@.subrange(0, n as int) =~= args@);
    }
    while i < n
        invariant
            n == args@.len(),
            i <= n,
            (match render_args(args@.subrange(i as int, n as int)) {
                Err(err) => render_args(args@) == Err::<Seq<char>, TranslateError>(err),
                Ok(rest) => render_args(args@) == Ok::<Seq<char>, TranslateError>(s@ + rest),
            }),
        decreases n - i,
    {
        let ghost suffix = args@.subrange(i as int, n as int);
        proof {
            assert(suffix[0] == args@[i as int]);
            assert(suffix.subrange(1, suffix.len() as int) =~= args@.subrange(
                i as int + 1,
                n as int,
            ));
        }
        let ghost s0 = s@;
        let t = match expr_to_str(&args[i]) {
            Ok(t) => t,
            Err(err) => {
                return Err(err);
            },
        };
        s.append(t.as_str());
        if i + 1 < n {
            s.append(", ");
        }
        proof {
            let tail = args@.subrange(i as int + 1, n as int);
            match render_args(tail) {
                Ok(rest) => {
                    if i + 1 < n {
                        assert(s@ =~= s0 + t@ + ", "@);
                        assert(s0 + (t@ + ", "@ + rest) =~= s@ + rest);
                    } else {
                        assert(rest =~= Seq::<char>::empty());
                        assert(s@ + rest =~= s0 + t@);
                    }
                },
                Err(_) => {},
            }
        }
        i = i + 1;
    }
    proof {
        assert(args@.subrange(n as int, n as int) =~= Seq::<Expression>::empty());
        assert(s@ + Seq::<char>::empty() =~= s@);
    }
    Ok(s)
}

/// Translates a table's fields to their comma-separated text.
fn fields_to_str(fields: &Vec<TableField>) -> (r: Result<String, TranslateError>)
    ensures
        text_result(r) == render_fields(fields@),
    decreases *fields,
{
    let n = fields.len();
    let mut s = String::new();
    let mut i: usize = 0;
    proof {
        assert(fields@.subrange(0, n as int) =~= fields@);
    }
    while i < n
        invariant
            n == fields@.len(),
            i <= n,
            (match render_fields(fields@.subrange(i as int, n as int)) {
                Err(err) => render_fields(fields@) == Err::<Seq<char>, TranslateError>(err),
                Ok(rest) => render_fields(fields@) == Ok::<Seq<char>, TranslateError>(s@ + rest),
            }),
        decreases n - i,
    {
        let ghost suffix = fields@.subrange(i as int, n as int);
        proof {
            assert(suffix[0] == fields@[i as int]);
            assert(suffix.subrange(1, suffix.len() as int) =~= fields@.subrange(
                i as int + 1,
                n as int,
            ));
        }
        let ghost s0 = s@;
        match &fields[i] {
            TableField::KeyValue { key, value } => {
                let k = match expr_to_str(key) {
                    Ok(t) => t,
                    Err(err) => {
                        return Err(err);
                    },
                };
                let v = match expr_to_str(value) {
                    Ok(t) => t,
                    Err(err) => {
                        return Err(err);
                    },
                };
                s.append(k.as_str());
                s.append(": ");
                s.append(v.as_str());
                proof {
                    assert(s@ =~= s0 + (k@ + ": "@ + v@));
                }
            },
            TableField::NameValue { name, value } => {
                let v = match expr_to_str(value) {
                    Ok(t) => t,
                    Err(err) => {
                        return Err(err);
                    },
                };
                s.append("\"");
                s.append(name.as_str());
                s.append("\": ");
                s.append(v.as_str());
                proof {
                    assert(s@ =~= s0 + ("\""@ + name@ + "\": "@ + v@));
                }
            },
            TableField::Positional { .. } => {
                return Err(TranslateError::UnsupportedConstruct(Construct::KeylessTableField));
            },
        }
        let ghost s1 = s@;
        if i + 1 < n {
            s.append(", ");
        }
        proof {
            let tail = fields@.subrange(i as int + 1, n as int);
            match render_field(suffix[0]) {
                Ok(ft) => {
                    assert(s1 == s0 + ft);
                    match render_fields(tail) {
                        Ok(rest) => {
                            if i + 1 < n {
                                assert(s@ =~= s1 + ", "@);
                                assert(s0 + (ft + ", "@ + rest) =~= s@ + rest);
                            } else {
                                assert(rest =~= Seq::<char>::empty());
                                assert(s@ + rest =~= s0 + ft);
                            }
                        },
                        Err(_) => {},
                    }
                },
                Err(_) => {},
            }
        }
        i = i + 1;
    }
    proof {
        assert(fields@.subrange(n as int, n as int) =~= Seq::<TableField>::empty());
        assert(s@ + Seq::<char>::empty() =~= s@);
    }
    Ok(s)
}

/// Translating a literal is a pure textual substitution: the result is
/// fixed by the literal alone. Since [`render_expr`] is a function of the
/// node and nothing else, two translations of equal literals are equal, and
/// no surrounding context enters the result.
pub proof fn lemma_literal_rendering(e: Expression)
    ensures
        e matches Expression::Bool { value } ==> render_expr(e) == Ok::<Seq<char>, TranslateError>(
            if value {
                "true"@
            } else {
                "false"@
            },
        ),
        e matches Expression::Numeric { text } ==> render_expr(e) == Ok::<
            Seq<char>,
            TranslateError,
        >(text@),
        e is Nil ==> render_expr(e) == Ok::<Seq<char>, TranslateError>("undefined"@),
{
}

/// A method-style call threads its receiver exactly twice: once as the
/// syntactic receiver before the dot, and once more as the explicit first
/// argument, ahead of the argument list.
pub proof fn lemma_method_call_receiver(c: FunctionCall, p: Seq<char>, m: String, a: Seq<char>)
    requires
        c.method == Some(m),
        render_expr(*c.prefix) == Ok::<Seq<char>, TranslateError>(p),
        render_args(c.args@) == Ok::<Seq<char>, TranslateError>(a),
    ensures
        render_call(c) == Ok::<Seq<char>, TranslateError>(
            p + "."@ + m@ + "("@ + p + (if c.args@.len() == 0 {
                Seq::<char>::empty()
            } else {
                ", "@ + a
            }) + ")"@,
        ),
{
}

} // verus!
