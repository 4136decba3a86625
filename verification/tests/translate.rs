use lua2js::ast::{
    BinOp, Block, ElseIf, Expression, FunctionBody, FunctionCall, ReturnStatement, Statement,
    TableField, UnOp,
};
use lua2js::block::{translate, BlockWriter};
use lua2js::error::{Construct, TranslateError};
use lua2js::expr::expr_to_str;

fn ident(name: &str) -> Expression {
    Expression::Ident { name: name.to_string() }
}

fn num(text: &str) -> Expression {
    Expression::Numeric { text: text.to_string() }
}

fn binary(op: BinOp, lhs: Expression, rhs: Expression) -> Expression {
    Expression::Binary { op, lhs: Box::new(lhs), rhs: Box::new(rhs) }
}

fn unary(op: UnOp, operand: Expression) -> Expression {
    Expression::Unary { op, operand: Box::new(operand) }
}

fn block(statements: Vec<Statement>, values: Option<Vec<Expression>>) -> Block {
    Block {
        statements,
        return_statement: values.map(|values| ReturnStatement { values }),
    }
}

fn local(name: &str, value: Expression) -> Statement {
    Statement::LocalDeclaration {
        names: vec![name.to_string()],
        values: Some(vec![value]),
    }
}

fn expr_text(e: Expression) -> String {
    expr_to_str(&e).expect("expression should translate")
}

fn expr_err(e: Expression) -> TranslateError {
    expr_to_str(&e).expect_err("expression should be refused")
}

fn unsupported(c: Construct) -> TranslateError {
    TranslateError::UnsupportedConstruct(c)
}

#[test]
fn literal_booleans_nil_and_numbers() {
    assert_eq!(expr_text(Expression::Bool { value: true }), "true");
    assert_eq!(expr_text(Expression::Bool { value: false }), "false");
    assert_eq!(expr_text(Expression::Nil), "undefined");
    assert_eq!(expr_text(num("42")), "42");
    assert_eq!(expr_text(num("3.5")), "3.5");
}

#[test]
fn literal_translation_is_repeatable() {
    let a = expr_text(num("7"));
    let b = expr_text(num("7"));
    assert_eq!(a, b);
    assert_eq!(a, "7");
}

#[test]
fn string_literal_escapes_every_byte() {
    let e = Expression::Str { bytes: vec![0x00, 0x41, 0xff, 0x0a] };
    assert_eq!(expr_text(e), "\"\\x00\\x41\\xff\\x0a\"");
}

#[test]
fn string_literal_round_trips_bytes() {
    let bytes: Vec<u8> = (0u8..=255).collect();
    let text = expr_text(Expression::Str { bytes: bytes.clone() });
    let inner = &text[1..text.len() - 1];
    let decoded: Vec<u8> = inner
        .as_bytes()
        .chunks(4)
        .map(|group| {
            assert_eq!(&group[..2], b"\\x");
            u8::from_str_radix(std::str::from_utf8(&group[2..]).unwrap(), 16).unwrap()
        })
        .collect();
    assert_eq!(decoded, bytes);
}

#[test]
fn binary_operator_substitution() {
    let cases = [
        (BinOp::Add, "(1+2)"),
        (BinOp::Sub, "(1-2)"),
        (BinOp::Mul, "(1*2)"),
        (BinOp::Div, "(1/2)"),
        (BinOp::FloorDiv, "(1/2)"),
        (BinOp::Mod, "(1%2)"),
        (BinOp::Concat, "(1+2)"),
        (BinOp::Equal, "(1===2)"),
        (BinOp::NotEqual, "(1!==2)"),
        (BinOp::GreaterThan, "(1>2)"),
        (BinOp::GreaterEqual, "(1>=2)"),
        (BinOp::LessThan, "(1<2)"),
        (BinOp::LessEqual, "(1<=2)"),
    ];
    for (op, expected) in cases {
        assert_eq!(expr_text(binary(op, num("1"), num("2"))), expected);
    }
}

#[test]
fn unary_operators() {
    assert_eq!(expr_text(unary(UnOp::Length, ident("a"))), "(a.length)");
    assert_eq!(expr_text(unary(UnOp::Minus, num("1"))), "(-1)");
    assert_eq!(expr_text(unary(UnOp::Plus, num("1"))), "(+1)");
}

#[test]
fn table_index() {
    let e = Expression::Index { table: Box::new(ident("a")), index: Box::new(num("1")) };
    assert_eq!(expr_text(e), "(a[1])");
}

#[test]
fn table_literal_with_keys_and_names() {
    let e = Expression::Table {
        fields: vec![
            TableField::NameValue { name: "a".to_string(), value: num("1") },
            TableField::KeyValue { key: ident("k"), value: num("2") },
        ],
    };
    assert_eq!(expr_text(e), "({\"a\": 1, k: 2})");
}

#[test]
fn keyless_table_field_is_refused() {
    let e = Expression::Table {
        fields: vec![TableField::Positional { value: num("1") }],
    };
    assert_eq!(expr_err(e), unsupported(Construct::KeylessTableField));
}

#[test]
fn reserved_identifier_is_refused() {
    assert_eq!(expr_err(ident("this")), TranslateError::IllegalIdentifier);
}

#[test]
fn reserved_identifier_is_refused_inside_a_block() {
    let b = block(vec![], Some(vec![ident("this")]));
    assert_eq!(translate(&b).unwrap_err(), TranslateError::IllegalIdentifier);
}

#[test]
fn plain_call() {
    let e = Expression::Call(FunctionCall {
        prefix: Box::new(ident("f")),
        method: None,
        args: vec![num("1"), num("2")],
    });
    assert_eq!(expr_text(e), "f(1, 2)");
}

#[test]
fn method_call_threads_receiver_as_first_argument() {
    let e = Expression::Call(FunctionCall {
        prefix: Box::new(ident("obj")),
        method: Some("m".to_string()),
        args: vec![ident("x")],
    });
    assert_eq!(expr_text(e), "obj.m(obj, x)");
}

#[test]
fn method_call_without_arguments_still_passes_receiver() {
    let e = Expression::Call(FunctionCall {
        prefix: Box::new(ident("obj")),
        method: Some("m".to_string()),
        args: vec![],
    });
    assert_eq!(expr_text(e), "obj.m(obj)");
}

#[test]
fn unsupported_forms_are_refused() {
    assert_eq!(expr_err(Expression::Other), unsupported(Construct::ExpressionKind));
    assert_eq!(
        expr_err(unary(UnOp::Other, num("1"))),
        unsupported(Construct::UnaryOperator)
    );
    assert_eq!(
        expr_err(binary(BinOp::Other, num("1"), num("2"))),
        unsupported(Construct::BinaryOperator)
    );
    let b = block(vec![Statement::Other], None);
    assert_eq!(translate(&b).unwrap_err(), unsupported(Construct::StatementKind));
}

#[test]
fn local_then_return() {
    let b = block(vec![local("x", num("1"))], Some(vec![ident("x")]));
    assert_eq!(translate(&b).unwrap(), "var x = 1;\nreturn x;\n");
}

#[test]
fn if_else_with_comparison() {
    let b = block(
        vec![Statement::If {
            condition: Box::new(binary(BinOp::GreaterThan, ident("x"), num("0"))),
            block: block(vec![], Some(vec![num("1")])),
            else_ifs: vec![],
            else_block: Some(block(vec![], Some(vec![unary(UnOp::Minus, num("1"))]))),
        }],
        None,
    );
    assert_eq!(
        translate(&b).unwrap(),
        "if ((x>0)) {\n    return 1;\n}\nelse {\n    return (-1);\n}\n"
    );
}

#[test]
fn else_if_chain() {
    let b = block(
        vec![Statement::If {
            condition: Box::new(ident("a")),
            block: block(vec![Statement::Break], None),
            else_ifs: vec![ElseIf {
                condition: ident("b"),
                block: block(vec![Statement::Empty], None),
            }],
            else_block: None,
        }],
        None,
    );
    assert_eq!(
        translate(&b).unwrap(),
        "if (a) {\n    break;\n}\nelse if (b) {\n    ;\n}\n"
    );
}

#[test]
fn nesting_depth_matches_indentation() {
    let inner = Statement::While {
        condition: Box::new(ident("b")),
        block: block(vec![Statement::Break], None),
    };
    let outer = Statement::While {
        condition: Box::new(ident("a")),
        block: block(vec![inner], None),
    };
    let b = block(vec![outer], None);
    assert_eq!(
        translate(&b).unwrap(),
        "while (a) {\n    while (b) {\n        break;\n    }\n}\n"
    );
}

#[test]
fn numeric_for_is_textual() {
    let b = block(
        vec![Statement::For {
            name: "i".to_string(),
            start: Box::new(num("1")),
            end: Box::new(num("10")),
            step: Box::new(num("2")),
            block: block(vec![Statement::Break], None),
        }],
        None,
    );
    assert_eq!(
        translate(&b).unwrap(),
        "for (var i = 1; 10; 2) {\n    break;\n}\n"
    );
}

#[test]
fn do_block_becomes_an_iife() {
    let b = block(
        vec![Statement::Do { block: block(vec![local("x", num("1"))], None) }],
        None,
    );
    assert_eq!(translate(&b).unwrap(), "(function() {\n    var x = 1;\n})();\n");
}

#[test]
fn assignment_and_bare_call() {
    let call = FunctionCall {
        prefix: Box::new(ident("f")),
        method: None,
        args: vec![num("1")],
    };
    let b = block(
        vec![
            Statement::Assignment { targets: vec![ident("x")], values: vec![num("2")] },
            Statement::Call(call),
            Statement::Empty,
        ],
        None,
    );
    assert_eq!(translate(&b).unwrap(), "x = 2;\nf(1);\n;\n");
}

#[test]
fn function_definitions() {
    let body = FunctionBody {
        parameters: vec!["a".to_string(), "b".to_string()],
        variadic: false,
        block: block(vec![], Some(vec![ident("a")])),
    };
    let b = block(
        vec![Statement::FunctionDefinition { name: "f".to_string(), body }],
        None,
    );
    assert_eq!(
        translate(&b).unwrap(),
        "function f(a, b) {\n    return a;\n}\n"
    );
}

#[test]
fn local_function_definition() {
    let body = FunctionBody {
        parameters: vec!["a".to_string()],
        variadic: false,
        block: block(vec![], Some(vec![ident("a")])),
    };
    let b = block(
        vec![Statement::LocalFunctionDefinition { name: "f".to_string(), body }],
        None,
    );
    assert_eq!(
        translate(&b).unwrap(),
        "var f = (a) => {\n    return a;\n};\n"
    );
}

#[test]
fn bare_return_without_value() {
    let b = block(vec![], Some(vec![]));
    assert_eq!(translate(&b).unwrap(), "return;\n");
}

#[test]
fn parallel_assignment_is_refused() {
    let b = block(
        vec![Statement::Assignment {
            targets: vec![ident("x"), ident("y")],
            values: vec![num("1")],
        }],
        None,
    );
    assert_eq!(translate(&b).unwrap_err(), unsupported(Construct::AssignmentArity));
}

#[test]
fn multi_name_local_is_refused() {
    let b = block(
        vec![Statement::LocalDeclaration {
            names: vec!["x".to_string(), "y".to_string()],
            values: Some(vec![num("1"), num("2")]),
        }],
        None,
    );
    assert_eq!(translate(&b).unwrap_err(), unsupported(Construct::LocalNameArity));
}

#[test]
fn local_without_initializer_is_refused() {
    let b = block(
        vec![Statement::LocalDeclaration { names: vec!["x".to_string()], values: None }],
        None,
    );
    assert_eq!(translate(&b).unwrap_err(), unsupported(Construct::LocalWithoutValue));
}

#[test]
fn local_with_extra_initializers_is_refused() {
    let b = block(
        vec![Statement::LocalDeclaration {
            names: vec!["x".to_string()],
            values: Some(vec![num("1"), num("2")]),
        }],
        None,
    );
    assert_eq!(translate(&b).unwrap_err(), unsupported(Construct::LocalValueArity));
}

#[test]
fn multiple_return_values_are_refused() {
    let b = block(vec![], Some(vec![num("1"), num("2")]));
    assert_eq!(
        translate(&b).unwrap_err(),
        unsupported(Construct::MultipleReturnValues)
    );
}

#[test]
fn variadic_function_is_refused() {
    let body = FunctionBody {
        parameters: vec![],
        variadic: true,
        block: block(vec![], None),
    };
    let b = block(
        vec![Statement::FunctionDefinition { name: "f".to_string(), body }],
        None,
    );
    assert_eq!(
        translate(&b).unwrap_err(),
        unsupported(Construct::VariadicParameters)
    );
}

#[test]
fn variadic_local_function_is_refused() {
    let body = FunctionBody {
        parameters: vec![],
        variadic: true,
        block: block(vec![], None),
    };
    let b = block(
        vec![Statement::LocalFunctionDefinition { name: "f".to_string(), body }],
        None,
    );
    assert_eq!(
        translate(&b).unwrap_err(),
        unsupported(Construct::VariadicParameters)
    );
}

#[test]
fn error_aborts_whole_translation() {
    let b = block(
        vec![local("x", num("1")), Statement::Other],
        Some(vec![ident("x")]),
    );
    assert_eq!(translate(&b).unwrap_err(), unsupported(Construct::StatementKind));
}

#[test]
fn block_writer_starts_at_depth_zero() {
    let b = block(vec![local("x", num("1"))], None);
    let written = BlockWriter::new().write_block(&b).unwrap();
    assert_eq!(written, translate(&b).unwrap());
    assert_eq!(written, "var x = 1;\n");
}
