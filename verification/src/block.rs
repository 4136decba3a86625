//! The block writer.
//!
//! A block renders to a sequence of output lines, one construct per line,
//! with nested blocks spliced in after gaining exactly one four-space
//! indentation unit per nesting level. [`render_block`] states the lines a
//! block produces, or the error refusing it; [`BlockWriter::write_block`]
//! and [`translate`] are the executable writers proved equal to it. An
//! error result carries no lines at all: a failed translation produces no
//! output.

use vstd::prelude::*;
use vstd::string::StringExecFns;

use crate::ast::{Block, ElseIf, ReturnStatement, Statement};
use crate::error::{Construct, TranslateError};
use crate::expr::{expr_to_str, funcall_to_string, render_call, render_expr, text_result};

verus! {

/// One indentation unit: four spaces.
pub open spec fn indent_unit() -> Seq<char> {
    "    "@
}

/// Every line of `lines`, each prefixed with exactly one indentation unit.
pub open spec fn indent_lines(lines: Seq<Seq<char>>) -> Seq<Seq<char>> {
    Seq::new(lines.len(), |i: int| indent_unit() + lines[i])
}

/// `n` indentation units.
pub open spec fn repeat_indent(n: nat) -> Seq<char>
    decreases n,
{
    if n == 0 {
        Seq::empty()
    } else {
        repeat_indent((n - 1) as nat) + indent_unit()
    }
}

/// `lines` after being spliced `n` nesting levels deep.
pub open spec fn indent_n(lines: Seq<Seq<char>>, n: nat) -> Seq<Seq<char>>
    decreases n,
{
    if n == 0 {
        lines
    } else {
        indent_lines(indent_n(lines, (n - 1) as nat))
    }
}

/// The comma-separated text of a parameter-name list.
pub open spec fn join_params(names: Seq<String>) -> Seq<char>
    decreases names,
{
    if names.len() == 0 {
        Seq::empty()
    } else if names.len() == 1 {
        names[0]@
    } else {
        names[0]@ + ", "@ + join_params(names.subrange(1, names.len() as int))
    }
}

/// The lines of a trailing return, or the error that refuses it.
pub open spec fn render_return(r: ReturnStatement) -> Result<Seq<Seq<char>>, TranslateError>
    decreases r,
{
    if r.values@.len() > 1 {
        Err(TranslateError::UnsupportedConstruct(Construct::MultipleReturnValues))
    } else if r.values@.len() == 0 {
        Ok(seq!["return;"@])
    } else {
        match render_expr(r.values@[0]) {
            Err(err) => Err(err),
            Ok(v) => Ok(seq!["return "@ + v + ";"@]),
        }
    }
}

/// The lines of one statement, or the error that refuses it. The lines of
/// a nested block appear with one added indentation unit.
pub open spec fn render_stmt(s: Statement) -> Result<Seq<Seq<char>>, TranslateError>
    decreases s,
{
    match s {
        Statement::Empty => Ok(seq![";"@]),
        Statement::Assignment { targets, values } => {
            if targets@.len() != 1 || values@.len() != 1 {
                Err(TranslateError::UnsupportedConstruct(Construct::AssignmentArity))
            } else {
                match render_expr(targets@[0]) {
                    Err(err) => Err(err),
                    Ok(t) => match render_expr(values@[0]) {
                        Err(err) => Err(err),
                        Ok(v) => Ok(seq![t + " = "@ + v + ";"@]),
                    },
                }
            }
        },
        Statement::LocalDeclaration { names, values } => {
            if names@.len() != 1 {
                Err(TranslateError::UnsupportedConstruct(Construct::LocalNameArity))
            } else {
                match values {
                    None => Err(TranslateError::UnsupportedConstruct(Construct::LocalWithoutValue)),
                    Some(vs) => {
                        if vs@.len() != 1 {
                            Err(TranslateError::UnsupportedConstruct(Construct::LocalValueArity))
                        } else {
                            match render_expr(vs@[0]) {
                                Err(err) => Err(err),
                                Ok(v) => Ok(seq!["var "@ + names@[0]@ + " = "@ + v + ";"@]),
                            }
                        }
                    },
                }
            }
        },
        Statement::If { condition, block, else_ifs, else_block } => {
            match render_expr(*condition) {
                Err(err) => Err(err),
                Ok(c) => match render_block(block) {
                    Err(err) => Err(err),
                    Ok(body) => match render_elseifs(else_ifs@) {
                        Err(err) => Err(err),
                        Ok(ei) => {
                            let head = seq!["if ("@ + c + ") {"@] + indent_lines(body) + seq![
                                "}"@,
                            ] + ei;
                            match else_block {
                                None => Ok(head),
                                Some(eb) => match render_block(eb) {
                                    Err(err) => Err(err),
                                    Ok(el) => Ok(
                                        head + seq!["else {"@] + indent_lines(el) + seq!["}"@],
                                    ),
                                },
                            }
                        },
                    },
                },
            }
        },
        Statement::While { condition, block } => match render_expr(*condition) {
            Err(err) => Err(err),
            Ok(c) => match render_block(block) {
                Err(err) => Err(err),
                Ok(body) => Ok(
                    seq!["while ("@ + c + ") {"@] + indent_lines(body) + seq!["}"@],
                ),
            },
        },
        Statement::For { name, start, end, step, block } => match render_expr(*start) {
            Err(err) => Err(err),
            Ok(st) => match render_expr(*end) {
                Err(err) => Err(err),
                Ok(en) => match render_expr(*step) {
                    Err(err) => Err(err),
                    Ok(sp) => match render_block(block) {
                        Err(err) => Err(err),
                        Ok(body) => Ok(
                            seq![
                                "for (var "@ + name@ + " = "@ + st + "; "@ + en + "; "@ + sp
                                    + ") {"@,
                            ] + indent_lines(body) + seq!["}"@],
                        ),
                    },
                },
            },
        },
        Statement::Break => Ok(seq!["break;"@]),
        Statement::Do { block } => match render_block(block) {
            Err(err) => Err(err),
            Ok(body) => Ok(seq!["(function() {"@] + indent_lines(body) + seq!["})();"@]),
        },
        Statement::Call(c) => match render_call(c) {
            Err(err) => Err(err),
            Ok(t) => Ok(seq![t + ";"@]),
        },
        Statement::FunctionDefinition { name, body } => {
            if body.variadic {
                Err(TranslateError::UnsupportedConstruct(Construct::VariadicParameters))
            } else {
                match render_block(body.block) {
                    Err(err) => Err(err),
                    Ok(ls) => Ok(
                        seq!["function "@ + name@ + "("@ + join_params(body.parameters@) + ") {"@]
                            + indent_lines(ls) + seq!["}"@],
                    ),
                }
            }
        },
        Statement::LocalFunctionDefinition { name, body } => {
            if body.variadic {
                Err(TranslateError::UnsupportedConstruct(Construct::VariadicParameters))
            } else {
                match render_block(body.block) {
                    Err(err) => Err(err),
                    Ok(ls) => Ok(
                        seq![
                            "var "@ + name@ + " = ("@ + join_params(body.parameters@) + ") => {"@,
                        ] + indent_lines(ls) + seq!["};"@],
                    ),
                }
            }
        },
        Statement::Other => Err(TranslateError::UnsupportedConstruct(Construct::StatementKind)),
    }
}

/// The lines of the `else if` arms, in order, or their first error.
pub open spec fn render_elseifs(eis: Seq<ElseIf>) -> Result<Seq<Seq<char>>, TranslateError>
    decreases eis,
{
    if eis.len() == 0 {
        Ok(Seq::empty())
    } else {
        match render_expr(eis[0].condition) {
            Err(err) => Err(err),
            Ok(c) => match render_block(eis[0].block) {
                Err(err) => Err(err),
                Ok(body) => match render_elseifs(eis.subrange(1, eis.len() as int)) {
                    Err(err) => Err(err),
                    Ok(rest) => Ok(
                        seq!["else if ("@ + c + ") {"@] + indent_lines(body) + seq!["}"@] + rest,
                    ),
                },
            },
        }
    }
}

/// The lines of a statement sequence, in order, or the first error met.
pub open spec fn render_stmts(ss: Seq<Statement>) -> Result<Seq<Seq<char>>, TranslateError>
    decreases ss,
{
    if ss.len() == 0 {
        Ok(Seq::empty())
    } else {
        match render_stmt(ss[0]) {
            Err(err) => Err(err),
            Ok(first) => match render_stmts(ss.subrange(1, ss.len() as int)) {
                Err(err) => Err(err),
                Ok(rest) => Ok(first + rest),
            },
        }
    }
}

/// The lines of a whole block: its statements in order, then its trailing
/// return if it has one; or the first error met.
pub open spec fn render_block(b: Block) -> Result<Seq<Seq<char>>, TranslateError>
    decreases b,
{
    match render_stmts(b.statements@) {
        Err(err) => Err(err),
        Ok(ls) => match b.return_statement {
            None => Ok(ls),
            Some(rs) => match render_return(rs) {
                Err(err) => Err(err),
                Ok(rl) => Ok(ls + rl),
            },
        },
    }
}

/// The lines joined into one text, each line ended by a newline.
pub open spec fn join_lines(lines: Seq<Seq<char>>) -> Seq<char>
    decreases lines,
{
    if lines.len() == 0 {
        Seq::empty()
    } else {
        lines[0] + "\n"@ + join_lines(lines.subrange(1, lines.len() as int))
    }
}

/// What a whole translation yields: the block's lines joined, or the first
/// error met during the walk.
pub open spec fn spec_translate(b: Block) -> Result<Seq<char>, TranslateError> {
    match render_block(b) {
        Err(err) => Err(err),
        Ok(lines) => Ok(join_lines(lines)),
    }
}

/// The views of a vector of line strings.
pub open spec fn lines_view(v: Seq<String>) -> Seq<Seq<char>> {
    Seq::new(v.len(), |i: int| v[i]@)
}

/// The view of an executable line-list result.
pub open spec fn lines_result(r: Result<Vec<String>, TranslateError>) -> Result<
    Seq<Seq<char>>,
    TranslateError,
> {
    match r {
        Ok(v) => Ok(lines_view(v@)),
        Err(err) => Err(err),
    }
}

proof fn lemma_lines_view_concat(a: Seq<String>, b: Seq<String>)
    ensures
        lines_view(a + b) == lines_view(a) + lines_view(b),
{
    assert(lines_view(a + b) =~~= lines_view(a) + lines_view(b));
}

/// Splicing lines one nesting level deeper keeps their number and adds
/// exactly one indentation unit to each line, and to nothing else.
pub proof fn lemma_indent_adds_one_unit(lines: Seq<Seq<char>>)
    ensures
        indent_lines(lines).len() == lines.len(),
        forall|i: int|
            0 <= i < lines.len() ==> indent_lines(lines)[i] == indent_unit() + lines[i],
{
}

proof fn lemma_indent_unit_commutes(n: nat)
    ensures
        indent_unit() + repeat_indent(n) == repeat_indent(n) + indent_unit(),
    decreases n,
{
    if n == 0 {
        assert(indent_unit() + repeat_indent(0) =~~= repeat_indent(0) + indent_unit());
    } else {
        lemma_indent_unit_commutes((n - 1) as nat);
        assert(indent_unit() + repeat_indent(n) =~~= repeat_indent(n) + indent_unit());
    }
}

/// The emitted indentation exactly matches nesting depth: a block spliced
/// `n` levels deep carries exactly `n` indentation units before every one
/// of its lines, and a block at the top level carries none.
pub proof fn lemma_depth_indentation(lines: Seq<Seq<char>>, n: nat)
    ensures
        indent_n(lines, n).len() == lines.len(),
        forall|i: int|
            0 <= i < lines.len() ==> indent_n(lines, n)[i] == repeat_indent(n) + lines[i],
    decreases n,
{
    if n == 0 {
        assert forall|i: int| 0 <= i < lines.len() implies indent_n(lines, n)[i] == repeat_indent(
            n,
        ) + lines[i] by {
            assert(repeat_indent(0) + lines[i] =~~= lines[i]);
        }
    } else {
        let m = (n - 1) as nat;
        lemma_depth_indentation(lines, m);
        assert forall|i: int| 0 <= i < lines.len() implies indent_n(lines, n)[i] == repeat_indent(
            n,
        ) + lines[i] by {
            lemma_indent_unit_commutes(m);
            assert(indent_n(lines, n)[i] == indent_unit() + (repeat_indent(m) + lines[i]));
            assert(indent_unit() + (repeat_indent(m) + lines[i]) =~~= (repeat_indent(m)
                + indent_unit()) + lines[i]);
        }
    }
}

/// Every arity constraint is refused with `UnsupportedConstruct`: an
/// assignment without exactly one target and one value, a local declaration
/// without exactly one name, a variadic parameter list, and a return with
/// more than one value. The refusal is the whole result, so no output text
/// exists for such a statement.
pub proof fn lemma_arity_rejection(s: Statement, r: ReturnStatement)
    ensures
        (s matches Statement::Assignment { targets, values } && (targets@.len() != 1
            || values@.len() != 1)) ==> render_stmt(s) == Err::<Seq<Seq<char>>, _>(
            TranslateError::UnsupportedConstruct(Construct::AssignmentArity),
        ),
        (s matches Statement::LocalDeclaration { names, .. } && names@.len() != 1)
            ==> render_stmt(s) == Err::<Seq<Seq<char>>, _>(
            TranslateError::UnsupportedConstruct(Construct::LocalNameArity),
        ),
        (s matches Statement::FunctionDefinition { body, .. } && body.variadic) ==> render_stmt(s)
            == Err::<Seq<Seq<char>>, _>(
            TranslateError::UnsupportedConstruct(Construct::VariadicParameters),
        ),
        (s matches Statement::LocalFunctionDefinition { body, .. } && body.variadic)
            ==> render_stmt(s) == Err::<Seq<Seq<char>>, _>(
            TranslateError::UnsupportedConstruct(Construct::VariadicParameters),
        ),
        r.values@.len() > 1 ==> render_return(r) == Err::<Seq<Seq<char>>, _>(
            TranslateError::UnsupportedConstruct(Construct::MultipleReturnValues),
        ),
{
}

/// Appends one indentation unit and `line` to `out` as a new line.
fn push_indented(out: &mut Vec<String>, line: &String)
    ensures
        lines_view(final(out)@) == lines_view(old(out)@).push(indent_unit() + line@),
{
    let mut l = String::new();
    l.append("    ");
    l.append(line.as_str());
    out.push(l);
    proof {
        assert(lines_view(out@) =~~= lines_view(old(out)@).push(indent_unit() + line@));
    }
}

/// Splices the lines of a nested block into `out`, each gaining exactly
/// one indentation unit.
fn indent_into(out: &mut Vec<String>, child: &Vec<String>)
    ensures
        lines_view(final(out)@) == lines_view(old(out)@) + indent_lines(lines_view(child@)),
{
    let n = child.len();
    let mut j: usize = 0;
    proof {
        assert(lines_view(out@) =~~= lines_view(old(out)@) + indent_lines(
            lines_view(child@),
        ).subrange(0, 0));
    }
    while j < n
        invariant
            n == child@.len(),
            j <= n,
            lines_view(out@) == lines_view(old(out)@) + indent_lines(
                lines_view(child@),
            ).subrange(0, j as int),
        decreases n - j,
    {
        push_indented(out, &child[j]);
        proof {
            assert(lines_view(out@) =~~= lines_view(old(out)@) + indent_lines(
                lines_view(child@),
            ).subrange(0, j as int + 1));
        }
        j = j + 1;
    }
    proof {
        assert(indent_lines(lines_view(child@)).subrange(0, n as int) =~~= indent_lines(
            lines_view(child@),
        ));
    }
}

/// Translates a parameter-name list to its comma-separated text.
fn params_to_str(names: &Vec<String>) -> (r: String)
    ensures
        r@ == join_params(names@),
{
    let n = names.len();
    let mut s = String::new();
    let mut i: usize = 0;
    proof {
        assert(names@.subrange(0, n as int) =~~= names@);
    }
    while i < n
        invariant
            n == names@.len(),
            i <= n,
            join_params(names@) == s@ + join_params(names@.subrange(i as int, n as int)),
        decreases n - i,
    {
        let ghost s0 = s@;
        let ghost suffix = names@.subrange(i as int, n as int);
        proof {
            assert(suffix[0] == names@[i as int]);
            assert(suffix.subrange(1, suffix.len() as int) =~~= names@.subrange(
                i as int + 1,
                n as int,
            ));
        }
        s.append(names[i].as_str());
        if i + 1 < n {
            s.append(", ");
        }
        proof {
            let rest = join_params(names@.subrange(i as int + 1, n as int));
            if i + 1 < n {
                assert(s@ =~~= s0 + names@[i as int]@ + ", "@);
                assert(s0 + (names@[i as int]@ + ", "@ + rest) =~~= s@ + rest);
            } else {
                assert(rest =~~= Seq::<char>::empty());
                assert(s@ + rest =~~= s0 + names@[i as int]@);
            }
        }
        i = i + 1;
    }
    proof {
        assert(names@.subrange(n as int, n as int) =~~= Seq::<String>::empty());
        assert(s@ + Seq::<char>::empty() =~~= s@);
    }
    s
}

/// Builds the lines of a braced construct: the header line, the body's
/// lines spliced one level deeper, and the footer line.
fn braced_lines(header: String, body: &Vec<String>, footer: &str) -> (r: Vec<String>)
    ensures
        lines_view(r@) == seq![header@] + indent_lines(lines_view(body@)) + seq![footer@],
{
    let mut out: Vec<String> = Vec::new();
    out.push(header);
    proof {
        assert(lines_view(out@) =~~= seq![header@]);
    }
    let ghost g1 = lines_view(out@);
    indent_into(&mut out, body);
    let ghost g2 = lines_view(out@);
    out.push(footer.to_owned());
    proof {
        assert(lines_view(out@) =~~= g2 + seq![footer@]);
        assert(lines_view(out@) =~~= seq![header@] + indent_lines(lines_view(body@)) + seq![
            footer@,
        ]);
    }
    out
}

/// Renders the `else if` arms to their lines, returning exactly what
/// [`render_elseifs`] gives them.
fn elseifs_to_lines(else_ifs: &Vec<ElseIf>) -> (r: Result<Vec<String>, TranslateError>)
    ensures
        lines_result(r) == render_elseifs(else_ifs@),
    decreases *else_ifs,
{
    let n = else_ifs.len();
    let mut out: Vec<String> = Vec::new();
    let mut i: usize = 0;
    proof {
        assert(else_ifs@.subrange(0, n as int) =~~= else_ifs@);
        assert(lines_view(out@) =~~= Seq::<Seq<char>>::empty());
    }
    while i < n
        invariant
            n == else_ifs@.len(),
            i <= n,
            (match render_elseifs(else_ifs@.subrange(i as int, n as int)) {
                Err(err) => render_elseifs(else_ifs@) == Err::<Seq<Seq<char>>, TranslateError>(
                    err,
                ),
                Ok(rest) => render_elseifs(else_ifs@) == Ok::<Seq<Seq<char>>, TranslateError>(
                    lines_view(out@) + rest,
                ),
            }),
        decreases n - i,
    {
        let ghost o0 = lines_view(out@);
        let ghost suffix = else_ifs@.subrange(i as int, n as int);
        proof {
            assert(suffix[0] == else_ifs@[i as int]);
            assert(suffix.subrange(1, suffix.len() as int) =~~= else_ifs@.subrange(
                i as int + 1,
                n as int,
            ));
            assert(decreases_to!(*else_ifs => else_ifs@[i as int]));
        }
        let ei = &else_ifs[i];
        let ec = match expr_to_str(&ei.condition) {
            Ok(t) => t,
            Err(err) => {
                return Err(err);
            },
        };
        let ebody = match block_to_lines(&ei.block) {
            Ok(t) => t,
            Err(err) => {
                return Err(err);
            },
        };
        let mut eh = String::new();
        eh.append("else if (");
        eh.append(ec.as_str());
        eh.append(") {");
        let mut grp = braced_lines(eh, &ebody, "}");
        let ghost ov = out@;
        let ghost gv = grp@;
        out.append(&mut grp);
        proof {
            lemma_lines_view_concat(ov, gv);
            let group = seq!["else if ("@ + ec@ + ") {"@] + indent_lines(lines_view(ebody@))
                + seq!["}"@];
            assert(lines_view(gv) =~~= group);
            assert(lines_view(out@) =~~= o0 + group);
            let rest = render_elseifs(else_ifs@.subrange(i as int + 1, n as int));
            match rest {
                Ok(r2) => {
                    assert(o0 + (group + r2) =~~= lines_view(out@) + r2);
                },
                Err(_) => {},
            }
        }
        i = i + 1;
    }
    proof {
        assert(else_ifs@.subrange(n as int, n as int) =~~= Seq::<ElseIf>::empty());
        assert(lines_view(out@) + Seq::<Seq<char>>::empty() =~~= lines_view(out@));
    }
    Ok(out)
}

/// Renders one statement to its lines, returning exactly what
/// [`render_stmt`] gives it.
#[verifier::rlimit(50)]
#[verifier::spinoff_prover]
pub fn stmt_to_lines(s: &Statement) -> (r: Result<Vec<String>, TranslateError>)
    ensures
        lines_result(r) == render_stmt(*s),
    decreases *s, 1int,
{
    match s {
        Statement::Empty => {
            let mut out: Vec<String> = Vec::new();
            out.push(";".to_owned());
            proof {
                assert(lines_view(out@) =~~= seq![";"@]);
            }
            Ok(out)
        },
        Statement::Assignment { targets, values } => {
            if targets.len() != 1 || values.len() != 1 {
                return Err(TranslateError::UnsupportedConstruct(Construct::AssignmentArity));
            }
            let t = match expr_to_str(&targets[0]) {
                Ok(t) => t,
                Err(err) => {
                    return Err(err);
                },
            };
            let v = match expr_to_str(&values[0]) {
                Ok(t) => t,
                Err(err) => {
                    return Err(err);
                },
            };
            let mut line = String::new();
            line.append(t.as_str());
            line.append(" = ");
            line.append(v.as_str());
            line.append(";");
            let mut out: Vec<String> = Vec::new();
            out.push(line);
            proof {
                assert(lines_view(out@) =~~= seq![t@ + " = "@ + v@ + ";"@]);
            }
            Ok(out)
        },
        Statement::LocalDeclaration { names, values } => {
            if names.len() != 1 {
                return Err(TranslateError::UnsupportedConstruct(Construct::LocalNameArity));
            }
            match values {
                None => Err(TranslateError::UnsupportedConstruct(Construct::LocalWithoutValue)),
                Some(vs) => {
                    if vs.len() != 1 {
                        return Err(TranslateError::UnsupportedConstruct(Construct::LocalValueArity));
                    }
                    let v = match expr_to_str(&vs[0]) {
                        Ok(t) => t,
                        Err(err) => {
                            return Err(err);
                        },
                    };
                    let mut line = String::new();
                    line.append("var ");
                    line.append(names[0].as_str());
                    line.append(" = ");
                    line.append(v.as_str());
                    line.append(";");
                    let mut out: Vec<String> = Vec::new();
                    out.push(line);
                    proof {
                        assert(lines_view(out@) =~~= seq![
                            "var "@ + names@[0]@ + " = "@ + v@ + ";"@,
                        ]);
                    }
                    Ok(out)
                },
            }
        },
        Statement::Break => {
            let mut out: Vec<String> = Vec::new();
            out.push("break;".to_owned());
            proof {
                assert(lines_view(out@) =~~= seq!["break;"@]);
            }
            Ok(out)
        },
        Statement::Call(c) => {
            let t = match funcall_to_string(c) {
                Ok(t) => t,
                Err(err) => {
                    return Err(err);
                },
            };
            let mut line = String::new();
            line.append(t.as_str());
            line.append(";");
            let mut out: Vec<String> = Vec::new();
            out.push(line);
            proof {
                assert(lines_view(out@) =~~= seq![t@ + ";"@]);
            }
            Ok(out)
        },
        Statement::Other => Err(TranslateError::UnsupportedConstruct(Construct::StatementKind)),
        Statement::If { .. } => stmt_nested_to_lines(s),
        Statement::While { .. } => stmt_nested_to_lines(s),
        Statement::For { .. } => stmt_nested_to_lines(s),
        Statement::Do { .. } => stmt_nested_to_lines(s),
        Statement::FunctionDefinition { .. } => stmt_nested_to_lines(s),
        Statement::LocalFunctionDefinition { .. } => stmt_nested_to_lines(s),
    }
}

/// Renders a block-carrying statement to its lines, returning exactly
/// what [`render_stmt`] gives it.
#[verifier::rlimit(100)]
#[verifier::spinoff_prover]
fn stmt_nested_to_lines(s: &Statement) -> (r: Result<Vec<String>, TranslateError>)
    requires
        s is If || s is While || s is For || s is Do || s is FunctionDefinition
            || s is LocalFunctionDefinition,
    ensures
        lines_result(r) == render_stmt(*s),
    decreases *s, 0int,
{
    match s {
        Statement::If { condition, block, else_ifs, else_block } => {
            let c = match expr_to_str(condition) {
                Ok(t) => t,
                Err(err) => {
                    return Err(err);
                },
            };
            let body = match block_to_lines(block) {
                Ok(t) => t,
                Err(err) => {
                    return Err(err);
                },
            };
            let mut ei_lines = match elseifs_to_lines(else_ifs) {
                Ok(t) => t,
                Err(err) => {
                    return Err(err);
                },
            };
            let mut h = String::new();
            h.append("if (");
            h.append(c.as_str());
            h.append(") {");
            let mut out: Vec<String> = braced_lines(h, &body, "}");
            let ghost head = seq!["if ("@ + c@ + ") {"@] + indent_lines(lines_view(body@)) + seq![
                "}"@,
            ];
            proof {
                assert(lines_view(out@) =~~= head);
            }
            let ghost ov0 = out@;
            let ghost eiv = ei_lines@;
            out.append(&mut ei_lines);
            proof {
                lemma_lines_view_concat(ov0, eiv);
                assert(lines_view(out@) =~~= head + lines_view(eiv));
            }
            match else_block {
                None => {
                    Ok(out)
                },
                Some(eb) => {
                    let ghost o1 = lines_view(out@);
                    let el = match block_to_lines(eb) {
                        Ok(t) => t,
                        Err(err) => {
                            return Err(err);
                        },
                    };
                    let mut tail = braced_lines("else {".to_owned(), &el, "}");
                    let ghost ov1 = out@;
                    let ghost tv = tail@;
                    out.append(&mut tail);
                    proof {
                        lemma_lines_view_concat(ov1, tv);
                        assert(lines_view(tv) =~~= seq!["else {"@] + indent_lines(
                            lines_view(el@),
                        ) + seq!["}"@]);
                        assert(lines_view(out@) =~~= ((head + lines_view(eiv)) + seq!["else {"@])
                            + indent_lines(lines_view(el@)) + seq!["}"@]);
                    }
                    Ok(out)
                },
            }
        },
        Statement::While { condition, block } => {
            let c = match expr_to_str(condition) {
                Ok(t) => t,
                Err(err) => {
                    return Err(err);
                },
            };
            let body = match block_to_lines(block) {
                Ok(t) => t,
                Err(err) => {
                    return Err(err);
                },
            };
            let mut h = String::new();
            h.append("while (");
            h.append(c.as_str());
            h.append(") {");
            let out = braced_lines(h, &body, "}");
            proof {
                assert(lines_view(out@) =~~= seq!["while ("@ + c@ + ") {"@] + indent_lines(
                    lines_view(body@),
                ) + seq!["}"@]);
            }
            Ok(out)
        },
        Statement::For { name, start, end, step, block } => {
            let st = match expr_to_str(start) {
                Ok(t) => t,
                Err(err) => {
                    return Err(err);
                },
            };
            let en = match expr_to_str(end) {
                Ok(t) => t,
                Err(err) => {
                    return Err(err);
                },
            };
            let sp = match expr_to_str(step) {
                Ok(t) => t,
                Err(err) => {
                    return Err(err);
                },
            };
            let body = match block_to_lines(block) {
                Ok(t) => t,
                Err(err) => {
                    return Err(err);
                },
            };
            let mut h = String::new();
            h.append("for (var ");
            h.append(name.as_str());
            h.append(" = ");
            h.append(st.as_str());
            h.append("; ");
            h.append(en.as_str());
            h.append("; ");
            h.append(sp.as_str());
            h.append(") {");
            let out = braced_lines(h, &body, "}");
            proof {
                assert(lines_view(out@) =~~= seq![
                    "for (var "@ + name@ + " = "@ + st@ + "; "@ + en@ + "; "@ + sp@ + ") {"@,
                ] + indent_lines(lines_view(body@)) + seq!["}"@]);
            }
            Ok(out)
        },
        Statement::Do { block } => {
            let body = match block_to_lines(block) {
                Ok(t) => t,
                Err(err) => {
                    return Err(err);
                },
            };
            let out = braced_lines("(function() {".to_owned(), &body, "})();");
            proof {
                assert(lines_view(out@) =~~= seq!["(function() {"@] + indent_lines(
                    lines_view(body@),
                ) + seq!["})();"@]);
            }
            Ok(out)
        },
        Statement::FunctionDefinition { name, body } => {
            if body.variadic {
                return Err(TranslateError::UnsupportedConstruct(Construct::VariadicParameters));
            }
            let ps = params_to_str(&body.parameters);
            let ls = match block_to_lines(&body.block) {
                Ok(t) => t,
                Err(err) => {
                    return Err(err);
                },
            };
            let mut h = String::new();
            h.append("function ");
            h.append(name.as_str());
            h.append("(");
            h.append(ps.as_str());
            h.append(") {");
            let out = braced_lines(h, &ls, "}");
            proof {
                assert(lines_view(out@) =~~= seq![
                    "function "@ + name@ + "("@ + join_params(body.parameters@) + ") {"@,
                ] + indent_lines(lines_view(ls@)) + seq!["}"@]);
            }
            Ok(out)
        },
        Statement::LocalFunctionDefinition { name, body } => {
            if body.variadic {
                return Err(TranslateError::UnsupportedConstruct(Construct::VariadicParameters));
            }
            let ps = params_to_str(&body.parameters);
            let ls = match block_to_lines(&body.block) {
                Ok(t) => t,
                Err(err) => {
                    return Err(err);
                },
            };
            let mut h = String::new();
            h.append("var ");
            h.append(name.as_str());
            h.append(" = (");
            h.append(ps.as_str());
            h.append(") => {");
            let out = braced_lines(h, &ls, "};");
            proof {
                assert(lines_view(out@) =~~= seq![
                    "var "@ + name@ + " = ("@ + join_params(body.parameters@) + ") => {"@,
                ] + indent_lines(lines_view(ls@)) + seq!["};"@]);
            }
            Ok(out)
        },
        _ => Err(TranslateError::UnsupportedConstruct(Construct::StatementKind)),
    }
}

/// Renders a block to its lines, returning exactly what [`render_block`]
/// gives it.
pub fn block_to_lines(b: &Block) -> (r: Result<Vec<String>, TranslateError>)
    ensures
        lines_result(r) == render_block(*b),
    decreases *b,
{
    let n = b.statements.len();
    let mut out: Vec<String> = Vec::new();
    let mut i: usize = 0;
    proof {
        assert(b.statements@.subrange(0, n as int) =~~= b.statements@);
        assert(lines_view(out@) =~~= Seq::<Seq<char>>::empty());
    }
    while i < n
        invariant
            n == b.statements@.len(),
            i <= n,
            (match render_stmts(b.statements@.subrange(i as int, n as int)) {
                Err(err) => render_stmts(b.statements@) == Err::<Seq<Seq<char>>, TranslateError>(err),
                Ok(rest) => render_stmts(b.statements@) == Ok::<Seq<Seq<char>>, TranslateError>(
                    lines_view(out@) + rest,
                ),
            }),
        decreases n - i,
    {
        let ghost o0 = lines_view(out@);
        let ghost suffix = b.statements@.subrange(i as int, n as int);
        proof {
            assert(suffix[0] == b.statements@[i as int]);
            assert(suffix.subrange(1, suffix.len() as int) =~~= b.statements@.subrange(
                i as int + 1,
                n as int,
            ));
        }
        let mut sl = match stmt_to_lines(&b.statements[i]) {
            Ok(t) => t,
            Err(err) => {
                return Err(err);
            },
        };
        let ghost ov0 = out@;
        let ghost slv = sl@;
        out.append(&mut sl);
        proof {
            lemma_lines_view_concat(ov0, slv);
            assert(lines_view(out@) == o0 + lines_view(slv));
            let rest = render_stmts(b.statements@.subrange(i as int + 1, n as int));
            match rest {
                Ok(r2) => {
                    assert(o0 + (lines_view(slv) + r2) =~~= lines_view(out@) + r2);
                },
                Err(_) => {},
            }
        }
        i = i + 1;
    }
    proof {
        assert(b.statements@.subrange(n as int, n as int) =~~= Seq::<Statement>::empty());
        assert(lines_view(out@) + Seq::<Seq<char>>::empty() =~~= lines_view(out@));
    }
    match &b.return_statement {
        None => Ok(out),
        Some(rs) => {
            if rs.values.len() > 1 {
                return Err(TranslateError::UnsupportedConstruct(Construct::MultipleReturnValues));
            }
            let ghost o1 = lines_view(out@);
            if rs.values.len() == 0 {
                out.push("return;".to_owned());
                proof {
                    assert(lines_view(out@) =~~= o1 + seq!["return;"@]);
                }
            } else {
                let v = match expr_to_str(&rs.values[0]) {
                    Ok(t) => t,
                    Err(err) => {
                        return Err(err);
                    },
                };
                let mut line = String::new();
                line.append("return ");
                line.append(v.as_str());
                line.append(";");
                out.push(line);
                proof {
                    assert(lines_view(out@) =~~= o1 + seq!["return "@ + v@ + ";"@]);
                }
            }
            Ok(out)
        },
    }
}

/// The block writer: holds the indentation depth its output is written at.
pub struct BlockWriter {
    indent: usize,
}

impl BlockWriter {
    /// The nesting depth this writer prefixes onto every emitted line.
    pub closed spec fn depth(self) -> nat {
        self.indent as nat
    }

    /// A writer for top-level output, at depth zero.
    pub fn new() -> (r: BlockWriter)
        ensures
            r.depth() == 0,
    {
        BlockWriter { indent: 0 }
    }

    /// Writes a block's statements, one construct per line, each line
    /// prefixed with four spaces per nesting level starting from this
    /// writer's depth; or fails with the first error met, emitting nothing.
    pub fn write_block(&self, block: &Block) -> (r: Result<String, TranslateError>)
        ensures
            text_result(r) == (match render_block(*block) {
                Err(err) => Err(err),
                Ok(ls) => Ok(join_lines(indent_n(ls, self.depth()))),
            }),
    {
        let lines = match block_to_lines(block) {
            Ok(t) => t,
            Err(err) => {
                return Err(err);
            },
        };
        let mut prefix = String::new();
        let mut d: usize = 0;
        proof {
            assert(prefix@ =~~= repeat_indent(0));
        }
        while d < self.indent
            invariant
                d <= self.indent,
                prefix@ == repeat_indent(d as nat),
            decreases self.indent - d,
        {
            prefix.append("    ");
            proof {
                assert(prefix@ =~~= repeat_indent((d + 1) as nat));
            }
            d = d + 1;
        }
        let ghost ind = indent_n(lines_view(lines@), self.depth());
        proof {
            lemma_depth_indentation(lines_view(lines@), self.depth());
        }
        let n = lines.len();
        let mut out = String::new();
        let mut j: usize = 0;
        proof {
            assert(ind.subrange(0, ind.len() as int) =~~= ind);
        }
        while j < n
            invariant
                n == lines@.len(),
                n == ind.len(),
                j <= n,
                prefix@ == repeat_indent(self.depth()),
                ind == indent_n(lines_view(lines@), self.depth()),
                out@ + join_lines(ind.subrange(j as int, n as int)) == join_lines(ind),
                forall|k: int| 0 <= k < n ==> ind[k] == repeat_indent(self.depth()) + lines_view(
                    lines@,
                )[k],
            decreases n - j,
        {
            let ghost o0 = out@;
            let ghost suffix = ind.subrange(j as int, n as int);
            proof {
                assert(suffix[0] == ind[j as int]);
                assert(suffix.subrange(1, suffix.len() as int) =~~= ind.subrange(
                    j as int + 1,
                    n as int,
                ));
            }
            out.append(prefix.as_str());
            out.append(lines[j].as_str());
            out.append("\n");
            proof {
                let rest = join_lines(ind.subrange(j as int + 1, n as int));
                assert(out@ =~~= o0 + (repeat_indent(self.depth()) + lines_view(lines@)[j as int])
                    + "\n"@);
                assert(o0 + (ind[j as int] + "\n"@ + rest) =~~= out@ + rest);
            }
            j = j + 1;
        }
        proof {
            assert(ind.subrange(n as int, n as int) =~~= Seq::<Seq<char>>::empty());
            assert(out@ + Seq::<char>::empty() =~~= out@);
        }
        Ok(out)
    }
}

/// Translates a whole tree: emits its top-level block at depth zero,
/// yielding exactly what [`spec_translate`] gives it, or failing with the
/// first unsupported construct and yielding no output at all.
pub fn translate(block: &Block) -> (r: Result<String, TranslateError>)
    ensures
        text_result(r) == spec_translate(*block),
{
    let r = BlockWriter::new().write_block(block);
    proof {
        if let Ok(ls) = render_block(*block) {
            assert(indent_n(ls, 0) == ls);
        }
    }
    r
}

} // verus!
