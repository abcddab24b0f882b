use naga_msl::ir::{
    Constant, ConstantInner, EntryPoint, Expression, Function, LocalVariable, Module, ScalarKind,
    ScalarValue, ShaderStage, Statement, SwitchCase, Type, TypeInner,
};
use naga_msl::keyword::Level;
use naga_msl::options::Options;
use naga_msl::typing::{Resolution, Typifier};
use naga_msl::writer::Writer;

const HEADER: &str = "#include <metal_stdlib>\n#include <simd/simd.h>\n\ntypedef float f;\n\n";

// Handles of the expressions of every function here.
const A: usize = 0;
const ONE: usize = 1;

fn function(body: Vec<Statement>) -> Function {
    let float = || Resolution::Value(TypeInner::Scalar { kind: ScalarKind::Float, width: 4 });
    Function {
        name: String::from("g"),
        arguments: Vec::new(),
        return_type: None,
        local_variables: vec![LocalVariable { name: String::from("a"), ty: 0, init: None }],
        global_usage: Vec::new(),
        expressions: vec![Expression::LocalVariable(0), Expression::Constant(0)],
        body,
        typing: Ok(Typifier { resolutions: vec![float(), float()] }),
    }
}

fn module(functions: Vec<Function>, entry_points: Vec<EntryPoint>) -> Module {
    Module {
        types: vec![Type {
            name: String::from("f"),
            inner: TypeInner::Scalar { kind: ScalarKind::Float, width: 4 },
        }],
        constants: vec![Constant {
            inner: ConstantInner::Scalar { width: 4, value: ScalarValue::Sint(1) },
        }],
        global_variables: Vec::new(),
        functions,
        entry_points,
    }
}

fn write(module: &Module) -> String {
    let mut writer = Writer::new(String::new());
    assert!(writer.write(module, &Options { bindings: Vec::new() }).is_ok());
    writer.finish()
}

/// Whether all that the text of a module comes to exists.
fn is_writable(module: &Module) -> bool {
    let mut writer = Writer::new(String::new());
    writer.try_write(module, &Options { bindings: Vec::new() }).is_some()
}

/// The text of a function body.
fn body_text(body: Vec<Statement>) -> String {
    let text = write(&module(vec![function(body)], Vec::new()));
    let start = format!("{}void g(\n) {{\n    f a;\n", HEADER);
    let end = "}\n\n";
    assert_eq!(&text[..start.len()], start);
    assert_eq!(&text[text.len() - end.len()..], end);
    String::from(&text[start.len()..text.len() - end.len()])
}

fn case(value: i32, body: Vec<Statement>, fall_through: bool) -> SwitchCase {
    SwitchCase { value, body, fall_through }
}

fn gated(name: &str, body: Vec<Statement>, continuing: Vec<Statement>) -> Statement {
    Statement::Loop { body, continuing, gate_name: String::from(name) }
}

#[test]
fn empty_body() {
    assert_eq!(body_text(Vec::new()), "");
}

#[test]
fn simple_statements() {
    assert_eq!(
        body_text(vec![
            Statement::Break,
            Statement::Continue,
            Statement::Kill,
            Statement::Store { pointer: A, value: ONE },
            Statement::Return { value: Some(A) },
            Statement::Return { value: None },
        ]),
        "    break;\n    continue;\n    discard_fragment();\n    a = 1;\n    return a;\n    return ;\n"
    );
}

#[test]
fn blocks() {
    assert_eq!(body_text(vec![Statement::Block(Vec::new())]), "");
    assert_eq!(
        body_text(vec![Statement::Block(vec![
            Statement::Break,
            Statement::Block(vec![Statement::Kill]),
            Statement::Block(Vec::new()),
        ])]),
        "    {\n        break;\n        {\n            discard_fragment();\n        }\n    }\n"
    );
}

#[test]
fn conditionals() {
    assert_eq!(
        body_text(vec![Statement::If {
            condition: A,
            accept: vec![Statement::Break],
            reject: Vec::new(),
        }]),
        "    if (a) {\n        break;\n    }\n"
    );
    assert_eq!(
        body_text(vec![Statement::If {
            condition: ONE,
            accept: Vec::new(),
            reject: vec![Statement::Kill],
        }]),
        "    if (1) {\n    } else {\n        discard_fragment();\n    }\n"
    );
}

#[test]
fn switches() {
    assert_eq!(
        body_text(vec![Statement::Switch {
            selector: A,
            cases: vec![
                case(0, vec![Statement::Kill], false),
                case(-3, vec![Statement::Continue], true),
            ],
            default: vec![Statement::Break],
        }]),
        "    switch(a) {\n\
         \x20       case 0: {\n\
         \x20           discard_fragment();\n\
         \x20       }\n\
         \x20       case -3: {\n\
         \x20           continue;\n\
         \x20           break;\n\
         \x20       }\n\
         \x20       default: {\n\
         \x20           break;\n\
         \x20       }\n\
         \x20   }\n"
    );
    assert_eq!(
        body_text(vec![Statement::Switch {
            selector: A,
            cases: Vec::new(),
            default: Vec::new(),
        }]),
        "    switch(a) {\n        default: {\n        }\n    }\n"
    );
}

#[test]
fn loops() {
    assert_eq!(
        body_text(vec![gated("unused", vec![Statement::Break], Vec::new())]),
        "    while(true) {\n        break;\n    }\n"
    );
}

#[test]
fn loops_with_continuing() {
    assert_eq!(
        body_text(vec![gated(
            "loop_init",
            vec![Statement::Break],
            vec![Statement::Store { pointer: A, value: ONE }],
        )]),
        "    bool loop_init = true;\n\
         \x20   while(true) {\n\
         \x20       if (!loop_init) {\n\
         \x20           a = 1;\n\
         \x20       }\n\
         \x20       loop_init = false;\n\
         \x20       break;\n\
         \x20   }\n"
    );
}

#[test]
fn gate_variable_has_its_own_name_where_it_is_declared() {
    let text = body_text(vec![gated("loop_init1", Vec::new(), vec![Statement::Kill])]);
    assert!(text.starts_with("    bool loop_init1 = true;\n    while(true) {\n"));
    assert!(text.contains("        if (!loop_init) {\n            discard_fragment();\n"));
}

#[test]
fn two_blocks_are_written_one_after_the_other() {
    let first = || vec![Statement::Break, Statement::Block(Vec::new())];
    let second = || vec![Statement::Block(vec![Statement::Kill]), Statement::Continue];
    let mut both = first();
    both.extend(second());
    assert_eq!(body_text(both), format!("{}{}", body_text(first()), body_text(second())));
}

#[test]
fn every_line_ends() {
    let text = body_text(vec![
        Statement::If {
            condition: A,
            accept: vec![gated("g", vec![Statement::Kill], vec![Statement::Break])],
            reject: vec![Statement::Return { value: None }],
        },
        Statement::Block(vec![Statement::Continue]),
    ]);
    assert!(text.ends_with('\n'));
    for line in text.lines() {
        let blanks = line.len() - line.trim_start_matches(' ').len();
        assert!(blanks >= 4);
        assert_eq!(blanks % 4, 0);
    }
}

#[test]
fn implied_value_is_returned_in_the_render_pipeline() {
    let stage_text = |stage: ShaderStage| {
        let nested = Statement::Block(vec![Statement::Return { value: None }]);
        let fun = function(vec![nested, Statement::Return { value: Some(ONE) }]);
        write(&module(Vec::new(), vec![EntryPoint { stage, function: fun }]))
    };
    let render = "    f a;\n    {\n        return output;\n    }\n    return 1;\n}\n";
    assert!(stage_text(ShaderStage::Vertex).ends_with(render));
    assert!(stage_text(ShaderStage::Fragment).ends_with(render));
    assert!(stage_text(ShaderStage::Compute)
        .ends_with("    f a;\n    {\n        return ;\n    }\n    return 1;\n}\n"));
}

#[test]
fn indentation() {
    let text = |depth: usize| {
        let mut out = String::from("|");
        Level(depth).fmt(&mut out);
        out
    };
    assert_eq!(text(0), "|");
    assert_eq!(text(1), "|    ");
    assert_eq!(text(3), "|            ");
    assert_eq!(Level(3).next(), Level(4));
}

#[test]
fn statements_that_cannot_be_written_are_found() {
    let check = |body: Vec<Statement>| is_writable(&module(vec![function(body)], Vec::new()));
    assert!(check(vec![Statement::Return { value: Some(ONE) }]));
    assert!(!check(vec![Statement::Return { value: Some(2) }]));
    assert!(!check(vec![Statement::Store { pointer: A, value: 2 }]));
    assert!(!check(vec![Statement::Store { pointer: 2, value: A }]));
    assert!(!check(vec![Statement::Block(vec![Statement::Return { value: Some(2) }])]));
    assert!(!check(vec![Statement::If {
        condition: 2,
        accept: Vec::new(),
        reject: Vec::new(),
    }]));
    assert!(!check(vec![Statement::Switch {
        selector: A,
        cases: vec![case(0, vec![Statement::Return { value: Some(2) }], false)],
        default: Vec::new(),
    }]));
    assert!(!check(vec![gated("g", Vec::new(), vec![Statement::Return { value: Some(2) }])]));
}

#[test]
fn implied_value_matters_only_to_a_bare_return() {
    let text = |stage: ShaderStage, value: Option<usize>| {
        let body = vec![
            Statement::If {
                condition: A,
                accept: vec![Statement::Return { value }],
                reject: vec![Statement::Kill],
            },
            gated("g", vec![Statement::Return { value }], vec![Statement::Break]),
        ];
        let entry_point = EntryPoint { stage, function: function(body) };
        let text = write(&module(Vec::new(), vec![entry_point]));
        let start = text.find("    if (a) {").unwrap();
        String::from(&text[start..])
    };
    let render = text(ShaderStage::Vertex, Some(ONE));
    assert!(render.starts_with("    if (a) {\n        return 1;\n    } else {\n"));
    assert_eq!(render, text(ShaderStage::Compute, Some(ONE)));
    assert_ne!(text(ShaderStage::Vertex, None), text(ShaderStage::Compute, None));
}
