use smali2jimple::instruction::optimization::DataTable;
use smali2jimple::instruction::registers::{Register, Registers};
use smali2jimple::instruction::{CommandData, CommandParameter, Instruction};
use smali2jimple::literal::Literal;
use smali2jimple::method::Method;
use smali2jimple::tokenizer::Tokenizer;
use smali2jimple::types::{CallSignature, MethodSignature, Type};
use smali2jimple::warning::Warning;

fn method(body: &str) -> Method {
    let mut input = Tokenizer::new(body.trim().to_string() + "\n", "dummy");
    let mut instructions = Vec::new();
    while input.expect_eof().is_err() {
        let (rest, instruction) = Instruction::read(&input).unwrap();
        instructions.push(instruction);
        input = rest;
    }
    Method {
        name: "run".to_string(),
        visibility: Vec::new(),
        parameters: Vec::new(),
        return_type: Type::Int,
        annotations: Vec::new(),
        instructions,
    }
}

fn optimized(body: &str) -> (Vec<Instruction>, Vec<Warning>) {
    let mut method = method(body);
    let mut warnings = Vec::new();
    method.optimize(&mut warnings);
    assert_eq!(method.name, "run");
    assert_eq!(method.return_type, Type::Int);
    (method.instructions, warnings)
}

#[test]
fn line_markers_collapse() {
    let (instructions, warnings) = optimized(".line 7\n.line 8\n.line 9\n.line 10\n");
    assert_eq!(instructions, vec![Instruction::LineNumber(7, 10)]);
    assert!(warnings.is_empty());

    let (instructions, _) = optimized(".line 7\n");
    assert_eq!(instructions, vec![Instruction::LineNumber(7, 7)]);

    let (instructions, _) = optimized(".line 9\n.line 3\n.line 5\n");
    assert_eq!(instructions, vec![Instruction::LineNumber(3, 9)]);

    let (instructions, _) = optimized(".line 1\n.line 2\nnop\n.line 3\n:a\n.line 4\n.line 5");
    assert_eq!(
        instructions,
        vec![
            Instruction::LineNumber(1, 2),
            Instruction::Command {
                command: "nop".to_string(),
                parameters: vec![]
            },
            Instruction::LineNumber(3, 3),
            Instruction::Label("a".to_string()),
            Instruction::LineNumber(4, 5),
        ]
    );
}

#[test]
fn moved_result_is_inlined() {
    let (instructions, warnings) =
        optimized("invoke-static {v18, v19}, Ls1/b;->d(J)J\nmove-result-wide v13\n");
    assert!(warnings.is_empty());
    assert_eq!(
        instructions,
        vec![Instruction::Command {
            command: "invoke-static".to_string(),
            parameters: vec![
                CommandParameter::DefaultEmptyResult(Some(Register::Local(13))),
                CommandParameter::Registers(Registers::List(vec![
                    Register::Local(18),
                    Register::Local(19)
                ])),
                CommandParameter::Method(MethodSignature {
                    object_type: Type::Object("s1.b".to_string()),
                    method_name: "d".to_string(),
                    call_signature: CallSignature {
                        parameter_types: vec![Type::Long],
                        return_type: Type::Long,
                    },
                }),
            ],
        }]
    );
}

#[test]
fn moved_result_passes_what_is_no_command() {
    let (instructions, warnings) = optimized(
        "filled-new-array {v0}, [I\n:label\n.line 3\n.local v1, \"a\":I\nmove-result-object v2\nnop",
    );
    assert!(warnings.is_empty());
    assert_eq!(instructions.len(), 5);
    let mut output = String::new();
    let mut warnings = Vec::new();
    instructions[0].write_jimple(&mut output, &mut warnings);
    assert_eq!(output, "        v2 = {v0};\n");
}

#[test]
fn moved_result_without_a_taker_stays() {
    let (instructions, warnings) = optimized("move-result v1\n");
    assert_eq!(
        instructions,
        vec![Instruction::Command {
            command: "move-result".to_string(),
            parameters: vec![CommandParameter::Result(Register::Local(1))],
        }]
    );
    assert_eq!(
        warnings,
        vec![Warning::FailedInlining {
            method: "int run".to_string()
        }]
    );
    assert_eq!(
        warnings[0].to_string(),
        "Warning: Failed inlining result in method <int run()>"
    );

    let (instructions, warnings) = optimized("nop\nmove-result v1\n");
    assert_eq!(instructions.len(), 2);
    assert_eq!(warnings.len(), 1);

    let (instructions, warnings) =
        optimized("invoke-static {}, La/B;->c()I\nmove-result v1\nmove-result v2\n");
    assert_eq!(instructions.len(), 2);
    assert_eq!(
        instructions[1],
        Instruction::Command {
            command: "move-result".to_string(),
            parameters: vec![CommandParameter::Result(Register::Local(2))],
        }
    );
    assert_eq!(warnings.len(), 1);
}

#[test]
fn cast_gets_its_operand_for_result() {
    let (instructions, warnings) = optimized("check-cast p0, La/B;\n");
    assert!(warnings.is_empty());
    assert_eq!(
        instructions,
        vec![Instruction::Command {
            command: "check-cast".to_string(),
            parameters: vec![
                CommandParameter::DefaultEmptyResult(Some(Register::Parameter(0))),
                CommandParameter::Register(Register::Parameter(0)),
                CommandParameter::Type(Type::Object("a.B".to_string())),
            ],
        }]
    );

    let (instructions, warnings) = optimized("check-cast p0, La/B;\nmove-result-object v3\n");
    assert!(warnings.is_empty());
    assert_eq!(instructions.len(), 1);
    let mut output = String::new();
    let mut warnings = Vec::new();
    instructions[0].write_jimple(&mut output, &mut warnings);
    assert_eq!(output, "        v3 = (a.B) p0;\n");
}

#[test]
fn data_blocks_leave_the_body() {
    let (instructions, warnings) = optimized(
        r#"
        fill-array-data v0, :array_0
        packed-switch v1, :missing
        return-void
        :array_0
        .array-data 4
            0x1
            0x2
        .end array-data
        "#,
    );
    assert_eq!(
        warnings,
        vec![Warning::UnresolvedData {
            label: "missing".to_string()
        }]
    );
    assert_eq!(
        instructions,
        vec![
            Instruction::Command {
                command: "fill-array-data".to_string(),
                parameters: vec![
                    CommandParameter::Register(Register::Local(0)),
                    CommandParameter::Data(CommandData::Array(vec![
                        Literal::Int(1),
                        Literal::Int(2)
                    ])),
                ],
            },
            Instruction::Command {
                command: "packed-switch".to_string(),
                parameters: vec![
                    CommandParameter::Register(Register::Local(1)),
                    CommandParameter::Data(CommandData::Label("missing".to_string())),
                ],
            },
            Instruction::Command {
                command: "return-void".to_string(),
                parameters: vec![],
            },
        ]
    );
}

#[test]
fn data_block_without_label_stays_and_is_warned_of() {
    let (instructions, warnings) = optimized(
        r#"
        return-void
        .array-data 4
            0x1
        .end array-data
        :a
        :b
        .sparse-switch
        .end sparse-switch
        .packed-switch 0x0
        .end packed-switch
        "#,
    );
    assert_eq!(
        warnings,
        vec![Warning::DataWithoutLabel {
            method: "int run".to_string()
        }]
    );
    assert_eq!(
        warnings[0].to_string(),
        "Warning: Data block not preceded by a label in method <int run()>"
    );
    assert_eq!(
        instructions,
        vec![
            Instruction::Command {
                command: "return-void".to_string(),
                parameters: vec![],
            },
            Instruction::Data(CommandData::Array(vec![Literal::Int(1)])),
        ]
    );

    let (instructions, warnings) = optimized(".array-data 4\n.end array-data\n");
    assert_eq!(instructions.len(), 1);
    assert_eq!(warnings.len(), 1);
}

#[test]
fn later_block_under_a_label_counts() {
    let mut table = DataTable::new();
    assert!(table.get("a").is_none());
    table.insert("a".to_string(), CommandData::PackedSwitch(1, vec![]));
    table.insert("b".to_string(), CommandData::Array(vec![]));
    table.insert("a".to_string(), CommandData::PackedSwitch(2, vec![]));
    assert_eq!(table.get("a"), Some(&CommandData::PackedSwitch(2, vec![])));
    assert_eq!(table.get("b"), Some(&CommandData::Array(vec![])));
    assert!(table.get("c").is_none());

    let mut instruction = Instruction::Command {
        command: "packed-switch".to_string(),
        parameters: vec![
            CommandParameter::Register(Register::Local(1)),
            CommandParameter::Data(CommandData::Label("a".to_string())),
            CommandParameter::Data(CommandData::Label("z".to_string())),
        ],
    };
    let mut warnings = Vec::new();
    instruction.resolve_data(&table, &mut warnings);
    assert_eq!(
        instruction,
        Instruction::Command {
            command: "packed-switch".to_string(),
            parameters: vec![
                CommandParameter::Register(Register::Local(1)),
                CommandParameter::Data(CommandData::PackedSwitch(2, vec![])),
                CommandParameter::Data(CommandData::Label("z".to_string())),
            ],
        }
    );
    assert_eq!(
        warnings,
        vec![Warning::UnresolvedData {
            label: "z".to_string()
        }]
    );
}

#[test]
fn single_instructions() {
    let (_, mut call) =
        Instruction::read(&Tokenizer::new("invoke-static {}, La/B;->c()I".to_string(), "x"))
            .unwrap();
    assert!(call.inline_result(Register::Local(4)));
    assert!(!call.inline_result(Register::Local(5)));
    let mut output = String::new();
    let mut warnings = Vec::new();
    call.write_jimple(&mut output, &mut warnings);
    assert_eq!(output, "        v4 = invoke-static <int a.B.c()>();\n");

    let mut label = Instruction::Label("a".to_string());
    assert!(!label.inline_result(Register::Local(4)));
    label.fix_check_cast();
    assert_eq!(label, Instruction::Label("a".to_string()));

    let (_, mover) =
        Instruction::read(&Tokenizer::new("move-result-wide p3".to_string(), "x")).unwrap();
    assert_eq!(mover.get_moved_result(), Some(Register::Parameter(3)));
    let (_, other) = Instruction::read(&Tokenizer::new("move v1, p3".to_string(), "x")).unwrap();
    assert_eq!(other.get_moved_result(), None);
}

#[test]
fn method_as_text() {
    let mut method = method(
        r#"
        .line 3
        const/4 v0, 0x1
        :again
        if-eqz v0, :again
        .line 4
        .line 5
        return v0
        "#,
    );
    let mut warnings = Vec::new();
    method.optimize(&mut warnings);
    let mut output = String::new();
    method.write_jimple(&mut output, &mut warnings);
    assert!(warnings.is_empty());
    assert_eq!(
        output,
        "    int run()\n    {\n        // line 3\n        v0 = 0x1;\n\n    again:\n        if v0 == 0 goto again;\n\n        // line 4-5\n        return v0;\n    }\n"
    );
}
