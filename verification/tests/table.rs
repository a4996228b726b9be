use smali2jimple::instruction::table::instruction_def;
use smali2jimple::instruction::{
    CommandData, CommandParameter, Instruction, InstructionDef, ParameterKind, ResultTypeDef,
};
use smali2jimple::literal::Literal;
use smali2jimple::tokenizer::Tokenizer;
use smali2jimple::warning::Warning;

const MNEMONICS: [&str; 222] = [
    "nop", "move", "move/from16", "move/16", "move-wide", "move-wide/from16", "move-wide/16",
    "move-object", "move-object/from16", "move-object/16", "move-result", "move-result-wide",
    "move-result-object", "move-exception", "return-void", "return", "return-wide",
    "return-object", "const/4", "const/16", "const", "const/high16", "const-wide/16",
    "const-wide/32", "const-wide", "const-wide/high16", "const-string", "const-string/jumbo",
    "const-class", "monitor-enter", "monitor-exit", "check-cast", "instance-of", "array-length",
    "new-instance", "new-array", "filled-new-array", "filled-new-array/range", "fill-array-data",
    "throw", "goto", "goto/16", "goto/32", "packed-switch", "sparse-switch", "cmpl-float",
    "cmpg-float", "cmpl-double", "cmpg-double", "cmp-long", "if-eq", "if-ne", "if-lt", "if-ge",
    "if-gt", "if-le", "if-eqz", "if-nez", "if-ltz", "if-gez", "if-gtz", "if-lez", "aget",
    "aget-wide", "aget-object", "aget-boolean", "aget-byte", "aget-char", "aget-short", "aput",
    "aput-wide", "aput-object", "aput-boolean", "aput-byte", "aput-char", "aput-short", "iget",
    "iget-wide", "iget-object", "iget-boolean", "iget-byte", "iget-char", "iget-short", "iput",
    "iput-wide", "iput-object", "iput-boolean", "iput-byte", "iput-char", "iput-short", "sget",
    "sget-wide", "sget-object", "sget-boolean", "sget-byte", "sget-char", "sget-short", "sput",
    "sput-wide", "sput-object", "sput-boolean", "sput-byte", "sput-char", "sput-short",
    "invoke-virtual", "invoke-super", "invoke-direct", "invoke-static", "invoke-interface",
    "invoke-virtual/range", "invoke-super/range", "invoke-direct/range", "invoke-static/range",
    "invoke-interface/range", "neg-int", "not-int", "neg-long", "not-long", "neg-float",
    "neg-double", "int-to-long", "int-to-float", "int-to-double", "long-to-int", "long-to-float",
    "long-to-double", "float-to-int", "float-to-long", "float-to-double", "double-to-int",
    "double-to-long", "double-to-float", "int-to-byte", "int-to-char", "int-to-short", "add-int",
    "sub-int", "mul-int", "div-int", "rem-int", "and-int", "or-int", "xor-int", "shl-int",
    "shr-int", "ushr-int", "add-long", "sub-long", "mul-long", "div-long", "rem-long", "and-long",
    "or-long", "xor-long", "shl-long", "shr-long", "ushr-long", "add-float", "sub-float",
    "mul-float", "div-float", "rem-float", "add-double", "sub-double", "mul-double", "div-double",
    "rem-double", "add-int/2addr", "sub-int/2addr", "mul-int/2addr", "div-int/2addr",
    "rem-int/2addr", "and-int/2addr", "or-int/2addr", "xor-int/2addr", "shl-int/2addr",
    "shr-int/2addr", "ushr-int/2addr", "add-long/2addr", "sub-long/2addr", "mul-long/2addr",
    "div-long/2addr", "rem-long/2addr", "and-long/2addr", "or-long/2addr", "xor-long/2addr",
    "shl-long/2addr", "shr-long/2addr", "ushr-long/2addr", "add-float/2addr", "sub-float/2addr",
    "mul-float/2addr", "div-float/2addr", "rem-float/2addr", "add-double/2addr",
    "sub-double/2addr", "mul-double/2addr", "div-double/2addr", "rem-double/2addr",
    "add-int/lit16", "rsub-int", "mul-int/lit16", "div-int/lit16", "rem-int/lit16",
    "and-int/lit16", "or-int/lit16", "xor-int/lit16", "add-int/lit8", "rsub-int/lit8",
    "mul-int/lit8", "div-int/lit8", "rem-int/lit8", "and-int/lit8", "or-int/lit8", "xor-int/lit8",
    "shl-int/lit8", "shr-int/lit8", "ushr-int/lit8", "invoke-polymorphic",
    "invoke-polymorphic/range", "const-method-handle", "const-method-type",
];

fn sample(kind: &ParameterKind) -> Option<&'static str> {
    match kind {
        ParameterKind::Result => Some("v1"),
        ParameterKind::DefaultEmptyResult => None,
        ParameterKind::Register => Some("p2"),
        ParameterKind::Registers => Some("{v3, v4}"),
        ParameterKind::Literal => Some("0x5"),
        ParameterKind::Label => Some(":there"),
        ParameterKind::Type => Some("La/B;"),
        ParameterKind::Field => Some("La/B;->c:I"),
        ParameterKind::Method => Some("La/B;->c(I)V"),
        ParameterKind::MethodHandle => Some("invoke-static@La/B;->c(I)V"),
        ParameterKind::Call => Some("(I)V"),
        ParameterKind::Data => Some(":data"),
    }
}

fn resolved(instruction: &mut Instruction) {
    if let Instruction::Command { parameters, .. } = instruction {
        for parameter in parameters.iter_mut() {
            if let CommandParameter::Data(data) = parameter {
                *data = CommandData::Array(vec![Literal::Int(1)]);
            }
        }
    }
}

#[test]
fn every_entry_parses_and_renders() {
    for mnemonic in MNEMONICS {
        let def = instruction_def(mnemonic).unwrap();
        let arguments: Vec<&str> = def.parameters.iter().filter_map(sample).collect();
        let statement = format!("  {} {}  # comment\n", mnemonic, arguments.join(", "));
        let input = Tokenizer::new(statement.clone(), "dummy");
        let (rest, mut instruction) = Instruction::read(&input).unwrap();
        assert!(rest.expect_eof().is_ok(), "{}", statement);
        match &instruction {
            Instruction::Command {
                command,
                parameters,
            } => {
                assert_eq!(command, mnemonic);
                assert_eq!(parameters.len(), def.parameters.len());
            }
            other => panic!("{:?}", other),
        }
        resolved(&mut instruction);

        let mut first = String::new();
        let mut warnings: Vec<Warning> = Vec::new();
        instruction.write_jimple(&mut first, &mut warnings);
        assert_eq!(warnings, Vec::new(), "{}", statement);
        assert!(first.starts_with("        "), "{}", statement);
        assert!(first.ends_with(";\n"), "{}", statement);
        assert!(!first.contains("{op}"), "{}", statement);

        let mut second = String::new();
        instruction.write_jimple(&mut second, &mut warnings);
        assert_eq!(first, second);

        let shouted = format!("{} {}", mnemonic.to_uppercase(), arguments.join(", "));
        let (_, again) = Instruction::read(&Tokenizer::new(shouted, "dummy")).unwrap();
        match again {
            Instruction::Command { command, .. } => assert_eq!(command, mnemonic),
            other => panic!("{:?}", other),
        }
    }
}

#[test]
fn entries_of_the_table() {
    assert_eq!(instruction_def("invoke-custom"), None);
    assert_eq!(instruction_def("NOP"), None);
    assert_eq!(instruction_def(""), None);
    assert_eq!(
        instruction_def("nop"),
        Some(InstructionDef {
            parameters: &[],
            format: "nop",
            is_moved_result: false,
            result_type: ResultTypeDef::Nothing,
        })
    );
    assert_eq!(
        instruction_def("move-result-object"),
        Some(InstructionDef {
            parameters: &[ParameterKind::Result],
            format: "move-result",
            is_moved_result: true,
            result_type: ResultTypeDef::Object("java.lang.Object"),
        })
    );
    assert_eq!(
        instruction_def("invoke-polymorphic/range"),
        Some(InstructionDef {
            parameters: &[
                ParameterKind::DefaultEmptyResult,
                ParameterKind::Registers,
                ParameterKind::Method,
                ParameterKind::Call
            ],
            format: "invoke-polymorphic {1.this}.<{2}>({1.args}), <{3}>",
            is_moved_result: false,
            result_type: ResultTypeDef::ReturnOf(2),
        })
    );
    assert_eq!(
        instruction_def("aget-wide").unwrap().result_type,
        ResultTypeDef::ElementFrom(1)
    );
    assert_eq!(
        InstructionDef::default(),
        InstructionDef {
            parameters: &[],
            format: "",
            is_moved_result: false,
            result_type: ResultTypeDef::Nothing,
        }
    );
    let moved: Vec<&str> = MNEMONICS
        .iter()
        .copied()
        .filter(|m| instruction_def(m).unwrap().is_moved_result)
        .collect();
    assert_eq!(
        moved,
        vec!["move-result", "move-result-wide", "move-result-object"]
    );
}

#[test]
fn parse_errors_of_commands() {
    let read = |text: &str| Instruction::read(&Tokenizer::new(text.to_string(), "dummy"));
    let error = read("frobnicate v0").unwrap_err();
    assert_eq!(error.expected(), "a supported command");
    assert_eq!(error.pos(), 0);
    let error = read("move v0 v1").unwrap_err();
    assert_eq!(error.expected(), "the character ','");
    assert_eq!(error.pos(), 7);
    let error = read("move v0, v1, v2").unwrap_err();
    assert_eq!(error.expected(), "<EOL>");
    let error = read("invoke-static , La/B;->c()V").unwrap_err();
    assert_eq!(error.expected(), "the character '{'");
    let error = read("goto there").unwrap_err();
    assert_eq!(error.expected(), "the character ':'");
    let error = read(".unknown").unwrap_err();
    assert_eq!(error.expected(), "a supported directive");
    let error = read(".line x").unwrap_err();
    assert_eq!(error.expected(), "a literal");
    let error = read(".line \"x\"").unwrap_err();
    assert_eq!(error.expected(), "a number");
    let error = read(".packed-switch 0x0\n :a\n.end sparse-switch").unwrap_err();
    assert_eq!(error.expected(), "packed-switch");
    let error = read(".array-data 4\n 1\n 2\n").unwrap_err();
    assert_eq!(error.expected(), "a keyword");
    let error = read(".catch {:a .. :b} :c").unwrap_err();
    assert_eq!(error.expected(), "a type");
    let error = read(".restart v0").unwrap_err();
    assert_eq!(error.expected(), "local");
    let error = read("const-method-handle v0, La/B;->c()V").unwrap_err();
    assert_eq!(error.expected(), "a method handle");
    assert_eq!(error.pos(), 23);
    let error = read("const-method-handle v0, invoke-static La/B;->c()V").unwrap_err();
    assert_eq!(error.expected(), "the character '@'");
}
