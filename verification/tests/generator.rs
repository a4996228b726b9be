use smali2jimple::instruction::jimple::{bin_op, if_op, operator_of, unary_op};
use smali2jimple::instruction::registers::{Register, Registers, Variable};
use smali2jimple::instruction::{CommandData, CommandParameter, Instruction};
use smali2jimple::literal::Literal;
use smali2jimple::tokenizer::Tokenizer;
use smali2jimple::types::Type;
use smali2jimple::warning::Warning;

fn tokenizer(data: &str) -> Tokenizer {
    Tokenizer::new(data.to_string(), "dummy")
}

fn read(statement: &str) -> Instruction {
    let (rest, instruction) = Instruction::read(&tokenizer(statement)).unwrap();
    assert!(rest.expect_eof().is_ok());
    instruction
}

fn write(instruction: &Instruction) -> (String, Vec<Warning>) {
    let mut output = String::new();
    let mut warnings = Vec::new();
    instruction.write_jimple(&mut output, &mut warnings);
    (output, warnings)
}

fn written(statement: &str) -> String {
    let mut instruction = read(statement);
    instruction.fix_check_cast();
    let (output, warnings) = write(&instruction);
    assert_eq!(warnings, Vec::new());
    output
}

#[test]
fn range_of_one_kind_expands() {
    let range = Registers::Range(Register::Local(2), Register::Local(5));
    assert_eq!(
        Registers::resolve_range(&Register::Local(2), &Register::Local(5)),
        Some(vec![
            Register::Local(2),
            Register::Local(3),
            Register::Local(4),
            Register::Local(5)
        ])
    );
    let mut warnings = Vec::new();
    assert_eq!(
        range.to_string(true, &mut warnings),
        (Some("v2".to_string()), "v3, v4, v5".to_string())
    );
    assert_eq!(
        range.to_string(false, &mut warnings),
        (None, "v2, v3, v4, v5".to_string())
    );
    assert!(warnings.is_empty());

    assert_eq!(
        Registers::resolve_range(&Register::Parameter(7), &Register::Parameter(7)),
        Some(vec![Register::Parameter(7)])
    );
    assert_eq!(
        Registers::resolve_range(&Register::Parameter(3), &Register::Parameter(2)),
        Some(vec![])
    );
    assert_eq!(
        Registers::resolve_range(
            &Register::Local(usize::MAX - 1),
            &Register::Local(usize::MAX)
        ),
        Some(vec![
            Register::Local(usize::MAX - 1),
            Register::Local(usize::MAX)
        ])
    );
}

#[test]
fn range_of_two_kinds_stays_a_range() {
    let range = Registers::Range(Register::Parameter(1), Register::Local(3));
    assert_eq!(
        Registers::resolve_range(&Register::Parameter(1), &Register::Local(3)),
        None
    );
    let mut warnings = Vec::new();
    assert_eq!(
        range.to_string(true, &mut warnings),
        (None, "p1 .. v3".to_string())
    );
    assert_eq!(
        warnings,
        vec![Warning::InvalidRange {
            from: Register::Parameter(1),
            to: Register::Local(3)
        }]
    );
    assert_eq!(
        warnings[0].to_string(),
        "Warning: Invalid parameter range: p1 .. v3"
    );
    assert_eq!(range.text(false), (None, "p1 .. v3".to_string()));

    let instruction = read("filled-new-array/range {p1 .. v3}, [I");
    let (output, warnings) = write(&instruction);
    assert_eq!(output, "        {p1 .. v3};\n");
    assert_eq!(
        warnings,
        vec![Warning::InvalidRange {
            from: Register::Parameter(1),
            to: Register::Local(3)
        }]
    );
}

#[test]
fn lists_of_registers() {
    assert_eq!(
        Registers::stringify_list(&[], true),
        (None, String::new())
    );
    assert_eq!(
        Registers::stringify_list(&[Register::Parameter(0)], true),
        (Some("p0".to_string()), String::new())
    );
    assert_eq!(
        Registers::stringify_list(&[Register::Parameter(0), Register::Local(12)], false),
        (None, "p0, v12".to_string())
    );
    let (_, registers) = Registers::read(&tokenizer(" { v1 , p2,v3 } x")).unwrap();
    assert_eq!(
        registers,
        Registers::List(vec![
            Register::Local(1),
            Register::Parameter(2),
            Register::Local(3)
        ])
    );
    assert_eq!(registers.clone(), registers);
    let (_, registers) = Registers::read(&tokenizer("{}")).unwrap();
    assert_eq!(registers, Registers::List(vec![]));
    let (_, registers) = Registers::read(&tokenizer("{p0 .. p0}")).unwrap();
    assert_eq!(
        registers,
        Registers::Range(Register::Parameter(0), Register::Parameter(0))
    );
    assert_eq!(
        Registers::read(&tokenizer("{v1 v2}")).unwrap_err().expected(),
        "the character ','"
    );
    assert_eq!(
        Registers::read(&tokenizer("{v1,}")).unwrap().1,
        Registers::List(vec![Register::Local(1)])
    );
    assert_eq!(
        Registers::read(&tokenizer("{v1,,}")).unwrap_err().expected(),
        "the character '}'"
    );
    assert_eq!(
        Register::read(&tokenizer("x1")).unwrap_err().expected(),
        "a register"
    );
    assert_eq!(
        Register::read(&tokenizer("v-1")).unwrap_err().expected(),
        "a register"
    );
    assert_eq!(
        Register::read(&tokenizer("vx")).unwrap_err().expected(),
        "a number"
    );
    assert_eq!(Register::read(&tokenizer(" p0x1F")).unwrap().1, Register::Parameter(31));
}

#[test]
fn variables() {
    assert_eq!(Variable::This.to_string(), "@this");
    assert_eq!(Variable::Parameter(3, Type::Int).to_string(), "@p3");
    assert_eq!(Variable::Local(10, Type::Long).to_string(), "$v10");
    assert_eq!(
        Variable::Local(10, Type::Long).clone(),
        Variable::Local(10, Type::Long)
    );
    let (output, _) = write(&Instruction::Command {
        command: "move".to_string(),
        parameters: vec![
            CommandParameter::Result(Register::Local(0)),
            CommandParameter::Variable(Variable::Parameter(1, Type::Int)),
        ],
    });
    assert_eq!(output, "        v0 = @p1;\n");
}

#[test]
fn packed_switch_counts_up_from_its_first_key() {
    let instruction = Instruction::Command {
        command: "packed-switch".to_string(),
        parameters: vec![
            CommandParameter::Register(Register::Local(2)),
            CommandParameter::Data(CommandData::PackedSwitch(
                -1,
                vec![
                    "pswitch_0".to_string(),
                    "pswitch_1".to_string(),
                    "pswitch_2".to_string(),
                ],
            )),
        ],
    };
    let (output, warnings) = write(&instruction);
    assert!(warnings.is_empty());
    assert_eq!(
        output,
        "        switch(v2)\n        {\n            case -0x1: goto pswitch_0;\n            case 0x0: goto pswitch_1;\n            case 0x1: goto pswitch_2;\n        };\n"
    );

    let instruction = Instruction::Command {
        command: "packed-switch".to_string(),
        parameters: vec![
            CommandParameter::Register(Register::Local(2)),
            CommandParameter::Data(CommandData::PackedSwitch(
                i64::MAX,
                vec!["a".to_string(), "b".to_string()],
            )),
        ],
    };
    let (output, _) = write(&instruction);
    assert_eq!(
        output,
        "        switch(v2)\n        {\n            case 0x7fffffffffffffff: goto a;\n            case 0x8000000000000000: goto b;\n        };\n"
    );
}

#[test]
fn sparse_switch_and_array_data() {
    let instruction = Instruction::Command {
        command: "sparse-switch".to_string(),
        parameters: vec![
            CommandParameter::Register(Register::Parameter(1)),
            CommandParameter::Data(CommandData::SparseSwitch(vec![
                (Literal::Int(100), "far".to_string()),
                (Literal::Int(-7), "near".to_string()),
            ])),
        ],
    };
    let (output, warnings) = write(&instruction);
    assert!(warnings.is_empty());
    assert_eq!(
        output,
        "        switch(p1)\n        {\n            case 0x64: goto far;\n            case -0x7: goto near;\n        };\n"
    );

    let instruction = Instruction::Command {
        command: "fill-array-data".to_string(),
        parameters: vec![
            CommandParameter::Register(Register::Local(3)),
            CommandParameter::Data(CommandData::Array(vec![
                Literal::Byte(1),
                Literal::Char('a'),
            ])),
        ],
    };
    let (output, _) = write(&instruction);
    assert_eq!(
        output,
        "        v3 = {\n            0x1,\n            'a',\n        };\n"
    );

    let instruction = Instruction::Command {
        command: "fill-array-data".to_string(),
        parameters: vec![
            CommandParameter::Register(Register::Local(3)),
            CommandParameter::Data(CommandData::Array(vec![])),
        ],
    };
    let (output, _) = write(&instruction);
    assert_eq!(output, "        v3 = {\n        };\n");
}

#[test]
fn end_to_end() {
    assert_eq!(written("const/16 v3, 0x400"), "        v3 = 0x400;\n");
    assert_eq!(
        written("iget-object v12, p0, Lo2/h;->a:Landroid/text/Layout;"),
        "        v12 = p0.<android.text.Layout o2.h.a>;\n"
    );
    assert_eq!(
        written("shl-int/lit8 v22, p1, 0x3"),
        "        v22 = p1 << 0x3;\n"
    );
    assert_eq!(
        written("check-cast p0, Lj2/b;"),
        "        p0 = (j2.b) p0;\n"
    );
    assert_eq!(written("NOP"), "        nop;\n");
    assert_eq!(written("Move-Result v1"), "        v1 = move-result;\n");
    assert_eq!(
        written("move-exception v1  # caught"),
        "        v1 = move-exception;\n"
    );
    assert_eq!(written("const/high16 v0, 0x7f"), "        v0 = 0x7f << 16;\n");
    assert_eq!(
        written("const-wide/high16 v0, 0x7fL"),
        "        v0 = 0x7f << 48;\n"
    );
    assert_eq!(
        written("const-string v0, \"a\\\"b\""),
        "        v0 = \"a\\\"b\";\n"
    );
    assert_eq!(
        written("instance-of v0, v1, [I"),
        "        v0 = v1 instance-of int[];\n"
    );
    assert_eq!(written("new-array v0, v1, [J"), "        v0 = new long[][v1];\n");
    assert_eq!(written("throw v9"), "        throw v9;\n");
    assert_eq!(written("cmpl-double v0, v1, v3"), "        v0 = v1 cmpl v3;\n");
    assert_eq!(written("cmpg-float v0, v1, v3"), "        v0 = v1 cmpg v3;\n");
    assert_eq!(written("cmp-long v0, v1, v3"), "        v0 = v1 cmp v3;\n");
    assert_eq!(written("if-eqz v0, :a"), "        if v0 == 0 goto a;\n");
    assert_eq!(written("if-ne v0, v1, :a"), "        if v0 != v1 goto a;\n");
    assert_eq!(written("if-lt v0, v1, :a"), "        if v0 < v1 goto a;\n");
    assert_eq!(written("if-lez v0, :a"), "        if v0 <= 0 goto a;\n");
    assert_eq!(written("not-long v0, v1"), "        v0 = ~v1;\n");
    assert_eq!(written("int-to-byte v0, v1"), "        v0 = (byte) v1;\n");
    assert_eq!(written("double-to-long v0, v1"), "        v0 = (long) v1;\n");
    assert_eq!(written("ushr-long v0, v1, v2"), "        v0 = v1 >>> v2;\n");
    assert_eq!(written("rem-double/2addr v0, v1"), "        v0 %= v1;\n");
    assert_eq!(written("xor-int/lit16 v0, v1, -0x1"), "        v0 = v1 ^ -0x1;\n");
    assert_eq!(written("rsub-int/lit8 v0, v1, 0x5"), "        v0 = 0x5 - v1;\n");
    assert_eq!(written("or-int v0, v1, v2"), "        v0 = v1 | v2;\n");
    assert_eq!(
        written("filled-new-array {v0, v1}, [I"),
        "        {v0, v1};\n"
    );
    assert_eq!(
        written("invoke-interface/range {v0 .. v1}, La/B;->c()V"),
        "        invoke-interface v0.<void a.B.c()>(v1);\n"
    );
    assert_eq!(
        written("invoke-super {p0}, La/B;->c()V"),
        "        invoke-super p0.<void a.B.c()>();\n"
    );
    assert_eq!(
        written("invoke-static/range {v0 .. v1}, La/B;->c(II)V"),
        "        invoke-static <void a.B.c(int, int)>(v0, v1);\n"
    );
    assert_eq!(
        written("invoke-static {}, La/B;->c()V"),
        "        invoke-static <void a.B.c()>();\n"
    );
    assert_eq!(
        written("const-method-handle v0, Invoke-Static@La/B;->c()V"),
        "        v0 = invoke-static@void a.B.c();\n"
    );
    assert_eq!(
        written("const-method-type v0, (I)J"),
        "        v0 = long (int);\n"
    );
    assert_eq!(
        written("sput-object v0, La/B;->c:[La/D;"),
        "        <a.D[] a.B.c> = v0;\n"
    );
}

#[test]
fn other_instructions() {
    assert_eq!(written(".line 12"), "        // line 12\n");
    assert_eq!(written(".line -0x3"), "        // line -3\n");
    assert_eq!(
        write(&Instruction::LineNumber(2, 5)).0,
        "        // line 2-5\n"
    );
    assert_eq!(
        write(&Instruction::LineNumber(i64::MIN, i64::MAX)).0,
        "        // line -9223372036854775808-9223372036854775807\n"
    );
    assert_eq!(written(":goto_0"), "    goto_0:\n");
    assert_eq!(
        written(".catch Ljava/lang/Exception; {:a .. :b} :c"),
        "        catch java.lang.Exception from a to b with c;\n"
    );
    assert_eq!(
        written(".catchall {:a .. :b} :c"),
        "        catch java.lang.Throwable from a to b with c;\n"
    );
    assert_eq!(written(".local v0, \"i\":I, \"Ljava/util/List<I>;\""), "");
    assert_eq!(written(".restart local v0"), "");
    assert_eq!(
        read(".local v0, \"i\":I"),
        Instruction::Local {
            register: "v0".to_string(),
            name: Literal::String("i".to_string()),
            local_type: Type::Int
        }
    );
    assert_eq!(
        read(".restart local p1"),
        Instruction::LocalRestart {
            register: "p1".to_string()
        }
    );
    assert_eq!(
        write(&Instruction::Data(CommandData::Array(vec![Literal::Int(1)]))).0,
        ""
    );
    assert!(read(".line 1").get_moved_result().is_none());
    assert!(!read(".line 1").is_command());
    assert!(read("nop").is_command());
}

#[test]
fn call_without_receiver() {
    let instruction = read("invoke-virtual {}, La/B;->c()V");
    let (output, warnings) = write(&instruction);
    assert_eq!(output, "        invoke-virtual <none>.<void a.B.c()>();\n");
    assert_eq!(
        warnings,
        vec![Warning::MissingReceiver {
            command: "invoke-virtual".to_string()
        }]
    );
    assert_eq!(
        warnings[0].to_string(),
        "Warning: non-static call invoke-virtual has zero parameters"
    );

    let instruction = read("invoke-direct/range {p0 .. v1}, La/B;->c()V");
    let (output, warnings) = write(&instruction);
    assert_eq!(
        output,
        "        invoke-direct <none>.<void a.B.c()>(p0 .. v1);\n"
    );
    assert_eq!(
        warnings,
        vec![
            Warning::InvalidRange {
                from: Register::Parameter(0),
                to: Register::Local(1)
            },
            Warning::MissingReceiver {
                command: "invoke-direct/range".to_string()
            }
        ]
    );
}

#[test]
fn unresolved_data_is_written_as_it_stands() {
    let instruction = read("packed-switch v2, :pswitch_data_0");
    let (output, warnings) = write(&instruction);
    assert_eq!(output, "        packed-switch v2, pswitch_data_0;\n");
    assert_eq!(
        warnings,
        vec![Warning::UnresolvedData {
            label: "pswitch_data_0".to_string()
        }]
    );
    assert_eq!(
        warnings[0].to_string(),
        "Warning: Failed resolving command data pswitch_data_0"
    );
}

#[test]
fn unknown_operation_is_written_as_it_stands() {
    let instruction = Instruction::Command {
        command: "frobnicate".to_string(),
        parameters: vec![
            CommandParameter::Result(Register::Local(0)),
            CommandParameter::Register(Register::Local(1)),
            CommandParameter::Label("there".to_string()),
        ],
    };
    let (output, warnings) = write(&instruction);
    assert_eq!(output, "        v0 = frobnicate v1, there;\n");
    assert_eq!(
        warnings,
        vec![Warning::UnrecognizedOperation {
            command: "frobnicate".to_string()
        }]
    );
    assert_eq!(
        warnings[0].to_string(),
        "Warning: Unrecognized operation frobnicate"
    );

    let instruction = Instruction::Command {
        command: "add-int".to_string(),
        parameters: vec![CommandParameter::DefaultEmptyResult(None)],
    };
    let (output, warnings) = write(&instruction);
    assert_eq!(output, "        add-int;\n");
    assert_eq!(warnings.len(), 1);

    let instruction = Instruction::Command {
        command: "goto".to_string(),
        parameters: vec![],
    };
    let (output, _) = write(&instruction);
    assert_eq!(output, "        goto;\n");
}

#[test]
fn operators_from_mnemonics() {
    assert_eq!(if_op("if-eq"), "==");
    assert_eq!(if_op("if-nez"), "!=");
    assert_eq!(if_op("if-ltzz"), "<");
    assert_eq!(if_op("if-gt"), ">");
    assert_eq!(if_op("if-le"), "<=");
    assert_eq!(if_op("if-gez"), ">=");
    assert_eq!(if_op("if-xx"), "");
    assert_eq!(if_op("z"), "");
    assert_eq!(if_op(""), "");

    assert_eq!(unary_op("neg-int"), "-");
    assert_eq!(unary_op("not-long"), "~");
    assert_eq!(unary_op("int-to-byte"), "(byte) ");
    assert_eq!(unary_op("int-to-char"), "(char) ");
    assert_eq!(unary_op("int-to-short"), "(short) ");
    assert_eq!(unary_op("long-to-int"), "(int) ");
    assert_eq!(unary_op("int-to-long"), "(long) ");
    assert_eq!(unary_op("int-to-float"), "(float) ");
    assert_eq!(unary_op("int-to-double"), "(double) ");
    assert_eq!(unary_op("a-to-b-to-int"), "");
    assert_eq!(unary_op("-to-int"), "(int) ");
    assert_eq!(unary_op("int"), "(int) ");
    assert_eq!(unary_op("array-length"), "");
    assert_eq!(unary_op(""), "");

    assert_eq!(bin_op("add-int"), "+");
    assert_eq!(bin_op("sub-long/2addr"), "-");
    assert_eq!(bin_op("rsub-int/lit8"), "-");
    assert_eq!(bin_op("mul-float"), "*");
    assert_eq!(bin_op("div-double"), "/");
    assert_eq!(bin_op("rem-int/lit16"), "%");
    assert_eq!(bin_op("and-int"), "&");
    assert_eq!(bin_op("or-int"), "|");
    assert_eq!(bin_op("xor-int"), "^");
    assert_eq!(bin_op("shl-int"), "<<");
    assert_eq!(bin_op("shr-int"), ">>");
    assert_eq!(bin_op("ushr-int"), ">>>");
    assert_eq!(bin_op("ushr"), ">>>");
    assert_eq!(bin_op("cmp-long"), "");
    assert_eq!(bin_op("-add"), "");

    assert_eq!(operator_of("if-gtz"), ">");
    assert_eq!(operator_of("float-to-int"), "(int) ");
    assert_eq!(operator_of("and-long/2addr"), "&");
    assert_eq!(operator_of("goto"), "");
}
