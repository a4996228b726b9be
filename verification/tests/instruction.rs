use smali2jimple::error::ParseErrorDisplayed;
use smali2jimple::instruction::optimization::RegisterTypes;
use smali2jimple::instruction::registers::{Register, Registers};
use smali2jimple::instruction::{CommandParameter, Instruction, ResultType};
use smali2jimple::literal::Literal;
use smali2jimple::tokenizer::Tokenizer;
use smali2jimple::types::{CallSignature, MethodSignature, Type};
use smali2jimple::warning::Warning;

fn tokenizer(data: &str) -> Tokenizer {
    Tokenizer::new(data.to_string(), "dummy")
}

fn stringify(instruction: Instruction) -> String {
    let mut output = String::new();
    let mut warnings = Vec::new();
    instruction.write_jimple(&mut output, &mut warnings);
    output.trim().to_string()
}

#[test]
fn read_instruction() -> Result<(), ParseErrorDisplayed> {
    let input = tokenizer(
        r#"
                .line 12
                nop
                :label
                invoke-polymorphic {p1, v0, v1}, Ljava/lang/invoke/MethodHandle;->invoke([Ljava/lang/Object;)Ljava/lang/Object;, (II)V
                invoke-polymorphic/range {v0 .. v2}, Ljava/lang/invoke/MethodHandle;->invoke([Ljava/lang/Object;)Ljava/lang/Object;, (II)V
                const-method-handle v0, invoke-static@Ljava/lang/Integer;->toString(I)Ljava/lang/String;
                const-method-type v0, (II)I
                .catch Ljava/lang/NullPointerException; {:try_start_0 .. :try_end_0} :catch_0
                .catchall {:try_start_1 .. :try_end_1} :catch_1
            "#.trim()
    );

    let (input, instruction) = Instruction::read(&input)?;
    assert_eq!(instruction, Instruction::LineNumber(12, 12),);

    let (input, instruction) = Instruction::read(&input)?;
    assert_eq!(
        instruction,
        Instruction::Command {
            command: "nop".to_string(),
            parameters: Vec::new(),
        },
    );

    let (input, instruction) = Instruction::read(&input)?;
    assert_eq!(instruction, Instruction::Label("label".to_string()),);

    let (input, instruction) = Instruction::read(&input)?;
    assert_eq!(
        instruction,
        Instruction::Command {
            command: "invoke-polymorphic".to_string(),
            parameters: vec![
                CommandParameter::DefaultEmptyResult(None),
                CommandParameter::Registers(Registers::List(vec![
                    Register::Parameter(1),
                    Register::Local(0),
                    Register::Local(1),
                ])),
                CommandParameter::Method(MethodSignature {
                    object_type: Type::Object("java.lang.invoke.MethodHandle".to_string()),
                    method_name: "invoke".to_string(),
                    call_signature: CallSignature {
                        parameter_types: vec![Type::Array(Box::new(Type::Object(
                            "java.lang.Object".to_string()
                        )))],
                        return_type: Type::Object("java.lang.Object".to_string())
                    },
                }),
                CommandParameter::Call(CallSignature {
                    parameter_types: vec![Type::Int, Type::Int],
                    return_type: Type::Void,
                }),
            ],
        }
    );

    let (input, instruction) = Instruction::read(&input)?;
    assert_eq!(
        instruction,
        Instruction::Command {
            command: "invoke-polymorphic/range".to_string(),
            parameters: vec![
                CommandParameter::DefaultEmptyResult(None),
                CommandParameter::Registers(Registers::Range(
                    Register::Local(0),
                    Register::Local(2),
                )),
                CommandParameter::Method(MethodSignature {
                    object_type: Type::Object("java.lang.invoke.MethodHandle".to_string()),
                    method_name: "invoke".to_string(),
                    call_signature: CallSignature {
                        parameter_types: vec![Type::Array(Box::new(Type::Object(
                            "java.lang.Object".to_string()
                        )))],
                        return_type: Type::Object("java.lang.Object".to_string())
                    },
                }),
                CommandParameter::Call(CallSignature {
                    parameter_types: vec![Type::Int, Type::Int],
                    return_type: Type::Void,
                })
            ],
        }
    );

    let (input, instruction) = Instruction::read(&input)?;
    assert_eq!(
        instruction,
        Instruction::Command {
            command: "const-method-handle".to_string(),
            parameters: vec![
                CommandParameter::Result(Register::Local(0)),
                CommandParameter::MethodHandle(
                    "invoke-static".to_string(),
                    MethodSignature {
                        object_type: Type::Object("java.lang.Integer".to_string()),
                        method_name: "toString".to_string(),
                        call_signature: CallSignature {
                            parameter_types: vec![Type::Int],
                            return_type: Type::Object("java.lang.String".to_string())
                        },
                    },
                ),
            ],
        }
    );

    let (input, instruction) = Instruction::read(&input)?;
    assert_eq!(
        instruction,
        Instruction::Command {
            command: "const-method-type".to_string(),
            parameters: vec![
                CommandParameter::Result(Register::Local(0)),
                CommandParameter::Call(CallSignature {
                    parameter_types: vec![Type::Int, Type::Int],
                    return_type: Type::Int
                }),
            ],
        }
    );

    let (input, instruction) = Instruction::read(&input)?;
    assert_eq!(
        instruction,
        Instruction::Catch {
            exception: Some(Type::Object("java.lang.NullPointerException".to_string())),
            start_label: "try_start_0".to_string(),
            end_label: "try_end_0".to_string(),
            target: "catch_0".to_string(),
        },
    );

    let (input, instruction) = Instruction::read(&input)?;
    assert_eq!(
        instruction,
        Instruction::Catch {
            exception: None,
            start_label: "try_start_1".to_string(),
            end_label: "try_end_1".to_string(),
            target: "catch_1".to_string(),
        },
    );

    assert!(input.expect_eof().is_ok());
    Ok(())
}

#[test]
fn jimple_write_instruction() -> Result<(), ParseErrorDisplayed> {
    let mut input = tokenizer(r#"
            return-void
            :cond_0
            move-object v0, p2
            neg-int v1, p0
            int-to-float v1, v2
            array-length v0, v1
            return-wide v1
            monitor-enter v2
            .line 6
            const/16 v3, 0x400
            const-class v4, Ljava/lang/String;
            new-instance v5, Ljava/lang/String;
            if-gtz v6, :cond_0
            goto/16 :goto_1
            aget-object v7, p1, v3
            sub-int v8, p3, p2
            if-ge v9, v10, :cond_1
            aput-boolean v11, v3, p1
            iget-object v12, p0, Lo2/h;->a:Landroid/text/Layout;
            iput-wide v13, p0, Lt4/o;->x:J
            sget v14, Ln8/h;->h0:I
            sput-wide v15, Ls1/b;->b:J
            invoke-direct {v16, v17}, Ls1/b$a;-><init>(Lkotlin/jvm/internal/DefaultConstructorMarker;)V
            invoke-static {v18, v19}, Ls1/b;->d(J)J
            invoke-virtual/range {p2 .. p7}, Ls2/t0;->a(Ls2/n;Ls2/c0;IILjava/lang/Object;)Ls2/t0;
            and-long/2addr v20, v21
            shl-int/lit8 v22, p1, 0x3
            rsub-int v23, v24, 0x800
            invoke-polymorphic {p1, v25, v26}, Ljava/lang/invoke/MethodHandle;->invoke([Ljava/lang/Object;)Ljava/lang/Object;, (II)V
        "#.trim());

    let mut expected = r#"
            return;
            cond_0:
            v0 = p2;
            v1 = -p0;
            v1 = (float) v2;
            v0 = array-length v1;
            return v1;
            monitor-enter v2;
            // line 6
            v3 = 0x400;
            v4 = class java.lang.String;
            v5 = new java.lang.String;
            if v6 > 0 goto cond_0;
            goto goto_1;
            v7 = p1[v3];
            v8 = p3 - p2;
            if v9 >= v10 goto cond_1;
            v3[p1] = v11;
            v12 = p0.<android.text.Layout o2.h.a>;
            p0.<long t4.o.x> = v13;
            v14 = <int n8.h.h0>;
            <long s1.b.b> = v15;
            invoke-direct v16.<void s1.b$a.<init>(kotlin.jvm.internal.DefaultConstructorMarker)>(v17);
            invoke-static <long s1.b.d(long)>(v18, v19);
            invoke-virtual p2.<s2.t0 s2.t0.a(s2.n, s2.c0, int, int, java.lang.Object)>(p3, p4, p5, p6, p7);
            v20 &= v21;
            v22 = p1 << 0x3;
            v23 = 0x800 - v24;
            invoke-polymorphic p1.<java.lang.Object java.lang.invoke.MethodHandle.invoke(java.lang.Object[])>(v25, v26), <void (int, int)>;
        "#.trim().split('\n').map(|s| s.trim().to_string()).collect::<Vec<_>>();

    while let Ok((i, instruction)) = Instruction::read(&input) {
        assert_eq!(stringify(instruction), expected.remove(0));
        input = i;
    }

    assert!(expected.is_empty());
    assert!(input.expect_eof().is_ok());

    Ok(())
}

#[test]
fn get_result_type() -> Result<(), ParseErrorDisplayed> {
    let mut state = RegisterTypes::new();
    state.insert(Register::Local(5), ResultType::Type(Type::Double));
    state.insert(
        Register::Local(2),
        ResultType::Type(Type::Array(Box::new(Type::Object(
            "java.lang.String".to_string(),
        )))),
    );

    let mut input = tokenizer(r#"
            return v0
            const/16 v7, 0x3f
            check-cast p0, Lj2/b;
            move-wide v11, v5
            const-class v0, Lhd/e;
            new-array v1, v1, [I
            aget-object v5, v2, v4
            iget-boolean p2, p0, Lhd/c;->x:Z
            invoke-direct {v16, v17}, Ls1/b$a;-><init>(Lkotlin/jvm/internal/DefaultConstructorMarker;)Ljava/lang/String;
            const-method-handle v0, invoke-static@Ljava/lang/Integer;->toString(I)Ljava/lang/String;
            const-method-type v0, (II)I
            invoke-polymorphic {p1, v0, v1}, Ljava/lang/invoke/MethodHandle;->invoke([Ljava/lang/Object;)Ljava/lang/Object;, (II)V
        "#.trim());

    let expected = [
        None,
        Some(ResultType::Literal(Literal::Int(0x3f))),
        Some(ResultType::Type(Type::Object("j2.b".to_string()))),
        Some(ResultType::Type(Type::Double)),
        Some(ResultType::Type(Type::Object("java.lang.Class".to_string()))),
        Some(ResultType::Type(Type::Array(Box::new(Type::Int)))),
        Some(ResultType::Type(Type::Object(
            "java.lang.String".to_string(),
        ))),
        Some(ResultType::Type(Type::Bool)),
        Some(ResultType::Type(Type::Object(
            "java.lang.String".to_string(),
        ))),
        Some(ResultType::Literal(Literal::MethodHandle(
            "invoke-static".to_string(),
            MethodSignature {
                object_type: Type::Object("java.lang.Integer".to_string()),
                method_name: "toString".to_string(),
                call_signature: CallSignature {
                    parameter_types: vec![Type::Int],
                    return_type: Type::Object("java.lang.String".to_string()),
                },
            },
        ))),
        Some(ResultType::Literal(Literal::MethodType(CallSignature {
            parameter_types: vec![Type::Int, Type::Int],
            return_type: Type::Int,
        }))),
        Some(ResultType::Type(Type::Object(
            "java.lang.Object".to_string(),
        ))),
    ];

    for expected_result_type in expected {
        let instruction;
        (input, instruction) = Instruction::read(&input)?;
        let mut warnings = Vec::new();
        assert_eq!(
            instruction.get_result_type(&state, &mut warnings),
            expected_result_type
        );
    }

    input.expect_eof()?;

    Ok(())
}

#[test]
fn get_jump_target() -> Result<(), ParseErrorDisplayed> {
    let mut input = tokenizer(
        r#"
            return v0
            goto/16 :goto_5
            if-eqz v2, :cond_0
        "#
        .trim(),
    );

    let expected = [None, Some("goto_5".to_string()), Some("cond_0".to_string())];

    for expected_label in expected {
        let instruction;
        (input, instruction) = Instruction::read(&input)?;
        assert_eq!(instruction.get_jump_target(), expected_label);
    }

    input.expect_eof()?;

    Ok(())
}

#[test]
fn result_type_warnings() {
    let state = RegisterTypes::new();
    let (_, instruction) = Instruction::read(&tokenizer("move v0, v1")).unwrap();
    let mut warnings = Vec::new();
    assert_eq!(instruction.get_result_type(&state, &mut warnings), None);
    assert_eq!(
        warnings,
        vec![Warning::UnknownRegisterType {
            register: Register::Local(1)
        }]
    );
    assert_eq!(
        warnings[0].to_string(),
        "Warning: Using register v1, yet its type isn't known yet."
    );

    let mut state = RegisterTypes::new();
    state.insert(Register::Local(1), ResultType::Type(Type::Int));
    state.insert(Register::Local(1), ResultType::Type(Type::Long));
    let (_, instruction) = Instruction::read(&tokenizer("aget v0, v1, v2")).unwrap();
    let mut warnings = Vec::new();
    assert_eq!(instruction.get_result_type(&state, &mut warnings), None);
    assert_eq!(
        warnings,
        vec![Warning::NotAnArray {
            command: "aget".to_string()
        }]
    );
    assert_eq!(
        state.get(&Register::Local(1)),
        Some(&ResultType::Type(Type::Long))
    );
    assert_eq!(state.get(&Register::Local(2)), None);

    let (_, instruction) = Instruction::read(&tokenizer("move-exception v0")).unwrap();
    let mut warnings = Vec::new();
    assert_eq!(
        instruction.get_result_type(&state, &mut warnings),
        Some(ResultType::Type(Type::Object(
            "java.lang.exception".to_string()
        )))
    );
    assert!(warnings.is_empty());
    assert_eq!(
        Instruction::Label("a".to_string()).get_result_type(&state, &mut warnings),
        None
    );
}

#[test]
fn result_type_of_parameters_without_one() {
    let state = RegisterTypes::new();
    let instruction = Instruction::Command {
        command: "move".to_string(),
        parameters: vec![
            CommandParameter::Result(Register::Local(0)),
            CommandParameter::Label("there".to_string()),
        ],
    };
    let mut warnings = Vec::new();
    assert_eq!(instruction.get_result_type(&state, &mut warnings), None);
    assert_eq!(
        warnings,
        vec![Warning::UntypedParameter {
            command: "move".to_string()
        }]
    );
    assert_eq!(
        warnings[0].to_string(),
        "Warning: Trying to deduce type from unexpected parameter of move"
    );

    let instruction = Instruction::Command {
        command: "invoke-static".to_string(),
        parameters: vec![
            CommandParameter::DefaultEmptyResult(None),
            CommandParameter::Registers(Registers::List(vec![])),
            CommandParameter::Type(Type::Int),
        ],
    };
    let mut warnings = Vec::new();
    assert_eq!(instruction.get_result_type(&state, &mut warnings), None);
    assert_eq!(
        warnings,
        vec![Warning::NotACall {
            command: "invoke-static".to_string()
        }]
    );
    assert_eq!(
        warnings[0].to_string(),
        "Warning: Trying to deduce return type from a non-call parameter of invoke-static"
    );
    assert_eq!(
        Warning::NotAnArray {
            command: "aget".to_string()
        }
        .to_string(),
        "Warning: Trying to deduce element type from non-array parameter of aget"
    );

    let instruction = Instruction::Command {
        command: "invoke-static".to_string(),
        parameters: vec![CommandParameter::DefaultEmptyResult(None)],
    };
    let mut warnings = Vec::new();
    assert_eq!(instruction.get_result_type(&state, &mut warnings), None);
    assert!(warnings.is_empty());

    let (_, instruction) = Instruction::read(&tokenizer("sget-object v0, La/B;->c:[I")).unwrap();
    assert_eq!(
        instruction.get_result_type(&state, &mut warnings),
        Some(ResultType::Type(Type::Array(Box::new(Type::Int))))
    );
    assert_eq!(
        ResultType::from(Type::Int),
        ResultType::Type(Type::Int)
    );
    assert_eq!(
        ResultType::from(Literal::Null).clone(),
        ResultType::Literal(Literal::Null)
    );
}
