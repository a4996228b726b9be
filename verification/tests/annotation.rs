use smali2jimple::annotation::{
    Annotation, AnnotationParameter, AnnotationParameterValue, AnnotationVisibility,
};
use smali2jimple::error::{Error, ParseErrorDisplayed};
use smali2jimple::literal::Literal;
use smali2jimple::tokenizer::Tokenizer;
use smali2jimple::types::{CallSignature, MethodSignature, Type};

fn tokenizer(data: &str) -> Tokenizer {
    Tokenizer::new(data.to_string(), "dummy")
}

fn normalize(data: &str) -> String {
    data.split(['\r', '\n'])
        .map(|line| line.trim())
        .filter(|line| !line.is_empty())
        .collect::<Vec<_>>()
        .join(" ")
        .replace("( ", "(")
        .replace(" )", ")")
}

/// Floating-point literals are carried as text; this writes each of them the
/// way the number itself is written.
fn with_numbers_as_written(value: &mut AnnotationParameterValue) {
    match value {
        AnnotationParameterValue::Literal(Literal::Float(text)) => {
            *text = format!("{}", text.parse::<f32>().unwrap());
        }
        AnnotationParameterValue::Literal(Literal::Double(text)) => {
            *text = format!("{}", text.parse::<f64>().unwrap());
        }
        AnnotationParameterValue::Array(values) => {
            values.iter_mut().for_each(with_numbers_as_written);
        }
        AnnotationParameterValue::SubAnnotation(annotation) => {
            for parameter in annotation.parameters.iter_mut() {
                with_numbers_as_written(&mut parameter.value);
            }
        }
        _ => {}
    }
}

#[test]
fn read_annotation() -> Result<(), ParseErrorDisplayed> {
    let input = tokenizer(r#"
            .annotation system Ldalvik/annotation/AnnotationDefault;
                value = .subannotation LAnnotationWithValues;
                            booleanValue = false
                            byteValue = 1t
                            charValue = '2'
                            shortValue = 3s
                            intValue = 4
                            longValue = 5l
                            floatValue = 6.0f
                            doubleValue = 7.0
                            stringValue = "8"
                            subAnnotationValue = .subannotation LSubAnnotation;
                                                        stringValue = "9"
                                                .end subannotation
                            typeValue = L10;
                            methodValue = L10;->11()V
                            methodValue2 = Lj2/b;->connect(Ljava/lang/String;II)V
                            methodHandle = invoke-static@Lj2/b;-><init>(Ljava/lang/String;II)V
                            methodType = (Ljava/lang/String;II)V
                            enumValue = .enum LEnum;->12:LEnum;
                        .end subannotation
            .end annotation

            .annotation runtime Ldalvik/annotation/MemberClasses;
                value = {
                    Lj2/b$a;
                }
            .end annotation

            .annotation build Ldalvik/annotation/Signature;
                value = {
                    "Ljava/lang/Enum<",
                    "Lj2/b;",
                    ">;"
                }
            .end annotation

            .annotation runtime Ljava/lang/annotation/Target;
                value = {
                    .enum Ljava/lang/annotation/ElementType;->PACKAGE:Ljava/lang/annotation/ElementType;,
                    .enum Ljava/lang/annotation/ElementType;->TYPE:Ljava/lang/annotation/ElementType;,
                }
            .end annotation
        "#.trim());

    let input = input.expect_directive("annotation")?;
    let (input, annotation) = Annotation::read(&input, false)?;
    assert_eq!(
        annotation,
        Annotation {
            annotation_type: Type::Object("dalvik.annotation.AnnotationDefault".to_string()),
            visibility: AnnotationVisibility::System,
            parameters: vec![AnnotationParameter {
                name: "value".to_string(),
                value: AnnotationParameterValue::SubAnnotation(Annotation {
                    annotation_type: Type::Object("AnnotationWithValues".to_string()),
                    visibility: AnnotationVisibility::Build,
                    parameters: vec![
                        AnnotationParameter {
                            name: "booleanValue".to_string(),
                            value: AnnotationParameterValue::Literal(Literal::Bool(false)),
                        },
                        AnnotationParameter {
                            name: "byteValue".to_string(),
                            value: AnnotationParameterValue::Literal(Literal::Byte(1)),
                        },
                        AnnotationParameter {
                            name: "charValue".to_string(),
                            value: AnnotationParameterValue::Literal(Literal::Char('2')),
                        },
                        AnnotationParameter {
                            name: "shortValue".to_string(),
                            value: AnnotationParameterValue::Literal(Literal::Short(3)),
                        },
                        AnnotationParameter {
                            name: "intValue".to_string(),
                            value: AnnotationParameterValue::Literal(Literal::Int(4)),
                        },
                        AnnotationParameter {
                            name: "longValue".to_string(),
                            value: AnnotationParameterValue::Literal(Literal::Long(5)),
                        },
                        AnnotationParameter {
                            name: "floatValue".to_string(),
                            value: AnnotationParameterValue::Literal(Literal::Float(
                                "6.0".to_string()
                            )),
                        },
                        AnnotationParameter {
                            name: "doubleValue".to_string(),
                            value: AnnotationParameterValue::Literal(Literal::Double(
                                "7.0".to_string()
                            )),
                        },
                        AnnotationParameter {
                            name: "stringValue".to_string(),
                            value: AnnotationParameterValue::Literal(Literal::String(
                                "8".to_string()
                            )),
                        },
                        AnnotationParameter {
                            name: "subAnnotationValue".to_string(),
                            value: AnnotationParameterValue::SubAnnotation(Annotation {
                                annotation_type: Type::Object("SubAnnotation".to_string()),
                                visibility: AnnotationVisibility::Build,
                                parameters: vec![AnnotationParameter {
                                    name: "stringValue".to_string(),
                                    value: AnnotationParameterValue::Literal(Literal::String(
                                        "9".to_string()
                                    )),
                                },]
                            }),
                        },
                        AnnotationParameter {
                            name: "typeValue".to_string(),
                            value: AnnotationParameterValue::Literal(Literal::Class(
                                Type::Object("10".to_string())
                            )),
                        },
                        AnnotationParameter {
                            name: "methodValue".to_string(),
                            value: AnnotationParameterValue::Literal(Literal::Method(
                                MethodSignature {
                                    object_type: Type::Object("10".to_string()),
                                    method_name: "11".to_string(),
                                    call_signature: CallSignature {
                                        parameter_types: Vec::new(),
                                        return_type: Type::Void,
                                    },
                                }
                            )),
                        },
                        AnnotationParameter {
                            name: "methodValue2".to_string(),
                            value: AnnotationParameterValue::Literal(Literal::Method(
                                MethodSignature {
                                    object_type: Type::Object("j2.b".to_string()),
                                    method_name: "connect".to_string(),
                                    call_signature: CallSignature {
                                        parameter_types: vec![
                                            Type::Object("java.lang.String".to_string()),
                                            Type::Int,
                                            Type::Int,
                                        ],
                                        return_type: Type::Void,
                                    },
                                }
                            )),
                        },
                        AnnotationParameter {
                            name: "methodHandle".to_string(),
                            value: AnnotationParameterValue::Literal(Literal::MethodHandle(
                                "invoke-static".to_string(),
                                MethodSignature {
                                    object_type: Type::Object("j2.b".to_string()),
                                    method_name: "<init>".to_string(),
                                    call_signature: CallSignature {
                                        parameter_types: vec![
                                            Type::Object("java.lang.String".to_string()),
                                            Type::Int,
                                            Type::Int,
                                        ],
                                        return_type: Type::Void,
                                    },
                                }
                            )),
                        },
                        AnnotationParameter {
                            name: "methodType".to_string(),
                            value: AnnotationParameterValue::Literal(Literal::MethodType(
                                CallSignature {
                                    parameter_types: vec![
                                        Type::Object("java.lang.String".to_string()),
                                        Type::Int,
                                        Type::Int,
                                    ],
                                    return_type: Type::Void,
                                }
                            )),
                        },
                        AnnotationParameter {
                            name: "enumValue".to_string(),
                            value: AnnotationParameterValue::Enum(
                                Type::Object("Enum".to_string()),
                                "12".to_string(),
                            ),
                        },
                    ],
                }),
            },],
        }
    );
    assert!(input.expect_eof().is_err());

    let input = input.expect_directive("annotation")?;
    let (input, annotation) = Annotation::read(&input, false)?;
    assert_eq!(
        annotation,
        Annotation {
            annotation_type: Type::Object("dalvik.annotation.MemberClasses".to_string()),
            visibility: AnnotationVisibility::Runtime,
            parameters: vec![AnnotationParameter {
                name: "value".to_string(),
                value: AnnotationParameterValue::Array(vec![
                    AnnotationParameterValue::Literal(Literal::Class(Type::Object(
                        "j2.b$a".to_string()
                    ))),
                ]),
            }],
        }
    );
    assert!(input.expect_eof().is_err());

    let input = input.expect_directive("annotation")?;
    let (input, annotation) = Annotation::read(&input, false)?;
    assert_eq!(
        annotation,
        Annotation {
            annotation_type: Type::Object("dalvik.annotation.Signature".to_string()),
            visibility: AnnotationVisibility::Build,
            parameters: vec![AnnotationParameter {
                name: "value".to_string(),
                value: AnnotationParameterValue::Array(vec![
                    AnnotationParameterValue::Literal(Literal::String(
                        "Ljava/lang/Enum<".to_string()
                    )),
                    AnnotationParameterValue::Literal(Literal::String("Lj2/b;".to_string())),
                    AnnotationParameterValue::Literal(Literal::String(">;".to_string())),
                ]),
            }],
        }
    );
    assert!(input.expect_eof().is_err());

    let input = input.expect_directive("annotation")?;
    let (input, annotation) = Annotation::read(&input, false)?;
    assert_eq!(
        annotation,
        Annotation {
            annotation_type: Type::Object("java.lang.annotation.Target".to_string()),
            visibility: AnnotationVisibility::Runtime,
            parameters: vec![AnnotationParameter {
                name: "value".to_string(),
                value: AnnotationParameterValue::Array(vec![
                    AnnotationParameterValue::Enum(
                        Type::Object("java.lang.annotation.ElementType".to_string()),
                        "PACKAGE".to_string()
                    ),
                    AnnotationParameterValue::Enum(
                        Type::Object("java.lang.annotation.ElementType".to_string()),
                        "TYPE".to_string()
                    ),
                ]),
            }],
        }
    );
    assert!(input.expect_eof().is_ok());

    Ok(())
}

#[test]
fn write_annotation() -> Result<(), ParseErrorDisplayed> {
    let mut input = tokenizer(r#"
            .annotation system Ldalvik/annotation/AnnotationDefault;
                value = .subannotation LAnnotationWithValues;
                            nullValue = null
                            booleanValue = false
                            byteValue = 1t
                            charValue = '2'
                            shortValue = 3s
                            intValue = 4
                            longValue = 5l
                            floatValue = 6.0f
                            doubleValue = 7.0
                            stringValue = "8"
                            subAnnotationValue = .subannotation LSubAnnotation;
                                                        stringValue = "9"
                                                .end subannotation
                            typeValue = L10;
                            methodValue = L10;->11()V
                            methodValue2 = Lj2/b;-><init>(Ljava/lang/String;II)V
                            enumValue = .enum LEnum;->12:LEnum;
                        .end subannotation
            .end annotation

            .annotation runtime Ldalvik/annotation/MemberClasses;
                value = {
                    Lj2/b$a;
                }
            .end annotation

            .annotation build Ldalvik/annotation/Signature;
                value = {
                    "Ljava/lang/Enum<",
                    "Lj2/b;",
                    ">;"
                }
            .end annotation

            .annotation runtime Ljava/lang/annotation/Target;
                value = {
                    .enum Ljava/lang/annotation/ElementType;->PACKAGE:Ljava/lang/annotation/ElementType;,
                    .enum Ljava/lang/annotation/ElementType;->TYPE:Ljava/lang/annotation/ElementType;,
                }
            .end annotation
        "#.trim());

    let expected = [
        r#"@dalvik.annotation.AnnotationDefault(
                value = @AnnotationWithValues(
                    nullValue = null,
                    booleanValue = false,
                    byteValue = 0x1,
                    charValue = '2',
                    shortValue = 0x3,
                    intValue = 0x4,
                    longValue = 0x5,
                    floatValue = 6,
                    doubleValue = 7,
                    stringValue = "8",
                    subAnnotationValue = @SubAnnotation(stringValue = "9"),
                    typeValue = 10.class,
                    methodValue = void 10.11(),
                    methodValue2 = void j2.b.<init>(java.lang.String, int, int),
                    enumValue = Enum.12
                )
            )"#,
        "@dalvik.annotation.MemberClasses(value = {j2.b$a.class})",
        r#"@dalvik.annotation.Signature(value = {"Ljava/lang/Enum<", "Lj2/b;", ">;"})"#,
        "@java.lang.annotation.Target(value = {java.lang.annotation.ElementType.PACKAGE, java.lang.annotation.ElementType.TYPE})",
    ];

    for expected_result in expected {
        input = input.expect_directive("annotation")?;

        let mut annotation;
        (input, annotation) = Annotation::read(&input, false)?;
        for parameter in annotation.parameters.iter_mut() {
            with_numbers_as_written(&mut parameter.value);
        }

        let mut output = String::new();
        annotation.write_jimple(&mut output, -1);

        assert_eq!(output, normalize(expected_result));
    }

    input.expect_eof()?;

    Ok(())
}

#[test]
fn annotation_on_a_line_of_its_own() {
    let input = tokenizer(".annotation build La/B;\n  x = 1.50f\n.end annotation\n");
    let input = input.expect_directive("annotation").unwrap();
    let (_, annotation) = Annotation::read(&input, false).unwrap();
    let mut output = String::from("-");
    annotation.write_jimple(&mut output, 2);
    assert_eq!(output, "-        @a.B(x = 1.50) // build\n");

    let input = tokenizer("system La/B;\n.end annotation");
    let (_, annotation) = Annotation::read(&input, false).unwrap();
    let mut output = String::new();
    annotation.write_jimple(&mut output, 0);
    assert_eq!(output, "@a.B() // system\n");

    let input = tokenizer("runtime La/B;\n  v = { }\n.end annotation");
    let (_, annotation) = Annotation::read(&input, false).unwrap();
    let mut output = String::new();
    annotation.write_jimple(&mut output, 1);
    assert_eq!(output, "    @a.B(v = {})\n");
}

#[test]
fn annotation_errors() {
    let error = Annotation::read(&tokenizer("public La/B;\n.end annotation"), false).unwrap_err();
    assert_eq!(error.expected(), "annotation visibility");
    assert_eq!(error.pos(), 0);

    let input = tokenizer("x = .enum La/B;->C:La/D;");
    let error = AnnotationParameter::read(&input).unwrap_err();
    assert_eq!(error.expected(), "a.B");
    assert_eq!(error.pos(), 19);

    let error = Annotation::read(&tokenizer("La/B;\n.end annotation"), true).unwrap_err();
    assert_eq!(error.expected(), "subannotation");

    let error = AnnotationParameterValue::read(&tokenizer("{\n 1\n 2")).unwrap_err();
    assert_eq!(error.expected(), "a keyword");
    assert_eq!(error.pos(), 7);
}

#[test]
fn visibility_keywords() {
    assert_eq!(
        AnnotationVisibility::try_from("build"),
        Ok(AnnotationVisibility::Build)
    );
    assert_eq!(
        AnnotationVisibility::try_from("runtime"),
        Ok(AnnotationVisibility::Runtime)
    );
    assert_eq!(
        AnnotationVisibility::try_from("system"),
        Ok(AnnotationVisibility::System)
    );
    assert_eq!(
        AnnotationVisibility::try_from("other"),
        Err(Error::UnrecognizedToken("other".to_string()))
    );
    let (rest, visibility) = AnnotationVisibility::read(&tokenizer(" runtime x")).unwrap();
    assert_eq!(visibility, AnnotationVisibility::Runtime);
    assert_eq!(rest.read_keyword().unwrap().1, "x");
}
