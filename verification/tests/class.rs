use smali2jimple::access_flag::AccessFlag;
use smali2jimple::annotation::{
    Annotation, AnnotationParameter, AnnotationParameterValue, AnnotationVisibility,
};
use smali2jimple::class::Class;
use smali2jimple::error::ParseErrorDisplayed;
use smali2jimple::field::Field;
use smali2jimple::instruction::registers::{Register, Registers};
use smali2jimple::instruction::{CommandParameter, Instruction};
use smali2jimple::literal::Literal;
use smali2jimple::method::{Method, MethodParameter};
use smali2jimple::tokenizer::Tokenizer;
use smali2jimple::types::{CallSignature, MethodSignature, Type};
use smali2jimple::warning::Warning;

fn tokenizer(data: &str) -> Tokenizer {
    Tokenizer::new(data.to_string(), "dummy")
}

#[test]
fn read_super_class() -> Result<(), ParseErrorDisplayed> {
    let input = tokenizer(" .super  Labc/def;  \n");
    let input = input.expect_directive("super")?;
    assert!(matches!(
        Class::read_super_class(&input),
        Ok((input, Some(Type::Object(name)))) if name == "abc.def" && input.expect_eof().is_ok()
    ));

    let input = tokenizer("  .super Ljava/lang/Object;\nwhatever");
    let input = input.expect_directive("super")?;
    assert!(matches!(
        Class::read_super_class(&input),
        Ok((input, None)) if input.read_keyword().map(|(_, k)| k).unwrap_or(String::new()) == "whatever"
    ));

    let input = tokenizer("  .super x Ljava/lang/Object;\n");
    let input = input.expect_directive("super")?;
    assert!(Class::read_super_class(&input).is_err());

    let input = tokenizer("  .super \n Ljava/lang/Object;\n");
    let input = input.expect_directive("super")?;
    assert!(Class::read_super_class(&input).is_err());

    Ok(())
}

#[test]
fn read_interface() -> Result<(), ParseErrorDisplayed> {
    let input = tokenizer(" .implements  Labc/def;  \n");
    let input = input.expect_directive("implements")?;
    assert!(matches!(
        Class::read_interface(&input),
        Ok((input, Type::Object(name))) if name == "abc.def" && input.expect_eof().is_ok()
    ));

    let input = tokenizer("  .implements Ljava/lang/Object;\nwhatever");
    let input = input.expect_directive("implements")?;
    assert!(matches!(
        Class::read_interface(&input),
        Ok((input, Type::Object(name))) if name == "java.lang.Object" &&
            input.read_keyword().map(|(_, k)| k).unwrap_or(String::new()) == "whatever"
    ));

    let input = tokenizer("  .implements x Ljava/lang/Object;\n");
    let input = input.expect_directive("implements")?;
    assert!(Class::read_interface(&input).is_err());

    let input = tokenizer("  .implements \n Ljava/lang/Object;\n");
    let input = input.expect_directive("implements")?;
    assert!(Class::read_interface(&input).is_err());

    Ok(())
}

#[test]
fn read_source_file() -> Result<(), ParseErrorDisplayed> {
    let input = tokenizer(" .source \"File.java\"\n");
    let input = input.expect_directive("source")?;
    assert!(matches!(
        Class::read_source_file(&input),
        Ok((input, name)) if name == "File.java" && input.expect_eof().is_ok()
    ));

    let input = tokenizer(" .source \"File\\\".java\\\\\"\nwhatever");
    let input = input.expect_directive("source")?;
    assert!(matches!(
        Class::read_source_file(&input),
        Ok((input, name)) if name == "File\\\".java\\\\" && input.expect_eof().is_err()
    ));

    let input = tokenizer(" .source \"File.java\\\"\nwhatever");
    let input = input.expect_directive("source")?;
    assert!(Class::read_source_file(&input).is_err());

    Ok(())
}

#[test]
fn read_field() -> Result<(), ParseErrorDisplayed> {
    let input = tokenizer(
        r#"
                .field private final description:Ljava/lang/String; = "hi"

                .field private final final:Z = false

                .field public final f:Lnu/b;
                    .annotation system Ldalvik/annotation/Signature;
                        value = {
                            "Lnu/b<",
                            "Ljava/lang/String;",
                            ">;"
                        }
                    .end annotation
                .end field
            "#
        .trim(),
    );

    let input = input.expect_directive("field")?;
    let (input, field) = Field::read(&input)?;
    assert_eq!(
        field,
        Field {
            name: "description".to_string(),
            field_type: Type::Object("java.lang.String".to_string()),
            visibility: vec![AccessFlag::Private, AccessFlag::Final],
            initial_value: Some(Literal::String("hi".to_string())),
            annotations: Vec::new(),
        }
    );
    assert!(input.expect_eof().is_err());

    let input = input.expect_directive("field")?;
    let (input, field) = Field::read(&input)?;
    assert_eq!(
        field,
        Field {
            name: "final".to_string(),
            field_type: Type::Bool,
            visibility: vec![AccessFlag::Private, AccessFlag::Final],
            initial_value: Some(Literal::Bool(false)),
            annotations: Vec::new(),
        }
    );
    assert!(input.expect_eof().is_err());

    let input = input.expect_directive("field")?;
    let (input, field) = Field::read(&input)?;
    assert_eq!(
        field,
        Field {
            name: "f".to_string(),
            field_type: Type::Object("nu.b".to_string()),
            visibility: vec![AccessFlag::Public, AccessFlag::Final],
            initial_value: None,
            annotations: vec![Annotation {
                annotation_type: Type::Object("dalvik.annotation.Signature".to_string()),
                visibility: AnnotationVisibility::System,
                parameters: vec![AnnotationParameter {
                    name: "value".to_string(),
                    value: AnnotationParameterValue::Array(
                        vec!["Lnu/b<", "Ljava/lang/String;", ">;"]
                            .iter()
                            .map(|v| AnnotationParameterValue::Literal(Literal::String(
                                v.to_string()
                            )))
                            .collect()
                    ),
                }]
            },],
        }
    );
    assert!(input.expect_eof().is_ok());

    Ok(())
}

#[test]
fn read_method() -> Result<(), ParseErrorDisplayed> {
    let input = tokenizer(
        r#"
                .method public synthetic constructor <init>(Ldv/a;Ldv/b;)V
                    .locals 1
                    .param p1    # Ldv/a;
                        .annotation runtime Lz20/t;
                            value = "something"
                        .end annotation
                    .end param
                    .annotation system Ldalvik/annotation/Signature;
                        value = {
                            "(",
                            "Ldv/a<",
                            "Lqu/x;",
                            ">,Ldv/b;)V"
                        }
                    .end annotation

                    invoke-direct {p0}, Ljava/lang/Object;-><init>()V

                    return-void
                .end method
            "#
        .trim(),
    );

    let input = input.expect_directive("method")?;
    let (input, method) = Method::read(&input)?;
    assert_eq!(
        method,
        Method {
            name: "<init>".to_string(),
            visibility: vec![
                AccessFlag::Public,
                AccessFlag::Synthetic,
                AccessFlag::Constructor
            ],
            parameters: vec![
                MethodParameter {
                    parameter_type: Type::Object("dv.a".to_string()),
                    annotations: vec![Annotation {
                        annotation_type: Type::Object("z20.t".to_string()),
                        visibility: AnnotationVisibility::Runtime,
                        parameters: vec![AnnotationParameter {
                            name: "value".to_string(),
                            value: AnnotationParameterValue::Literal(Literal::String(
                                "something".to_string()
                            )),
                        }],
                    }],
                },
                MethodParameter {
                    parameter_type: Type::Object("dv.b".to_string()),
                    annotations: Vec::new(),
                },
            ],
            return_type: Type::Void,
            annotations: vec![Annotation {
                annotation_type: Type::Object("dalvik.annotation.Signature".to_string()),
                visibility: AnnotationVisibility::System,
                parameters: vec![AnnotationParameter {
                    name: "value".to_string(),
                    value: AnnotationParameterValue::Array(
                        vec!["(", "Ldv/a<", "Lqu/x;", ">,Ldv/b;)V"]
                            .iter()
                            .map(|v| AnnotationParameterValue::Literal(Literal::String(
                                v.to_string()
                            )))
                            .collect()
                    ),
                }],
            }],
            instructions: vec![
                Instruction::Command {
                    command: "invoke-direct".to_string(),
                    parameters: vec![
                        CommandParameter::DefaultEmptyResult(None),
                        CommandParameter::Registers(Registers::List(vec![
                            Register::Parameter(0)
                        ])),
                        CommandParameter::Method(MethodSignature {
                            object_type: Type::Object("java.lang.Object".to_string()),
                            method_name: "<init>".to_string(),
                            call_signature: CallSignature {
                                parameter_types: Vec::new(),
                                return_type: Type::Void,
                            },
                        })
                    ]
                },
                Instruction::Command {
                    command: "return-void".to_string(),
                    parameters: Vec::new(),
                }
            ],
        }
    );
    assert!(input.expect_eof().is_ok());

    Ok(())
}

fn stringify(method: Method) -> String {
    let mut output = String::new();
    let mut warnings = Vec::new();
    method.write_jimple(&mut output, &mut warnings);
    output
        .split('\n')
        .map(|s| s.trim().to_string())
        .filter(|s| !s.is_empty())
        .collect::<Vec<_>>()
        .join("\n")
}

#[test]
fn optimization_write_instruction() -> Result<(), ParseErrorDisplayed> {
    let input = tokenizer(r#"
            .method constructor <init>()V
                invoke-direct {v16, v17}, Ls1/b$a;-><init>(Lkotlin/jvm/internal/DefaultConstructorMarker;)Ljava/lang/String;
                move-result-object v15

                invoke-static {v18, v19}, Ls1/b;->d(J)J
                move-result-wide v13

                .line 1
                packed-switch v2, :pswitch_data_0

                sparse-switch v1, :sswitch_data_0

                .line 2
                .line 3
                .line 4
                .line 5
                fill-array-data v3, :array_0

                :pswitch_data_0
                .packed-switch -0x1
                    :pswitch_0
                    :pswitch_1
                    :pswitch_2
                .end packed-switch

                :sswitch_data_0
                .sparse-switch
                    -0x80t -> :sswitch_5
                    -0x4bt -> :sswitch_4
                    -0x47t -> :sswitch_3
                    -0x41t -> :sswitch_2
                    -0x2ct -> :sswitch_1
                    0x4et -> :sswitch_0
                .end sparse-switch

                :array_0
                .array-data 1
                    0x10
                    0x1f
                    -0x10
                    0x7f
                    0x7f
                .end array-data
            .end method
        "#.trim());

    let input = input.expect_directive("method")?;
    let (input, mut method) = Method::read(&input)?;
    assert!(input.expect_eof().is_ok());

    let expected = r#"
            void <init>()
            {
                v15 = invoke-direct v16.<java.lang.String s1.b$a.<init>(kotlin.jvm.internal.DefaultConstructorMarker)>(v17);

                v13 = invoke-static <long s1.b.d(long)>(v18, v19);

                // line 1
                switch(v2)
                {
                    case -0x1: goto pswitch_0;
                    case 0x0: goto pswitch_1;
                    case 0x1: goto pswitch_2;
                };

                switch(v1)
                {
                    case -0x80: goto sswitch_5;
                    case -0x4b: goto sswitch_4;
                    case -0x47: goto sswitch_3;
                    case -0x41: goto sswitch_2;
                    case -0x2c: goto sswitch_1;
                    case 0x4e: goto sswitch_0;
                };

                // line 2-5
                v3 = {
                    0x10,
                    0x1f,
                    -0x10,
                    0x7f,
                    0x7f,
                };
            }
        "#.split('\n').map(|s| s.trim().to_string()).filter(|s| !s.is_empty()).collect::<Vec<_>>().join("\n");

    let mut warnings: Vec<Warning> = Vec::new();
    method.optimize(&mut warnings);
    assert!(warnings.is_empty());
    assert_eq!(stringify(method), expected);

    Ok(())
}

#[test]
fn whole_class() {
    let source = r#".class public final Lcom/example/Point;
.super Ljava/lang/Object;
.source "Point.java"

# interfaces
.implements Ljava/lang/Comparable;
.implements Ljava/io/Serializable;

.annotation runtime Lcom/example/Marker;
.end annotation

# instance fields
.field private final x:I

.field public static final ORIGIN:Ljava/lang/String; = "0"

# direct methods
.method public constructor <init>(IJ)V
    .locals 0
    .param p2    # J
        .annotation build Lcom/example/NonNull;
        .end annotation
    .end param

    .line 7
    invoke-direct {p0}, Ljava/lang/Object;-><init>()V

    iput p1, p0, Lcom/example/Point;->x:I

    .local v0, "unused":I
    .end local v0    # "unused":I
    return-void
.end method

.method public static twice(I)I
    mul-int/lit8 v0, p0, 0x2

    return v0
.end method
"#;
    let (rest, mut class) = Class::read(&tokenizer(source)).unwrap();
    assert!(rest.expect_eof().is_ok());
    assert_eq!(class.class_type, Type::Object("com.example.Point".to_string()));
    assert_eq!(class.super_class, None);
    assert_eq!(class.source_file, Some("Point.java".to_string()));
    assert_eq!(class.fields.len(), 2);
    assert_eq!(class.methods.len(), 2);
    assert_eq!(class.methods[0].parameters[1].annotations.len(), 1);
    assert_eq!(class.methods[0].parameters[0].annotations.len(), 0);

    let mut warnings = Vec::new();
    class.optimize(&mut warnings);
    let mut output = String::new();
    class.write_jimple(&mut output, &mut warnings);
    assert!(warnings.is_empty());
    assert_eq!(
        output,
        r#"// source: Point.java
@com.example.Marker()
public final class com.example.Point implements java.lang.Comparable, java.io.Serializable
{
    private final int x;

    public static final java.lang.String ORIGIN = "0";

    public void <init>(int @p0, @com.example.NonNull() long @p1)
    {
        // line 7
        invoke-direct p0.<void java.lang.Object.<init>()>();
        p0.<int com.example.Point.x> = p1;

        return;
    }

    public static int twice(int @p0)
    {
        v0 = p0 * 0x2;
        return v0;
    }
}
"#
    );
}

#[test]
fn class_kinds_and_errors() {
    let (_, class) = Class::read(&tokenizer(
        ".class public interface abstract La/I;\n.super Ljava/lang/Object;\n",
    ))
    .unwrap();
    let mut output = String::new();
    let mut warnings = Vec::new();
    class.write_jimple(&mut output, &mut warnings);
    assert_eq!(output, "public interface a.I\n{\n}\n");

    let (_, class) = Class::read(&tokenizer(
        ".class public final enum La/E;\n.super Ljava/lang/Enum;\n",
    ))
    .unwrap();
    let mut output = String::new();
    class.write_jimple(&mut output, &mut warnings);
    assert_eq!(output, "public final enum a.E\n{\n}\n");

    let (_, class) = Class::read(&tokenizer(
        ".class public interface abstract annotation La/A;\n.super La/B;\n",
    ))
    .unwrap();
    let mut output = String::new();
    class.write_jimple(&mut output, &mut warnings);
    assert_eq!(output, "public interface a.A extends a.B\n{\n}\n");

    let (_, class) = Class::read(&tokenizer(".class annotation La/A;\n.method m()V\n.end method")).unwrap();
    let mut output = String::new();
    class.write_jimple(&mut output, &mut warnings);
    assert_eq!(output, "@interface a.A\n{\n    void m()\n    {\n    }\n}\n");

    let error = Class::read(&tokenizer(".class La/A;\n.unknown x\n")).unwrap_err();
    assert_eq!(error.expected(), "a supported directive");
    assert_eq!(error.pos(), 13);
    assert_eq!(
        error.to_string(),
        "Unexpected token .unknown in dummy at 2:1, expected a supported directive"
    );

    let error = Class::read(&tokenizer(".class La/A;\n.source 12\n")).unwrap_err();
    assert_eq!(error.expected(), "a string literal");

    let error = Class::read(&tokenizer("class La/A;\n")).unwrap_err();
    assert_eq!(error.expected(), ".class");

    let error = Class::read(&tokenizer(
        ".class La/A;\n.method static m(J)V\n.param p1\n.end param\n.end method\n",
    ))
    .unwrap_err();
    assert_eq!(error.expected(), "a valid parameter number");

    let error = Class::read(&tokenizer(
        ".class La/A;\n.method m()V\n    frobnicate v0\n.end method\n",
    ))
    .unwrap_err();
    assert_eq!(error.expected(), "a supported command");
    assert_eq!(
        error.to_string(),
        "Unexpected token frobnicate in dummy at 3:1, expected a supported command"
    );
}
