use smali2jimple::error::ParseErrorDisplayed;
use smali2jimple::tokenizer::Tokenizer;
use smali2jimple::types::{CallSignature, FieldSignature, MethodSignature, Type};

fn tokenizer(data: &str) -> Tokenizer {
    Tokenizer::new(data.to_string(), "dummy")
}

#[test]
fn read_type() -> Result<(), ParseErrorDisplayed> {
    let input = tokenizer(" Ljava/lang/Object;[IVW");

    let (input, parsed) = Type::read(&input)?;
    assert_eq!(parsed, Type::Object("java.lang.Object".to_string()));

    let (input, parsed) = Type::read(&input)?;
    assert_eq!(parsed, Type::Array(Box::new(Type::Int)));

    let (input, parsed) = Type::read(&input)?;
    assert_eq!(parsed, Type::Void);

    assert!(Type::read(&input).is_err());

    Ok(())
}

#[test]
fn read_field_signature() -> Result<(), ParseErrorDisplayed> {
    let input = tokenizer(" Lev/n;->g:Ljava/lang/String;");

    let (_, signature) = FieldSignature::read(&input)?;
    assert_eq!(
        signature,
        FieldSignature {
            object_type: Type::Object("ev.n".to_string()),
            field_name: "g".to_string(),
            field_type: Type::Object("java.lang.String".to_string()),
        }
    );

    Ok(())
}

#[test]
fn read_method_signature() -> Result<(), ParseErrorDisplayed> {
    let input = tokenizer(" Lev/n;->g(Ljava/lang/Object;Ljava/lang/String;)V");

    let (_, signature) = MethodSignature::read(&input)?;
    assert_eq!(
        signature,
        MethodSignature {
            object_type: Type::Object("ev.n".to_string()),
            method_name: "g".to_string(),
            call_signature: CallSignature {
                parameter_types: vec![
                    Type::Object("java.lang.Object".to_string()),
                    Type::Object("java.lang.String".to_string()),
                ],
                return_type: Type::Void,
            },
        }
    );

    Ok(())
}

#[test]
fn type_names_and_sizes() {
    assert_eq!(Type::Bool.get_name(), "bool");
    assert_eq!(Type::Byte.get_name(), "byte");
    assert_eq!(Type::Char.get_name(), "char");
    assert_eq!(Type::Short.get_name(), "short");
    assert_eq!(Type::Int.get_name(), "int");
    assert_eq!(Type::Long.get_name(), "long");
    assert_eq!(Type::Float.get_name(), "float");
    assert_eq!(Type::Double.get_name(), "double");
    assert_eq!(Type::Void.get_name(), "void");
    assert_eq!(Type::Object("a.b".to_string()).get_name(), "a.b");
    assert_eq!(
        Type::Array(Box::new(Type::Array(Box::new(Type::Long)))).to_string(),
        "long[][]"
    );
    assert_eq!(Type::Long.register_count(), 2);
    assert_eq!(Type::Double.register_count(), 2);
    assert_eq!(Type::Int.register_count(), 1);
    assert_eq!(Type::Array(Box::new(Type::Long)).register_count(), 1);
}

#[test]
fn signatures_as_text() {
    let (_, field) = FieldSignature::read(&tokenizer("Lo2/h;->a:Landroid/text/Layout;")).unwrap();
    assert_eq!(field.to_string(), "android.text.Layout o2.h.a");

    let (_, method) =
        MethodSignature::read(&tokenizer("Ls2/t0;->a(Ls2/n;IILjava/lang/Object;)Ls2/t0;")).unwrap();
    assert_eq!(
        method.to_string(),
        "s2.t0 s2.t0.a(s2.n, int, int, java.lang.Object)"
    );
    assert_eq!(method.clone(), method);

    let (_, call) = CallSignature::read(&tokenizer("()V")).unwrap();
    assert_eq!(call.to_string(), "void ()");
    let (_, call) = CallSignature::read(&tokenizer("([IJ)[Ljava/lang/String;")).unwrap();
    assert_eq!(call.to_string(), "java.lang.String[] (int[], long)");
}

#[test]
fn type_errors() {
    let error = Type::read(&tokenizer("  L;")).unwrap_err();
    assert_eq!(error.pos(), 0);
    assert_eq!(error.expected(), "a type");

    let error = Type::read(&tokenizer("Labc\n;")).unwrap_err();
    assert_eq!(error.pos(), 4);
    assert_eq!(error.expected(), "the character ';'");

    let error = Type::read(&tokenizer("[[")).unwrap_err();
    assert_eq!(error.pos(), 2);
    assert_eq!(error.expected(), "a type");

    let error = CallSignature::read(&tokenizer("(IJ")).unwrap_err();
    assert_eq!(error.pos(), 3);
    assert_eq!(error.expected(), "a type");

    let error = MethodSignature::read(&tokenizer("La;-g()V")).unwrap_err();
    assert_eq!(error.pos(), 4);
    assert_eq!(error.expected(), "the character '>'");
}
