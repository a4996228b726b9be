use smali2jimple::error::ParseErrorDisplayed;
use smali2jimple::literal::{is_escaped, read_escaped, Literal};
use smali2jimple::tokenizer::Tokenizer;
use smali2jimple::types::{CallSignature, MethodSignature, Type};

fn tokenizer(data: &str) -> Tokenizer {
    Tokenizer::new(data.to_string(), "dummy")
}

#[test]
fn read_keywords() -> Result<(), ParseErrorDisplayed> {
    let input = tokenizer(r#" NULL true False dummy "#);
    let (input, literal) = Literal::read(&input)?;
    assert_eq!(literal, Literal::Null);

    let (input, literal) = Literal::read(&input)?;
    assert_eq!(literal, Literal::Bool(true));

    let (input, literal) = Literal::read(&input)?;
    assert_eq!(literal, Literal::Bool(false));

    assert!(Literal::read(&input).is_err());

    Ok(())
}

#[test]
fn read_string() -> Result<(), ParseErrorDisplayed> {
    let input = tokenizer(r#" "a\"b c\\" "#);
    let (_, literal) = Literal::read(&input)?;
    assert_eq!(literal, Literal::String(r#"a\"b c\\"#.to_string()));

    let input = tokenizer(r#" "a\"b c\\ "#);
    assert!(Literal::read(&input).is_err());

    let input = tokenizer(
        r#" "a\"
            b c\\" "#,
    );
    assert!(Literal::read(&input).is_err());

    Ok(())
}

#[test]
fn literal_read_char() -> Result<(), ParseErrorDisplayed> {
    let input = tokenizer(r#"'c' 'cc' '\c' '\'' '\\' '\u007f' '\' "#);
    let (input, literal) = Literal::read(&input)?;
    assert_eq!(literal, Literal::Char('c'));

    assert!(Literal::read(&input).is_err());
    let (input, _) = input.read_keyword()?;

    let (input, literal) = Literal::read(&input)?;
    assert_eq!(literal, Literal::Char('c'));

    let (input, literal) = Literal::read(&input)?;
    assert_eq!(literal, Literal::Char('\''));

    let (input, literal) = Literal::read(&input)?;
    assert_eq!(literal, Literal::Char('\\'));

    let (input, literal) = Literal::read(&input)?;
    assert_eq!(literal, Literal::Char('\u{007f}'));

    assert!(Literal::read(&input).is_err());

    Ok(())
}

#[test]
fn read_integer() -> Result<(), ParseErrorDisplayed> {
    let input = tokenizer(r#" -5,0x1D -0x1f -0x80t  1234S 12x "#);
    let (input, number) = Literal::read(&input)?;
    assert_eq!(number, Literal::Int(-5));

    assert!(Literal::read(&input).is_err());
    let input = input.expect_char(',')?;

    let (input, number) = Literal::read(&input)?;
    assert_eq!(number, Literal::Int(29));

    let (input, number) = Literal::read(&input)?;
    assert_eq!(number, Literal::Int(-31));

    let (input, number) = Literal::read(&input)?;
    assert_eq!(number, Literal::Byte(-128));

    let (input, number) = Literal::read(&input)?;
    assert_eq!(number, Literal::Short(1234));

    assert!(Literal::read(&input).is_err());

    Ok(())
}

fn as_single(literal: &Literal) -> f32 {
    match literal {
        Literal::Float(text) => text.parse().unwrap(),
        other => panic!("no float literal: {:?}", other),
    }
}

fn as_double(literal: &Literal) -> f64 {
    match literal {
        Literal::Double(text) => text.parse().unwrap(),
        other => panic!("no double literal: {:?}", other),
    }
}

#[test]
fn read_float() -> Result<(), ParseErrorDisplayed> {
    let input = tokenizer(r#" -infinity NANf infinityd .01f 2.3D .x "#);
    let (input, number) = Literal::read(&input)?;
    assert_eq!(as_double(&number), f64::NEG_INFINITY);

    let (input, number) = Literal::read(&input)?;
    assert!(as_single(&number).is_nan());

    let (input, number) = Literal::read(&input)?;
    assert_eq!(as_double(&number), f64::INFINITY);

    let (input, number) = Literal::read(&input)?;
    assert_eq!(as_single(&number), 0.01);

    let (input, number) = Literal::read(&input)?;
    assert_eq!(as_double(&number), 2.3);

    assert!(Literal::read(&input).is_err());

    Ok(())
}

fn single(value: f32) -> Literal {
    Literal::Float(format!("{}", value))
}

fn double(value: f64) -> Literal {
    Literal::Double(format!("{}", value))
}

#[test]
fn display() {
    assert_eq!(Literal::Null.to_string(), "null");

    assert_eq!(Literal::Bool(false).to_string(), "false");
    assert_eq!(Literal::Bool(true).to_string(), "true");

    assert_eq!(Literal::Char('x').to_string(), "'x'");
    assert_eq!(Literal::Char('\\').to_string(), "'\\\\'");
    assert_eq!(Literal::Char('\'').to_string(), "'\\\''");
    assert_eq!(Literal::Char('\u{0000}').to_string(), "'\\u0000'");
    assert_eq!(Literal::Char('\u{007f}').to_string(), "'\\u007f'");
    assert_eq!(Literal::Char('\u{1234}').to_string(), "'\\u1234'");

    assert_eq!(Literal::Byte(0).to_string(), "0x0");
    assert_eq!(Literal::Byte(0x7f).to_string(), "0x7f");
    assert_eq!(Literal::Byte(-0x80).to_string(), "-0x80");

    assert_eq!(Literal::Short(0).to_string(), "0x0");
    assert_eq!(Literal::Short(0x7fff).to_string(), "0x7fff");
    assert_eq!(Literal::Short(-0x8000).to_string(), "-0x8000");

    assert_eq!(Literal::Int(0).to_string(), "0x0");
    assert_eq!(Literal::Int(0x7fffffff).to_string(), "0x7fffffff");
    assert_eq!(Literal::Int(-0x80000000).to_string(), "-0x80000000");

    assert_eq!(Literal::Long(0).to_string(), "0x0");
    assert_eq!(
        Literal::Long(0x7fffffffffffffff).to_string(),
        "0x7fffffffffffffff"
    );
    assert_eq!(
        Literal::Long(-0x8000000000000000).to_string(),
        "-0x8000000000000000"
    );

    assert_eq!(single(0.0).to_string(), "0");
    assert_eq!(single(5.8).to_string(), "5.8");
    assert_eq!(single(-0.1).to_string(), "-0.1");

    assert_eq!(double(0.0).to_string(), "0");
    assert_eq!(double(5.8).to_string(), "5.8");
    assert_eq!(double(-0.1).to_string(), "-0.1");

    assert_eq!(Literal::String("abc".to_string()).to_string(), "\"abc\"");
    assert_eq!(
        Literal::String("a\\tb\\\\c".to_string()).to_string(),
        "\"a\\tb\\\\c\""
    );
}

#[test]
fn display_of_references() {
    let method = MethodSignature {
        object_type: Type::Object("j2.b".to_string()),
        method_name: "connect".to_string(),
        call_signature: CallSignature {
            parameter_types: vec![Type::Object("java.lang.String".to_string()), Type::Int],
            return_type: Type::Void,
        },
    };
    assert_eq!(
        Literal::Class(Type::Array(Box::new(Type::Int))).to_string(),
        "int[].class"
    );
    assert_eq!(
        Literal::Method(method.clone()).to_string(),
        "void j2.b.connect(java.lang.String, int)"
    );
    assert_eq!(
        Literal::MethodHandle("invoke-static".to_string(), method.clone()).to_string(),
        "invoke-static@void j2.b.connect(java.lang.String, int)"
    );
    assert_eq!(
        Literal::MethodType(method.call_signature.clone()).to_string(),
        "void (java.lang.String, int)"
    );
    assert_eq!(Literal::Char('\u{1f600}').to_string(), "'\\u1f600'");
}

#[test]
fn literal_kinds() {
    let (_, literal) = Literal::read(&tokenizer("Lj2/b;->connect(Ljava/lang/String;II)V")).unwrap();
    assert!(literal.is_method());
    let (_, literal) =
        Literal::read(&tokenizer("invoke-static@Lj2/b;-><init>(Ljava/lang/String;II)V")).unwrap();
    assert!(literal.is_method_handle());
    assert_eq!(
        literal.to_string(),
        "invoke-static@void j2.b.<init>(java.lang.String, int, int)"
    );
    let (_, literal) = Literal::read(&tokenizer("(Ljava/lang/String;II)V")).unwrap();
    assert!(literal.is_method_type());
    let (_, literal) = Literal::read(&tokenizer("Lj2/b$a;")).unwrap();
    assert!(literal.is_class());
    assert_eq!(literal, Literal::Class(Type::Object("j2.b$a".to_string())));
    let (_, literal) = Literal::read(&tokenizer("5l")).unwrap();
    assert_eq!(literal, Literal::Long(5));
    assert!(literal.is_integer());
    assert_eq!(literal.get_integer(), Some(5));
    let (_, literal) = Literal::read(&tokenizer("-0x8000000000000000L")).unwrap();
    assert_eq!(literal, Literal::Long(i64::MIN));
    let (_, literal) = Literal::read(&tokenizer("6.0f")).unwrap();
    assert_eq!(literal, Literal::Float("6.0".to_string()));
    assert!(literal.is_float());
    assert!(!literal.is_integer());
    assert_eq!(literal.get_integer(), None);
    let (_, literal) = Literal::read(&tokenizer("1.5e-3")).unwrap();
    assert_eq!(literal, Literal::Double("1.5e-3".to_string()));
    let (_, literal) = Literal::read(&tokenizer("\"8\"")).unwrap();
    assert!(literal.is_string());
    assert_eq!(literal.get_string(), Some("8".to_string()));
    assert_eq!(Literal::Null.get_string(), None);
    assert!(Literal::Null.is_null());
    assert!(Literal::Bool(true).is_bool());
    assert_eq!(Literal::Bool(true).get_bool(), Some(true));
    assert_eq!(Literal::Null.get_bool(), None);
    assert!(Literal::Char('a').is_char());
    assert_eq!(Literal::Char('a').get_char(), Some('a'));
    assert_eq!(Literal::Null.get_char(), None);
    assert_eq!(Literal::Short(-3).clone(), Literal::Short(-3));
}

#[test]
fn literal_errors() {
    let error = Literal::read(&tokenizer(" 0x80t")).unwrap_err();
    assert_eq!(error.expected(), "a byte literal");
    assert_eq!(error.pos(), 0);
    let error = Literal::read(&tokenizer("0x8000s")).unwrap_err();
    assert_eq!(error.expected(), "a short literal");
    let error = Literal::read(&tokenizer("0x8000000000000000l")).unwrap_err();
    assert_eq!(error.expected(), "a long literal");
    let error = Literal::read(&tokenizer("1.2.3f")).unwrap_err();
    assert_eq!(error.expected(), "a float literal");
    let error = Literal::read(&tokenizer("1.e")).unwrap_err();
    assert_eq!(error.expected(), "a double literal");
    let error = Literal::read(&tokenizer("0x80000000")).unwrap_err();
    assert_eq!(error.expected(), "a literal");
    let error = Literal::read(&tokenizer("'\\ud800'")).unwrap_err();
    assert_eq!(error.expected(), "a literal");
    assert_eq!(error.pos(), 1);
    let error = Literal::read(&tokenizer("'\\u110000'")).unwrap_err();
    assert_eq!(error.expected(), "a literal");
    let error = Literal::read(&tokenizer("invoke-static Lj2/b;")).unwrap_err();
    assert_eq!(error.expected(), "the character '@'");
    let error = Literal::read(&tokenizer("  ")).unwrap_err();
    assert_eq!(error.expected(), "a keyword");
}

#[test]
fn escapes() {
    assert!(!is_escaped(""));
    assert!(!is_escaped("abc"));
    assert!(is_escaped("abc\\"));
    assert!(!is_escaped("abc\\\\"));
    assert!(is_escaped("\\\\\\"));
    assert!(!is_escaped("\\a"));

    let (rest, text) = read_escaped(&tokenizer("a\\\"b\\\\\" tail"), '"').unwrap();
    assert_eq!(text, "a\\\"b\\\\");
    assert_eq!(rest.read_keyword().unwrap().1, "tail");
    assert!(read_escaped(&tokenizer("never closed"), '\'').is_err());
}
