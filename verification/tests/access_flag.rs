use smali2jimple::access_flag::AccessFlag;
use smali2jimple::error::{Error, ParseErrorDisplayed};
use smali2jimple::tokenizer::Tokenizer;

fn tokenizer(data: &str) -> Tokenizer {
    Tokenizer::new(data.to_string(), "dummy")
}

#[test]
fn read_access_flag() -> Result<(), ParseErrorDisplayed> {
    let input = tokenizer("public static final");

    let (input, access_flag) = AccessFlag::read(&input)?;
    assert_eq!(access_flag, AccessFlag::Public);

    let (input, access_flag) = AccessFlag::read(&input)?;
    assert_eq!(access_flag, AccessFlag::Static);

    assert!(AccessFlag::read(&input).is_err());

    Ok(())
}

#[test]
fn read_access_flag_list() -> Result<(), ParseErrorDisplayed> {
    let input = tokenizer("public static final final:I");
    let (input, access_flags) = AccessFlag::read_list(&input);
    assert_eq!(
        access_flags,
        vec![AccessFlag::Public, AccessFlag::Static, AccessFlag::Final,]
    );

    let (_, keyword) = input.read_keyword()?;
    assert_eq!(keyword, "final");

    Ok(())
}

#[test]
fn access_flag_keywords() {
    let all = [
        (AccessFlag::Public, "public"),
        (AccessFlag::Private, "private"),
        (AccessFlag::Protected, "protected"),
        (AccessFlag::Static, "static"),
        (AccessFlag::Final, "final"),
        (AccessFlag::Synchronized, "synchronized"),
        (AccessFlag::Volatile, "volatile"),
        (AccessFlag::Bridge, "bridge"),
        (AccessFlag::Transient, "transient"),
        (AccessFlag::Varargs, "varargs"),
        (AccessFlag::Native, "native"),
        (AccessFlag::Interface, "interface"),
        (AccessFlag::Abstract, "abstract"),
        (AccessFlag::Strictfp, "strictfp"),
        (AccessFlag::Synthetic, "synthetic"),
        (AccessFlag::Annotation, "annotation"),
        (AccessFlag::Enum, "enum"),
        (AccessFlag::Constructor, "constructor"),
        (AccessFlag::DeclaredSynchronized, "declared-synchronized"),
    ];
    for (flag, keyword) in all {
        assert_eq!(flag.to_string(), keyword);
        assert_eq!(AccessFlag::try_from(keyword), Ok(flag));
    }
    assert_eq!(
        AccessFlag::try_from("Public"),
        Err(Error::UnrecognizedToken("Public".to_string()))
    );
}

#[test]
fn access_flag_errors() {
    let error = AccessFlag::read(&tokenizer(" unknown ")).unwrap_err();
    assert_eq!(error.pos(), 0);
    assert_eq!(error.expected(), "an access flag");

    let error = AccessFlag::read(&tokenizer(" final:I")).unwrap_err();
    assert_eq!(error.pos(), 6);
    assert_eq!(error.expected(), "a space");
}

#[test]
fn access_flags_as_modifiers() {
    let mut output = String::from("> ");
    AccessFlag::write_jimple_list(
        &mut output,
        &[
            AccessFlag::Public,
            AccessFlag::Abstract,
            AccessFlag::Constructor,
            AccessFlag::Final,
        ],
    );
    assert_eq!(output, "> public abstract final ");

    let mut output = String::new();
    AccessFlag::write_jimple_list(
        &mut output,
        &[AccessFlag::Public, AccessFlag::Abstract, AccessFlag::Interface],
    );
    assert_eq!(output, "public ");

    let mut output = String::new();
    AccessFlag::write_jimple_list(&mut output, &[AccessFlag::Enum, AccessFlag::Annotation]);
    assert_eq!(output, "");
}

#[test]
fn error_texts() {
    assert_eq!(
        Error::UnrecognizedToken("x".to_string()).to_string(),
        "Unrecognized token x"
    );
    assert_eq!(
        Error::ReadFailure("a/b.smali".to_string()).to_string(),
        "Failed to read file a/b.smali"
    );
    assert_eq!(
        Error::Utf8Error("a/b.smali".to_string()).to_string(),
        "Failed to decode file a/b.smali, not valid UTF-8"
    );
}
