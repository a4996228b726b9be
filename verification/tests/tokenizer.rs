use smali2jimple::error::ParseErrorDisplayed;
use smali2jimple::tokenizer::Tokenizer;

fn tokenizer(data: &str) -> Tokenizer {
    Tokenizer::new(data.to_string(), "dummy")
}

#[test]
fn read_to() -> Result<(), ParseErrorDisplayed> {
    let input = tokenizer("abc;xyz,def\nghi;");

    let (input, s) = input.read_to(&[';', ',']);
    assert_eq!(s, "abc");

    let (input, s) = input.read_to(&[';', ',']);
    assert_eq!(s, "");

    let input = input.expect_char(';')?;
    let (input, s) = input.read_to(&[';', ',']);
    assert_eq!(s, "xyz");

    let input = input.expect_char(',')?;
    let (input, s) = input.read_to(&[';', ',']);
    assert_eq!(s, "def");

    let (_, s) = input.read_to(&[';', ',']);
    assert_eq!(s, "");

    Ok(())
}

#[test]
fn tokenizer_read_char() -> Result<(), ParseErrorDisplayed> {
    let input = tokenizer(" ab \n  ");

    assert!(matches!(input.next_char(), Some(' ')));
    let (input, c) = input.read_char()?;
    assert_eq!(c, 'a');

    assert!(matches!(input.next_char(), Some('b')));
    assert!(input.expect_char('\n').is_err());

    let input = input.expect_char('b')?;
    assert!(matches!(input.next_char(), Some(' ')));

    let input = input.expect_char('\n')?;
    assert!(matches!(input.next_char(), Some(' ')));
    assert!(input.read_char().is_err());

    Ok(())
}

#[test]
fn read_eol_eof() -> Result<(), ParseErrorDisplayed> {
    let input = tokenizer(" abc#comment \n  \n # comment\n\nxyz");

    assert!(input.expect_eof().is_err());
    assert!(input.expect_eol().is_err());

    let (input, keyword) = input.read_keyword()?;
    assert_eq!(keyword, "abc");

    assert!(input.expect_eof().is_err());

    let input = input.expect_eol()?;
    assert!(matches!(input.next_char(), Some('x')));

    assert!(input.expect_eol().is_err());

    let (input, keyword) = input.read_keyword()?;
    assert_eq!(keyword, "xyz");

    assert!(input.expect_eof().is_ok());
    assert!(input.expect_eol().is_ok());

    Ok(())
}

#[test]
fn read_keyword() -> Result<(), ParseErrorDisplayed> {
    let input = tokenizer(" abc, xyz:def ghi\njkl");

    let (input, keyword) = input.read_keyword()?;
    assert_eq!(keyword, "abc");
    assert!(input.read_keyword().is_err());

    let input = input.expect_char(',')?;

    assert!(input.expect_keyword("def").is_err());
    let input = input.expect_keyword("xyz")?;

    assert!(input.expect_keyword("def").is_err());
    let input = input.expect_char(':')?;
    let input = input.expect_keyword("def")?;
    let input = input.expect_keyword("ghi")?;

    assert!(input.read_keyword().is_err());
    let input = input.expect_eol()?;
    let (input, keyword) = input.read_keyword()?;
    assert_eq!(keyword, "jkl");

    assert!(input.expect_eof().is_ok());

    Ok(())
}

#[test]
fn read_directive() -> Result<(), ParseErrorDisplayed> {
    let input = tokenizer(" .abc, .xyz:.def .ghi\n.jkl");

    let (input, directive) = input.read_directive()?;
    assert_eq!(directive, "abc,");

    assert!(input.expect_directive("xyz").is_err());
    let input = input.expect_directive("xyz:.def")?;

    let (input, directive) = input.read_directive()?;
    assert_eq!(directive, "ghi");

    assert!(input.read_directive().is_err());
    let input = input.expect_eol()?;
    let (input, directive) = input.read_directive()?;
    assert_eq!(directive, "jkl");

    assert!(input.read_directive().is_err());
    assert!(input.expect_eof().is_ok());

    Ok(())
}

#[test]
fn read_number() -> Result<(), ParseErrorDisplayed> {
    let input = tokenizer(r#" -5, 0x12 -0x12 0x41t  1234S 12x "#);
    let (input, number) = input.read_number()?;
    assert_eq!(number, -5);

    assert!(input.read_number().is_err());
    let input = input.expect_char(',')?;

    let (input, number) = input.read_number()?;
    assert_eq!(number, 18);

    let (input, number) = input.read_number()?;
    assert_eq!(number, -18);

    let (input, number) = input.read_number()?;
    assert_eq!(number, 65);

    let (input, number) = input.read_number()?;
    assert_eq!(number, 1234);

    assert!(input.read_number().is_err());

    Ok(())
}

#[test]
fn number_limits() {
    let (_, number) = tokenizer("0x7fffffffffffffff").read_number().unwrap();
    assert_eq!(number, i64::MAX);
    let (_, number) = tokenizer("-9223372036854775808").read_number().unwrap();
    assert_eq!(number, i64::MIN);
    let (_, number) = tokenizer("-0x7fffffffffffffffL").read_number().unwrap();
    assert_eq!(number, -i64::MAX);
    let (_, number) = tokenizer("+17").read_number().unwrap();
    assert_eq!(number, 17);
    let (_, number) = tokenizer("0x-a").read_number().unwrap();
    assert_eq!(number, -10);
    assert!(tokenizer("9223372036854775808").read_number().is_err());
    assert!(tokenizer("0x8000000000000000").read_number().is_err());
    assert!(tokenizer("-0x8000000000000000").read_number().is_err());
    assert!(tokenizer("0x").read_number().is_err());
    assert!(tokenizer("-").read_number().is_err());
    assert!(tokenizer("tsl").read_number().is_err());
    assert!(tokenizer("12_3").read_number().is_err());
}

#[test]
fn error_messages() {
    let input = tokenizer("first line\n  second? line\n");
    let input = input.expect_keyword("first").unwrap();
    let input = input.expect_keyword("line").unwrap();
    let input = input.expect_eol().unwrap();

    let error = input.expect_keyword("third").unwrap_err();
    assert_eq!(error.pos(), 11);
    assert_eq!(error.expected(), "third");
    assert_eq!(
        error.to_string(),
        "Unexpected token second? in dummy at 2:1, expected third"
    );

    let (input, _) = input.read_keyword().unwrap();
    let error = input.expect_char('x').unwrap_err();
    assert_eq!(
        error.to_string(),
        "Unexpected token line in dummy at 2:10, expected the character 'x'"
    );

    let input = input.expect_keyword("line").unwrap();
    let error = input.expect_char('x').unwrap_err();
    assert_eq!(
        error.to_string(),
        "Unexpected token <EOL> in dummy at 2:15, expected the character 'x'"
    );
    let error = input.expect_eof().unwrap_err();
    assert_eq!(
        error.to_string(),
        "Unexpected token <EOL> in dummy at 2:15, expected <EOF>"
    );

    let input = input.expect_eol().unwrap();
    let error = input.expect_char('\n').unwrap_err();
    assert_eq!(
        error.to_string(),
        "Unexpected token <EOF> in dummy at 3:1, expected <EOL>"
    );
    let error = input.expect_directive("end").unwrap_err();
    assert_eq!(
        error.to_string(),
        "Unexpected token <EOF> in dummy at 3:1, expected .end"
    );
    let error = input.read_char().unwrap_err();
    assert_eq!(
        error.to_string(),
        "Unexpected token <EOF> in dummy at 3:1, expected a char"
    );
}

#[test]
fn error_displayed_keeps_position_and_message() {
    let input = tokenizer("abc def");
    let (input, _) = input.read_keyword().unwrap();
    let first = ParseErrorDisplayed::from(input.expect_keyword("xyz").unwrap_err());
    let second = ParseErrorDisplayed::from(input.expect_keyword("xyz").unwrap_err());
    let other = ParseErrorDisplayed::from(input.expect_keyword("uvw").unwrap_err());
    assert_eq!(first, second);
    assert_ne!(first, other);
}
