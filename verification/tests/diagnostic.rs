use unmake::ast::{parse, parse_posix};
use unmake::diagnostic::{token_at, token_name, ParseError, TOKENS};
use unmake::token::{Marks, Token, TokenSet};

fn full() -> TokenSet {
    let mut toks = TokenSet::empty();
    for i in 0..TOKENS {
        toks = toks.union(TokenSet::single(token_at(i)));
    }
    toks
}

#[test]
fn test_messages() {
    assert_eq!(
        parse_posix("mk", "all:\n echo hi\n"),
        Err("error: mk:2:1 found \" \", expected: \"\\t\", LF, comment".to_string())
    );
    assert_eq!(
        parse_posix("a/b.mk", "includeabc\n"),
        Err(
            "error: a/b.mk:1:11 found \"\\n\", expected: \":\", assignment operator, macro expansion, target"
                .to_string()
        )
    );
    assert_eq!(
        parse_posix("-", ".WAIT: foo\n"),
        Err("error: -:1:8 found \"f\", expected: EOF, LF, comment".to_string())
    );
    assert_eq!(
        parse_posix("-", "foo:\n"),
        Err("error: -:2:1 found EOF, expected: \"\\t\", LF, comment".to_string())
    );
    assert_eq!(
        parse_posix("-", "all:\n\techo \\\n"),
        Err("error: -:3:1 found EOF, expected: \"\\t\", command".to_string())
    );
    assert_eq!(
        parse_posix("-", "A=1\nB=\"\\ \"\n"),
        Err(
            "error: -:2:4 found \"\\\\\", expected: EOF, LF, c-style escape, comment, escaped LF, macro value literal"
                .to_string()
        )
    );
    assert_eq!(
        parse_posix("-", "é=1\n"),
        Err("error: -:1:2 found \"=\", expected: \":\", macro expansion, target".to_string())
    );
    assert_eq!(
        parse_posix("-", "a: b\n\tc\n\t\n"),
        Err("error: -:3:2 found \"\\n\", expected: command".to_string())
    );
}

#[test]
fn test_reports() {
    let e: ParseError = parse("A=é\nab\tc:\n  x\n").unwrap_err();
    assert_eq!(
        e,
        ParseError {
            line: 3,
            column: 1,
            offset: 11,
            found: Some(' '),
            expected: TokenSet::single(Token::Tab)
                .union(TokenSet::single(Token::Lf))
                .union(TokenSet::single(Token::Comment)),
        }
    );
    assert_eq!(
        e.describe("p"),
        "error: p:3:1 found \" \", expected: \"\\t\", LF, comment"
    );

    let e: ParseError = parse("a:\n\tb\n.WAIT: x y").unwrap_err();
    assert_eq!((e.line, e.column, e.offset, e.found), (3, 8, 13, Some('x')));
}

#[test]
fn test_found_text() {
    let found = |c: Option<char>| {
        ParseError {
            line: 10,
            column: 207,
            offset: 0,
            found: c,
            expected: TokenSet::single(Token::Eof),
        }
        .describe("x")
    };
    assert_eq!(found(None), "error: x:10:207 found EOF, expected: EOF");
    assert_eq!(found(Some('\t')), "error: x:10:207 found \"\\t\", expected: EOF");
    assert_eq!(found(Some('"')), "error: x:10:207 found \"\\\"\", expected: EOF");
    assert_eq!(found(Some('\'')), "error: x:10:207 found \"\\'\", expected: EOF");
    assert_eq!(found(Some('é')), "error: x:10:207 found \"é\", expected: EOF");
    assert_eq!(
        found(Some('\u{0}')),
        "error: x:10:207 found \"\\0\", expected: EOF"
    );
}

#[test]
fn test_numbers() {
    let at = |line: usize, column: usize| {
        ParseError {
            line,
            column,
            offset: 0,
            found: None,
            expected: TokenSet::empty(),
        }
        .describe("")
    };
    assert_eq!(at(0, 9), "error: :0:9 found EOF, expected: ");
    assert_eq!(at(10, 99), "error: :10:99 found EOF, expected: ");
    assert_eq!(at(1234567890, 100), "error: :1234567890:100 found EOF, expected: ");
    assert_eq!(
        at(usize::MAX, 1),
        format!("error: :{}:1 found EOF, expected: ", usize::MAX)
    );
}

#[test]
fn test_names_are_sorted() {
    let names: Vec<&str> = (0..TOKENS).map(|i| token_name(token_at(i))).collect();
    let mut sorted = names.clone();
    sorted.sort();
    sorted.dedup();
    assert_eq!(names, sorted);
    assert_eq!(names.len(), 19);

    let e = ParseError {
        line: 1,
        column: 1,
        offset: 0,
        found: None,
        expected: full(),
    };
    assert_eq!(
        e.describe("-"),
        format!("error: -:1:1 found EOF, expected: {}", names.join(", "))
    );
    assert_eq!(names[0], "\":\"");
    assert_eq!(names[1], "\"\\\\\"");
    assert_eq!(names[2], "\"\\t\"");
}

#[test]
fn test_token_sets() {
    let a = TokenSet::single(Token::Colon);
    let b = TokenSet::single(Token::Whitespace);
    assert!(a.contains(Token::Colon));
    assert!(!a.contains(Token::Whitespace));
    assert!(a.union(b).contains(Token::Whitespace));
    assert!(a.union(b).contains(Token::Colon));
    assert!(!a.union(b).contains(Token::Eof));
    assert_eq!(a.union(a), a);
    assert_eq!(TokenSet::empty().union(b), b);
    for i in 0..TOKENS {
        assert!(!TokenSet::empty().contains(token_at(i)));
        assert!(full().contains(token_at(i)));
        for j in 0..TOKENS {
            assert_eq!(TokenSet::single(token_at(i)).contains(token_at(j)), i == j);
        }
    }
}

#[test]
fn test_marks() {
    let a = Marks::at(3, Token::Colon);
    let b = Marks::at(5, Token::Tab);
    let c = Marks::at(5, Token::Lf);
    assert_eq!(a.join(b), b);
    assert_eq!(b.join(a), b);
    assert_eq!(
        b.join(c),
        Marks {
            far: 5,
            toks: TokenSet::single(Token::Tab).union(TokenSet::single(Token::Lf))
        }
    );
    assert_eq!(Marks::new().join(a), a);
    assert_eq!(a.and(3, Token::Eof).far, 3);
    assert!(a.and(3, Token::Eof).toks.contains(Token::Eof));
    assert!(a.and(3, Token::Eof).toks.contains(Token::Colon));
    assert_eq!(a.and(2, Token::Eof), a);
    assert_eq!(a.and(4, Token::Eof), Marks::at(4, Token::Eof));
}
