use lildb::lexer::{tokenize, TokenType};

fn kinds(input: &str) -> Vec<TokenType> {
    tokenize(input).into_iter().map(|t| t.token_type).collect()
}

#[test]
fn keywords_are_recognized() {
    assert_eq!(kinds("create"), vec![TokenType::Create]);
    assert_eq!(kinds("use"), vec![TokenType::Use]);
    assert_eq!(kinds("drop"), vec![TokenType::Drop]);
    assert_eq!(kinds("collection"), vec![TokenType::Collection]);
    assert_eq!(kinds("db"), vec![TokenType::Db]);
    assert_eq!(kinds("dbs"), vec![TokenType::Dbs]);
    assert_eq!(kinds("insert"), vec![TokenType::Insert]);
    assert_eq!(kinds("update"), vec![TokenType::Update]);
    assert_eq!(kinds("delete"), vec![TokenType::Delete]);
    assert_eq!(kinds("find"), vec![TokenType::Find]);
    assert_eq!(kinds("help"), vec![TokenType::Help]);
    assert_eq!(kinds("list"), vec![TokenType::List]);
    assert_eq!(kinds("show"), vec![TokenType::Show]);
}

#[test]
fn keywords_are_case_sensitive() {
    assert_eq!(kinds("CREATE"), vec![TokenType::Identifier(String::from("CREATE"))]);
    assert_eq!(kinds("Use"), vec![TokenType::Identifier(String::from("Use"))]);
}

#[test]
fn keyword_prefix_of_longer_word_is_an_identifier() {
    assert_eq!(kinds("createx"), vec![TokenType::Identifier(String::from("createx"))]);
    assert_eq!(kinds("db1"), vec![TokenType::Identifier(String::from("db1"))]);
    assert_eq!(kinds("dbss"), vec![TokenType::Identifier(String::from("dbss"))]);
}

#[test]
fn identifiers_follow_the_word_rule() {
    assert_eq!(kinds("_x9"), vec![TokenType::Identifier(String::from("_x9"))]);
    // A leading digit starts no token; the rest of the run is one identifier.
    assert_eq!(kinds("9abc"), vec![TokenType::Identifier(String::from("abc"))]);
}

#[test]
fn whitespace_becomes_dedicated_tokens() {
    assert_eq!(
        kinds("a b"),
        vec![
            TokenType::Identifier(String::from("a")),
            TokenType::Space,
            TokenType::Identifier(String::from("b")),
        ]
    );
    assert_eq!(kinds("\t"), vec![TokenType::Tab]);
    assert_eq!(kinds("\n"), vec![TokenType::LineFeed]);
    assert_eq!(kinds("\0"), vec![TokenType::Null]);
}

#[test]
fn unrecognized_bytes_produce_no_token() {
    assert_eq!(kinds("!@#"), Vec::<TokenType>::new());
    assert_eq!(
        kinds("create! db"),
        vec![TokenType::Create, TokenType::Space, TokenType::Db]
    );
}

#[test]
fn full_command_token_sequence() {
    assert_eq!(
        kinds("create db shop"),
        vec![
            TokenType::Create,
            TokenType::Space,
            TokenType::Db,
            TokenType::Space,
            TokenType::Identifier(String::from("shop")),
        ]
    );
}

#[test]
fn slices_spans_lines_and_columns() {
    let toks = tokenize("use a\nshow dbs");
    assert_eq!(toks.len(), 7);
    assert_eq!(toks[0].slice, "use");
    assert_eq!(toks[0].span.start, 0);
    assert_eq!(toks[0].span.end, 3);
    assert_eq!(toks[0].line, 0);
    assert_eq!(toks[0].column, 0);
    assert_eq!(toks[2].slice, "a");
    assert_eq!(toks[2].column, 4);
    assert_eq!(toks[3].token_type, TokenType::LineFeed);
    assert_eq!(toks[4].slice, "show");
    assert_eq!(toks[4].line, 1);
    assert_eq!(toks[4].column, 0);
    assert_eq!(toks[5].token_type, TokenType::Space);
    assert_eq!(toks[6].slice, "dbs");
    assert_eq!(toks[6].line, 1);
    assert_eq!(toks[6].column, 5);
}

#[test]
fn rerunning_the_lexer_is_deterministic() {
    let a = tokenize("create db shop");
    let b = tokenize("create db shop");
    assert_eq!(a, b);
}

#[test]
fn cursor_advances_and_freezes_past_the_end() {
    let toks = tokenize("use shop");
    let mut tl = lildb::token_list::TokenList::new(toks);
    assert_eq!(tl.current_index, 0);
    assert_eq!(tl.current_token.token_type, TokenType::Null);
    let first = tl.tokens[0].clone();
    tl.current_token = first;
    assert_eq!(tl.current_token.token_type, TokenType::Use);
    tl.next(1);
    assert_eq!(tl.current_token.token_type, TokenType::Space);
    tl.next(1);
    assert_eq!(
        tl.current_token.token_type,
        TokenType::Identifier(String::from("shop"))
    );
    // Past the end: the position moves, the current token stays.
    tl.next(5);
    assert_eq!(tl.current_index, 7);
    assert_eq!(
        tl.current_token.token_type,
        TokenType::Identifier(String::from("shop"))
    );
}
