use api_macros::args::{ArgsError, AttrToken, Delimiter, EndpointArgs, LitArg};

fn ident(s: &str) -> AttrToken {
    AttrToken::Ident(s.to_string())
}
fn punct(ch: char) -> AttrToken {
    AttrToken::Punct { ch, joint: false }
}
fn joint(ch: char) -> AttrToken {
    AttrToken::Punct { ch, joint: true }
}
fn eq() -> AttrToken {
    punct('=')
}
fn comma() -> AttrToken {
    punct(',')
}
fn str_lit(s: &str) -> AttrToken {
    AttrToken::StrLit(s.to_string())
}
fn int_lit(s: &str) -> AttrToken {
    AttrToken::IntLit(s.to_string())
}
fn lit(value: &str, at: usize) -> LitArg {
    LitArg { value: value.to_string(), at }
}

#[test]
fn args_method_and_path() {
    // method = "GET", path = "users/profile"
    let toks = vec![
        ident("method"), eq(), str_lit("GET"), comma(),
        ident("path"), eq(), str_lit("users/profile"),
    ];
    let args = EndpointArgs::parse(&toks).unwrap();
    assert_eq!(args.method, lit("GET", 2));
    assert_eq!(args.path, lit("users/profile", 6));
    assert_eq!(args.name, None);
    assert_eq!(args.depth, None);
    assert_eq!(args.field_errors, None);
}

#[test]
fn args_all_keys_trailing_comma() {
    let toks = vec![
        ident("method"), eq(), str_lit("POST"), comma(),
        ident("path"), eq(), str_lit("a/b"), comma(),
        ident("name"), eq(), str_lit("MyName"), comma(),
        ident("depth"), eq(), int_lit("2"), comma(),
        ident("field_errors"), eq(), str_lit("FieldErr"), comma(),
    ];
    let args = EndpointArgs::parse(&toks).unwrap();
    assert_eq!(args.name, Some(lit("MyName", 10)));
    assert_eq!(args.depth, Some(lit("2", 14)));
    assert_eq!(args.field_errors, Some(lit("FieldErr", 18)));
}

#[test]
fn args_comma_is_optional_and_later_entry_wins() {
    let toks = vec![
        ident("path"), eq(), str_lit("x"),
        ident("method"), eq(), str_lit("GET"),
        ident("path"), eq(), str_lit("y"),
    ];
    let args = EndpointArgs::parse(&toks).unwrap();
    assert_eq!(args.path, lit("y", 8));
    assert_eq!(args.method, lit("GET", 5));
}

#[test]
fn args_missing_method_and_path() {
    let toks = vec![ident("path"), eq(), str_lit("x")];
    assert_eq!(EndpointArgs::parse(&toks), Err(ArgsError::MissingMethod));
    let toks = vec![ident("method"), eq(), str_lit("GET")];
    assert_eq!(EndpointArgs::parse(&toks), Err(ArgsError::MissingPath));
    assert_eq!(EndpointArgs::parse(&Vec::new()), Err(ArgsError::MissingMethod));
}

#[test]
fn args_unknown_key() {
    let toks = vec![ident("verb"), eq(), str_lit("GET")];
    let e = EndpointArgs::parse(&toks).unwrap_err();
    assert_eq!(e, ArgsError::UnknownKey { at: 0, key: "verb".to_string() });
    assert_eq!(
        e.message(),
        "unknown api_endpoint argument `verb`; expected `method`, `path`, `name`, `depth`, or `field_errors`"
    );
}

#[test]
fn args_wrong_literal_kinds() {
    let toks = vec![ident("method"), eq(), int_lit("1")];
    let e = EndpointArgs::parse(&toks).unwrap_err();
    assert_eq!(e, ArgsError::NotStrLit { at: 2, key: "method".to_string() });
    assert_eq!(e.message(), "value of `method` must be a string literal");

    let toks = vec![ident("depth"), eq(), str_lit("1")];
    let e = EndpointArgs::parse(&toks).unwrap_err();
    assert_eq!(e, ArgsError::NotIntLit { at: 2, key: "depth".to_string() });
    assert_eq!(e.message(), "value of `depth` must be an integer literal");

    // `depth = 1 + 2` is an expression, not a literal.
    let toks = vec![ident("depth"), eq(), int_lit("1"), punct('+'), int_lit("2")];
    assert_eq!(
        EndpointArgs::parse(&toks),
        Err(ArgsError::NotIntLit { at: 2, key: "depth".to_string() })
    );
    // `method = GET` names a variable, not a string.
    let toks = vec![ident("method"), eq(), ident("GET")];
    assert_eq!(
        EndpointArgs::parse(&toks),
        Err(ArgsError::NotStrLit { at: 2, key: "method".to_string() })
    );
    let toks = vec![ident("path"), eq(), AttrToken::Group(Delimiter::Parenthesis)];
    assert_eq!(
        EndpointArgs::parse(&toks),
        Err(ArgsError::NotStrLit { at: 2, key: "path".to_string() })
    );
}

#[test]
fn args_syntax_errors() {
    assert_eq!(
        EndpointArgs::parse(&vec![str_lit("GET")]),
        Err(ArgsError::ExpectedIdent { at: 0 })
    );
    assert_eq!(
        EndpointArgs::parse(&vec![ident("method"), str_lit("GET")]),
        Err(ArgsError::ExpectedEq { at: 1, end: false })
    );
    let e = EndpointArgs::parse(&vec![ident("method")]).unwrap_err();
    assert_eq!(e, ArgsError::ExpectedEq { at: 1, end: true });
    assert_eq!(e.message(), "unexpected end of input, expected `=`");
    let e = EndpointArgs::parse(&vec![ident("method"), eq()]).unwrap_err();
    assert_eq!(e, ArgsError::ExpectedValue { at: 2, end: true });
    assert_eq!(e.message(), "unexpected end of input, expected an expression");
    assert_eq!(
        EndpointArgs::parse(&vec![ident("method"), eq(), str_lit("GET"), comma(), comma()]),
        Err(ArgsError::ExpectedIdent { at: 4 })
    );
    assert_eq!(ArgsError::ExpectedIdent { at: 0 }.message(), "expected identifier");
    assert_eq!(ArgsError::ExpectedEq { at: 0, end: false }.message(), "expected `=`");
    assert_eq!(
        ArgsError::ExpectedValue { at: 0, end: false }.message(),
        "expected an expression"
    );
    assert_eq!(ArgsError::MissingMethod.message(), "api_endpoint requires `method = \"...\"`");
    assert_eq!(ArgsError::MissingPath.message(), "api_endpoint requires `path = \"...\"`");
}

#[test]
fn args_value_must_start_an_expression() {
    // `method = , path = "x"`: a comma cannot start an expression.
    let toks = vec![ident("method"), eq(), comma(), ident("path"), eq(), str_lit("x")];
    let e = EndpointArgs::parse(&toks).unwrap_err();
    assert_eq!(e, ArgsError::ExpectedValue { at: 2, end: false });
    assert_eq!(e.message(), "expected an expression");
    // `method == "GET"`: the second `=` cannot start an expression.
    let toks = vec![ident("method"), joint('='), eq(), str_lit("GET")];
    assert_eq!(
        EndpointArgs::parse(&toks),
        Err(ArgsError::ExpectedValue { at: 2, end: false })
    );
}

#[test]
fn args_literal_followed_by_expression_tokens() {
    // `method = "a" as T`: a cast, not a literal.
    let toks = vec![ident("method"), eq(), str_lit("a"), ident("as"), ident("T")];
    assert_eq!(
        EndpointArgs::parse(&toks),
        Err(ArgsError::NotStrLit { at: 2, key: "method".to_string() })
    );
    // `depth = 1 as usize`
    let toks = vec![ident("depth"), eq(), int_lit("1"), ident("as"), ident("usize")];
    assert_eq!(
        EndpointArgs::parse(&toks),
        Err(ArgsError::NotIntLit { at: 2, key: "depth".to_string() })
    );
    // `method = "a".len()`, `method = "a"[0]`, `method = "a"?`, `method = "a" == "b"`
    for follow in [
        vec![punct('.'), ident("len"), AttrToken::Group(Delimiter::Parenthesis)],
        vec![AttrToken::Group(Delimiter::Bracket)],
        vec![punct('?')],
        vec![joint('='), punct('='), str_lit("b")],
        vec![joint('!'), punct('='), str_lit("b")],
    ] {
        let mut toks = vec![ident("method"), eq(), str_lit("a")];
        toks.extend(follow);
        assert_eq!(
            EndpointArgs::parse(&toks),
            Err(ArgsError::NotStrLit { at: 2, key: "method".to_string() })
        );
    }
}

#[test]
fn args_literal_then_a_token_that_ends_the_expression() {
    // `method = "GET"; path = "x"`: the literal is accepted, then `;` is no identifier.
    let toks = vec![
        ident("method"), eq(), str_lit("GET"), punct(';'), ident("path"), eq(), str_lit("x"),
    ];
    assert_eq!(EndpointArgs::parse(&toks), Err(ArgsError::ExpectedIdent { at: 3 }));
    // `method = "GET" => ...`: `=>` does not continue an expression.
    let toks = vec![ident("method"), eq(), str_lit("GET"), joint('='), punct('>')];
    assert_eq!(EndpointArgs::parse(&toks), Err(ArgsError::ExpectedIdent { at: 3 }));
    // `method = "GET" !x`: a lone `!` does not continue it either.
    let toks = vec![ident("method"), eq(), str_lit("GET"), punct('!')];
    assert_eq!(EndpointArgs::parse(&toks), Err(ArgsError::ExpectedIdent { at: 3 }));
    // `method = "GET" { }`: a block after a literal ends the expression.
    let toks = vec![ident("method"), eq(), str_lit("GET"), AttrToken::Group(Delimiter::Brace)];
    assert_eq!(EndpointArgs::parse(&toks), Err(ArgsError::ExpectedIdent { at: 3 }));
}

#[test]
fn args_keyword_key() {
    let toks = vec![ident("type"), eq(), str_lit("x")];
    let e = EndpointArgs::parse(&toks).unwrap_err();
    assert_eq!(e, ArgsError::KeywordKey { at: 0, key: "type".to_string() });
    assert_eq!(e.message(), "expected identifier, found keyword `type`");
    let toks = vec![ident("method"), eq(), str_lit("GET"), ident("_"), eq(), str_lit("x")];
    assert_eq!(
        EndpointArgs::parse(&toks),
        Err(ArgsError::KeywordKey { at: 3, key: "_".to_string() })
    );
}

#[test]
fn args_order_of_distinct_keys_does_not_matter() {
    let m = vec![ident("method"), eq(), str_lit("GET"), comma()];
    let p = vec![ident("path"), eq(), str_lit("a/b"), comma()];
    let rest = vec![ident("depth"), eq(), int_lit("1")];
    let mut t1 = m.clone();
    t1.extend(p.clone());
    t1.extend(rest.clone());
    let mut t2 = p.clone();
    t2.extend(m.clone());
    t2.extend(rest.clone());
    let a1 = EndpointArgs::parse(&t1).unwrap();
    let a2 = EndpointArgs::parse(&t2).unwrap();
    assert_eq!(a1.method.value, a2.method.value);
    assert_eq!(a1.path.value, a2.path.value);
    assert_eq!(a1.depth, a2.depth);
}

#[test]
fn args_first_of_repeated_key_is_forgotten() {
    let first = vec![ident("method"), eq(), str_lit("PUT"), comma()];
    let other = vec![ident("method"), eq(), str_lit("DELETE"), comma()];
    let last = vec![ident("method"), eq(), str_lit("GET"), comma()];
    let rest = vec![ident("path"), eq(), str_lit("x")];
    let build = |a: &Vec<AttrToken>| {
        let mut t = a.clone();
        t.extend(last.clone());
        t.extend(rest.clone());
        t
    };
    let r1 = EndpointArgs::parse(&build(&first));
    assert_eq!(r1, EndpointArgs::parse(&build(&other)));
    assert_eq!(r1.unwrap().method, lit("GET", 6));
}

#[test]
fn args_keyword_that_cannot_start_an_expression() {
    // `method = else, path = "x"`: `else` begins no expression.
    let toks = vec![ident("method"), eq(), ident("else"), comma(), ident("path"), eq(), str_lit("x")];
    let e = EndpointArgs::parse(&toks).unwrap_err();
    assert_eq!(e, ArgsError::ExpectedValue { at: 2, end: false });
    assert_eq!(e.message(), "expected an expression");
    // `method = async, ...` and `method = try x`: only before a block (and a few
    // other tokens) do these keywords begin an expression.
    let toks = vec![ident("method"), eq(), ident("async"), comma()];
    assert_eq!(EndpointArgs::parse(&toks), Err(ArgsError::ExpectedValue { at: 2, end: false }));
    let toks = vec![ident("method"), eq(), ident("try"), ident("x")];
    assert_eq!(EndpointArgs::parse(&toks), Err(ArgsError::ExpectedValue { at: 2, end: false }));
    // `method = async { }`, `method = true`, `method = self`: expressions, but no string literal.
    for value in [
        vec![ident("async"), AttrToken::Group(Delimiter::Brace)],
        vec![ident("true")],
        vec![ident("self")],
    ] {
        let mut toks = vec![ident("method"), eq()];
        toks.extend(value);
        assert_eq!(
            EndpointArgs::parse(&toks),
            Err(ArgsError::NotStrLit { at: 2, key: "method".to_string() })
        );
    }
}

#[test]
fn args_operator_without_right_operand() {
    // `method = "a" +`: the input ends where the right operand should be.
    let toks = vec![ident("method"), eq(), str_lit("a"), punct('+')];
    let e = EndpointArgs::parse(&toks).unwrap_err();
    assert_eq!(e, ArgsError::ExpectedValue { at: 4, end: true });
    assert_eq!(e.message(), "unexpected end of input, expected an expression");
    // `method = "a" <<=` and `depth = x ==`
    let toks = vec![ident("method"), eq(), str_lit("a"), joint('<'), joint('<'), punct('=')];
    assert_eq!(EndpointArgs::parse(&toks), Err(ArgsError::ExpectedValue { at: 6, end: true }));
    let toks = vec![ident("depth"), eq(), ident("x"), joint('='), punct('=')];
    assert_eq!(EndpointArgs::parse(&toks), Err(ArgsError::ExpectedValue { at: 5, end: true }));
    // `method = "a" ..`: an open range is a whole expression, though no literal.
    let toks = vec![ident("method"), eq(), str_lit("a"), joint('.'), punct('.')];
    assert_eq!(
        EndpointArgs::parse(&toks),
        Err(ArgsError::NotStrLit { at: 2, key: "method".to_string() })
    );
}

#[test]
fn args_any_order_of_three_distinct_keys() {
    let m = vec![ident("method"), eq(), str_lit("GET"), comma()];
    let p = vec![ident("path"), eq(), str_lit("a/b"), comma()];
    let n = vec![ident("name"), eq(), str_lit("Named"), comma()];
    let rest = vec![ident("depth"), eq(), int_lit("2")];
    let orders = [
        [&m, &p, &n],
        [&n, &m, &p],
        [&p, &n, &m],
        [&n, &p, &m],
    ];
    let mut seen = Vec::new();
    for order in orders {
        let mut t: Vec<AttrToken> = Vec::new();
        for e in order {
            t.extend(e.iter().cloned());
        }
        t.extend(rest.iter().cloned());
        let a = EndpointArgs::parse(&t).unwrap();
        seen.push((
            a.method.value,
            a.path.value,
            a.name.map(|l| l.value),
            a.depth.map(|l| l.value),
        ));
    }
    for s in &seen {
        assert_eq!(
            s,
            &(
                "GET".to_string(),
                "a/b".to_string(),
                Some("Named".to_string()),
                Some("2".to_string())
            )
        );
    }
}
