use asn1rs::parser::Token;
use asn1rs::schema::lor::Error as ResolveError;
use asn1rs::schema::{Bounds, Error, LitOrRef, LiteralValue, OpenType, OpenTypeVariant};
use asn1rs::schema::{PeekableTokens, Resolved, Resolver, SymbolTable, Tag, Type, Unresolved};

/// Splits a text into words and punctuation characters.
fn tokens(source: &str) -> PeekableTokens {
    let mut out = Vec::new();
    let mut word = String::new();
    for c in source.chars() {
        if c.is_whitespace() || ",.{}[]():;=".contains(c) {
            if !word.is_empty() {
                out.push(Token::Text(word.clone()));
                word.clear();
            }
            if !c.is_whitespace() {
                out.push(Token::Separator(c));
            }
        } else {
            word.push(c);
        }
    }
    if !word.is_empty() {
        out.push(Token::Text(word));
    }
    PeekableTokens::new(out)
}

fn parse(source: &str) -> Result<OpenType<Unresolved>, Error> {
    OpenType::try_from(&mut tokens(source))
}

fn variant(name: &str, ty: Type<Unresolved>) -> OpenTypeVariant<Unresolved> {
    OpenTypeVariant::name_type(name.to_string(), ty)
}

#[test]
fn extension_marker_before_any_variant_is_refused() {
    assert_eq!(
        parse("{ ..., a BOOLEAN }"),
        Err(Error::InvalidPositionForExtensionMarker(Token::Separator('.')))
    );
    assert_eq!(
        parse("{ ... }"),
        Err(Error::InvalidPositionForExtensionMarker(Token::Separator('.')))
    );
}

#[test]
fn extension_marker_after_a_variant_is_recorded() {
    let open_type = parse("{ a BOOLEAN, ... }").unwrap();
    assert_eq!(open_type.extension_after_index(), Some(0));
    assert!(open_type.is_extensible());
    assert_eq!(open_type.len(), 1);
    assert_eq!(open_type.variants(), &vec![variant("a", Type::Boolean)]);
}

#[test]
fn variants_may_follow_the_extension_marker() {
    let open_type = parse("{ a BOOLEAN, ..., b INTEGER }").unwrap();
    assert_eq!(open_type.extension_after_index(), Some(0));
    assert_eq!(
        open_type.variants(),
        &vec![variant("a", Type::Boolean), variant("b", Type::Integer(None))]
    );
    let open_type = parse("{ a BOOLEAN, b NULL, ..., c INTEGER }").unwrap();
    assert_eq!(open_type.extension_after_index(), Some(1));
    assert_eq!(open_type.len(), 3);
}

#[test]
fn a_second_extension_marker_is_refused() {
    assert_eq!(
        parse("{ a BOOLEAN, ..., ..., b INTEGER }"),
        Err(Error::InvalidPositionForExtensionMarker(Token::Separator('.')))
    );
    assert_eq!(
        parse("{ a BOOLEAN, ..., b INTEGER, ... }"),
        Err(Error::InvalidPositionForExtensionMarker(Token::Separator('.')))
    );
}

#[test]
fn the_error_leaves_the_cursor_behind_the_offending_token() {
    let mut cursor = tokens("{ a BOOLEAN, ..., ..., b INTEGER }");
    assert!(OpenType::try_from(&mut cursor).is_err());
    assert_eq!(cursor.next(), Some(Token::Separator('.')));
    assert_eq!(cursor.next(), Some(Token::Separator('.')));
    assert_eq!(cursor.next(), Some(Token::Separator(',')));
}

#[test]
fn empty_braces_are_an_open_type_without_variants() {
    let open_type = parse("{}").unwrap();
    assert!(open_type.is_empty());
    assert_eq!(open_type.len(), 0);
    assert!(!open_type.is_extensible());
    assert_eq!(open_type.extension_after_index(), None);
}

#[test]
fn parsing_stops_behind_the_closing_brace() {
    let mut cursor = tokens("{ a BOOLEAN } next");
    assert!(OpenType::try_from(&mut cursor).is_ok());
    assert_eq!(cursor.next(), Some(Token::Text("next".to_string())));
}

#[test]
fn variants_keep_their_order_tags_and_types() {
    let open_type = parse(
        "{ a [5] INTEGER (1..10), b [APPLICATION 2] Foo, c UTF8String (SIZE(1..max-len)), \
         d OCTET STRING, e [PRIVATE 3] NULL, f integer (low..-3) }",
    )
    .unwrap();
    let lit = |v: i64| LitOrRef::Lit(v);
    let expected = vec![
        OpenTypeVariant {
            name: "a".to_string(),
            tag: Some(Tag::ContextSpecific(5)),
            ty: Type::Integer(Some(Bounds { lower: lit(1), upper: lit(10) })),
            key: None,
        },
        OpenTypeVariant {
            name: "b".to_string(),
            tag: Some(Tag::Application(2)),
            ty: Type::TypeReference("Foo".to_string()),
            key: None,
        },
        OpenTypeVariant {
            name: "c".to_string(),
            tag: None,
            ty: Type::Utf8String(Some(Bounds {
                lower: LitOrRef::Lit(1),
                upper: LitOrRef::Ref("max-len".to_string()),
            })),
            key: None,
        },
        OpenTypeVariant {
            name: "d".to_string(),
            tag: None,
            ty: Type::OctetString(None),
            key: None,
        },
        OpenTypeVariant {
            name: "e".to_string(),
            tag: Some(Tag::Private(3)),
            ty: Type::Null,
            key: None,
        },
        OpenTypeVariant {
            name: "f".to_string(),
            tag: None,
            ty: Type::Integer(Some(Bounds {
                lower: LitOrRef::Ref("low".to_string()),
                upper: lit(-3),
            })),
            key: None,
        },
    ];
    assert_eq!(open_type.variants(), &expected);
    assert_eq!(open_type.extension_after_index(), None);
}

#[test]
fn a_type_may_be_optional_or_have_a_default() {
    let open_type =
        parse("{ a BOOLEAN OPTIONAL, b INTEGER DEFAULT 5, c BOOLEAN default true, d Foo DEFAULT bar }")
            .unwrap();
    assert_eq!(
        open_type.variants(),
        &vec![
            variant("a", Type::Optional(Box::new(Type::Boolean))),
            variant(
                "b",
                Type::Default(
                    Box::new(Type::Integer(None)),
                    LitOrRef::Lit(LiteralValue::Integer(5))
                )
            ),
            variant(
                "c",
                Type::Default(
                    Box::new(Type::Boolean),
                    LitOrRef::Lit(LiteralValue::Boolean(true))
                )
            ),
            variant(
                "d",
                Type::Default(
                    Box::new(Type::TypeReference("Foo".to_string())),
                    LitOrRef::Ref("bar".to_string())
                )
            ),
        ]
    );
}

#[test]
fn syntax_errors() {
    assert_eq!(parse(""), Err(Error::UnexpectedEndOfStream));
    assert_eq!(
        parse("a BOOLEAN }"),
        Err(Error::ExpectedSeparatorGot('{', Token::Text("a".to_string())))
    );
    assert_eq!(
        parse("( a BOOLEAN }"),
        Err(Error::ExpectedSeparatorGot('{', Token::Separator('(')))
    );
    assert_eq!(parse("{"), Err(Error::UnexpectedEndOfStream));
    assert_eq!(parse("{ a"), Err(Error::UnexpectedEndOfStream));
    assert_eq!(parse("{ a BOOLEAN"), Err(Error::UnexpectedEndOfStream));
    assert_eq!(parse("{ a BOOLEAN,"), Err(Error::UnexpectedEndOfStream));
    assert_eq!(
        parse("{ a BOOLEAN, }"),
        Err(Error::ExpectedText(Token::Separator('}')))
    );
    assert_eq!(
        parse("{ , }"),
        Err(Error::ExpectedText(Token::Separator(',')))
    );
    assert_eq!(
        parse("{ a , }"),
        Err(Error::ExpectedText(Token::Separator(',')))
    );
    assert_eq!(
        parse("{ a BOOLEAN b BOOLEAN }"),
        Err(Error::UnexpectedToken(Token::Text("b".to_string())))
    );
    assert_eq!(
        parse("{ a BOOLEAN ; }"),
        Err(Error::UnexpectedToken(Token::Separator(';')))
    );
    assert_eq!(
        parse("{ a BOOLEAN, .. }"),
        Err(Error::ExpectedSeparatorGot('.', Token::Separator('}')))
    );
    assert_eq!(
        parse("{ a [x] BOOLEAN }"),
        Err(Error::InvalidTag(Token::Text("x".to_string())))
    );
    assert_eq!(
        parse("{ a [1 BOOLEAN }"),
        Err(Error::ExpectedSeparatorGot(']', Token::Text("BOOLEAN".to_string())))
    );
    assert_eq!(
        parse("{ a INTEGER (1..) }"),
        Err(Error::ExpectedText(Token::Separator(')')))
    );
    assert_eq!(
        parse("{ a UTF8String (LENGTH(1..2)) }"),
        Err(Error::UnexpectedToken(Token::Text("LENGTH".to_string())))
    );
    assert_eq!(
        parse("{ a OCTET BOOLEAN }"),
        Err(Error::UnexpectedToken(Token::Text("BOOLEAN".to_string())))
    );
    assert_eq!(parse("{ a BOOLEAN DEFAULT"), Err(Error::UnexpectedEndOfStream));
}

#[test]
fn builders() {
    let variants = vec![
        OpenTypeVariant::<Resolved>::name_type("a".to_string(), Type::Boolean),
        OpenTypeVariant::<Resolved>::name_type("b".to_string(), Type::Null),
    ];
    let open_type = OpenType::from_variants(variants);
    assert_eq!(open_type.len(), 2);
    assert!(!open_type.is_empty());
    assert!(!open_type.is_extensible());
    assert_eq!(open_type.extension_after_index(), None);
    let open_type = open_type.with_extension_after(1);
    assert!(open_type.is_extensible());
    assert_eq!(open_type.extension_after_index(), Some(1));
    assert_eq!(open_type.len(), 2);
    let open_type = open_type.with_maybe_extension_after(None);
    assert!(!open_type.is_extensible());
    let open_type = open_type.with_maybe_extension_after(Some(0));
    assert_eq!(open_type.extension_after_index(), Some(0));
    assert_eq!(open_type.variants()[1].name(), "b");
    assert_eq!(open_type.variants()[1].ty(), &Type::Null);

    let from: OpenType<Resolved> =
        OpenType::from(vec![OpenTypeVariant::name_type("x".to_string(), Type::Boolean)]);
    assert_eq!(from.len(), 1);
    assert_eq!(from.extension_after_index(), None);
    let none: OpenType<Resolved> = OpenType::from_variants(Vec::new());
    assert!(none.is_empty());
}

fn table() -> SymbolTable {
    let mut table = SymbolTable::new();
    table.sizes.push(("max-len".to_string(), 64));
    table.ranges.push(("low".to_string(), -100));
    table.ranges.push(("high".to_string(), 100));
    table.consts.push(("yes".to_string(), LiteralValue::Boolean(true)));
    table.types.push((
        "Foo".to_string(),
        Type::Integer(Some(Bounds { lower: 0, upper: 7 })),
    ));
    table.types.push(("Loose".to_string(), Type::TypeReference("Foo".to_string())));
    table
}

#[test]
fn resolution_keeps_order_names_tags_and_the_marker() {
    let open_type = parse(
        "{ a [5] INTEGER (low..high), b Foo, ..., c UTF8String (SIZE(1..max-len)), \
         d BOOLEAN DEFAULT yes, e NULL OPTIONAL }",
    )
    .unwrap();
    let resolved = open_type.try_resolve(&table()).unwrap();
    assert_eq!(resolved.len(), 5);
    assert_eq!(resolved.extension_after_index(), Some(1));
    let expected: Vec<OpenTypeVariant<Resolved>> = vec![
        OpenTypeVariant {
            name: "a".to_string(),
            tag: Some(Tag::ContextSpecific(5)),
            ty: Type::Integer(Some(Bounds { lower: -100, upper: 100 })),
            key: None,
        },
        OpenTypeVariant {
            name: "b".to_string(),
            tag: None,
            ty: Type::Integer(Some(Bounds { lower: 0, upper: 7 })),
            key: None,
        },
        OpenTypeVariant {
            name: "c".to_string(),
            tag: None,
            ty: Type::Utf8String(Some(Bounds { lower: 1, upper: 64 })),
            key: None,
        },
        OpenTypeVariant {
            name: "d".to_string(),
            tag: None,
            ty: Type::Default(Box::new(Type::Boolean), LiteralValue::Boolean(true)),
            key: None,
        },
        OpenTypeVariant {
            name: "e".to_string(),
            tag: None,
            ty: Type::Optional(Box::new(Type::Null)),
            key: None,
        },
    ];
    assert_eq!(resolved.variants(), &expected);
    // the unresolved model is still there, and resolves again to the same
    assert_eq!(open_type.len(), 5);
    assert_eq!(open_type.try_resolve(&table()).unwrap(), resolved);
}

#[test]
fn resolution_drops_a_key() {
    let mut v = variant("a", Type::Boolean);
    v.key = Some(4);
    v.tag = Some(Tag::Private(1));
    let resolved = v.try_resolve(&table()).unwrap();
    assert_eq!(resolved.key, None);
    assert_eq!(resolved.tag, Some(Tag::Private(1)));
    assert_eq!(resolved.name(), "a");
    assert_eq!(resolved.ty(), &Type::Boolean);
}

#[test]
fn the_first_variant_that_fails_is_the_error() {
    let open_type =
        parse("{ a BOOLEAN, b Missing, c INTEGER (nowhere..1), d AlsoMissing }").unwrap();
    assert_eq!(
        open_type.try_resolve(&table()),
        Err(ResolveError::FailedToResolveType("Missing".to_string()))
    );
    let open_type = parse("{ a BOOLEAN, c INTEGER (low..nowhere), d AlsoMissing }").unwrap();
    let error = open_type.try_resolve(&table()).unwrap_err();
    assert_eq!(error, ResolveError::FailedToResolveReference("nowhere".to_string()));
    assert_eq!(error.symbol(), "nowhere");
    assert_eq!(error.to_string(), "failed to resolve reference");
}

#[test]
fn each_kind_of_name_is_looked_up_in_its_table() {
    let t = table();
    let unknown_size = parse("{ a OCTET STRING (SIZE(low..2)) }").unwrap();
    assert_eq!(
        unknown_size.try_resolve(&t),
        Err(ResolveError::FailedToResolveReference("low".to_string()))
    );
    let unknown_const = parse("{ a BOOLEAN DEFAULT low }").unwrap();
    assert_eq!(
        unknown_const.try_resolve(&t),
        Err(ResolveError::FailedToResolveReference("low".to_string()))
    );
    let known = parse("{ a OCTET STRING (SIZE(max-len..max-len)) }").unwrap();
    assert_eq!(
        known.try_resolve(&t).unwrap().variants()[0].ty(),
        &Type::OctetString(Some(Bounds { lower: 64, upper: 64 }))
    );
}

#[test]
fn the_table_hands_out_no_type_that_names_another() {
    let t = table();
    assert_eq!(
        t.resolve_type(&"Loose".to_string()),
        Err(ResolveError::FailedToResolveType("Loose".to_string()))
    );
    assert_eq!(
        t.resolve_type(&"Foo".to_string()),
        Ok(Type::Integer(Some(Bounds { lower: 0, upper: 7 })))
    );
    assert!(!Type::<Resolved>::TypeReference("Foo".to_string()).linked());
    assert!(Type::<Resolved>::Optional(Box::new(Type::Boolean)).linked());
    assert!(!Type::<Resolved>::Optional(Box::new(Type::TypeReference("x".to_string()))).linked());
}

#[test]
fn a_later_declaration_replaces_an_earlier_one() {
    let mut t = table();
    assert_eq!(t.resolve_size(&"max-len".to_string()), Ok(64));
    t.sizes.push(("max-len".to_string(), 65));
    assert_eq!(t.resolve_size(&"max-len".to_string()), Ok(65));
    assert_eq!(t.resolve_range(&"low".to_string()), Ok(-100));
    assert_eq!(t.resolve_const(&"yes".to_string()), Ok(LiteralValue::Boolean(true)));
    assert_eq!(
        t.resolve_const(&"no".to_string()),
        Err(ResolveError::FailedToResolveReference("no".to_string()))
    );
    let empty = SymbolTable::new();
    assert_eq!(
        empty.resolve_size(&"max-len".to_string()),
        Err(ResolveError::FailedToResolveReference("max-len".to_string()))
    );
}

#[test]
fn a_copy_of_a_type_equals_it() {
    let ty: Type<Resolved> = Type::Default(
        Box::new(Type::Optional(Box::new(Type::Utf8String(Some(Bounds { lower: 1, upper: 2 }))))),
        LiteralValue::Integer(3),
    );
    assert_eq!(ty.duplicate(), ty);
}

#[test]
fn cursor_operations() {
    let mut cursor = tokens("a , b");
    assert_eq!(cursor.peek(), Some(&Token::Text("a".to_string())));
    assert!(!cursor.next_is_separator_and_eq(','));
    assert!(cursor.next_is_text_and_eq_ignore_case("A"));
    assert_eq!(cursor.next_if_separator_and_eq(','), None);
    assert_eq!(cursor.next_text_or_err(), Ok("a".to_string()));
    assert!(cursor.next_is_separator_and_eq(','));
    assert_eq!(cursor.next_if_separator_and_eq(','), Some(Token::Separator(',')));
    assert_eq!(
        cursor.next_separator_eq_or_err(','),
        Err(Error::ExpectedSeparatorGot(',', Token::Text("b".to_string())))
    );
    assert_eq!(cursor.peek(), None);
    assert_eq!(cursor.next_or_err(), Err(Error::UnexpectedEndOfStream));
    assert_eq!(cursor.next_text_or_err(), Err(Error::UnexpectedEndOfStream));
    assert_eq!(
        cursor.next_text_eq_ignore_case_or_err("x"),
        Err(Error::UnexpectedEndOfStream)
    );
    let mut cursor = tokens("SIZE size ,");
    assert_eq!(cursor.next_text_eq_ignore_case_or_err("size"), Ok(()));
    assert_eq!(
        cursor.next_text_eq_ignore_case_or_err("length"),
        Err(Error::UnexpectedToken(Token::Text("size".to_string())))
    );
    assert_eq!(
        cursor.next_text_or_err(),
        Err(Error::ExpectedText(Token::Separator(',')))
    );
}
