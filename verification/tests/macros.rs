use proc_macro2::{Delimiter, Spacing, TokenStream, TokenTree};
use rjava::expand::{bind_template, expand_bind};
use rjava::expand_interface::{expand_interface, interface_template};
use rjava::expand_native::{
    async_native, async_template, bind, expand_async_derived, interface, native, native_inst,
    native_template,
};
use rjava::gather::{
    all_invocation_questions, answers, declaration_questions, invocation_questions, Question,
};
use rjava::grammar::{
    AsyncInput, BindInput, Delim, Input, InterfaceInput, MacroError, Token, TokenKind,
};
use rjava::convert::{DoubleBits, FloatBits, FromJava};
use rjava::handles::JObject;
use rjava::mapping::{binary_name, contains_self, frag, map_type, Mapped};
use rjava::names::split_method_sig;
use rjava::reader::{Piece, Reader};
use rjava::rust_source::{declared_type, Segment, TypeOutline};
use rjava::text::{camel_case, capitalise};

fn push(out: &mut Vec<Token>, stream: TokenStream, depth: usize) {
    for tree in stream {
        match tree {
            TokenTree::Ident(i) => out.push(Token {
                kind: TokenKind::Ident(i.to_string()),
                depth,
            }),
            TokenTree::Punct(p) => out.push(Token {
                kind: TokenKind::Punct(p.as_char(), p.spacing() == Spacing::Joint),
                depth,
            }),
            TokenTree::Literal(l) => out.push(Token {
                kind: TokenKind::Literal(l.to_string()),
                depth,
            }),
            TokenTree::Group(g) => {
                let delim = match g.delimiter() {
                    Delimiter::Parenthesis => Delim::Paren,
                    Delimiter::Brace => Delim::Brace,
                    Delimiter::Bracket => Delim::Bracket,
                    Delimiter::None => {
                        push(out, g.stream(), depth + 1);
                        continue;
                    }
                };
                out.push(Token { kind: TokenKind::Open(delim), depth });
                push(out, g.stream(), depth);
                out.push(Token { kind: TokenKind::Close(delim), depth });
            }
        }
    }
}

/// The tokens of a macro invocation, from its source text.
fn tokens(source: &str) -> Vec<Token> {
    let mut out = Vec::new();
    push(&mut out, source.parse().expect("the test source lexes"), 0);
    out
}

/// An expansion as the compiler prints it.
fn printed(text: &str) -> String {
    text.parse::<TokenStream>().expect("the expansion lexes").to_string()
}

fn parsed(source: &str) -> BindInput {
    BindInput::parse(&tokens(source)).ok().expect("the declaration parses")
}

fn bound(source: &str) -> Result<String, String> {
    expand_bind(&parsed(source)).map(|t| printed(&t)).map_err(|e| e.message)
}

fn implemented(source: &str) -> Result<String, String> {
    let input = InterfaceInput::from_bind(parsed(source)).ok().expect("no fields");
    expand_interface(&input).map(|t| printed(&t)).map_err(|e| e.message)
}

fn declared(ty: &str) -> TypeOutline {
    declared_type(ty).ok().expect("the type parses")
}

fn mapped(ty: &str) -> Mapped {
    map_type(&declared(ty)).ok().expect("the type maps")
}

fn message<T>(r: Result<T, MacroError>) -> (usize, String) {
    match r {
        Ok(_) => panic!("an error was expected"),
        Err(e) => (e.at, e.message),
    }
}

#[test]
fn expansion_calls_make_async_native() {
    let expand = |source: &str| {
        let input = AsyncInput::parse(&tokens(source)).ok().expect("async_native input parses");
        printed(&expand_async_derived(&input))
    };
    let out = expand("\"compute\", compute");
    assert!(
        out.contains(":: rjava :: future :: make_async_native (\"compute\" , compute)"),
        "expansion: {out}"
    );
    let out = expand(
        "\"compute\", |java: rjava::Java, (a, b): (i32, i32)| async move { Ok(a + b) }",
    );
    assert!(
        out.contains("make_async_native (\"compute\" , | java : rjava :: Java , (a , b) : (i32 , i32) | async move { Ok (a + b) })"),
        "expansion: {out}"
    );
    let err = AsyncInput::parse(&tokens(
        "\"compute\", \"(II)Ljava/util/concurrent/CompletableFuture;\", compute",
    ));
    assert!(err.is_err(), "the explicit-signature form is not available for async_native!");
}

#[test]
fn trailing_tokens_are_rejected() {
    assert!(AsyncInput::parse(&tokens("\"compute\", compute, extra")).is_err());
}

#[test]
fn primitives_map_to_letters() {
    assert_eq!(frag(&mapped("bool"), "X"), "Z");
    assert_eq!(frag(&mapped("i8"), "X"), "B");
    assert_eq!(frag(&mapped("u8"), "X"), "B");
    assert_eq!(frag(&mapped("i16"), "X"), "S");
    assert_eq!(frag(&mapped("i32"), "X"), "I");
    assert_eq!(frag(&mapped("i64"), "X"), "J");
    assert_eq!(frag(&mapped("f32"), "X"), "F");
    assert_eq!(frag(&mapped("f64"), "X"), "D");
    assert_eq!(frag(&mapped("char"), "X"), "C");
    assert_eq!(frag(&mapped("()"), "X"), "V");
}

#[test]
fn references_and_generics_map() {
    assert_eq!(frag(&mapped("String"), "X"), "Ljava/lang/String;");
    assert_eq!(frag(&mapped("&str"), "X"), "Ljava/lang/String;");
    assert_eq!(frag(&mapped("JObject"), "X"), "Ljava/lang/Object;");
    assert_eq!(frag(&mapped("Option<String>"), "X"), "Ljava/lang/String;");
    assert_eq!(frag(&mapped("Vec<String>"), "X"), "[Ljava/lang/String;");
    assert_eq!(frag(&mapped("Vec<u8>"), "X"), "[B");
    assert_eq!(frag(&mapped("Vec<Option<String>>"), "X"), "[Ljava/lang/String;");
    assert_eq!(frag(&mapped("Option<Vec<i32>>"), "X"), "[I");
    assert_eq!(
        frag(&mapped("Self"), "java/lang/StringBuilder"),
        "Ljava/lang/StringBuilder;"
    );
}

#[test]
fn unsupported_types_are_rejected() {
    assert!(map_type(&declared("u32")).is_err(), "u32 has no Java type");
    assert!(map_type(&declared("u16")).is_err(), "u16 has no Java type");
    assert!(map_type(&declared("JClass")).is_err(), "JClass stays on the dynamic path");
    assert!(map_type(&declared("JArray<i32>")).is_err(), "JArray stays on the dynamic path");
    assert!(map_type(&declared("&String")).is_err(), "only &str is supported");
    assert!(map_type(&declared("Option")).is_err(), "Option needs a type argument");
    assert!(map_type(&declared("Vec<u32>")).is_err(), "Vec<u32> has no Java element type");
}

#[test]
fn expansion_computes_descriptors() {
    let out = bound(
        "\"java.lang.StringBuilder\" => StringBuilder {
            fn append(s: &str) -> Self;
            fn length() -> i32;
            fn toString() -> String;
            static fn valueOf(b: bool) -> String;
        }",
    )
    .expect("bind input expands");
    assert!(out.contains(r#"(Ljava/lang/String;)Ljava/lang/StringBuilder;"#), "{out}");
    assert!(out.contains(r#"()I"#), "{out}");
    assert!(out.contains(r#"()Ljava/lang/String;"#), "{out}");
    assert!(out.contains(r#"(Z)Ljava/lang/String;"#), "{out}");
    assert!(out.contains("pub struct StringBuilder"), "{out}");
    assert!(out.contains("fn append"), "{out}");
    assert!(out.contains("s : & str"), "{out}");
    assert!(out.contains("fn valueOf"), "{out}");
    assert!(out.contains("java : & :: rjava :: Java"), "{out}");
    assert!(out.contains("impl :: rjava :: bind :: JavaBound for StringBuilder"), "{out}");
    assert!(out.contains("instance_self"), "{out}");
    assert!(out.contains("instance_method"), "{out}");
    assert!(!out.contains("unsafe"), "{out}");
}

#[test]
fn duplicate_method_names_are_rejected() {
    let err = bound(
        "\"java.lang.StringBuilder\" => StringBuilder {
            fn append(s: &str) -> Self;
            fn append(n: i32) -> Self;
        }",
    )
    .expect_err("duplicate method names must be rejected");
    assert!(err.contains("duplicate method `append`"), "{err}");
}

#[test]
fn invalid_positions_are_rejected() {
    assert!(
        bound("\"A\" => A { fn f(a: Self) -> i32; }").is_err(),
        "Self as a parameter must be rejected"
    );
    let err = bound("\"A\" => A { fn f() -> &str; }").expect_err("&str return must be rejected");
    assert!(err.contains("&str"), "{err}");
    assert!(
        bound("\"A\" => A { fn f() -> Option<Self>; }").is_err(),
        "Option<Self> must be rejected"
    );
    let err = bound("\"A\" => A { fn f() ; }").expect_err("bind! requires an explicit return type");
    assert!(err.contains("return type"), "{err}");
}

#[test]
fn mapped_self_is_detected_in_generics() {
    assert!(contains_self(&mapped("Self")));
    assert!(contains_self(&mapped("Option<Self>")));
    assert!(!contains_self(&mapped("Vec<String>")));
}

#[test]
fn fields_expand_to_getter_setter_pairs() {
    let out = bound(
        "\"bind.Kit\" => Kit {
            field label: String;
            field count: i32;
            static field MAGIC: i64;
        }",
    )
    .expect("bind input with fields expands");
    assert!(out.contains("fn get_label"), "{out}");
    assert!(out.contains("fn set_label"), "{out}");
    assert!(out.contains("instance_field_get"), "{out}");
    assert!(out.contains("instance_field_set"), "{out}");
    assert!(out.contains("\"label\""), "{out}");
    assert!(out.contains("\"count\""), "{out}");
    assert!(out.contains("fn get_static_magic"), "{out}");
    assert!(out.contains("fn set_static_magic"), "{out}");
    assert!(out.contains("static_field_get"), "{out}");
    assert!(out.contains("static_field_set"), "{out}");
    assert!(out.contains("java : & :: rjava :: Java"), "{out}");
    assert!(!out.contains("unsafe"), "{out}");
}

#[test]
fn bool_fields_use_the_accessor_fallback_getter() {
    let out = bound("\"bind.Kit\" => Kit { field active: bool; }").expect("expands");
    assert!(out.contains("instance_bool_field_get"), "{out}");
    assert!(out.contains("instance_field_set"), "{out}");
}

#[test]
fn invalid_field_types_are_rejected() {
    for (decl, needle) in [
        ("field f: ();", "void"),
        ("field f: Self;", "Self"),
        ("field f: &str;", "&str"),
        ("field f: Option<Self>;", "Option<Self>"),
    ] {
        let err = bound(&format!("\"A\" => A {{ {decl} }}"))
            .expect_err("invalid field type must be rejected");
        assert!(err.contains(needle), "{decl}: {err}");
    }
}

#[test]
fn java_name_alias_reroutes_the_java_method() {
    let out = bound(
        "\"java.lang.Object\" => Obj {
            fn to_string() -> String [java_name = \"toString\"];
        }",
    )
    .expect("alias expands");
    assert!(out.contains("fn to_string"), "{out}");
    assert!(out.contains("\"toString\""), "{out}");
    assert!(out.contains("instance_method"), "{out}");
    assert!(!out.contains("unsafe"), "{out}");
}

#[test]
fn duplicate_java_names_are_rejected() {
    let err = bound(
        "\"java.lang.Object\" => Obj {
            fn a() -> String [java_name = \"toString\"];
            fn b() -> String [java_name = \"toString\"];
        }",
    )
    .expect_err("duplicate java_name must be rejected");
    assert!(err.contains("duplicate Java method name `toString`"), "{err}");
}

#[test]
fn empty_java_name_is_rejected() {
    let err = bound(
        "\"java.lang.Object\" => Obj {
            fn a() -> String [java_name = \"\"];
        }",
    )
    .expect_err("empty java_name must be rejected");
    assert!(err.contains("must not be empty"), "{err}");
}

#[test]
fn malformed_alias_is_a_parse_error() {
    let (_, err) = message(BindInput::parse(&tokens(
        "\"java.lang.Object\" => Obj {
            fn a() -> String [other = \"x\"];
        }",
    )));
    assert!(err.contains("java_name"), "{err}");
}

#[test]
fn expansion_contains_trait_dispatch_and_table() {
    let out = implemented(
        "\"com.example.Greeter\" => Greeter {
            fn greet(name: String) -> String;
            fn add(a: i32, b: i32) -> i32;
            fn ping();
        }",
    )
    .expect("interface input expands");
    assert!(out.contains("pub trait Greeter"), "{out}");
    assert!(out.contains("fn greet (& self , env : & mut :: rjava :: jni :: Env , name : String) -> :: rjava :: JavaResult < String > ;"), "{out}");
    assert!(out.contains("fn add (& self , env : & mut :: rjava :: jni :: Env , a : i32 , b : i32) -> :: rjava :: JavaResult < i32 > ;"), "{out}");
    assert!(out.contains("fn ping (& self , env : & mut :: rjava :: jni :: Env ,) -> :: rjava :: JavaResult < () > ;"), "{out}");
    assert!(out.contains("impl :: rjava :: interface :: InterfaceTrait for dyn Greeter + Send + Sync"), "{out}");
    assert!(out.contains("const INTERFACE_NAME : & 'static str = \"com.example.Greeter\""), "{out}");
    assert!(out.contains("fn dispatch < 'env >"), "{out}");
    assert!(out.contains("param_matches (& [\"java.lang.String\"] , param_types)"), "{out}");
    assert!(out.contains("param_matches (& [\"int\" , \"int\"] , param_types)"), "{out}");
    assert!(out.contains("param_matches (& [] , param_types)"), "{out}");
    assert!(out.contains(":: rjava :: interface :: box_value"), "{out}");
    assert!(out.contains(":: rjava :: interface :: to_value"), "{out}");
    assert!(out.contains("no method `{name}` with parameter types"), "{out}");
    assert!(!out.contains("unsafe"), "{out}");
}

#[test]
fn vec_option_and_void_map_to_binary_names() {
    let out = implemented(
        "\"I\" => I {
            fn apply(words: Vec<String>) -> Option<String>;
            fn values(v: Vec<i32>);
        }",
    )
    .expect("expands");
    assert!(out.contains("\"[Ljava.lang.String;\""), "{out}");
    assert!(out.contains("\"[I\""), "{out}");
    assert!(out.contains("fn values (& self , env : & mut :: rjava :: jni :: Env , v : Vec < i32 >) -> :: rjava :: JavaResult < () > ;"), "{out}");
}

#[test]
fn java_name_alias_works_in_interface() {
    let out = implemented(
        "\"C\" => C {
            fn to_string(n: i32) -> String [java_name = \"toString\"];
        }",
    )
    .expect("expands");
    assert!(out.contains("fn to_string"), "{out}");
    assert!(out.contains("\"toString\""), "{out}");
}

#[test]
fn static_fns_are_rejected() {
    let err = implemented("\"C\" => C { static fn f() -> i32; }")
        .expect_err("static fn must be rejected");
    assert!(err.contains("`static fn` is not supported"), "{err}");
}

#[test]
fn fields_are_rejected_with_a_pointer_to_bind() {
    let err = match InterfaceInput::from_bind(parsed("\"C\" => C { field x: i32; }")) {
        Ok(_) => panic!("fields must be rejected"),
        Err(e) => e.message,
    };
    assert!(err.contains("field"), "{err}");
    assert!(err.contains("bind!"), "{err}");
}

#[test]
fn reserved_object_methods_are_rejected() {
    for decl in [
        "fn toString() -> String;",
        "fn hashCode() -> i32;",
        "fn equals(o: JObject) -> bool;",
    ] {
        let err = implemented(&format!("\"C\" => C {{ {decl} }}"))
            .expect_err("reserved method must be rejected");
        assert!(err.contains("library-reserved"), "{decl}: {err}");
    }
    assert!(
        implemented("\"C\" => C { fn toString(n: i32) -> String; }").is_ok(),
        "toString(int) is not reserved"
    );
    assert!(
        implemented("\"C\" => C { fn equals(o: String) -> bool; }").is_ok(),
        "equals(String) is not reserved"
    );
}

#[test]
fn lib_unsupported_types_are_rejected() {
    for decl in [
        "fn f(a: Self) -> i32;",
        "fn f() -> Self;",
        "fn f(a: &str) -> i32;",
        "fn f() -> &str;",
    ] {
        let err = implemented(&format!("\"C\" => C {{ {decl} }}"))
            .expect_err("invalid type must be rejected");
        assert!(err.contains("interface!"), "{decl}: {err}");
    }
}

#[test]
fn reserved_param_name_is_rejected() {
    let err = implemented("\"C\" => C { fn f(env: String) -> i32; }")
        .expect_err("a param named env must be rejected");
    assert!(err.contains("`env` is reserved"), "{err}");
}

#[test]
fn syntax_errors_point_at_their_token() {
    for (source, at, text) in [
        ("Kit => Kit {}", 0, "expected string literal"),
        ("\"A\" = Kit {}", 1, "expected `=>`"),
        ("\"A\" => fn {}", 3, "expected identifier"),
        ("\"A\" => A ()", 4, "expected curly braces"),
        ("\"A\" => A {} x", 6, "unexpected tokens after the declaration"),
        ("\"A\" => A { pub fn f() -> i32; }", 5, "expected identifier"),
        (
            "\"A\" => A { method f() -> i32; }",
            6,
            "expected `fn`, `static fn`, `field` or `static field`",
        ),
        ("\"A\" => A { fn f -> i32; }", 7, "expected parentheses"),
        ("\"A\" => A { fn f(a i32) -> i32; }", 9, "expected `:`"),
        ("\"A\" => A { fn f(a: ) -> i32; }", 10, "expected a type"),
        ("\"A\" => A { fn f() -> i32 }", 11, "expected a type"),
        ("\"A\" => A { fn f() }", 9, "expected `;`"),
        ("\"A\" => A { field x i32; }", 7, "expected `:`"),
        ("\"A\" => A { fn f() [java_name \"x\"]; }", 11, "expected `=`"),
        ("\"A\" => A { fn f() [java_name = x]; }", 12, "expected string literal"),
        (
            "\"A\" => A { fn f() [java_name = \"x\" y]; }",
            13,
            "unexpected tokens after `java_name = \"…\"`",
        ),
        (
            "\"A\" => A { fn f() [other = \"x\"]; }",
            11,
            "expected `java_name = \"…\"`, found `other`",
        ),
    ] {
        assert_eq!(
            message(BindInput::parse(&tokens(source))),
            (at, text.to_string()),
            "{source}"
        );
    }
}

#[test]
fn types_end_where_the_compiler_ends_them() {
    let input = parsed(
        "\"A\" => A {
            fn f(a: std::collections::HashMap<i32, Vec<u8>>, b: &[u8],) -> &[u8];
            fn g() -> Vec<String> [java_name = \"h\"];
            field x: [u8; 3];
        }",
    );
    let texts: Vec<&str> = input.methods[0].params.iter().map(|p| p.ty.text.trim()).collect();
    assert_eq!(
        texts,
        ["std :: collections :: HashMap < i32 , Vec < u8 >>", "& [ u8 ]"]
    );
    assert_eq!(input.methods[0].ret.as_ref().unwrap().text.trim(), "& [ u8 ]");
    assert_eq!(input.methods[1].java_name.as_ref().unwrap().0, "h");
    assert_eq!(input.fields[0].ty.text.trim(), "[ u8 ; 3 ]");
}

#[test]
fn native_inputs_have_two_forms() {
    let input = Input::parse(&tokens("\"add\", |env, (a, b): (i32, i32)| Ok(a + b)")).ok().unwrap();
    assert_eq!((input.name.as_str(), input.sig.as_deref(), input.f_from), ("add", None, 2));
    let input = Input::parse(&tokens("\"add\", \"(II)I\", add")).ok().unwrap();
    assert_eq!(
        (input.name.as_str(), input.sig.as_deref(), input.f_from),
        ("add", Some("(II)I"), 4)
    );
    assert_eq!(
        message(Input::parse(&tokens("\"add\", add, more"))),
        (3, "unexpected tokens after `name[, sig], f`".to_string())
    );
    assert_eq!(
        message(Input::parse(&tokens("add, add"))),
        (0, "expected string literal".to_string())
    );
    assert_eq!(message(Input::parse(&tokens("\"add\" add"))), (1, "expected `,`".to_string()));
    assert_eq!(
        message(Input::parse(&tokens("\"add\", \"()V\" add"))),
        (3, "expected `,`".to_string())
    );
    assert_eq!(
        message(Input::parse(&tokens("\"add\", ;"))),
        (2, "expected an expression".to_string())
    );
}

#[test]
fn native_expands_to_a_trampoline() {
    let out = printed(
        &native(&tokens("\"add\", \"(IJLa.B;)D\", add")).ok().expect("the signature is valid"),
    );
    assert!(out.contains("_receiver : :: rjava :: jni :: objects :: JClass < 'caller > , n0 : :: rjava :: jni :: sys :: jint , n1 : :: rjava :: jni :: sys :: jlong , n2 : :: rjava :: jni :: objects :: JObject < 'caller > ,"), "{out}");
    assert!(out.contains("__args . push (:: rjava :: JavaArg :: Long (n1))"), "{out}");
    assert!(out.contains("__args . push (:: rjava :: JavaArg :: Object (n2))"), "{out}");
    assert!(out.contains(":: rjava :: jni :: JValueOwned :: Double (__vv) => __vv"), "{out}");
    assert!(out.contains("NativeMethod :: new (\"add\" , \"(IJLa/B;)D\" ,"), "{out}");
    assert!(!out.contains("unsafe"), "{out}");
    let out = printed(&native_inst(&tokens("\"f\", \"()V\", f")).ok().unwrap());
    assert!(out.contains("receiver : :: rjava :: jni :: objects :: JObject < 'caller >"), "{out}");
    assert!(out.contains("__args . push (:: rjava :: JavaArg :: Object (receiver))"), "{out}");
    let out = printed(&native(&tokens("\"f\", f")).ok().unwrap());
    assert_eq!(out, "(|| :: rjava :: native :: make_native_static (\"f\" , f)) ()");
    let out = printed(&native_inst(&tokens("\"f\", f")).ok().unwrap());
    assert_eq!(out, "(|| :: rjava :: native :: make_native_inst (\"f\" , f)) ()");
    let out = printed(&async_native(&tokens("\"f\", f")).ok().unwrap());
    assert_eq!(out, "(|| :: rjava :: future :: make_async_native (\"f\" , f)) ()");
}

#[test]
fn bad_signatures_name_the_macro() {
    assert_eq!(
        message(native_inst(&tokens("\"f\", \"()\", f"))),
        (
            2,
            "rjava::native_inst! invalid JNI signature `()`: missing return type after `)`; \
             expected e.g. \"(II)I\", \"(Ljava/lang/String;)V\" or \"([D)D\""
                .to_string()
        )
    );
}

#[test]
fn literals_are_read_and_written_by_value() {
    let out = bind(&tokens("r#\"a.\"B\"\"# => W { fn f() -> (); }")).ok().expect("expands");
    assert!(printed(&out).contains("\"a/\\\"B\\\"\""), "{out}");
}

/// The tokens of an invocation in which `@ .. ~` is an invisible group.
fn grouped(source: &str) -> Vec<Token> {
    let mut depth: usize = 0;
    let mut out = Vec::new();
    for t in tokens(source) {
        match t.kind {
            TokenKind::Punct('@', _) => depth += 1,
            TokenKind::Punct('~', _) => depth -= 1,
            kind => out.push(Token { kind, depth }),
        }
    }
    out
}

#[test]
fn types_in_invisible_groups_are_not_supported() {
    for source in [
        "@i32~",
        "Vec<@i32~>",
        "@Vec<i32>~",
        "@@Vec<i32>~~",
        "@&@str~~",
        "@(i32)~::X",
        "@@i32~~::X",
    ] {
        let (at, text) = message(bind(&grouped(&format!("\"A\" => A {{ fn f() -> {source}; }}"))));
        assert_eq!(at, 11, "{source}");
        assert!(text.starts_with("unsupported type in bind!; supported types: "), "{text}");
    }
    for (source, start) in [
        ("&@str~", "unsupported reference type in bind!; "),
        ("Vec<@i32~, @i32~>", "`Vec<T>` requires exactly one type argument"),
    ] {
        let (_, text) = message(bind(&grouped(&format!("\"A\" => A {{ fn f() -> {source}; }}"))));
        assert!(text.starts_with(start), "{text}");
    }
}

#[test]
fn invisible_groups_are_parts_of_longer_paths() {
    for (source, plain) in [
        ("@Vec~<i32>", "Vec<i32>"),
        ("@std~::string::String", "std::string::String"),
        ("@std::vec~::Vec<i32>", "std::vec::Vec<i32>"),
        ("Option<@Vec~<i32>>", "Option<Vec<i32>>"),
        ("std::@vec::Vec~<i32>", "std::vec::Vec<i32>"),
        ("Option<std::@string::String~>", "Option<std::string::String>"),
        ("@@std~::vec~::Vec<i32>", "std::vec::Vec<i32>"),
        ("String<@i32~>", "String<i32>"),
    ] {
        let with = bind(&grouped(&format!("\"A\" => A {{ fn f() -> {source}; }}")));
        let without = bind(&tokens(&format!("\"A\" => A {{ fn f() -> {plain}; }}")));
        assert_eq!(
            printed(&with.ok().expect(source)),
            printed(&without.ok().expect(plain)),
            "{source}"
        );
    }
}

#[test]
fn misplaced_types_are_refused_at_any_depth() {
    for (source, text) in [
        (
            "fn f(a: Vec<()>) -> i32;",
            "`()` (void) is only valid as a return type in bind!",
        ),
        (
            "fn f(a: Option<Vec<()>>) -> i32;",
            "`()` (void) is only valid as a return type in bind!",
        ),
        ("fn f() -> Option<&str>;", "`&str` cannot be a return type in bind! — use `String`"),
        ("fn f() -> Vec<Vec<&str>>;", "`&str` cannot be a return type in bind! — use `String`"),
        ("field a: Vec<()>;", "`()` (void) is not a valid field type in bind!"),
        ("field a: Option<&str>;", "`&str` cannot be a field type in bind! — use `String`"),
    ] {
        let source = format!("\"A\" => A {{ {source} }}");
        assert_eq!(message(bind(&tokens(&source))).1, text, "{source}");
    }
    for (source, text) in [
        (
            "fn f(a: Vec<()>) -> i32;",
            "`()` (void) is only valid as a return type in interface!",
        ),
        (
            "fn f(a: Vec<&str>) -> i32;",
            "`&str` cannot be an interface! parameter — the dispatch converts the JNI value into \
             an owned Rust value; use `String`",
        ),
        (
            "fn f() -> Option<&str>;",
            "`&str` cannot be an interface! return type — use `String`",
        ),
    ] {
        let source = format!("\"A\" => A {{ {source} }}");
        assert_eq!(message(interface(&tokens(&source))).1, text, "{source}");
    }
    assert!(bind(&tokens("\"A\" => A { fn f(a: Vec<&str>) -> Option<()>; }")).is_ok());
}

#[test]
fn camel_case_drops_every_underscore() {
    for (name, camel) in [("__a__b_c_", "ABC"), ("user_id", "UserId"), ("_", ""), ("x", "X")] {
        assert_eq!(camel_case(name), camel);
        assert!(!camel_case(name).contains('_'));
    }
}

#[test]
fn binding_faults_are_exact() {
    for (source, text) in [
        ("\"\" => A {}", "the class name must not be empty"),
        (
            "\"A\" => A { fn f(a: ()) -> i32; }",
            "`()` (void) is only valid as a return type in bind!",
        ),
        (
            "\"A\" => A { fn f(a: Self) -> i32; }",
            "`Self` is only valid as a return type in bind!",
        ),
        ("\"A\" => A { field r#type: i32; }", "a raw identifier cannot name a field in bind!"),
        ("\"A\" => A { fn f() -> Vec; }", "`Vec<T>` requires exactly one type argument"),
        ("\"A\" => A { fn f() -> Vec<'a>; }", "`Vec<T>` requires a type argument"),
    ] {
        assert_eq!(message(bind(&tokens(source))).1, text, "{source}");
    }
    let (_, text) = message(bind(&tokens("\"A\" => A { fn f() -> u32; }")));
    assert_eq!(
        text,
        "unsupported type `u32` in bind!; supported types: () (return only), bool, i8, i16, i32, \
         i64, f32, f64, char, u8 (Java byte), String, &str (parameters only), JObject, \
         Option<T>, Vec<T>, and Self (return only)"
    );
}

#[test]
fn interface_faults_are_exact() {
    for (source, text) in [
        ("\"\" => A {}", "the interface name must not be empty"),
        (
            "\"A\" => A { fn f(a: ()); }",
            "`()` (void) is only valid as a return type in interface!",
        ),
        (
            "\"A\" => A { fn f(__args: i32); }",
            "parameter name `__args` collides with the generated dispatch plumbing in interface! \
             — rename it",
        ),
        (
            "\"A\" => A { fn f(__rjava_x: i32); }",
            "parameter name `__rjava_x` collides with the generated dispatch plumbing in \
             interface! — rename it",
        ),
        (
            "\"A\" => A { fn f() -> Vec<Self>; }",
            "`Option<Self>` / `Vec<Self>` are not supported in interface!",
        ),
        ("\"A\" => A { fn f() [java_name = \"\"]; }", "`java_name = \"…\"` must not be empty"),
    ] {
        assert_eq!(message(interface(&tokens(source))).1, text, "{source}");
    }
}

#[test]
fn slash_and_dot_forms_name_the_same_class() {
    let dotted = interface(&tokens("\"a.b.C\" => C { fn f(); }")).ok().unwrap();
    let slashed = interface(&tokens("\"a/b/C\" => C { fn f(); }")).ok().unwrap();
    assert_eq!(dotted, slashed);
    assert!(dotted.contains("\"a.b.C\""));
    let out = bind(&tokens("\"a.b.C\" => C {}")).ok().unwrap();
    assert!(out.contains("fn class_name ( ) -> & 'static str { \"a/b/C\" }"), "{out}");
}

#[test]
fn binary_names_follow_class_get_name() {
    for (ty, name) in [
        ("i32", "int"),
        ("Option<char>", "char"),
        ("String", "java.lang.String"),
        ("Vec<JObject>", "[Ljava.lang.Object;"),
        ("Vec<Vec<i64>>", "[[J"),
    ] {
        assert_eq!(binary_name(&mapped(ty)), name, "{ty}");
    }
}

#[test]
fn accessor_names_are_lower_case_and_docs_are_camel_case() {
    let out = bind(&tokens("\"A\" => A { field Is_Open: bool; }")).ok().unwrap();
    assert!(out.contains("pub fn get_is_open ( & self )"), "{out}");
    assert!(out.contains("`getIsOpen` / `isIsOpen`"), "{out}");
}

#[test]
fn nested_self_parameters_are_refused() {
    for ty in ["Option<Self>", "Vec<Self>", "Vec<Option<Self>>"] {
        let source = format!("\"java.lang.Thread\" => Thread {{ fn f(a: {ty}) -> i32; }}");
        assert_eq!(
            bound(&source),
            Err("`Option<Self>` / `Vec<Self>` are not supported in bind! — use `Option<JObject>` / `JObject`"
                .to_string())
        );
    }
}

#[test]
fn outlines_map_without_their_text() {
    let arg = |args| TypeOutline::Path {
        qualified: false,
        segments: vec![
            Segment { ident: "std".to_string(), args: None },
            Segment { ident: "Vec".to_string(), args },
        ],
    };
    let int = || TypeOutline::Path {
        qualified: false,
        segments: vec![Segment { ident: "i32".to_string(), args: None }],
    };
    let one = map_type(&arg(Some(vec![Some(int())]))).ok().expect("one argument");
    assert_eq!(frag(&one, "X"), "[I");
    assert_eq!(
        map_type(&arg(Some(vec![None]))).err(),
        Some("`Vec<T>` requires a type argument".to_string())
    );
    let two = vec![Some(int()), Some(int())];
    assert_eq!(
        map_type(&arg(Some(two))).err(),
        Some("`Vec<T>` requires exactly one type argument".to_string())
    );
    assert_eq!(
        map_type(&arg(None)).err(),
        Some("`Vec<T>` requires exactly one type argument".to_string())
    );
    assert_eq!(declared_type("fn fn").err(), Some("expected a type".to_string()));
}

#[test]
fn words_are_capitalised_by_the_given_forms() {
    let uppers: Vec<String> = ["U", "S", "_", "SS"].iter().map(|s| s.to_string()).collect();
    assert_eq!(capitalise("us_\u{df}", &uppers), "UsSS");
}

#[test]
fn declared_types_convert_with_their_fragment() {
    let pairs = [
        ("()", <()>::java_return_type()),
        ("bool", bool::java_return_type()),
        ("i8", i8::java_return_type()),
        ("u8", u8::java_return_type()),
        ("i16", i16::java_return_type()),
        ("i32", i32::java_return_type()),
        ("i64", i64::java_return_type()),
        ("f32", FloatBits::java_return_type()),
        ("f64", DoubleBits::java_return_type()),
        ("char", char::java_return_type()),
        ("String", String::java_return_type()),
        ("JObject", JObject::java_return_type()),
        ("Option<String>", Option::<String>::java_return_type()),
        ("Vec<u8>", Vec::<u8>::java_return_type()),
        ("Vec<Option<JObject>>", Vec::<Option<JObject>>::java_return_type()),
    ];
    for (ty, fragment) in pairs {
        assert_eq!(frag(&mapped(ty), "X"), fragment, "{ty}");
    }
}

#[test]
fn bound_descriptors_are_split_into_their_fragments() {
    let out = bound("\"a.B\" => B { fn f(a: i32, b: Vec<String>, c: Option<JObject>) -> Self; }")
        .expect("the declaration expands");
    let sig = "(I[Ljava/lang/String;Ljava/lang/Object;)La/B;";
    assert!(out.contains(sig), "expansion: {out}");
    let (params, ret) = split_method_sig(sig).expect("the descriptor splits");
    assert_eq!(params, vec!["I", "[Ljava/lang/String;", "Ljava/lang/Object;"]);
    assert_eq!(ret, "La/B;");
}

fn path(name: &str) -> TypeOutline {
    TypeOutline::Path {
        qualified: false,
        segments: vec![Segment { ident: name.to_string(), args: None }],
    }
}

#[test]
fn declarations_are_read_with_given_pieces() {
    let source = "\"A\" => A { fn f(a: i32) -> i32; }";
    let pieces = |names: &[&str]| {
        let mut all: Vec<Piece> =
            names.iter().map(|n| Piece::Identifier(n.to_string())).collect();
        all.push(Piece::Text { source: "\"A\"".to_string(), value: "given".to_string() });
        all.push(Piece::Type { source: "i32 ".to_string(), outline: path("String") });
        all.push(Piece::Type { source: "i32 ".to_string(), outline: path("bool") });
        Reader { pieces: all }
    };
    let input = BindInput::read(&pieces(&["A", "f", "a"]), &tokens(source)).ok().expect("known");
    assert_eq!(input.class, "given");
    assert_eq!(input.methods.len(), 1);
    assert_eq!(frag(&map_type(&input.methods[0].params[0].ty.outline).ok().unwrap(), "X"), "Ljava/lang/String;");
    assert_eq!(
        message(BindInput::read(&pieces(&["A", "f"]), &tokens(source))),
        (8, "expected identifier".to_string())
    );
    assert_eq!(
        message(BindInput::read(&Reader { pieces: Vec::new() }, &tokens(source))).0,
        0
    );
    let native = vec![
        Piece::Text { source: "\"f\"".to_string(), value: "g".to_string() },
        Piece::Expression("h ".to_string()),
    ];
    let input = Input::read(&Reader { pieces: native }, &tokens("\"f\", h")).ok().expect("known");
    assert_eq!(input.name, "g");
    assert_eq!(input.f_from, 2);
    assert!(AsyncInput::read(&Reader { pieces: Vec::new() }, &tokens("\"f\", h")).is_err());
}

fn strings(v: &[&str]) -> Vec<String> {
    v.iter().map(|s| s.to_string()).collect()
}

#[test]
fn templates_are_filled_with_the_given_texts() {
    let t = bind_template(&parsed("\"a.B\" => B { fn f() -> i32; }")).ok().expect("lays out");
    assert_eq!(
        t.literals(),
        strings(&[
            "A compile-time-typed binding for the Java class `a.B` (`a/B`).",
            "Calls the Java instance method `f` with JNI signature `()I`.",
            "f",
            "()I",
            "a/B",
        ])
    );
    let text = t.fill(&strings(&["<1>", "<2>", "<3>", "<4>", "<5>"]));
    assert!(text.contains("# [ doc = <1> ] pub struct B { "), "{text}");
    assert!(text.contains("# [ doc = <2> ] pub fn f ( & self ,  ) -> "), "{text}");
    assert!(text.contains("( & self . java , & self . obj , <3> , :: rjava :: jni :: jni_sig ! ( jni = :: rjava :: jni , sig = <4> ) , () ) } "), "{text}");
    assert!(text.contains("fn class_name ( ) -> & 'static str { <5> }"), "{text}");

    let input = InterfaceInput::from_bind(parsed("\"a.B\" => B { fn f(x: i32, y: String); }"));
    let t = interface_template(&input.ok().expect("an interface")).ok().expect("lays out");
    assert_eq!(t.literals()[3..6], strings(&["f", "int", "java.lang.String"]));
    assert_eq!(t.literals().len(), 7);

    let input = Input::parse(&tokens("\"f\", \"(I)V\", g")).ok().expect("reads");
    let t = native_template(&input, false).ok().expect("lays out");
    assert_eq!(t.literals(), strings(&["f", "(I)V"]));
    assert!(t.fill(&strings(&["N", "S"])).contains("NativeMethod :: new ( N , S , __rjava_tramp"));
    let input = Input::parse(&tokens("\"f\", g")).ok().expect("reads");
    assert_eq!(
        native_template(&input, true).ok().expect("lays out").fill(&strings(&["N"])),
        "( || :: rjava :: native :: make_native_inst ( N , g  ) ) ( )"
    );
    let input = AsyncInput::parse(&tokens("\"f\", g")).ok().expect("reads");
    assert_eq!(
        async_template(&input).fill(&strings(&["N"])),
        "( || :: rjava :: future :: make_async_native ( N , g  ) ) ( )"
    );
}

fn shown(qs: &[Question]) -> Vec<String> {
    qs.iter()
        .map(|q| match q {
            Question::Identifier(s) => format!("i {s}"),
            Question::Expression(s) => format!("e {s}"),
            Question::Text(s) => format!("s {s}"),
            Question::Type(s) => format!("t {s}"),
        })
        .collect()
}

#[test]
fn declarations_ask_about_their_pieces() {
    let list = tokens("\"A\" => A { fn f(a: Vec<i8, u8>) -> [u8; 3] [java_name = \"g\"]; }");
    assert_eq!(
        shown(&declaration_questions(&list)),
        strings(&[
            "s \"A\"",
            "i A",
            "i fn",
            "i f",
            "i a",
            "t Vec < i8 ",
            "t Vec < i8 , u8 > ",
            "i Vec",
            "i i8",
            "i u8",
            "t [ u8 ; 3 ] ",
            "t [ u8 ; 3 ] [ java_name = \"g\" ] ",
            "i u8",
            "s 3",
            "i java_name",
            "s \"g\"",
        ])
    );
    let pieces = answers(&declaration_questions(&list));
    assert!(pieces.iter().any(|p| matches!(p, Piece::Identifier(s) if s == "java_name")));
    assert!(!pieces.iter().any(|p| matches!(p, Piece::Identifier(s) if s == "fn")));
    assert!(pieces.iter().any(
        |p| matches!(p, Piece::Text { source, value } if source == "\"g\"" && value == "g")
    ));
    assert!(pieces.iter().any(|p| matches!(p, Piece::Type { source, .. } if source == "[ u8 ; 3 ] ")));
    assert!(!pieces.iter().any(|p| matches!(p, Piece::Type { source, .. } if source == "Vec < i8 ")));
}

#[test]
fn invocations_ask_about_their_callable() {
    let list = tokens("\"f\", g h");
    assert_eq!(shown(&invocation_questions(&list)), strings(&["s \"f\"", "e g h "]));
    let all = shown(&all_invocation_questions(&list));
    assert!(all.contains(&"e g h ".to_string()) && all.contains(&"e g ".to_string()), "{all:?}");
    assert_eq!(
        message(Input::parse(&list)),
        (3, "unexpected tokens after `name[, sig], f`".to_string())
    );
}

#[test]
fn readers_that_answer_alike_read_alike() {
    let source = "\"A\" => A { fn f(a: Option<String>) -> i32; field b: bool; }";
    let list = tokens(source);
    let mut pieces = answers(&declaration_questions(&list));
    pieces.push(Piece::Identifier("elsewhere".to_string()));
    let read = BindInput::read(&Reader { pieces }, &list).ok().expect("reads");
    assert_eq!(expand_bind(&read).ok(), expand_bind(&parsed(source)).ok());
}

#[test]
fn plain_texts_are_answered_everywhere_alike() {
    let ask = |q: Question| answers(&vec![q]).pop();
    for word in ["x", "_x1", "union", "auto", "r", "builtin", "JavaName"] {
        assert!(
            matches!(ask(Question::Identifier(word.to_string())), Some(Piece::Identifier(s)) if s == word),
            "{word}"
        );
        assert!(ask(Question::Expression(format!("{word} "))).is_some(), "{word}");
        assert!(ask(Question::Expression(format!("{word} x "))).is_none(), "{word}");
        assert!(ask(Question::Type(format!("{word} x "))).is_none(), "{word}");
    }
    for word in [
        "_", "abstract", "as", "async", "await", "become", "box", "break", "const", "continue",
        "crate", "do", "dyn", "else", "enum", "extern", "false", "final", "fn", "for", "if",
        "impl", "in", "let", "loop", "macro", "match", "mod", "move", "mut", "override", "priv",
        "pub", "ref", "return", "Self", "self", "static", "struct", "super", "trait", "true",
        "try", "type", "typeof", "unsafe", "unsized", "use", "virtual", "where", "while", "yield",
    ] {
        assert!(ask(Question::Identifier(word.to_string())).is_none(), "{word}");
    }
    assert!(ask(Question::Expression("a ::b :: c ".to_string())).is_some());
    assert!(ask(Question::Expression("a :: b ,c ".to_string())).is_none());
    let printable: String = (' '..='~').filter(|c| *c != '"' && *c != '\\').collect();
    assert!(matches!(
        ask(Question::Text(format!("\"{printable}\""))),
        Some(Piece::Text { value, .. }) if value == printable
    ));
    assert!(ask(Question::Text("12".to_string())).is_none());
    let input = AsyncInput { name: printable.clone(), f_from: 2, f: "g ".to_string() };
    assert_eq!(
        expand_async_derived(&input),
        format!("( || :: rjava :: future :: make_async_native ( \"{printable}\" , g  ) ) ( )")
    );
}

fn segments_of(t: &TypeOutline) -> &[Segment] {
    match t {
        TypeOutline::Path { qualified: false, segments } => segments,
        _ => panic!("a path was expected"),
    }
}

#[test]
fn plain_types_have_the_shape_of_their_tokens() {
    for word in ["i32 ", "Self ", "auto ", "r "] {
        let t = declared(word);
        assert_eq!(segments_of(&t).len(), 1);
        assert_eq!(segments_of(&t)[0].ident, word.trim());
        assert!(segments_of(&t)[0].args.is_none());
    }
    let t = declared("& mut Vec <& Option < Self >>");
    let elem = match &t {
        TypeOutline::Reference { mutable: true, elem } => elem,
        _ => panic!("a reference was expected"),
    };
    assert_eq!(segments_of(elem)[0].ident, "Vec");
    let args = segments_of(elem)[0].args.as_ref().expect("an argument");
    assert_eq!(args.len(), 1);
    let inner = match &args[0] {
        Some(TypeOutline::Reference { mutable: false, elem }) => elem,
        _ => panic!("a reference was expected"),
    };
    assert_eq!(segments_of(inner)[0].ident, "Option");
    let args = segments_of(inner)[0].args.as_ref().expect("an argument");
    assert_eq!(segments_of(args[0].as_ref().expect("a type"))[0].ident, "Self");
    assert!(matches!(declared("( ) "), TypeOutline::Tuple(0)));
    assert!(matches!(
        declared("&& str "),
        TypeOutline::Reference { elem, .. } if matches!(*elem, TypeOutline::Reference { .. })
    ));
    let t = declared("std :: vec ::Vec < () > ");
    let names: Vec<&str> = segments_of(&t).iter().map(|s| s.ident.as_str()).collect();
    assert_eq!(names, ["std", "vec", "Vec"]);
    assert!(segments_of(&t)[1].args.is_none() && segments_of(&t)[2].args.is_some());
    for broken in ["A B ", "A ,B ", "& A , ", "( ) A ", "Vec < A > B ", "a :: b c "] {
        assert_eq!(declared_type(broken).err(), Some("expected a type".to_string()), "{broken}");
    }
}

#[test]
fn plain_declarations_read_as_their_pieces_say() {
    let source = "\"a.B\" => B { fn f(x: &str) -> Self; static field y: i32; }";
    let word = |ident: &str| {
        let segment = Segment { ident: ident.to_string(), args: None };
        TypeOutline::Path { qualified: false, segments: vec![segment] }
    };
    let ident = |s: &str| Piece::Identifier(s.to_string());
    let ty = |source: &str, outline| Piece::Type { source: source.to_string(), outline };
    let pieces = vec![
        Piece::Text { source: "\"a.B\"".to_string(), value: "a.B".to_string() },
        ident("B"),
        ident("f"),
        ident("x"),
        ident("field"),
        ident("y"),
        ty("& str ", TypeOutline::Reference { mutable: false, elem: Box::new(word("str")) }),
        ty("Self ", word("Self")),
        ty("i32 ", word("i32")),
    ];
    let read = BindInput::read(&Reader { pieces }, &tokens(source)).ok().expect("reads");
    let text = expand_bind(&read).ok().expect("expands");
    assert_eq!(Some(text), expand_bind(&parsed(source)).ok());
}

#[test]
fn plain_native_methods_read_as_they_stand() {
    let input = Input::parse(&tokens("\"add\", \"(II)I\", a::b")).ok().expect("reads");
    assert_eq!((input.name.as_str(), input.sig.as_deref()), ("add", Some("(II)I")));
    assert_eq!((input.f_from, input.f.as_str()), (4, "a :: b "));
    let input = Input::parse(&tokens("\"add\", f")).ok().expect("reads");
    assert_eq!((input.name.as_str(), input.sig.as_deref()), ("add", None));
    assert_eq!((input.f_from, input.f.as_str()), (2, "f "));
    let input = AsyncInput::parse(&tokens("\"add\", f")).ok().expect("reads");
    assert_eq!((input.name.as_str(), input.f_from, input.f.as_str()), ("add", 2, "f "));
}

#[test]
fn leftovers_are_refused_at_their_first_token() {
    assert_eq!(
        message(Input::parse(&tokens("\"f\", a::b, c, d"))),
        (6, "unexpected tokens after `name[, sig], f`".to_string())
    );
    assert_eq!(
        message(AsyncInput::parse(&tokens("\"f\", a b c"))),
        (3, "unexpected tokens after `name, f`".to_string())
    );
}
