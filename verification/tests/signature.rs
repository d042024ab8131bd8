use rjava::signature::{parse_sig, parse_type, Kind};

/// `(<c>×n)V`: a signature with `n` parameters of one primitive letter.
fn repeat(c: char, n: usize) -> String {
    format!("({})V", std::iter::repeat(c).take(n).collect::<String>())
}

#[test]
fn static_limit_is_255_units() {
    let (params, _ret) = parse_sig(&repeat('I', 255), false).expect("255 ints parse for static");
    assert_eq!(params.len(), 255);
    assert!(parse_sig(&repeat('I', 256), false).is_err());
    assert!(parse_sig(&format!("({}I)V", "J".repeat(127)), false).is_ok());
    assert!(parse_sig(&repeat('J', 128), false).is_err());
}

#[test]
fn instance_limit_is_254_units() {
    assert!(parse_sig(&repeat('I', 254), true).is_ok());
    assert!(parse_sig(&repeat('I', 255), true).is_err());
    assert!(parse_sig(&repeat('J', 127), true).is_ok());
    assert!(parse_sig(&repeat('J', 128), true).is_err());
}

#[test]
fn error_message_names_the_jvm_limit() {
    let err = parse_sig(&repeat('I', 256), false)
        .err()
        .expect("256 ints must be rejected for static");
    assert!(err.contains("255"), "message: {err}");
    let err = parse_sig(&repeat('I', 255), true)
        .err()
        .expect("255 ints must be rejected for instance");
    assert!(err.contains("254"), "message: {err}");
    assert!(err.contains("this"), "message: {err}");
}

#[test]
fn many_parameter_signatures_parse() {
    let (params, _ret) = parse_sig("(IIIIIIIIIIIIIIIIIIII)J", false).expect("20 ints parse");
    assert_eq!(params.len(), 20);
    let (params, _ret) =
        parse_sig("(BSIJFDZCLjava/lang/String;J)J", false).expect("mixed signature parses");
    assert_eq!(params.len(), 10);
}

#[test]
fn fragments_are_normalized() {
    let (params, ret) = parse_sig("(Ljava.lang.String;[I[Ljava.util.List;)V", false)
        .ok()
        .expect("dotted names parse");
    let frags: Vec<&str> = params.iter().map(|p| p.frag.as_str()).collect();
    assert_eq!(frags, ["Ljava/lang/String;", "[I", "[Ljava/util/List;"]);
    assert!(params.iter().all(|p| p.kind == Kind::Ref));
    assert_eq!(ret.frag, "V");
    assert!(ret.kind == Kind::Void);
}

#[test]
fn malformed_signatures_name_their_fault() {
    for (sig, message) in [
        ("II)I", "signature must start with `(` — e.g. \"(II)I\""),
        ("", "signature must start with `(` — e.g. \"(II)I\""),
        ("(I", "unterminated parameter list — missing `)`"),
        ("(I)", "missing return type after `)`"),
        ("(V)I", "`V` is only valid as a return type, not as a parameter"),
        ("(Ljava/lang/String)I", "unterminated class name in `L<name>;` (missing `;`)"),
        ("(L;)I", "empty class name in `L<name>;`"),
        (
            "(La-b;)I",
            "invalid character in class name `a-b` (expected letters, digits, `/`, `.`, `$` or `_`)",
        ),
        ("([", "unterminated array type (missing element type)"),
        ("([La", "unterminated array element class name (missing `;`)"),
        ("([L;)I", "empty array element class name"),
        (
            "([[I)I",
            "bad array element type `[` (expected a primitive letter or `L<name>;`)",
        ),
        (
            "(Q)I",
            "unknown JNI type `Q` (expected Z B C S I J F D, `L<name>;`, `[<type>]`, or `V` as a return type)",
        ),
        ("(I)IJ", "unexpected trailing characters after the return type: `J`"),
        (
            "(JJ",
            "unterminated parameter list — missing `)`",
        ),
    ] {
        assert_eq!(parse_sig(sig, false).err().expect("rejected"), message, "{sig}");
    }
}

#[test]
fn the_limit_message_is_exact() {
    assert_eq!(
        parse_sig(&repeat('J', 128), false).err().unwrap(),
        "too many parameters: the JVM method-descriptor limit is 255 parameter units (JVMS \
         §4.3.3; `long`/`double` count as 2 units) and this signature needs 256"
    );
    assert_eq!(
        parse_sig(&repeat('I', 255), true).err().unwrap(),
        "too many parameters: the JVM method-descriptor limit is 254 parameter units (JVMS \
         §4.3.3; `long`/`double` count as 2 units (the instance receiver `this` takes 1 of the \
         255, leaving 254)) and this signature needs 255"
    );
}

#[test]
fn the_normal_form_parses_again() {
    let (params, ret) = parse_sig("(Ljava.lang.String;D)[Lx.Y;", true).ok().unwrap();
    let normal = format!(
        "({}){}",
        params.iter().map(|p| p.frag.as_str()).collect::<String>(),
        ret.frag
    );
    let (again, ret_again) = parse_sig(&normal, true).ok().unwrap();
    assert_eq!(again.len(), params.len());
    for (a, b) in again.iter().zip(&params) {
        assert!(a.kind == b.kind);
        assert_eq!(a.frag, b.frag);
    }
    assert_eq!(ret_again.frag, ret.frag);
}

#[test]
fn reading_behind_the_end_is_an_error() {
    let chars: Vec<char> = "I".chars().collect();
    for start in [1, 2, usize::MAX] {
        let mut i: usize = start;
        assert_eq!(
            parse_type(&chars, &mut i, true).map(|t| t.frag),
            Err("unexpected end of signature".to_string())
        );
        assert_eq!(i, start);
    }
    let mut i: usize = 0;
    assert_eq!(parse_type(&chars, &mut i, false).map(|t| t.frag), Ok("I".to_string()));
    assert_eq!(i, 1);
}
