use vstd::prelude::*;

use crate::expand::{bind_expansion, bind_template, complaint};
use crate::expand_interface::{interface_expansion, interface_template};
use crate::gather::{are_answers, knows_declaration, knows_invocation};
use crate::grammar::{
    async_input_of, bind_of, input_of, interface_of, lexed, read_as, read_as_async,
    read_as_declaration, AsyncInput, AsyncInputModel, BindInput, Fault, Input, InputModel,
    InterfaceInput, MacroError, Token, TokenModel,
};
use crate::reader::{PieceModel, ReaderModel};
use crate::signature::{
    descriptor, fragments, is_primitive_letter, is_type_text, models, parse_sig,
    parsed_descriptors_are_well_formed, signature_of, type_of_text, types_of_texts, unit_limit, units,
    Kind, ParsedType, TypeModel,
};
use crate::template::{
    code, expands, is_writing, lays_out, literal, render, PartModel, Template,
};
use crate::text::{concat, decimal, numeral};

verus! {

/// The complaint about an explicit signature.
pub open spec fn bad_signature(
    macro_name: Seq<char>,
    sig: Seq<char>,
    message: Seq<char>,
) -> Seq<char> {
    "rjava::"@
        + macro_name
        + "! invalid JNI signature `"@
        + sig
        + "`: "@
        + message
        + "; expected e.g. \"(II)I\", \"(Ljava/lang/String;)V\" or \"([D)D\""@
}

fn bad_signature_text(macro_name: &str, sig: &str, message: &str) -> (s: String)
    ensures
        s@ == bad_signature(macro_name@, sig@, message@),
{
    let mut s = "rjava::".to_owned();
    s.push_str(macro_name);
    s.push_str("! invalid JNI signature `");
    s.push_str(sig);
    s.push_str("`: ");
    s.push_str(message);
    s.push_str("; expected e.g. \"(II)I\", \"(Ljava/lang/String;)V\" or \"([D)D\"");
    s
}

/// The conversion of a dispatched value into a primitive result.
pub open spec fn primitive_return(variant: Seq<char>, default: Seq<char>) -> Seq<char> {
    "match __v { :: rjava :: jni :: JValueOwned :: "@
        + variant
        + " ( __vv ) => __vv , _ => { let _ = :: rjava :: native :: throw_error ( __env , :: rjava :: JavaError :: InvalidArgument ( \"native method returned a Java value that does not match its JNI signature\" ) , ) ; "@
        + default
        + " } }"@
}

fn primitive_return_text(variant: &str, default: &str) -> (s: String)
    ensures
        s@ == primitive_return(variant@, default@),
{
    let mut s = "match __v { :: rjava :: jni :: JValueOwned :: ".to_owned();
    s.push_str(variant);
    s.push_str(" ( __vv ) => __vv , _ => { let _ = :: rjava :: native :: throw_error ( __env , :: rjava :: JavaError :: InvalidArgument ( \"native method returned a Java value that does not match its JNI signature\" ) , ) ; ");
    s.push_str(default);
    s.push_str(" } }");
    s
}

/// A native method with an explicit signature: its trampoline and its descriptor.
pub open spec fn trampoline(
    receiver: Seq<char>,
    decls: Seq<char>,
    ret: Seq<char>,
    receiver_push: Seq<char>,
    pushes: Seq<char>,
    f: Seq<char>,
    conv: Seq<char>,
    default: Seq<char>,
    name: Seq<char>,
    sig: Seq<char>,
) -> Seq<PartModel> {
    seq![
        code("( || { # [ allow ( unused_parens , clippy :: unused_unit ) ] extern \"system\" fn __rjava_tramp < 'caller > ( mut __unowned_env : :: rjava :: jni :: EnvUnowned < 'caller > , "@),
        code(receiver),
        code(decls),
        code(" ) -> "@),
        code(ret),
        code(" { let __raw = __unowned_env . as_raw ( ) ; match __unowned_env . with_env ( | __env | -> :: std :: result :: Result < "@),
        code(ret),
        code(" , :: rjava :: jni :: errors :: Error > { let mut __args : :: std :: vec :: Vec < :: rjava :: JavaArg < 'caller > > = :: std :: vec :: Vec :: new ( ) ; "@),
        code(receiver_push),
        code(pushes),
        code("match :: rjava :: native :: dispatch ( __env , __args , "@),
        code(f),
        code(" ) { :: std :: result :: Result :: Ok ( __v ) => { :: std :: result :: Result :: Ok ( "@),
        code(conv),
        code(" ) } :: std :: result :: Result :: Err ( __e ) => { let _ = :: rjava :: native :: throw_error ( __env , __e ) ; :: std :: result :: Result :: Ok ( "@),
        code(default),
        code(" ) } } } , ) . into_outcome ( ) { :: rjava :: jni :: Outcome :: Ok ( __out ) => __out , _ => "@),
        code(default),
        code(" , } } :: rjava :: NativeMethod :: new ( "@),
        literal(name),
        code(" , "@),
        literal(sig),
        code(" , __rjava_tramp as * mut :: std :: ffi :: c_void , ) } ) ( )"@),
    ]
}

fn trampoline_template(
    receiver: &str,
    decls: &str,
    ret: &str,
    receiver_push: &str,
    pushes: &str,
    f: &str,
    conv: &str,
    default: &str,
    name: &str,
    sig: &str,
) -> (t: Template)
    ensures
        t@ == trampoline(receiver@, decls@, ret@, receiver_push@, pushes@, f@, conv@, default@, name@, sig@),
{
    let mut t = Template::new();
    t.code("( || { # [ allow ( unused_parens , clippy :: unused_unit ) ] extern \"system\" fn __rjava_tramp < 'caller > ( mut __unowned_env : :: rjava :: jni :: EnvUnowned < 'caller > , ");
    t.code(receiver);
    t.code(decls);
    t.code(" ) -> ");
    t.code(ret);
    t.code(" { let __raw = __unowned_env . as_raw ( ) ; match __unowned_env . with_env ( | __env | -> :: std :: result :: Result < ");
    t.code(ret);
    t.code(" , :: rjava :: jni :: errors :: Error > { let mut __args : :: std :: vec :: Vec < :: rjava :: JavaArg < 'caller > > = :: std :: vec :: Vec :: new ( ) ; ");
    t.code(receiver_push);
    t.code(pushes);
    t.code("match :: rjava :: native :: dispatch ( __env , __args , ");
    t.code(f);
    t.code(" ) { :: std :: result :: Result :: Ok ( __v ) => { :: std :: result :: Result :: Ok ( ");
    t.code(conv);
    t.code(" ) } :: std :: result :: Result :: Err ( __e ) => { let _ = :: rjava :: native :: throw_error ( __env , __e ) ; :: std :: result :: Result :: Ok ( ");
    t.code(default);
    t.code(" ) } } } , ) . into_outcome ( ) { :: rjava :: jni :: Outcome :: Ok ( __out ) => __out , _ => ");
    t.code(default);
    t.code(" , } } :: rjava :: NativeMethod :: new ( ");
    t.literal(name);
    t.code(" , ");
    t.literal(sig);
    t.code(" , __rjava_tramp as * mut :: std :: ffi :: c_void , ) } ) ( )");
    t
}

/// A static native method whose signature is derived from its types.
pub open spec fn derived_static(name: Seq<char>, f: Seq<char>) -> Seq<PartModel> {
    seq![
        code("( || :: rjava :: native :: make_native_static ( "@),
        literal(name),
        code(" , "@),
        code(f),
        code(" ) ) ( )"@),
    ]
}

fn derived_static_template(name: &str, f: &str) -> (t: Template)
    ensures
        t@ == derived_static(name@, f@),
{
    let mut t = Template::new();
    t.code("( || :: rjava :: native :: make_native_static ( ");
    t.literal(name);
    t.code(" , ");
    t.code(f);
    t.code(" ) ) ( )");
    t
}

/// An instance native method whose signature is derived from its types.
pub open spec fn derived_instance(name: Seq<char>, f: Seq<char>) -> Seq<PartModel> {
    seq![
        code("( || :: rjava :: native :: make_native_inst ( "@),
        literal(name),
        code(" , "@),
        code(f),
        code(" ) ) ( )"@),
    ]
}

fn derived_instance_template(name: &str, f: &str) -> (t: Template)
    ensures
        t@ == derived_instance(name@, f@),
{
    let mut t = Template::new();
    t.code("( || :: rjava :: native :: make_native_inst ( ");
    t.literal(name);
    t.code(" , ");
    t.code(f);
    t.code(" ) ) ( )");
    t
}

/// An asynchronous native method.
pub open spec fn derived_async(name: Seq<char>, f: Seq<char>) -> Seq<PartModel> {
    seq![
        code("( || :: rjava :: future :: make_async_native ( "@),
        literal(name),
        code(" , "@),
        code(f),
        code(" ) ) ( )"@),
    ]
}

fn derived_async_template(name: &str, f: &str) -> (t: Template)
    ensures
        t@ == derived_async(name@, f@),
{
    let mut t = Template::new();
    t.code("( || :: rjava :: future :: make_async_native ( ");
    t.literal(name);
    t.code(" , ");
    t.code(f);
    t.code(" ) ) ( )");
    t
}

/// Whether a kind is void, a reference, or a primitive with a known letter.
pub open spec fn known_kind(k: Kind) -> bool {
    k matches Kind::Prim(c) ==> is_primitive_letter(c)
}

/// Every accepted signature has known kinds only, and no void parameter.
pub proof fn parsed_kinds_are_known(chars: Seq<char>, is_inst: bool)
    requires
        signature_of(chars, is_inst) is Ok,
    ensures
        ({
            let (params, ret) = signature_of(chars, is_inst)->Ok_0;
            &&& forall|i: int|
                0 <= i < params.len() ==> known_kind((#[trigger] params[i]).kind)
                    && params[i].kind != Kind::Void
            &&& known_kind(ret.kind)
        }),
{
    parsed_descriptors_are_well_formed(chars, is_inst);
    let (texts, ret) = choose|params: Seq<Seq<char>>, ret: Seq<char>|
        {
            &&& chars == #[trigger] descriptor(params, ret)
            &&& forall|k: int| 0 <= k < params.len() ==> is_type_text(#[trigger] params[k], false)
            &&& is_type_text(ret, true)
            &&& units(types_of_texts(params)) <= unit_limit(is_inst)
            &&& signature_of(chars, is_inst)->Ok_0 == (types_of_texts(params), type_of_text(ret))
        };
    assert forall|i: int| 0 <= i < texts.len() implies known_kind(
        (#[trigger] types_of_texts(texts)[i]).kind,
    ) && types_of_texts(texts)[i].kind != Kind::Void by {
        assert(is_type_text(texts[i], false));
    }
}

/// The raw C type of a primitive letter.
pub open spec fn c_type(c: char) -> Seq<char> {
    if c == 'Z' {
        ":: rjava :: jni :: sys :: jboolean"@
    } else if c == 'B' {
        ":: rjava :: jni :: sys :: jbyte"@
    } else if c == 'C' {
        ":: rjava :: jni :: sys :: jchar"@
    } else if c == 'S' {
        ":: rjava :: jni :: sys :: jshort"@
    } else if c == 'I' {
        ":: rjava :: jni :: sys :: jint"@
    } else if c == 'J' {
        ":: rjava :: jni :: sys :: jlong"@
    } else if c == 'F' {
        ":: rjava :: jni :: sys :: jfloat"@
    } else {
        ":: rjava :: jni :: sys :: jdouble"@
    }
}

/// The variant that carries a primitive letter, of an argument and of a value alike.
pub open spec fn variant_of(c: char) -> Seq<char> {
    if c == 'Z' {
        "Bool"@
    } else if c == 'B' {
        "Byte"@
    } else if c == 'C' {
        "Char"@
    } else if c == 'S' {
        "Short"@
    } else if c == 'I' {
        "Int"@
    } else if c == 'J' {
        "Long"@
    } else if c == 'F' {
        "Float"@
    } else {
        "Double"@
    }
}

/// The default value of a primitive letter.
pub open spec fn default_of(c: char) -> Seq<char> {
    if c == 'Z' {
        "false"@
    } else if c == 'F' || c == 'D' {
        "0.0"@
    } else {
        "0"@
    }
}

/// The raw C type of a primitive letter.
pub fn prim_ty(c: char) -> (s: &'static str)
    requires
        is_primitive_letter(c),
    ensures
        s@ == c_type(c),
{
    match c {
        'Z' => ":: rjava :: jni :: sys :: jboolean",
        'B' => ":: rjava :: jni :: sys :: jbyte",
        'C' => ":: rjava :: jni :: sys :: jchar",
        'S' => ":: rjava :: jni :: sys :: jshort",
        'I' => ":: rjava :: jni :: sys :: jint",
        'J' => ":: rjava :: jni :: sys :: jlong",
        'F' => ":: rjava :: jni :: sys :: jfloat",
        _ => ":: rjava :: jni :: sys :: jdouble",
    }
}

/// The argument variant of a primitive letter.
pub fn prim_arg(c: char) -> (s: &'static str)
    requires
        is_primitive_letter(c),
    ensures
        s@ == variant_of(c),
{
    match c {
        'Z' => "Bool",
        'B' => "Byte",
        'C' => "Char",
        'S' => "Short",
        'I' => "Int",
        'J' => "Long",
        'F' => "Float",
        _ => "Double",
    }
}

/// The value variant of a primitive letter.
pub fn prim_variant(c: char) -> (s: &'static str)
    requires
        is_primitive_letter(c),
    ensures
        s@ == variant_of(c),
{
    prim_arg(c)
}

/// The default value of a primitive letter.
pub fn prim_default(c: char) -> (s: &'static str)
    requires
        is_primitive_letter(c),
    ensures
        s@ == default_of(c),
{
    match c {
        'Z' => "false",
        'F' | 'D' => "0.0",
        _ => "0",
    }
}

/// The C return type of a kind.
pub open spec fn return_type(k: Kind) -> Seq<char> {
    match k {
        Kind::Void => "()"@,
        Kind::Prim(c) => c_type(c),
        Kind::Ref => ":: rjava :: jni :: sys :: jobject"@,
    }
}

/// The default return value of a kind.
pub open spec fn return_default(k: Kind) -> Seq<char> {
    match k {
        Kind::Void => "()"@,
        Kind::Prim(c) => default_of(c),
        Kind::Ref => ":: std :: ptr :: null_mut ( )"@,
    }
}

/// The conversion of a dispatched value into a kind's C value. A value of another
/// variant throws, and gives the default.
pub open spec fn return_conversion(k: Kind) -> Seq<char> {
    match k {
        Kind::Void => "match __v { :: rjava :: jni :: JValueOwned :: Void => ( ) , _ => { let _ = :: rjava :: native :: throw_error ( __env , :: rjava :: JavaError :: InvalidArgument ( \"native method returned a Java value that does not match its JNI signature\" ) , ) ; ( ) } }"@,
        Kind::Prim(c) => primitive_return(variant_of(c), default_of(c)),
        Kind::Ref => "match __v { :: rjava :: jni :: JValueOwned :: Object ( __vv ) => __vv . into_raw ( ) , _ => { let _ = :: rjava :: native :: throw_error ( __env , :: rjava :: JavaError :: InvalidArgument ( \"native method returned a Java value that does not match its JNI signature\" ) , ) ; :: std :: ptr :: null_mut ( ) } }"@,
    }
}

/// The C return type of a parsed return type.
pub fn ret_ty(ret: &ParsedType) -> (s: &'static str)
    requires
        known_kind(ret.kind),
    ensures
        s@ == return_type(ret.kind),
{
    match ret.kind {
        Kind::Void => "()",
        Kind::Prim(c) => prim_ty(c),
        Kind::Ref => ":: rjava :: jni :: sys :: jobject",
    }
}

/// The default C value of a parsed return type.
pub fn ret_default(ret: &ParsedType) -> (s: &'static str)
    requires
        known_kind(ret.kind),
    ensures
        s@ == return_default(ret.kind),
{
    match ret.kind {
        Kind::Void => "()",
        Kind::Prim(c) => prim_default(c),
        Kind::Ref => ":: std :: ptr :: null_mut ( )",
    }
}

/// The conversion of the dispatched value into the C value of a parsed return type.
pub fn ret_conv(ret: &ParsedType) -> (s: String)
    requires
        known_kind(ret.kind),
    ensures
        s@ == return_conversion(ret.kind),
{
    match ret.kind {
        Kind::Void => "match __v { :: rjava :: jni :: JValueOwned :: Void => ( ) , _ => { let _ = :: rjava :: native :: throw_error ( __env , :: rjava :: JavaError :: InvalidArgument ( \"native method returned a Java value that does not match its JNI signature\" ) , ) ; ( ) } }".to_owned(),
        Kind::Prim(c) => primitive_return_text(prim_variant(c), prim_default(c)),
        Kind::Ref => "match __v { :: rjava :: jni :: JValueOwned :: Object ( __vv ) => __vv . into_raw ( ) , _ => { let _ = :: rjava :: native :: throw_error ( __env , :: rjava :: JavaError :: InvalidArgument ( \"native method returned a Java value that does not match its JNI signature\" ) , ) ; :: std :: ptr :: null_mut ( ) } }".to_owned(),
    }
}

/// The C parameter declarations of the first `k` parameters.
pub open spec fn c_params(params: Seq<TypeModel>, k: int) -> Seq<char>
    decreases k,
{
    if k <= 0 {
        Seq::empty()
    } else {
        c_params(params, k - 1) + "n"@ + numeral((k - 1) as nat, 10) + " : "@ + (
        match params[k - 1].kind {
            Kind::Prim(c) => c_type(c),
            _ => ":: rjava :: jni :: objects :: JObject < 'caller >"@,
        }) + " , "@
    }
}

/// The statements that put the first `k` parameters on the argument list.
pub open spec fn c_pushes(params: Seq<TypeModel>, k: int) -> Seq<char>
    decreases k,
{
    if k <= 0 {
        Seq::empty()
    } else {
        c_pushes(params, k - 1) + "__args . push ( :: rjava :: JavaArg ::"@ + (
        match params[k - 1].kind {
            Kind::Prim(c) => variant_of(c),
            _ => "Object"@,
        }) + "(n"@ + numeral((k - 1) as nat, 10) + ")); "@
    }
}

/// The name of the macro for static or instance methods.
pub open spec fn macro_of(is_inst: bool) -> Seq<char> {
    if is_inst {
        "native_inst"@
    } else {
        "native"@
    }
}

/// The C declaration of the receiver.
pub open spec fn receiver_of(is_inst: bool) -> Seq<char> {
    if is_inst {
        "receiver : :: rjava :: jni :: objects :: JObject < 'caller > , "@
    } else {
        "_receiver : :: rjava :: jni :: objects :: JClass < 'caller > , "@
    }
}

/// The statement that puts the receiver on the argument list: an instance method gets
/// it as its first argument.
pub open spec fn receiver_push_of(is_inst: bool) -> Seq<char> {
    if is_inst {
        "__args . push ( :: rjava :: JavaArg :: Object ( receiver ) ) ; "@
    } else {
        Seq::empty()
    }
}

/// The normalized descriptor of a parsed signature.
pub open spec fn normal_sig(params: Seq<TypeModel>, ret: TypeModel) -> Seq<char> {
    "("@ + concat(fragments(params)) + ")"@ + ret.frag
}

/// The expansion of a native method with an explicit signature, or the complaint
/// about the signature, which is the third token.
pub open spec fn explicit_expansion(input: InputModel, is_inst: bool) -> Result<
    Seq<PartModel>,
    Fault,
> {
    match signature_of(input.sig->0, is_inst) {
        Err(message) => Err(
            Fault { at: 2, message: bad_signature(macro_of(is_inst), input.sig->0, message) },
        ),
        Ok((params, ret)) => Ok(
            trampoline(
                receiver_of(is_inst),
                c_params(params, params.len() as int),
                return_type(ret.kind),
                receiver_push_of(is_inst),
                c_pushes(params, params.len() as int),
                input.f,
                return_conversion(ret.kind),
                return_default(ret.kind),
                input.name,
                normal_sig(params, ret),
            ),
        ),
    }
}

fn normal_sig_text(params: &Vec<ParsedType>, ret: &ParsedType) -> (s: String)
    ensures
        s@ == normal_sig(models(params@), ret@),
{
    let mut s = "(".to_owned();
    let ghost fs = fragments(models(params@));
    let mut k: usize = 0;
    assert(fs.take(0) =~= Seq::<Seq<char>>::empty());
    assert(s@ + Seq::<char>::empty() =~= s@);
    while k < params.len()
        invariant
            k <= params@.len(),
            fs == fragments(models(params@)),
            s@ == "("@ + concat(fs.take(k as int)),
        decreases params@.len() - k,
    {
        s.push_str(params[k].frag.as_str());
        proof {
            let next = fs.take(k as int + 1);
            assert(next.drop_last() =~= fs.take(k as int));
            assert(next.last() == params@[k as int].frag@);
            assert(s@ =~= "("@ + concat(next));
        }
        k += 1;
    }
    assert(fs.take(k as int) =~= fs);
    s.push_str(")");
    s.push_str(ret.frag.as_str());
    s
}

fn c_param_texts(params: &Vec<ParsedType>) -> (r: (String, String))
    requires
        forall|i: int|
            0 <= i < params@.len() ==> known_kind((#[trigger] params@[i]).kind)
                && params@[i].kind != Kind::Void,
    ensures
        r.0@ == c_params(models(params@), params@.len() as int),
        r.1@ == c_pushes(models(params@), params@.len() as int),
{
    let mut decls = String::new();
    let mut pushes = String::new();
    let mut k: usize = 0;
    while k < params.len()
        invariant
            k <= params@.len(),
            decls@ == c_params(models(params@), k as int),
            pushes@ == c_pushes(models(params@), k as int),
            forall|i: int|
                0 <= i < params@.len() ==> known_kind((#[trigger] params@[i]).kind)
                    && params@[i].kind != Kind::Void,
        decreases params@.len() - k,
    {
        let index = decimal(k as u128);
        let (ty, arg) = match params[k].kind {
            Kind::Prim(c) => (prim_ty(c), prim_arg(c)),
            _ => (":: rjava :: jni :: objects :: JObject < 'caller >", "Object"),
        };
        decls.push_str("n");
        decls.push_str(index.as_str());
        decls.push_str(" : ");
        decls.push_str(ty);
        decls.push_str(" , ");
        pushes.push_str("__args . push ( :: rjava :: JavaArg ::");
        pushes.push_str(arg);
        pushes.push_str("(n");
        pushes.push_str(index.as_str());
        pushes.push_str(")); ");
        k += 1;
    }
    (decls, pushes)
}

/// Expands a native method with an explicit signature into the text of its trampoline
/// and its descriptor. How string literals with characters to escape are
/// written is the compiler's affair.
pub fn expand(input: &Input, is_inst: bool) -> (r: Result<String, MacroError>)
    requires
        input.sig is Some,
    ensures
        expands(r, explicit_expansion(input@, is_inst)),
{
    render(explicit_template(input, is_inst))
}

/// Lays out what a native method with an explicit signature expands to: its trampoline and
/// its descriptor.
pub fn explicit_template(input: &Input, is_inst: bool) -> (r: Result<Template, MacroError>)
    requires
        input.sig is Some,
    ensures
        lays_out(r, explicit_expansion(input@, is_inst)),
{
    let sig = match &input.sig {
        Some(s) => s.as_str(),
        None => "",
    };
    let (params, ret) = match parse_sig(sig, is_inst) {
        Ok(parsed) => parsed,
        Err(message) => {
            let macro_name = if is_inst {
                "native_inst"
            } else {
                "native"
            };
            return Err(complaint(2, bad_signature_text(macro_name, sig, message.as_str())));
        },
    };
    proof {
        parsed_kinds_are_known(sig@, is_inst);
        assert forall|i: int| 0 <= i < params@.len() implies known_kind(
            (#[trigger] params@[i]).kind,
        ) && params@[i].kind != Kind::Void by {
            assert(models(params@)[i] == params@[i]@);
        }
        assert(known_kind(ret@.kind));
    }
    let (decls, pushes) = c_param_texts(&params);
    let receiver = if is_inst {
        "receiver : :: rjava :: jni :: objects :: JObject < 'caller > , "
    } else {
        "_receiver : :: rjava :: jni :: objects :: JClass < 'caller > , "
    };
    let mut receiver_push = String::new();
    if is_inst {
        receiver_push = "__args . push ( :: rjava :: JavaArg :: Object ( receiver ) ) ; ".to_owned();
    }
    let sig = normal_sig_text(&params, &ret);
    Ok(
        trampoline_template(
            receiver,
            decls.as_str(),
            ret_ty(&ret),
            receiver_push.as_str(),
            pushes.as_str(),
            input.f.as_str(),
            ret_conv(&ret).as_str(),
            ret_default(&ret),
            input.name.as_str(),
            sig.as_str(),
        ),
    )
}

/// The expansion of a native method whose signature is derived from its types.
pub open spec fn derived_expansion(input: InputModel, is_inst: bool) -> Seq<PartModel> {
    if is_inst {
        derived_instance(input.name, input.f)
    } else {
        derived_static(input.name, input.f)
    }
}

/// Lays out what a native method whose signature is derived from its types expands to: one
/// call.
pub fn derived_template(input: &Input, is_inst: bool) -> (t: Template)
    ensures
        t@ == derived_expansion(input@, is_inst),
{
    if is_inst {
        derived_instance_template(input.name.as_str(), input.f.as_str())
    } else {
        derived_static_template(input.name.as_str(), input.f.as_str())
    }
}

/// Expands a native method whose signature is derived from its types: one call. How a
/// name with characters to escape is written is the compiler's affair.
pub fn expand_derived(input: &Input, is_inst: bool) -> (text: String)
    ensures
        exists|texts: Seq<Seq<char>>|
            #[trigger] is_writing(text@, derived_expansion(input@, is_inst), texts),
{
    derived_template(input, is_inst).written()
}

/// Lays out what an asynchronous native method expands to: one call.
pub fn async_template(input: &AsyncInput) -> (t: Template)
    ensures
        t@ == derived_async(input.name@, input.f@),
{
    derived_async_template(input.name.as_str(), input.f.as_str())
}

/// Expands an asynchronous native method: one call. How a name with characters to
/// escape is written is the compiler's affair.
pub fn expand_async_derived(input: &AsyncInput) -> (text: String)
    ensures
        exists|texts: Seq<Seq<char>>|
            #[trigger] is_writing(text@, derived_async(input.name@, input.f@), texts),
{
    async_template(input).written()
}

/// The expansion of a native method, with an explicit signature or a derived one.
pub open spec fn native_expansion(input: InputModel, is_inst: bool) -> Result<
    Seq<PartModel>,
    Fault,
> {
    if input.sig is Some {
        explicit_expansion(input, is_inst)
    } else {
        Ok(derived_expansion(input, is_inst))
    }
}

/// Lays out what a native method expands to.
pub fn native_template(input: &Input, is_inst: bool) -> (r: Result<Template, MacroError>)
    ensures
        lays_out(r, native_expansion(input@, is_inst)),
{
    if input.sig.is_some() {
        explicit_template(input, is_inst)
    } else {
        Ok(derived_template(input, is_inst))
    }
}

/// What a `native!` (or `native_inst!`) invocation expands to, where each piece of its
/// source text is what `known` says.
pub open spec fn native_result(
    known: ReaderModel,
    ts: Seq<TokenModel>,
    is_inst: bool,
) -> Result<Seq<PartModel>, Fault> {
    match input_of(known, ts) {
        Err(e) => Err(e),
        Ok(input) => native_expansion(input, is_inst),
    }
}

fn expand_native(tokens: &Vec<Token>, is_inst: bool) -> (r: Result<String, MacroError>)
    ensures
        exists|pieces: Seq<PieceModel>| #[trigger]
            are_answers(pieces, lexed(tokens@)) && knows_invocation(
                ReaderModel { pieces },
                lexed(tokens@),
                input_of(ReaderModel { pieces }, lexed(tokens@)) is Err,
            ) && expands(r, native_result(ReaderModel { pieces }, lexed(tokens@), is_inst)),
{
    let ghost ts = lexed(tokens@);
    let parsed = Input::parse(tokens);
    let ghost pieces = choose|pieces: Seq<PieceModel>| #[trigger]
        are_answers(pieces, ts) && knows_invocation(ReaderModel { pieces }, ts, parsed is Err)
            && read_as(parsed, input_of(ReaderModel { pieces }, ts));
    let template = match parsed {
        Err(e) => Err(e),
        Ok(input) => native_template(&input, is_inst),
    };
    assert(lays_out(template, native_result(ReaderModel { pieces }, ts, is_inst)));
    let r = render(template);
    assert(are_answers(pieces, ts) && knows_invocation(
        ReaderModel { pieces },
        ts,
        input_of(ReaderModel { pieces }, ts) is Err,
    ) && expands(r, native_result(ReaderModel { pieces }, ts, is_inst)));
    r
}

/// The `native!` macro: registers a Rust function as a Java static `native` method. What
/// the pieces of its source text are, `syn` says, of plain ones what anyone would say.
pub fn native(tokens: &Vec<Token>) -> (r: Result<String, MacroError>)
    ensures
        exists|pieces: Seq<PieceModel>| #[trigger]
            are_answers(pieces, lexed(tokens@)) && knows_invocation(
                ReaderModel { pieces },
                lexed(tokens@),
                input_of(ReaderModel { pieces }, lexed(tokens@)) is Err,
            ) && expands(r, native_result(ReaderModel { pieces }, lexed(tokens@), false)),
{
    expand_native(tokens, false)
}

/// The `native_inst!` macro: registers a Rust function as a Java instance `native`
/// method. What the pieces of its source text are, `syn` says, of plain ones what anyone
/// would say.
pub fn native_inst(tokens: &Vec<Token>) -> (r: Result<String, MacroError>)
    ensures
        exists|pieces: Seq<PieceModel>| #[trigger]
            are_answers(pieces, lexed(tokens@)) && knows_invocation(
                ReaderModel { pieces },
                lexed(tokens@),
                input_of(ReaderModel { pieces }, lexed(tokens@)) is Err,
            ) && expands(r, native_result(ReaderModel { pieces }, lexed(tokens@), true)),
{
    expand_native(tokens, true)
}

/// What an `async_native!` invocation expands to, where each piece of its source text is
/// what `known` says.
pub open spec fn async_result(known: ReaderModel, ts: Seq<TokenModel>) -> Result<
    Seq<PartModel>,
    Fault,
> {
    match async_input_of(known, ts) {
        Err(e) => Err(e),
        Ok(input) => Ok(derived_async(input.name, input.f)),
    }
}

/// The `async_native!` macro: registers a Rust async function as a Java static
/// `native` method. What the pieces of its source text are, `syn` says, of plain ones what
/// anyone would say.
pub fn async_native(tokens: &Vec<Token>) -> (r: Result<String, MacroError>)
    ensures
        exists|pieces: Seq<PieceModel>| #[trigger]
            are_answers(pieces, lexed(tokens@)) && knows_invocation(
                ReaderModel { pieces },
                lexed(tokens@),
                async_input_of(ReaderModel { pieces }, lexed(tokens@)) is Err,
            ) && expands(r, async_result(ReaderModel { pieces }, lexed(tokens@))),
{
    let ghost ts = lexed(tokens@);
    let parsed = AsyncInput::parse(tokens);
    let ghost pieces = choose|pieces: Seq<PieceModel>| #[trigger]
        are_answers(pieces, ts) && knows_invocation(ReaderModel { pieces }, ts, parsed is Err)
            && read_as_async(parsed, async_input_of(ReaderModel { pieces }, ts));
    let template = match parsed {
        Err(e) => Err(e),
        Ok(input) => Ok(async_template(&input)),
    };
    assert(lays_out(template, async_result(ReaderModel { pieces }, ts)));
    let r = render(template);
    assert(are_answers(pieces, ts) && knows_invocation(
        ReaderModel { pieces },
        ts,
        async_input_of(ReaderModel { pieces }, ts) is Err,
    ) && expands(r, async_result(ReaderModel { pieces }, ts)));
    r
}

/// What a `bind!` invocation expands to, where each piece of its source text is what
/// `known` says.
pub open spec fn bind_result(known: ReaderModel, ts: Seq<TokenModel>) -> Result<
    Seq<PartModel>,
    Fault,
> {
    match bind_of(known, ts) {
        Err(e) => Err(e),
        Ok(input) => bind_expansion(input),
    }
}

/// The `bind!` macro: declares a compile-time-typed binding for a Java class. What the
/// pieces of its source text are, `syn` says, of plain ones what anyone would say.
pub fn bind(tokens: &Vec<Token>) -> (r: Result<String, MacroError>)
    ensures
        exists|pieces: Seq<PieceModel>| #[trigger]
            are_answers(pieces, lexed(tokens@)) && knows_declaration(
                ReaderModel { pieces },
                lexed(tokens@),
            ) && expands(r, bind_result(ReaderModel { pieces }, lexed(tokens@))),
{
    let ghost ts = lexed(tokens@);
    let parsed = BindInput::parse(tokens);
    let ghost pieces = choose|pieces: Seq<PieceModel>| #[trigger]
        are_answers(pieces, ts) && knows_declaration(ReaderModel { pieces }, ts)
            && read_as_declaration(parsed, bind_of(ReaderModel { pieces }, ts));
    let template = match parsed {
        Err(e) => Err(e),
        Ok(input) => bind_template(&input),
    };
    assert(lays_out(template, bind_result(ReaderModel { pieces }, ts)));
    let r = render(template);
    assert(are_answers(pieces, ts) && knows_declaration(ReaderModel { pieces }, ts) && expands(
        r,
        bind_result(ReaderModel { pieces }, ts),
    ));
    r
}

/// What an `interface!` invocation expands to, where each piece of its source text is what
/// `known` says.
pub open spec fn interface_result(known: ReaderModel, ts: Seq<TokenModel>) -> Result<
    Seq<PartModel>,
    Fault,
> {
    match bind_of(known, ts) {
        Err(e) => Err(e),
        Ok(input) => match interface_of(input) {
            Err(e) => Err(e),
            Ok(i) => interface_expansion(i),
        },
    }
}

/// The `interface!` macro: declares a Java interface for implementation in Rust. What the
/// pieces of its source text are, `syn` says, of plain ones what anyone would say.
pub fn interface(tokens: &Vec<Token>) -> (r: Result<String, MacroError>)
    ensures
        exists|pieces: Seq<PieceModel>| #[trigger]
            are_answers(pieces, lexed(tokens@)) && knows_declaration(
                ReaderModel { pieces },
                lexed(tokens@),
            ) && expands(r, interface_result(ReaderModel { pieces }, lexed(tokens@))),
{
    let ghost ts = lexed(tokens@);
    let parsed = BindInput::parse(tokens);
    let ghost pieces = choose|pieces: Seq<PieceModel>| #[trigger]
        are_answers(pieces, ts) && knows_declaration(ReaderModel { pieces }, ts)
            && read_as_declaration(parsed, bind_of(ReaderModel { pieces }, ts));
    let template = match parsed {
        Err(e) => Err(e),
        Ok(input) => match InterfaceInput::from_bind(input) {
            Err(e) => Err(e),
            Ok(i) => interface_template(&i),
        },
    };
    assert(lays_out(template, interface_result(ReaderModel { pieces }, ts)));
    let r = render(template);
    assert(are_answers(pieces, ts) && knows_declaration(ReaderModel { pieces }, ts) && expands(
        r,
        interface_result(ReaderModel { pieces }, ts),
    ));
    r
}

}
