use vstd::prelude::*;

use crate::grammar::{
    BindField, BindInput, BindMethod, Fault, FieldModel, MacroError, MethodModel, Param, ParamModel,
    TypeUse, TypeUseModel, BindModel, field_models, method_models, param_models,
};
use crate::mapping::{
    field_fault, frag, fragment, map_type, mapped, mapped_is_well_formed, param_fault, return_fault,
    validate_field, validate_param, validate_return, well_formed, Mapped,
};
use crate::template::{code, expands, lays_out, literal, render, PartModel, Template};
use crate::text::{
    begins_with, camel, camel_case, contains_char, lower, lowercase, replace_char, replaced, same,
    starts_with,
};

verus! {

/// The complaint about a second method of one name in `bind!`.
pub open spec fn duplicate_method(name: Seq<char>) -> Seq<char> {
    "duplicate method `"@
        + name
        + "` in bind! — Rust does not support overloading, so a Java overload can be bound only once; keep the other overloads on the dynamic `call` / `call_static` path"@
}

fn duplicate_method_text(name: &str) -> (s: String)
    ensures
        s@ == duplicate_method(name@),
{
    let mut s = "duplicate method `".to_owned();
    s.push_str(name);
    s.push_str("` in bind! — Rust does not support overloading, so a Java overload can be bound only once; keep the other overloads on the dynamic `call` / `call_static` path");
    s
}

/// The complaint about a second method for one Java name in `bind!`.
pub open spec fn duplicate_java_name(name: Seq<char>) -> Seq<char> {
    "duplicate Java method name `"@
        + name
        + "` in bind! after `[java_name = \"…\"]` — every bound method must target a distinct Java method"@
}

fn duplicate_java_name_text(name: &str) -> (s: String)
    ensures
        s@ == duplicate_java_name(name@),
{
    let mut s = "duplicate Java method name `".to_owned();
    s.push_str(name);
    s.push_str("` in bind! after `[java_name = \"…\"]` — every bound method must target a distinct Java method");
    s
}

/// The documentation of a bound class.
pub open spec fn class_doc(class: Seq<char>, slash: Seq<char>) -> Seq<char> {
    "A compile-time-typed binding for the Java class `"@
        + class
        + "` (`"@
        + slash
        + "`)."@
}

fn class_doc_text(class: &str, slash: &str) -> (s: String)
    ensures
        s@ == class_doc(class@, slash@),
{
    let mut s = "A compile-time-typed binding for the Java class `".to_owned();
    s.push_str(class);
    s.push_str("` (`");
    s.push_str(slash);
    s.push_str("`).");
    s
}

/// The documentation of a bound method.
pub open spec fn plain_doc(place: Seq<char>, name: Seq<char>, sig: Seq<char>) -> Seq<char> {
    "Calls the Java "@
        + place
        + " method `"@
        + name
        + "` with JNI signature `"@
        + sig
        + "`."@
}

fn plain_doc_text(place: &str, name: &str, sig: &str) -> (s: String)
    ensures
        s@ == plain_doc(place@, name@, sig@),
{
    let mut s = "Calls the Java ".to_owned();
    s.push_str(place);
    s.push_str(" method `");
    s.push_str(name);
    s.push_str("` with JNI signature `");
    s.push_str(sig);
    s.push_str("`.");
    s
}

/// The documentation of a bound method that has a Java name of its own.
pub open spec fn alias_doc(
    place: Seq<char>,
    java_name: Seq<char>,
    name: Seq<char>,
    sig: Seq<char>,
) -> Seq<char> {
    "Calls the Java "@
        + place
        + " method `"@
        + java_name
        + "` (bound as `"@
        + name
        + "` via `[java_name = \""@
        + java_name
        + "\"]`) with JNI signature `"@
        + sig
        + "`."@
}

fn alias_doc_text(place: &str, java_name: &str, name: &str, sig: &str) -> (s: String)
    ensures
        s@ == alias_doc(place@, java_name@, name@, sig@),
{
    let mut s = "Calls the Java ".to_owned();
    s.push_str(place);
    s.push_str(" method `");
    s.push_str(java_name);
    s.push_str("` (bound as `");
    s.push_str(name);
    s.push_str("` via `[java_name = \"");
    s.push_str(java_name);
    s.push_str("\"]`) with JNI signature `");
    s.push_str(sig);
    s.push_str("`.");
    s
}

/// A bound static method.
pub open spec fn static_item(
    doc: Seq<char>,
    name: Seq<char>,
    decls: Seq<char>,
    ret: Seq<char>,
    call: Seq<char>,
    java_name: Seq<char>,
    sig: Seq<char>,
    args: Seq<char>,
) -> Seq<PartModel> {
    seq![
        code("# [ doc = "@),
        literal(doc),
        code(" ] pub fn "@),
        code(name),
        code(" ( java : & :: rjava :: Java , "@),
        code(decls),
        code(" ) -> :: rjava :: JavaResult < "@),
        code(ret),
        code(" > { "@),
        code(call),
        code(" ( java , "@),
        literal(java_name),
        code(" , :: rjava :: jni :: jni_sig ! ( jni = :: rjava :: jni , sig = "@),
        literal(sig),
        code(" ) , "@),
        code(args),
        code(" ) } "@),
    ]
}

fn static_item_template(
    doc: &str,
    name: &str,
    decls: &str,
    ret: &str,
    call: &str,
    java_name: &str,
    sig: &str,
    args: &str,
) -> (t: Template)
    ensures
        t@ == static_item(doc@, name@, decls@, ret@, call@, java_name@, sig@, args@),
{
    let mut t = Template::new();
    t.code("# [ doc = ");
    t.literal(doc);
    t.code(" ] pub fn ");
    t.code(name);
    t.code(" ( java : & :: rjava :: Java , ");
    t.code(decls);
    t.code(" ) -> :: rjava :: JavaResult < ");
    t.code(ret);
    t.code(" > { ");
    t.code(call);
    t.code(" ( java , ");
    t.literal(java_name);
    t.code(" , :: rjava :: jni :: jni_sig ! ( jni = :: rjava :: jni , sig = ");
    t.literal(sig);
    t.code(" ) , ");
    t.code(args);
    t.code(" ) } ");
    t
}

/// A bound instance method.
pub open spec fn instance_item(
    doc: Seq<char>,
    name: Seq<char>,
    decls: Seq<char>,
    ret: Seq<char>,
    call: Seq<char>,
    java_name: Seq<char>,
    sig: Seq<char>,
    args: Seq<char>,
) -> Seq<PartModel> {
    seq![
        code("# [ doc = "@),
        literal(doc),
        code(" ] pub fn "@),
        code(name),
        code(" ( & self , "@),
        code(decls),
        code(" ) -> :: rjava :: JavaResult < "@),
        code(ret),
        code(" > { "@),
        code(call),
        code(" ( & self . java , & self . obj , "@),
        literal(java_name),
        code(" , :: rjava :: jni :: jni_sig ! ( jni = :: rjava :: jni , sig = "@),
        literal(sig),
        code(" ) , "@),
        code(args),
        code(" ) } "@),
    ]
}

fn instance_item_template(
    doc: &str,
    name: &str,
    decls: &str,
    ret: &str,
    call: &str,
    java_name: &str,
    sig: &str,
    args: &str,
) -> (t: Template)
    ensures
        t@ == instance_item(doc@, name@, decls@, ret@, call@, java_name@, sig@, args@),
{
    let mut t = Template::new();
    t.code("# [ doc = ");
    t.literal(doc);
    t.code(" ] pub fn ");
    t.code(name);
    t.code(" ( & self , ");
    t.code(decls);
    t.code(" ) -> :: rjava :: JavaResult < ");
    t.code(ret);
    t.code(" > { ");
    t.code(call);
    t.code(" ( & self . java , & self . obj , ");
    t.literal(java_name);
    t.code(" , :: rjava :: jni :: jni_sig ! ( jni = :: rjava :: jni , sig = ");
    t.literal(sig);
    t.code(" ) , ");
    t.code(args);
    t.code(" ) } ");
    t
}

/// The call behind a bound method that returns `Self`.
pub open spec fn self_call(place: Seq<char>, tuple: Seq<char>) -> Seq<char> {
    ":: rjava :: bind :: "@
        + place
        + "_self :: < Self , "@
        + tuple
        + " >"@
}

fn self_call_text(place: &str, tuple: &str) -> (s: String)
    ensures
        s@ == self_call(place@, tuple@),
{
    let mut s = ":: rjava :: bind :: ".to_owned();
    s.push_str(place);
    s.push_str("_self :: < Self , ");
    s.push_str(tuple);
    s.push_str(" >");
    s
}

/// The call behind a bound method that returns a value.
pub open spec fn value_call(place: Seq<char>, ret: Seq<char>, tuple: Seq<char>) -> Seq<char> {
    ":: rjava :: bind :: "@
        + place
        + "_method :: < Self , "@
        + ret
        + " , "@
        + tuple
        + " >"@
}

fn value_call_text(place: &str, ret: &str, tuple: &str) -> (s: String)
    ensures
        s@ == value_call(place@, ret@, tuple@),
{
    let mut s = ":: rjava :: bind :: ".to_owned();
    s.push_str(place);
    s.push_str("_method :: < Self , ");
    s.push_str(ret);
    s.push_str(" , ");
    s.push_str(tuple);
    s.push_str(" >");
    s
}

/// The documentation of a field getter.
pub open spec fn read_doc(place: Seq<char>, name: Seq<char>, frag: Seq<char>) -> Seq<char> {
    "Reads the Java "@
        + place
        + " field `"@
        + name
        + "` (JNI type `"@
        + frag
        + "`)."@
}

fn read_doc_text(place: &str, name: &str, frag: &str) -> (s: String)
    ensures
        s@ == read_doc(place@, name@, frag@),
{
    let mut s = "Reads the Java ".to_owned();
    s.push_str(place);
    s.push_str(" field `");
    s.push_str(name);
    s.push_str("` (JNI type `");
    s.push_str(frag);
    s.push_str("`).");
    s
}

/// The documentation of a field setter.
pub open spec fn write_doc(place: Seq<char>, name: Seq<char>, frag: Seq<char>) -> Seq<char> {
    "Writes the Java "@
        + place
        + " field `"@
        + name
        + "` (JNI type `"@
        + frag
        + "`)."@
}

fn write_doc_text(place: &str, name: &str, frag: &str) -> (s: String)
    ensures
        s@ == write_doc(place@, name@, frag@),
{
    let mut s = "Writes the Java ".to_owned();
    s.push_str(place);
    s.push_str(" field `");
    s.push_str(name);
    s.push_str("` (JNI type `");
    s.push_str(frag);
    s.push_str("`).");
    s
}

/// The documentation of the getter of a `bool` field.
pub open spec fn bool_read_doc(name: Seq<char>, camel: Seq<char>) -> Seq<char> {
    "Reads the Java instance field `"@
        + name
        + "` — or, when the field does not exist, the bean-style accessor methods `get"@
        + camel
        + "` / `is"@
        + camel
        + "` (mirroring the bean read path)."@
}

fn bool_read_doc_text(name: &str, camel: &str) -> (s: String)
    ensures
        s@ == bool_read_doc(name@, camel@),
{
    let mut s = "Reads the Java instance field `".to_owned();
    s.push_str(name);
    s.push_str("` — or, when the field does not exist, the bean-style accessor methods `get");
    s.push_str(camel);
    s.push_str("` / `is");
    s.push_str(camel);
    s.push_str("` (mirroring the bean read path).");
    s
}

/// The accessors of a static field.
pub open spec fn static_accessors(
    get_doc: Seq<char>,
    base: Seq<char>,
    ty: Seq<char>,
    field: Seq<char>,
    set_doc: Seq<char>,
) -> Seq<PartModel> {
    seq![
        code("# [ doc = "@),
        literal(get_doc),
        code(" ] pub fn get_static_"@),
        code(base),
        code(" ( java : & :: rjava :: Java ) -> :: rjava :: JavaResult < "@),
        code(ty),
        code(" > { :: rjava :: bind :: static_field_get :: < Self , "@),
        code(ty),
        code(" > ( java , "@),
        literal(field),
        code(" ) } # [ doc = "@),
        literal(set_doc),
        code(" ] pub fn set_static_"@),
        code(base),
        code(" ( java : & :: rjava :: Java , v : "@),
        code(ty),
        code(" ) -> :: rjava :: JavaResult < ( ) > { :: rjava :: bind :: static_field_set :: < Self , "@),
        code(ty),
        code(" > ( java , "@),
        literal(field),
        code(" , v ) } "@),
    ]
}

fn static_accessors_template(
    get_doc: &str,
    base: &str,
    ty: &str,
    field: &str,
    set_doc: &str,
) -> (t: Template)
    ensures
        t@ == static_accessors(get_doc@, base@, ty@, field@, set_doc@),
{
    let mut t = Template::new();
    t.code("# [ doc = ");
    t.literal(get_doc);
    t.code(" ] pub fn get_static_");
    t.code(base);
    t.code(" ( java : & :: rjava :: Java ) -> :: rjava :: JavaResult < ");
    t.code(ty);
    t.code(" > { :: rjava :: bind :: static_field_get :: < Self , ");
    t.code(ty);
    t.code(" > ( java , ");
    t.literal(field);
    t.code(" ) } # [ doc = ");
    t.literal(set_doc);
    t.code(" ] pub fn set_static_");
    t.code(base);
    t.code(" ( java : & :: rjava :: Java , v : ");
    t.code(ty);
    t.code(" ) -> :: rjava :: JavaResult < ( ) > { :: rjava :: bind :: static_field_set :: < Self , ");
    t.code(ty);
    t.code(" > ( java , ");
    t.literal(field);
    t.code(" , v ) } ");
    t
}

/// The accessors of a `bool` instance field.
pub open spec fn bool_accessors(
    get_doc: Seq<char>,
    base: Seq<char>,
    field: Seq<char>,
    set_doc: Seq<char>,
) -> Seq<PartModel> {
    seq![
        code("# [ doc = "@),
        literal(get_doc),
        code(" ] pub fn get_"@),
        code(base),
        code(" ( & self ) -> :: rjava :: JavaResult < bool > { :: rjava :: bind :: instance_bool_field_get :: < Self > ( & self . java , & self . obj , "@),
        literal(field),
        code(" ) } # [ doc = "@),
        literal(set_doc),
        code(" ] pub fn set_"@),
        code(base),
        code(" ( & self , v : bool ) -> :: rjava :: JavaResult < ( ) > { :: rjava :: bind :: instance_field_set :: < Self , bool > ( & self . java , & self . obj , "@),
        literal(field),
        code(" , v ) } "@),
    ]
}

fn bool_accessors_template(get_doc: &str, base: &str, field: &str, set_doc: &str) -> (t: Template)
    ensures
        t@ == bool_accessors(get_doc@, base@, field@, set_doc@),
{
    let mut t = Template::new();
    t.code("# [ doc = ");
    t.literal(get_doc);
    t.code(" ] pub fn get_");
    t.code(base);
    t.code(" ( & self ) -> :: rjava :: JavaResult < bool > { :: rjava :: bind :: instance_bool_field_get :: < Self > ( & self . java , & self . obj , ");
    t.literal(field);
    t.code(" ) } # [ doc = ");
    t.literal(set_doc);
    t.code(" ] pub fn set_");
    t.code(base);
    t.code(" ( & self , v : bool ) -> :: rjava :: JavaResult < ( ) > { :: rjava :: bind :: instance_field_set :: < Self , bool > ( & self . java , & self . obj , ");
    t.literal(field);
    t.code(" , v ) } ");
    t
}

/// The accessors of any other instance field.
pub open spec fn instance_accessors(
    get_doc: Seq<char>,
    base: Seq<char>,
    ty: Seq<char>,
    field: Seq<char>,
    set_doc: Seq<char>,
) -> Seq<PartModel> {
    seq![
        code("# [ doc = "@),
        literal(get_doc),
        code(" ] pub fn get_"@),
        code(base),
        code(" ( & self ) -> :: rjava :: JavaResult < "@),
        code(ty),
        code(" > { :: rjava :: bind :: instance_field_get :: < Self , "@),
        code(ty),
        code(" > ( & self . java , & self . obj , "@),
        literal(field),
        code(" ) } # [ doc = "@),
        literal(set_doc),
        code(" ] pub fn set_"@),
        code(base),
        code(" ( & self , v : "@),
        code(ty),
        code(" ) -> :: rjava :: JavaResult < ( ) > { :: rjava :: bind :: instance_field_set :: < Self , "@),
        code(ty),
        code(" > ( & self . java , & self . obj , "@),
        literal(field),
        code(" , v ) } "@),
    ]
}

fn instance_accessors_template(
    get_doc: &str,
    base: &str,
    ty: &str,
    field: &str,
    set_doc: &str,
) -> (t: Template)
    ensures
        t@ == instance_accessors(get_doc@, base@, ty@, field@, set_doc@),
{
    let mut t = Template::new();
    t.code("# [ doc = ");
    t.literal(get_doc);
    t.code(" ] pub fn get_");
    t.code(base);
    t.code(" ( & self ) -> :: rjava :: JavaResult < ");
    t.code(ty);
    t.code(" > { :: rjava :: bind :: instance_field_get :: < Self , ");
    t.code(ty);
    t.code(" > ( & self . java , & self . obj , ");
    t.literal(field);
    t.code(" ) } # [ doc = ");
    t.literal(set_doc);
    t.code(" ] pub fn set_");
    t.code(base);
    t.code(" ( & self , v : ");
    t.code(ty);
    t.code(" ) -> :: rjava :: JavaResult < ( ) > { :: rjava :: bind :: instance_field_set :: < Self , ");
    t.code(ty);
    t.code(" > ( & self . java , & self . obj , ");
    t.literal(field);
    t.code(" , v ) } ");
    t
}

/// The wrapper of a bound class: the struct, its methods, and its class cache.
pub open spec fn bound_class(
    doc: Seq<char>,
    wrapper: Seq<char>,
    items: Seq<PartModel>,
    slash: Seq<char>,
) -> Seq<PartModel> {
    seq![
        code("# [ allow ( non_camel_case_types ) ] # [ doc = "@),
        literal(doc),
        code(" ] pub struct "@),
        code(wrapper),
        code(" { java : :: rjava :: Java , obj : :: rjava :: JObject , } # [ allow ( non_snake_case ) ] impl "@),
        code(wrapper),
        code(" { "@),
    ] + items + seq![
        code(" } impl :: rjava :: bind :: JavaBound for "@),
        code(wrapper),
        code(" { fn class_name ( ) -> & 'static str { "@),
        literal(slash),
        code(" } fn class ( env : & mut :: rjava :: jni :: Env < '_ > , ) -> :: rjava :: JavaResult < & 'static :: rjava :: jni :: objects :: Global < :: rjava :: jni :: objects :: JClass < 'static > > , > { static CLASS : :: std :: sync :: OnceLock < :: rjava :: jni :: objects :: Global < :: rjava :: jni :: objects :: JClass < 'static > > , > = :: std :: sync :: OnceLock :: new ( ) ; if let Some ( class ) = CLASS . get ( ) { return Ok ( class ) ; } let class = :: rjava :: bind :: find_class_global ( env , Self :: class_name ( ) ) ? ; Ok ( CLASS . get_or_init ( || class ) ) } fn wrap ( java : :: rjava :: Java , obj : :: rjava :: JObject ) -> Self { "@),
        code(wrapper),
        code(" { java , obj } } fn obj ( & self ) -> & :: rjava :: JObject { & self . obj } fn into_obj ( self ) -> :: rjava :: JObject { self . obj } }"@),
    ]
}

fn bound_class_template(doc: &str, wrapper: &str, items: Template, slash: &str) -> (t: Template)
    ensures
        t@ == bound_class(doc@, wrapper@, items@, slash@),
{
    let mut t = Template::new();
    t.code("# [ allow ( non_camel_case_types ) ] # [ doc = ");
    t.literal(doc);
    t.code(" ] pub struct ");
    t.code(wrapper);
    t.code(" { java : :: rjava :: Java , obj : :: rjava :: JObject , } # [ allow ( non_snake_case ) ] impl ");
    t.code(wrapper);
    t.code(" { ");
    t.append(items);
    t.code(" } impl :: rjava :: bind :: JavaBound for ");
    t.code(wrapper);
    t.code(" { fn class_name ( ) -> & 'static str { ");
    t.literal(slash);
    t.code(" } fn class ( env : & mut :: rjava :: jni :: Env < '_ > , ) -> :: rjava :: JavaResult < & 'static :: rjava :: jni :: objects :: Global < :: rjava :: jni :: objects :: JClass < 'static > > , > { static CLASS : :: std :: sync :: OnceLock < :: rjava :: jni :: objects :: Global < :: rjava :: jni :: objects :: JClass < 'static > > , > = :: std :: sync :: OnceLock :: new ( ) ; if let Some ( class ) = CLASS . get ( ) { return Ok ( class ) ; } let class = :: rjava :: bind :: find_class_global ( env , Self :: class_name ( ) ) ? ; Ok ( CLASS . get_or_init ( || class ) ) } fn wrap ( java : :: rjava :: Java , obj : :: rjava :: JObject ) -> Self { ");
    t.code(wrapper);
    t.code(" { java , obj } } fn obj ( & self ) -> & :: rjava :: JObject { & self . obj } fn into_obj ( self ) -> :: rjava :: JObject { self . obj } }");
    assert(t@ =~= bound_class(doc@, wrapper@, items@, slash@));
    t
}

/// A type's mapping.
pub open spec fn mapped_use(t: TypeUseModel) -> Result<Mapped, Seq<char>> {
    mapped(t.outline)
}

pub(crate) fn map_use(t: &TypeUse) -> (r: Result<Mapped, String>)
    ensures
        match r {
            Ok(m) => mapped_use(t@) == Ok::<Mapped, Seq<char>>(m) && well_formed(m),
            Err(e) => mapped_use(t@) == Err::<Mapped, Seq<char>>(e@),
        },
{
    match map_type(&t.outline) {
        Ok(m) => {
            proof {
                mapped_is_well_formed(t.outline@);
            }
            Ok(m)
        },
        Err(e) => Err(e),
    }
}

/// The class name with slashes: a name that has a slash is kept as it is.
pub open spec fn slash_form(class: Seq<char>) -> Seq<char> {
    if class.contains('/') {
        class
    } else {
        replaced(class, '.', '/')
    }
}

fn to_slash_form(class: &str) -> (s: String)
    ensures
        s@ == slash_form(class@),
{
    if contains_char(class, '/') {
        class.to_owned()
    } else {
        replace_char(class, '.', '/')
    }
}

/// The Java-side name of a method.
pub open spec fn java_name_of(m: MethodModel) -> Seq<char> {
    match m.java_name {
        Some((s, _)) => s,
        None => m.name,
    }
}

/// The token that gives a method its Java-side name.
pub open spec fn java_name_at(m: MethodModel) -> int {
    match m.java_name {
        Some((_, at)) => at,
        None => m.name_at,
    }
}

pub(crate) fn java_name(m: &BindMethod) -> (s: &str)
    ensures
        s@ == java_name_of(m@),
{
    match &m.java_name {
        Some(pair) => pair.0.as_str(),
        None => m.name.as_str(),
    }
}

fn java_name_token(m: &BindMethod) -> (at: usize)
    ensures
        at == java_name_at(m@),
{
    match &m.java_name {
        Some(pair) => pair.1,
        None => m.name_at,
    }
}

/// The complaint about one of the first `k` parameters of a bound method: a type that
/// does not map, or one that is not valid as a parameter.
pub open spec fn bind_params_fault(params: Seq<ParamModel>, k: int) -> Option<Fault>
    decreases k,
{
    if k <= 0 {
        None
    } else {
        match bind_params_fault(params, k - 1) {
            Some(e) => Some(e),
            None => {
                let ty = params[k - 1].ty;
                match mapped_use(ty) {
                    Err(m) => Some(Fault { at: ty.from, message: m }),
                    Ok(m) => match param_fault(m) {
                        Some(message) => Some(Fault { at: ty.from, message }),
                        None => None,
                    },
                }
            },
        }
    }
}

/// The fragments of the first `k` parameters, one after the other.
pub open spec fn param_fragments(params: Seq<ParamModel>, k: int, slash: Seq<char>) -> Seq<char>
    decreases k,
{
    if k <= 0 {
        Seq::empty()
    } else {
        param_fragments(params, k - 1, slash) + fragment(
            mapped_use(params[k - 1].ty)->Ok_0,
            slash,
        )
    }
}

/// `name: Type` for each of the first `k` parameters, separated by commas.
pub open spec fn param_decls(params: Seq<ParamModel>, k: int) -> Seq<char>
    decreases k,
{
    if k <= 0 {
        Seq::empty()
    } else {
        param_decls(params, k - 1) + (if k > 1 {
            ", "@
        } else {
            Seq::empty()
        }) + params[k - 1].name + ": "@ + params[k - 1].ty.text
    }
}

/// The types of the first `k` parameters, each with a comma behind it.
pub open spec fn param_types(params: Seq<ParamModel>, k: int) -> Seq<char>
    decreases k,
{
    if k <= 0 {
        "("@
    } else {
        param_types(params, k - 1) + params[k - 1].ty.text + ", "@
    }
}

/// The names of the first `k` parameters, each with a comma behind it.
pub open spec fn param_names(params: Seq<ParamModel>, k: int) -> Seq<char>
    decreases k,
{
    if k <= 0 {
        "("@
    } else {
        param_names(params, k - 1) + params[k - 1].name + ", "@
    }
}

/// The descriptor of a bound method: its parameters' fragments in parentheses and the
/// fragment of its return type.
pub open spec fn bind_sig(m: MethodModel, slash: Seq<char>) -> Seq<char> {
    "("@ + param_fragments(m.params, m.params.len() as int, slash) + ")"@ + fragment(
        mapped_use(m.ret->0)->Ok_0,
        slash,
    )
}

/// Where a method or field belongs.
pub open spec fn place_of(is_static: bool) -> Seq<char> {
    if is_static {
        "static"@
    } else {
        "instance"@
    }
}

/// The documentation of a bound method.
pub open spec fn method_doc(m: MethodModel, slash: Seq<char>) -> Seq<char> {
    if java_name_of(m) == m.name {
        plain_doc(place_of(m.is_static), m.name, bind_sig(m, slash))
    } else {
        alias_doc(place_of(m.is_static), java_name_of(m), m.name, bind_sig(m, slash))
    }
}

/// The call behind a bound method.
pub open spec fn method_call(m: MethodModel) -> Seq<char> {
    let tuple = param_types(m.params, m.params.len() as int) + ")"@;
    if mapped_use(m.ret->0)->Ok_0 is SelfRef {
        self_call(place_of(m.is_static), tuple)
    } else {
        value_call(place_of(m.is_static), m.ret->0.text, tuple)
    }
}

/// The item of a bound method.
pub open spec fn method_item(m: MethodModel, slash: Seq<char>) -> Seq<PartModel> {
    let n = m.params.len() as int;
    if m.is_static {
        static_item(
            method_doc(m, slash),
            m.name,
            param_decls(m.params, n),
            m.ret->0.text,
            method_call(m),
            java_name_of(m),
            bind_sig(m, slash),
            param_names(m.params, n) + ")"@,
        )
    } else {
        instance_item(
            method_doc(m, slash),
            m.name,
            param_decls(m.params, n),
            m.ret->0.text,
            method_call(m),
            java_name_of(m),
            bind_sig(m, slash),
            param_names(m.params, n) + ")"@,
        )
    }
}

/// The complaint about the method at `i` of a `bind!` declaration, if there is one:
/// names must be distinct on both sides, and every type must map and be valid where
/// it stands.
pub open spec fn bind_method_fault(ms: Seq<MethodModel>, i: int) -> Option<Fault> {
    let m = ms[i];
    if exists|j: int| 0 <= j < i && (#[trigger] ms[j]).name == m.name {
        Some(Fault { at: m.name_at, message: duplicate_method(m.name) })
    } else if java_name_of(m).len() == 0 {
        Some(Fault { at: m.name_at, message: "`java_name = \"…\"` must not be empty"@ })
    } else if exists|j: int| 0 <= j < i && java_name_of(#[trigger] ms[j]) == java_name_of(m) {
        Some(Fault { at: java_name_at(m), message: duplicate_java_name(java_name_of(m)) })
    } else if bind_params_fault(m.params, m.params.len() as int) is Some {
        bind_params_fault(m.params, m.params.len() as int)
    } else {
        match m.ret {
            None => Some(
                Fault {
                    at: m.name_at,
                    message: "bind! requires an explicit return type — write `fn ping() -> ();` for a void method (only interface! allows the `fn ping();` shorthand)"@,
                },
            ),
            Some(ret) => match mapped_use(ret) {
                Err(message) => Some(Fault { at: ret.from, message }),
                Ok(r) => match return_fault(r, ret.outline) {
                    Some(message) => Some(Fault { at: ret.from, message }),
                    None => None,
                },
            },
        }
    }
}

/// The items of the first `k` methods, or the first complaint about one.
pub open spec fn bind_methods(ms: Seq<MethodModel>, k: int, slash: Seq<char>) -> Result<
    Seq<PartModel>,
    Fault,
>
    decreases k,
{
    if k <= 0 {
        Ok(Seq::empty())
    } else {
        match bind_methods(ms, k - 1, slash) {
            Err(e) => Err(e),
            Ok(items) => match bind_method_fault(ms, k - 1) {
                Some(e) => Err(e),
                None => Ok(items + method_item(ms[k - 1], slash)),
            },
        }
    }
}

/// The complaint about a field declaration, if there is one.
pub open spec fn bind_field_fault(f: FieldModel) -> Option<Fault> {
    match mapped_use(f.ty) {
        Err(message) => Some(Fault { at: f.ty.from, message }),
        Ok(m) => match field_fault(m, f.ty.outline) {
            Some(message) => Some(Fault { at: f.ty.from, message }),
            None => if begins_with(f.name, "r#"@) {
                Some(
                    Fault {
                        at: f.name_at,
                        message: "a raw identifier cannot name a field in bind!"@,
                    },
                )
            } else {
                None
            },
        },
    }
}

/// The accessors of a field. The getter of a `bool` instance field falls back to accessor
/// methods; the Java field name is the declared name.
pub open spec fn field_item(f: FieldModel, slash: Seq<char>) -> Seq<PartModel> {
    let m = mapped_use(f.ty)->Ok_0;
    let place = place_of(f.is_static);
    let base = lowercase(f.name);
    let frag = fragment(m, slash);
    let set_doc = write_doc(place, f.name, frag);
    if f.is_static {
        static_accessors(
            read_doc(place, f.name, frag),
            base,
            f.ty.text,
            f.name,
            set_doc,
        )
    } else if m == Mapped::Prim('Z') {
        bool_accessors(
            bool_read_doc(f.name, camel(f.name, true)),
            base,
            f.name,
            set_doc,
        )
    } else {
        instance_accessors(
            read_doc(place, f.name, frag),
            base,
            f.ty.text,
            f.name,
            set_doc,
        )
    }
}

/// The accessors of the first `k` fields, or the first complaint.
pub open spec fn bind_fields(fs: Seq<FieldModel>, k: int, slash: Seq<char>) -> Result<
    Seq<PartModel>,
    Fault,
>
    decreases k,
{
    if k <= 0 {
        Ok(Seq::empty())
    } else {
        match bind_fields(fs, k - 1, slash) {
            Err(e) => Err(e),
            Ok(items) => match bind_field_fault(fs[k - 1]) {
                Some(e) => Err(e),
                None => Ok(items + field_item(fs[k - 1], slash)),
            },
        }
    }
}

/// The expansion of a `bind!` declaration, or the first complaint about it.
pub open spec fn bind_expansion(input: BindModel) -> Result<Seq<PartModel>, Fault> {
    if input.class.len() == 0 {
        Err(Fault { at: 0, message: "the class name must not be empty"@ })
    } else {
        let slash = slash_form(input.class);
        match bind_methods(input.methods, input.methods.len() as int, slash) {
            Err(e) => Err(e),
            Ok(methods) => match bind_fields(input.fields, input.fields.len() as int, slash) {
                Err(e) => Err(e),
                Ok(fields) => Ok(
                    bound_class(
                        class_doc(input.class, slash),
                        input.name,
                        methods + fields,
                        slash,
                    ),
                ),
            },
        }
    }
}

fn place(is_static: bool) -> (s: &'static str)
    ensures
        s@ == place_of(is_static),
{
    if is_static {
        "static"
    } else {
        "instance"
    }
}

pub(crate) fn complaint(at: usize, message: String) -> (e: MacroError)
    ensures
        e@ == (Fault { at: at as int, message: message@ }),
{
    MacroError { at, message }
}

/// The texts that come from a parameter list.
struct ParamTexts {
    frags: String,
    decls: String,
    types: String,
    names: String,
}

spec fn texts_of(t: ParamTexts, params: Seq<ParamModel>, k: int, slash: Seq<char>) -> bool {
    &&& t.frags@ == param_fragments(params, k, slash)
    &&& t.decls@ == param_decls(params, k)
    &&& t.types@ == param_types(params, k)
    &&& t.names@ == param_names(params, k)
}

fn expand_bind_params(params: &Vec<Param>, slash: &str) -> (r: Result<ParamTexts, MacroError>)
    ensures
        match r {
            Ok(t) => bind_params_fault(param_models(params@), params@.len() as int) is None
                && texts_of(t, param_models(params@), params@.len() as int, slash@),
            Err(e) => bind_params_fault(param_models(params@), params@.len() as int) == Some(e@),
        },
{
    let ghost ps = param_models(params@);
    let mut t = ParamTexts {
        frags: String::new(),
        decls: String::new(),
        types: "(".to_owned(),
        names: "(".to_owned(),
    };
    let mut k: usize = 0;
    while k < params.len()
        invariant
            k <= params@.len(),
            ps == param_models(params@),
            bind_params_fault(ps, k as int) is None,
            texts_of(t, ps, k as int, slash@),
        decreases params@.len() - k,
    {
        let p = &params[k];
        assert(ps[k as int] == p@);
        let m = match map_use(&p.ty) {
            Ok(m) => m,
            Err(message) => {
                proof {
                    bind_params_fault_stays(ps, k as int + 1, ps.len() as int);
                }
                return Err(complaint(p.ty.from, message));
            },
        };
        match validate_param(&m) {
            Ok(()) => {},
            Err(message) => {
                proof {
                    bind_params_fault_stays(ps, k as int + 1, ps.len() as int);
                }
                return Err(complaint(p.ty.from, message));
            },
        }
        t.frags.push_str(frag(&m, slash).as_str());
        if k > 0 {
            t.decls.push_str(", ");
        } else {
            assert(t.decls@ + Seq::<char>::empty() =~= t.decls@);
        }
        t.decls.push_str(p.name.as_str());
        t.decls.push_str(": ");
        t.decls.push_str(p.ty.text.as_str());
        t.types.push_str(p.ty.text.as_str());
        t.types.push_str(", ");
        t.names.push_str(p.name.as_str());
        t.names.push_str(", ");
        k += 1;
    }
    Ok(t)
}

proof fn bind_params_fault_stays(params: Seq<ParamModel>, k: int, n: int)
    requires
        0 <= k <= n,
        bind_params_fault(params, k) is Some,
    ensures
        bind_params_fault(params, n) == bind_params_fault(params, k),
    decreases n - k,
{
    if k < n {
        bind_params_fault_stays(params, k, n - 1);
    }
}

pub(crate) fn name_taken(methods: &Vec<BindMethod>, i: usize) -> (r: bool)
    requires
        i < methods@.len(),
    ensures
        r == (exists|j: int|
            0 <= j < i && (#[trigger] method_models(methods@)[j]).name == method_models(
                methods@,
            )[i as int].name),
{
    let ghost ms = method_models(methods@);
    let mut j: usize = 0;
    while j < i
        invariant
            j <= i < methods@.len(),
            ms == method_models(methods@),
            forall|k: int| 0 <= k < j ==> (#[trigger] ms[k]).name != ms[i as int].name,
        decreases i - j,
    {
        assert(ms[j as int] == methods@[j as int]@);
        if same(methods[j].name.as_str(), methods[i].name.as_str()) {
            return true;
        }
        j += 1;
    }
    false
}

fn java_name_taken(methods: &Vec<BindMethod>, i: usize) -> (r: bool)
    requires
        i < methods@.len(),
    ensures
        r == (exists|j: int|
            0 <= j < i && java_name_of(#[trigger] method_models(methods@)[j]) == java_name_of(
                method_models(methods@)[i as int],
            )),
{
    let ghost ms = method_models(methods@);
    let mut j: usize = 0;
    while j < i
        invariant
            j <= i < methods@.len(),
            ms == method_models(methods@),
            forall|k: int|
                0 <= k < j ==> java_name_of(#[trigger] ms[k]) != java_name_of(ms[i as int]),
        decreases i - j,
    {
        assert(ms[j as int] == methods@[j as int]@);
        assert(ms[i as int] == methods@[i as int]@);
        if same(java_name(&methods[j]), java_name(&methods[i])) {
            return true;
        }
        j += 1;
    }
    false
}

fn expand_bind_method(methods: &Vec<BindMethod>, i: usize, slash: &str) -> (r: Result<
    Template,
    MacroError,
>)
    requires
        i < methods@.len(),
    ensures
        match r {
            Ok(t) => bind_method_fault(method_models(methods@), i as int) is None && t@
                == method_item(method_models(methods@)[i as int], slash@),
            Err(e) => bind_method_fault(method_models(methods@), i as int) == Some(e@),
        },
{
    let m = &methods[i];
    let ghost ms = method_models(methods@);
    assert(ms[i as int] == m@);
    if name_taken(methods, i) {
        return Err(complaint(m.name_at, duplicate_method_text(m.name.as_str())));
    }
    let name = java_name(m);
    if name.is_empty() {
        return Err(
            complaint(m.name_at, "`java_name = \"…\"` must not be empty".to_owned()),
        );
    }
    if java_name_taken(methods, i) {
        return Err(complaint(java_name_token(m), duplicate_java_name_text(name)));
    }
    let t = match expand_bind_params(&m.params, slash) {
        Ok(t) => t,
        Err(e) => {
            return Err(e);
        },
    };
    let ret = match &m.ret {
        Some(ret) => ret,
        None => {
            return Err(
                complaint(
                    m.name_at,
                    "bind! requires an explicit return type — write `fn ping() -> ();` for a void method (only interface! allows the `fn ping();` shorthand)".to_owned(),
                ),
            );
        },
    };
    let ret_mapped = match map_use(ret) {
        Ok(r) => r,
        Err(message) => {
            return Err(complaint(ret.from, message));
        },
    };
    match validate_return(&ret_mapped, &ret.outline) {
        Ok(()) => {},
        Err(message) => {
            return Err(complaint(ret.from, message));
        },
    }
    let mut sig = "(".to_owned();
    sig.push_str(t.frags.as_str());
    sig.push_str(")");
    sig.push_str(frag(&ret_mapped, slash).as_str());
    let mut tuple = t.types;
    tuple.push_str(")");
    let mut args = t.names;
    args.push_str(")");
    let doc = if same(name, m.name.as_str()) {
        plain_doc_text(place(m.is_static), m.name.as_str(), sig.as_str())
    } else {
        alias_doc_text(place(m.is_static), name, m.name.as_str(), sig.as_str())
    };
    let call = match ret_mapped {
        Mapped::SelfRef => self_call_text(place(m.is_static), tuple.as_str()),
        _ => value_call_text(place(m.is_static), ret.text.as_str(), tuple.as_str()),
    };
    if m.is_static {
        Ok(
            static_item_template(
                doc.as_str(),
                m.name.as_str(),
                t.decls.as_str(),
                ret.text.as_str(),
                call.as_str(),
                name,
                sig.as_str(),
                args.as_str(),
            ),
        )
    } else {
        Ok(
            instance_item_template(
                doc.as_str(),
                m.name.as_str(),
                t.decls.as_str(),
                ret.text.as_str(),
                call.as_str(),
                name,
                sig.as_str(),
                args.as_str(),
            ),
        )
    }
}

fn expand_bind_field(f: &BindField, slash: &str) -> (r: Result<Template, MacroError>)
    ensures
        match r {
            Ok(t) => bind_field_fault(f@) is None && t@ == field_item(f@, slash@),
            Err(e) => bind_field_fault(f@) == Some(e@),
        },
{
    let m = match map_use(&f.ty) {
        Ok(m) => m,
        Err(message) => {
            return Err(complaint(f.ty.from, message));
        },
    };
    match validate_field(&m, &f.ty.outline) {
        Ok(()) => {},
        Err(message) => {
            return Err(complaint(f.ty.from, message));
        },
    }
    if starts_with(f.name.as_str(), "r#") {
        return Err(
            complaint(f.name_at, "a raw identifier cannot name a field in bind!".to_owned()),
        );
    }
    let base = lower(f.name.as_str());
    let jni_frag = frag(&m, slash);
    let field = f.name.as_str();
    let place = place(f.is_static);
    let set_doc = write_doc_text(place, field, jni_frag.as_str());
    let is_bool = match m {
        Mapped::Prim('Z') => true,
        _ => false,
    };
    if !f.is_static && is_bool {
        let camel = camel_case(f.name.as_str());
        let get_doc = bool_read_doc_text(field, camel.as_str());
        return Ok(
            bool_accessors_template(
                get_doc.as_str(),
                base.as_str(),
                field,
                set_doc.as_str(),
            ),
        );
    }
    let get_doc = read_doc_text(place, field, jni_frag.as_str());
    if f.is_static {
        Ok(
            static_accessors_template(
                get_doc.as_str(),
                base.as_str(),
                f.ty.text.as_str(),
                field,
                set_doc.as_str(),
            ),
        )
    } else {
        Ok(
            instance_accessors_template(
                get_doc.as_str(),
                base.as_str(),
                f.ty.text.as_str(),
                field,
                set_doc.as_str(),
            ),
        )
    }
}

proof fn bind_methods_fault_stays(ms: Seq<MethodModel>, k: int, n: int, slash: Seq<char>)
    requires
        0 <= k <= n,
        bind_methods(ms, k, slash) is Err,
    ensures
        bind_methods(ms, n, slash) == bind_methods(ms, k, slash),
    decreases n - k,
{
    if k < n {
        bind_methods_fault_stays(ms, k, n - 1, slash);
    }
}

proof fn bind_fields_fault_stays(fs: Seq<FieldModel>, k: int, n: int, slash: Seq<char>)
    requires
        0 <= k <= n,
        bind_fields(fs, k, slash) is Err,
    ensures
        bind_fields(fs, n, slash) == bind_fields(fs, k, slash),
    decreases n - k,
{
    if k < n {
        bind_fields_fault_stays(fs, k, n - 1, slash);
    }
}

fn expand_bind_methods(methods: &Vec<BindMethod>, slash: &str) -> (r: Result<Template, MacroError>)
    ensures
        lays_out(r, bind_methods(method_models(methods@), methods@.len() as int, slash@)),
{
    let ghost ms = method_models(methods@);
    let mut items = Template::new();
    let mut i: usize = 0;
    while i < methods.len()
        invariant
            i <= methods@.len(),
            ms == method_models(methods@),
            bind_methods(ms, i as int, slash@) == Ok::<Seq<PartModel>, Fault>(items@),
        decreases methods@.len() - i,
    {
        match expand_bind_method(methods, i, slash) {
            Ok(item) => {
                items.append(item);
            },
            Err(e) => {
                proof {
                    bind_methods_fault_stays(ms, i as int + 1, ms.len() as int, slash@);
                }
                return Err(e);
            },
        }
        i += 1;
    }
    Ok(items)
}

fn expand_bind_fields(fields: &Vec<BindField>, slash: &str) -> (r: Result<Template, MacroError>)
    ensures
        lays_out(r, bind_fields(field_models(fields@), fields@.len() as int, slash@)),
{
    let ghost fs = field_models(fields@);
    let mut items = Template::new();
    let mut i: usize = 0;
    while i < fields.len()
        invariant
            i <= fields@.len(),
            fs == field_models(fields@),
            bind_fields(fs, i as int, slash@) == Ok::<Seq<PartModel>, Fault>(items@),
        decreases fields@.len() - i,
    {
        assert(fs[i as int] == fields@[i as int]@);
        match expand_bind_field(&fields[i], slash) {
            Ok(item) => {
                items.append(item);
            },
            Err(e) => {
                proof {
                    bind_fields_fault_stays(fs, i as int + 1, fs.len() as int, slash@);
                }
                return Err(e);
            },
        }
        i += 1;
    }
    Ok(items)
}

/// Lays out what a `bind!` declaration expands to: the wrapper struct, one typed method
/// per declaration, the field accessors, and the class cache.
pub fn bind_template(input: &BindInput) -> (r: Result<Template, MacroError>)
    ensures
        lays_out(r, bind_expansion(input@)),
{
    if input.class.as_str().is_empty() {
        return Err(complaint(0, "the class name must not be empty".to_owned()));
    }
    let slash = to_slash_form(input.class.as_str());
    let mut items = match expand_bind_methods(&input.methods, slash.as_str()) {
        Ok(items) => items,
        Err(e) => {
            return Err(e);
        },
    };
    match expand_bind_fields(&input.fields, slash.as_str()) {
        Ok(more) => {
            items.append(more);
        },
        Err(e) => {
            return Err(e);
        },
    }
    let doc = class_doc_text(input.class.as_str(), slash.as_str());
    Ok(bound_class_template(doc.as_str(), input.name.as_str(), items, slash.as_str()))
}

/// Expands a `bind!` declaration into the text of the wrapper. How string literals with
/// characters to escape are written is the compiler's affair.
pub fn expand_bind(input: &BindInput) -> (r: Result<String, MacroError>)
    ensures
        expands(r, bind_expansion(input@)),
{
    render(bind_template(input))
}

}
