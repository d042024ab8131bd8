use vstd::prelude::*;

use crate::expand::{
    complaint, java_name, java_name_of, map_use, mapped_use, name_taken, param_decls,
};
use crate::grammar::{
    method_models, param_models, BindMethod, Fault, InterfaceInput, InterfaceModel, MacroError,
    MethodModel, Param, ParamModel,
};
use crate::mapping::{
    binary, binary_name, has_self, interface_param_fault, interface_return_fault,
    is_reserved_object_method, reserved, validate_interface_param, validate_interface_return,
    well_formed, Mapped,
};
use crate::template::{code, expands, lays_out, literal, render, PartModel, Template};
use crate::text::{begins_with, join, joined, replace_char, replaced, same, starts_with, views};

verus! {

/// The complaint about a second method of one name in `interface!`.
pub open spec fn interface_duplicate(name: Seq<char>) -> Seq<char> {
    "duplicate method `"@
        + name
        + "` in interface! — Rust traits cannot declare overloads; declare each Java overload once and dispatch both from the generic `rjava::interface::proxy` handler if you need both"@
}

fn interface_duplicate_text(name: &str) -> (s: String)
    ensures
        s@ == interface_duplicate(name@),
{
    let mut s = "duplicate method `".to_owned();
    s.push_str(name);
    s.push_str("` in interface! — Rust traits cannot declare overloads; declare each Java overload once and dispatch both from the generic `rjava::interface::proxy` handler if you need both");
    s
}

/// The complaint about a parameter name that the dispatch uses.
pub open spec fn plumbing_name(name: Seq<char>) -> Seq<char> {
    "parameter name `"@
        + name
        + "` collides with the generated dispatch plumbing in interface! — rename it"@
}

fn plumbing_name_text(name: &str) -> (s: String)
    ensures
        s@ == plumbing_name(name@),
{
    let mut s = "parameter name `".to_owned();
    s.push_str(name);
    s.push_str("` collides with the generated dispatch plumbing in interface! — rename it");
    s
}

/// The complaint about a method that the interface runtime answers itself.
pub open spec fn reserved_method(shown: Seq<char>) -> Seq<char> {
    "`"@
        + shown
        + "` is one of the library-reserved `Object` methods that the interface runtime intercepts before the handler (identity semantics), so a trait method with this exact signature could never be called; remove it from interface! — a different signature (e.g. `toString(int)`) still reaches the handler"@
}

fn reserved_method_text(shown: &str) -> (s: String)
    ensures
        s@ == reserved_method(shown@),
{
    let mut s = "`".to_owned();
    s.push_str(shown);
    s.push_str("` is one of the library-reserved `Object` methods that the interface runtime intercepts before the handler (identity semantics), so a trait method with this exact signature could never be called; remove it from interface! — a different signature (e.g. `toString(int)`) still reaches the handler");
    s
}

/// The documentation of a trait method.
pub open spec fn plain_impl_doc(java_name: Seq<char>) -> Seq<char> {
    "Implements the Java method `"@
        + java_name
        + "`."@
}

fn plain_impl_doc_text(java_name: &str) -> (s: String)
    ensures
        s@ == plain_impl_doc(java_name@),
{
    let mut s = "Implements the Java method `".to_owned();
    s.push_str(java_name);
    s.push_str("`.");
    s
}

/// The documentation of a trait method that has a Java name of its own.
pub open spec fn alias_impl_doc(java_name: Seq<char>, name: Seq<char>) -> Seq<char> {
    "Implements the Java method `"@
        + java_name
        + "` (declared as `"@
        + name
        + "` via `[java_name = \""@
        + java_name
        + "\"]`)."@
}

fn alias_impl_doc_text(java_name: &str, name: &str) -> (s: String)
    ensures
        s@ == alias_impl_doc(java_name@, name@),
{
    let mut s = "Implements the Java method `".to_owned();
    s.push_str(java_name);
    s.push_str("` (declared as `");
    s.push_str(name);
    s.push_str("` via `[java_name = \"");
    s.push_str(java_name);
    s.push_str("\"]`).");
    s
}

/// The documentation of an interface trait.
pub open spec fn trait_doc(dotted: Seq<char>) -> Seq<char> {
    "The Rust-side implementation contract for the Java interface `"@
        + dotted
        + "`: implement every method with `fn name(&self, env: &mut jni::Env, …) -> JavaResult<R>` and build a proxy with `rjava::interface::proxy_typed(state, &[\""@
        + dotted
        + "\"])`."@
}

fn trait_doc_text(dotted: &str) -> (s: String)
    ensures
        s@ == trait_doc(dotted@),
{
    let mut s = "The Rust-side implementation contract for the Java interface `".to_owned();
    s.push_str(dotted);
    s.push_str("`: implement every method with `fn name(&self, env: &mut jni::Env, …) -> JavaResult<R>` and build a proxy with `rjava::interface::proxy_typed(state, &[\"");
    s.push_str(dotted);
    s.push_str("\"])`.");
    s
}

/// One method of an interface trait.
pub open spec fn trait_item(
    doc: Seq<char>,
    name: Seq<char>,
    decls: Seq<char>,
    ret: Seq<char>,
) -> Seq<PartModel> {
    seq![
        code("# [ doc = "@),
        literal(doc),
        code(" ] fn "@),
        code(name),
        code(" ( & self , env : & mut :: rjava :: jni :: Env , "@),
        code(decls),
        code(" ) -> :: rjava :: JavaResult < "@),
        code(ret),
        code(" > ; "@),
    ]
}

fn trait_item_template(doc: &str, name: &str, decls: &str, ret: &str) -> (t: Template)
    ensures
        t@ == trait_item(doc@, name@, decls@, ret@),
{
    let mut t = Template::new();
    t.code("# [ doc = ");
    t.literal(doc);
    t.code(" ] fn ");
    t.code(name);
    t.code(" ( & self , env : & mut :: rjava :: jni :: Env , ");
    t.code(decls);
    t.code(" ) -> :: rjava :: JavaResult < ");
    t.code(ret);
    t.code(" > ; ");
    t
}

/// The conversion of one argument in the dispatch.
pub open spec fn conversion(name: Seq<char>, ty: Seq<char>) -> Seq<char> {
    "let "@
        + name
        + " = < "@
        + ty
        + " as :: rjava :: FromJava > :: from_java ( env , __args . next ( ) . expect ( \"rjava::interface: dispatch arity is guaranteed by the param_matches guard\" , ) , ) ? ; "@
}

fn conversion_text(name: &str, ty: &str) -> (s: String)
    ensures
        s@ == conversion(name@, ty@),
{
    let mut s = "let ".to_owned();
    s.push_str(name);
    s.push_str(" = < ");
    s.push_str(ty);
    s.push_str(" as :: rjava :: FromJava > :: from_java ( env , __args . next ( ) . expect ( \"rjava::interface: dispatch arity is guaranteed by the param_matches guard\" , ) , ) ? ; ");
    s
}

/// The dispatch arm of one method.
pub open spec fn dispatch_arm(
    java_name: Seq<char>,
    bins: Seq<PartModel>,
    convs: Seq<char>,
    name: Seq<char>,
    names: Seq<char>,
) -> Seq<PartModel> {
    seq![
        code(" "@),
        literal(java_name),
        code(" if :: rjava :: interface :: param_matches ( & [ "@),
    ] + bins + seq![
        code(" ] , param_types ) => { "@),
        code(convs),
        code("let __out = self . "@),
        code(name),
        code(" ( env , "@),
        code(names),
        code(" ) ? ; let __value = :: rjava :: interface :: to_value ( env , __out ) ? ; :: std :: result :: Result :: Ok ( :: rjava :: interface :: box_value ( env , __value ) ? ) } "@),
    ]
}

fn dispatch_arm_template(
    java_name: &str,
    bins: Template,
    convs: &str,
    name: &str,
    names: &str,
) -> (t: Template)
    ensures
        t@ == dispatch_arm(java_name@, bins@, convs@, name@, names@),
{
    let mut t = Template::new();
    t.code(" ");
    t.literal(java_name);
    t.code(" if :: rjava :: interface :: param_matches ( & [ ");
    t.append(bins);
    t.code(" ] , param_types ) => { ");
    t.code(convs);
    t.code("let __out = self . ");
    t.code(name);
    t.code(" ( env , ");
    t.code(names);
    t.code(" ) ? ; let __value = :: rjava :: interface :: to_value ( env , __out ) ? ; :: std :: result :: Result :: Ok ( :: rjava :: interface :: box_value ( env , __value ) ? ) } ");
    assert(t@ =~= dispatch_arm(java_name@, bins@, convs@, name@, names@));
    t
}

/// The trait of an interface and its dispatch.
pub open spec fn implemented_interface(
    doc: Seq<char>,
    name: Seq<char>,
    items: Seq<PartModel>,
    dotted: Seq<char>,
    arms: Seq<PartModel>,
) -> Seq<PartModel> {
    seq![
        code("# [ allow ( non_snake_case ) ] # [ doc = "@),
        literal(doc),
        code(" ] pub trait "@),
        code(name),
        code(" { "@),
    ] + items + seq![
        code(" } # [ doc ( hidden ) ] impl :: rjava :: interface :: InterfaceTrait for dyn "@),
        code(name),
        code(" + Send + Sync { const INTERFACE_NAME : & 'static str = "@),
        literal(dotted),
        code(" ; fn dispatch < 'env > ( & self , env : & mut :: rjava :: jni :: Env < 'env > , name : & str , param_types : & [ String ] , args : :: std :: vec :: Vec < :: rjava :: jni :: JValueOwned < 'env > > , ) -> :: rjava :: JavaResult < :: rjava :: JObject > { let mut __args = args . into_iter ( ) ; match name { "@),
    ] + arms + seq![
        code(" _ => Err ( :: rjava :: JavaError :: JavaException { class : \"java.lang.RuntimeException\" . to_string ( ) , message : format ! ( \"rjava::interface: no method `{name}` with parameter types {param_types:?} is declared in interface! `{}` — declare it in the interface! trait, or implement the dynamic dispatch with `interface::proxy`\" , "@),
        literal(dotted),
        code(" ) , } ) , } } }"@),
    ]
}

fn implemented_interface_template(
    doc: &str,
    name: &str,
    items: Template,
    dotted: &str,
    arms: Template,
) -> (t: Template)
    ensures
        t@ == implemented_interface(doc@, name@, items@, dotted@, arms@),
{
    let mut t = Template::new();
    t.code("# [ allow ( non_snake_case ) ] # [ doc = ");
    t.literal(doc);
    t.code(" ] pub trait ");
    t.code(name);
    t.code(" { ");
    t.append(items);
    t.code(" } # [ doc ( hidden ) ] impl :: rjava :: interface :: InterfaceTrait for dyn ");
    t.code(name);
    t.code(" + Send + Sync { const INTERFACE_NAME : & 'static str = ");
    t.literal(dotted);
    t.code(" ; fn dispatch < 'env > ( & self , env : & mut :: rjava :: jni :: Env < 'env > , name : & str , param_types : & [ String ] , args : :: std :: vec :: Vec < :: rjava :: jni :: JValueOwned < 'env > > , ) -> :: rjava :: JavaResult < :: rjava :: JObject > { let mut __args = args . into_iter ( ) ; match name { ");
    t.append(arms);
    t.code(" _ => Err ( :: rjava :: JavaError :: JavaException { class : \"java.lang.RuntimeException\" . to_string ( ) , message : format ! ( \"rjava::interface: no method `{name}` with parameter types {param_types:?} is declared in interface! `{}` — declare it in the interface! trait, or implement the dynamic dispatch with `interface::proxy`\" , ");
    t.literal(dotted);
    t.code(" ) , } ) , } } }");
    assert(t@ =~= implemented_interface(doc@, name@, items@, dotted@, arms@));
    t
}

/// A declared return type of an interface method: an omitted one is void.
pub open spec fn interface_return(m: MethodModel) -> Result<Mapped, Seq<char>> {
    match m.ret {
        Some(t) => mapped_use(t),
        None => Ok(Mapped::Prim('V')),
    }
}

/// The text of the return type of an interface method.
pub open spec fn return_text(m: MethodModel) -> Seq<char> {
    match m.ret {
        Some(t) => t.text,
        None => "()"@,
    }
}

/// Whether the dispatch itself uses a name.
pub open spec fn is_plumbing_name(name: Seq<char>) -> bool {
    ||| begins_with(name, "__rjava"@)
    ||| name == "__env"@
    ||| name == "__state"@
    ||| name == "__args"@
    ||| name == "__out"@
}

fn plumbing(name: &str) -> (r: bool)
    ensures
        r == is_plumbing_name(name@),
{
    starts_with(name, "__rjava") || same(name, "__env") || same(name, "__state") || same(
        name,
        "__args",
    ) || same(name, "__out")
}

/// The complaint about one parameter of an interface method, if there is one.
pub open spec fn interface_one_param_fault(p: ParamModel) -> Option<Fault> {
    if p.name == "env"@ {
        Some(
            Fault {
                at: p.name_at,
                message: "`env` is reserved as the JNI `Env` parameter of every generated trait method in interface! — rename this parameter"@,
            },
        )
    } else if is_plumbing_name(p.name) {
        Some(Fault { at: p.name_at, message: plumbing_name(p.name) })
    } else {
        match mapped_use(p.ty) {
            Err(message) => Some(Fault { at: p.ty.from, message }),
            Ok(m) => match interface_param_fault(m, p.ty.outline) {
                Some(message) => Some(Fault { at: p.ty.from, message }),
                None => None,
            },
        }
    }
}

/// The first complaint about one of the first `k` parameters of an interface method.
pub open spec fn interface_params_fault(params: Seq<ParamModel>, k: int) -> Option<Fault>
    decreases k,
{
    if k <= 0 {
        None
    } else {
        match interface_params_fault(params, k - 1) {
            Some(e) => Some(e),
            None => interface_one_param_fault(params[k - 1]),
        }
    }
}

/// The names that `Class.getName()` gives the parameter types.
pub open spec fn param_binaries(params: Seq<ParamModel>) -> Seq<Seq<char>> {
    Seq::new(params.len(), |i: int| binary(mapped_use(params[i].ty)->Ok_0))
}

/// The names of the first `k` parameter types as literals, separated by commas.
pub open spec fn binary_literals(bins: Seq<Seq<char>>, k: int) -> Seq<PartModel>
    decreases k,
{
    if k <= 0 {
        Seq::empty()
    } else if k == 1 {
        seq![literal(bins[0])]
    } else {
        binary_literals(bins, k - 1).push(code(", "@)).push(literal(bins[k - 1]))
    }
}

/// The conversions of the first `k` arguments.
pub open spec fn conversions(params: Seq<ParamModel>, k: int) -> Seq<char>
    decreases k,
{
    if k <= 0 {
        Seq::empty()
    } else {
        conversions(params, k - 1) + conversion(params[k - 1].name, params[k - 1].ty.text)
    }
}

/// The names of the first `k` parameters, separated by commas.
pub open spec fn bare_names(params: Seq<ParamModel>, k: int) -> Seq<char>
    decreases k,
{
    if k <= 0 {
        Seq::empty()
    } else if k == 1 {
        params[0].name
    } else {
        bare_names(params, k - 1) + ", "@ + params[k - 1].name
    }
}

/// A method with its parameter types, as messages show it.
pub open spec fn shown_method(java_name: Seq<char>, bins: Seq<Seq<char>>) -> Seq<char> {
    java_name + "("@ + joined(bins, ", "@) + ")"@
}

/// The complaint about the method at `i` of an `interface!` declaration, if there is
/// one: it is an instance method with a name of its own, its types map and can be
/// owned, and it is none of the methods that the runtime answers itself.
pub open spec fn interface_method_fault(ms: Seq<MethodModel>, i: int) -> Option<Fault> {
    let m = ms[i];
    if m.is_static {
        Some(
            Fault {
                at: m.name_at,
                message: "`static fn` is not supported in interface! v1 — Java static interface methods cannot be trait items (the generated trait has a `&self` receiver); keep them on the generic `rjava::interface::proxy` handler path"@,
            },
        )
    } else if exists|j: int| 0 <= j < i && (#[trigger] ms[j]).name == m.name {
        Some(Fault { at: m.name_at, message: interface_duplicate(m.name) })
    } else if java_name_of(m).len() == 0 {
        Some(Fault { at: m.name_at, message: "`java_name = \"…\"` must not be empty"@ })
    } else if interface_params_fault(m.params, m.params.len() as int) is Some {
        interface_params_fault(m.params, m.params.len() as int)
    } else {
        match interface_return(m) {
            Err(message) => Some(Fault { at: m.ret->0.from, message }),
            Ok(r) => match m.ret {
                Some(ret) => match interface_return_fault(r, ret.outline) {
                    Some(message) => Some(Fault { at: ret.from, message }),
                    None => reserved_fault(m),
                },
                None => reserved_fault(m),
            },
        }
    }
}

/// The complaint about a method that the interface runtime answers itself.
pub open spec fn reserved_fault(m: MethodModel) -> Option<Fault> {
    let bins = param_binaries(m.params);
    if reserved(java_name_of(m), bins) {
        Some(
            Fault {
                at: m.name_at,
                message: reserved_method(shown_method(java_name_of(m), bins)),
            },
        )
    } else {
        None
    }
}

/// The documentation of a trait method.
pub open spec fn trait_method_doc(m: MethodModel) -> Seq<char> {
    if java_name_of(m) == m.name {
        plain_impl_doc(java_name_of(m))
    } else {
        alias_impl_doc(java_name_of(m), m.name)
    }
}

/// The trait item of a method.
pub open spec fn method_trait_item(m: MethodModel) -> Seq<PartModel> {
    trait_item(
        trait_method_doc(m),
        m.name,
        param_decls(m.params, m.params.len() as int),
        return_text(m),
    )
}

/// The dispatch arm of a method: its guard holds the declared parameter types.
pub open spec fn method_arm(m: MethodModel) -> Seq<PartModel> {
    let n = m.params.len() as int;
    dispatch_arm(
        java_name_of(m),
        binary_literals(param_binaries(m.params), n),
        conversions(m.params, n),
        m.name,
        bare_names(m.params, n),
    )
}

/// The trait items and the dispatch arms of the first `k` methods, or the first
/// complaint about one.
pub open spec fn interface_methods(ms: Seq<MethodModel>, k: int) -> Result<
    (Seq<PartModel>, Seq<PartModel>),
    Fault,
>
    decreases k,
{
    if k <= 0 {
        Ok((Seq::empty(), Seq::empty()))
    } else {
        match interface_methods(ms, k - 1) {
            Err(e) => Err(e),
            Ok((items, arms)) => match interface_method_fault(ms, k - 1) {
                Some(e) => Err(e),
                None => Ok((items + method_trait_item(ms[k - 1]), arms + method_arm(ms[k - 1]))),
            },
        }
    }
}

/// The expansion of an `interface!` declaration, or the first complaint about it.
pub open spec fn interface_expansion(input: InterfaceModel) -> Result<Seq<PartModel>, Fault> {
    if input.class.len() == 0 {
        Err(Fault { at: 0, message: "the interface name must not be empty"@ })
    } else {
        let dotted = replaced(input.class, '/', '.');
        match interface_methods(input.methods, input.methods.len() as int) {
            Err(e) => Err(e),
            Ok((items, arms)) => Ok(
                implemented_interface(
                    trait_doc(dotted),
                    input.name,
                    items,
                    dotted,
                    arms,
                ),
            ),
        }
    }
}

/// The texts that come from the parameters of an interface method.
struct InterfaceTexts {
    bins: Vec<String>,
    bin_literals: Template,
    decls: String,
    conversions: String,
    names: String,
}

spec fn interface_texts_of(t: InterfaceTexts, params: Seq<ParamModel>, k: int) -> bool {
    &&& views(t.bins@) == param_binaries(params).take(k)
    &&& t.bin_literals@ == binary_literals(param_binaries(params), k)
    &&& t.decls@ == param_decls(params, k)
    &&& t.conversions@ == conversions(params, k)
    &&& t.names@ == bare_names(params, k)
}

proof fn interface_params_fault_stays(params: Seq<ParamModel>, k: int, n: int)
    requires
        0 <= k <= n,
        interface_params_fault(params, k) is Some,
    ensures
        interface_params_fault(params, n) == interface_params_fault(params, k),
    decreases n - k,
{
    if k < n {
        interface_params_fault_stays(params, k, n - 1);
    }
}

fn check_interface_param(p: &Param) -> (r: Result<Mapped, MacroError>)
    ensures
        match r {
            Ok(m) => interface_one_param_fault(p@) is None && mapped_use(p@.ty) == Ok::<
                Mapped,
                Seq<char>,
            >(m) && well_formed(m) && !has_self(m),
            Err(e) => interface_one_param_fault(p@) == Some(e@),
        },
{
    if same(p.name.as_str(), "env") {
        return Err(
            complaint(
                p.name_at,
                "`env` is reserved as the JNI `Env` parameter of every generated trait method in interface! — rename this parameter".to_owned(),
            ),
        );
    }
    if plumbing(p.name.as_str()) {
        return Err(complaint(p.name_at, plumbing_name_text(p.name.as_str())));
    }
    let m = match map_use(&p.ty) {
        Ok(m) => m,
        Err(message) => {
            return Err(complaint(p.ty.from, message));
        },
    };
    match validate_interface_param(&m, &p.ty.outline) {
        Ok(()) => Ok(m),
        Err(message) => Err(complaint(p.ty.from, message)),
    }
}

fn expand_interface_params(params: &Vec<Param>) -> (r: Result<InterfaceTexts, MacroError>)
    ensures
        match r {
            Ok(t) => interface_params_fault(param_models(params@), params@.len() as int) is None
                && interface_texts_of(t, param_models(params@), params@.len() as int),
            Err(e) => interface_params_fault(param_models(params@), params@.len() as int) == Some(
                e@,
            ),
        },
{
    let ghost ps = param_models(params@);
    let ghost bs = param_binaries(ps);
    let mut t = InterfaceTexts {
        bins: Vec::new(),
        bin_literals: Template::new(),
        decls: String::new(),
        conversions: String::new(),
        names: String::new(),
    };
    let mut k: usize = 0;
    assert(views(t.bins@) =~= bs.take(0));
    while k < params.len()
        invariant
            k <= params@.len(),
            ps == param_models(params@),
            bs == param_binaries(ps),
            interface_params_fault(ps, k as int) is None,
            interface_texts_of(t, ps, k as int),
        decreases params@.len() - k,
    {
        let p = &params[k];
        assert(ps[k as int] == p@);
        let m = match check_interface_param(p) {
            Ok(m) => m,
            Err(e) => {
                proof {
                    interface_params_fault_stays(ps, k as int + 1, ps.len() as int);
                }
                return Err(e);
            },
        };
        let bin = binary_name(&m);
        assert(bin@ == bs[k as int]);
        if k > 0 {
            t.bin_literals.code(", ");
            t.decls.push_str(", ");
            t.names.push_str(", ");
            t.names.push_str(p.name.as_str());
        } else {
            t.names = p.name.as_str().to_owned();
            assert(t.decls@ + Seq::<char>::empty() =~= t.decls@);
        }
        t.bin_literals.literal(bin.as_str());
        t.decls.push_str(p.name.as_str());
        t.decls.push_str(": ");
        t.decls.push_str(p.ty.text.as_str());
        t.conversions.push_str(conversion_text(p.name.as_str(), p.ty.text.as_str()).as_str());
        let ghost before = t.bins@;
        t.bins.push(bin);
        proof {
            assert(views(before).len() == k);
            assert(views(t.bins@) =~= views(before).push(bs[k as int]));
            assert(bs.take(k as int + 1) =~= bs.take(k as int).push(bs[k as int]));
        }
        k += 1;
    }
    Ok(t)
}

fn show_method(java_name: &str, bins: &Vec<String>) -> (s: String)
    ensures
        s@ == shown_method(java_name@, views(bins@)),
{
    let mut s = java_name.to_owned();
    s.push_str("(");
    s.push_str(join(bins, ", ").as_str());
    s.push_str(")");
    s
}

fn check_interface_return(m: &BindMethod) -> (r: Result<(), MacroError>)
    ensures
        ({
            let fault = match interface_return(m@) {
                Err(message) => Some(Fault { at: m@.ret->0.from, message }),
                Ok(r) => match m@.ret {
                    Some(ret) => match interface_return_fault(r, ret.outline) {
                        Some(message) => Some(Fault { at: ret.from, message }),
                        None => None,
                    },
                    None => None,
                },
            };
            match r {
                Ok(()) => fault is None,
                Err(e) => fault == Some(e@),
            }
        }),
{
    if let Some(ret) = &m.ret {
        let mapped = match map_use(ret) {
            Ok(r) => r,
            Err(message) => {
                return Err(complaint(ret.from, message));
            },
        };
        match validate_interface_return(&mapped, &ret.outline) {
            Ok(()) => {},
            Err(message) => {
                return Err(complaint(ret.from, message));
            },
        }
    }
    Ok(())
}

fn expand_interface_method(methods: &Vec<BindMethod>, i: usize) -> (r: Result<
    (Template, Template),
    MacroError,
>)
    requires
        i < methods@.len(),
    ensures
        match r {
            Ok((item, arm)) => interface_method_fault(method_models(methods@), i as int) is None
                && item@ == method_trait_item(method_models(methods@)[i as int]) && arm@
                == method_arm(method_models(methods@)[i as int]),
            Err(e) => interface_method_fault(method_models(methods@), i as int) == Some(e@),
        },
{
    let m = &methods[i];
    assert(method_models(methods@)[i as int] == m@);
    if m.is_static {
        return Err(
            complaint(
                m.name_at,
                "`static fn` is not supported in interface! v1 — Java static interface methods cannot be trait items (the generated trait has a `&self` receiver); keep them on the generic `rjava::interface::proxy` handler path".to_owned(),
            ),
        );
    }
    if name_taken(methods, i) {
        return Err(complaint(m.name_at, interface_duplicate_text(m.name.as_str())));
    }
    let name = java_name(m);
    if name.is_empty() {
        return Err(
            complaint(m.name_at, "`java_name = \"…\"` must not be empty".to_owned()),
        );
    }
    let t = match expand_interface_params(&m.params) {
        Ok(t) => t,
        Err(e) => {
            return Err(e);
        },
    };
    assert(param_binaries(m@.params).take(m@.params.len() as int) =~= param_binaries(m@.params));
    match check_interface_return(m) {
        Ok(()) => {},
        Err(e) => {
            return Err(e);
        },
    }
    if is_reserved_object_method(name, &t.bins) {
        return Err(
            complaint(
                m.name_at,
                reserved_method_text(show_method(name, &t.bins).as_str()),
            ),
        );
    }
    let doc = if same(name, m.name.as_str()) {
        plain_impl_doc_text(name)
    } else {
        alias_impl_doc_text(name, m.name.as_str())
    };
    let ret = match &m.ret {
        Some(r) => r.text.as_str(),
        None => "()",
    };
    let item = trait_item_template(doc.as_str(), m.name.as_str(), t.decls.as_str(), ret);
    let arm = dispatch_arm_template(
        name,
        t.bin_literals,
        t.conversions.as_str(),
        m.name.as_str(),
        t.names.as_str(),
    );
    Ok((item, arm))
}

proof fn interface_methods_fault_stays(ms: Seq<MethodModel>, k: int, n: int)
    requires
        0 <= k <= n,
        interface_methods(ms, k) is Err,
    ensures
        interface_methods(ms, n) == interface_methods(ms, k),
    decreases n - k,
{
    if k < n {
        interface_methods_fault_stays(ms, k, n - 1);
    }
}

/// Lays out what an `interface!` declaration expands to: the trait, and the dispatch that
/// calls its methods.
pub fn interface_template(input: &InterfaceInput) -> (r: Result<Template, MacroError>)
    ensures
        lays_out(r, interface_expansion(input@)),
{
    if input.class.as_str().is_empty() {
        return Err(complaint(0, "the interface name must not be empty".to_owned()));
    }
    let dotted = replace_char(input.class.as_str(), '/', '.');
    let ghost ms = method_models(input.methods@);
    let mut items = Template::new();
    let mut arms = Template::new();
    let mut i: usize = 0;
    while i < input.methods.len()
        invariant
            i <= input.methods@.len(),
            ms == method_models(input.methods@),
            input@.class.len() > 0,
            interface_methods(ms, i as int) == Ok::<(Seq<PartModel>, Seq<PartModel>), Fault>(
                (items@, arms@),
            ),
        decreases input.methods@.len() - i,
    {
        match expand_interface_method(&input.methods, i) {
            Ok((item, arm)) => {
                items.append(item);
                arms.append(arm);
            },
            Err(e) => {
                proof {
                    interface_methods_fault_stays(ms, i as int + 1, ms.len() as int);
                }
                return Err(e);
            },
        }
        i += 1;
    }
    let doc = trait_doc_text(dotted.as_str());
    Ok(
        implemented_interface_template(
            doc.as_str(),
            input.name.as_str(),
            items,
            dotted.as_str(),
            arms,
        ),
    )
}

/// Expands an `interface!` declaration into the text of the trait and of the dispatch. How
/// string literals with characters to escape are written is the compiler's affair.
pub fn expand_interface(input: &InterfaceInput) -> (r: Result<String, MacroError>)
    ensures
        expands(r, interface_expansion(input@)),
{
    render(interface_template(input))
}

}
