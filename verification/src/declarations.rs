use vstd::prelude::*;

use crate::expand::{
    bind_expansion, bind_field_fault, bind_fields, bind_method_fault, bind_methods,
    bind_params_fault, bind_sig, java_name_of, mapped_use, param_fragments, slash_form,
};
use crate::expand_interface::{
    interface_expansion, interface_method_fault, interface_methods, interface_one_param_fault,
    interface_params_fault, param_binaries,
};
use crate::grammar::{BindModel, Fault, FieldModel, InterfaceModel, MethodModel, ParamModel};
use crate::mapping::{
    accepted_types_keep_their_places, fragment, has_self, has_void, holds_reference, mapped,
    mapped_is_well_formed, param_fault, reserved,
};
use crate::names::{
    declared_types_are_returns, declared_types_have_one_fragment, is_fragment, split_sig,
    split_undoes_join,
};
use crate::text::{begins_with, concat, prefixes_are_compared};

verus! {

proof fn accepted_methods(ms: Seq<MethodModel>, k: int, slash: Seq<char>)
    requires
        bind_methods(ms, k, slash) is Ok,
    ensures
        forall|i: int| 0 <= i < k ==> #[trigger] bind_method_fault(ms, i) is None,
    decreases k,
{
    if k > 0 {
        accepted_methods(ms, k - 1, slash);
    }
}

proof fn accepted_interface_methods(ms: Seq<MethodModel>, k: int)
    requires
        interface_methods(ms, k) is Ok,
    ensures
        forall|i: int| 0 <= i < k ==> #[trigger] interface_method_fault(ms, i) is None,
    decreases k,
{
    if k > 0 {
        accepted_interface_methods(ms, k - 1);
    }
}

proof fn accepted_params(params: Seq<ParamModel>, k: int, i: int)
    requires
        bind_params_fault(params, k) is None,
        0 <= i < k,
    ensures
        mapped_use(params[i].ty) is Ok,
        param_fault(mapped_use(params[i].ty)->Ok_0) is None,
    decreases k,
{
    if i < k - 1 {
        accepted_params(params, k - 1, i);
    }
}

/// The methods of an accepted `bind!` declaration have distinct names in Rust and
/// distinct names in Java, and no name in Java is empty.
pub proof fn bound_methods_are_distinct(input: BindModel, i: int, j: int)
    requires
        bind_expansion(input) is Ok,
        0 <= i < j < input.methods.len(),
    ensures
        input.methods[i].name != input.methods[j].name,
        java_name_of(input.methods[i]) != java_name_of(input.methods[j]),
        java_name_of(input.methods[i]).len() > 0,
{
    let ms = input.methods;
    accepted_methods(ms, ms.len() as int, slash_form(input.class));
    assert(bind_method_fault(ms, i) is None);
    assert(bind_method_fault(ms, j) is None);
    assert(ms[i].name == ms[i].name);
    assert(java_name_of(ms[i]) == java_name_of(ms[i]));
}

/// The methods of an accepted `interface!` declaration are instance methods with distinct
/// names in Rust, and none is answered by the library in place of the declared trait.
pub proof fn declared_methods_reach_the_trait(input: InterfaceModel, i: int)
    requires
        interface_expansion(input) is Ok,
        0 <= i < input.methods.len(),
    ensures
        !input.methods[i].is_static,
        crate::interface::reserved_method(
            java_name_of(input.methods[i]),
            param_binaries(input.methods[i].params),
        ) is None,
        forall|j: int|
            0 <= j < i ==> (#[trigger] input.methods[j]).name != input.methods[i].name,
{
    let ms = input.methods;
    accepted_interface_methods(ms, ms.len() as int);
    assert(interface_method_fault(ms, i) is None);
    crate::interface::reserved_methods_are_refused(
        java_name_of(ms[i]),
        param_binaries(ms[i].params),
    );
}

/// The fragments of the parameters of a bound method.
pub open spec fn fragment_list(params: Seq<ParamModel>, slash: Seq<char>) -> Seq<Seq<char>> {
    Seq::new(params.len(), |i: int| fragment(mapped_use(params[i].ty)->Ok_0, slash))
}

pub(crate) proof fn fragments_are_joined(params: Seq<ParamModel>, k: int, slash: Seq<char>)
    requires
        0 <= k <= params.len(),
    ensures
        param_fragments(params, k, slash) == concat(fragment_list(params, slash).take(k)),
    decreases k,
{
    let all = fragment_list(params, slash);
    if k == 0 {
        assert(all.take(0) =~= Seq::empty());
    } else {
        fragments_are_joined(params, k - 1, slash);
        assert(all.take(k).drop_last() =~= all.take(k - 1));
        assert(all.take(k).last() == all[k - 1]);
    }
}

/// The descriptor that `bind!` computes for a method is made of one fragment for each
/// parameter, in order, and the fragment of the return type: splitting it gives exactly
/// these back. A method that returns `Self` has a class name without `;` or without `)`.
pub proof fn bound_descriptors_split(input: BindModel, i: int)
    requires
        bind_expansion(input) is Ok,
        0 <= i < input.methods.len(),
        mapped_use(input.methods[i].ret->0)->Ok_0 is SelfRef ==> !(slash_form(
            input.class,
        ).contains(';') && slash_form(input.class).contains(')')),
    ensures
        split_sig(bind_sig(input.methods[i], slash_form(input.class))) == Some(
            (
                fragment_list(input.methods[i].params, slash_form(input.class)),
                fragment(mapped_use(input.methods[i].ret->0)->Ok_0, slash_form(input.class)),
            ),
        ),
{
    let ms = input.methods;
    let m = ms[i];
    let slash = slash_form(input.class);
    accepted_methods(ms, ms.len() as int, slash);
    assert(bind_method_fault(ms, i) is None);
    let n = m.params.len() as int;
    assert(bind_params_fault(m.params, n) is None);
    let list = fragment_list(m.params, slash);
    let ret = fragment(mapped_use(m.ret->0)->Ok_0, slash);
    assert forall|k: int| 0 <= k < list.len() implies is_fragment(#[trigger] list[k]) by {
        accepted_params(m.params, n, k);
        let t = mapped_use(m.params[k].ty)->Ok_0;
        mapped_is_well_formed(m.params[k].ty.outline);
        declared_types_have_one_fragment(t, slash);
    }
    fragments_are_joined(m.params, n, slash);
    assert(list.take(n) =~= list);
    mapped_is_well_formed(m.ret->0.outline);
    declared_types_are_returns(mapped_use(m.ret->0)->Ok_0, slash);
    split_undoes_join(list, ret);
    reveal_strlit("(");
    reveal_strlit(")");
    assert("("@ =~= seq!['(']);
    assert(")"@ =~= seq![')']);
    assert(bind_sig(m, slash) =~= crate::signature::descriptor(list, ret));
}

/// Whether a method may be bound: its name and its Java name are those of none before it,
/// its Java name is not empty, every parameter has a type that Java has a value for, and the
/// return type is given and has one too, or is `()` or `Self`.
pub open spec fn may_be_bound(ms: Seq<MethodModel>, i: int) -> bool {
    &&& java_name_of(ms[i]).len() > 0
    &&& forall|j: int|
        0 <= j < i ==> (#[trigger] ms[j]).name != ms[i].name && java_name_of(ms[j])
            != java_name_of(ms[i])
    &&& forall|k: int|
        0 <= k < ms[i].params.len() ==> (mapped((#[trigger] ms[i].params[k]).ty.outline) matches Ok(
            t,
        ) && !has_void(t) && !has_self(t))
    &&& ms[i].ret is Some
    &&& (mapped(ms[i].ret->0.outline) matches Ok(t) && !holds_reference(ms[i].ret->0.outline) && (t
        is SelfRef || !has_self(t)))
}

/// Whether a field may be bound: it is named by a plain identifier, and has a type that Java
/// has a value for and that Rust can own.
pub open spec fn may_be_bound_field(f: FieldModel) -> bool {
    &&& (mapped(f.ty.outline) matches Ok(t) && !has_void(t) && !has_self(t))
    &&& !holds_reference(f.ty.outline)
    &&& !(f.name.len() >= 2 && f.name[0] == 'r' && f.name[1] == '#')
}

proof fn parameters_decide(params: Seq<ParamModel>, k: int)
    requires
        0 <= k <= params.len(),
    ensures
        bind_params_fault(params, k) is None <==> forall|i: int|
            0 <= i < k ==> (mapped((#[trigger] params[i]).ty.outline) matches Ok(t) && !has_void(t)
                && !has_self(t)),
    decreases k,
{
    if k > 0 {
        parameters_decide(params, k - 1);
        if mapped(params[k - 1].ty.outline) is Ok {
            accepted_types_keep_their_places(
                mapped(params[k - 1].ty.outline)->Ok_0,
                params[k - 1].ty.outline,
            );
        }
    }
}

proof fn methods_decide(ms: Seq<MethodModel>, i: int)
    requires
        0 <= i < ms.len(),
    ensures
        bind_method_fault(ms, i) is None <==> may_be_bound(ms, i),
{
    parameters_decide(ms[i].params, ms[i].params.len() as int);
    if ms[i].ret is Some && mapped(ms[i].ret->0.outline) is Ok {
        accepted_types_keep_their_places(mapped(ms[i].ret->0.outline)->Ok_0, ms[i].ret->0.outline);
    }
    if bind_method_fault(ms, i) is None {
        assert forall|j: int| 0 <= j < i implies (#[trigger] ms[j]).name != ms[i].name
            && java_name_of(ms[j]) != java_name_of(ms[i]) by {
            assert(ms[j].name == ms[j].name);
        }
    }
}

proof fn all_methods_decide(ms: Seq<MethodModel>, k: int, slash: Seq<char>)
    requires
        0 <= k <= ms.len(),
    ensures
        bind_methods(ms, k, slash) is Ok <==> forall|i: int|
            0 <= i < k ==> #[trigger] may_be_bound(ms, i),
    decreases k,
{
    if k > 0 {
        all_methods_decide(ms, k - 1, slash);
        methods_decide(ms, k - 1);
    }
}

proof fn all_fields_decide(fs: Seq<FieldModel>, k: int, slash: Seq<char>)
    requires
        0 <= k <= fs.len(),
    ensures
        bind_fields(fs, k, slash) is Ok <==> forall|i: int|
            0 <= i < k ==> may_be_bound_field(#[trigger] fs[i]),
    decreases k,
{
    if k > 0 {
        all_fields_decide(fs, k - 1, slash);
        let f = fs[k - 1];
        if mapped(f.ty.outline) is Ok {
            accepted_types_keep_their_places(mapped(f.ty.outline)->Ok_0, f.ty.outline);
        }
        reveal_strlit("r#");
        prefixes_are_compared(f.name, "r#"@);
        assert("r#"@.len() == 2 && "r#"@[0] == 'r' && "r#"@[1] == '#');
        assert(begins_with(f.name, "r#"@) <==> f.name.len() >= 2 && f.name[0] == 'r' && f.name[1]
            == '#');
        assert(bind_field_fault(f) is None <==> may_be_bound_field(f));
    }
}

/// A `bind!` declaration is accepted exactly where it names a class, and each of its methods
/// and fields may be bound.
pub proof fn bindings_are_accepted_on_their_merits(input: BindModel)
    ensures
        bind_expansion(input) is Ok <==> {
            &&& input.class.len() > 0
            &&& forall|i: int|
                0 <= i < input.methods.len() ==> #[trigger] may_be_bound(input.methods, i)
            &&& forall|i: int|
                0 <= i < input.fields.len() ==> may_be_bound_field(#[trigger] input.fields[i])
        },
{
    let slash = slash_form(input.class);
    all_methods_decide(input.methods, input.methods.len() as int, slash);
    all_fields_decide(input.fields, input.fields.len() as int, slash);
}

/// Whether a method may be implemented: it is an instance method, its name is that of none
/// before it, its Java name is not empty, every parameter has a name that the dispatch does
/// not use and a type that Java has a value for and that Rust can own, so has the return
/// type or it is `()`, and the library does not answer it itself.
pub open spec fn may_be_implemented(ms: Seq<MethodModel>, i: int) -> bool {
    &&& !ms[i].is_static
    &&& java_name_of(ms[i]).len() > 0
    &&& forall|j: int| 0 <= j < i ==> (#[trigger] ms[j]).name != ms[i].name
    &&& forall|k: int|
        0 <= k < ms[i].params.len() ==> may_be_a_parameter(#[trigger] ms[i].params[k])
    &&& ms[i].ret matches Some(ret) ==> (mapped(ret.outline) matches Ok(t) && !has_self(t))
        && !holds_reference(ret.outline)
    &&& !reserved(java_name_of(ms[i]), param_binaries(ms[i].params))
}

/// Whether a parameter may stand in an interface.
pub open spec fn may_be_a_parameter(p: ParamModel) -> bool {
    &&& (mapped(p.ty.outline) matches Ok(t) && !has_void(t) && !has_self(t))
    &&& !holds_reference(p.ty.outline)
    &&& p.name != "env"@ && p.name != "__env"@ && p.name != "__state"@ && p.name != "__args"@
        && p.name != "__out"@
    &&& !(p.name.len() >= 7 && p.name.take(7) == "__rjava"@)
}

proof fn interface_parameters_decide(params: Seq<ParamModel>, k: int)
    requires
        0 <= k <= params.len(),
    ensures
        interface_params_fault(params, k) is None <==> forall|i: int|
            0 <= i < k ==> may_be_a_parameter(#[trigger] params[i]),
    decreases k,
{
    if k > 0 {
        interface_parameters_decide(params, k - 1);
        let p = params[k - 1];
        if mapped(p.ty.outline) is Ok {
            accepted_types_keep_their_places(mapped(p.ty.outline)->Ok_0, p.ty.outline);
        }
        reveal_strlit("__rjava");
        assert(interface_one_param_fault(p) is None <==> may_be_a_parameter(p));
    }
}

proof fn interface_methods_decide(ms: Seq<MethodModel>, k: int)
    requires
        0 <= k <= ms.len(),
    ensures
        interface_methods(ms, k) is Ok <==> forall|i: int|
            0 <= i < k ==> #[trigger] may_be_implemented(ms, i),
    decreases k,
{
    if k > 0 {
        interface_methods_decide(ms, k - 1);
        let m = ms[k - 1];
        interface_parameters_decide(m.params, m.params.len() as int);
        if m.ret is Some && mapped(m.ret->0.outline) is Ok {
            accepted_types_keep_their_places(mapped(m.ret->0.outline)->Ok_0, m.ret->0.outline);
        }
        assert(interface_method_fault(ms, k - 1) is None <==> may_be_implemented(ms, k - 1));
    }
}

/// An `interface!` declaration is accepted exactly where it names an interface, and each of
/// its methods may be implemented.
pub proof fn interfaces_are_accepted_on_their_merits(input: InterfaceModel)
    ensures
        interface_expansion(input) is Ok <==> input.class.len() > 0 && forall|i: int|
            0 <= i < input.methods.len() ==> #[trigger] may_be_implemented(input.methods, i),
{
    interface_methods_decide(input.methods, input.methods.len() as int);
}

proof fn first_parameter_decides(params: Seq<ParamModel>, n: int, k: int)
    requires
        0 <= k < n <= params.len(),
        bind_params_fault(params, k) is None,
        bind_params_fault(params, k + 1) is Some,
    ensures
        bind_params_fault(params, n) == bind_params_fault(params, k + 1),
        bind_params_fault(params, n)->0.at == params[k].ty.from,
    decreases n,
{
    if k + 1 < n {
        first_parameter_decides(params, n - 1, k);
    }
}

/// A complaint about a method points at what is wrong with it: at its name where that is
/// taken or its Java name is empty or its return type is missing, at the token that gives
/// the Java name where that is taken, and else at the type that does not fit, the first
/// such parameter before the return type.
pub proof fn method_complaints_point_at_their_cause(ms: Seq<MethodModel>, i: int, k: int)
    requires
        0 <= i < ms.len(),
        bind_method_fault(ms, i) is Some,
    ensures
        ({
            let m = ms[i];
            let n = m.params.len() as int;
            let e = bind_method_fault(ms, i)->0;
            let taken = exists|j: int| 0 <= j < i && (#[trigger] ms[j]).name == m.name;
            let java_taken = exists|j: int|
                0 <= j < i && java_name_of(#[trigger] ms[j]) == java_name_of(m);
            let named = !taken && java_name_of(m).len() > 0 && !java_taken;
            &&& taken || java_name_of(m).len() == 0 ==> e.at == m.name_at
            &&& !taken && java_name_of(m).len() > 0 && java_taken ==> e.at == (match m.java_name {
                Some((_, at)) => at,
                None => m.name_at,
            })
            &&& named && 0 <= k < n && bind_params_fault(m.params, k) is None && bind_params_fault(
                m.params,
                k + 1,
            ) is Some ==> e.at == m.params[k].ty.from
            &&& named && bind_params_fault(m.params, n) is None ==> e.at == (match m.ret {
                Some(t) => t.from,
                None => m.name_at,
            })
        }),
{
    let m = ms[i];
    let n = m.params.len() as int;
    if 0 <= k < n && bind_params_fault(m.params, k) is None && bind_params_fault(m.params, k + 1)
        is Some {
        first_parameter_decides(m.params, n, k);
    }
}

proof fn first_method_decides(ms: Seq<MethodModel>, n: int, i: int, slash: Seq<char>)
    requires
        0 <= i < n <= ms.len(),
        forall|j: int| 0 <= j < i ==> #[trigger] may_be_bound(ms, j),
        !may_be_bound(ms, i),
    ensures
        bind_methods(ms, n, slash) == Err::<Seq<crate::template::PartModel>, Fault>(
            bind_method_fault(ms, i)->0,
        ),
        bind_method_fault(ms, i) is Some,
    decreases n,
{
    methods_decide(ms, i);
    if i + 1 < n {
        first_method_decides(ms, n - 1, i, slash);
    } else {
        all_methods_decide(ms, i, slash);
    }
}

/// A refused `bind!` declaration is answered with the complaint about the first method that
/// may not be bound, and where there is none, about the first field; a field's complaint
/// points at its type, or at its name where that is no plain identifier.
pub proof fn first_complaints_are_reported(input: BindModel, i: int, f: FieldModel)
    ensures
        input.class.len() == 0 ==> (bind_expansion(input) matches Err(e) && e.at == 0),
        input.class.len() > 0 && 0 <= i < input.methods.len() && (forall|j: int|
            0 <= j < i ==> #[trigger] may_be_bound(input.methods, j)) && !may_be_bound(
            input.methods,
            i,
        ) ==> (bind_expansion(input) matches Err(e) && bind_method_fault(input.methods, i) == Some(
            e,
        )),
        input.class.len() > 0 && (forall|j: int|
            0 <= j < input.methods.len() ==> #[trigger] may_be_bound(input.methods, j)) && 0 <= i
            < input.fields.len() && (forall|j: int|
            0 <= j < i ==> may_be_bound_field(#[trigger] input.fields[j])) && !may_be_bound_field(
            input.fields[i],
        ) ==> (bind_expansion(input) matches Err(e) && bind_field_fault(input.fields[i]) == Some(e)),
        bind_field_fault(f) matches Some(e) ==> e.at == (if (mapped(f.ty.outline) matches Ok(t)
            && !has_void(t) && !has_self(t)) && !holds_reference(f.ty.outline) {
            f.name_at
        } else {
            f.ty.from
        }),
{
    let slash = slash_form(input.class);
    let ms = input.methods;
    if 0 <= i < ms.len() && (forall|j: int| 0 <= j < i ==> #[trigger] may_be_bound(ms, j))
        && !may_be_bound(ms, i) {
        first_method_decides(ms, ms.len() as int, i, slash);
    }
    all_methods_decide(ms, ms.len() as int, slash);
    if 0 <= i < input.fields.len() && (forall|j: int|
        0 <= j < i ==> may_be_bound_field(#[trigger] input.fields[j])) && !may_be_bound_field(
        input.fields[i],
    ) {
        first_field_decides(input.fields, input.fields.len() as int, i, slash);
    }
    if mapped(f.ty.outline) is Ok {
        accepted_types_keep_their_places(mapped(f.ty.outline)->Ok_0, f.ty.outline);
    }
}

proof fn first_field_decides(fs: Seq<FieldModel>, n: int, i: int, slash: Seq<char>)
    requires
        0 <= i < n <= fs.len(),
        forall|j: int| 0 <= j < i ==> may_be_bound_field(#[trigger] fs[j]),
        !may_be_bound_field(fs[i]),
    ensures
        bind_fields(fs, n, slash) is Err,
        bind_field_fault(fs[i]) == Some(bind_fields(fs, n, slash)->Err_0),
    decreases n,
{
    all_fields_decide(fs, i, slash);
    all_fields_decide(fs, i + 1, slash);
    if i + 1 < n {
        first_field_decides(fs, n - 1, i, slash);
    }
}

proof fn first_interface_parameter_decides(params: Seq<ParamModel>, n: int, k: int)
    requires
        0 <= k < n <= params.len(),
        forall|j: int| 0 <= j < k ==> may_be_a_parameter(#[trigger] params[j]),
        !may_be_a_parameter(params[k]),
    ensures
        interface_params_fault(params, n) is Some,
        interface_params_fault(params, n) == interface_one_param_fault(params[k]),
    decreases n,
{
    interface_parameters_decide(params, k);
    interface_parameters_decide(params, k + 1);
    if k + 1 < n {
        first_interface_parameter_decides(params, n - 1, k);
    }
}

/// A complaint about an interface method points at what is wrong with it: at its name where
/// it is static, its name is taken, its Java name is empty or the library answers it; at the
/// first parameter that does not fit, by its name or by its type; or at the return type.
pub proof fn interface_complaints_point_at_their_cause(ms: Seq<MethodModel>, i: int, k: int)
    requires
        0 <= i < ms.len(),
        interface_method_fault(ms, i) is Some,
    ensures
        ({
            let m = ms[i];
            let e = interface_method_fault(ms, i)->0;
            let taken = exists|j: int| 0 <= j < i && (#[trigger] ms[j]).name == m.name;
            let named = !m.is_static && !taken && java_name_of(m).len() > 0;
            &&& !named ==> e.at == m.name_at
            &&& named && 0 <= k < m.params.len() && (forall|j: int|
                0 <= j < k ==> may_be_a_parameter(#[trigger] m.params[j])) && !may_be_a_parameter(
                m.params[k],
            ) ==> e.at == m.params[k].name_at || e.at == m.params[k].ty.from
            &&& named && (forall|j: int|
                0 <= j < m.params.len() ==> may_be_a_parameter(#[trigger] m.params[j])) ==> e.at
                == m.name_at || (m.ret is Some && e.at == m.ret->0.from)
        }),
{
    let m = ms[i];
    let n = m.params.len() as int;
    interface_parameters_decide(m.params, n);
    if 0 <= k < n && (forall|j: int| 0 <= j < k ==> may_be_a_parameter(#[trigger] m.params[j]))
        && !may_be_a_parameter(m.params[k]) {
        first_interface_parameter_decides(m.params, n, k);
    }
}

/// A complaint about a name that is taken says which name it is.
pub proof fn taken_names_are_named(name: Seq<char>)
    ensures
        exists|rest: Seq<char>| crate::expand::duplicate_method(name) == #[trigger] (
        "duplicate method `"@ + name + rest),
        exists|rest: Seq<char>| crate::expand::duplicate_java_name(name) == #[trigger] (
        "duplicate Java method name `"@ + name + rest),
        exists|rest: Seq<char>| crate::expand_interface::interface_duplicate(name) == #[trigger] (
        "duplicate method `"@ + name + rest),
        exists|rest: Seq<char>| crate::expand_interface::plumbing_name(name) == #[trigger] (
        "parameter name `"@ + name + rest),
{
    let a = "duplicate method `"@ + name;
    let b = "duplicate Java method name `"@ + name;
    let c = "parameter name `"@ + name;
    let d = crate::expand::duplicate_method(name);
    let j = crate::expand::duplicate_java_name(name);
    let i = crate::expand_interface::interface_duplicate(name);
    let p = crate::expand_interface::plumbing_name(name);
    assert(d =~= "duplicate method `"@ + name + d.skip(a.len() as int));
    assert(j =~= "duplicate Java method name `"@ + name + j.skip(b.len() as int));
    assert(i =~= "duplicate method `"@ + name + i.skip(a.len() as int));
    assert(p =~= "parameter name `"@ + name + p.skip(c.len() as int));
}

}
