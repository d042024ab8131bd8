use vstd::prelude::*;

use crate::declarations::{fragment_list, fragments_are_joined};
use crate::expand::{
    bind_expansion, bind_field_fault, bind_fields, bind_method_fault, bind_methods, bind_sig,
    bound_class, class_doc, field_item, mapped_use, method_item, param_decls, param_names,
    param_types, slash_form,
};
use crate::expand_interface::{
    bare_names, binary_literals, conversion, conversions, implemented_interface,
    interface_expansion, interface_method_fault, interface_methods, method_arm, method_trait_item,
    param_binaries, trait_doc,
};
use crate::expand_native::{
    c_params, c_pushes, c_type, default_of, derived_async, explicit_expansion, native_expansion,
    return_conversion, return_default, return_type, variant_of,
};
use crate::grammar::{
    BindModel, Fault, FieldModel, InputModel, InterfaceModel, MethodModel, ParamModel,
};
use crate::mapping::{binary, fragment, Mapped};
use crate::signature::{
    descriptor, fragments, is_type_text, parsed_descriptors_are_well_formed, signature_of,
    type_of_text, types_of_texts, unit_limit, units, Kind, TypeModel,
};
use crate::template::PartModel;
use crate::text::{camel, concat, joined, lowercase, numeral, replaced};

verus! {

/// The entries, each with a comma behind it, in parentheses: a tuple in Rust.
pub open spec fn tuple_of(entries: Seq<Seq<char>>) -> Seq<char> {
    "("@ + concat(Seq::new(entries.len(), |i: int| entries[i] + ", "@)) + ")"@
}

/// The declared names of the parameters, in order.
pub open spec fn declared_names(params: Seq<ParamModel>) -> Seq<Seq<char>> {
    Seq::new(params.len(), |i: int| params[i].name)
}

/// The declared types of the parameters, in order.
pub open spec fn declared_types(params: Seq<ParamModel>) -> Seq<Seq<char>> {
    Seq::new(params.len(), |i: int| params[i].ty.text)
}

proof fn names_are_listed(params: Seq<ParamModel>, k: int)
    requires
        0 <= k <= params.len(),
    ensures
        param_names(params, k) == "("@ + concat(
            Seq::new(k as nat, |i: int| params[i].name + ", "@),
        ),
    decreases k,
{
    let all = Seq::new(k as nat, |i: int| params[i].name + ", "@);
    if k > 0 {
        names_are_listed(params, k - 1);
        assert(all.drop_last() =~= Seq::new((k - 1) as nat, |i: int| params[i].name + ", "@));
        assert(param_names(params, k) =~= "("@ + (concat(all.drop_last()) + all.last()));
    } else {
        assert("("@ + concat(all) =~= "("@);
    }
}

proof fn types_are_listed(params: Seq<ParamModel>, k: int)
    requires
        0 <= k <= params.len(),
    ensures
        param_types(params, k) == "("@ + concat(
            Seq::new(k as nat, |i: int| params[i].ty.text + ", "@),
        ),
    decreases k,
{
    let all = Seq::new(k as nat, |i: int| params[i].ty.text + ", "@);
    if k > 0 {
        types_are_listed(params, k - 1);
        assert(all.drop_last() =~= Seq::new((k - 1) as nat, |i: int| params[i].ty.text + ", "@));
        assert(param_types(params, k) =~= "("@ + (concat(all.drop_last()) + all.last()));
    } else {
        assert("("@ + concat(all) =~= "("@);
    }
}

proof fn declarations_are_listed(params: Seq<ParamModel>, k: int)
    requires
        0 <= k <= params.len(),
    ensures
        param_decls(params, k) == joined(
            Seq::new(k as nat, |i: int| params[i].name + ": "@ + params[i].ty.text),
            ", "@,
        ),
    decreases k,
{
    let all = Seq::new(k as nat, |i: int| params[i].name + ": "@ + params[i].ty.text);
    if k > 0 {
        declarations_are_listed(params, k - 1);
        assert(all.drop_last() =~= Seq::new(
            (k - 1) as nat,
            |i: int| params[i].name + ": "@ + params[i].ty.text,
        ));
        let p = params[k - 1];
        if k == 1 {
            assert(param_decls(params, 0) =~= Seq::empty());
            assert(param_decls(params, k) =~= p.name + ": "@ + p.ty.text);
            assert(joined(all, ", "@) == all[0]);
        } else {
            assert(param_decls(params, k) =~= joined(all.drop_last(), ", "@) + ", "@ + all.last());
        }
    }
}

/// The names of the parameters of a method, as the arguments of its call, are as many as
/// the parameters, each in its place; so are the types, and the declarations.
pub proof fn parameters_keep_their_places(params: Seq<ParamModel>)
    ensures
        param_names(params, params.len() as int) + ")"@ == tuple_of(declared_names(params)),
        param_types(params, params.len() as int) + ")"@ == tuple_of(declared_types(params)),
        param_decls(params, params.len() as int) == joined(
            Seq::new(params.len(), |i: int| params[i].name + ": "@ + params[i].ty.text),
            ", "@,
        ),
        declared_names(params).len() == params.len(),
        declared_types(params).len() == params.len(),
        forall|i: int|
            0 <= i < params.len() ==> #[trigger] declared_names(params)[i] == params[i].name,
        forall|i: int|
            0 <= i < params.len() ==> #[trigger] declared_types(params)[i] == params[i].ty.text,
{
    let n = params.len() as int;
    names_are_listed(params, n);
    types_are_listed(params, n);
    declarations_are_listed(params, n);
    let names = declared_names(params);
    let types = declared_types(params);
    assert(Seq::new(names.len(), |i: int| names[i] + ", "@) =~= Seq::new(
        n as nat,
        |i: int| params[i].name + ", "@,
    ));
    assert(Seq::new(types.len(), |i: int| types[i] + ", "@) =~= Seq::new(
        n as nat,
        |i: int| params[i].ty.text + ", "@,
    ));
}

/// The descriptor of a bound method holds the fragments of its parameters, each in its
/// place, and the fragment of its return type behind them.
pub proof fn descriptors_follow_the_parameters(m: MethodModel, slash: Seq<char>)
    ensures
        bind_sig(m, slash) == "("@ + concat(
            Seq::new(m.params.len(), |i: int| fragment(mapped_use(m.params[i].ty)->Ok_0, slash)),
        ) + ")"@ + fragment(mapped_use(m.ret->0)->Ok_0, slash),
{
    let n = m.params.len() as int;
    fragments_are_joined(m.params, n, slash);
    assert(fragment_list(m.params, slash).take(n) =~= Seq::new(
        m.params.len(),
        |i: int| fragment(mapped_use(m.params[i].ty)->Ok_0, slash),
    ));
}

proof fn lengths_of_methods(ms: Seq<MethodModel>, k: int, slash: Seq<char>)
    requires
        bind_methods(ms, k, slash) is Ok,
    ensures
        bind_methods(ms, k, slash)->Ok_0.len() == (if k <= 0 {
            0
        } else {
            17 * k
        }),
    decreases k,
{
    if k > 0 {
        lengths_of_methods(ms, k - 1, slash);
        assert(method_item(ms[k - 1], slash).len() == 17);
    }
}

#[verifier::rlimit(50)]
#[verifier::spinoff_prover]
proof fn methods_are_laid_out(ms: Seq<MethodModel>, k: int, i: int, slash: Seq<char>)
    requires
        0 <= i < k <= ms.len(),
        bind_methods(ms, k, slash) is Ok,
    ensures
        bind_methods(ms, k, slash)->Ok_0.len() == 17 * k,
        bind_methods(ms, k, slash)->Ok_0.subrange(17 * i, 17 * i + 17) == method_item(
            ms[i],
            slash,
        ),
        bind_method_fault(ms, i) is None,
    decreases k,
{
    lengths_of_methods(ms, k - 1, slash);
    lengths_of_methods(ms, k, slash);
    let before = bind_methods(ms, k - 1, slash)->Ok_0;
    let item = method_item(ms[k - 1], slash);
    assert(bind_methods(ms, k, slash)->Ok_0 == before + item);
    ends_stay_in_order(before, item, 17 * i, 17 * i + 17);
    if i < k - 1 {
        methods_are_laid_out(ms, k - 1, i, slash);
    }
}

/// How many parts the accessors of a field take: those of a `bool` instance field name no
/// type.
pub open spec fn accessor_parts(f: FieldModel) -> int {
    if !f.is_static && mapped_use(f.ty)->Ok_0 == Mapped::Prim('Z') {
        13
    } else {
        21
    }
}

/// How many parts the accessors of the first `k` fields take.
pub open spec fn parts_before(fs: Seq<FieldModel>, k: int) -> int
    decreases k,
{
    if k <= 0 {
        0
    } else {
        parts_before(fs, k - 1) + accessor_parts(fs[k - 1])
    }
}

#[verifier::rlimit(50)]
#[verifier::spinoff_prover]
proof fn fields_are_laid_out(fs: Seq<FieldModel>, k: int, i: int, slash: Seq<char>)
    requires
        0 <= i < k <= fs.len(),
        bind_fields(fs, k, slash) is Ok,
    ensures
        bind_fields(fs, k, slash)->Ok_0.len() == parts_before(fs, k),
        0 <= parts_before(fs, i),
        parts_before(fs, i) + accessor_parts(fs[i]) <= parts_before(fs, k),
        bind_fields(fs, k, slash)->Ok_0.subrange(
            parts_before(fs, i),
            parts_before(fs, i) + accessor_parts(fs[i]),
        ) == field_item(fs[i], slash),
        bind_field_fault(fs[i]) is None,
    decreases k,
{
    let before = bind_fields(fs, k - 1, slash)->Ok_0;
    let all = bind_fields(fs, k, slash)->Ok_0;
    let item = field_item(fs[k - 1], slash);
    assert(all == before + item);
    assert(item.len() == accessor_parts(fs[k - 1]));
    fields_have_lengths(fs, k - 1, slash);
    let from = parts_before(fs, i);
    ends_stay_in_order(before, item, from, from + accessor_parts(fs[i]));
    if i < k - 1 {
        fields_are_laid_out(fs, k - 1, i, slash);
    }
}

proof fn fields_have_lengths(fs: Seq<FieldModel>, k: int, slash: Seq<char>)
    requires
        bind_fields(fs, k, slash) is Ok,
    ensures
        bind_fields(fs, k, slash)->Ok_0.len() == parts_before(fs, k),
        parts_before(fs, k) >= 0,
    decreases k,
{
    if k > 0 {
        fields_have_lengths(fs, k - 1, slash);
        assert(field_item(fs[k - 1], slash).len() == accessor_parts(fs[k - 1]));
    }
}

/// Whether these parts are a function of the declared name, with the declared parameters and
/// return type, that calls the Java method under its Java name and descriptor and hands over
/// the parameters in order.
pub open spec fn calls_its_java_method(
    item: Seq<PartModel>,
    m: MethodModel,
    slash: Seq<char>,
) -> bool {
    let ret = m.ret->0;
    let place = if m.is_static {
        "static"@
    } else {
        "instance"@
    };
    let tuple = tuple_of(declared_types(m.params));
    let java_name = match m.java_name {
        Some((name, _)) => name,
        None => m.name,
    };
    let sig = "("@ + concat(
        Seq::new(m.params.len(), |k: int| fragment(mapped_use(m.params[k].ty)->Ok_0, slash)),
    ) + ")"@ + fragment(mapped_use(ret)->Ok_0, slash);
    &&& item.len() == 17
    &&& item[0] == PartModel::Code("# [ doc = "@)
    &&& item[1] == PartModel::Literal(
        if java_name == m.name {
            "Calls the Java "@ + place + " method `"@ + m.name + "` with JNI signature `"@ + sig
                + "`."@
        } else {
            "Calls the Java "@ + place + " method `"@ + java_name + "` (bound as `"@ + m.name
                + "` via `[java_name = \""@ + java_name + "\"]`) with JNI signature `"@ + sig + "`."@
        },
    )
    &&& item[2] == PartModel::Code(" ] pub fn "@)
    &&& item[3] == PartModel::Code(m.name)
    &&& item[4] == PartModel::Code(
        if m.is_static {
            " ( java : & :: rjava :: Java , "@
        } else {
            " ( & self , "@
        },
    )
    &&& item[5] == PartModel::Code(
        joined(
            Seq::new(m.params.len(), |k: int| m.params[k].name + ": "@ + m.params[k].ty.text),
            ", "@,
        ),
    )
    &&& item[6] == PartModel::Code(" ) -> :: rjava :: JavaResult < "@)
    &&& item[7] == PartModel::Code(ret.text)
    &&& item[8] == PartModel::Code(" > { "@)
    &&& item[9] == PartModel::Code(
        if mapped_use(ret)->Ok_0 is SelfRef {
            ":: rjava :: bind :: "@ + place + "_self :: < Self , "@ + tuple + " >"@
        } else {
            ":: rjava :: bind :: "@ + place + "_method :: < Self , "@ + ret.text + " , "@ + tuple
                + " >"@
        },
    )
    &&& item[10] == PartModel::Code(
        if m.is_static {
            " ( java , "@
        } else {
            " ( & self . java , & self . obj , "@
        },
    )
    &&& item[11] == PartModel::Literal(java_name)
    &&& item[12] == PartModel::Code(
        " , :: rjava :: jni :: jni_sig ! ( jni = :: rjava :: jni , sig = "@,
    )
    &&& item[13] == PartModel::Literal(sig)
    &&& item[14] == PartModel::Code(" ) , "@)
    &&& item[15] == PartModel::Code(tuple_of(declared_names(m.params)))
    &&& item[16] == PartModel::Code(" ) } "@)
}

proof fn items_call_their_java_method(m: MethodModel, slash: Seq<char>)
    ensures
        calls_its_java_method(method_item(m, slash), m, slash),
{
    parameters_keep_their_places(m.params);
    descriptors_follow_the_parameters(m, slash);
}

proof fn middles_stay_in_order(
    head: Seq<PartModel>,
    first: Seq<PartModel>,
    second: Seq<PartModel>,
    tail: Seq<PartModel>,
    from: int,
    to: int,
)
    ensures
        0 <= from <= to <= first.len() ==> (head + (first + second) + tail).subrange(
            head.len() + from,
            head.len() + to,
        ) == first.subrange(from, to),
        0 <= from <= to <= second.len() ==> (head + (first + second) + tail).subrange(
            head.len() + first.len() + from,
            head.len() + first.len() + to,
        ) == second.subrange(from, to),
{
    let all = head + (first + second) + tail;
    let n = head.len() as int;
    let k = first.len() as int;
    if 0 <= from <= to <= first.len() {
        assert(all.subrange(n + from, n + to) =~= first.subrange(from, to));
    }
    if 0 <= from <= to <= second.len() {
        assert(all.subrange(n + k + from, n + k + to) =~= second.subrange(from, to));
    }
}

/// What stands before the items of a bound class, and what stands behind them.
spec fn around_items(doc: Seq<char>, wrapper: Seq<char>, slash: Seq<char>) -> (
    Seq<PartModel>,
    Seq<PartModel>,
) {
    let bare = bound_class(doc, wrapper, Seq::empty(), slash);
    (bare.take(7), bare.skip(7))
}

proof fn items_stand_inside(
    doc: Seq<char>,
    wrapper: Seq<char>,
    items: Seq<PartModel>,
    slash: Seq<char>,
)
    ensures
        ({
            let (head, tail) = around_items(doc, wrapper, slash);
            &&& head.len() == 7 && tail.len() == 7
            &&& bound_class(doc, wrapper, items, slash) == head + items + tail
        }),
{
    let (head, tail) = around_items(doc, wrapper, slash);
    assert(bound_class(doc, wrapper, items, slash) =~= head + items + tail);
}

#[verifier::rlimit(50)]
#[verifier::spinoff_prover]
proof fn method_items_stand_in_order(input: BindModel, parts: Seq<PartModel>, i: int)
    requires
        bind_expansion(input) == Ok::<Seq<PartModel>, Fault>(parts),
        0 <= i < input.methods.len(),
    ensures
        7 + 17 * i + 17 <= parts.len(),
        input.methods[i].ret is Some,
        parts.subrange(7 + 17 * i, 7 + 17 * i + 17) == method_item(
            input.methods[i],
            slash_form(input.class),
        ),
{
    let slash = slash_form(input.class);
    let ms = input.methods;
    let n = ms.len() as int;
    methods_are_laid_out(ms, n, i, slash);
    let items = bind_methods(ms, n, slash)->Ok_0;
    let more = bind_fields(input.fields, input.fields.len() as int, slash)->Ok_0;
    let doc = class_doc(input.class, slash);
    items_stand_inside(doc, input.name, items + more, slash);
    let (head, tail) = around_items(doc, input.name, slash);
    middles_stay_in_order(head, items, more, tail, 17 * i, 17 * i + 17);
}

/// What an accepted `bind!` declaration expands to for the method at `i`: a function of the
/// declared name, with the declared parameters and return type, that calls the Java method
/// under its Java name and descriptor and hands over the parameters in order.
pub proof fn bound_methods_call_their_java_method(input: BindModel, parts: Seq<PartModel>, i: int)
    requires
        bind_expansion(input) == Ok::<Seq<PartModel>, Fault>(parts),
        0 <= i < input.methods.len(),
    ensures
        7 + 17 * i + 17 <= parts.len(),
        input.methods[i].ret is Some,
        calls_its_java_method(
            parts.subrange(7 + 17 * i, 7 + 17 * i + 17),
            input.methods[i],
            slash_form(input.class),
        ),
{
    method_items_stand_in_order(input, parts, i);
    items_call_their_java_method(input.methods[i], slash_form(input.class));
}

/// Whether these parts are the two accessors of a field: the getter and the setter under
/// the field's name in lower case, with the declared type, each for the Java field of the
/// declared name.
pub open spec fn accesses_its_field(item: Seq<PartModel>, f: FieldModel, slash: Seq<char>) -> bool {
    let base = PartModel::Code(lowercase(f.name));
    let ty = PartModel::Code(f.ty.text);
    let field = PartModel::Literal(f.name);
    let about = (if f.is_static {
        "static"@
    } else {
        "instance"@
    }) + " field `"@ + f.name + "` (JNI type `"@ + fragment(mapped_use(f.ty)->Ok_0, slash) + "`)."@;
    let reads = PartModel::Literal("Reads the Java "@ + about);
    let writes = PartModel::Literal("Writes the Java "@ + about);
    if f.is_static {
        &&& item.len() == 21
        &&& item[0] == PartModel::Code("# [ doc = "@)
        &&& item[1] == reads
        &&& item[2] == PartModel::Code(" ] pub fn get_static_"@)
        &&& item[3] == base
        &&& item[4] == PartModel::Code(
            " ( java : & :: rjava :: Java ) -> :: rjava :: JavaResult < "@,
        )
        &&& item[5] == ty
        &&& item[6] == PartModel::Code(" > { :: rjava :: bind :: static_field_get :: < Self , "@)
        &&& item[7] == ty
        &&& item[8] == PartModel::Code(" > ( java , "@)
        &&& item[9] == field
        &&& item[10] == PartModel::Code(" ) } # [ doc = "@)
        &&& item[11] == writes
        &&& item[12] == PartModel::Code(" ] pub fn set_static_"@)
        &&& item[13] == base
        &&& item[14] == PartModel::Code(" ( java : & :: rjava :: Java , v : "@)
        &&& item[15] == ty
        &&& item[16] == PartModel::Code(
            " ) -> :: rjava :: JavaResult < ( ) > { :: rjava :: bind :: static_field_set :: < Self , "@,
        )
        &&& item[17] == ty
        &&& item[18] == PartModel::Code(" > ( java , "@)
        &&& item[19] == field
        &&& item[20] == PartModel::Code(" , v ) } "@)
    } else if mapped_use(f.ty)->Ok_0 == Mapped::Prim('Z') {
        &&& item.len() == 13
        &&& item[0] == PartModel::Code("# [ doc = "@)
        &&& item[1] == PartModel::Literal(
            "Reads the Java instance field `"@ + f.name
                + "` — or, when the field does not exist, the bean-style accessor methods `get"@
                + camel(f.name, true) + "` / `is"@ + camel(f.name, true)
                + "` (mirroring the bean read path)."@,
        )
        &&& item[2] == PartModel::Code(" ] pub fn get_"@)
        &&& item[3] == base
        &&& item[4] == PartModel::Code(
            " ( & self ) -> :: rjava :: JavaResult < bool > { :: rjava :: bind :: instance_bool_field_get :: < Self > ( & self . java , & self . obj , "@,
        )
        &&& item[5] == field
        &&& item[6] == PartModel::Code(" ) } # [ doc = "@)
        &&& item[7] == writes
        &&& item[8] == PartModel::Code(" ] pub fn set_"@)
        &&& item[9] == base
        &&& item[10] == PartModel::Code(
            " ( & self , v : bool ) -> :: rjava :: JavaResult < ( ) > { :: rjava :: bind :: instance_field_set :: < Self , bool > ( & self . java , & self . obj , "@,
        )
        &&& item[11] == field
        &&& item[12] == PartModel::Code(" , v ) } "@)
    } else {
        &&& item.len() == 21
        &&& item[0] == PartModel::Code("# [ doc = "@)
        &&& item[1] == reads
        &&& item[2] == PartModel::Code(" ] pub fn get_"@)
        &&& item[3] == base
        &&& item[4] == PartModel::Code(" ( & self ) -> :: rjava :: JavaResult < "@)
        &&& item[5] == ty
        &&& item[6] == PartModel::Code(" > { :: rjava :: bind :: instance_field_get :: < Self , "@)
        &&& item[7] == ty
        &&& item[8] == PartModel::Code(" > ( & self . java , & self . obj , "@)
        &&& item[9] == field
        &&& item[10] == PartModel::Code(" ) } # [ doc = "@)
        &&& item[11] == writes
        &&& item[12] == PartModel::Code(" ] pub fn set_"@)
        &&& item[13] == base
        &&& item[14] == PartModel::Code(" ( & self , v : "@)
        &&& item[15] == ty
        &&& item[16] == PartModel::Code(
            " ) -> :: rjava :: JavaResult < ( ) > { :: rjava :: bind :: instance_field_set :: < Self , "@,
        )
        &&& item[17] == ty
        &&& item[18] == PartModel::Code(" > ( & self . java , & self . obj , "@)
        &&& item[19] == field
        &&& item[20] == PartModel::Code(" , v ) } "@)
    }
}

proof fn items_access_their_field(f: FieldModel, slash: Seq<char>)
    ensures
        accesses_its_field(field_item(f, slash), f, slash),
{
    let place = if f.is_static {
        "static"@
    } else {
        "instance"@
    };
    let frag = fragment(mapped_use(f.ty)->Ok_0, slash);
    let about = place + " field `"@ + f.name + "` (JNI type `"@ + frag + "`)."@;
    assert(crate::expand::read_doc(place, f.name, frag) =~= "Reads the Java "@ + about);
    assert(crate::expand::write_doc(place, f.name, frag) =~= "Writes the Java "@ + about);
}

/// What an accepted `bind!` declaration expands to for the field at `i`: a getter and a
/// setter of the declared type for the Java field of the declared name.
pub proof fn bound_fields_are_accessed(input: BindModel, parts: Seq<PartModel>, i: int)
    requires
        bind_expansion(input) == Ok::<Seq<PartModel>, Fault>(parts),
        0 <= i < input.fields.len(),
    ensures
        ({
            let from = 7 + 17 * input.methods.len() + parts_before(input.fields, i);
            let to = from + accessor_parts(input.fields[i]);
            &&& 0 <= from && to <= parts.len()
            &&& accesses_its_field(
                parts.subrange(from, to),
                input.fields[i],
                slash_form(input.class),
            )
        }),
{
    field_items_stand_in_order(input, parts, i);
    items_access_their_field(input.fields[i], slash_form(input.class));
}

#[verifier::rlimit(50)]
#[verifier::spinoff_prover]
proof fn field_items_stand_in_order(input: BindModel, parts: Seq<PartModel>, i: int)
    requires
        bind_expansion(input) == Ok::<Seq<PartModel>, Fault>(parts),
        0 <= i < input.fields.len(),
    ensures
        ({
            let from = 7 + 17 * input.methods.len() + parts_before(input.fields, i);
            let to = from + accessor_parts(input.fields[i]);
            &&& 0 <= from && to <= parts.len()
            &&& parts.subrange(from, to) == field_item(input.fields[i], slash_form(input.class))
        }),
{
    let slash = slash_form(input.class);
    let ms = input.methods;
    let fs = input.fields;
    lengths_of_methods(ms, ms.len() as int, slash);
    fields_are_laid_out(fs, fs.len() as int, i, slash);
    let items = bind_methods(ms, ms.len() as int, slash)->Ok_0;
    let more = bind_fields(fs, fs.len() as int, slash)->Ok_0;
    let doc = class_doc(input.class, slash);
    items_stand_inside(doc, input.name, items + more, slash);
    let (head, tail) = around_items(doc, input.name, slash);
    let start = parts_before(fs, i);
    middles_stay_in_order(head, items, more, tail, start, start + accessor_parts(fs[i]));
}

/// What an accepted `bind!` declaration expands to around its methods and fields: a struct
/// of the declared name that is bound to the declared class, under its name with slashes.
pub proof fn bound_classes_carry_their_names(input: BindModel, parts: Seq<PartModel>)
    requires
        bind_expansion(input) == Ok::<Seq<PartModel>, Fault>(parts),
    ensures
        parts.len() == 14 + 17 * input.methods.len() + parts_before(
            input.fields,
            input.fields.len() as int,
        ),
        parts.len() >= 14,
        parts[1] == PartModel::Literal(
            "A compile-time-typed binding for the Java class `"@ + input.class + "` (`"@
                + slash_form(input.class) + "`)."@,
        ),
        parts[2] == PartModel::Code(" ] pub struct "@),
        parts[3] == PartModel::Code(input.name),
        parts[5] == PartModel::Code(input.name),
        parts[parts.len() - 7] == PartModel::Code(
            " } impl :: rjava :: bind :: JavaBound for "@,
        ),
        parts[parts.len() - 6] == PartModel::Code(input.name),
        parts[parts.len() - 5] == PartModel::Code(" { fn class_name ( ) -> & 'static str { "@),
        parts[parts.len() - 4] == PartModel::Literal(slash_form(input.class)),
        parts[parts.len() - 2] == PartModel::Code(input.name),
        slash_form(input.class).len() == input.class.len(),
        forall|k: int| #![trigger input.class[k]]
            0 <= k < input.class.len() ==> slash_form(input.class)[k] == (if input.class[k] == '.'
                && !input.class.contains('/') {
                '/'
            } else {
                input.class[k]
            }),
{
    let slash = slash_form(input.class);
    lengths_of_methods(input.methods, input.methods.len() as int, slash);
    fields_have_lengths(input.fields, input.fields.len() as int, slash);
}

proof fn names_are_separated(params: Seq<ParamModel>, k: int)
    requires
        0 <= k <= params.len(),
    ensures
        bare_names(params, k) == joined(declared_names(params).take(k), ", "@),
    decreases k,
{
    let all = declared_names(params);
    if k > 0 {
        names_are_separated(params, k - 1);
        assert(all.take(k).drop_last() =~= all.take(k - 1));
        assert(all.take(k).last() == params[k - 1].name);
    }
}

proof fn conversions_are_listed(params: Seq<ParamModel>, k: int)
    requires
        0 <= k <= params.len(),
    ensures
        conversions(params, k) == concat(
            Seq::new(k as nat, |i: int| conversion(params[i].name, params[i].ty.text)),
        ),
    decreases k,
{
    let all = Seq::new(k as nat, |i: int| conversion(params[i].name, params[i].ty.text));
    if k > 0 {
        conversions_are_listed(params, k - 1);
        assert(all.drop_last() =~= Seq::new(
            (k - 1) as nat,
            |i: int| conversion(params[i].name, params[i].ty.text),
        ));
    }
}

/// How many parts the names of `n` types take, with commas between them.
pub open spec fn listed_parts(n: int) -> int {
    if n == 0 {
        0
    } else {
        2 * n - 1
    }
}

proof fn type_names_are_listed(bins: Seq<Seq<char>>, k: int)
    requires
        0 <= k <= bins.len(),
    ensures
        binary_literals(bins, k).len() == listed_parts(k),
        forall|i: int| #![trigger bins[i]]
            0 <= i < k ==> binary_literals(bins, k)[2 * i] == PartModel::Literal(bins[i]) && (i > 0
                ==> binary_literals(bins, k)[2 * i - 1] == PartModel::Code(", "@)),
    decreases k,
{
    if k > 1 {
        type_names_are_listed(bins, k - 1);
        let before = binary_literals(bins, k - 1);
        let all = binary_literals(bins, k);
        assert(all == before.push(PartModel::Code(", "@)).push(PartModel::Literal(bins[k - 1])));
        assert forall|i: int| #![trigger bins[i]] 0 <= i < k implies all[2 * i]
            == PartModel::Literal(bins[i]) && (i > 0 ==> all[2 * i - 1] == PartModel::Code(", "@)) by {
            if i < k - 1 {
                assert(before[2 * i] == PartModel::Literal(bins[i]));
                assert(all[2 * i] == before[2 * i]);
            }
        }
    }
}

/// Whether these parts declare the trait method of a declared one: its name, its parameters
/// behind the environment, and its return type, which is `()` where none is declared.
pub open spec fn declares_its_method(item: Seq<PartModel>, m: MethodModel) -> bool {
    let java_name = match m.java_name {
        Some((name, _)) => name,
        None => m.name,
    };
    &&& item.len() == 9
    &&& item[0] == PartModel::Code("# [ doc = "@)
    &&& item[1] == PartModel::Literal(
        if java_name == m.name {
            "Implements the Java method `"@ + m.name + "`."@
        } else {
            "Implements the Java method `"@ + java_name + "` (declared as `"@ + m.name
                + "` via `[java_name = \""@ + java_name + "\"]`)."@
        },
    )
    &&& item[2] == PartModel::Code(" ] fn "@)
    &&& item[3] == PartModel::Code(m.name)
    &&& item[4] == PartModel::Code(" ( & self , env : & mut :: rjava :: jni :: Env , "@)
    &&& item[5] == PartModel::Code(
        joined(
            Seq::new(m.params.len(), |k: int| m.params[k].name + ": "@ + m.params[k].ty.text),
            ", "@,
        ),
    )
    &&& item[6] == PartModel::Code(" ) -> :: rjava :: JavaResult < "@)
    &&& item[7] == PartModel::Code(
        match m.ret {
            Some(t) => t.text,
            None => "()"@,
        },
    )
    &&& item[8] == PartModel::Code(" > ; "@)
}

/// How many parts the dispatch arm of a method takes.
pub open spec fn arm_parts(m: MethodModel) -> int {
    10 + listed_parts(m.params.len() as int)
}

/// How many parts the dispatch arms of the first `k` methods take.
pub open spec fn arms_before(ms: Seq<MethodModel>, k: int) -> int
    decreases k,
{
    if k <= 0 {
        0
    } else {
        arms_before(ms, k - 1) + arm_parts(ms[k - 1])
    }
}

/// Whether these parts take a Java call to the declared method: where the name is the Java
/// name and the parameter types are the declared ones, each argument is converted to the
/// declared type in order, and the method is called with all of them in order.
pub open spec fn dispatches_to_its_method(arm: Seq<PartModel>, m: MethodModel) -> bool {
    let n = m.params.len() as int;
    let b = 3 + listed_parts(n);
    &&& arm.len() == arm_parts(m)
    &&& arm[1] == PartModel::Literal(
        match m.java_name {
            Some((name, _)) => name,
            None => m.name,
        },
    )
    &&& arm[2] == PartModel::Code(" if :: rjava :: interface :: param_matches ( & [ "@)
    &&& forall|i: int| #![trigger m.params[i]]
        0 <= i < n ==> arm[3 + 2 * i] == PartModel::Literal(
            binary(mapped_use(m.params[i].ty)->Ok_0),
        ) && (i > 0 ==> arm[2 + 2 * i] == PartModel::Code(", "@))
    &&& arm[b] == PartModel::Code(" ] , param_types ) => { "@)
    &&& arm[b + 1] == PartModel::Code(
        concat(
            Seq::new(
                n as nat,
                |i: int|
                    "let "@ + m.params[i].name + " = < "@ + m.params[i].ty.text
                        + " as :: rjava :: FromJava > :: from_java ( env , __args . next ( ) . expect ( \"rjava::interface: dispatch arity is guaranteed by the param_matches guard\" , ) , ) ? ; "@,
            ),
        ),
    )
    &&& arm[b + 2] == PartModel::Code("let __out = self . "@)
    &&& arm[b + 3] == PartModel::Code(m.name)
    &&& arm[b + 4] == PartModel::Code(" ( env , "@)
    &&& arm[b + 5] == PartModel::Code(joined(declared_names(m.params), ", "@))
    &&& arm[b + 6] == PartModel::Code(
        " ) ? ; let __value = :: rjava :: interface :: to_value ( env , __out ) ? ; :: std :: result :: Result :: Ok ( :: rjava :: interface :: box_value ( env , __value ) ? ) } "@,
    )
}

proof fn items_declare_their_method(m: MethodModel)
    ensures
        declares_its_method(method_trait_item(m), m),
{
    parameters_keep_their_places(m.params);
}

proof fn arms_dispatch_to_their_method(m: MethodModel)
    ensures
        dispatches_to_its_method(method_arm(m), m),
{
    let n = m.params.len() as int;
    let bins = param_binaries(m.params);
    let list = binary_literals(bins, n);
    type_names_are_listed(bins, n);
    names_are_separated(m.params, n);
    assert(declared_names(m.params).take(n) =~= declared_names(m.params));
    conversions_are_listed(m.params, n);
    assert(Seq::new(n as nat, |i: int| conversion(m.params[i].name, m.params[i].ty.text))
        =~= Seq::new(
        n as nat,
        |i: int|
            "let "@ + m.params[i].name + " = < "@ + m.params[i].ty.text
                + " as :: rjava :: FromJava > :: from_java ( env , __args . next ( ) . expect ( \"rjava::interface: dispatch arity is guaranteed by the param_matches guard\" , ) , ) ? ; "@,
    ));
    let arm = method_arm(m);
    let b = 3 + list.len() as int;
    assert(arm[b + 1] == PartModel::Code(conversions(m.params, n)));
    assert(arm[b + 3] == PartModel::Code(m.name));
    assert(arm[b + 5] == PartModel::Code(bare_names(m.params, n)));
    assert forall|i: int| #![trigger m.params[i]] 0 <= i < n implies arm[3 + 2 * i]
        == PartModel::Literal(binary(mapped_use(m.params[i].ty)->Ok_0)) && (i > 0 ==> arm[2 + 2 * i]
        == PartModel::Code(", "@)) by {
        assert(list[2 * i] == PartModel::Literal(bins[i]));
        assert(arm[3 + 2 * i] == list[2 * i]);
        if i > 0 {
            assert(arm[2 + 2 * i] == list[2 * i - 1]);
        }
    }
}

proof fn lengths_of_interface_parts(m: MethodModel)
    ensures
        method_trait_item(m).len() == 9,
        method_arm(m).len() == arm_parts(m),
        arm_parts(m) > 0,
{
    items_declare_their_method(m);
    arms_dispatch_to_their_method(m);
}

proof fn lengths_of_interface_methods(ms: Seq<MethodModel>, k: int)
    requires
        interface_methods(ms, k) is Ok,
    ensures
        interface_methods(ms, k)->Ok_0.0.len() == (if k <= 0 {
            0
        } else {
            9 * k
        }),
        interface_methods(ms, k)->Ok_0.1.len() == arms_before(ms, k),
        arms_before(ms, k) >= 0,
    decreases k,
{
    if k > 0 {
        lengths_of_interface_methods(ms, k - 1);
        lengths_of_interface_parts(ms[k - 1]);
    }
}

#[verifier::rlimit(50)]
#[verifier::spinoff_prover]
proof fn interface_methods_are_laid_out(ms: Seq<MethodModel>, k: int, i: int)
    requires
        0 <= i < k <= ms.len(),
        interface_methods(ms, k) is Ok,
    ensures
        interface_methods(ms, k)->Ok_0.0.len() == 9 * k,
        interface_methods(ms, k)->Ok_0.1.len() == arms_before(ms, k),
        0 <= arms_before(ms, i),
        arms_before(ms, i) + arm_parts(ms[i]) <= arms_before(ms, k),
        interface_methods(ms, k)->Ok_0.0.subrange(9 * i, 9 * i + 9) == method_trait_item(ms[i]),
        interface_methods(ms, k)->Ok_0.1.subrange(
            arms_before(ms, i),
            arms_before(ms, i) + arm_parts(ms[i]),
        ) == method_arm(ms[i]),
    decreases k,
{
    lengths_of_interface_methods(ms, k - 1);
    let before = interface_methods(ms, k - 1)->Ok_0;
    let all = interface_methods(ms, k)->Ok_0;
    let item = method_trait_item(ms[k - 1]);
    let arm = method_arm(ms[k - 1]);
    assert(all == (before.0 + item, before.1 + arm));
    lengths_of_interface_parts(ms[k - 1]);
    ends_stay_in_order(before.0, item, 9 * i, 9 * i + 9);
    let from = arms_before(ms, i);
    ends_stay_in_order(before.1, arm, from, from + arm_parts(ms[i]));
    if i < k - 1 {
        interface_methods_are_laid_out(ms, k - 1, i);
    }
}

proof fn ends_stay_in_order(first: Seq<PartModel>, second: Seq<PartModel>, from: int, to: int)
    ensures
        0 <= from <= to <= first.len() ==> (first + second).subrange(from, to) == first.subrange(
            from,
            to,
        ),
        from == first.len() && to == first.len() + second.len() ==> (first + second).subrange(
            from,
            to,
        ) == second,
{
    if 0 <= from <= to <= first.len() {
        assert((first + second).subrange(from, to) =~= first.subrange(from, to));
    }
    if from == first.len() && to == first.len() + second.len() {
        assert((first + second).subrange(from, to) =~= second);
    }
}

/// What stands before the trait methods, between them and the dispatch arms, and behind
/// the arms.
spec fn around_methods(doc: Seq<char>, name: Seq<char>, dotted: Seq<char>) -> (
    Seq<PartModel>,
    Seq<PartModel>,
    Seq<PartModel>,
) {
    let bare = implemented_interface(doc, name, Seq::empty(), dotted, Seq::empty());
    (bare.take(5), bare.subrange(5, 10), bare.skip(10))
}

proof fn methods_stand_inside(
    doc: Seq<char>,
    name: Seq<char>,
    items: Seq<PartModel>,
    dotted: Seq<char>,
    arms: Seq<PartModel>,
)
    ensures
        ({
            let (head, middle, tail) = around_methods(doc, name, dotted);
            &&& head.len() == 5 && middle.len() == 5 && tail.len() == 3
            &&& implemented_interface(doc, name, items, dotted, arms) == head + items + middle
                + arms + tail
        }),
{
    let (head, middle, tail) = around_methods(doc, name, dotted);
    assert(implemented_interface(doc, name, items, dotted, arms) =~= head + items + middle + arms
        + tail);
}

proof fn both_middles_stay_in_order(
    head: Seq<PartModel>,
    first: Seq<PartModel>,
    middle: Seq<PartModel>,
    second: Seq<PartModel>,
    tail: Seq<PartModel>,
    from: int,
    to: int,
)
    ensures
        0 <= from <= to <= first.len() ==> (head + first + middle + second + tail).subrange(
            head.len() + from,
            head.len() + to,
        ) == first.subrange(from, to),
        0 <= from <= to <= second.len() ==> (head + first + middle + second + tail).subrange(
            head.len() + first.len() + middle.len() + from,
            head.len() + first.len() + middle.len() + to,
        ) == second.subrange(from, to),
{
    let all = head + first + middle + second + tail;
    let n = head.len() as int;
    let k = head.len() + first.len() + middle.len();
    if 0 <= from <= to <= first.len() {
        assert(all.subrange(n + from, n + to) =~= first.subrange(from, to));
    }
    if 0 <= from <= to <= second.len() {
        assert(all.subrange(k + from, k + to) =~= second.subrange(from, to));
    }
}

/// What an accepted `interface!` declaration expands to for the method at `i`: a trait
/// method of the declared name, parameters and return type, and a dispatch arm that takes
/// the calls of the Java method to it, with every argument in its place.
pub proof fn declared_methods_are_dispatched(
    input: InterfaceModel,
    parts: Seq<PartModel>,
    i: int,
)
    requires
        interface_expansion(input) == Ok::<Seq<PartModel>, Fault>(parts),
        0 <= i < input.methods.len(),
    ensures
        5 + 9 * i + 9 <= parts.len(),
        declares_its_method(parts.subrange(5 + 9 * i, 5 + 9 * i + 9), input.methods[i]),
        ({
            let from = 10 + 9 * input.methods.len() + arms_before(input.methods, i);
            let to = from + arm_parts(input.methods[i]);
            &&& 0 <= from && to <= parts.len()
            &&& dispatches_to_its_method(parts.subrange(from, to), input.methods[i])
        }),
{
    method_parts_stand_in_order(input, parts, i);
    items_declare_their_method(input.methods[i]);
    arms_dispatch_to_their_method(input.methods[i]);
}

#[verifier::rlimit(50)]
#[verifier::spinoff_prover]
proof fn method_parts_stand_in_order(input: InterfaceModel, parts: Seq<PartModel>, i: int)
    requires
        interface_expansion(input) == Ok::<Seq<PartModel>, Fault>(parts),
        0 <= i < input.methods.len(),
    ensures
        5 + 9 * i + 9 <= parts.len(),
        parts.subrange(5 + 9 * i, 5 + 9 * i + 9) == method_trait_item(input.methods[i]),
        ({
            let from = 10 + 9 * input.methods.len() + arms_before(input.methods, i);
            let to = from + arm_parts(input.methods[i]);
            &&& 0 <= from && to <= parts.len()
            &&& parts.subrange(from, to) == method_arm(input.methods[i])
        }),
{
    let ms = input.methods;
    let n = ms.len() as int;
    interface_methods_are_laid_out(ms, n, i);
    let (items, arms) = interface_methods(ms, n)->Ok_0;
    let dotted = replaced(input.class, '/', '.');
    let doc = trait_doc(dotted);
    methods_stand_inside(doc, input.name, items, dotted, arms);
    let (head, middle, tail) = around_methods(doc, input.name, dotted);
    both_middles_stay_in_order(head, items, middle, arms, tail, 9 * i, 9 * i + 9);
    let from = arms_before(ms, i);
    both_middles_stay_in_order(head, items, middle, arms, tail, from, from + arm_parts(ms[i]));
}

/// What an accepted `interface!` declaration expands to around its methods: a trait of the
/// declared name for the Java interface of the declared class, under its name with dots.
pub proof fn interfaces_carry_their_names(input: InterfaceModel, parts: Seq<PartModel>)
    requires
        interface_expansion(input) == Ok::<Seq<PartModel>, Fault>(parts),
    ensures
        ({
            let dotted = Seq::new(
                input.class.len(),
                |k: int|
                    if input.class[k] == '/' {
                        '.'
                    } else {
                        input.class[k]
                    },
            );
            let n = 5 + 9 * input.methods.len() as int;
            &&& parts.len() == n + 5 + arms_before(input.methods, input.methods.len() as int) + 3
            &&& parts.len() >= n + 8
            &&& parts[2] == PartModel::Code(" ] pub trait "@)
            &&& parts[3] == PartModel::Code(input.name)
            &&& parts[n + 1] == PartModel::Code(input.name)
            &&& parts[n + 2] == PartModel::Code(
                " + Send + Sync { const INTERFACE_NAME : & 'static str = "@,
            )
            &&& parts[n + 3] == PartModel::Literal(dotted)
            &&& parts[parts.len() - 2] == PartModel::Literal(dotted)
        }),
{
    let ms = input.methods;
    let n = ms.len() as int;
    lengths_of_interface_methods(ms, n);
    assert(replaced(input.class, '/', '.') =~= Seq::new(
        input.class.len(),
        |k: int|
            if input.class[k] == '/' {
                '.'
            } else {
                input.class[k]
            },
    ));
}

/// Every primitive letter has its C type, the variant that carries it and its default, and
/// so have the other kinds of a return type.
pub proof fn primitives_have_their_c_types()
    ensures
        c_type('Z') == ":: rjava :: jni :: sys :: jboolean"@ && variant_of('Z') == "Bool"@,
        c_type('B') == ":: rjava :: jni :: sys :: jbyte"@ && variant_of('B') == "Byte"@,
        c_type('C') == ":: rjava :: jni :: sys :: jchar"@ && variant_of('C') == "Char"@,
        c_type('S') == ":: rjava :: jni :: sys :: jshort"@ && variant_of('S') == "Short"@,
        c_type('I') == ":: rjava :: jni :: sys :: jint"@ && variant_of('I') == "Int"@,
        c_type('J') == ":: rjava :: jni :: sys :: jlong"@ && variant_of('J') == "Long"@,
        c_type('F') == ":: rjava :: jni :: sys :: jfloat"@ && variant_of('F') == "Float"@,
        c_type('D') == ":: rjava :: jni :: sys :: jdouble"@ && variant_of('D') == "Double"@,
        default_of('Z') == "false"@,
        default_of('F') == "0.0"@ && default_of('D') == "0.0"@,
        forall|c: char|
            c == 'B' || c == 'C' || c == 'S' || c == 'I' || c == 'J' ==> #[trigger] default_of(c)
                == "0"@,
        return_type(Kind::Void) == "()"@ && return_default(Kind::Void) == "()"@,
        return_type(Kind::Ref) == ":: rjava :: jni :: sys :: jobject"@,
        return_default(Kind::Ref) == ":: std :: ptr :: null_mut ( )"@,
        forall|c: char| #[trigger] return_type(Kind::Prim(c)) == c_type(c),
        forall|c: char| #[trigger] return_default(Kind::Prim(c)) == default_of(c),
{
}

/// The declaration of the parameter at `i` of a trampoline, which is `n` and the number.
pub open spec fn declared_parameter(params: Seq<TypeModel>, i: int) -> Seq<char> {
    "n"@ + numeral(i as nat, 10) + " : "@ + (match params[i].kind {
        Kind::Prim(c) => c_type(c),
        _ => ":: rjava :: jni :: objects :: JObject < 'caller >"@,
    }) + " , "@
}

/// The statement that hands the parameter at `i` on, as the argument variant of its type.
pub open spec fn handed_parameter(params: Seq<TypeModel>, i: int) -> Seq<char> {
    "__args . push ( :: rjava :: JavaArg ::"@ + (match params[i].kind {
        Kind::Prim(c) => variant_of(c),
        _ => "Object"@,
    }) + "(n"@ + numeral(i as nat, 10) + ")); "@
}

proof fn c_parameters_are_listed(params: Seq<TypeModel>, k: int)
    requires
        0 <= k <= params.len(),
    ensures
        c_params(params, k) == concat(Seq::new(k as nat, |i: int| declared_parameter(params, i))),
        c_pushes(params, k) == concat(Seq::new(k as nat, |i: int| handed_parameter(params, i))),
    decreases k,
{
    let declared = Seq::new(k as nat, |i: int| declared_parameter(params, i));
    let handed = Seq::new(k as nat, |i: int| handed_parameter(params, i));
    if k > 0 {
        c_parameters_are_listed(params, k - 1);
        assert(declared.drop_last() =~= Seq::new(
            (k - 1) as nat,
            |i: int| declared_parameter(params, i),
        ));
        assert(handed.drop_last() =~= Seq::new(
            (k - 1) as nat,
            |i: int| handed_parameter(params, i),
        ));
        assert(c_params(params, k) =~= c_params(params, k - 1) + declared_parameter(params, k - 1));
        assert(c_pushes(params, k) =~= c_pushes(params, k - 1) + handed_parameter(params, k - 1));
    }
}

proof fn replacement_goes_part_by_part(texts: Seq<Seq<char>>)
    ensures
        concat(fragments(types_of_texts(texts))) == replaced(concat(texts), '.', '/'),
    decreases texts.len(),
{
    let all = fragments(types_of_texts(texts));
    if texts.len() == 0 {
        assert(concat(all) =~= replaced(concat(texts), '.', '/'));
    } else {
        replacement_goes_part_by_part(texts.drop_last());
        assert(all.drop_last() =~= fragments(types_of_texts(texts.drop_last())));
        assert(all.last() == replaced(texts.last(), '.', '/'));
        assert(concat(all) =~= replaced(concat(texts), '.', '/'));
    }
}

/// What a native method with an explicit signature expands to: a trampoline that takes one
/// C parameter for each parameter of the signature, hands them on in order behind the
/// receiver of an instance method, calls the given function and converts what it returns;
/// and the descriptor, under the given name and the given signature with slashes.
pub proof fn explicit_signatures_are_carried_out(
    input: InputModel,
    is_inst: bool,
    parts: Seq<PartModel>,
)
    requires
        input.sig is Some,
        native_expansion(input, is_inst) == Ok::<Seq<PartModel>, Fault>(parts),
    ensures
        signature_of(input.sig->0, is_inst) is Ok,
        ({
            let (params, ret) = signature_of(input.sig->0, is_inst)->Ok_0;
            let n = params.len();
            &&& parts.len() == 23
            &&& parts[1] == PartModel::Code(
                if is_inst {
                    "receiver : :: rjava :: jni :: objects :: JObject < 'caller > , "@
                } else {
                    "_receiver : :: rjava :: jni :: objects :: JClass < 'caller > , "@
                },
            )
            &&& parts[2] == PartModel::Code(
                concat(Seq::new(n, |i: int| declared_parameter(params, i))),
            )
            &&& parts[4] == PartModel::Code(return_type(ret.kind))
            &&& parts[6] == PartModel::Code(return_type(ret.kind))
            &&& parts[8] == PartModel::Code(
                if is_inst {
                    "__args . push ( :: rjava :: JavaArg :: Object ( receiver ) ) ; "@
                } else {
                    Seq::empty()
                },
            )
            &&& parts[9] == PartModel::Code(
                concat(Seq::new(n, |i: int| handed_parameter(params, i))),
            )
            &&& parts[10] == PartModel::Code(
                "match :: rjava :: native :: dispatch ( __env , __args , "@,
            )
            &&& parts[11] == PartModel::Code(input.f)
            &&& parts[13] == PartModel::Code(return_conversion(ret.kind))
            &&& parts[15] == PartModel::Code(return_default(ret.kind))
            &&& parts[17] == PartModel::Code(return_default(ret.kind))
            &&& parts[18] == PartModel::Code(" , } } :: rjava :: NativeMethod :: new ( "@)
            &&& parts[19] == PartModel::Literal(input.name)
            &&& parts[20] == PartModel::Code(" , "@)
            &&& parts[21] == PartModel::Literal(replaced(input.sig->0, '.', '/'))
        }),
{
    let chars = input.sig->0;
    let (params, ret) = signature_of(chars, is_inst)->Ok_0;
    c_parameters_are_listed(params, params.len() as int);
    parsed_descriptors_are_well_formed(chars, is_inst);
    let (texts, last) = choose|texts: Seq<Seq<char>>, last: Seq<char>|
        {
            &&& chars == #[trigger] descriptor(texts, last)
            &&& forall|k: int| 0 <= k < texts.len() ==> is_type_text(#[trigger] texts[k], false)
            &&& is_type_text(last, true)
            &&& units(types_of_texts(texts)) <= unit_limit(is_inst)
            &&& signature_of(chars, is_inst)->Ok_0 == (types_of_texts(texts), type_of_text(last))
        };
    replacement_goes_part_by_part(texts);
    reveal_strlit("(");
    reveal_strlit(")");
    assert(crate::expand_native::normal_sig(params, ret) =~= replaced(chars, '.', '/'));
}

/// What a native method without a signature expands to: one call, with the given name and
/// the given function.
pub proof fn derived_signatures_are_left_to_the_types(
    input: InputModel,
    name: Seq<char>,
    f: Seq<char>,
)
    requires
        input.sig is None,
    ensures
        native_expansion(input, false) == Ok::<Seq<PartModel>, Fault>(
            seq![
                PartModel::Code("( || :: rjava :: native :: make_native_static ( "@),
                PartModel::Literal(input.name),
                PartModel::Code(" , "@),
                PartModel::Code(input.f),
                PartModel::Code(" ) ) ( )"@),
            ],
        ),
        native_expansion(input, true) == Ok::<Seq<PartModel>, Fault>(
            seq![
                PartModel::Code("( || :: rjava :: native :: make_native_inst ( "@),
                PartModel::Literal(input.name),
                PartModel::Code(" , "@),
                PartModel::Code(input.f),
                PartModel::Code(" ) ) ( )"@),
            ],
        ),
        derived_async(name, f) == seq![
            PartModel::Code("( || :: rjava :: future :: make_async_native ( "@),
            PartModel::Literal(name),
            PartModel::Code(" , "@),
            PartModel::Code(f),
            PartModel::Code(" ) ) ( )"@),
        ],
{
}

}
