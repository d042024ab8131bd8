use vstd::prelude::*;

use crate::array::{filled, ArrayKind, Region, RegionModel, VecKind};
use crate::arguments::followed_by;
use crate::convert::{
    bare, bytes_keep_their_bits, item_value, sent_outcome, ContentsModel, DoubleBits, FloatBits,
    FromJava, Incoming, IncomingItemModel, IncomingModel, JavaArrayElement, ObjectShape, Outgoing,
    OutgoingItemModel, OutgoingModel, ReadingModel, Shape, ToJava,
};
use crate::error::{ErrorModel, JavaError};
use crate::handles::{JArray, JClass, JClassLoader, JObject};
use crate::roundtrip::units_are_code_points;
use crate::value::{arg_letter, arg_value, value_arg, JavaArg, JavaValue};
use crate::vectors::{
    all_received, bare_values, byte_args, contents, element_args, item_values, raw_args, region_of,
    sent_item, sent_items, JavaVecElement,
};

verus! {

/// An argument is handed over as the value of the same type that holds the same, and a
/// primitive that came back is passed on as itself; each type has its letter.
pub proof fn arguments_are_handed_over_unchanged(
    o: Option<u64>,
    z: bool,
    b: i8,
    c: u16,
    s: i16,
    i: i32,
    j: i64,
    f: u32,
    d: u64,
)
    ensures
        arg_value(JavaArg::Object(o)) == JavaValue::Object(o),
        arg_value(JavaArg::Bool(z)) == JavaValue::Bool(z),
        arg_value(JavaArg::Byte(b)) == JavaValue::Byte(b),
        arg_value(JavaArg::Char(c)) == JavaValue::Char(c),
        arg_value(JavaArg::Short(s)) == JavaValue::Short(s),
        arg_value(JavaArg::Int(i)) == JavaValue::Int(i),
        arg_value(JavaArg::Long(j)) == JavaValue::Long(j),
        arg_value(JavaArg::Float(f)) == JavaValue::Float(f),
        arg_value(JavaArg::Double(d)) == JavaValue::Double(d),
        value_arg(JavaValue::Void) is None,
        value_arg(JavaValue::Object(o)) is None,
        value_arg(JavaValue::Bool(z)) == Some(JavaArg::Bool(z)),
        value_arg(JavaValue::Byte(b)) == Some(JavaArg::Byte(b)),
        value_arg(JavaValue::Char(c)) == Some(JavaArg::Char(c)),
        value_arg(JavaValue::Short(s)) == Some(JavaArg::Short(s)),
        value_arg(JavaValue::Int(i)) == Some(JavaArg::Int(i)),
        value_arg(JavaValue::Long(j)) == Some(JavaArg::Long(j)),
        value_arg(JavaValue::Float(f)) == Some(JavaArg::Float(f)),
        value_arg(JavaValue::Double(d)) == Some(JavaArg::Double(d)),
        arg_letter(JavaArg::Object(o)) is None,
        arg_letter(JavaArg::Bool(z)) == Some('Z'),
        arg_letter(JavaArg::Byte(b)) == Some('B'),
        arg_letter(JavaArg::Char(c)) == Some('C'),
        arg_letter(JavaArg::Short(s)) == Some('S'),
        arg_letter(JavaArg::Int(i)) == Some('I'),
        arg_letter(JavaArg::Long(j)) == Some('J'),
        arg_letter(JavaArg::Float(f)) == Some('F'),
        arg_letter(JavaArg::Double(d)) == Some('D'),
{
}

/// A list of outgoing values shows what is in it: the content of one value, of one text or
/// of one array is that value, that text or that array, and nothing else has that content.
pub proof fn outgoing_values_are_what_they_show(
    r: Result<Vec<Outgoing>, JavaError>,
    a: JavaArg,
    s: Seq<char>,
    region: RegionModel,
)
    ensures
        sent_outcome(r) == Ok::<Seq<OutgoingModel>, ErrorModel>(seq![OutgoingModel::Arg(a)]) <==> r
            is Ok && r->Ok_0@ == seq![Outgoing::Arg(a)],
        sent_outcome(r) == Ok::<Seq<OutgoingModel>, ErrorModel>(seq![OutgoingModel::Text(s)])
            <==> r is Ok && r->Ok_0@.len() == 1 && (r->Ok_0@[0] matches Outgoing::Text(t) && t@ == s),
        sent_outcome(r) == Ok::<Seq<OutgoingModel>, ErrorModel>(
            seq![OutgoingModel::Region(region)],
        ) <==> r is Ok && r->Ok_0@.len() == 1 && (r->Ok_0@[0] matches Outgoing::Region(g) && g@
            == region),
        sent_outcome(r) == Ok::<Seq<OutgoingModel>, ErrorModel>(Seq::empty()) <==> r is Ok
            && r->Ok_0@.len() == 0,
        sent_outcome(r) is Ok <==> r is Ok,
{
    if let Ok(v) = r {
        let shown = crate::convert::outgoing_models(v@);
        if v@.len() == 1 {
            assert(shown[0] == v@[0]@);
            assert(shown =~= seq![v@[0]@]);
            assert(v@ =~= seq![v@[0]]);
        }
        assert(shown.len() == v@.len());
        if v@.len() == 0 {
            assert(shown =~= Seq::empty());
        }
        if shown == Seq::<OutgoingModel>::empty() {
            assert(shown.len() == 0);
        }
        if shown == seq![OutgoingModel::Arg(a)] {
            assert(shown.len() == 1 && shown[0] == OutgoingModel::Arg(a));
        }
        if shown == seq![OutgoingModel::Text(s)] {
            assert(shown.len() == 1 && shown[0] == OutgoingModel::Text(s));
        }
        if shown == seq![OutgoingModel::Region(region)] {
            assert(shown.len() == 1 && shown[0] == OutgoingModel::Region(region));
        }
    }
}

/// The contents of a primitive array are its elements, in order and of its type.
pub proof fn regions_hold_their_elements(r: Region)
    ensures
        match r {
            Region::Bool(v) => r@.kind == ArrayKind::Bool && r@.values.len() == v@.len() && forall|
                i: int,
            | 0 <= i < v@.len() ==> #[trigger] r@.values[i] == JavaValue::Bool(v@[i]),
            Region::Byte(v) => r@.kind == ArrayKind::Byte && r@.values.len() == v@.len() && forall|
                i: int,
            | 0 <= i < v@.len() ==> #[trigger] r@.values[i] == JavaValue::Byte(v@[i]),
            Region::Char(v) => r@.kind == ArrayKind::Char && r@.values.len() == v@.len() && forall|
                i: int,
            | 0 <= i < v@.len() ==> #[trigger] r@.values[i] == JavaValue::Char(v@[i]),
            Region::Short(v) => r@.kind == ArrayKind::Short && r@.values.len() == v@.len() && forall|
                i: int,
            | 0 <= i < v@.len() ==> #[trigger] r@.values[i] == JavaValue::Short(v@[i]),
            Region::Int(v) => r@.kind == ArrayKind::Int && r@.values.len() == v@.len() && forall|
                i: int,
            | 0 <= i < v@.len() ==> #[trigger] r@.values[i] == JavaValue::Int(v@[i]),
            Region::Long(v) => r@.kind == ArrayKind::Long && r@.values.len() == v@.len() && forall|
                i: int,
            | 0 <= i < v@.len() ==> #[trigger] r@.values[i] == JavaValue::Long(v@[i]),
            Region::Float(v) => r@.kind == ArrayKind::Float && r@.values.len() == v@.len() && forall|
                i: int,
            | 0 <= i < v@.len() ==> #[trigger] r@.values[i] == JavaValue::Float(v@[i]),
            Region::Double(v) => r@.kind == ArrayKind::Double && r@.values.len() == v@.len()
                && forall|i: int| 0 <= i < v@.len() ==> #[trigger] r@.values[i]
                == JavaValue::Double(v@[i]),
        },
{
}

/// A value that came back shows itself, and what was read of it.
pub proof fn incoming_values_are_what_they_show(v: Incoming, i: crate::convert::IncomingItem)
    ensures
        v@.value == v.value,
        v.contents matches crate::convert::Contents::Region(r) ==> v@.contents
            == ContentsModel::Region(r@),
        v.contents matches crate::convert::Contents::One(r) ==> v@.contents == ContentsModel::One(
            r@,
        ),
        v.contents matches crate::convert::Contents::Objects(items) ==> (v@.contents matches
            ContentsModel::Objects(shown) && shown.len() == items@.len() && forall|k: int|
            0 <= k < shown.len() ==> #[trigger] shown[k] == items@[k]@),
        i@.object == i.object,
        match i.reading {
            crate::convert::Reading::Nothing => i@.reading == ReadingModel::Nothing,
            crate::convert::Reading::Text(s) => i@.reading == ReadingModel::Text(s@),
            crate::convert::Reading::Failed(e) => i@.reading == ReadingModel::Failed(e@),
        },
{
}

proof fn each_element_arg<T: JavaVecElement>(v: Seq<T>, args: Seq<JavaArg>)
    requires
        args.len() == v.len(),
        forall|i: int|
            0 <= i < v.len() ==> (#[trigger] v[i]).element_arg() == Ok::<JavaArg, ErrorModel>(
                args[i],
            ),
    ensures
        element_args(v) == Ok::<Seq<JavaArg>, ErrorModel>(args),
        (forall|i: int| 0 <= i < args.len() ==> (#[trigger] args[i]) is Byte) ==> byte_args(v)
            == Ok::<Seq<JavaArg>, ErrorModel>(args),
    decreases v.len(),
{
    if v.len() > 0 {
        assert(v.last() == v[v.len() - 1]);
        assert forall|i: int| 0 <= i < v.drop_last().len() implies (
        #[trigger] v.drop_last()[i]).element_arg() == Ok::<JavaArg, ErrorModel>(
            args.drop_last()[i],
        ) by {
            assert(v.drop_last()[i] == v[i]);
        }
        each_element_arg(v.drop_last(), args.drop_last());
        assert(args.drop_last().push(args.last()) =~= args);
        if forall|i: int| 0 <= i < args.len() ==> (#[trigger] args[i]) is Byte {
            assert(args[args.len() - 1] is Byte);
            assert forall|i: int| 0 <= i < args.drop_last().len() implies (
            #[trigger] args.drop_last()[i]) is Byte by {
                assert(args[i] is Byte);
            }
        }
    } else {
        assert(args =~= Seq::empty());
    }
}

proof fn each_raw_arg<T: JavaArrayElement>(v: Seq<T>, args: Seq<JavaArg>)
    requires
        args.len() == v.len(),
        forall|i: int|
            0 <= i < v.len() ==> (#[trigger] v[i]).raw() == Ok::<JavaArg, ErrorModel>(args[i]),
    ensures
        raw_args(v) == Ok::<Seq<JavaArg>, ErrorModel>(args),
    decreases v.len(),
{
    if v.len() > 0 {
        assert(v.last() == v[v.len() - 1]);
        assert forall|i: int| 0 <= i < v.drop_last().len() implies (
        #[trigger] v.drop_last()[i]).raw() == Ok::<JavaArg, ErrorModel>(args.drop_last()[i]) by {
            assert(v.drop_last()[i] == v[i]);
        }
        each_raw_arg(v.drop_last(), args.drop_last());
        assert(args.drop_last().push(args.last()) =~= args);
    } else {
        assert(args =~= Seq::empty());
    }
}

proof fn each_item<T: JavaVecElement>(v: Seq<T>, items: Seq<OutgoingItemModel>)
    requires
        items.len() == v.len(),
        forall|i: int|
            0 <= i < v.len() ==> sent_item((#[trigger] v[i]).sent()) == Ok::<
                OutgoingItemModel,
                ErrorModel,
            >(items[i]),
    ensures
        sent_items(v) == Ok::<Seq<OutgoingItemModel>, ErrorModel>(items),
    decreases v.len(),
{
    if v.len() > 0 {
        assert(v.last() == v[v.len() - 1]);
        assert forall|i: int| 0 <= i < v.drop_last().len() implies sent_item(
            (#[trigger] v.drop_last()[i]).sent(),
        ) == Ok::<OutgoingItemModel, ErrorModel>(items.drop_last()[i]) by {
            assert(v.drop_last()[i] == v[i]);
        }
        each_item(v.drop_last(), items.drop_last());
        assert(items.drop_last().push(items.last()) =~= items);
    } else {
        assert(items =~= Seq::empty());
    }
}

/// Values that came back convert one by one and in order: if each converts, all do, to as
/// many; and the first that does not convert decides.
pub proof fn values_convert_one_by_one<T: FromJava>(
    v: Seq<IncomingModel>,
    xs: Seq<T::Content>,
    k: int,
    e: ErrorModel,
)
    requires
        0 <= k <= v.len(),
        k <= xs.len(),
        forall|i: int|
            0 <= i < k ==> T::received(#[trigger] v[i]) == Ok::<T::Content, ErrorModel>(xs[i]),
    ensures
        k == v.len() ==> all_received::<T>(v) == Ok::<Seq<T::Content>, ErrorModel>(xs.take(k)),
        k < v.len() && T::received(v[k]) == Err::<T::Content, ErrorModel>(e) ==> all_received::<T>(
            v,
        ) == Err::<Seq<T::Content>, ErrorModel>(e),
    decreases v.len(),
{
    if v.len() == 0 {
        assert(xs.take(0) =~= Seq::empty());
    } else {
        let before = v.drop_last();
        let j = if k == v.len() {
            k - 1
        } else {
            k
        };
        assert forall|i: int| 0 <= i < j implies T::received(#[trigger] before[i]) == Ok::<
            T::Content,
            ErrorModel,
        >(xs[i]) by {
            assert(before[i] == v[i]);
        }
        values_convert_one_by_one::<T>(before, xs, j, e);
        if k == v.len() {
            assert(v.last() == v[k - 1]);
            assert(xs.take(k - 1).push(xs[k - 1]) =~= xs.take(k));
        } else if k < v.len() - 1 {
            assert(before[k] == v[k]);
        } else {
            assert(v.last() == v[k]);
        }
    }
}

/// A Rust `bool` stands for the Java `boolean` that holds the same: alone, as an
/// element of an array, and in a whole vector, on the way to Java and on the way back. No
/// other Java value converts to one.
pub proof fn booleans_stand_for_themselves(x: bool, list: Vec<bool>, v: IncomingModel)
    ensures
        x.sent() == Ok::<Seq<OutgoingModel>, ErrorModel>(
            seq![OutgoingModel::Arg(JavaArg::Bool(x))],
        ),
        x.raw() == Ok::<JavaArg, ErrorModel>(JavaArg::Bool(x)),
        x.element_arg() == Ok::<JavaArg, ErrorModel>(JavaArg::Bool(x)),
        x.content() == x,
        v.value == JavaValue::Bool(x) ==> bool::received(v) == Ok::<bool, ErrorModel>(x),
        !(v.value is Bool) ==> bool::received(v) is Err,
        !bool::nullable(),
        x.arg_types() == "Z"@,
        bool::return_type() == "Z"@,
        <bool as JavaVecElement>::sig() == "Z"@,
        <bool as JavaArrayElement>::kind() == ArrayKind::Bool,
        <bool as JavaVecElement>::kind() == VecKind::Primitive(ArrayKind::Bool),
        ({
            let values = Seq::new(list@.len(), |i: int| JavaValue::Bool(list@[i]));
            let region = RegionModel { kind: ArrayKind::Bool, values };
            &&& list.sent() == Ok::<Seq<OutgoingModel>, ErrorModel>(
                seq![OutgoingModel::Region(region)],
            )
            &&& region_of(list@) == Ok::<RegionModel, ErrorModel>(region)
            &&& v.value is Object && v.value != JavaValue::Object(None) && v.contents
                == ContentsModel::Region(region) ==> Vec::<bool>::received(v) == Ok::<
                Seq<bool>,
                ErrorModel,
            >(list@)
        }),
{
    let args = Seq::new(list@.len(), |i: int| JavaArg::Bool(list@[i]));
    let values = Seq::new(list@.len(), |i: int| JavaValue::Bool(list@[i]));
    each_element_arg(list@, args);
    each_raw_arg(list@, args);
    assert(crate::array::arg_values(args) =~= values);
    let back = bare_values(values);
    assert forall|i: int| 0 <= i < back.len() implies bool::received(#[trigger] back[i]) == Ok::<
        bool,
        ErrorModel,
    >(list@[i]) by {
        assert(back[i] == bare(JavaValue::Bool(list@[i])));
    }
    values_convert_one_by_one::<bool>(back, list@, list@.len() as int, ErrorModel::InvalidArgument(Seq::empty()));
    assert(list@.take(list@.len() as int) =~= list@);
}

/// A Rust `i8` stands for the Java `byte` that holds the same: alone, as an
/// element of an array, and in a whole vector, on the way to Java and on the way back. No
/// other Java value converts to one.
pub proof fn bytes_stand_for_themselves(x: i8, list: Vec<i8>, v: IncomingModel)
    ensures
        x.sent() == Ok::<Seq<OutgoingModel>, ErrorModel>(
            seq![OutgoingModel::Arg(JavaArg::Byte(x))],
        ),
        x.raw() == Ok::<JavaArg, ErrorModel>(JavaArg::Byte(x)),
        x.element_arg() == Ok::<JavaArg, ErrorModel>(JavaArg::Byte(x)),
        x.content() == x,
        v.value == JavaValue::Byte(x) ==> i8::received(v) == Ok::<i8, ErrorModel>(x),
        !(v.value is Byte) ==> i8::received(v) is Err,
        !i8::nullable(),
        x.arg_types() == "B"@,
        i8::return_type() == "B"@,
        <i8 as JavaVecElement>::sig() == "B"@,
        <i8 as JavaArrayElement>::kind() == ArrayKind::Byte,
        <i8 as JavaVecElement>::kind() == VecKind::Primitive(ArrayKind::Byte),
        ({
            let values = Seq::new(list@.len(), |i: int| JavaValue::Byte(list@[i]));
            let region = RegionModel { kind: ArrayKind::Byte, values };
            &&& list.sent() == Ok::<Seq<OutgoingModel>, ErrorModel>(
                seq![OutgoingModel::Region(region)],
            )
            &&& region_of(list@) == Ok::<RegionModel, ErrorModel>(region)
            &&& v.value is Object && v.value != JavaValue::Object(None) && v.contents
                == ContentsModel::Region(region) ==> Vec::<i8>::received(v) == Ok::<
                Seq<i8>,
                ErrorModel,
            >(list@)
        }),
{
    let args = Seq::new(list@.len(), |i: int| JavaArg::Byte(list@[i]));
    let values = Seq::new(list@.len(), |i: int| JavaValue::Byte(list@[i]));
    each_element_arg(list@, args);
    each_raw_arg(list@, args);
    assert(crate::array::arg_values(args) =~= values);
    let back = bare_values(values);
    assert forall|i: int| 0 <= i < back.len() implies i8::received(#[trigger] back[i]) == Ok::<
        i8,
        ErrorModel,
    >(list@[i]) by {
        assert(back[i] == bare(JavaValue::Byte(list@[i])));
    }
    values_convert_one_by_one::<i8>(back, list@, list@.len() as int, ErrorModel::InvalidArgument(Seq::empty()));
    assert(list@.take(list@.len() as int) =~= list@);
}

/// A Rust `i16` stands for the Java `short` that holds the same: alone, as an
/// element of an array, and in a whole vector, on the way to Java and on the way back. No
/// other Java value converts to one.
pub proof fn shorts_stand_for_themselves(x: i16, list: Vec<i16>, v: IncomingModel)
    ensures
        x.sent() == Ok::<Seq<OutgoingModel>, ErrorModel>(
            seq![OutgoingModel::Arg(JavaArg::Short(x))],
        ),
        x.raw() == Ok::<JavaArg, ErrorModel>(JavaArg::Short(x)),
        x.element_arg() == Ok::<JavaArg, ErrorModel>(JavaArg::Short(x)),
        x.content() == x,
        v.value == JavaValue::Short(x) ==> i16::received(v) == Ok::<i16, ErrorModel>(x),
        !(v.value is Short) ==> i16::received(v) is Err,
        !i16::nullable(),
        x.arg_types() == "S"@,
        i16::return_type() == "S"@,
        <i16 as JavaVecElement>::sig() == "S"@,
        <i16 as JavaArrayElement>::kind() == ArrayKind::Short,
        <i16 as JavaVecElement>::kind() == VecKind::Primitive(ArrayKind::Short),
        ({
            let values = Seq::new(list@.len(), |i: int| JavaValue::Short(list@[i]));
            let region = RegionModel { kind: ArrayKind::Short, values };
            &&& list.sent() == Ok::<Seq<OutgoingModel>, ErrorModel>(
                seq![OutgoingModel::Region(region)],
            )
            &&& region_of(list@) == Ok::<RegionModel, ErrorModel>(region)
            &&& v.value is Object && v.value != JavaValue::Object(None) && v.contents
                == ContentsModel::Region(region) ==> Vec::<i16>::received(v) == Ok::<
                Seq<i16>,
                ErrorModel,
            >(list@)
        }),
{
    let args = Seq::new(list@.len(), |i: int| JavaArg::Short(list@[i]));
    let values = Seq::new(list@.len(), |i: int| JavaValue::Short(list@[i]));
    each_element_arg(list@, args);
    each_raw_arg(list@, args);
    assert(crate::array::arg_values(args) =~= values);
    let back = bare_values(values);
    assert forall|i: int| 0 <= i < back.len() implies i16::received(#[trigger] back[i]) == Ok::<
        i16,
        ErrorModel,
    >(list@[i]) by {
        assert(back[i] == bare(JavaValue::Short(list@[i])));
    }
    values_convert_one_by_one::<i16>(back, list@, list@.len() as int, ErrorModel::InvalidArgument(Seq::empty()));
    assert(list@.take(list@.len() as int) =~= list@);
}

/// A Rust `i32` stands for the Java `int` that holds the same: alone, as an
/// element of an array, and in a whole vector, on the way to Java and on the way back. No
/// other Java value converts to one.
pub proof fn ints_stand_for_themselves(x: i32, list: Vec<i32>, v: IncomingModel)
    ensures
        x.sent() == Ok::<Seq<OutgoingModel>, ErrorModel>(
            seq![OutgoingModel::Arg(JavaArg::Int(x))],
        ),
        x.raw() == Ok::<JavaArg, ErrorModel>(JavaArg::Int(x)),
        x.element_arg() == Ok::<JavaArg, ErrorModel>(JavaArg::Int(x)),
        x.content() == x,
        v.value == JavaValue::Int(x) ==> i32::received(v) == Ok::<i32, ErrorModel>(x),
        !(v.value is Int) ==> i32::received(v) is Err,
        !i32::nullable(),
        x.arg_types() == "I"@,
        i32::return_type() == "I"@,
        <i32 as JavaVecElement>::sig() == "I"@,
        <i32 as JavaArrayElement>::kind() == ArrayKind::Int,
        <i32 as JavaVecElement>::kind() == VecKind::Primitive(ArrayKind::Int),
        ({
            let values = Seq::new(list@.len(), |i: int| JavaValue::Int(list@[i]));
            let region = RegionModel { kind: ArrayKind::Int, values };
            &&& list.sent() == Ok::<Seq<OutgoingModel>, ErrorModel>(
                seq![OutgoingModel::Region(region)],
            )
            &&& region_of(list@) == Ok::<RegionModel, ErrorModel>(region)
            &&& v.value is Object && v.value != JavaValue::Object(None) && v.contents
                == ContentsModel::Region(region) ==> Vec::<i32>::received(v) == Ok::<
                Seq<i32>,
                ErrorModel,
            >(list@)
        }),
{
    let args = Seq::new(list@.len(), |i: int| JavaArg::Int(list@[i]));
    let values = Seq::new(list@.len(), |i: int| JavaValue::Int(list@[i]));
    each_element_arg(list@, args);
    each_raw_arg(list@, args);
    assert(crate::array::arg_values(args) =~= values);
    let back = bare_values(values);
    assert forall|i: int| 0 <= i < back.len() implies i32::received(#[trigger] back[i]) == Ok::<
        i32,
        ErrorModel,
    >(list@[i]) by {
        assert(back[i] == bare(JavaValue::Int(list@[i])));
    }
    values_convert_one_by_one::<i32>(back, list@, list@.len() as int, ErrorModel::InvalidArgument(Seq::empty()));
    assert(list@.take(list@.len() as int) =~= list@);
}

/// A Rust `i64` stands for the Java `long` that holds the same: alone, as an
/// element of an array, and in a whole vector, on the way to Java and on the way back. No
/// other Java value converts to one.
pub proof fn longs_stand_for_themselves(x: i64, list: Vec<i64>, v: IncomingModel)
    ensures
        x.sent() == Ok::<Seq<OutgoingModel>, ErrorModel>(
            seq![OutgoingModel::Arg(JavaArg::Long(x))],
        ),
        x.raw() == Ok::<JavaArg, ErrorModel>(JavaArg::Long(x)),
        x.element_arg() == Ok::<JavaArg, ErrorModel>(JavaArg::Long(x)),
        x.content() == x,
        v.value == JavaValue::Long(x) ==> i64::received(v) == Ok::<i64, ErrorModel>(x),
        !(v.value is Long) ==> i64::received(v) is Err,
        !i64::nullable(),
        x.arg_types() == "J"@,
        i64::return_type() == "J"@,
        <i64 as JavaVecElement>::sig() == "J"@,
        <i64 as JavaArrayElement>::kind() == ArrayKind::Long,
        <i64 as JavaVecElement>::kind() == VecKind::Primitive(ArrayKind::Long),
        ({
            let values = Seq::new(list@.len(), |i: int| JavaValue::Long(list@[i]));
            let region = RegionModel { kind: ArrayKind::Long, values };
            &&& list.sent() == Ok::<Seq<OutgoingModel>, ErrorModel>(
                seq![OutgoingModel::Region(region)],
            )
            &&& region_of(list@) == Ok::<RegionModel, ErrorModel>(region)
            &&& v.value is Object && v.value != JavaValue::Object(None) && v.contents
                == ContentsModel::Region(region) ==> Vec::<i64>::received(v) == Ok::<
                Seq<i64>,
                ErrorModel,
            >(list@)
        }),
{
    let args = Seq::new(list@.len(), |i: int| JavaArg::Long(list@[i]));
    let values = Seq::new(list@.len(), |i: int| JavaValue::Long(list@[i]));
    each_element_arg(list@, args);
    each_raw_arg(list@, args);
    assert(crate::array::arg_values(args) =~= values);
    let back = bare_values(values);
    assert forall|i: int| 0 <= i < back.len() implies i64::received(#[trigger] back[i]) == Ok::<
        i64,
        ErrorModel,
    >(list@[i]) by {
        assert(back[i] == bare(JavaValue::Long(list@[i])));
    }
    values_convert_one_by_one::<i64>(back, list@, list@.len() as int, ErrorModel::InvalidArgument(Seq::empty()));
    assert(list@.take(list@.len() as int) =~= list@);
}

/// A Rust `FloatBits` stands for the Java `float` that holds the same: alone, as an
/// element of an array, and in a whole vector, on the way to Java and on the way back. No
/// other Java value converts to one.
pub proof fn floats_stand_for_themselves(x: FloatBits, list: Vec<FloatBits>, v: IncomingModel)
    ensures
        x.sent() == Ok::<Seq<OutgoingModel>, ErrorModel>(
            seq![OutgoingModel::Arg(JavaArg::Float(x.0))],
        ),
        x.raw() == Ok::<JavaArg, ErrorModel>(JavaArg::Float(x.0)),
        x.element_arg() == Ok::<JavaArg, ErrorModel>(JavaArg::Float(x.0)),
        x.content() == x,
        v.value == JavaValue::Float(x.0) ==> FloatBits::received(v) == Ok::<FloatBits, ErrorModel>(x),
        !(v.value is Float) ==> FloatBits::received(v) is Err,
        !FloatBits::nullable(),
        x.arg_types() == "F"@,
        FloatBits::return_type() == "F"@,
        <FloatBits as JavaVecElement>::sig() == "F"@,
        <FloatBits as JavaArrayElement>::kind() == ArrayKind::Float,
        <FloatBits as JavaVecElement>::kind() == VecKind::Primitive(ArrayKind::Float),
        ({
            let values = Seq::new(list@.len(), |i: int| JavaValue::Float(list@[i].0));
            let region = RegionModel { kind: ArrayKind::Float, values };
            &&& list.sent() == Ok::<Seq<OutgoingModel>, ErrorModel>(
                seq![OutgoingModel::Region(region)],
            )
            &&& region_of(list@) == Ok::<RegionModel, ErrorModel>(region)
            &&& v.value is Object && v.value != JavaValue::Object(None) && v.contents
                == ContentsModel::Region(region) ==> Vec::<FloatBits>::received(v) == Ok::<
                Seq<FloatBits>,
                ErrorModel,
            >(list@)
        }),
{
    let args = Seq::new(list@.len(), |i: int| JavaArg::Float(list@[i].0));
    let values = Seq::new(list@.len(), |i: int| JavaValue::Float(list@[i].0));
    each_element_arg(list@, args);
    each_raw_arg(list@, args);
    assert(crate::array::arg_values(args) =~= values);
    let back = bare_values(values);
    assert forall|i: int| 0 <= i < back.len() implies FloatBits::received(#[trigger] back[i]) == Ok::<
        FloatBits,
        ErrorModel,
    >(list@[i]) by {
        assert(back[i] == bare(JavaValue::Float(list@[i].0)));
    }
    values_convert_one_by_one::<FloatBits>(back, list@, list@.len() as int, ErrorModel::InvalidArgument(Seq::empty()));
    assert(list@.take(list@.len() as int) =~= list@);
}

/// A Rust `DoubleBits` stands for the Java `double` that holds the same: alone, as an
/// element of an array, and in a whole vector, on the way to Java and on the way back. No
/// other Java value converts to one.
pub proof fn doubles_stand_for_themselves(x: DoubleBits, list: Vec<DoubleBits>, v: IncomingModel)
    ensures
        x.sent() == Ok::<Seq<OutgoingModel>, ErrorModel>(
            seq![OutgoingModel::Arg(JavaArg::Double(x.0))],
        ),
        x.raw() == Ok::<JavaArg, ErrorModel>(JavaArg::Double(x.0)),
        x.element_arg() == Ok::<JavaArg, ErrorModel>(JavaArg::Double(x.0)),
        x.content() == x,
        v.value == JavaValue::Double(x.0) ==> DoubleBits::received(v) == Ok::<DoubleBits, ErrorModel>(x),
        !(v.value is Double) ==> DoubleBits::received(v) is Err,
        !DoubleBits::nullable(),
        x.arg_types() == "D"@,
        DoubleBits::return_type() == "D"@,
        <DoubleBits as JavaVecElement>::sig() == "D"@,
        <DoubleBits as JavaArrayElement>::kind() == ArrayKind::Double,
        <DoubleBits as JavaVecElement>::kind() == VecKind::Primitive(ArrayKind::Double),
        ({
            let values = Seq::new(list@.len(), |i: int| JavaValue::Double(list@[i].0));
            let region = RegionModel { kind: ArrayKind::Double, values };
            &&& list.sent() == Ok::<Seq<OutgoingModel>, ErrorModel>(
                seq![OutgoingModel::Region(region)],
            )
            &&& region_of(list@) == Ok::<RegionModel, ErrorModel>(region)
            &&& v.value is Object && v.value != JavaValue::Object(None) && v.contents
                == ContentsModel::Region(region) ==> Vec::<DoubleBits>::received(v) == Ok::<
                Seq<DoubleBits>,
                ErrorModel,
            >(list@)
        }),
{
    let args = Seq::new(list@.len(), |i: int| JavaArg::Double(list@[i].0));
    let values = Seq::new(list@.len(), |i: int| JavaValue::Double(list@[i].0));
    each_element_arg(list@, args);
    each_raw_arg(list@, args);
    assert(crate::array::arg_values(args) =~= values);
    let back = bare_values(values);
    assert forall|i: int| 0 <= i < back.len() implies DoubleBits::received(#[trigger] back[i]) == Ok::<
        DoubleBits,
        ErrorModel,
    >(list@[i]) by {
        assert(back[i] == bare(JavaValue::Double(list@[i].0)));
    }
    values_convert_one_by_one::<DoubleBits>(back, list@, list@.len() as int, ErrorModel::InvalidArgument(Seq::empty()));
    assert(list@.take(list@.len() as int) =~= list@);
}

/// A Rust `u8` stands for the Java `byte` with the same bits: alone and in a whole vector,
/// on the way to Java and on the way back.
pub proof fn unsigned_bytes_keep_their_bits(x: u8, list: Vec<u8>, v: IncomingModel)
    ensures
        x.sent() == Ok::<Seq<OutgoingModel>, ErrorModel>(
            seq![OutgoingModel::Arg(JavaArg::Byte(x as i8))],
        ),
        x.element_arg() == Ok::<JavaArg, ErrorModel>(JavaArg::Byte(x as i8)),
        x.content() == x,
        v.value == JavaValue::Byte(x as i8) ==> u8::received(v) == Ok::<u8, ErrorModel>(x),
        !(v.value is Byte) ==> u8::received(v) is Err,
        !u8::nullable(),
        x.arg_types() == "B"@,
        u8::return_type() == "B"@,
        <u8 as JavaVecElement>::sig() == "B"@,
        ({
            let values = Seq::new(list@.len(), |i: int| JavaValue::Byte(list@[i] as i8));
            let region = RegionModel { kind: ArrayKind::Byte, values };
            &&& list.sent() == Ok::<Seq<OutgoingModel>, ErrorModel>(
                seq![OutgoingModel::Region(region)],
            )
            &&& v.value is Object && v.value != JavaValue::Object(None) && v.contents
                == ContentsModel::Region(region) ==> Vec::<u8>::received(v) == Ok::<
                Seq<u8>,
                ErrorModel,
            >(list@)
        }),
{
    bytes_keep_their_bits(x);
    let args = Seq::new(list@.len(), |i: int| JavaArg::Byte(list@[i] as i8));
    let values = Seq::new(list@.len(), |i: int| JavaValue::Byte(list@[i] as i8));
    assert forall|i: int| 0 <= i < list@.len() implies (#[trigger] list@[i]).element_arg() == Ok::<
        JavaArg,
        ErrorModel,
    >(args[i]) by {
        bytes_keep_their_bits(list@[i]);
    }
    each_element_arg(list@, args);
    assert(crate::array::arg_values(args) =~= values);
    let back = bare_values(values);
    assert forall|i: int| 0 <= i < back.len() implies u8::received(#[trigger] back[i]) == Ok::<
        u8,
        ErrorModel,
    >(list@[i]) by {
        bytes_keep_their_bits(list@[i]);
        assert(back[i] == bare(JavaValue::Byte(list@[i] as i8)));
    }
    values_convert_one_by_one::<u8>(back, list@, list@.len() as int, ErrorModel::InvalidArgument(Seq::empty()));
    assert(list@.take(list@.len() as int) =~= list@);
}

/// A Rust `char` stands for the Java `char` with its code point, where it has one; a
/// character beyond U+FFFF is refused, and so is half a surrogate pair.
pub proof fn characters_stand_for_their_code_points(c: char, u: u16, v: IncomingModel)
    ensures
        c as int <= 0xffff ==> {
            &&& c.sent() == Ok::<Seq<OutgoingModel>, ErrorModel>(
                seq![OutgoingModel::Arg(JavaArg::Char(c as u16))],
            )
            &&& c.raw() == Ok::<JavaArg, ErrorModel>(JavaArg::Char(c as u16))
            &&& c.element_arg() == Ok::<JavaArg, ErrorModel>(JavaArg::Char(c as u16))
            &&& v.value == JavaValue::Char(c as u16) ==> char::received(v) == Ok::<char, ErrorModel>(
                c,
            )
        },
        c as int > 0xffff ==> c.sent() is Err && c.raw() is Err && c.element_arg() is Err,
        c.content() == c,
        v.value == JavaValue::Char(u) && 0xd800 <= u <= 0xdfff ==> char::received(v) is Err,
        !(v.value is Char) ==> char::received(v) is Err,
        !char::nullable(),
        c.arg_types() == "C"@,
        char::return_type() == "C"@,
        <char as JavaVecElement>::sig() == "C"@,
        <char as JavaArrayElement>::kind() == ArrayKind::Char,
        <char as JavaVecElement>::kind() == VecKind::Primitive(ArrayKind::Char),
{
    if c as int <= 0xffff {
        units_are_code_points(c);
    }
}

/// A vector of characters is sent as the array of their code points, where each has one,
/// and comes back as it was.
pub proof fn character_arrays_hold_code_points(list: Vec<char>, v: IncomingModel)
    requires
        forall|i: int| 0 <= i < list@.len() ==> (#[trigger] list@[i]) as int <= 0xffff,
    ensures
        ({
            let values = Seq::new(list@.len(), |i: int| JavaValue::Char(list@[i] as u16));
            let region = RegionModel { kind: ArrayKind::Char, values };
            &&& list.sent() == Ok::<Seq<OutgoingModel>, ErrorModel>(
                seq![OutgoingModel::Region(region)],
            )
            &&& region_of(list@) == Ok::<RegionModel, ErrorModel>(region)
            &&& v.value is Object && v.value != JavaValue::Object(None) && v.contents
                == ContentsModel::Region(region) ==> Vec::<char>::received(v) == Ok::<
                Seq<char>,
                ErrorModel,
            >(list@)
        }),
{
    let args = Seq::new(list@.len(), |i: int| JavaArg::Char(list@[i] as u16));
    let values = Seq::new(list@.len(), |i: int| JavaValue::Char(list@[i] as u16));
    each_element_arg(list@, args);
    each_raw_arg(list@, args);
    assert(crate::array::arg_values(args) =~= values);
    let back = bare_values(values);
    assert forall|i: int| 0 <= i < back.len() implies char::received(#[trigger] back[i]) == Ok::<
        char,
        ErrorModel,
    >(list@[i]) by {
        units_are_code_points(list@[i]);
        assert(back[i] == bare(JavaValue::Char(list@[i] as u16)));
    }
    values_convert_one_by_one::<char>(back, list@, list@.len() as int, ErrorModel::InvalidArgument(Seq::empty()));
    assert(list@.take(list@.len() as int) =~= list@);
}

/// A Rust string is sent as its text, and a Java string that came back converts to its
/// text; null and every other value are refused, and a failure to read the text stands.
pub proof fn strings_stand_for_their_text(x: String, y: &str, s: Seq<char>, e: ErrorModel, v: IncomingModel)
    ensures
        x.sent() == Ok::<Seq<OutgoingModel>, ErrorModel>(seq![OutgoingModel::Text(x@)]),
        y.sent() == Ok::<Seq<OutgoingModel>, ErrorModel>(seq![OutgoingModel::Text(y@)]),
        x.content() == x@,
        String::wanted() == Shape::One(ObjectShape::Text),
        v.value is Object && v.value != JavaValue::Object(None) ==> {
            &&& v.contents == ContentsModel::One(ReadingModel::Text(s)) ==> String::received(v)
                == Ok::<Seq<char>, ErrorModel>(s)
            &&& v.contents == ContentsModel::One(ReadingModel::Failed(e)) ==> String::received(v)
                == Err::<Seq<char>, ErrorModel>(e)
        },
        !(v.value is Object) || v.value == JavaValue::Object(None) ==> String::received(v) is Err,
        !String::nullable(),
        x.arg_types() == "Ljava/lang/String;"@,
        y.arg_types() == "Ljava/lang/String;"@,
        String::return_type() == "Ljava/lang/String;"@,
        <String as JavaVecElement>::sig() == "Ljava/lang/String;"@,
        String::class() == "java.lang.String"@,
        <String as JavaVecElement>::kind() == VecKind::Object,
{
}

/// A vector of strings is sent as an array of strings with the same texts, in order, and
/// texts that were read of such an array convert to the vector.
pub proof fn string_arrays_hold_the_texts(list: Vec<String>, texts: Seq<Seq<char>>, v: IncomingModel)
    ensures
        list.sent() == Ok::<Seq<OutgoingModel>, ErrorModel>(
            seq![
                OutgoingModel::Objects {
                    class: "java.lang.String"@,
                    items: Seq::new(list@.len(), |i: int| OutgoingItemModel::Text(list@[i]@)),
                },
            ],
        ),
        v.value is Object && v.value != JavaValue::Object(None) && (v.contents matches
            ContentsModel::Objects(back) && back.len() == texts.len() && forall|i: int|
            0 <= i < back.len() ==> (#[trigger] back[i]).object is Some && back[i].reading
                == ReadingModel::Text(texts[i])) ==> Vec::<String>::received(v) == Ok::<
            Seq<Seq<char>>,
            ErrorModel,
        >(texts),
{
    let items = Seq::new(list@.len(), |i: int| OutgoingItemModel::Text(list@[i]@));
    each_item(list@, items);
    if let ContentsModel::Objects(back) = v.contents {
        if back.len() == texts.len() && forall|i: int|
            0 <= i < back.len() ==> (#[trigger] back[i]).object is Some && back[i].reading
                == ReadingModel::Text(texts[i]) {
            let values = item_values(back);
            assert forall|i: int| 0 <= i < values.len() implies String::received(
                #[trigger] values[i],
            ) == Ok::<Seq<char>, ErrorModel>(texts[i]) by {
                assert(values[i] == item_value(back[i]));
            }
            values_convert_one_by_one::<String>(values, texts, texts.len() as int, ErrorModel::InvalidArgument(Seq::empty()));
            assert(texts.take(texts.len() as int) =~= texts);
        }
    }
}

/// A handle is sent as the object that it holds, under the type that it has, and an object
/// that came back with the right shape is held by the handle; null and primitives are
/// refused.
pub proof fn handles_stand_for_their_objects<T: JavaArrayElement>(
    o: JObject,
    c: JClass,
    l: JClassLoader,
    a: JArray<T>,
    b: JArray<JObject>,
    id: u64,
    v: IncomingModel,
)
    ensures
        o.sent() == Ok::<Seq<OutgoingModel>, ErrorModel>(
            seq![OutgoingModel::Arg(JavaArg::Object(Some(o.id)))],
        ),
        c.sent() == Ok::<Seq<OutgoingModel>, ErrorModel>(
            seq![OutgoingModel::Arg(JavaArg::Object(Some(c.id)))],
        ),
        l.sent() == Ok::<Seq<OutgoingModel>, ErrorModel>(
            seq![OutgoingModel::Arg(JavaArg::Object(Some(l.id)))],
        ),
        a.sent() == Ok::<Seq<OutgoingModel>, ErrorModel>(
            seq![OutgoingModel::Arg(JavaArg::Object(Some(a.id)))],
        ),
        b.sent() == Ok::<Seq<OutgoingModel>, ErrorModel>(
            seq![OutgoingModel::Arg(JavaArg::Object(Some(b.id)))],
        ),
        o.content() == o.id && c.content() == c.id && a.content() == a.id && b.content() == b.id,
        v.value == JavaValue::Object(Some(id)) && !(v.contents matches ContentsModel::One(
            ReadingModel::Failed(_),
        )) ==> {
            &&& JObject::received(v) == Ok::<u64, ErrorModel>(id)
            &&& JClass::received(v) == Ok::<u64, ErrorModel>(id)
            &&& JArray::<T>::received(v) == Ok::<u64, ErrorModel>(id)
            &&& JArray::<JObject>::received(v) == Ok::<u64, ErrorModel>(id)
        },
        !(v.value is Object) || v.value == JavaValue::Object(None) ==> {
            &&& JObject::received(v) is Err
            &&& JClass::received(v) is Err
            &&& JArray::<T>::received(v) is Err
            &&& JArray::<JObject>::received(v) is Err
        },
        o.arg_types() == "Ljava/lang/Object;"@ && JObject::return_type() == "Ljava/lang/Object;"@,
        c.arg_types() == "Ljava/lang/Class;"@ && JClass::return_type() == "Ljava/lang/Class;"@,
        l.arg_types() == "Ljava/lang/ClassLoader;"@,
        b.arg_types() == "[Ljava/lang/Object;"@ && JArray::<JObject>::return_type()
            == "[Ljava/lang/Object;"@,
        a.arg_types() == "["@ + seq![crate::array::kind_letter(<T as JavaArrayElement>::kind())],
        JArray::<T>::return_type() == "["@ + seq![
            crate::array::kind_letter(<T as JavaArrayElement>::kind()),
        ],
        JClass::wanted() == Shape::One(ObjectShape::Class),
        JArray::<T>::wanted() == Shape::One(
            ObjectShape::PrimitiveArray(<T as JavaArrayElement>::kind()),
        ),
        JArray::<JObject>::wanted() == Shape::One(ObjectShape::ObjectArray),
{
}

/// A vector of objects is sent as the array of these objects, in order, and an array that
/// came back converts to its objects.
pub proof fn object_arrays_hold_the_objects(list: Vec<JObject>, ids: Seq<u64>, v: IncomingModel)
    ensures
        list.sent() == Ok::<Seq<OutgoingModel>, ErrorModel>(
            seq![
                OutgoingModel::Objects {
                    class: "java.lang.Object"@,
                    items: Seq::new(
                        list@.len(),
                        |i: int| OutgoingItemModel::Object(Some(list@[i].id)),
                    ),
                },
            ],
        ),
        v.value is Object && v.value != JavaValue::Object(None) && (v.contents matches
            ContentsModel::Objects(back) && back.len() == ids.len() && forall|i: int|
            0 <= i < back.len() ==> (#[trigger] back[i]).object == Some(ids[i]) && back[i].reading
                == ReadingModel::Nothing) ==> Vec::<JObject>::received(v) == Ok::<
            Seq<u64>,
            ErrorModel,
        >(ids),
{
    let items = Seq::new(list@.len(), |i: int| OutgoingItemModel::Object(Some(list@[i].id)));
    each_item(list@, items);
    if let ContentsModel::Objects(back) = v.contents {
        if back.len() == ids.len() && forall|i: int|
            0 <= i < back.len() ==> (#[trigger] back[i]).object == Some(ids[i]) && back[i].reading
                == ReadingModel::Nothing {
            let values = item_values(back);
            assert forall|i: int| 0 <= i < values.len() implies JObject::received(
                #[trigger] values[i],
            ) == Ok::<u64, ErrorModel>(ids[i]) by {
                assert(values[i] == item_value(back[i]));
            }
            values_convert_one_by_one::<JObject>(values, ids, ids.len() as int, ErrorModel::InvalidArgument(Seq::empty()));
            assert(ids.take(ids.len() as int) =~= ids);
        }
    }
}

/// `None` is sent as null and `Some` as what it holds; null comes back as `None`, and
/// anything else as what it is, in `Some`.
pub proof fn options_stand_for_null<T: ToJava + FromJava>(x: T, none: Option<T>, v: IncomingModel)
    requires
        none is None,
    ensures
        Some(x).sent() == x.sent(),
        Some(x).arg_types() == x.arg_types(),
        none.sent() == Ok::<Seq<OutgoingModel>, ErrorModel>(
            seq![OutgoingModel::Arg(JavaArg::Object(None))],
        ),
        none.arg_types() == "Ljava/lang/Object;"@,
        Some(x).content() == Some(x.content()),
        none.content() is None,
        v.value == JavaValue::Object(None) ==> Option::<T>::received(v) == Ok::<
            Option<T::Content>,
            ErrorModel,
        >(None),
        v.value != JavaValue::Object(None) ==> match T::received(v) {
            Ok(y) => Option::<T>::received(v) == Ok::<Option<T::Content>, ErrorModel>(Some(y)),
            Err(e) => Option::<T>::received(v) == Err::<Option<T::Content>, ErrorModel>(e),
        },
        Option::<T>::nullable(),
        Option::<T>::return_type() == T::return_type(),
        Option::<T>::wanted() == T::wanted(),
{
}

/// Nothing is sent for `()`, and anything that came back converts to it.
pub proof fn unit_is_nothing(v: IncomingModel)
    ensures
        ().sent() == Ok::<Seq<OutgoingModel>, ErrorModel>(Seq::empty()),
        ().arg_types() == Seq::<char>::empty(),
        <() as FromJava>::received(v) is Ok,
        <() as FromJava>::return_type() == "V"@,
{
}

/// The type of a whole vector is an array of its elements' type, and null is no vector.
pub proof fn vectors_are_arrays<T: JavaVecElement>(x: Vec<T>, v: IncomingModel)
    ensures
        x.arg_types() == "["@ + T::sig(),
        Vec::<T>::return_type() == "["@ + T::sig(),
        x.content().len() == x@.len(),
        forall|i: int| 0 <= i < x@.len() ==> #[trigger] x.content()[i] == x@[i].content(),
        !(v.value is Object) || v.value == JavaValue::Object(None) ==> Vec::<T>::received(v) is Err,
{
}

/// An array is filled with exactly the arguments, in order, where each has the element
/// type; and one argument of another type refuses the whole.
pub proof fn arrays_are_filled_in_order(kind: ArrayKind, args: Seq<JavaArg>, i: int)
    requires
        0 <= i < args.len(),
    ensures
        filled(kind, args) matches Ok(r) ==> r.kind == kind && r.values.len() == args.len()
            && r.values[i] == arg_value(args[i]),
        args[i] is Object ==> filled(kind, args) is Err,
        crate::array::stored(kind, args[i]) matches Ok(r) ==> r.kind == kind && r.values == seq![
            arg_value(args[i]),
        ],
        args[i] is Object ==> crate::array::stored(kind, args[i]) is Err,
{
    if args[i] is Object {
        assert(!crate::array::is_element(args[i], kind));
    }
}

/// Arguments stand in the order in which they were given: first what the first value
/// sends, then what the second does; and the first failure is the one that is reported.
pub proof fn arguments_keep_their_order(
    a: Seq<OutgoingModel>,
    b: Seq<OutgoingModel>,
    e: ErrorModel,
    r: Result<Seq<OutgoingModel>, ErrorModel>,
)
    ensures
        followed_by(Ok(a), Ok(b)) matches Ok(all) && all.len() == a.len() + b.len() && (forall|
            i: int,
        | 0 <= i < a.len() ==> #[trigger] all[i] == a[i]) && (forall|i: int|
            0 <= i < b.len() ==> all[a.len() + i] == #[trigger] b[i]),
        followed_by(Err(e), r) == Err::<Seq<OutgoingModel>, ErrorModel>(e),
        followed_by(Ok(a), Err(e)) == Err::<Seq<OutgoingModel>, ErrorModel>(e),
{
}

}
