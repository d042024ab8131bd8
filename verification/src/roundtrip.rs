use vstd::prelude::*;

use crate::array::{arg_values, is_element, VecKind};
use crate::convert::{
    bare, bytes_keep_their_bits, is_one_unit, is_surrogate, item_value, ContentsModel, DoubleBits, FloatBits, FromJava,
    IncomingItemModel, IncomingModel, JavaArrayElement, OutgoingItemModel, OutgoingModel,
    ReadingModel, ToJava,
};
use crate::error::ErrorModel;
use crate::handles::{JArray, JClass, JObject};
use crate::value::{arg_value, JavaArg, JavaValue};
use crate::vectors::{
    all_received, bare_values, byte_args, contents, element_args, item_values, raw_args, region_of,
    sent_item, sent_items, sent_vector, JavaVecElement,
};

verus! {

/// Whether an array element that came back is the one that was sent: a string with the
/// same text, or the same object.
pub open spec fn item_arrives(o: OutgoingItemModel, i: IncomingItemModel) -> bool {
    match o {
        OutgoingItemModel::Object(x) => i.object == x && i.reading == ReadingModel::Nothing,
        OutgoingItemModel::Text(s) => i.object is Some && i.reading == ReadingModel::Text(s),
    }
}

/// Whether a value that came back is the one that was sent: the same primitive or
/// object, a string with the same text, or an array with the same contents.
pub open spec fn arrives(o: OutgoingModel, v: IncomingModel) -> bool {
    match o {
        OutgoingModel::Arg(a) => v == bare(arg_value(a)),
        OutgoingModel::Text(s) => v.value is Object && v.value != JavaValue::Object(None)
            && v.contents == ContentsModel::One(ReadingModel::Text(s)),
        OutgoingModel::Region(r) => v.value is Object && v.value != JavaValue::Object(None)
            && v.contents == ContentsModel::Region(r),
        OutgoingModel::Objects { class, items } => {
            &&& v.value is Object && v.value != JavaValue::Object(None)
            &&& v.contents matches ContentsModel::Objects(back)
            &&& back.len() == items.len()
            &&& forall|i: int| 0 <= i < items.len() ==> item_arrives(items[i], #[trigger] back[i])
        },
    }
}

/// A type whose values come back from Java as they were sent, and are never null.
pub trait Faithful: ToJava + FromJava {
    /// What was sent is one value, and comes back as it was.
    proof fn comes_back(&self, v: IncomingModel)
        ensures
            self.sent() matches Ok(out) ==> {
                &&& out.len() == 1
                &&& arrives(out[0], v) ==> {
                    &&& Self::received(v) == Ok::<Self::Content, ErrorModel>(self.content())
                    &&& v.value != JavaValue::Object(None)
                }
            },
    ;
}

/// A type whose values come back from Java as the array elements that they were sent as.
pub trait FaithfulElement: JavaVecElement {
    /// What was stored in an array is read back from it as it was.
    proof fn element_comes_back(&self)
        ensures
            <Self as JavaVecElement>::kind() != VecKind::Object ==> (self.element_arg() matches Ok(
                a,
            ) ==> Self::received(bare(arg_value(a))) == Ok::<Self::Content, ErrorModel>(
                self.content(),
            )),
            <Self as JavaVecElement>::kind() == VecKind::Object ==> (sent_item(
                self.sent(),
            ) matches Ok(o) ==> forall|i: IncomingItemModel| #[trigger]
                item_arrives(o, i) ==> Self::received(item_value(i)) == Ok::<
                    Self::Content,
                    ErrorModel,
                >(self.content())),
    ;
}

/// An element type without a value that stands for null.
pub trait NeverNull: FaithfulElement {
    /// No value is stored in an array as null.
    proof fn never_null(&self)
        ensures
            self.element_arg() != Ok::<JavaArg, ErrorModel>(JavaArg::Object(None)),
            sent_item(self.sent()) != Ok::<OutgoingItemModel, ErrorModel>(
                OutgoingItemModel::Object(None),
            ),
    ;
}

/// A type whose values come back from Java as the primitive array elements that they were
/// stored as.
pub trait FaithfulArrayElement: JavaArrayElement {
    /// What is stored has the element type, and is read back as it was.
    proof fn array_element_comes_back(&self)
        ensures
            self.raw() matches Ok(a) ==> {
                &&& is_element(a, <Self as JavaArrayElement>::kind())
                &&& Self::received(bare(arg_value(a))) == Ok::<Self::Content, ErrorModel>(
                    self.content(),
                )
            },
    ;
}

/// A character that is one UTF-16 code unit is the character of that unit.
pub proof fn units_are_code_points(c: char)
    requires
        is_one_unit(c),
    ensures
        !is_surrogate(c as u16),
        (c as u16) as char == c,
{
    assert((c as u16) as int == c as int);
    assert(((c as u16) as char) as int == c as int);
}

impl Faithful for bool {
    proof fn comes_back(&self, v: IncomingModel) {
    }
}

impl Faithful for i8 {
    proof fn comes_back(&self, v: IncomingModel) {
    }
}

impl Faithful for i16 {
    proof fn comes_back(&self, v: IncomingModel) {
    }
}

impl Faithful for i32 {
    proof fn comes_back(&self, v: IncomingModel) {
    }
}

impl Faithful for i64 {
    proof fn comes_back(&self, v: IncomingModel) {
    }
}

impl Faithful for u8 {
    proof fn comes_back(&self, v: IncomingModel) {
        bytes_keep_their_bits(*self);
    }
}

impl Faithful for char {
    proof fn comes_back(&self, v: IncomingModel) {
        if is_one_unit(*self) {
            units_are_code_points(*self);
        }
    }
}

impl Faithful for FloatBits {
    proof fn comes_back(&self, v: IncomingModel) {
    }
}

impl Faithful for DoubleBits {
    proof fn comes_back(&self, v: IncomingModel) {
    }
}

impl Faithful for String {
    proof fn comes_back(&self, v: IncomingModel) {
    }
}

impl Faithful for JObject {
    proof fn comes_back(&self, v: IncomingModel) {
    }
}

impl Faithful for JClass {
    proof fn comes_back(&self, v: IncomingModel) {
    }
}

impl<T: JavaArrayElement> Faithful for JArray<T> {
    proof fn comes_back(&self, v: IncomingModel) {
    }
}

impl Faithful for JArray<JObject> {
    proof fn comes_back(&self, v: IncomingModel) {
    }
}

impl FaithfulElement for bool {
    proof fn element_comes_back(&self) {
    }
}

impl FaithfulElement for i8 {
    proof fn element_comes_back(&self) {
    }
}

impl FaithfulElement for i16 {
    proof fn element_comes_back(&self) {
    }
}

impl FaithfulElement for i32 {
    proof fn element_comes_back(&self) {
    }
}

impl FaithfulElement for i64 {
    proof fn element_comes_back(&self) {
    }
}

impl FaithfulElement for u8 {
    proof fn element_comes_back(&self) {
        bytes_keep_their_bits(*self);
    }
}

impl FaithfulElement for char {
    proof fn element_comes_back(&self) {
        if is_one_unit(*self) {
            units_are_code_points(*self);
        }
    }
}

impl FaithfulElement for FloatBits {
    proof fn element_comes_back(&self) {
    }
}

impl FaithfulElement for DoubleBits {
    proof fn element_comes_back(&self) {
    }
}

impl FaithfulElement for String {
    proof fn element_comes_back(&self) {
    }
}

impl FaithfulElement for JObject {
    proof fn element_comes_back(&self) {
    }
}

impl FaithfulElement for JClass {
    proof fn element_comes_back(&self) {
    }
}

impl<T: JavaArrayElement> FaithfulElement for JArray<T> {
    proof fn element_comes_back(&self) {
    }
}

impl FaithfulElement for JArray<JObject> {
    proof fn element_comes_back(&self) {
    }
}

impl NeverNull for bool {
    proof fn never_null(&self) {
    }
}

impl NeverNull for i8 {
    proof fn never_null(&self) {
    }
}

impl NeverNull for i16 {
    proof fn never_null(&self) {
    }
}

impl NeverNull for i32 {
    proof fn never_null(&self) {
    }
}

impl NeverNull for i64 {
    proof fn never_null(&self) {
    }
}

impl NeverNull for u8 {
    proof fn never_null(&self) {
    }
}

impl NeverNull for char {
    proof fn never_null(&self) {
    }
}

impl NeverNull for FloatBits {
    proof fn never_null(&self) {
    }
}

impl NeverNull for DoubleBits {
    proof fn never_null(&self) {
    }
}

impl NeverNull for String {
    proof fn never_null(&self) {
    }
}

impl NeverNull for JObject {
    proof fn never_null(&self) {
    }
}

impl NeverNull for JClass {
    proof fn never_null(&self) {
    }
}

impl<T: JavaArrayElement> NeverNull for JArray<T> {
    proof fn never_null(&self) {
    }
}

impl NeverNull for JArray<JObject> {
    proof fn never_null(&self) {
    }
}

impl FaithfulArrayElement for bool {
    proof fn array_element_comes_back(&self) {
    }
}

impl FaithfulArrayElement for i8 {
    proof fn array_element_comes_back(&self) {
    }
}

impl FaithfulArrayElement for i16 {
    proof fn array_element_comes_back(&self) {
    }
}

impl FaithfulArrayElement for i32 {
    proof fn array_element_comes_back(&self) {
    }
}

impl FaithfulArrayElement for i64 {
    proof fn array_element_comes_back(&self) {
    }
}

impl FaithfulArrayElement for char {
    proof fn array_element_comes_back(&self) {
        if is_one_unit(*self) {
            units_are_code_points(*self);
        }
    }
}

impl FaithfulArrayElement for FloatBits {
    proof fn array_element_comes_back(&self) {
    }
}

impl FaithfulArrayElement for DoubleBits {
    proof fn array_element_comes_back(&self) {
    }
}

impl<T: NeverNull> FaithfulElement for Option<T> {
    proof fn element_comes_back(&self) {
        if let Some(x) = self {
            x.element_comes_back();
            x.never_null();
            if <T as JavaVecElement>::kind() == VecKind::Object {
                let back = sent_item(x.sent());
                assert forall|i: IncomingItemModel|
                    back is Ok && #[trigger] item_arrives(back->Ok_0, i) implies Self::received(
                    item_value(i),
                ) == Ok::<Self::Content, ErrorModel>(self.content()) by {
                    assert(T::received(item_value(i)) == Ok::<T::Content, ErrorModel>(x.content()));
                }
            }
        }
    }
}

proof fn elements_come_back<T: FaithfulElement>(v: Seq<T>)
    requires
        <T as JavaVecElement>::kind() != VecKind::Object,
    ensures
        element_args(v) matches Ok(args) ==> args.len() == v.len() && all_received::<T>(
            bare_values(arg_values(args)),
        ) == Ok::<Seq<T::Content>, ErrorModel>(contents(v)),
        byte_args(v) matches Ok(args) ==> args.len() == v.len() && all_received::<T>(
            bare_values(arg_values(args)),
        ) == Ok::<Seq<T::Content>, ErrorModel>(contents(v)),
    decreases v.len(),
{
    if v.len() == 0 {
        assert(bare_values(arg_values(Seq::<JavaArg>::empty())) =~= Seq::empty());
        assert(contents(v) =~= Seq::<T::Content>::empty());
    } else {
        elements_come_back(v.drop_last());
        v.last().element_comes_back();
        assert(contents(v) =~= contents(v.drop_last()).push(v.last().content()));
        if let Ok(args) = element_args(v) {
            let all = bare_values(arg_values(args));
            assert(all.drop_last() =~= bare_values(arg_values(args.drop_last())));
            assert(all.last() == bare(arg_value(args.last())));
            assert(args.drop_last() =~= element_args(v.drop_last())->Ok_0);
        }
        if let Ok(args) = byte_args(v) {
            let all = bare_values(arg_values(args));
            assert(all.drop_last() =~= bare_values(arg_values(args.drop_last())));
            assert(all.last() == bare(arg_value(args.last())));
            assert(args.drop_last() =~= byte_args(v.drop_last())->Ok_0);
        }
    }
}

proof fn items_come_back<T: FaithfulElement>(v: Seq<T>, back: Seq<IncomingItemModel>)
    requires
        <T as JavaVecElement>::kind() == VecKind::Object,
        sent_items(v) matches Ok(items) && back.len() == items.len() && forall|i: int|
            0 <= i < items.len() ==> item_arrives(items[i], #[trigger] back[i]),
    ensures
        back.len() == v.len(),
        all_received::<T>(item_values(back)) == Ok::<Seq<T::Content>, ErrorModel>(contents(v)),
    decreases v.len(),
{
    let items = sent_items(v)->Ok_0;
    if v.len() == 0 {
        assert(item_values(back) =~= Seq::empty());
        assert(contents(v) =~= Seq::<T::Content>::empty());
    } else {
        let before = sent_items(v.drop_last())->Ok_0;
        assert(items.drop_last() =~= before);
        assert forall|i: int| 0 <= i < before.len() implies item_arrives(
            before[i],
            #[trigger] back.drop_last()[i],
        ) by {
            assert(item_arrives(items[i], back[i]));
        }
        items_come_back(v.drop_last(), back.drop_last());
        v.last().element_comes_back();
        assert(item_arrives(items.last(), back.last()));
        assert(item_values(back).drop_last() =~= item_values(back.drop_last()));
        assert(item_values(back).last() == item_value(back.last()));
        assert(contents(v) =~= contents(v.drop_last()).push(v.last().content()));
    }
}

/// A value comes back from Java as it was sent.
pub proof fn values_come_back<T: Faithful>(x: T, v: IncomingModel)
    requires
        x.sent() matches Ok(out) && out.len() == 1 && arrives(out[0], v),
    ensures
        T::received(v) == Ok::<T::Content, ErrorModel>(x.content()),
{
    x.comes_back(v);
}

/// An optional value comes back as it was sent: absent as null, and present as itself.
pub proof fn options_come_back<T: Faithful>(x: Option<T>, v: IncomingModel)
    requires
        x.sent() matches Ok(out) && out.len() == 1 && arrives(out[0], v),
    ensures
        Option::<T>::received(v) == Ok::<Option<T::Content>, ErrorModel>(x.content()),
{
    if let Some(y) = x {
        y.comes_back(v);
    }
}

/// A vector comes back as it was sent: every element, in order.
pub proof fn vectors_come_back<T: FaithfulElement>(x: Vec<T>, v: IncomingModel)
    requires
        x.sent() matches Ok(out) && arrives(out[0], v),
    ensures
        Vec::<T>::received(v) == Ok::<Seq<<T as FromJava>::Content>, ErrorModel>(contents(x@)),
{
    let out = x.sent()->Ok_0;
    assert(out[0] == sent_vector(x@)->Ok_0);
    match <T as JavaVecElement>::kind() {
        VecKind::Object => {
            let back = v.contents->Objects_0;
            items_come_back(x@, back);
        },
        _ => {
            elements_come_back(x@);
        },
    }
}

proof fn raw_elements_come_back<T: FaithfulArrayElement>(v: Seq<T>)
    ensures
        raw_args(v) matches Ok(args) ==> {
            &&& args.len() == v.len()
            &&& forall|i: int|
                0 <= i < args.len() ==> is_element(
                    #[trigger] args[i],
                    <T as JavaArrayElement>::kind(),
                )
            &&& all_received::<T>(bare_values(arg_values(args))) == Ok::<
                Seq<T::Content>,
                ErrorModel,
            >(contents(v))
        },
    decreases v.len(),
{
    if v.len() == 0 {
        assert(bare_values(arg_values(Seq::<JavaArg>::empty())) =~= Seq::empty());
        assert(contents(v) =~= Seq::<T::Content>::empty());
    } else {
        raw_elements_come_back(v.drop_last());
        v.last().array_element_comes_back();
        assert(contents(v) =~= contents(v.drop_last()).push(v.last().content()));
        if let Ok(args) = raw_args(v) {
            let before = raw_args(v.drop_last())->Ok_0;
            let all = bare_values(arg_values(args));
            assert(args.drop_last() =~= before);
            assert(all.drop_last() =~= bare_values(arg_values(before)));
            assert(all.last() == bare(arg_value(args.last())));
            assert forall|i: int| 0 <= i < args.len() implies is_element(
                #[trigger] args[i],
                <T as JavaArrayElement>::kind(),
            ) by {
                if i < before.len() {
                    assert(args[i] == before[i]);
                }
            }
        }
    }
}

/// An array is made of elements that can all be stored, and reading it gives them back in
/// order.
pub proof fn arrays_come_back<T: FaithfulArrayElement>(v: Seq<T>)
    ensures
        raw_args(v) is Ok <==> region_of(v) is Ok,
        region_of(v) matches Ok(r) ==> r.kind == <T as JavaArrayElement>::kind() && all_received::<
            T,
        >(bare_values(r.values)) == Ok::<Seq<T::Content>, ErrorModel>(contents(v)),
{
    raw_elements_come_back(v);
}

}
