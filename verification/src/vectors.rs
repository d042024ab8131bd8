use vstd::prelude::*;

use crate::array::{filled, fill_primitive_array, ArrayKind, Region, RegionModel, VecKind};
use crate::convert::{
    array_type, array_type_of, bare, char_element, incoming_items, item_models, item_value, one,
    outgoing_models, sent_outcome, signed, to_signed, Contents, ContentsModel, DoubleBits,
    FloatBits, FromJava, Incoming, IncomingItem, IncomingItemModel, IncomingModel,
    JavaArrayElement, ObjectShape, Outgoing, OutgoingItem, OutgoingItemModel, OutgoingModel,
    Reading, ReadingModel, Shape, ToJava,
};
use crate::error::{misuse, ErrorModel, JavaError};
use crate::handles::{JArray, JClass, JObject};
use crate::value::{JavaArg, JavaValue};

verus! {

/// The mark of the types that a vector can be made of.
pub trait SealedVec {

}

/// The message where an element of an object array is wanted as a primitive.
pub const NO_PRIMITIVE: &'static str = "internal error: an object-array element cannot be stored in a primitive Java array";

/// The message where an array is missing.
pub const NULL_ARRAY: &'static str = "method returned null where an array was expected";

/// The message where a primitive came back in place of an array.
pub const NO_ARRAY: &'static str = "expected a Java array return value but got a primitive";

/// The message where an object came back that is another array, or no array.
pub const OTHER_ARRAY: &'static str = "the returned Java object is not an array of the annotated element type";

fn not_a_primitive_element() -> (e: JavaError)
    ensures
        e@ == misuse(NO_PRIMITIVE@),
{
    JavaError::InvalidArgument(NO_PRIMITIVE)
}

/// A Rust type that can be an element of a Java array that a whole vector converts to.
pub trait JavaVecElement: ToJava + FromJava + SealedVec {
    /// The array that a vector of such elements becomes.
    spec fn kind() -> VecKind;

    /// The JNI type fragment of one element.
    spec fn sig() -> Seq<char>;

    /// The class of the elements of an object array.
    spec fn class() -> Seq<char>;

    /// The element as a raw value, for a primitive array.
    spec fn element_arg(&self) -> Result<JavaArg, ErrorModel>;

    /// The array that a vector of such elements becomes.
    fn __vec_kind() -> (k: VecKind)
        ensures
            k == <Self as JavaVecElement>::kind(),
    ;

    /// The JNI type fragment of one element.
    fn element_sig() -> (s: String)
        ensures
            s@ == Self::sig(),
    ;

    /// The class of the elements of an object array: dotted, or an array descriptor.
    fn element_class() -> (s: String)
        ensures
            s@ == Self::class(),
    ;

    /// The element as a raw value, for a primitive array.
    fn __as_vec_element_arg(&self) -> (r: Result<JavaArg, JavaError>)
        ensures
            match r {
                Ok(a) => self.element_arg() == Ok::<JavaArg, ErrorModel>(a),
                Err(e) => self.element_arg() == Err::<JavaArg, ErrorModel>(e@),
            },
    ;
}

impl SealedVec for bool {

}

impl JavaVecElement for bool {
    open spec fn kind() -> VecKind {
        VecKind::Primitive(ArrayKind::Bool)
    }

    open spec fn sig() -> Seq<char> {
        "Z"@
    }

    open spec fn class() -> Seq<char> {
        "java.lang.Object"@
    }

    open spec fn element_arg(&self) -> Result<JavaArg, ErrorModel> {
        Ok(JavaArg::Bool(*self))
    }

    fn __vec_kind() -> (k: VecKind) {
        VecKind::Primitive(ArrayKind::Bool)
    }

    fn element_sig() -> (s: String) {
        "Z".to_owned()
    }

    fn element_class() -> (s: String) {
        "java.lang.Object".to_owned()
    }

    fn __as_vec_element_arg(&self) -> (r: Result<JavaArg, JavaError>) {
        Ok(JavaArg::Bool(*self))
    }
}

impl SealedVec for i8 {

}

impl JavaVecElement for i8 {
    open spec fn kind() -> VecKind {
        VecKind::Primitive(ArrayKind::Byte)
    }

    open spec fn sig() -> Seq<char> {
        "B"@
    }

    open spec fn class() -> Seq<char> {
        "java.lang.Object"@
    }

    open spec fn element_arg(&self) -> Result<JavaArg, ErrorModel> {
        Ok(JavaArg::Byte(*self))
    }

    fn __vec_kind() -> (k: VecKind) {
        VecKind::Primitive(ArrayKind::Byte)
    }

    fn element_sig() -> (s: String) {
        "B".to_owned()
    }

    fn element_class() -> (s: String) {
        "java.lang.Object".to_owned()
    }

    fn __as_vec_element_arg(&self) -> (r: Result<JavaArg, JavaError>) {
        Ok(JavaArg::Byte(*self))
    }
}

impl SealedVec for i16 {

}

impl JavaVecElement for i16 {
    open spec fn kind() -> VecKind {
        VecKind::Primitive(ArrayKind::Short)
    }

    open spec fn sig() -> Seq<char> {
        "S"@
    }

    open spec fn class() -> Seq<char> {
        "java.lang.Object"@
    }

    open spec fn element_arg(&self) -> Result<JavaArg, ErrorModel> {
        Ok(JavaArg::Short(*self))
    }

    fn __vec_kind() -> (k: VecKind) {
        VecKind::Primitive(ArrayKind::Short)
    }

    fn element_sig() -> (s: String) {
        "S".to_owned()
    }

    fn element_class() -> (s: String) {
        "java.lang.Object".to_owned()
    }

    fn __as_vec_element_arg(&self) -> (r: Result<JavaArg, JavaError>) {
        Ok(JavaArg::Short(*self))
    }
}

impl SealedVec for i32 {

}

impl JavaVecElement for i32 {
    open spec fn kind() -> VecKind {
        VecKind::Primitive(ArrayKind::Int)
    }

    open spec fn sig() -> Seq<char> {
        "I"@
    }

    open spec fn class() -> Seq<char> {
        "java.lang.Object"@
    }

    open spec fn element_arg(&self) -> Result<JavaArg, ErrorModel> {
        Ok(JavaArg::Int(*self))
    }

    fn __vec_kind() -> (k: VecKind) {
        VecKind::Primitive(ArrayKind::Int)
    }

    fn element_sig() -> (s: String) {
        "I".to_owned()
    }

    fn element_class() -> (s: String) {
        "java.lang.Object".to_owned()
    }

    fn __as_vec_element_arg(&self) -> (r: Result<JavaArg, JavaError>) {
        Ok(JavaArg::Int(*self))
    }
}

impl SealedVec for i64 {

}

impl JavaVecElement for i64 {
    open spec fn kind() -> VecKind {
        VecKind::Primitive(ArrayKind::Long)
    }

    open spec fn sig() -> Seq<char> {
        "J"@
    }

    open spec fn class() -> Seq<char> {
        "java.lang.Object"@
    }

    open spec fn element_arg(&self) -> Result<JavaArg, ErrorModel> {
        Ok(JavaArg::Long(*self))
    }

    fn __vec_kind() -> (k: VecKind) {
        VecKind::Primitive(ArrayKind::Long)
    }

    fn element_sig() -> (s: String) {
        "J".to_owned()
    }

    fn element_class() -> (s: String) {
        "java.lang.Object".to_owned()
    }

    fn __as_vec_element_arg(&self) -> (r: Result<JavaArg, JavaError>) {
        Ok(JavaArg::Long(*self))
    }
}

impl SealedVec for FloatBits {

}

impl JavaVecElement for FloatBits {
    open spec fn kind() -> VecKind {
        VecKind::Primitive(ArrayKind::Float)
    }

    open spec fn sig() -> Seq<char> {
        "F"@
    }

    open spec fn class() -> Seq<char> {
        "java.lang.Object"@
    }

    open spec fn element_arg(&self) -> Result<JavaArg, ErrorModel> {
        Ok(JavaArg::Float(self.0))
    }

    fn __vec_kind() -> (k: VecKind) {
        VecKind::Primitive(ArrayKind::Float)
    }

    fn element_sig() -> (s: String) {
        "F".to_owned()
    }

    fn element_class() -> (s: String) {
        "java.lang.Object".to_owned()
    }

    fn __as_vec_element_arg(&self) -> (r: Result<JavaArg, JavaError>) {
        Ok(JavaArg::Float(self.0))
    }
}

impl SealedVec for DoubleBits {

}

impl JavaVecElement for DoubleBits {
    open spec fn kind() -> VecKind {
        VecKind::Primitive(ArrayKind::Double)
    }

    open spec fn sig() -> Seq<char> {
        "D"@
    }

    open spec fn class() -> Seq<char> {
        "java.lang.Object"@
    }

    open spec fn element_arg(&self) -> Result<JavaArg, ErrorModel> {
        Ok(JavaArg::Double(self.0))
    }

    fn __vec_kind() -> (k: VecKind) {
        VecKind::Primitive(ArrayKind::Double)
    }

    fn element_sig() -> (s: String) {
        "D".to_owned()
    }

    fn element_class() -> (s: String) {
        "java.lang.Object".to_owned()
    }

    fn __as_vec_element_arg(&self) -> (r: Result<JavaArg, JavaError>) {
        Ok(JavaArg::Double(self.0))
    }
}

impl SealedVec for char {

}

impl JavaVecElement for char {
    open spec fn kind() -> VecKind {
        VecKind::Primitive(ArrayKind::Char)
    }

    open spec fn sig() -> Seq<char> {
        "C"@
    }

    open spec fn class() -> Seq<char> {
        "java.lang.Object"@
    }

    open spec fn element_arg(&self) -> Result<JavaArg, ErrorModel> {
        char_element(*self)
    }

    fn __vec_kind() -> (k: VecKind) {
        VecKind::Primitive(ArrayKind::Char)
    }

    fn element_sig() -> (s: String) {
        "C".to_owned()
    }

    fn element_class() -> (s: String) {
        "java.lang.Object".to_owned()
    }

    fn __as_vec_element_arg(&self) -> (r: Result<JavaArg, JavaError>) {
        self.__as_java_arg()
    }
}

impl SealedVec for u8 {

}

impl JavaVecElement for u8 {
    open spec fn kind() -> VecKind {
        VecKind::U8
    }

    open spec fn sig() -> Seq<char> {
        "B"@
    }

    open spec fn class() -> Seq<char> {
        "java.lang.Object"@
    }

    open spec fn element_arg(&self) -> Result<JavaArg, ErrorModel> {
        Ok(JavaArg::Byte(signed(*self)))
    }

    fn __vec_kind() -> (k: VecKind) {
        VecKind::U8
    }

    fn element_sig() -> (s: String) {
        "B".to_owned()
    }

    fn element_class() -> (s: String) {
        "java.lang.Object".to_owned()
    }

    fn __as_vec_element_arg(&self) -> (r: Result<JavaArg, JavaError>) {
        Ok(JavaArg::Byte(to_signed(*self)))
    }
}

impl SealedVec for String {

}

impl JavaVecElement for String {
    open spec fn kind() -> VecKind {
        VecKind::Object
    }

    open spec fn sig() -> Seq<char> {
        "Ljava/lang/String;"@
    }

    open spec fn class() -> Seq<char> {
        "java.lang.String"@
    }

    open spec fn element_arg(&self) -> Result<JavaArg, ErrorModel> {
        Err(misuse(NO_PRIMITIVE@))
    }

    fn __vec_kind() -> (k: VecKind) {
        VecKind::Object
    }

    fn element_sig() -> (s: String) {
        "Ljava/lang/String;".to_owned()
    }

    fn element_class() -> (s: String) {
        "java.lang.String".to_owned()
    }

    fn __as_vec_element_arg(&self) -> (r: Result<JavaArg, JavaError>) {
        Err(not_a_primitive_element())
    }
}

impl SealedVec for JObject {

}

impl JavaVecElement for JObject {
    open spec fn kind() -> VecKind {
        VecKind::Object
    }

    open spec fn sig() -> Seq<char> {
        "Ljava/lang/Object;"@
    }

    open spec fn class() -> Seq<char> {
        "java.lang.Object"@
    }

    open spec fn element_arg(&self) -> Result<JavaArg, ErrorModel> {
        Err(misuse(NO_PRIMITIVE@))
    }

    fn __vec_kind() -> (k: VecKind) {
        VecKind::Object
    }

    fn element_sig() -> (s: String) {
        "Ljava/lang/Object;".to_owned()
    }

    fn element_class() -> (s: String) {
        "java.lang.Object".to_owned()
    }

    fn __as_vec_element_arg(&self) -> (r: Result<JavaArg, JavaError>) {
        Err(not_a_primitive_element())
    }
}

impl SealedVec for JClass {

}

impl JavaVecElement for JClass {
    open spec fn kind() -> VecKind {
        VecKind::Object
    }

    open spec fn sig() -> Seq<char> {
        "Ljava/lang/Class;"@
    }

    open spec fn class() -> Seq<char> {
        "java.lang.Class"@
    }

    open spec fn element_arg(&self) -> Result<JavaArg, ErrorModel> {
        Err(misuse(NO_PRIMITIVE@))
    }

    fn __vec_kind() -> (k: VecKind) {
        VecKind::Object
    }

    fn element_sig() -> (s: String) {
        "Ljava/lang/Class;".to_owned()
    }

    fn element_class() -> (s: String) {
        "java.lang.Class".to_owned()
    }

    fn __as_vec_element_arg(&self) -> (r: Result<JavaArg, JavaError>) {
        Err(not_a_primitive_element())
    }
}

impl<T: JavaArrayElement> SealedVec for JArray<T> {

}

impl<T: JavaArrayElement> JavaVecElement for JArray<T> {
    open spec fn kind() -> VecKind {
        VecKind::Object
    }

    open spec fn sig() -> Seq<char> {
        array_type(<T as JavaArrayElement>::kind())
    }

    open spec fn class() -> Seq<char> {
        array_type(<T as JavaArrayElement>::kind())
    }

    open spec fn element_arg(&self) -> Result<JavaArg, ErrorModel> {
        Err(misuse(NO_PRIMITIVE@))
    }

    fn __vec_kind() -> (k: VecKind) {
        VecKind::Object
    }

    fn element_sig() -> (s: String) {
        array_type_of::<T>()
    }

    fn element_class() -> (s: String) {
        array_type_of::<T>()
    }

    fn __as_vec_element_arg(&self) -> (r: Result<JavaArg, JavaError>) {
        Err(not_a_primitive_element())
    }
}

impl SealedVec for JArray<JObject> {

}

impl JavaVecElement for JArray<JObject> {
    open spec fn kind() -> VecKind {
        VecKind::Object
    }

    open spec fn sig() -> Seq<char> {
        "[Ljava/lang/Object;"@
    }

    open spec fn class() -> Seq<char> {
        "[Ljava/lang/Object;"@
    }

    open spec fn element_arg(&self) -> Result<JavaArg, ErrorModel> {
        Err(misuse(NO_PRIMITIVE@))
    }

    fn __vec_kind() -> (k: VecKind) {
        VecKind::Object
    }

    fn element_sig() -> (s: String) {
        "[Ljava/lang/Object;".to_owned()
    }

    fn element_class() -> (s: String) {
        "[Ljava/lang/Object;".to_owned()
    }

    fn __as_vec_element_arg(&self) -> (r: Result<JavaArg, JavaError>) {
        Err(not_a_primitive_element())
    }
}

impl<T: JavaVecElement> SealedVec for Option<T> {

}

impl<T: JavaVecElement> JavaVecElement for Option<T> {
    open spec fn kind() -> VecKind {
        <T as JavaVecElement>::kind()
    }

    open spec fn sig() -> Seq<char> {
        T::sig()
    }

    open spec fn class() -> Seq<char> {
        T::class()
    }

    open spec fn element_arg(&self) -> Result<JavaArg, ErrorModel> {
        match self {
            Some(x) => x.element_arg(),
            None => Err(misuse("a null element cannot be stored in a primitive Java array"@)),
        }
    }

    fn __vec_kind() -> (k: VecKind) {
        T::__vec_kind()
    }

    fn element_sig() -> (s: String) {
        T::element_sig()
    }

    fn element_class() -> (s: String) {
        T::element_class()
    }

    fn __as_vec_element_arg(&self) -> (r: Result<JavaArg, JavaError>) {
        match self {
            Some(x) => x.__as_vec_element_arg(),
            None => Err(
                JavaError::InvalidArgument(
                    "a null element cannot be stored in a primitive Java array",
                ),
            ),
        }
    }
}

/// The raw values of the elements; the first element that has none decides.
pub open spec fn element_args<T: JavaVecElement>(v: Seq<T>) -> Result<Seq<JavaArg>, ErrorModel>
    decreases v.len(),
{
    if v.len() == 0 {
        Ok(Seq::empty())
    } else {
        match element_args(v.drop_last()) {
            Err(e) => Err(e),
            Ok(args) => match v.last().element_arg() {
                Err(e) => Err(e),
                Ok(a) => Ok(args.push(a)),
            },
        }
    }
}

/// The elements as bytes; the first element that is none decides.
pub open spec fn byte_args<T: JavaVecElement>(v: Seq<T>) -> Result<Seq<JavaArg>, ErrorModel>
    decreases v.len(),
{
    if v.len() == 0 {
        Ok(Seq::empty())
    } else {
        match byte_args(v.drop_last()) {
            Err(e) => Err(e),
            Ok(args) => match v.last().element_arg() {
                Err(e) => Err(e),
                Ok(JavaArg::Byte(b)) => Ok(args.push(JavaArg::Byte(b))),
                Ok(_) => Err(misuse("internal error: a u8 element must convert to a byte"@)),
            },
        }
    }
}

/// What is sent for one element of an object array.
pub open spec fn sent_item(sent: Result<Seq<OutgoingModel>, ErrorModel>) -> Result<
    OutgoingItemModel,
    ErrorModel,
> {
    match sent {
        Err(e) => Err(e),
        Ok(out) => if out.len() == 0 {
            Err(misuse(NOT_ONE@))
        } else {
            match out.last() {
                OutgoingModel::Arg(JavaArg::Object(o)) => Ok(OutgoingItemModel::Object(o)),
                OutgoingModel::Text(s) => Ok(OutgoingItemModel::Text(s)),
                _ => Err(misuse(NOT_ONE@)),
            }
        },
    }
}

/// The message where an element of an object array does not convert to one reference.
pub const NOT_ONE: &'static str = "internal error: an object-array element must convert to exactly one object reference";

/// What is sent for the elements of an object array; the first that has nothing decides.
pub open spec fn sent_items<T: JavaVecElement>(v: Seq<T>) -> Result<
    Seq<OutgoingItemModel>,
    ErrorModel,
>
    decreases v.len(),
{
    if v.len() == 0 {
        Ok(Seq::empty())
    } else {
        match sent_items(v.drop_last()) {
            Err(e) => Err(e),
            Ok(items) => match sent_item(v.last().sent()) {
                Err(e) => Err(e),
                Ok(i) => Ok(items.push(i)),
            },
        }
    }
}

/// What is sent for a vector: one array.
pub open spec fn sent_vector<T: JavaVecElement>(v: Seq<T>) -> Result<OutgoingModel, ErrorModel> {
    match <T as JavaVecElement>::kind() {
        VecKind::Primitive(kind) => match element_args(v) {
            Err(e) => Err(e),
            Ok(args) => match filled(kind, args) {
                Err(e) => Err(e),
                Ok(r) => Ok(OutgoingModel::Region(r)),
            },
        },
        VecKind::U8 => match byte_args(v) {
            Err(e) => Err(e),
            Ok(args) => match filled(ArrayKind::Byte, args) {
                Err(e) => Err(e),
                Ok(r) => Ok(OutgoingModel::Region(r)),
            },
        },
        VecKind::Object => match sent_items(v) {
            Err(e) => Err(e),
            Ok(items) => Ok(OutgoingModel::Objects { class: T::class(), items }),
        },
    }
}

/// The raw values of the first `k` elements, if each has one, are a prefix of those of
/// all; if one has none, it decides for all.
proof fn element_args_of_prefix<T: JavaVecElement>(v: Seq<T>, k: int)
    requires
        0 <= k <= v.len(),
    ensures
        element_args(v.take(k)) is Err ==> element_args(v) == element_args(v.take(k)),
    decreases v.len() - k,
{
    if k < v.len() {
        assert(v.take(k + 1).drop_last() =~= v.take(k));
        element_args_of_prefix(v, k + 1);
    } else {
        assert(v.take(k) =~= v);
    }
}

proof fn byte_args_of_prefix<T: JavaVecElement>(v: Seq<T>, k: int)
    requires
        0 <= k <= v.len(),
    ensures
        byte_args(v.take(k)) is Err ==> byte_args(v) == byte_args(v.take(k)),
    decreases v.len() - k,
{
    if k < v.len() {
        assert(v.take(k + 1).drop_last() =~= v.take(k));
        byte_args_of_prefix(v, k + 1);
    } else {
        assert(v.take(k) =~= v);
    }
}

proof fn sent_items_of_prefix<T: JavaVecElement>(v: Seq<T>, k: int)
    requires
        0 <= k <= v.len(),
    ensures
        sent_items(v.take(k)) is Err ==> sent_items(v) == sent_items(v.take(k)),
    decreases v.len() - k,
{
    if k < v.len() {
        assert(v.take(k + 1).drop_last() =~= v.take(k));
        sent_items_of_prefix(v, k + 1);
    } else {
        assert(v.take(k) =~= v);
    }
}

fn collect_args<T: JavaVecElement>(v: &Vec<T>) -> (r: Result<Vec<JavaArg>, JavaError>)
    ensures
        match r {
            Ok(a) => element_args(v@) == Ok::<Seq<JavaArg>, ErrorModel>(a@),
            Err(e) => element_args(v@) == Err::<Seq<JavaArg>, ErrorModel>(e@),
        },
{
    let mut args: Vec<JavaArg> = Vec::new();
    let mut i: usize = 0;
    while i < v.len()
        invariant
            i <= v@.len(),
            element_args(v@.take(i as int)) == Ok::<Seq<JavaArg>, ErrorModel>(args@),
        decreases v@.len() - i,
    {
        proof {
            assert(v@.take(i as int + 1).drop_last() =~= v@.take(i as int));
            assert(v@.take(i as int + 1).last() == v@[i as int]);
            element_args_of_prefix(v@, i as int + 1);
        }
        match v[i].__as_vec_element_arg() {
            Ok(a) => args.push(a),
            Err(e) => return Err(e),
        }
        i += 1;
    }
    assert(v@.take(i as int) =~= v@);
    Ok(args)
}

fn collect_bytes<T: JavaVecElement>(v: &Vec<T>) -> (r: Result<Vec<JavaArg>, JavaError>)
    ensures
        match r {
            Ok(a) => byte_args(v@) == Ok::<Seq<JavaArg>, ErrorModel>(a@),
            Err(e) => byte_args(v@) == Err::<Seq<JavaArg>, ErrorModel>(e@),
        },
{
    let mut args: Vec<JavaArg> = Vec::new();
    let mut i: usize = 0;
    while i < v.len()
        invariant
            i <= v@.len(),
            byte_args(v@.take(i as int)) == Ok::<Seq<JavaArg>, ErrorModel>(args@),
        decreases v@.len() - i,
    {
        proof {
            assert(v@.take(i as int + 1).drop_last() =~= v@.take(i as int));
            assert(v@.take(i as int + 1).last() == v@[i as int]);
            byte_args_of_prefix(v@, i as int + 1);
        }
        match v[i].__as_vec_element_arg() {
            Ok(JavaArg::Byte(b)) => args.push(JavaArg::Byte(b)),
            Ok(_) => {
                return Err(
                    JavaError::InvalidArgument(
                        "internal error: a u8 element must convert to a byte",
                    ),
                );
            },
            Err(e) => return Err(e),
        }
        i += 1;
    }
    assert(v@.take(i as int) =~= v@);
    Ok(args)
}

fn to_item(sent: Result<Vec<Outgoing>, JavaError>) -> (r: Result<OutgoingItem, JavaError>)
    ensures
        match r {
            Ok(i) => sent_item(sent_outcome(sent)) == Ok::<OutgoingItemModel, ErrorModel>(i@),
            Err(e) => sent_item(sent_outcome(sent)) == Err::<OutgoingItemModel, ErrorModel>(e@),
        },
{
    match sent {
        Err(e) => Err(e),
        Ok(v) => {
            let mut out = v;
            let ghost all = out@;
            match out.pop() {
                Some(last) => {
                    assert(outgoing_models(all).last() == last@);
                    match last {
                        Outgoing::Arg(JavaArg::Object(o)) => Ok(OutgoingItem::Object(o)),
                        Outgoing::Text(s) => Ok(OutgoingItem::Text(s)),
                        _ => Err(JavaError::InvalidArgument(NOT_ONE)),
                    }
                },
                None => Err(JavaError::InvalidArgument(NOT_ONE)),
            }
        },
    }
}

fn collect_items<T: JavaVecElement>(v: &Vec<T>) -> (r: Result<Vec<OutgoingItem>, JavaError>)
    ensures
        match r {
            Ok(a) => sent_items(v@) == Ok::<Seq<OutgoingItemModel>, ErrorModel>(item_models(a@)),
            Err(e) => sent_items(v@) == Err::<Seq<OutgoingItemModel>, ErrorModel>(e@),
        },
{
    let mut items: Vec<OutgoingItem> = Vec::new();
    let mut i: usize = 0;
    assert(item_models(items@) =~= Seq::empty());
    while i < v.len()
        invariant
            i <= v@.len(),
            sent_items(v@.take(i as int)) == Ok::<Seq<OutgoingItemModel>, ErrorModel>(
                item_models(items@),
            ),
        decreases v@.len() - i,
    {
        proof {
            assert(v@.take(i as int + 1).drop_last() =~= v@.take(i as int));
            assert(v@.take(i as int + 1).last() == v@[i as int]);
            sent_items_of_prefix(v@, i as int + 1);
        }
        match to_item(v[i].to_java()) {
            Ok(item) => {
                let ghost before = items@;
                items.push(item);
                assert(item_models(items@) =~= item_models(before).push(item@));
            },
            Err(e) => return Err(e),
        }
        i += 1;
    }
    assert(v@.take(i as int) =~= v@);
    Ok(items)
}

fn vector_type<T: JavaVecElement>() -> (s: String)
    ensures
        s@ == "["@ + T::sig(),
{
    let mut s = "[".to_owned();
    s.push_str(T::element_sig().as_str());
    s
}

impl<T: JavaVecElement> ToJava for Vec<T> {
    open spec fn sent(&self) -> Result<Seq<OutgoingModel>, ErrorModel> {
        match sent_vector(self@) {
            Ok(o) => Ok(seq![o]),
            Err(e) => Err(e),
        }
    }

    open spec fn arg_types(&self) -> Seq<char> {
        "["@ + T::sig()
    }

    fn to_java(&self) -> (r: Result<Vec<Outgoing>, JavaError>) {
        match T::__vec_kind() {
            VecKind::Primitive(kind) => match collect_args(self) {
                Err(e) => Err(e),
                Ok(args) => match fill_primitive_array(kind, &args) {
                    Err(e) => Err(e),
                    Ok(region) => one(Outgoing::Region(region)),
                },
            },
            VecKind::U8 => match collect_bytes(self) {
                Err(e) => Err(e),
                Ok(args) => match fill_primitive_array(ArrayKind::Byte, &args) {
                    Err(e) => Err(e),
                    Ok(region) => one(Outgoing::Region(region)),
                },
            },
            VecKind::Object => match collect_items(self) {
                Err(e) => Err(e),
                Ok(items) => one(Outgoing::Objects { class: T::element_class(), items }),
            },
        }
    }

    fn java_args(&self) -> (s: String) {
        vector_type::<T>()
    }
}

/// What values that came back convert to; the first that does not convert decides.
pub open spec fn all_received<T: FromJava>(v: Seq<IncomingModel>) -> Result<
    Seq<T::Content>,
    ErrorModel,
>
    decreases v.len(),
{
    if v.len() == 0 {
        Ok(Seq::empty())
    } else {
        match all_received::<T>(v.drop_last()) {
            Err(e) => Err(e),
            Ok(xs) => match T::received(v.last()) {
                Err(e) => Err(e),
                Ok(x) => Ok(xs.push(x)),
            },
        }
    }
}

/// Values of which nothing was read.
pub open spec fn bare_values(v: Seq<JavaValue>) -> Seq<IncomingModel> {
    Seq::new(v.len(), |i: int| bare(v[i]))
}

/// Elements of an object array, as values.
pub open spec fn item_values(v: Seq<IncomingItemModel>) -> Seq<IncomingModel> {
    Seq::new(v.len(), |i: int| item_value(v[i]))
}

/// The elements of a vector, mathematically.
pub open spec fn contents<T: FromJava>(v: Seq<T>) -> Seq<T::Content> {
    Seq::new(v.len(), |i: int| v[i].content())
}

/// The shape of one element, if it is an object.
pub open spec fn object_shape(s: Shape) -> ObjectShape {
    match s {
        Shape::One(o) => o,
        Shape::Region(k) => ObjectShape::PrimitiveArray(k),
        Shape::Objects(_) => ObjectShape::ObjectArray,
    }
}

fn to_object_shape(s: Shape) -> (o: ObjectShape)
    ensures
        o == object_shape(s),
{
    match s {
        Shape::One(o) => o,
        Shape::Region(k) => ObjectShape::PrimitiveArray(k),
        Shape::Objects(_) => ObjectShape::ObjectArray,
    }
}

proof fn all_received_of_prefix<T: FromJava>(v: Seq<IncomingModel>, k: int)
    requires
        0 <= k <= v.len(),
    ensures
        all_received::<T>(v.take(k)) is Err ==> all_received::<T>(v) == all_received::<T>(
            v.take(k),
        ),
    decreases v.len() - k,
{
    if k < v.len() {
        assert(v.take(k + 1).drop_last() =~= v.take(k));
        all_received_of_prefix::<T>(v, k + 1);
    } else {
        assert(v.take(k) =~= v);
    }
}

/// The elements of a primitive array, converted.
pub fn to_vec_local<T: FromJava>(region: &Region) -> (r: Result<Vec<T>, JavaError>)
    ensures
        match r {
            Ok(v) => all_received::<T>(bare_values(region@.values)) == Ok::<
                Seq<T::Content>,
                ErrorModel,
            >(contents(v@)),
            Err(e) => all_received::<T>(bare_values(region@.values)) == Err::<
                Seq<T::Content>,
                ErrorModel,
            >(e@),
        },
{
    let mut out: Vec<T> = Vec::new();
    let n = region.len();
    let mut i: usize = 0;
    let ghost all = bare_values(region@.values);
    assert(contents(out@) =~= Seq::<T::Content>::empty());
    assert(all.take(0) =~= Seq::empty());
    while i < n
        invariant
            i <= n,
            n == region@.values.len(),
            all == bare_values(region@.values),
            all_received::<T>(all.take(i as int)) == Ok::<Seq<T::Content>, ErrorModel>(
                contents(out@),
            ),
        decreases n - i,
    {
        proof {
            assert(all.take(i as int + 1).drop_last() =~= all.take(i as int));
            assert(all.take(i as int + 1).last() == bare(region@.values[i as int]));
            all_received_of_prefix::<T>(all, i as int + 1);
        }
        match T::from_java(Incoming::of_value(region.value_at(i))) {
            Ok(x) => {
                let ghost before = out@;
                out.push(x);
                assert(contents(out@) =~= contents(before).push(x.content()));
            },
            Err(e) => return Err(e),
        }
        i += 1;
    }
    assert(all.take(i as int) =~= all);
    Ok(out)
}

fn items_to_vec<T: FromJava>(items: Vec<IncomingItem>) -> (r: Result<Vec<T>, JavaError>)
    ensures
        match r {
            Ok(v) => all_received::<T>(item_values(incoming_items(items@))) == Ok::<
                Seq<T::Content>,
                ErrorModel,
            >(contents(v@)),
            Err(e) => all_received::<T>(item_values(incoming_items(items@))) == Err::<
                Seq<T::Content>,
                ErrorModel,
            >(e@),
        },
{
    let mut out: Vec<T> = Vec::new();
    let ghost all = item_values(incoming_items(items@));
    let ghost given = items@;
    assert(contents(out@) =~= Seq::<T::Content>::empty());
    assert(all.take(0) =~= Seq::empty());
    for item in it: items.into_iter()
        invariant
            it.seq() == given,
            all == item_values(incoming_items(given)),
            all_received::<T>(all.take(it.index() as int)) == Ok::<Seq<T::Content>, ErrorModel>(
                contents(out@),
            ),
    {
        let ghost i = it.index() as int;
        proof {
            assert(all.take(i + 1).drop_last() =~= all.take(i));
            assert(all.take(i + 1).last() == item_value(given[i]@));
            all_received_of_prefix::<T>(all, i + 1);
        }
        match T::from_java(Incoming::of_item(item)) {
            Ok(x) => {
                let ghost before = out@;
                out.push(x);
                assert(contents(out@) =~= contents(before).push(x.content()));
            },
            Err(e) => return Err(e),
        }
    }
    assert(all.take(all.len() as int) =~= all);
    Ok(out)
}

/// What an object converts to that has to be a primitive array of that element type.
pub open spec fn region_received<T: FromJava>(c: ContentsModel, kind: ArrayKind) -> Result<
    Seq<T::Content>,
    ErrorModel,
> {
    match c {
        ContentsModel::One(ReadingModel::Failed(e)) => Err(e),
        ContentsModel::Region(r) => if r.kind == kind {
            all_received::<T>(bare_values(r.values))
        } else {
            Err(misuse(OTHER_ARRAY@))
        },
        _ => Err(misuse(OTHER_ARRAY@)),
    }
}

fn region_to_vec<T: FromJava>(c: Contents, kind: ArrayKind) -> (r: Result<Vec<T>, JavaError>)
    ensures
        match r {
            Ok(v) => region_received::<T>(c@, kind) == Ok::<Seq<T::Content>, ErrorModel>(
                contents(v@),
            ),
            Err(e) => region_received::<T>(c@, kind) == Err::<Seq<T::Content>, ErrorModel>(e@),
        },
{
    match c {
        Contents::One(Reading::Failed(e)) => Err(e),
        Contents::Region(region) => if region.kind() == kind {
            to_vec_local::<T>(&region)
        } else {
            Err(JavaError::InvalidArgument(OTHER_ARRAY))
        },
        _ => Err(JavaError::InvalidArgument(OTHER_ARRAY)),
    }
}

impl<T: JavaVecElement> FromJava for Vec<T> {
    type Content = Seq<<T as FromJava>::Content>;

    open spec fn content(&self) -> Seq<<T as FromJava>::Content> {
        contents(self@)
    }

    open spec fn return_type() -> Seq<char> {
        "["@ + T::sig()
    }

    open spec fn wanted() -> Shape {
        match <T as JavaVecElement>::kind() {
            VecKind::Primitive(k) => Shape::Region(k),
            VecKind::U8 => Shape::Region(ArrayKind::Byte),
            VecKind::Object => Shape::Objects(object_shape(T::wanted())),
        }
    }

    open spec fn received(v: IncomingModel) -> Result<Seq<<T as FromJava>::Content>, ErrorModel> {
        match v.value {
            JavaValue::Object(Some(_)) => match <T as JavaVecElement>::kind() {
                VecKind::Primitive(k) => region_received::<T>(v.contents, k),
                VecKind::U8 => region_received::<T>(v.contents, ArrayKind::Byte),
                VecKind::Object => match v.contents {
                    ContentsModel::One(ReadingModel::Failed(e)) => Err(e),
                    ContentsModel::Objects(items) => all_received::<T>(item_values(items)),
                    _ => Err(misuse(OTHER_ARRAY@)),
                },
            },
            JavaValue::Object(None) => Err(misuse(NULL_ARRAY@)),
            _ => Err(misuse(NO_ARRAY@)),
        }
    }

    open spec fn nullable() -> bool {
        false
    }

    fn java_return_type() -> (s: String) {
        vector_type::<T>()
    }

    fn shape() -> (s: Shape) {
        match T::__vec_kind() {
            VecKind::Primitive(k) => Shape::Region(k),
            VecKind::U8 => Shape::Region(ArrayKind::Byte),
            VecKind::Object => Shape::Objects(to_object_shape(T::shape())),
        }
    }

    fn accepts_null() -> (b: bool) {
        false
    }

    fn from_java(v: Incoming) -> (r: Result<Self, JavaError>) {
        match v.value {
            JavaValue::Object(Some(_)) => match T::__vec_kind() {
                VecKind::Primitive(k) => region_to_vec::<T>(v.contents, k),
                VecKind::U8 => region_to_vec::<T>(v.contents, ArrayKind::Byte),
                VecKind::Object => match v.contents {
                    Contents::One(Reading::Failed(e)) => Err(e),
                    Contents::Objects(items) => items_to_vec::<T>(items),
                    _ => Err(JavaError::InvalidArgument(OTHER_ARRAY)),
                },
            },
            JavaValue::Object(None) => Err(JavaError::InvalidArgument(NULL_ARRAY)),
            _ => Err(JavaError::InvalidArgument(NO_ARRAY)),
        }
    }
}

/// The raw values of array elements; the first element that has none decides.
pub open spec fn raw_args<T: JavaArrayElement>(v: Seq<T>) -> Result<Seq<JavaArg>, ErrorModel>
    decreases v.len(),
{
    if v.len() == 0 {
        Ok(Seq::empty())
    } else {
        match raw_args(v.drop_last()) {
            Err(e) => Err(e),
            Ok(args) => match v.last().raw() {
                Err(e) => Err(e),
                Ok(a) => Ok(args.push(a)),
            },
        }
    }
}

/// The contents of a primitive array that is made of the elements.
pub open spec fn region_of<T: JavaArrayElement>(v: Seq<T>) -> Result<RegionModel, ErrorModel> {
    match raw_args(v) {
        Err(e) => Err(e),
        Ok(args) => filled(<T as JavaArrayElement>::kind(), args),
    }
}

proof fn raw_args_of_prefix<T: JavaArrayElement>(v: Seq<T>, k: int)
    requires
        0 <= k <= v.len(),
    ensures
        raw_args(v.take(k)) is Err ==> raw_args(v) == raw_args(v.take(k)),
    decreases v.len() - k,
{
    if k < v.len() {
        assert(v.take(k + 1).drop_last() =~= v.take(k));
        raw_args_of_prefix(v, k + 1);
    } else {
        assert(v.take(k) =~= v);
    }
}

/// The contents of a primitive array that is made of the elements.
pub fn from_vec_local<T: JavaArrayElement>(values: &Vec<T>) -> (r: Result<Region, JavaError>)
    ensures
        match r {
            Ok(region) => region_of(values@) == Ok::<RegionModel, ErrorModel>(region@),
            Err(e) => region_of(values@) == Err::<RegionModel, ErrorModel>(e@),
        },
{
    let mut args: Vec<JavaArg> = Vec::new();
    let mut i: usize = 0;
    while i < values.len()
        invariant
            i <= values@.len(),
            raw_args(values@.take(i as int)) == Ok::<Seq<JavaArg>, ErrorModel>(args@),
        decreases values@.len() - i,
    {
        proof {
            assert(values@.take(i as int + 1).drop_last() =~= values@.take(i as int));
            assert(values@.take(i as int + 1).last() == values@[i as int]);
            raw_args_of_prefix(values@, i as int + 1);
        }
        match values[i].__as_java_arg() {
            Ok(a) => args.push(a),
            Err(e) => return Err(e),
        }
        i += 1;
    }
    assert(values@.take(i as int) =~= values@);
    fill_primitive_array(T::__kind(), &args)
}

/// The one-element region that stores a value in a primitive array.
pub fn element_to_store<T: JavaArrayElement>(value: &T) -> (r: Result<Region, JavaError>)
    ensures
        match r {
            Ok(region) => value.raw() matches Ok(a) && crate::array::stored(
                <T as JavaArrayElement>::kind(),
                a,
            ) == Ok::<RegionModel, ErrorModel>(region@),
            Err(e) => match value.raw() {
                Ok(a) => crate::array::stored(<T as JavaArrayElement>::kind(), a) == Err::<
                    RegionModel,
                    ErrorModel,
                >(e@),
                Err(fault) => e@ == fault,
            },
        },
{
    match value.__as_java_arg() {
        Ok(a) => crate::array::array_set(T::__kind(), &a),
        Err(e) => Err(e),
    }
}

}
