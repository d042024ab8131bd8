use vstd::prelude::*;

use crate::array::{kind_letter, ArrayKind, Region, RegionModel};
use crate::error::{misuse, ErrorModel, JavaError};
use crate::handles::{JArray, JClass, JObject};
use crate::value::{JavaArg, JavaValue, ObjectRef};

verus! {

/// An element of an object array that is sent to Java.
#[derive(Debug)]
pub enum OutgoingItem {
    /// An object that Java has, or null.
    Object(ObjectRef),
    /// A new string.
    Text(String),
}

/// What is sent to Java for one parameter.
#[derive(Debug)]
pub enum Outgoing {
    /// A value as it is.
    Arg(JavaArg),
    /// A new string.
    Text(String),
    /// A new primitive array with these contents.
    Region(Region),
    /// A new array with elements of that class.
    Objects { class: String, items: Vec<OutgoingItem> },
}

/// The mathematical content of an [`OutgoingItem`].
pub enum OutgoingItemModel {
    Object(ObjectRef),
    Text(Seq<char>),
}

/// The mathematical content of an [`Outgoing`].
pub enum OutgoingModel {
    Arg(JavaArg),
    Text(Seq<char>),
    Region(RegionModel),
    Objects { class: Seq<char>, items: Seq<OutgoingItemModel> },
}

impl View for OutgoingItem {
    type V = OutgoingItemModel;

    open spec fn view(&self) -> OutgoingItemModel {
        match self {
            OutgoingItem::Object(o) => OutgoingItemModel::Object(*o),
            OutgoingItem::Text(s) => OutgoingItemModel::Text(s@),
        }
    }
}

/// The contents of outgoing items.
pub open spec fn item_models(v: Seq<OutgoingItem>) -> Seq<OutgoingItemModel> {
    Seq::new(v.len(), |i: int| v[i]@)
}

impl View for Outgoing {
    type V = OutgoingModel;

    open spec fn view(&self) -> OutgoingModel {
        match self {
            Outgoing::Arg(a) => OutgoingModel::Arg(*a),
            Outgoing::Text(s) => OutgoingModel::Text(s@),
            Outgoing::Region(r) => OutgoingModel::Region(r@),
            Outgoing::Objects { class, items } => OutgoingModel::Objects {
                class: class@,
                items: item_models(items@),
            },
        }
    }
}

/// The contents of outgoing values.
pub open spec fn outgoing_models(v: Seq<Outgoing>) -> Seq<OutgoingModel> {
    Seq::new(v.len(), |i: int| v[i]@)
}

/// The content of what is sent, or of the error.
pub open spec fn sent_outcome(r: Result<Vec<Outgoing>, JavaError>) -> Result<
    Seq<OutgoingModel>,
    ErrorModel,
> {
    match r {
        Ok(v) => Ok(outgoing_models(v@)),
        Err(e) => Err(e@),
    }
}

/// What has to be read of an object before it can be converted.
#[derive(Clone, Copy, PartialEq, Eq, Structural, Debug)]
pub enum ObjectShape {
    /// Nothing: any object will do.
    Any,
    /// Its text: it has to be a string.
    Text,
    /// Nothing, but it has to be a class.
    Class,
    /// Nothing, but it has to be a primitive array of that element type.
    PrimitiveArray(ArrayKind),
    /// Nothing, but it has to be an array of references.
    ObjectArray,
}

/// What has to be read of a value before it can be converted.
#[derive(Clone, Copy, PartialEq, Eq, Structural, Debug)]
pub enum Shape {
    /// One object.
    One(ObjectShape),
    /// The contents of a primitive array of that element type.
    Region(ArrayKind),
    /// The elements of an array of references, each in that shape.
    Objects(ObjectShape),
}

/// What was read of one object.
#[derive(Debug)]
pub enum Reading {
    /// Nothing.
    Nothing,
    /// Its text.
    Text(String),
    /// It does not have the shape that was asked for, or could not be read.
    Failed(JavaError),
}

/// An element of an object array that came back.
#[derive(Debug)]
pub struct IncomingItem {
    pub object: ObjectRef,
    pub reading: Reading,
}

/// What was read of a value.
#[derive(Debug)]
pub enum Contents {
    One(Reading),
    Region(Region),
    Objects(Vec<IncomingItem>),
}

/// A value that came back from Java, with what was read of it.
#[derive(Debug)]
pub struct Incoming {
    pub value: JavaValue,
    pub contents: Contents,
}

/// The mathematical content of a [`Reading`].
pub enum ReadingModel {
    Nothing,
    Text(Seq<char>),
    Failed(ErrorModel),
}

/// The mathematical content of an [`IncomingItem`].
pub struct IncomingItemModel {
    pub object: ObjectRef,
    pub reading: ReadingModel,
}

/// The mathematical content of [`Contents`].
pub enum ContentsModel {
    One(ReadingModel),
    Region(RegionModel),
    Objects(Seq<IncomingItemModel>),
}

/// The mathematical content of an [`Incoming`].
pub struct IncomingModel {
    pub value: JavaValue,
    pub contents: ContentsModel,
}

impl View for Reading {
    type V = ReadingModel;

    open spec fn view(&self) -> ReadingModel {
        match self {
            Reading::Nothing => ReadingModel::Nothing,
            Reading::Text(s) => ReadingModel::Text(s@),
            Reading::Failed(e) => ReadingModel::Failed(e@),
        }
    }
}

impl View for IncomingItem {
    type V = IncomingItemModel;

    open spec fn view(&self) -> IncomingItemModel {
        IncomingItemModel { object: self.object, reading: self.reading@ }
    }
}

/// The contents of incoming items.
pub open spec fn incoming_items(v: Seq<IncomingItem>) -> Seq<IncomingItemModel> {
    Seq::new(v.len(), |i: int| v[i]@)
}

impl View for Contents {
    type V = ContentsModel;

    open spec fn view(&self) -> ContentsModel {
        match self {
            Contents::One(r) => ContentsModel::One(r@),
            Contents::Region(r) => ContentsModel::Region(r@),
            Contents::Objects(v) => ContentsModel::Objects(incoming_items(v@)),
        }
    }
}

impl View for Incoming {
    type V = IncomingModel;

    open spec fn view(&self) -> IncomingModel {
        IncomingModel { value: self.value, contents: self.contents@ }
    }
}

/// A value of which nothing was read.
pub open spec fn bare(value: JavaValue) -> IncomingModel {
    IncomingModel { value, contents: ContentsModel::One(ReadingModel::Nothing) }
}

/// An element of an object array, as a value.
pub open spec fn item_value(item: IncomingItemModel) -> IncomingModel {
    IncomingModel {
        value: JavaValue::Object(item.object),
        contents: ContentsModel::One(item.reading),
    }
}

impl Incoming {
    /// A value of which nothing was read.
    pub fn of_value(value: JavaValue) -> (i: Incoming)
        ensures
            i@ == bare(value),
    {
        Incoming { value, contents: Contents::One(Reading::Nothing) }
    }

    /// An element of an object array, as a value.
    pub fn of_item(item: IncomingItem) -> (i: Incoming)
        ensures
            i@ == item_value(item@),
    {
        Incoming { value: JavaValue::Object(item.object), contents: Contents::One(item.reading) }
    }
}

/// A Rust type whose values can be sent to Java.
pub trait ToJava {
    /// What is sent, one entry for each parameter.
    spec fn sent(&self) -> Result<Seq<OutgoingModel>, ErrorModel>;

    /// The JNI type fragments of the parameters.
    spec fn arg_types(&self) -> Seq<char>;

    /// What is sent, one entry for each parameter.
    fn to_java(&self) -> (r: Result<Vec<Outgoing>, JavaError>)
        ensures
            sent_outcome(r) == self.sent(),
    ;

    /// The JNI type fragments of the parameters.
    fn java_args(&self) -> (s: String)
        ensures
            s@ == self.arg_types(),
    ;
}

/// A Rust type whose values can come back from Java.
pub trait FromJava: Sized {
    /// What a value is, mathematically.
    type Content;

    /// What this value is.
    spec fn content(&self) -> Self::Content;

    /// The JNI type fragment of a method that returns such a value.
    spec fn return_type() -> Seq<char>;

    /// What has to be read of a value that came back.
    spec fn wanted() -> Shape;

    /// Whether a Java `null` that came back is a value of this type.
    spec fn nullable() -> bool;

    /// What a value that came back converts to.
    spec fn received(v: IncomingModel) -> Result<Self::Content, ErrorModel>;

    /// The JNI type fragment of a method that returns such a value.
    fn java_return_type() -> (s: String)
        ensures
            s@ == Self::return_type(),
    ;

    /// What has to be read of a value that came back.
    fn shape() -> (s: Shape)
        ensures
            s == Self::wanted(),
    ;

    /// Whether a Java `null` that came back is a value of this type.
    fn accepts_null() -> (b: bool)
        ensures
            b == Self::nullable(),
    ;

    /// Converts a value that came back.
    fn from_java(v: Incoming) -> (r: Result<Self, JavaError>)
        ensures
            match r {
                Ok(x) => Self::received(v@) == Ok::<Self::Content, ErrorModel>(x.content()),
                Err(e) => Self::received(v@) == Err::<Self::Content, ErrorModel>(e@),
            },
    ;
}

/// One outgoing value.
pub(crate) fn one(o: Outgoing) -> (r: Result<Vec<Outgoing>, JavaError>)
    ensures
        sent_outcome(r) == Ok::<Seq<OutgoingModel>, ErrorModel>(seq![o@]),
{
    let mut v: Vec<Outgoing> = Vec::new();
    v.push(o);
    assert(outgoing_models(v@) =~= seq![o@]);
    Ok(v)
}

impl ToJava for () {
    open spec fn sent(&self) -> Result<Seq<OutgoingModel>, ErrorModel> {
        Ok(Seq::empty())
    }

    open spec fn arg_types(&self) -> Seq<char> {
        Seq::empty()
    }

    fn to_java(&self) -> (r: Result<Vec<Outgoing>, JavaError>) {
        let v: Vec<Outgoing> = Vec::new();
        assert(outgoing_models(v@) =~= Seq::empty());
        Ok(v)
    }

    fn java_args(&self) -> (s: String) {
        let s = String::new();
        assert(s@ =~= Seq::empty());
        s
    }
}

impl FromJava for () {
    type Content = ();

    open spec fn content(&self) -> () {
        ()
    }

    open spec fn return_type() -> Seq<char> {
        "V"@
    }

    open spec fn wanted() -> Shape {
        Shape::One(ObjectShape::Any)
    }

    open spec fn received(v: IncomingModel) -> Result<(), ErrorModel> {
        Ok(())
    }

    open spec fn nullable() -> bool {
        false
    }

    fn java_return_type() -> (s: String) {
        "V".to_owned()
    }

    fn shape() -> (s: Shape) {
        Shape::One(ObjectShape::Any)
    }

    fn accepts_null() -> (b: bool) {
        false
    }

    fn from_java(v: Incoming) -> (r: Result<Self, JavaError>) {
        Ok(())
    }
}

impl ToJava for bool {
    open spec fn sent(&self) -> Result<Seq<OutgoingModel>, ErrorModel> {
        Ok(seq![OutgoingModel::Arg(JavaArg::Bool(*self))])
    }

    open spec fn arg_types(&self) -> Seq<char> {
        "Z"@
    }

    fn to_java(&self) -> (r: Result<Vec<Outgoing>, JavaError>) {
        one(Outgoing::Arg(JavaArg::Bool(*self)))
    }

    fn java_args(&self) -> (s: String) {
        "Z".to_owned()
    }
}

impl FromJava for bool {
    type Content = bool;

    open spec fn content(&self) -> bool {
        *self
    }

    open spec fn return_type() -> Seq<char> {
        "Z"@
    }

    open spec fn wanted() -> Shape {
        Shape::One(ObjectShape::Any)
    }

    open spec fn received(v: IncomingModel) -> Result<bool, ErrorModel> {
        match v.value {
            JavaValue::Bool(x) => Ok(x),
            _ => Err(
                misuse("expected a Java `boolean` return value but got a different Java type"@),
            ),
        }
    }

    open spec fn nullable() -> bool {
        false
    }

    fn java_return_type() -> (s: String) {
        "Z".to_owned()
    }

    fn shape() -> (s: Shape) {
        Shape::One(ObjectShape::Any)
    }

    fn accepts_null() -> (b: bool) {
        false
    }

    fn from_java(v: Incoming) -> (r: Result<Self, JavaError>) {
        match v.value {
            JavaValue::Bool(x) => Ok(x),
            _ => Err(
                JavaError::InvalidArgument(
                    "expected a Java `boolean` return value but got a different Java type",
                ),
            ),
        }
    }
}

impl ToJava for i8 {
    open spec fn sent(&self) -> Result<Seq<OutgoingModel>, ErrorModel> {
        Ok(seq![OutgoingModel::Arg(JavaArg::Byte(*self))])
    }

    open spec fn arg_types(&self) -> Seq<char> {
        "B"@
    }

    fn to_java(&self) -> (r: Result<Vec<Outgoing>, JavaError>) {
        one(Outgoing::Arg(JavaArg::Byte(*self)))
    }

    fn java_args(&self) -> (s: String) {
        "B".to_owned()
    }
}

impl FromJava for i8 {
    type Content = i8;

    open spec fn content(&self) -> i8 {
        *self
    }

    open spec fn return_type() -> Seq<char> {
        "B"@
    }

    open spec fn wanted() -> Shape {
        Shape::One(ObjectShape::Any)
    }

    open spec fn received(v: IncomingModel) -> Result<i8, ErrorModel> {
        match v.value {
            JavaValue::Byte(x) => Ok(x),
            _ => Err(
                misuse("expected a Java `byte` return value but got a different Java type"@),
            ),
        }
    }

    open spec fn nullable() -> bool {
        false
    }

    fn java_return_type() -> (s: String) {
        "B".to_owned()
    }

    fn shape() -> (s: Shape) {
        Shape::One(ObjectShape::Any)
    }

    fn accepts_null() -> (b: bool) {
        false
    }

    fn from_java(v: Incoming) -> (r: Result<Self, JavaError>) {
        match v.value {
            JavaValue::Byte(x) => Ok(x),
            _ => Err(
                JavaError::InvalidArgument(
                    "expected a Java `byte` return value but got a different Java type",
                ),
            ),
        }
    }
}

impl ToJava for i16 {
    open spec fn sent(&self) -> Result<Seq<OutgoingModel>, ErrorModel> {
        Ok(seq![OutgoingModel::Arg(JavaArg::Short(*self))])
    }

    open spec fn arg_types(&self) -> Seq<char> {
        "S"@
    }

    fn to_java(&self) -> (r: Result<Vec<Outgoing>, JavaError>) {
        one(Outgoing::Arg(JavaArg::Short(*self)))
    }

    fn java_args(&self) -> (s: String) {
        "S".to_owned()
    }
}

impl FromJava for i16 {
    type Content = i16;

    open spec fn content(&self) -> i16 {
        *self
    }

    open spec fn return_type() -> Seq<char> {
        "S"@
    }

    open spec fn wanted() -> Shape {
        Shape::One(ObjectShape::Any)
    }

    open spec fn received(v: IncomingModel) -> Result<i16, ErrorModel> {
        match v.value {
            JavaValue::Short(x) => Ok(x),
            _ => Err(
                misuse("expected a Java `short` return value but got a different Java type"@),
            ),
        }
    }

    open spec fn nullable() -> bool {
        false
    }

    fn java_return_type() -> (s: String) {
        "S".to_owned()
    }

    fn shape() -> (s: Shape) {
        Shape::One(ObjectShape::Any)
    }

    fn accepts_null() -> (b: bool) {
        false
    }

    fn from_java(v: Incoming) -> (r: Result<Self, JavaError>) {
        match v.value {
            JavaValue::Short(x) => Ok(x),
            _ => Err(
                JavaError::InvalidArgument(
                    "expected a Java `short` return value but got a different Java type",
                ),
            ),
        }
    }
}

impl ToJava for i32 {
    open spec fn sent(&self) -> Result<Seq<OutgoingModel>, ErrorModel> {
        Ok(seq![OutgoingModel::Arg(JavaArg::Int(*self))])
    }

    open spec fn arg_types(&self) -> Seq<char> {
        "I"@
    }

    fn to_java(&self) -> (r: Result<Vec<Outgoing>, JavaError>) {
        one(Outgoing::Arg(JavaArg::Int(*self)))
    }

    fn java_args(&self) -> (s: String) {
        "I".to_owned()
    }
}

impl FromJava for i32 {
    type Content = i32;

    open spec fn content(&self) -> i32 {
        *self
    }

    open spec fn return_type() -> Seq<char> {
        "I"@
    }

    open spec fn wanted() -> Shape {
        Shape::One(ObjectShape::Any)
    }

    open spec fn received(v: IncomingModel) -> Result<i32, ErrorModel> {
        match v.value {
            JavaValue::Int(x) => Ok(x),
            _ => Err(
                misuse("expected a Java `int` return value but got a different Java type"@),
            ),
        }
    }

    open spec fn nullable() -> bool {
        false
    }

    fn java_return_type() -> (s: String) {
        "I".to_owned()
    }

    fn shape() -> (s: Shape) {
        Shape::One(ObjectShape::Any)
    }

    fn accepts_null() -> (b: bool) {
        false
    }

    fn from_java(v: Incoming) -> (r: Result<Self, JavaError>) {
        match v.value {
            JavaValue::Int(x) => Ok(x),
            _ => Err(
                JavaError::InvalidArgument(
                    "expected a Java `int` return value but got a different Java type",
                ),
            ),
        }
    }
}

impl ToJava for i64 {
    open spec fn sent(&self) -> Result<Seq<OutgoingModel>, ErrorModel> {
        Ok(seq![OutgoingModel::Arg(JavaArg::Long(*self))])
    }

    open spec fn arg_types(&self) -> Seq<char> {
        "J"@
    }

    fn to_java(&self) -> (r: Result<Vec<Outgoing>, JavaError>) {
        one(Outgoing::Arg(JavaArg::Long(*self)))
    }

    fn java_args(&self) -> (s: String) {
        "J".to_owned()
    }
}

impl FromJava for i64 {
    type Content = i64;

    open spec fn content(&self) -> i64 {
        *self
    }

    open spec fn return_type() -> Seq<char> {
        "J"@
    }

    open spec fn wanted() -> Shape {
        Shape::One(ObjectShape::Any)
    }

    open spec fn received(v: IncomingModel) -> Result<i64, ErrorModel> {
        match v.value {
            JavaValue::Long(x) => Ok(x),
            _ => Err(
                misuse("expected a Java `long` return value but got a different Java type"@),
            ),
        }
    }

    open spec fn nullable() -> bool {
        false
    }

    fn java_return_type() -> (s: String) {
        "J".to_owned()
    }

    fn shape() -> (s: Shape) {
        Shape::One(ObjectShape::Any)
    }

    fn accepts_null() -> (b: bool) {
        false
    }

    fn from_java(v: Incoming) -> (r: Result<Self, JavaError>) {
        match v.value {
            JavaValue::Long(x) => Ok(x),
            _ => Err(
                JavaError::InvalidArgument(
                    "expected a Java `long` return value but got a different Java type",
                ),
            ),
        }
    }
}

impl ToJava for FloatBits {
    open spec fn sent(&self) -> Result<Seq<OutgoingModel>, ErrorModel> {
        Ok(seq![OutgoingModel::Arg(JavaArg::Float(self.0))])
    }

    open spec fn arg_types(&self) -> Seq<char> {
        "F"@
    }

    fn to_java(&self) -> (r: Result<Vec<Outgoing>, JavaError>) {
        one(Outgoing::Arg(JavaArg::Float(self.0)))
    }

    fn java_args(&self) -> (s: String) {
        "F".to_owned()
    }
}

impl FromJava for FloatBits {
    type Content = FloatBits;

    open spec fn content(&self) -> FloatBits {
        *self
    }

    open spec fn return_type() -> Seq<char> {
        "F"@
    }

    open spec fn wanted() -> Shape {
        Shape::One(ObjectShape::Any)
    }

    open spec fn received(v: IncomingModel) -> Result<FloatBits, ErrorModel> {
        match v.value {
            JavaValue::Float(x) => Ok(FloatBits(x)),
            _ => Err(
                misuse("expected a Java `float` return value but got a different Java type"@),
            ),
        }
    }

    open spec fn nullable() -> bool {
        false
    }

    fn java_return_type() -> (s: String) {
        "F".to_owned()
    }

    fn shape() -> (s: Shape) {
        Shape::One(ObjectShape::Any)
    }

    fn accepts_null() -> (b: bool) {
        false
    }

    fn from_java(v: Incoming) -> (r: Result<Self, JavaError>) {
        match v.value {
            JavaValue::Float(x) => Ok(FloatBits(x)),
            _ => Err(
                JavaError::InvalidArgument(
                    "expected a Java `float` return value but got a different Java type",
                ),
            ),
        }
    }
}

impl ToJava for DoubleBits {
    open spec fn sent(&self) -> Result<Seq<OutgoingModel>, ErrorModel> {
        Ok(seq![OutgoingModel::Arg(JavaArg::Double(self.0))])
    }

    open spec fn arg_types(&self) -> Seq<char> {
        "D"@
    }

    fn to_java(&self) -> (r: Result<Vec<Outgoing>, JavaError>) {
        one(Outgoing::Arg(JavaArg::Double(self.0)))
    }

    fn java_args(&self) -> (s: String) {
        "D".to_owned()
    }
}

impl FromJava for DoubleBits {
    type Content = DoubleBits;

    open spec fn content(&self) -> DoubleBits {
        *self
    }

    open spec fn return_type() -> Seq<char> {
        "D"@
    }

    open spec fn wanted() -> Shape {
        Shape::One(ObjectShape::Any)
    }

    open spec fn received(v: IncomingModel) -> Result<DoubleBits, ErrorModel> {
        match v.value {
            JavaValue::Double(x) => Ok(DoubleBits(x)),
            _ => Err(
                misuse("expected a Java `double` return value but got a different Java type"@),
            ),
        }
    }

    open spec fn nullable() -> bool {
        false
    }

    fn java_return_type() -> (s: String) {
        "D".to_owned()
    }

    fn shape() -> (s: Shape) {
        Shape::One(ObjectShape::Any)
    }

    fn accepts_null() -> (b: bool) {
        false
    }

    fn from_java(v: Incoming) -> (r: Result<Self, JavaError>) {
        match v.value {
            JavaValue::Double(x) => Ok(DoubleBits(x)),
            _ => Err(
                JavaError::InvalidArgument(
                    "expected a Java `double` return value but got a different Java type",
                ),
            ),
        }
    }
}

/// The bits of a Java `float`.
#[derive(Clone, Copy, PartialEq, Eq, Structural, Debug)]
pub struct FloatBits(pub u32);

/// The bits of a Java `double`.
#[derive(Clone, Copy, PartialEq, Eq, Structural, Debug)]
pub struct DoubleBits(pub u64);

impl ToJava for u8 {
    open spec fn sent(&self) -> Result<Seq<OutgoingModel>, ErrorModel> {
        Ok(seq![OutgoingModel::Arg(JavaArg::Byte(signed(*self)))])
    }

    open spec fn arg_types(&self) -> Seq<char> {
        "B"@
    }

    fn to_java(&self) -> (r: Result<Vec<Outgoing>, JavaError>) {
        one(Outgoing::Arg(JavaArg::Byte(to_signed(*self))))
    }

    fn java_args(&self) -> (s: String) {
        "B".to_owned()
    }
}

impl FromJava for u8 {
    type Content = u8;

    open spec fn content(&self) -> u8 {
        *self
    }

    open spec fn return_type() -> Seq<char> {
        "B"@
    }

    open spec fn wanted() -> Shape {
        Shape::One(ObjectShape::Any)
    }

    open spec fn received(v: IncomingModel) -> Result<u8, ErrorModel> {
        match v.value {
            JavaValue::Byte(x) => Ok(unsigned(x)),
            _ => Err(
                misuse("expected a Java `byte` return value but got a different Java type"@),
            ),
        }
    }

    open spec fn nullable() -> bool {
        false
    }

    fn java_return_type() -> (s: String) {
        "B".to_owned()
    }

    fn shape() -> (s: Shape) {
        Shape::One(ObjectShape::Any)
    }

    fn accepts_null() -> (b: bool) {
        false
    }

    fn from_java(v: Incoming) -> (r: Result<Self, JavaError>) {
        match v.value {
            JavaValue::Byte(x) => Ok(to_unsigned(x)),
            _ => Err(
                JavaError::InvalidArgument(
                    "expected a Java `byte` return value but got a different Java type",
                ),
            ),
        }
    }
}

/// The signed byte with the bits of an unsigned one.
pub open spec fn signed(b: u8) -> i8 {
    if b < 128 {
        b as i8
    } else {
        (b - 256) as i8
    }
}

/// The unsigned byte with the bits of a signed one.
pub open spec fn unsigned(b: i8) -> u8 {
    if b >= 0 {
        b as u8
    } else {
        (b + 256) as u8
    }
}

pub(crate) fn to_signed(b: u8) -> (r: i8)
    ensures
        r == signed(b),
{
    if b < 128 {
        b as i8
    } else {
        (b as i16 - 256) as i8
    }
}

fn to_unsigned(b: i8) -> (r: u8)
    ensures
        r == unsigned(b),
{
    if b >= 0 {
        b as u8
    } else {
        (b as i16 + 256) as u8
    }
}

/// A byte keeps its bits on the way to Java and back.
pub proof fn bytes_keep_their_bits(b: u8)
    ensures
        unsigned(signed(b)) == b,
        signed(b) == b as i8,
{
    assert(b < 128 || b as i8 == b - 256) by (bit_vector);
    assert(b >= 128 || b as i8 == b) by (bit_vector);
}

/// Whether a character is one UTF-16 code unit.
pub open spec fn is_one_unit(c: char) -> bool {
    c as int <= 0xffff
}

/// Whether a UTF-16 code unit is half of a surrogate pair.
pub open spec fn is_surrogate(u: u16) -> bool {
    0xd800 <= u <= 0xdfff
}

/// `jni::char_to_java`: the one UTF-16 code unit of a character, which equals its code
/// point; `None` where the crate returns an error because the character takes two.
#[verifier::external_body]
fn code_unit(c: char) -> (r: Option<u16>)
    ensures
        r == (if is_one_unit(c) {
            Some(c as u16)
        } else {
            None
        }),
{
    jni::char_to_java(c).ok()
}

/// `jni::char_from_java`: the character of a UTF-16 code unit, whose code point equals
/// it; `None` where the crate returns an error because the unit is half of a surrogate
/// pair.
#[verifier::external_body]
fn code_point(u: u16) -> (r: Option<char>)
    ensures
        r == (if is_surrogate(u) {
            None
        } else {
            Some(u as char)
        }),
{
    jni::char_from_java(u).ok()
}

impl ToJava for char {
    open spec fn sent(&self) -> Result<Seq<OutgoingModel>, ErrorModel> {
        if is_one_unit(*self) {
            Ok(seq![OutgoingModel::Arg(JavaArg::Char(*self as u16))])
        } else {
            Err(
                misuse(
                    "a Rust char above U+FFFF cannot be represented as a single Java `char`; use a String instead"@,
                ),
            )
        }
    }

    open spec fn arg_types(&self) -> Seq<char> {
        "C"@
    }

    fn to_java(&self) -> (r: Result<Vec<Outgoing>, JavaError>) {
        match code_unit(*self) {
            Some(u) => one(Outgoing::Arg(JavaArg::Char(u))),
            None => Err(
                JavaError::InvalidArgument(
                    "a Rust char above U+FFFF cannot be represented as a single Java `char`; use a String instead",
                ),
            ),
        }
    }

    fn java_args(&self) -> (s: String) {
        "C".to_owned()
    }
}

impl FromJava for char {
    type Content = char;

    open spec fn content(&self) -> char {
        *self
    }

    open spec fn return_type() -> Seq<char> {
        "C"@
    }

    open spec fn wanted() -> Shape {
        Shape::One(ObjectShape::Any)
    }

    open spec fn received(v: IncomingModel) -> Result<char, ErrorModel> {
        match v.value {
            JavaValue::Char(u) => if is_surrogate(u) {
                Err(
                    misuse(
                        "this Java char is an unpaired UTF-16 surrogate and cannot be represented as a single Rust char"@,
                    ),
                )
            } else {
                Ok(u as char)
            },
            _ => Err(
                misuse("expected a Java `char` return value but got a different Java type"@),
            ),
        }
    }

    open spec fn nullable() -> bool {
        false
    }

    fn java_return_type() -> (s: String) {
        "C".to_owned()
    }

    fn shape() -> (s: Shape) {
        Shape::One(ObjectShape::Any)
    }

    fn accepts_null() -> (b: bool) {
        false
    }

    fn from_java(v: Incoming) -> (r: Result<Self, JavaError>) {
        match v.value {
            JavaValue::Char(u) => match code_point(u) {
                Some(c) => Ok(c),
                None => Err(
                    JavaError::InvalidArgument(
                        "this Java char is an unpaired UTF-16 surrogate and cannot be represented as a single Rust char",
                    ),
                ),
            },
            _ => Err(
                JavaError::InvalidArgument(
                    "expected a Java `char` return value but got a different Java type",
                ),
            ),
        }
    }
}

impl ToJava for String {
    open spec fn sent(&self) -> Result<Seq<OutgoingModel>, ErrorModel> {
        Ok(seq![OutgoingModel::Text(self@)])
    }

    open spec fn arg_types(&self) -> Seq<char> {
        "Ljava/lang/String;"@
    }

    fn to_java(&self) -> (r: Result<Vec<Outgoing>, JavaError>) {
        one(Outgoing::Text(self.as_str().to_owned()))
    }

    fn java_args(&self) -> (s: String) {
        "Ljava/lang/String;".to_owned()
    }
}

impl ToJava for &str {
    open spec fn sent(&self) -> Result<Seq<OutgoingModel>, ErrorModel> {
        Ok(seq![OutgoingModel::Text(self@)])
    }

    open spec fn arg_types(&self) -> Seq<char> {
        "Ljava/lang/String;"@
    }

    fn to_java(&self) -> (r: Result<Vec<Outgoing>, JavaError>) {
        let s: &str = *self;
        one(Outgoing::Text(s.to_owned()))
    }

    fn java_args(&self) -> (s: String) {
        "Ljava/lang/String;".to_owned()
    }
}

impl FromJava for String {
    type Content = Seq<char>;

    open spec fn content(&self) -> Seq<char> {
        self@
    }

    open spec fn return_type() -> Seq<char> {
        "Ljava/lang/String;"@
    }

    open spec fn wanted() -> Shape {
        Shape::One(ObjectShape::Text)
    }

    open spec fn received(v: IncomingModel) -> Result<Seq<char>, ErrorModel> {
        match v.value {
            JavaValue::Object(Some(_)) => match v.contents {
                ContentsModel::One(ReadingModel::Text(s)) => Ok(s),
                ContentsModel::One(ReadingModel::Failed(e)) => Err(e),
                _ => Err(
                    misuse("expected a Java `String` return value but got a different Java type"@),
                ),
            },
            JavaValue::Object(None) => Err(
                misuse(
                    "method returned null where a String was expected (use Option<String> to accept null)"@,
                ),
            ),
            _ => Err(
                misuse("expected a Java `String` return value but got a different Java type"@),
            ),
        }
    }

    open spec fn nullable() -> bool {
        false
    }

    fn java_return_type() -> (s: String) {
        "Ljava/lang/String;".to_owned()
    }

    fn shape() -> (s: Shape) {
        Shape::One(ObjectShape::Text)
    }

    fn accepts_null() -> (b: bool) {
        false
    }

    fn from_java(v: Incoming) -> (r: Result<Self, JavaError>) {
        match v.value {
            JavaValue::Object(Some(_)) => match v.contents {
                Contents::One(Reading::Text(s)) => Ok(s),
                Contents::One(Reading::Failed(e)) => Err(e),
                _ => Err(
                    JavaError::InvalidArgument(
                        "expected a Java `String` return value but got a different Java type",
                    ),
                ),
            },
            JavaValue::Object(None) => Err(
                JavaError::InvalidArgument(
                    "method returned null where a String was expected (use Option<String> to accept null)",
                ),
            ),
            _ => Err(
                JavaError::InvalidArgument(
                    "expected a Java `String` return value but got a different Java type",
                ),
            ),
        }
    }
}

impl<T: ToJava> ToJava for Option<T> {
    open spec fn sent(&self) -> Result<Seq<OutgoingModel>, ErrorModel> {
        match self {
            Some(x) => x.sent(),
            None => Ok(seq![OutgoingModel::Arg(JavaArg::Object(None))]),
        }
    }

    open spec fn arg_types(&self) -> Seq<char> {
        match self {
            Some(x) => x.arg_types(),
            None => "Ljava/lang/Object;"@,
        }
    }

    fn to_java(&self) -> (r: Result<Vec<Outgoing>, JavaError>) {
        match self {
            Some(x) => x.to_java(),
            None => one(Outgoing::Arg(JavaArg::Object(None))),
        }
    }

    fn java_args(&self) -> (s: String) {
        match self {
            Some(x) => x.java_args(),
            None => "Ljava/lang/Object;".to_owned(),
        }
    }
}

impl<T: FromJava> FromJava for Option<T> {
    type Content = Option<T::Content>;

    open spec fn content(&self) -> Option<T::Content> {
        match self {
            Some(x) => Some(x.content()),
            None => None,
        }
    }

    open spec fn return_type() -> Seq<char> {
        T::return_type()
    }

    open spec fn wanted() -> Shape {
        T::wanted()
    }

    open spec fn received(v: IncomingModel) -> Result<Option<T::Content>, ErrorModel> {
        if v.value == JavaValue::Object(None) {
            Ok(None)
        } else {
            match T::received(v) {
                Ok(x) => Ok(Some(x)),
                Err(e) => Err(e),
            }
        }
    }

    open spec fn nullable() -> bool {
        true
    }

    fn java_return_type() -> (s: String) {
        T::java_return_type()
    }

    fn shape() -> (s: Shape) {
        T::shape()
    }

    fn accepts_null() -> (b: bool) {
        true
    }

    fn from_java(v: Incoming) -> (r: Result<Self, JavaError>) {
        if let JavaValue::Object(None) = v.value {
            return Ok(None);
        }
        match T::from_java(v) {
            Ok(x) => Ok(Some(x)),
            Err(e) => Err(e),
        }
    }
}

/// The object that came back, where one is required and nothing more is read of it than
/// that it has the right shape.
pub open spec fn handle_received(v: IncomingModel, null: Seq<char>, other: Seq<char>) -> Result<
    u64,
    ErrorModel,
> {
    match v.value {
        JavaValue::Object(Some(id)) => match v.contents {
            ContentsModel::One(ReadingModel::Failed(e)) => Err(e),
            _ => Ok(id),
        },
        JavaValue::Object(None) => Err(misuse(null)),
        _ => Err(misuse(other)),
    }
}

fn object_id(v: Incoming, null: &'static str, other: &'static str) -> (r: Result<u64, JavaError>)
    ensures
        match r {
            Ok(id) => handle_received(v@, null@, other@) == Ok::<u64, ErrorModel>(id),
            Err(e) => handle_received(v@, null@, other@) == Err::<u64, ErrorModel>(e@),
        },
{
    match v.value {
        JavaValue::Object(Some(id)) => match v.contents {
            Contents::One(Reading::Failed(e)) => Err(e),
            _ => Ok(id),
        },
        JavaValue::Object(None) => Err(JavaError::InvalidArgument(null)),
        _ => Err(JavaError::InvalidArgument(other)),
    }
}

impl ToJava for JObject {
    open spec fn sent(&self) -> Result<Seq<OutgoingModel>, ErrorModel> {
        Ok(seq![OutgoingModel::Arg(JavaArg::Object(Some(self.id)))])
    }

    open spec fn arg_types(&self) -> Seq<char> {
        "Ljava/lang/Object;"@
    }

    fn to_java(&self) -> (r: Result<Vec<Outgoing>, JavaError>) {
        one(Outgoing::Arg(JavaArg::Object(Some(self.id))))
    }

    fn java_args(&self) -> (s: String) {
        "Ljava/lang/Object;".to_owned()
    }
}

impl FromJava for JObject {
    type Content = u64;

    open spec fn content(&self) -> u64 {
        self.id
    }

    open spec fn return_type() -> Seq<char> {
        "Ljava/lang/Object;"@
    }

    open spec fn wanted() -> Shape {
        Shape::One(ObjectShape::Any)
    }

    open spec fn received(v: IncomingModel) -> Result<u64, ErrorModel> {
        handle_received(
            v,
            "method returned null where an object was expected (use Option<JObject> to accept null)"@,
            "expected a Java object return value but got a primitive"@,
        )
    }

    open spec fn nullable() -> bool {
        false
    }

    fn java_return_type() -> (s: String) {
        "Ljava/lang/Object;".to_owned()
    }

    fn shape() -> (s: Shape) {
        Shape::One(ObjectShape::Any)
    }

    fn accepts_null() -> (b: bool) {
        false
    }

    fn from_java(v: Incoming) -> (r: Result<Self, JavaError>) {
        match object_id(
            v,
            "method returned null where an object was expected (use Option<JObject> to accept null)",
            "expected a Java object return value but got a primitive",
        ) {
            Ok(id) => Ok(JObject { id }),
            Err(e) => Err(e),
        }
    }
}

impl ToJava for JClass {
    open spec fn sent(&self) -> Result<Seq<OutgoingModel>, ErrorModel> {
        Ok(seq![OutgoingModel::Arg(JavaArg::Object(Some(self.id)))])
    }

    open spec fn arg_types(&self) -> Seq<char> {
        "Ljava/lang/Class;"@
    }

    fn to_java(&self) -> (r: Result<Vec<Outgoing>, JavaError>) {
        one(Outgoing::Arg(JavaArg::Object(Some(self.id))))
    }

    fn java_args(&self) -> (s: String) {
        "Ljava/lang/Class;".to_owned()
    }
}

impl FromJava for JClass {
    type Content = u64;

    open spec fn content(&self) -> u64 {
        self.id
    }

    open spec fn return_type() -> Seq<char> {
        "Ljava/lang/Class;"@
    }

    open spec fn wanted() -> Shape {
        Shape::One(ObjectShape::Class)
    }

    open spec fn received(v: IncomingModel) -> Result<u64, ErrorModel> {
        handle_received(
            v,
            "method returned null where a Class was expected"@,
            "expected a java.lang.Class return value but got a different Java type"@,
        )
    }

    open spec fn nullable() -> bool {
        false
    }

    fn java_return_type() -> (s: String) {
        "Ljava/lang/Class;".to_owned()
    }

    fn shape() -> (s: Shape) {
        Shape::One(ObjectShape::Class)
    }

    fn accepts_null() -> (b: bool) {
        false
    }

    fn from_java(v: Incoming) -> (r: Result<Self, JavaError>) {
        match object_id(
            v,
            "method returned null where a Class was expected",
            "expected a java.lang.Class return value but got a different Java type",
        ) {
            Ok(id) => Ok(JClass { id }),
            Err(e) => Err(e),
        }
    }
}

impl ToJava for crate::handles::JClassLoader {
    open spec fn sent(&self) -> Result<Seq<OutgoingModel>, ErrorModel> {
        Ok(seq![OutgoingModel::Arg(JavaArg::Object(Some(self.id)))])
    }

    open spec fn arg_types(&self) -> Seq<char> {
        "Ljava/lang/ClassLoader;"@
    }

    fn to_java(&self) -> (r: Result<Vec<Outgoing>, JavaError>) {
        one(Outgoing::Arg(JavaArg::Object(Some(self.id))))
    }

    fn java_args(&self) -> (s: String) {
        "Ljava/lang/ClassLoader;".to_owned()
    }
}

/// A Rust type that can be an element of a primitive Java array.
pub trait JavaArrayElement: ToJava + FromJava {
    /// The element type.
    spec fn kind() -> ArrayKind;

    /// The element as a raw value.
    spec fn raw(&self) -> Result<JavaArg, ErrorModel>;

    /// The JNI type fragment of one element.
    fn element_signature() -> (s: &'static str)
        ensures
            s@ == seq![kind_letter(Self::kind())],
    ;

    /// The element type.
    fn __kind() -> (k: ArrayKind)
        ensures
            k == Self::kind(),
    ;

    /// The element as a raw value.
    fn __as_java_arg(&self) -> (r: Result<JavaArg, JavaError>)
        ensures
            match r {
                Ok(a) => self.raw() == Ok::<JavaArg, ErrorModel>(a),
                Err(e) => self.raw() == Err::<JavaArg, ErrorModel>(e@),
            },
    ;
}

/// The raw value of a character that is an array element.
pub open spec fn char_element(c: char) -> Result<JavaArg, ErrorModel> {
    if is_one_unit(c) {
        Ok(JavaArg::Char(c as u16))
    } else {
        Err(
            misuse(
                "a char above U+FFFF cannot be represented as a single Java char; use String instead"@,
            ),
        )
    }
}

fn char_arg(c: char) -> (r: Result<JavaArg, JavaError>)
    ensures
        match r {
            Ok(a) => char_element(c) == Ok::<JavaArg, ErrorModel>(a),
            Err(e) => char_element(c) == Err::<JavaArg, ErrorModel>(e@),
        },
{
    match code_unit(c) {
        Some(u) => Ok(JavaArg::Char(u)),
        None => Err(
            JavaError::InvalidArgument(
                "a char above U+FFFF cannot be represented as a single Java char; use String instead",
            ),
        ),
    }
}

impl JavaArrayElement for bool {
    open spec fn kind() -> ArrayKind {
        ArrayKind::Bool
    }

    open spec fn raw(&self) -> Result<JavaArg, ErrorModel> {
        Ok(JavaArg::Bool(*self))
    }

    fn element_signature() -> (s: &'static str) {
        proof {
            reveal_strlit("Z");
        }
        assert("Z"@ =~= seq!['Z']);
        "Z"
    }

    fn __kind() -> (k: ArrayKind) {
        ArrayKind::Bool
    }

    fn __as_java_arg(&self) -> (r: Result<JavaArg, JavaError>) {
        Ok(JavaArg::Bool(*self))
    }
}

impl JavaArrayElement for i8 {
    open spec fn kind() -> ArrayKind {
        ArrayKind::Byte
    }

    open spec fn raw(&self) -> Result<JavaArg, ErrorModel> {
        Ok(JavaArg::Byte(*self))
    }

    fn element_signature() -> (s: &'static str) {
        proof {
            reveal_strlit("B");
        }
        assert("B"@ =~= seq!['B']);
        "B"
    }

    fn __kind() -> (k: ArrayKind) {
        ArrayKind::Byte
    }

    fn __as_java_arg(&self) -> (r: Result<JavaArg, JavaError>) {
        Ok(JavaArg::Byte(*self))
    }
}

impl JavaArrayElement for i16 {
    open spec fn kind() -> ArrayKind {
        ArrayKind::Short
    }

    open spec fn raw(&self) -> Result<JavaArg, ErrorModel> {
        Ok(JavaArg::Short(*self))
    }

    fn element_signature() -> (s: &'static str) {
        proof {
            reveal_strlit("S");
        }
        assert("S"@ =~= seq!['S']);
        "S"
    }

    fn __kind() -> (k: ArrayKind) {
        ArrayKind::Short
    }

    fn __as_java_arg(&self) -> (r: Result<JavaArg, JavaError>) {
        Ok(JavaArg::Short(*self))
    }
}

impl JavaArrayElement for i32 {
    open spec fn kind() -> ArrayKind {
        ArrayKind::Int
    }

    open spec fn raw(&self) -> Result<JavaArg, ErrorModel> {
        Ok(JavaArg::Int(*self))
    }

    fn element_signature() -> (s: &'static str) {
        proof {
            reveal_strlit("I");
        }
        assert("I"@ =~= seq!['I']);
        "I"
    }

    fn __kind() -> (k: ArrayKind) {
        ArrayKind::Int
    }

    fn __as_java_arg(&self) -> (r: Result<JavaArg, JavaError>) {
        Ok(JavaArg::Int(*self))
    }
}

impl JavaArrayElement for i64 {
    open spec fn kind() -> ArrayKind {
        ArrayKind::Long
    }

    open spec fn raw(&self) -> Result<JavaArg, ErrorModel> {
        Ok(JavaArg::Long(*self))
    }

    fn element_signature() -> (s: &'static str) {
        proof {
            reveal_strlit("J");
        }
        assert("J"@ =~= seq!['J']);
        "J"
    }

    fn __kind() -> (k: ArrayKind) {
        ArrayKind::Long
    }

    fn __as_java_arg(&self) -> (r: Result<JavaArg, JavaError>) {
        Ok(JavaArg::Long(*self))
    }
}

impl JavaArrayElement for FloatBits {
    open spec fn kind() -> ArrayKind {
        ArrayKind::Float
    }

    open spec fn raw(&self) -> Result<JavaArg, ErrorModel> {
        Ok(JavaArg::Float(self.0))
    }

    fn element_signature() -> (s: &'static str) {
        proof {
            reveal_strlit("F");
        }
        assert("F"@ =~= seq!['F']);
        "F"
    }

    fn __kind() -> (k: ArrayKind) {
        ArrayKind::Float
    }

    fn __as_java_arg(&self) -> (r: Result<JavaArg, JavaError>) {
        Ok(JavaArg::Float(self.0))
    }
}

impl JavaArrayElement for DoubleBits {
    open spec fn kind() -> ArrayKind {
        ArrayKind::Double
    }

    open spec fn raw(&self) -> Result<JavaArg, ErrorModel> {
        Ok(JavaArg::Double(self.0))
    }

    fn element_signature() -> (s: &'static str) {
        proof {
            reveal_strlit("D");
        }
        assert("D"@ =~= seq!['D']);
        "D"
    }

    fn __kind() -> (k: ArrayKind) {
        ArrayKind::Double
    }

    fn __as_java_arg(&self) -> (r: Result<JavaArg, JavaError>) {
        Ok(JavaArg::Double(self.0))
    }
}

impl JavaArrayElement for char {
    open spec fn kind() -> ArrayKind {
        ArrayKind::Char
    }

    open spec fn raw(&self) -> Result<JavaArg, ErrorModel> {
        char_element(*self)
    }

    fn element_signature() -> (s: &'static str) {
        proof {
            reveal_strlit("C");
        }
        assert("C"@ =~= seq!['C']);
        "C"
    }

    fn __kind() -> (k: ArrayKind) {
        ArrayKind::Char
    }

    fn __as_java_arg(&self) -> (r: Result<JavaArg, JavaError>) {
        char_arg(*self)
    }
}

/// The JNI type fragment of a primitive array.
pub open spec fn array_type(kind: ArrayKind) -> Seq<char> {
    "["@ + seq![kind_letter(kind)]
}

pub(crate) fn array_type_of<T: JavaArrayElement>() -> (s: String)
    ensures
        s@ == array_type(T::kind()),
{
    let mut s = "[".to_owned();
    s.push_str(T::element_signature());
    s
}

impl<T: JavaArrayElement> ToJava for JArray<T> {
    open spec fn sent(&self) -> Result<Seq<OutgoingModel>, ErrorModel> {
        Ok(seq![OutgoingModel::Arg(JavaArg::Object(Some(self.id)))])
    }

    open spec fn arg_types(&self) -> Seq<char> {
        array_type(T::kind())
    }

    fn to_java(&self) -> (r: Result<Vec<Outgoing>, JavaError>) {
        one(Outgoing::Arg(JavaArg::Object(Some(self.id))))
    }

    fn java_args(&self) -> (s: String) {
        array_type_of::<T>()
    }
}

impl<T: JavaArrayElement> FromJava for JArray<T> {
    type Content = u64;

    open spec fn content(&self) -> u64 {
        self.id
    }

    open spec fn return_type() -> Seq<char> {
        array_type(T::kind())
    }

    open spec fn wanted() -> Shape {
        Shape::One(ObjectShape::PrimitiveArray(T::kind()))
    }

    open spec fn received(v: IncomingModel) -> Result<u64, ErrorModel> {
        handle_received(
            v,
            "method returned null where an array was expected"@,
            "expected a Java array return value but got a primitive"@,
        )
    }

    open spec fn nullable() -> bool {
        false
    }

    fn java_return_type() -> (s: String) {
        array_type_of::<T>()
    }

    fn shape() -> (s: Shape) {
        Shape::One(ObjectShape::PrimitiveArray(T::__kind()))
    }

    fn accepts_null() -> (b: bool) {
        false
    }

    fn from_java(v: Incoming) -> (r: Result<Self, JavaError>) {
        match object_id(
            v,
            "method returned null where an array was expected",
            "expected a Java array return value but got a primitive",
        ) {
            Ok(id) => Ok(JArray::from_id(id)),
            Err(e) => Err(e),
        }
    }
}

impl ToJava for JArray<JObject> {
    open spec fn sent(&self) -> Result<Seq<OutgoingModel>, ErrorModel> {
        Ok(seq![OutgoingModel::Arg(JavaArg::Object(Some(self.id)))])
    }

    open spec fn arg_types(&self) -> Seq<char> {
        "[Ljava/lang/Object;"@
    }

    fn to_java(&self) -> (r: Result<Vec<Outgoing>, JavaError>) {
        one(Outgoing::Arg(JavaArg::Object(Some(self.id))))
    }

    fn java_args(&self) -> (s: String) {
        "[Ljava/lang/Object;".to_owned()
    }
}

impl FromJava for JArray<JObject> {
    type Content = u64;

    open spec fn content(&self) -> u64 {
        self.id
    }

    open spec fn return_type() -> Seq<char> {
        "[Ljava/lang/Object;"@
    }

    open spec fn wanted() -> Shape {
        Shape::One(ObjectShape::ObjectArray)
    }

    open spec fn received(v: IncomingModel) -> Result<u64, ErrorModel> {
        handle_received(
            v,
            "method returned null where an array was expected"@,
            "expected a Java array return value but got a primitive"@,
        )
    }

    open spec fn nullable() -> bool {
        false
    }

    fn java_return_type() -> (s: String) {
        "[Ljava/lang/Object;".to_owned()
    }

    fn shape() -> (s: Shape) {
        Shape::One(ObjectShape::ObjectArray)
    }

    fn accepts_null() -> (b: bool) {
        false
    }

    fn from_java(v: Incoming) -> (r: Result<Self, JavaError>) {
        match object_id(
            v,
            "method returned null where an array was expected",
            "expected a Java array return value but got a primitive",
        ) {
            Ok(id) => Ok(JArray::from_id(id)),
            Err(e) => Err(e),
        }
    }
}
}
