use vstd::prelude::*;

use std::marker::PhantomData;

verus! {

/// A Java object, by the number under which it is held.
#[derive(Clone, Copy, PartialEq, Eq, Structural, Debug)]
pub struct JObject {
    pub id: u64,
}

/// A Java class, by the number under which it is held.
#[derive(Clone, Copy, PartialEq, Eq, Structural, Debug)]
pub struct JClass {
    pub id: u64,
}

/// A Java array of `T`, by the number under which it is held.
#[derive(Debug)]
pub struct JArray<T> {
    pub id: u64,
    pub element: PhantomData<T>,
}

/// A class loader, by the number under which it is held.
#[derive(Clone, Copy, PartialEq, Eq, Structural, Debug)]
pub struct JClassLoader {
    pub id: u64,
}

impl<T> JArray<T> {
    /// The array that is held under that number.
    pub fn from_id(id: u64) -> (a: Self)
        ensures
            a.id == id,
    {
        JArray { id, element: PhantomData }
    }
}

}
