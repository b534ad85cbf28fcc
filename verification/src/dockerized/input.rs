//! The input of the Docker driver's server: each input item in the form the
//! zkVM reads.
use crate::dockerized::zkvm::ErezkVM;
use crate::dockerized_server::{SerializedInput, SerializedInputItem};
use crate::ere_dockerized::input::ObjectEncoding;
use vstd::prelude::*;

verus! {

/// An input item as the caller hands it over: an object that the caller
/// serialized in the zkVM's `object_encoding`, an object serialized
/// before, or raw bytes.
#[derive(Clone, Debug, PartialEq, Eq)]
pub enum InputItem {
    Object(Vec<u8>),
    SerializedObject(Vec<u8>),
    Bytes(Vec<u8>),
}

/// The item the server receives for `item`: objects, however serialized,
/// are serialized objects; bytes stay bytes.
pub open spec fn served_item(item: InputItem) -> SerializedInputItem {
    match item {
        InputItem::Object(b) => SerializedInputItem::SerializedObject(b),
        InputItem::SerializedObject(b) => SerializedInputItem::SerializedObject(b),
        InputItem::Bytes(b) => SerializedInputItem::Bytes(b),
    }
}

/// Whether the zkVM's objects can be serialized: Jolt, Nexus and Airbender
/// have no object encoding.
pub open spec fn serializes_objects(z: ErezkVM) -> bool {
    !(z is Jolt || z is Nexus || z is Airbender)
}

/// The encoding a zkVM's guest reads objects in.
pub open spec fn object_encoding_of(z: ErezkVM) -> ObjectEncoding {
    match z {
        ErezkVM::OpenVM | ErezkVM::Risc0 => ObjectEncoding::Risc0Words,
        _ => ObjectEncoding::Bincode,
    }
}

impl InputItem {
    /// The item the server receives for this one.
    pub fn into_served(self) -> (r: SerializedInputItem)
        ensures
            r == served_item(self),
    {
        match self {
            InputItem::Object(b) => SerializedInputItem::SerializedObject(b),
            InputItem::SerializedObject(b) => SerializedInputItem::SerializedObject(b),
            InputItem::Bytes(b) => SerializedInputItem::Bytes(b),
        }
    }
}

impl ErezkVM {
    /// The encoding the zkVM's guest reads objects in: the Risc0 words for
    /// OpenVM and Risc0, `bincode` for the others that have one.
    pub fn object_encoding(&self) -> (r: ObjectEncoding)
        requires
            serializes_objects(*self),
        ensures
            r == object_encoding_of(*self),
    {
        match self {
            ErezkVM::OpenVM | ErezkVM::Risc0 => ObjectEncoding::Risc0Words,
            _ => ObjectEncoding::Bincode,
        }
    }

    /// The input the zkVM's server receives for `items`, item by item and in
    /// order.
    pub fn serialize_inputs(&self, items: Vec<InputItem>) -> (r: SerializedInput)
        ensures
            r.0@.len() == items@.len(),
            forall|i: int| 0 <= i < items@.len() ==> r.0@[i] == served_item(#[trigger] items@[i]),
    {
        let ghost orig = items@;
        let mut items = items;
        let mut rev: Vec<SerializedInputItem> = Vec::new();
        while items.len() > 0
            invariant
                items@.len() + rev@.len() == orig.len(),
                items@ == orig.take(items@.len() as int),
                forall|k: int| 0 <= k < rev@.len() ==> rev@[k] == served_item(#[trigger] orig[orig.len() - 1 - k]),
            decreases items@.len(),
        {
            let ghost before = items@;
            let it = items.pop().unwrap();
            assert(it == orig[before.len() - 1]);
            assert(items@ =~= orig.take(items@.len() as int));
            rev.push(it.into_served());
        }
        let mut r: Vec<SerializedInputItem> = Vec::new();
        while rev.len() > 0
            invariant
                r@.len() + rev@.len() == orig.len(),
                forall|k: int| 0 <= k < rev@.len() ==> rev@[k] == served_item(#[trigger] orig[orig.len() - 1 - k]),
                forall|i: int| 0 <= i < r@.len() ==> r@[i] == served_item(#[trigger] orig[i]),
            decreases rev@.len(),
        {
            let ghost k = rev@.len() - 1;
            let it = rev.pop().unwrap();
            assert(orig.len() - 1 - k == r@.len());
            r.push(it);
        }
        SerializedInput(r)
    }
}

} // verus!
