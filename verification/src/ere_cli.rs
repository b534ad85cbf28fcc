//! Inputs as the command-line tool reads them from a file.
use crate::dockerized_server::SerializedInputItem;
use vstd::prelude::*;

verus! {

/// An input item: an object serialized the way the zkVM expects, or raw
/// bytes.
#[derive(Clone, Debug, PartialEq, Eq)]
pub enum SerializableInputItem {
    SerializedObject(Vec<u8>),
    Bytes(Vec<u8>),
}

impl SerializableInputItem {
    /// The same item, in the form the zkVM server takes.
    pub fn into_serialized(self) -> (r: SerializedInputItem)
        ensures
            match self {
                SerializableInputItem::SerializedObject(b) => r == SerializedInputItem::SerializedObject(b),
                SerializableInputItem::Bytes(b) => r == SerializedInputItem::Bytes(b),
            },
    {
        match self {
            SerializableInputItem::SerializedObject(b) => SerializedInputItem::SerializedObject(b),
            SerializableInputItem::Bytes(b) => SerializedInputItem::Bytes(b),
        }
    }
}

/// The items of an input file, in the form the zkVM server takes, in order.
pub fn read_input_items(items: Vec<SerializableInputItem>) -> (r: Vec<SerializedInputItem>)
    ensures
        r@.len() == items@.len(),
        forall|i: int|
            0 <= i < items@.len() ==> match #[trigger] items@[i] {
                SerializableInputItem::SerializedObject(b) => r@[i] == SerializedInputItem::SerializedObject(b),
                SerializableInputItem::Bytes(b) => r@[i] == SerializedInputItem::Bytes(b),
            },
{
    let ghost orig = items@;
    let mut items = items;
    let mut rev: Vec<SerializedInputItem> = Vec::new();
    while items.len() > 0
        invariant
            items@.len() + rev@.len() == orig.len(),
            items@ == orig.take(items@.len() as int),
            forall|k: int|
                0 <= k < rev@.len() ==> match #[trigger] orig[orig.len() - 1 - k] {
                    SerializableInputItem::SerializedObject(b) => rev@[k] == SerializedInputItem::SerializedObject(b),
                    SerializableInputItem::Bytes(b) => rev@[k] == SerializedInputItem::Bytes(b),
                },
        decreases items@.len(),
    {
        let ghost before = items@;
        let it = items.pop().unwrap();
        assert(it == orig[before.len() - 1]);
        assert(items@ =~= orig.take(items@.len() as int));
        rev.push(it.into_serialized());
    }
    let mut r: Vec<SerializedInputItem> = Vec::new();
    while rev.len() > 0
        invariant
            r@.len() + rev@.len() == orig.len(),
            forall|k: int|
                0 <= k < rev@.len() ==> match #[trigger] orig[orig.len() - 1 - k] {
                    SerializableInputItem::SerializedObject(b) => rev@[k] == SerializedInputItem::SerializedObject(b),
                    SerializableInputItem::Bytes(b) => rev@[k] == SerializedInputItem::Bytes(b),
                },
            forall|i: int|
                0 <= i < r@.len() ==> match #[trigger] orig[i] {
                    SerializableInputItem::SerializedObject(b) => r@[i] == SerializedInputItem::SerializedObject(b),
                    SerializableInputItem::Bytes(b) => r@[i] == SerializedInputItem::Bytes(b),
                },
        decreases rev@.len(),
    {
        let ghost k = rev@.len() - 1;
        let it = rev.pop().unwrap();
        assert(orig.len() - 1 - k == r@.len());
        r.push(it);
    }
    r
}

} // verus!
