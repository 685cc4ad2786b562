use vstd::prelude::*;

verus! {

/// One row of an editable table: a key, its value, and whether the row counts.
#[derive(Debug)]
pub struct KeyValue {
    pub enabled: bool,
    pub data: (String, String),
}

/// What a [`KeyValue`] holds.
#[verifier::ext_equal]
pub struct KeyValueView {
    pub enabled: bool,
    pub key: Seq<char>,
    pub value: Seq<char>,
}

impl View for KeyValue {
    type V = KeyValueView;

    open spec fn view(&self) -> KeyValueView {
        KeyValueView { enabled: self.enabled, key: self.data.0@, value: self.data.1@ }
    }
}

impl Clone for KeyValue {
    fn clone(&self) -> (copy: KeyValue)
        ensures
            copy@ == self@,
    {
        KeyValue { enabled: self.enabled, data: (self.data.0.clone(), self.data.1.clone()) }
    }
}

/// The views of the items of a sequence, in the same order.
pub open spec fn views<T: View>(items: Seq<T>) -> Seq<T::V> {
    Seq::new(items.len(), |i: int| items[i]@)
}

/// A copy of a table's rows.
pub fn copy_rows(rows: &Vec<KeyValue>) -> (copy: Vec<KeyValue>)
    ensures
        views(copy@) == views(rows@),
{
    let mut copy: Vec<KeyValue> = Vec::new();
    let mut i: usize = 0;
    while i < rows.len()
        invariant
            i <= rows.len(),
            copy.len() == i,
            forall|k: int| 0 <= k < i ==> copy[k]@ == rows[k]@,
        decreases rows.len() - i,
    {
        copy.push(rows[i].clone());
        i += 1;
    }
    assert(views(copy@) =~= views(rows@));
    copy
}

} // verus!
