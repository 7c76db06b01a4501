//! Changes to an observable list, as the room list and the timelines receive
//! them (the `VectorDiff` of `eyeball-im`), and how they are applied.
use vstd::prelude::*;

verus! {

/// One change to a list.
pub enum VectorDiff<T> {
    Append { values: Vec<T> },
    Clear,
    PushFront { value: T },
    PushBack { value: T },
    PopFront,
    PopBack,
    Insert { index: usize, value: T },
    Replace { index: usize, value: T },
    Remove { index: usize },
    Truncate { length: usize },
    Reset { values: Vec<T> },
}

/// A change can be applied to a list of `len` elements: positions it names
/// exist (an insertion may also go at the end), and a truncation does not
/// lengthen the list.
pub open spec fn diff_applicable<T>(len: nat, d: VectorDiff<T>) -> bool {
    match d {
        VectorDiff::Insert { index, .. } => index <= len,
        VectorDiff::Replace { index, .. } => index < len,
        VectorDiff::Remove { index } => index < len,
        VectorDiff::Truncate { length } => length <= len,
        _ => true,
    }
}

/// Whether a change can be applied to a list of `len` elements.
pub fn diff_fits<T>(len: usize, diff: &VectorDiff<T>) -> (fits: bool)
    ensures
        fits == diff_applicable(len as nat, *diff),
{
    match diff {
        VectorDiff::Insert { index, .. } => *index <= len,
        VectorDiff::Replace { index, .. } => *index < len,
        VectorDiff::Remove { index } => *index < len,
        VectorDiff::Truncate { length } => *length <= len,
        _ => true,
    }
}

/// The list after the change.
pub open spec fn applied<T>(s: Seq<T>, d: VectorDiff<T>) -> Seq<T> {
    match d {
        VectorDiff::Append { values } => s + values@,
        VectorDiff::Clear => Seq::empty(),
        VectorDiff::PushFront { value } => seq![value] + s,
        VectorDiff::PushBack { value } => s.push(value),
        VectorDiff::PopFront => if s.len() == 0 {
            s
        } else {
            s.drop_first()
        },
        VectorDiff::PopBack => if s.len() == 0 {
            s
        } else {
            s.drop_last()
        },
        VectorDiff::Insert { index, value } => s.insert(index as int, value),
        VectorDiff::Replace { index, value } => s.update(index as int, value),
        VectorDiff::Remove { index } => s.remove(index as int),
        VectorDiff::Truncate { length } => s.take(length as int),
        VectorDiff::Reset { values } => values@,
    }
}

/// Applies one change to `list`.
pub fn apply_diff<T>(list: &mut Vec<T>, diff: VectorDiff<T>)
    requires
        diff_applicable(old(list)@.len(), diff),
    ensures
        final(list)@ == applied(old(list)@, diff),
{
    match diff {
        VectorDiff::Append { values } => {
            let mut values = values;
            list.append(&mut values);
        },
        VectorDiff::Clear => {
            list.clear();
        },
        VectorDiff::PushFront { value } => {
            list.insert(0, value);
            assert(list@ =~= seq![value] + old(list)@);
        },
        VectorDiff::PushBack { value } => {
            list.push(value);
        },
        VectorDiff::PopFront => {
            if list.len() > 0 {
                let _first = list.remove(0);
                assert(list@ =~= old(list)@.drop_first());
            }
        },
        VectorDiff::PopBack => {
            if list.len() > 0 {
                let _last = list.pop();
            }
        },
        VectorDiff::Insert { index, value } => {
            list.insert(index, value);
        },
        VectorDiff::Replace { index, value } => {
            list.set(index, value);
        },
        VectorDiff::Remove { index } => {
            let _removed = list.remove(index);
        },
        VectorDiff::Truncate { length } => {
            list.truncate(length);
        },
        VectorDiff::Reset { values } => {
            *list = values;
        },
    }
}

} // verus!
