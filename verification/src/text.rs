//! Small helpers on strings, stated over their character sequences.

use vstd::prelude::*;

verus! {

/// The characters of each string of `items`, in order.
pub open spec fn texts(items: Seq<String>) -> Seq<Seq<char>> {
    items.map_values(|s: String| s@)
}

/// Whether two strings hold the same characters.
pub fn text_eq(a: &str, b: &str) -> (same: bool)
    ensures
        same == (a@ == b@),
{
    let left = a.to_owned();
    let right = b.to_owned();
    left == right
}

/// Appends a copy of each string of `items` to `target`.
pub fn append_all(target: &mut Vec<String>, items: &Vec<String>)
    ensures
        texts(final(target)@) == texts(old(target)@) + texts(items@),
{
    let ghost before = texts(target@);
    let mut i: usize = 0;
    assert(texts(items@).take(0) =~= Seq::<Seq<char>>::empty());
    assert(before + texts(items@).take(0) =~= before);
    while i < items.len()
        invariant
            i <= items.len(),
            texts(target@) == before + texts(items@).take(i as int),
        decreases items.len() - i,
    {
        let ghost so_far = texts(target@);
        target.push(items[i].clone());
        assert(texts(target@) =~= so_far.push(items[i as int]@));
        assert(texts(items@).take(i + 1) =~= texts(items@).take(i as int).push(items[i as int]@));
        assert(texts(target@) =~= before + texts(items@).take(i + 1));
        i += 1;
    }
    assert(texts(items@).take(i as int) =~= texts(items@));
}

/// Appends a copy of each string of `items` from position `from` on to `target`.
pub(crate) fn append_from(target: &mut Vec<String>, items: &Vec<String>, from: usize)
    requires
        from <= items.len(),
    ensures
        texts(final(target)@) == texts(old(target)@) + texts(items@).skip(from as int),
{
    let ghost before = texts(target@);
    let ghost tail = texts(items@).skip(from as int);
    let mut i: usize = from;
    assert(before + tail.take(0) =~= before);
    while i < items.len()
        invariant
            from <= i <= items.len(),
            tail == texts(items@).skip(from as int),
            texts(target@) == before + tail.take(i - from),
        decreases items.len() - i,
    {
        let ghost so_far = texts(target@);
        target.push(items[i].clone());
        assert(texts(target@) =~= so_far.push(items[i as int]@));
        assert(tail.take(i + 1 - from) =~= tail.take(i - from).push(items[i as int]@));
        assert(texts(target@) =~= before + tail.take(i + 1 - from));
        i += 1;
    }
    assert(tail.take(i - from) =~= tail);
}

/// Whether `text` begins with the character `first`.
pub fn starts_with_char(text: &str, first: char) -> (starts: bool)
    ensures
        starts == (text@.len() > 0 && text@[0] == first),
{
    text.unicode_len() > 0 && text.get_char(0) == first
}

/// A copy of `items`.
pub fn copy_all(items: &Vec<String>) -> (copy: Vec<String>)
    ensures
        texts(copy@) == texts(items@),
{
    let mut copy: Vec<String> = Vec::new();
    append_all(&mut copy, items);
    assert(texts(copy@) =~= texts(items@));
    copy
}

} // verus!
