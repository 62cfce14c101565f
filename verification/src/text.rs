//! Small string facts shared by the other modules.

use vstd::prelude::*;

verus! {

/// `String::push` appends the given character to the end of the string.
pub assume_specification[ String::push ](s: &mut String, ch: char)
    ensures
        final(s)@ == old(s)@.push(ch),
;

/// Where `needle` first occurs in `text`, counted in characters.
pub fn find_char(text: &str, needle: char) -> (found: Option<usize>)
    ensures
        match found {
            Some(i) => text@.index_of_first(needle) == Some(i as int),
            None => text@.index_of_first(needle) is None,
        },
{
    let length = text.unicode_len();
    let mut position: usize = 0;
    for c in it: text.chars()
        invariant
            it.seq() == text@,
            position == it.index(),
            length == text@.len(),
            forall|j: int| 0 <= j < position ==> text@[j] != needle,
    {
        if c == needle {
            proof {
                text@.index_of_first_ensures(needle);
            }
            return Some(position);
        }
        position = position + 1;
    }
    proof {
        text@.index_of_first_ensures(needle);
    }
    None
}

/// In `head + [mark] + tail`, where `head` holds no `mark`, the first `mark`
/// is the one between the two parts.
pub proof fn lemma_first_mark(head: Seq<char>, mark: char, tail: Seq<char>)
    requires
        !head.contains(mark),
    ensures
        (head + seq![mark] + tail).index_of_first(mark) == Some(head.len() as int),
        (head + seq![mark] + tail).take(head.len() as int) == head,
        (head + seq![mark] + tail).skip(head.len() as int + 1) == tail,
{
    let whole = head + seq![mark] + tail;
    let at = head.len() as int;
    assert(whole[at] == mark);
    assert(whole.contains(mark));
    whole.index_of_first_ensures(mark);
    let first = whole.index_of_first(mark)->0;
    if first < at {
        assert(head[first] == whole[first]);
        assert(head.contains(mark));
    }
    assert(whole.take(at) =~= head);
    assert(whole.skip(at + 1) =~= tail);
}

} // verus!
