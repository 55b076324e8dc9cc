//! Text that the driver composes: decimal numbers and joined lists.

use crate::id::{hex_digit, hex_digit_str};
use vstd::prelude::*;
use vstd::string::*;

verus! {

/// The decimal digits of a number, without leading zeros.
pub open spec fn decimal(n: nat) -> Seq<char>
    decreases n,
{
    if n < 10 {
        seq![hex_digit(n as int)]
    } else {
        decimal(n / 10).push(hex_digit((n % 10) as int))
    }
}

/// The parts in order, with the separator between neighbours.
pub open spec fn joined(parts: Seq<Seq<char>>, separator: Seq<char>) -> Seq<char>
    decreases parts.len(),
{
    if parts.len() == 0 {
        Seq::empty()
    } else if parts.len() == 1 {
        parts[0]
    } else {
        joined(parts.drop_last(), separator) + separator + parts.last()
    }
}

/// The views of a vector of strings.
pub open spec fn views(parts: Seq<String>) -> Seq<Seq<char>> {
    Seq::new(parts.len(), |i: int| parts[i]@)
}

/// Whether `part` stands in `text` at offset `at`.
pub open spec fn occurs_at(text: Seq<char>, part: Seq<char>, at: int) -> bool {
    &&& 0 <= at
    &&& at + part.len() <= text.len()
    &&& text.subrange(at, at + part.len()) == part
}

/// Whether `part` stands somewhere in `text`.
pub open spec fn occurs_in(text: Seq<char>, part: Seq<char>) -> bool {
    exists|at: int| occurs_at(text, part, at)
}

/// A joined text holds each of its parts.
pub proof fn lemma_joined_holds_each_part(parts: Seq<Seq<char>>, separator: Seq<char>, i: int)
    requires
        0 <= i < parts.len(),
    ensures
        occurs_in(joined(parts, separator), parts[i]),
    decreases parts.len(),
{
    let text = joined(parts, separator);
    if parts.len() == 1 {
        assert(text.subrange(0, parts[0].len() as int) =~= parts[0]);
        assert(occurs_at(text, parts[i], 0));
    } else {
        let head = joined(parts.drop_last(), separator);
        if i == parts.len() - 1 {
            let at: int = (head.len() + separator.len()) as int;
            assert(text.subrange(at, at + parts[i].len()) =~= parts[i]);
            assert(occurs_at(text, parts[i], at));
        } else {
            lemma_joined_holds_each_part(parts.drop_last(), separator, i);
            let at = choose|at: int| occurs_at(head, parts.drop_last()[i], at);
            assert(text.subrange(at, at + parts[i].len()) =~= head.subrange(
                at,
                at + parts[i].len(),
            ));
            assert(occurs_at(text, parts[i], at));
        }
    }
}

/// A part of a part of a text is a part of the text.
pub proof fn lemma_occurs_in_is_transitive(text: Seq<char>, middle: Seq<char>, part: Seq<char>)
    requires
        occurs_in(text, middle),
        occurs_in(middle, part),
    ensures
        occurs_in(text, part),
{
    let a = choose|at: int| occurs_at(text, middle, at);
    let b = choose|at: int| occurs_at(middle, part, at);
    assert(text.subrange(a + b, a + b + part.len()) =~= middle.subrange(b, b + part.len()));
    assert(occurs_at(text, part, a + b));
}

/// The decimal digits of a number.
pub fn decimal_text(n: u64) -> (text: String)
    ensures
        text@ == decimal(n as nat),
    decreases n,
{
    if n < 10 {
        let digit = hex_digit_str(n as u8);
        let mut text = String::new();
        text.append(digit);
        assert(text@ =~= decimal(n as nat));
        text
    } else {
        let mut text = decimal_text(n / 10);
        text.append(hex_digit_str((n % 10) as u8));
        assert(text@ =~= decimal(n as nat));
        text
    }
}

/// The parts in order, with the separator between neighbours.
pub fn join(parts: &Vec<String>, separator: &str) -> (text: String)
    ensures
        text@ == joined(views(parts@), separator@),
{
    let mut text = String::new();
    let mut i: usize = 0;
    let ghost all = views(parts@);
    assert(all.subrange(0, 0) =~= Seq::<Seq<char>>::empty());
    while i < parts.len()
        invariant
            i <= parts.len(),
            all == views(parts@),
            text@ == joined(all.subrange(0, i as int), separator@),
        decreases parts.len() - i,
    {
        if i > 0 {
            text.append(separator);
        }
        text.append(parts[i].as_str());
        proof {
            let done = all.subrange(0, i + 1);
            assert(done.drop_last() =~= all.subrange(0, i as int));
            assert(done.last() == parts@[i as int]@);
            if i == 0 {
                assert(text@ =~= done[0]);
            } else {
                assert(text@ =~= joined(done.drop_last(), separator@) + separator@ + done.last());
            }
        }
        i += 1;
    }
    assert(all.subrange(0, parts.len() as int) =~= all);
    text
}

fn matches_at(text: &str, length: usize, part: &str, size: usize, at: usize) -> (yes: bool)
    requires
        length == text@.len(),
        size == part@.len(),
        at + size <= length,
    ensures
        yes == occurs_at(text@, part@, at as int),
{
    let mut i: usize = 0;
    while i < size
        invariant
            length == text@.len(),
            size == part@.len(),
            at + size <= length,
            i <= size,
            forall|j: int| 0 <= j < i ==> text@[at + j] == part@[j],
        decreases size - i,
    {
        if text.get_char(at + i) != part.get_char(i) {
            assert(text@.subrange(at as int, at + size)[i as int] != part@[i as int]);
            return false;
        }
        i += 1;
    }
    assert(text@.subrange(at as int, at + size) =~= part@);
    true
}

/// Whether `part` stands somewhere in `text`.
pub fn contains(text: &str, part: &str) -> (found: bool)
    ensures
        found == occurs_in(text@, part@),
{
    let length = text.unicode_len();
    let size = part.unicode_len();
    if size > length {
        assert forall|at: int| !occurs_at(text@, part@, at) by {}
        return false;
    }
    let last = length - size;
    let mut at: usize = 0;
    while at < last
        invariant
            length == text@.len(),
            size == part@.len(),
            last == length - size,
            at <= last,
            forall|k: int| 0 <= k < at ==> !occurs_at(text@, part@, k),
        decreases last - at,
    {
        if matches_at(text, length, part, size, at) {
            return true;
        }
        at += 1;
    }
    if matches_at(text, length, part, size, last) {
        return true;
    }
    assert forall|k: int| !occurs_at(text@, part@, k) by {}
    false
}

} // verus!
