//! Text helpers shared by the renderings.

use vstd::prelude::*;
use vstd::string::*;

verus! {

/// The parts in order, with the separator between neighbours.
pub open spec fn join(parts: Seq<Seq<char>>, separator: Seq<char>) -> Seq<char>
    decreases parts.len(),
{
    if parts.len() == 0 {
        Seq::<char>::empty()
    } else if parts.len() == 1 {
        parts[0]
    } else {
        join(parts.drop_last(), separator) + separator + parts.last()
    }
}

/// Joining one part more appends the separator and the part, but for the first.
pub proof fn lemma_join_push(parts: Seq<Seq<char>>, part: Seq<char>, separator: Seq<char>)
    ensures
        join(parts.push(part), separator) == if parts.len() == 0 {
            part
        } else {
            join(parts, separator) + separator + part
        },
{
    let all = parts.push(part);
    assert(all.drop_last() =~= parts);
    assert(all.last() == part);
    if parts.len() == 0 {
        assert(all.len() == 1);
        assert(all[0] == part);
    }
}

/// Joins the strings in order with the separator between neighbours.
pub fn join_strings(parts: &Vec<String>, separator: &str) -> (r: String)
    ensures
        r@ == join(string_views(parts@), separator@),
{
    let ghost views = string_views(parts@);
    let mut out = String::new();
    let mut i: usize = 0;
    assert(views.take(0) =~= Seq::<Seq<char>>::empty());
    while i < parts.len()
        invariant
            i <= parts.len(),
            views == string_views(parts@),
            out@ == join(views.take(i as int), separator@),
        decreases parts.len() - i,
    {
        proof {
            lemma_join_push(views.take(i as int), views[i as int], separator@);
            assert(views.take(i as int).push(views[i as int]) =~= views.take(i + 1));
        }
        if i > 0 {
            out.append(separator);
        }
        out.append(parts[i].as_str());
        i = i + 1;
    }
    assert(views.take(parts.len() as int) =~= views);
    out
}

/// The strings as sequences of characters, in order.
pub open spec fn string_views(strings: Seq<String>) -> Seq<Seq<char>> {
    Seq::new(strings.len(), |i: int| strings[i]@)
}

/// A copy of the strings.
pub fn duplicate_strings(strings: &Vec<String>) -> (r: Vec<String>)
    ensures
        string_views(r@) == string_views(strings@),
{
    let mut out: Vec<String> = Vec::new();
    let mut i: usize = 0;
    while i < strings.len()
        invariant
            i <= strings.len(),
            out.len() == i,
            forall|j: int| 0 <= j < i ==> out[j]@ == strings[j]@,
        decreases strings.len() - i,
    {
        out.push(strings[i].clone());
        i = i + 1;
    }
    assert(string_views(out@) =~= string_views(strings@));
    out
}

/// Whether the two lists hold the same strings in the same order.
pub fn equal_strings(left: &Vec<String>, right: &Vec<String>) -> (r: bool)
    ensures
        r == (string_views(left@) == string_views(right@)),
{
    if left.len() != right.len() {
        assert(string_views(left@).len() != string_views(right@).len());
        return false;
    }
    let mut i: usize = 0;
    while i < left.len()
        invariant
            i <= left.len(),
            left.len() == right.len(),
            forall|j: int| 0 <= j < i ==> left[j]@ == right[j]@,
        decreases left.len() - i,
    {
        if left[i] != right[i] {
            assert(string_views(left@)[i as int] != string_views(right@)[i as int]);
            return false;
        }
        i = i + 1;
    }
    assert(string_views(left@) =~= string_views(right@));
    true
}

/// Whether the string reads exactly as the literal.
pub fn is_text(value: &String, literal: &str) -> (r: bool)
    ensures
        r == (value@ == literal@),
{
    let other = String::from_str(literal);
    *value == other
}

} // verus!
