//! Joining generated words into the texts that the seeding programs store:
//! log messages and post titles (words separated by spaces) and post bodies
//! (words on lines of their own).

use vstd::prelude::*;

verus! {

/// The parts, in order, with `sep` between each two neighbours.
pub open spec fn joined(parts: Seq<Seq<char>>, sep: Seq<char>) -> Seq<char>
    decreases parts.len(),
{
    if parts.len() == 0 {
        Seq::empty()
    } else if parts.len() == 1 {
        parts[0]
    } else {
        joined(parts.drop_last(), sep) + sep + parts.last()
    }
}

/// The total length of the parts.
pub open spec fn total_len(parts: Seq<Seq<char>>) -> nat
    decreases parts.len(),
{
    if parts.len() == 0 {
        0
    } else {
        total_len(parts.drop_last()) + parts.last().len()
    }
}

/// Appending a part appends the separator and then that part unchanged,
/// whatever the part is (equal to the one before it, empty, or holding the
/// separator); no parts join into nothing, and one part joins into itself.
pub proof fn law_join_appends_each_part(parts: Seq<Seq<char>>, part: Seq<char>, sep: Seq<char>)
    ensures
        joined(Seq::empty(), sep) == Seq::<char>::empty(),
        joined(seq![part], sep) == part,
        parts.len() > 0 ==> joined(parts.push(part), sep) == joined(parts, sep) + sep + part,
{
    assert(seq![part].len() == 1);
    assert(parts.push(part).drop_last() =~= parts);
}

/// Joining two non-empty lists one after the other gives the joins of each
/// with one separator between them: the parts keep their order and none is
/// lost or repeated.
pub proof fn law_join_of_concatenation(a: Seq<Seq<char>>, b: Seq<Seq<char>>, sep: Seq<char>)
    requires
        a.len() > 0,
        b.len() > 0,
    ensures
        joined(a + b, sep) == joined(a, sep) + sep + joined(b, sep),
    decreases b.len(),
{
    if b.len() == 1 {
        assert((a + b).drop_last() =~= a);
        assert((a + b).last() == b[0]);
    } else {
        let b0 = b.drop_last();
        law_join_of_concatenation(a, b0, sep);
        assert((a + b).drop_last() =~= a + b0);
        assert((a + b).last() == b.last());
        assert(joined(a + b, sep) == joined(a + b0, sep) + sep + b.last());
        assert(joined(b, sep) == joined(b0, sep) + sep + b.last());
        assert(joined(a + b, sep) =~= joined(a, sep) + sep + joined(b, sep));
    }
}

/// The text is as long as all parts together plus one separator between
/// each two neighbours.
pub proof fn law_join_length(parts: Seq<Seq<char>>, sep: Seq<char>)
    ensures
        parts.len() > 0 ==> joined(parts, sep).len() == total_len(parts) + (parts.len() - 1) * sep.len(),
        parts.len() == 0 ==> joined(parts, sep).len() == 0,
    decreases parts.len(),
{
    if parts.len() > 1 {
        let rest = parts.drop_last();
        law_join_length(rest, sep);
        let n: int = parts.len() as int;
        let k: int = sep.len() as int;
        assert((n - 1) * k == (n - 2) * k + k) by (nonlinear_arith);
        assert(joined(parts, sep) == joined(rest, sep) + sep + parts.last());
        assert(total_len(parts) == total_len(rest) + parts.last().len());
        assert(rest.len() == n - 1);
    } else if parts.len() == 1 {
        let rest = parts.drop_last();
        assert(rest.len() == 0);
        assert(total_len(rest) == 0);
        assert(total_len(parts) == total_len(rest) + parts.last().len());
        assert(joined(parts, sep) == parts[0]);
    }
}

/// The abstract value of a list of strings.
pub open spec fn texts_view(parts: Seq<String>) -> Seq<Seq<char>> {
    parts.map_values(|p: String| p@)
}

/// The abstract value of a list of strings keeps each string, in order.
pub proof fn law_texts_view_keeps_the_strings(parts: Seq<String>)
    ensures
        texts_view(parts).len() == parts.len(),
        forall|i: int| 0 <= i < parts.len() ==> #[trigger] texts_view(parts)[i] == parts[i]@,
{
}

/// Joins the parts with `sep` between each two neighbours.
pub fn join(parts: &Vec<String>, sep: &str) -> (text: String)
    ensures
        text@ == joined(texts_view(parts@), sep@),
{
    let ghost all = texts_view(parts@);
    let mut text = String::new();
    let n = parts.len();
    for i in 0..n
        invariant
            n == parts@.len(),
            all == texts_view(parts@),
            text@ == joined(all.take(i as int), sep@),
    {
        if i > 0 {
            text.append(sep);
        }
        text.append(parts[i].as_str());
        assert(all.take(i + 1).drop_last() =~= all.take(i as int));
    }
    assert(all.take(n as int) =~= all);
    text
}

/// Joins words with single spaces, as log messages and post titles are made.
pub fn join_words(words: &Vec<String>) -> (text: String)
    ensures
        text@ == joined(texts_view(words@), " "@),
{
    join(words, " ")
}

/// Puts each word on a line of its own, as post bodies are made.
pub fn join_lines(words: &Vec<String>) -> (text: String)
    ensures
        text@ == joined(texts_view(words@), "\n"@),
{
    join(words, "\n")
}

} // verus!
