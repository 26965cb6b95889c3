//! Text formatting shared by the generated files: quoting, joining with a
//! separator, and copying borrowed strings into owned ones.

use vstd::prelude::*;

verus! {

/// The text of each borrowed string of a list, in order.
pub open spec fn names(items: Seq<&str>) -> Seq<Seq<char>> {
    Seq::new(items.len(), |i: int| items[i]@)
}

/// The text of each owned string of a list, in order.
pub open spec fn texts(items: Seq<String>) -> Seq<Seq<char>> {
    Seq::new(items.len(), |i: int| items[i]@)
}

/// `s` between two double quotes. Nothing inside `s` is escaped.
pub open spec fn quoted(s: Seq<char>) -> Seq<char> {
    "\""@ + s + "\""@
}

/// Every element of `parts` between double quotes, in order.
pub open spec fn quoted_each(parts: Seq<Seq<char>>) -> Seq<Seq<char>> {
    Seq::new(parts.len(), |i: int| quoted(parts[i]))
}

/// The elements of `parts` in order, with `sep` between each two neighbours.
/// The empty list gives the empty text.
pub open spec fn joined(parts: Seq<Seq<char>>, sep: Seq<char>) -> Seq<char>
    decreases parts.len(),
{
    if parts.len() == 0 {
        Seq::empty()
    } else {
        let before = joined(parts.drop_last(), sep);
        if parts.len() == 1 {
            parts.last()
        } else {
            before + sep + parts.last()
        }
    }
}

/// A comma-separated list of quoted names: `"A","B","C"`.
pub open spec fn quoted_list(parts: Seq<Seq<char>>) -> Seq<char> {
    joined(quoted_each(parts), ","@)
}

/// Joining one more element onto a list that is already joined.
pub proof fn lemma_joined_push(parts: Seq<Seq<char>>, sep: Seq<char>, last: Seq<char>)
    ensures
        joined(parts.push(last), sep) == if parts.len() == 0 {
            last
        } else {
            joined(parts, sep) + sep + last
        },
{
    assert(parts.push(last).drop_last() =~= parts);
}

/// An owned copy of `s`.
pub fn owned(s: &str) -> (r: String)
    ensures
        r@ == s@,
{
    s.to_owned()
}

/// Whether two strings hold the same text.
pub fn same_text(a: &str, b: &str) -> (r: bool)
    ensures
        r == (a@ == b@),
{
    owned(a) == owned(b)
}

/// Owned copies of the strings of `items`, in order.
pub fn owned_list(items: &[&str]) -> (r: Vec<String>)
    ensures
        texts(r@) == names(items@),
{
    let mut r: Vec<String> = Vec::new();
    let mut i: usize = 0;
    while i < items.len()
        invariant
            i <= items@.len(),
            r@.len() == i,
            forall|k: int| 0 <= k < i ==> (#[trigger] r@[k])@ == items@[k]@,
        decreases items@.len() - i,
    {
        r.push(owned(items[i]));
        i += 1;
    }
    assert(texts(r@) =~= names(items@));
    r
}

/// `s` between double quotes.
pub fn quote(s: &str) -> (r: String)
    ensures
        r@ == quoted(s@),
{
    let mut r = owned("\"");
    r.append(s);
    r.append("\"");
    r
}

/// The strings of `parts` in order, with `sep` between each two neighbours.
pub fn join(parts: &Vec<String>, sep: &str) -> (r: String)
    ensures
        r@ == joined(texts(parts@), sep@),
{
    let mut r = String::new();
    let mut i: usize = 0;
    while i < parts.len()
        invariant
            i <= parts@.len(),
            r@ == joined(texts(parts@).take(i as int), sep@),
        decreases parts@.len() - i,
    {
        proof {
            lemma_joined_push(texts(parts@).take(i as int), sep@, parts@[i as int]@);
            assert(texts(parts@).take(i as int).push(parts@[i as int]@) =~= texts(parts@).take(
                i + 1,
            ));
        }
        if i > 0 {
            r.append(sep);
        }
        r.append(parts[i].as_str());
        i += 1;
    }
    assert(texts(parts@).take(parts@.len() as int) =~= texts(parts@));
    r
}

/// A comma-separated list of the quoted strings of `items`, in the order
/// given: nothing is sorted and nothing is dropped.
pub fn quote_join(items: &[&str]) -> (r: String)
    ensures
        r@ == quoted_list(names(items@)),
{
    let mut parts: Vec<String> = Vec::new();
    let mut i: usize = 0;
    while i < items.len()
        invariant
            i <= items@.len(),
            parts@.len() == i,
            forall|k: int| 0 <= k < i ==> (#[trigger] parts@[k])@ == quoted(items@[k]@),
        decreases items@.len() - i,
    {
        parts.push(quote(items[i]));
        i += 1;
    }
    assert(texts(parts@) =~= quoted_each(names(items@)));
    join(&parts, ",")
}

} // verus!
