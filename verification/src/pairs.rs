//! Pair lists: what a repeatable `name value` flag amounts to.

use vstd::prelude::*;
use crate::error::{Error, ErrorView};

verus! {

/// An ordered list of (key, value) pairs.
///
/// Order matters and keys may repeat: a form body keeps every pair, a JSON
/// body keeps the last value of each key.
#[derive(Debug, Clone, PartialEq, Eq)]
pub struct PairList {
    pub pairs: Vec<(String, String)>,
}

/// A pair of strings as a pair of character sequences.
pub open spec fn pair_view(p: (String, String)) -> (Seq<char>, Seq<char>) {
    (p.0@, p.1@)
}

/// A vector of string pairs as a sequence of pairs of character sequences.
pub open spec fn pairs_view(v: Seq<(String, String)>) -> Seq<(Seq<char>, Seq<char>)> {
    v.map_values(|p: (String, String)| pair_view(p))
}

impl View for PairList {
    type V = Seq<(Seq<char>, Seq<char>)>;

    open spec fn view(&self) -> Seq<(Seq<char>, Seq<char>)> {
        pairs_view(self.pairs@)
    }
}

/// The strings of a flag's values as character sequences.
pub open spec fn texts(items: Seq<&str>) -> Seq<Seq<char>> {
    items.map_values(|s: &str| s@)
}

/// Pair `i` of an alternating sequence is made of its elements `2i` and `2i + 1`.
pub open spec fn paired(items: Seq<Seq<char>>) -> Seq<(Seq<char>, Seq<char>)> {
    Seq::new(items.len() / 2, |i: int| (items[2 * i], items[2 * i + 1]))
}

/// What flattening an alternating sequence gives: its pairs, or the error for
/// an odd length.
pub open spec fn flattened(items: Seq<Seq<char>>) -> Result<Seq<(Seq<char>, Seq<char>)>, ErrorView> {
    if items.len() % 2 == 0 {
        Ok(paired(items))
    } else {
        Err(ErrorView::MalformedPairList)
    }
}

/// Pairs or an error, by their views.
pub open spec fn pairs_or_error(r: Result<PairList, Error>) -> Result<
    Seq<(Seq<char>, Seq<char>)>,
    ErrorView,
> {
    match r {
        Ok(list) => Ok(list@),
        Err(e) => Err(e@),
    }
}

/// The alternating sequence of a pair list: key, value, key, value.
pub open spec fn interleaved(pairs: Seq<(Seq<char>, Seq<char>)>) -> Seq<Seq<char>> {
    Seq::new(
        2 * pairs.len(),
        |i: int|
            if i % 2 == 0 {
                pairs[i / 2].0
            } else {
                pairs[i / 2].1
            },
    )
}

/// Pairing loses nothing and moves nothing: a sequence of even length has
/// half as many pairs as elements, and its pairs written out one after the
/// other are the sequence again.
pub proof fn lemma_paired_keeps_order(items: Seq<Seq<char>>)
    requires
        items.len() % 2 == 0,
    ensures
        paired(items).len() * 2 == items.len(),
        interleaved(paired(items)) == items,
{
    assert(interleaved(paired(items)) =~= items);
}

impl PairList {
    /// The list without pairs.
    pub fn new() -> (r: PairList)
        ensures
            r@ == Seq::<(Seq<char>, Seq<char>)>::empty(),
    {
        let r = PairList { pairs: Vec::new() };
        assert(r@ =~= Seq::<(Seq<char>, Seq<char>)>::empty());
        r
    }

    /// How many pairs the list holds.
    pub fn len(&self) -> (n: usize)
        ensures
            n == self@.len(),
    {
        self.pairs.len()
    }

    /// Whether the list holds no pair.
    pub fn is_empty(&self) -> (r: bool)
        ensures
            r == (self@.len() == 0),
    {
        self.pairs.len() == 0
    }
}

/// Turns the alternating strings of a repeatable `name value` flag into pairs:
/// elements `2i` and `2i + 1` become the key and the value of pair `i`.
///
/// An empty sequence gives the empty list. A sequence of odd length is
/// refused as a whole; its last element is never dropped in silence.
pub fn flatten_pairs(items: &[&str]) -> (r: Result<PairList, Error>)
    ensures
        pairs_or_error(r) == flattened(texts(items@)),
{
    let n: usize = items.len();
    if n % 2 != 0 {
        return Err(Error::MalformedPairList);
    }
    let mut pairs: Vec<(String, String)> = Vec::new();
    let mut i: usize = 0;
    while i < n / 2
        invariant
            n == items@.len(),
            n % 2 == 0,
            i <= n / 2,
            pairs@.len() == i,
            forall|j: int| 0 <= j < i ==> pair_view(#[trigger] pairs@[j]) == paired(texts(items@))[j],
        decreases n / 2 - i,
    {
        let key: String = items[2 * i].to_owned();
        let value: String = items[2 * i + 1].to_owned();
        pairs.push((key, value));
        i = i + 1;
    }
    let list = PairList { pairs };
    assert(list@ =~= paired(texts(items@)));
    Ok(list)
}

} // verus!
