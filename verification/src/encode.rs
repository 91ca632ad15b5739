//! Body encoding: a pair list as a compact JSON object or as a form string.

use vstd::prelude::*;
use vstd::string::StringExecFns;
use crate::pairs::{PairList, pairs_view};
use crate::parsers::BodyFormat;
use crate::text::strings_view;

verus! {

/// What `serde_json::to_string` makes of a string: the JSON string literal,
/// quotes and escapes and all.
pub uninterp spec fn json_quoted(s: Seq<char>) -> Seq<char>;

/// What `url::form_urlencoded::byte_serialize` makes of the UTF-8 bytes of a
/// string, its pieces put together.
pub uninterp spec fn form_encoded(s: Seq<char>) -> Seq<char>;

/// Calls `serde_json::to_string` on a string.
///
/// Trusted: the result is the one named by [`json_quoted`]. Serialising a
/// string into memory has no way to fail.
#[verifier::external_body]
pub(crate) fn quote_json(s: &str) -> (r: String)
    ensures
        r@ == json_quoted(s@),
{
    serde_json::to_string(s).unwrap_or_default()
}

/// Calls `url::form_urlencoded::byte_serialize` on the bytes of a string and
/// collects the pieces.
///
/// Trusted: the result is the one named by [`form_encoded`].
#[verifier::external_body]
pub(crate) fn encode_form(s: &str) -> (r: String)
    ensures
        r@ == form_encoded(s@),
{
    url::form_urlencoded::byte_serialize(s.as_bytes()).collect()
}

/// The parts in order, with `sep` between each two neighbours.
pub open spec fn joined(parts: Seq<Seq<char>>, sep: Seq<char>) -> Seq<char>
    decreases parts.len(),
{
    if parts.len() == 0 {
        Seq::empty()
    } else if parts.len() == 1 {
        parts[0]
    } else {
        joined(parts.drop_last(), sep) + sep + parts.last()
    }
}

/// Where `key` first stands as a key in `entries`, looking from `from` on;
/// the length of `entries` if nowhere.
pub open spec fn key_position(entries: Seq<(Seq<char>, Seq<char>)>, key: Seq<char>, from: int) -> int
    decreases entries.len() - from,
{
    if from < 0 || from >= entries.len() {
        entries.len() as int
    } else if entries[from].0 == key {
        from
    } else {
        key_position(entries, key, from + 1)
    }
}

/// `entries` with `key` bound to `value`: in the place where `key` stands
/// already, else at the end.
pub open spec fn put(entries: Seq<(Seq<char>, Seq<char>)>, key: Seq<char>, value: Seq<char>) -> Seq<
    (Seq<char>, Seq<char>),
> {
    let at = key_position(entries, key, 0);
    if at < entries.len() {
        entries.update(at, (key, value))
    } else {
        entries.push((key, value))
    }
}

/// The mapping that a pair list builds: one entry per key, in the order in
/// which the keys first come, each with the value of its last pair.
pub open spec fn last_wins(pairs: Seq<(Seq<char>, Seq<char>)>) -> Seq<(Seq<char>, Seq<char>)>
    decreases pairs.len(),
{
    if pairs.len() == 0 {
        Seq::empty()
    } else {
        put(last_wins(pairs.drop_last()), pairs.last().0, pairs.last().1)
    }
}

/// One member of a JSON object: the quoted key, a colon, the quoted value.
pub open spec fn json_member(p: (Seq<char>, Seq<char>)) -> Seq<char> {
    json_quoted(p.0) + ":"@ + json_quoted(p.1)
}

/// The members of a JSON object, one per entry.
pub open spec fn json_members(entries: Seq<(Seq<char>, Seq<char>)>) -> Seq<Seq<char>> {
    entries.map_values(|p: (Seq<char>, Seq<char>)| json_member(p))
}

/// A compact JSON object of the given members.
pub open spec fn json_framed(members: Seq<Seq<char>>) -> Seq<char> {
    "{"@ + joined(members, ","@) + "}"@
}

/// The JSON body of a pair list: the object of its last-wins mapping.
pub open spec fn json_text(pairs: Seq<(Seq<char>, Seq<char>)>) -> Seq<char> {
    json_framed(json_members(last_wins(pairs)))
}

/// One field of a form body: the encoded key, `=`, the encoded value.
pub open spec fn form_field(p: (Seq<char>, Seq<char>)) -> Seq<char> {
    form_encoded(p.0) + "="@ + form_encoded(p.1)
}

/// The fields of a form body, one per pair.
pub open spec fn form_fields(pairs: Seq<(Seq<char>, Seq<char>)>) -> Seq<Seq<char>> {
    pairs.map_values(|p: (Seq<char>, Seq<char>)| form_field(p))
}

/// The form body of a pair list: its fields joined by `&`, none left out.
pub open spec fn form_text(pairs: Seq<(Seq<char>, Seq<char>)>) -> Seq<char> {
    joined(form_fields(pairs), "&"@)
}

/// Joins `parts` with `sep` between each two neighbours.
pub fn join(parts: &Vec<String>, sep: &str) -> (r: String)
    ensures
        r@ == joined(strings_view(parts@), sep@),
{
    let mut r = String::new();
    let mut i: usize = 0;
    while i < parts.len()
        invariant
            i <= parts.len(),
            r@ == joined(strings_view(parts@).take(i as int), sep@),
        decreases parts.len() - i,
    {
        proof {
            let whole = strings_view(parts@);
            assert(whole.take(i + 1).drop_last() =~= whole.take(i as int));
            assert(whole.take(i + 1).last() == parts@[i as int]@);
        }
        if i > 0 {
            r.append(sep);
        }
        r.append(parts[i].as_str());
        i = i + 1;
    }
    assert(strings_view(parts@).take(parts@.len() as int) =~= strings_view(parts@));
    r
}

/// The first index from which `key` stands as a key in `entries`, or their
/// number if it stands nowhere.
pub fn find_key(entries: &Vec<(String, String)>, key: &String) -> (at: usize)
    ensures
        at == key_position(pairs_view(entries@), key@, 0),
{
    let mut i: usize = 0;
    while i < entries.len()
        invariant
            i <= entries.len(),
            key_position(pairs_view(entries@), key@, 0) == key_position(
                pairs_view(entries@),
                key@,
                i as int,
            ),
        decreases entries.len() - i,
    {
        if entries[i].0 == *key {
            return i;
        }
        i = i + 1;
    }
    i
}

/// Builds the last-wins mapping of a pair list: no key comes twice in it.
pub fn dedup_last_wins(pairs: &PairList) -> (r: PairList)
    ensures
        r@ == last_wins(pairs@),
        distinct_keys(r@),
{
    let mut out: Vec<(String, String)> = Vec::new();
    let mut i: usize = 0;
    assert(pairs@.take(0) =~= Seq::empty());
    assert(pairs_view(out@) =~= Seq::empty());
    while i < pairs.pairs.len()
        invariant
            i <= pairs.pairs.len(),
            pairs_view(out@) == last_wins(pairs@.take(i as int)),
        decreases pairs.pairs.len() - i,
    {
        let key: String = pairs.pairs[i].0.clone();
        let value: String = pairs.pairs[i].1.clone();
        proof {
            assert(pairs@.take(i + 1).drop_last() =~= pairs@.take(i as int));
            assert(pairs@.take(i + 1).last() == (key@, value@));
        }
        let ghost before = pairs_view(out@);
        let at = find_key(&out, &key);
        if at < out.len() {
            out.set(at, (key, value));
            assert(pairs_view(out@) =~= before.update(at as int, (key@, value@)));
        } else {
            out.push((key, value));
            assert(pairs_view(out@) =~= before.push((key@, value@)));
        }
        i = i + 1;
    }
    assert(pairs@.take(pairs@.len() as int) =~= pairs@);
    proof {
        lemma_last_wins(pairs@);
    }
    PairList { pairs: out }
}

/// Frames one member of a JSON object from its key and value, both quoted
/// already.
pub fn json_member_text(quoted_key: &str, quoted_value: &str) -> (r: String)
    ensures
        r@ == quoted_key@ + ":"@ + quoted_value@,
{
    let mut r = quoted_key.to_owned();
    r.append(":");
    r.append(quoted_value);
    r
}

/// Frames a compact JSON object from its members.
pub fn frame_json(members: &Vec<String>) -> (r: String)
    ensures
        r@ == json_framed(strings_view(members@)),
{
    let mut r = "{".to_owned();
    let inner = join(members, ",");
    r.append(inner.as_str());
    r.append("}");
    r
}

/// Encodes a pair list as a compact JSON object of strings.
///
/// A key that comes several times is written once, with its last value.
/// Keys and values stay strings whatever they look like.
pub fn json_body(pairs: &PairList) -> (r: String)
    ensures
        r@ == json_text(pairs@),
{
    let entries = dedup_last_wins(pairs);
    let mut members: Vec<String> = Vec::new();
    let mut i: usize = 0;
    while i < entries.pairs.len()
        invariant
            i <= entries.pairs.len(),
            members@.len() == i,
            forall|j: int| 0 <= j < i ==> (#[trigger] members@[j])@ == json_member(entries@[j]),
        decreases entries.pairs.len() - i,
    {
        let key = quote_json(entries.pairs[i].0.as_str());
        let value = quote_json(entries.pairs[i].1.as_str());
        members.push(json_member_text(key.as_str(), value.as_str()));
        i = i + 1;
    }
    assert(strings_view(members@) =~= json_members(entries@));
    frame_json(&members)
}

/// Frames one field of a form body from its key and value, both encoded
/// already.
pub fn form_field_text(encoded_key: &str, encoded_value: &str) -> (r: String)
    ensures
        r@ == encoded_key@ + "="@ + encoded_value@,
{
    let mut r = encoded_key.to_owned();
    r.append("=");
    r.append(encoded_value);
    r
}

/// Encodes a pair list as a form body: every pair in its place, repeated
/// keys too.
pub fn form_body(pairs: &PairList) -> (r: String)
    ensures
        r@ == form_text(pairs@),
{
    let mut fields: Vec<String> = Vec::new();
    let mut i: usize = 0;
    while i < pairs.pairs.len()
        invariant
            i <= pairs.pairs.len(),
            fields@.len() == i,
            forall|j: int| 0 <= j < i ==> (#[trigger] fields@[j])@ == form_field(pairs@[j]),
        decreases pairs.pairs.len() - i,
    {
        let key = encode_form(pairs.pairs[i].0.as_str());
        let value = encode_form(pairs.pairs[i].1.as_str());
        fields.push(form_field_text(key.as_str(), value.as_str()));
        i = i + 1;
    }
    assert(strings_view(fields@) =~= form_fields(pairs@));
    join(&fields, "&")
}

/// The encoded body of a pair list in the given format.
pub open spec fn body_text(pairs: Seq<(Seq<char>, Seq<char>)>, format: BodyFormat) -> Seq<char> {
    match format {
        BodyFormat::JSON => json_text(pairs),
        BodyFormat::FORM => form_text(pairs),
    }
}

/// Encodes a pair list in the given format.
pub fn encode_body(pairs: &PairList, format: BodyFormat) -> (r: String)
    ensures
        r@ == body_text(pairs@, format),
{
    match format {
        BodyFormat::JSON => json_body(pairs),
        BodyFormat::FORM => form_body(pairs),
    }
}

/// The body of a pair list that is not empty is not empty either.
pub proof fn lemma_body_text_nonempty(pairs: Seq<(Seq<char>, Seq<char>)>, format: BodyFormat)
    requires
        pairs.len() > 0,
    ensures
        body_text(pairs, format).len() > 0,
{
    reveal_strlit("{");
    reveal_strlit("=");
    let fields = form_fields(pairs);
    assert(fields.last() == form_field(pairs.last()));
    assert(fields.last().len() > 0);
}

/// Whether `key` is the key of some pair.
pub open spec fn has_key(pairs: Seq<(Seq<char>, Seq<char>)>, key: Seq<char>) -> bool {
    exists|i: int| 0 <= i < pairs.len() && (#[trigger] pairs[i]).0 == key
}

/// Whether no two pairs share a key.
pub open spec fn distinct_keys(pairs: Seq<(Seq<char>, Seq<char>)>) -> bool {
    forall|i: int, j: int|
        0 <= i < j < pairs.len() ==> (#[trigger] pairs[i]).0 != (#[trigger] pairs[j]).0
}

/// Whether pair `i` is the last of its key.
pub open spec fn is_last_of_key(pairs: Seq<(Seq<char>, Seq<char>)>, i: int) -> bool {
    &&& 0 <= i < pairs.len()
    &&& forall|j: int| i < j < pairs.len() ==> (#[trigger] pairs[j]).0 != pairs[i].0
}

/// Where a key is looked for: nothing before the position found has the key,
/// and what stands there has it.
proof fn lemma_key_position(entries: Seq<(Seq<char>, Seq<char>)>, key: Seq<char>, from: int)
    requires
        0 <= from <= entries.len(),
    ensures
        from <= key_position(entries, key, from) <= entries.len(),
        key_position(entries, key, from) < entries.len() ==> entries[key_position(
            entries,
            key,
            from,
        )].0 == key,
        forall|i: int|
            from <= i < key_position(entries, key, from) ==> (#[trigger] entries[i]).0 != key,
    decreases entries.len() - from,
{
    if from < entries.len() && entries[from].0 != key {
        lemma_key_position(entries, key, from + 1);
    }
}

/// Binding a key keeps the keys apart, adds that key and no other, binds it
/// to the value, and leaves the entries of the other keys where they are.
proof fn lemma_put(entries: Seq<(Seq<char>, Seq<char>)>, key: Seq<char>, value: Seq<char>)
    requires
        distinct_keys(entries),
    ensures
        distinct_keys(put(entries, key, value)),
        put(entries, key, value).contains((key, value)),
        entries.len() <= put(entries, key, value).len() <= entries.len() + 1,
        forall|i: int|
            0 <= i < entries.len() && (#[trigger] entries[i]).0 != key ==> put(entries, key, value)[i]
                == entries[i],
        forall|i: int|
            0 <= i < put(entries, key, value).len() ==> (#[trigger] put(entries, key, value)[i]).0
                == key || (i < entries.len() && put(entries, key, value)[i] == entries[i]),
{
    lemma_key_position(entries, key, 0);
    let at = key_position(entries, key, 0);
    let after = put(entries, key, value);
    if at < entries.len() {
        assert(after[at] == (key, value));
    } else {
        assert(after[entries.len() as int] == (key, value));
    }
}

/// Binding a key adds that key to the keys and no other.
proof fn lemma_put_keys(
    entries: Seq<(Seq<char>, Seq<char>)>,
    key: Seq<char>,
    value: Seq<char>,
    other: Seq<char>,
)
    requires
        distinct_keys(entries),
    ensures
        has_key(put(entries, key, value), other) <==> (has_key(entries, other) || other == key),
{
    lemma_put(entries, key, value);
    let after = put(entries, key, value);
    if has_key(after, other) && other != key {
        let e = choose|e: int| 0 <= e < after.len() && (#[trigger] after[e]).0 == other;
        assert(entries[e].0 == other);
    }
    if has_key(entries, other) && other != key {
        let e = choose|e: int| 0 <= e < entries.len() && (#[trigger] entries[e]).0 == other;
        assert(after[e].0 == other);
    }
    if other == key {
        let e = after.index_of((key, value));
        assert(after[e].0 == other);
    }
}

/// The entries of a pair list have keys that differ from each other.
proof fn lemma_last_wins_distinct(pairs: Seq<(Seq<char>, Seq<char>)>)
    ensures
        distinct_keys(last_wins(pairs)),
        last_wins(pairs).len() <= pairs.len(),
    decreases pairs.len(),
{
    if pairs.len() > 0 {
        lemma_last_wins_distinct(pairs.drop_last());
        lemma_put(last_wins(pairs.drop_last()), pairs.last().0, pairs.last().1);
    }
}

/// The entries of a pair list have the keys of the pairs and no others.
proof fn lemma_last_wins_keys(pairs: Seq<(Seq<char>, Seq<char>)>, key: Seq<char>)
    ensures
        has_key(last_wins(pairs), key) <==> has_key(pairs, key),
    decreases pairs.len(),
{
    if pairs.len() > 0 {
        let init = pairs.drop_last();
        let n = pairs.len() - 1;
        lemma_last_wins_distinct(init);
        lemma_last_wins_keys(init, key);
        lemma_put_keys(last_wins(init), pairs.last().0, pairs.last().1, key);
        if has_key(init, key) {
            let i = choose|i: int| 0 <= i < init.len() && (#[trigger] init[i]).0 == key;
            assert(pairs[i].0 == key);
        }
        if pairs[n].0 == key {
            assert(has_key(pairs, key));
        }
        if has_key(pairs, key) && pairs[n].0 != key {
            let i = choose|i: int| 0 <= i < pairs.len() && (#[trigger] pairs[i]).0 == key;
            assert(init[i].0 == key);
        }
    }
}

/// A pair that is the last of its key stays the last of its key without the
/// pairs behind it.
proof fn lemma_last_of_key_in_prefix(pairs: Seq<(Seq<char>, Seq<char>)>, i: int)
    requires
        is_last_of_key(pairs, i),
        i < pairs.len() - 1,
    ensures
        is_last_of_key(pairs.drop_last(), i),
        pairs.last().0 != pairs[i].0,
{
    let init = pairs.drop_last();
    assert(pairs[pairs.len() - 1].0 != pairs[i].0);
    assert forall|j: int| i < j < init.len() implies (#[trigger] init[j]).0 != init[i].0 by {
        assert(pairs[j].0 != pairs[i].0);
    }
}

/// The last pair of each key is an entry.
proof fn lemma_last_wins_holds_last(pairs: Seq<(Seq<char>, Seq<char>)>, i: int)
    requires
        is_last_of_key(pairs, i),
    ensures
        last_wins(pairs).contains(pairs[i]),
    decreases pairs.len(),
{
    let init = pairs.drop_last();
    let before = last_wins(init);
    lemma_last_wins_distinct(init);
    lemma_put(before, pairs.last().0, pairs.last().1);
    if i < pairs.len() - 1 {
        lemma_last_of_key_in_prefix(pairs, i);
        lemma_last_wins_holds_last(init, i);
        let e = before.index_of(init[i]);
        assert(before[e].0 != pairs.last().0);
        assert(last_wins(pairs)[e] == pairs[i]);
    } else {
        assert(pairs[i] == (pairs.last().0, pairs.last().1));
    }
}

/// Every entry is the last pair of its key.
proof fn lemma_last_wins_entry(pairs: Seq<(Seq<char>, Seq<char>)>, e: int) -> (i: int)
    requires
        0 <= e < last_wins(pairs).len(),
    ensures
        is_last_of_key(pairs, i),
        pairs[i] == last_wins(pairs)[e],
    decreases pairs.len(),
{
    let init = pairs.drop_last();
    let before = last_wins(init);
    let entries = last_wins(pairs);
    let n = pairs.len() - 1;
    lemma_last_wins_distinct(init);
    lemma_last_wins_distinct(pairs);
    lemma_put(before, pairs.last().0, pairs.last().1);
    if entries[e].0 == pairs.last().0 {
        let at = entries.index_of((pairs.last().0, pairs.last().1));
        assert(entries[at].0 == entries[e].0);
        assert(at == e);
        assert(pairs[n] == entries[e]);
        n
    } else {
        assert(before[e] == entries[e]);
        let i = lemma_last_wins_entry(init, e);
        assert forall|j: int| i < j < pairs.len() implies (#[trigger] pairs[j]).0 != pairs[i].0 by {
            if j < n {
                assert(init[j].0 != init[i].0);
            }
        }
        i
    }
}

/// A JSON body has exactly one entry per key, and the last value wins: the
/// entries have keys that differ from each other, they have the keys of the
/// pairs and no others, the last pair of each key is an entry, and every
/// entry is the last pair of its key.
pub proof fn lemma_last_wins(pairs: Seq<(Seq<char>, Seq<char>)>)
    ensures
        distinct_keys(last_wins(pairs)),
        last_wins(pairs).len() <= pairs.len(),
        forall|key: Seq<char>| #[trigger] has_key(last_wins(pairs), key) <==> has_key(pairs, key),
        forall|i: int| is_last_of_key(pairs, i) ==> last_wins(pairs).contains(#[trigger] pairs[i]),
        forall|e: int|
            0 <= e < last_wins(pairs).len() ==> exists|i: int|
                is_last_of_key(pairs, i) && pairs[i] == #[trigger] last_wins(pairs)[e],
{
    lemma_last_wins_distinct(pairs);
    assert forall|key: Seq<char>| #[trigger]
        has_key(last_wins(pairs), key) <==> has_key(pairs, key) by {
        lemma_last_wins_keys(pairs, key);
    }
    assert forall|i: int| is_last_of_key(pairs, i) implies last_wins(pairs).contains(
        #[trigger] pairs[i],
    ) by {
        lemma_last_wins_holds_last(pairs, i);
    }
    assert forall|e: int| 0 <= e < last_wins(pairs).len() implies exists|i: int|
        is_last_of_key(pairs, i) && pairs[i] == #[trigger] last_wins(pairs)[e] by {
        let i = lemma_last_wins_entry(pairs, e);
    }
}

/// A form body has one field per pair, in the order of the pairs; pairs that
/// share a key stay apart.
pub proof fn lemma_form_keeps_every_pair(pairs: Seq<(Seq<char>, Seq<char>)>)
    ensures
        form_fields(pairs).len() == pairs.len(),
        forall|i: int| 0 <= i < pairs.len() ==> #[trigger] form_fields(pairs)[i] == form_field(pairs[i]),
        form_text(pairs) == joined(form_fields(pairs), "&"@),
{
}

} // verus!
