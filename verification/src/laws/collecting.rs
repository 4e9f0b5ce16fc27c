//! What holds of pairs that are collected into maps, of their order, and of what is read from
//! a file or from a label.

use crate::cli;
use crate::secret_file::{self, ParsedSecretView};
use crate::string_map;
use vstd::prelude::*;
use vstd::utf8::*;

verus! {

/// What ends earlier comes before what goes on.
pub proof fn shorter_comes_first(bytes: Seq<u8>, more: Seq<u8>)
    requires
        more.len() > 0,
    ensures
        string_map::bytes_less(bytes, bytes + more),
        !string_map::bytes_less(bytes + more, bytes),
{
    assert(string_map::differ_first_at(bytes, bytes + more, bytes.len() as int));
    if string_map::bytes_less(bytes + more, bytes) {
        let n = choose|n: int| #[trigger]
            string_map::differ_first_at(bytes + more, bytes, n);
        assert((bytes + more)[n] == bytes[n]);
    }
}

/// After the same beginning, what has the smaller byte comes first, whatever follows.
pub proof fn smaller_byte_comes_first(
    beginning: Seq<u8>,
    small: u8,
    large: u8,
    rest: Seq<u8>,
    other_rest: Seq<u8>,
)
    requires
        small < large,
    ensures
        string_map::bytes_less(
            beginning + seq![small] + rest,
            beginning + seq![large] + other_rest,
        ),
        !string_map::bytes_less(
            beginning + seq![large] + other_rest,
            beginning + seq![small] + rest,
        ),
{
    let a = beginning + seq![small] + rest;
    let b = beginning + seq![large] + other_rest;
    let place = beginning.len() as int;
    assert(string_map::differ_first_at(a, b, place));
    if string_map::bytes_less(b, a) {
        let n = choose|n: int| #[trigger] string_map::differ_first_at(b, a, n);
        if n < place {
            assert(a[n] == b[n]);
        } else if place < n {
            assert(b[place] == a[place]);
        }
    }
}

/// The order of the keys is the order of their UTF-8 bytes.
pub proof fn keys_are_ordered_by_their_bytes(a: Seq<char>, b: Seq<char>)
    ensures
        string_map::key_less(a, b) <==> string_map::bytes_less(encode_utf8(a), encode_utf8(b)),
{
}

/// `map` holds exactly the keys of `pairs`, each with the value of its last pair.
pub open spec fn has_the_last_of<V>(map: Map<Seq<char>, V>, pairs: Seq<(Seq<char>, V)>) -> bool {
    &&& forall|i: int|
        0 <= i < pairs.len() && (forall|j: int|
            i < j < pairs.len() ==> (#[trigger] pairs[j]).0 != pairs[i].0) ==> map.contains_key(
            (#[trigger] pairs[i]).0,
        ) && map[pairs[i].0] == pairs[i].1
    &&& forall|key: Seq<char>| #[trigger]
        map.contains_key(key) ==> exists|i: int|
            0 <= i < pairs.len() && (#[trigger] pairs[i]).0 == key
}

/// Collected pairs have exactly the keys of the pairs, each with the value of its last pair.
pub proof fn last_pair_wins<V>(pairs: Seq<(Seq<char>, V)>)
    ensures
        has_the_last_of(string_map::collected(pairs), pairs),
    decreases pairs.len(),
{
    let map = string_map::collected(pairs);
    if pairs.len() > 0 {
        let shorter = pairs.drop_last();
        last_pair_wins(shorter);
        let last = pairs.len() - 1;
        assert forall|i: int|
            0 <= i < pairs.len() && (forall|j: int|
                i < j < pairs.len() ==> (#[trigger] pairs[j]).0 != pairs[i].0) implies
            map.contains_key((#[trigger] pairs[i]).0) && map[pairs[i].0] == pairs[i].1 by {
            if i < last {
                assert(pairs[last].0 != pairs[i].0);
                assert(shorter[i] == pairs[i]);
                assert forall|j: int| i < j < shorter.len() implies (#[trigger] shorter[j]).0
                    != shorter[i].0 by {
                    assert(pairs[j].0 != pairs[i].0);
                }
            }
        }
        assert forall|key: Seq<char>| #[trigger] map.contains_key(key) implies exists|i: int|
            0 <= i < pairs.len() && (#[trigger] pairs[i]).0 == key by {
            if key == pairs[last].0 {
                assert(pairs[last].0 == key);
            } else {
                assert(string_map::collected(shorter).contains_key(key));
                let i = choose|i: int| 0 <= i < shorter.len() && (#[trigger] shorter[i]).0 == key;
                assert(pairs[i].0 == key);
            }
        }
    }
}

/// Where there are pairs there is a map of them, and where there are none there is none.
pub open spec fn holds_the_pairs<V>(
    map: Option<Map<Seq<char>, V>>,
    pairs: Option<Seq<(Seq<char>, V)>>,
) -> bool {
    &&& map is Some <==> pairs is Some
    &&& pairs matches Some(list) ==> has_the_last_of(map->0, list)
}

/// A Secret that was parsed keeps all that the file says: every entry of `data`, whatever the
/// other fields, and likewise of `stringData`, labels and annotations, and the name,
/// namespace, type and immutability.
pub proof fn parsed_secret_keeps_all(parsed: ParsedSecretView)
    ensures
        ({
            let secret = secret_file::secret_of(parsed);
            &&& holds_the_pairs(secret.data, parsed.data)
            &&& holds_the_pairs(secret.string_data, parsed.string_data)
            &&& holds_the_pairs(secret.metadata.labels, parsed.labels)
            &&& holds_the_pairs(secret.metadata.annotations, parsed.annotations)
            &&& secret.metadata.name == parsed.name
            &&& secret.metadata.generate_name == parsed.generate_name
            &&& secret.metadata.namespace == parsed.namespace
            &&& secret.metadata.uid == parsed.uid
            &&& secret.metadata.generation == parsed.generation
            &&& secret.metadata.owner_references is None
            &&& secret.type_ == parsed.type_
            &&& secret.immutable == parsed.immutable
        }),
{
    if let Some(pairs) = parsed.data {
        last_pair_wins(pairs);
    }
    if let Some(pairs) = parsed.string_data {
        last_pair_wins(pairs);
    }
    if let Some(pairs) = parsed.labels {
        last_pair_wins(pairs);
    }
    if let Some(pairs) = parsed.annotations {
        last_pair_wins(pairs);
    }
}

/// A key, an equals sign and a value are read as that label, also where the value has more
/// equals signs.
pub proof fn label_is_read_as_written(key: Seq<char>, value: Seq<char>)
    requires
        !key.contains('='),
    ensures
        cli::label_of(key + seq!['='] + value) == Some((key, value)),
{
    let text = key + seq!['='] + value;
    let n = key.len() as int;
    assert forall|j: int| 0 <= j < n implies text[j] != '=' by {
        assert(key.contains(key[j]));
    }
    assert(cli::splits_at(text, n));
    let i = choose|i: int| #[trigger] cli::splits_at(text, i);
    assert(i == n);
    assert(text.subrange(0, n) =~= key);
    assert(text.subrange(n + 1, text.len() as int) =~= value);
}

/// A text without an equals sign is no label.
pub proof fn label_takes_an_equals_sign(text: Seq<char>)
    requires
        !text.contains('='),
    ensures
        cli::label_of(text) is None,
{
    if exists|i: int| #[trigger] cli::splits_at(text, i) {
        let i = choose|i: int| #[trigger] cli::splits_at(text, i);
        assert(text.contains(text[i]));
    }
}

/// One label more, written `key=value`, is one more that a namespace must have; it wins over
/// an earlier one of the same key.
pub proof fn label_adds_to_those_before(texts: Seq<Seq<char>>, key: Seq<char>, value: Seq<char>)
    requires
        !key.contains('='),
        cli::labels_of(texts) is Ok,
    ensures
        cli::labels_of(texts.push(key + seq!['='] + value)) == Ok::<
            Map<Seq<char>, Seq<char>>,
            Seq<char>,
        >(cli::labels_of(texts)->Ok_0.insert(key, value)),
{
    label_is_read_as_written(key, value);
    assert(texts.push(key + seq!['='] + value).drop_last() =~= texts);
}

/// Without labels every namespace will do; the first text that is no label is the one that is
/// refused, whatever follows.
pub proof fn first_bad_label_is_refused(
    texts: Seq<Seq<char>>,
    bad: Seq<char>,
    rest: Seq<Seq<char>>,
)
    requires
        cli::labels_of(texts) is Ok,
        !bad.contains('='),
    ensures
        cli::labels_of(Seq::empty()) == Ok::<Map<Seq<char>, Seq<char>>, Seq<char>>(Map::empty()),
        cli::labels_of(texts.push(bad) + rest) == Err::<Map<Seq<char>, Seq<char>>, Seq<char>>(bad),
    decreases rest.len(),
{
    label_takes_an_equals_sign(bad);
    let all = texts.push(bad) + rest;
    if rest.len() == 0 {
        assert(all.drop_last() =~= texts);
        assert(all.last() == bad);
    } else {
        first_bad_label_is_refused(texts, bad, rest.drop_last());
        assert(all.drop_last() =~= texts.push(bad) + rest.drop_last());
    }
}

} // verus!
