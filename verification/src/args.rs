//! The argument marshaler.
//!
//! A caller supplies the arguments of a backend call as a mapping from
//! argument names to JSON-encoded strings. The marshaler parses each string
//! into the backend's value model and assembles the canonical argument map:
//! entries keyed by distinct names, ordered by the byte-lexicographic order
//! of their UTF-8 encodings — the order the backend's own argument map uses.
//! A deterministic ordering matters because the backend keys its calls on
//! the argument map.

use vstd::prelude::*;
use vstd::seq_lib::{to_multiset_build, to_multiset_insert};
use vstd::utf8::encode_utf8;

use std::collections::HashMap;

use crate::errors::ClientError;
use crate::json::{arg_accepted, decoded_arg, parse_arg_value};

verus! {

/// The UTF-8 encoding of a string, the key that argument entries are
/// ordered by.
pub open spec fn str_key(s: Seq<char>) -> Seq<u8> {
    encode_utf8(s)
}

/// Byte-lexicographic order (non-strict): the order `String` comparison and
/// the backend's ordered argument map use.
pub open spec fn lex_le(a: Seq<u8>, b: Seq<u8>) -> bool
    decreases a.len(),
{
    if a.len() == 0 {
        true
    } else if b.len() == 0 {
        false
    } else if a[0] < b[0] {
        true
    } else if a[0] > b[0] {
        false
    } else {
        lex_le(a.skip(1), b.skip(1))
    }
}

/// `lex_le` is total: any two byte strings compare one way or the other.
pub proof fn lemma_lex_le_total(a: Seq<u8>, b: Seq<u8>)
    ensures
        lex_le(a, b) || lex_le(b, a),
    decreases a.len(),
{
    if a.len() > 0 && b.len() > 0 && a[0] == b[0] {
        lemma_lex_le_total(a.skip(1), b.skip(1));
    }
}

/// The ordering key of one argument entry.
pub open spec fn entry_key(e: (String, convex::Value)) -> Seq<u8> {
    str_key(e.0@)
}

/// Adjacent entries appear in key order.
pub open spec fn entries_sorted(s: Seq<(String, convex::Value)>) -> bool {
    forall|i: int| 0 <= i && i + 1 < s.len() ==> lex_le(entry_key(#[trigger] s[i]), entry_key(s[i + 1]))
}

/// No two entries share an argument name.
pub open spec fn keys_distinct<T>(s: Seq<(String, T)>) -> bool {
    forall|i: int, j: int| 0 <= i < j < s.len() ==> (#[trigger] s[i]).0@ != (#[trigger] s[j]).0@
}

/// Compares two argument names in byte-lexicographic order.
fn key_le(a: &String, b: &String) -> (r: bool)
    ensures
        r == lex_le(str_key(a@), str_key(b@)),
{
    let ab = a.as_str().as_bytes();
    let bb = b.as_str().as_bytes();
    let mut i: usize = 0;
    proof {
        assert(ab@.skip(0) =~= ab@);
        assert(bb@.skip(0) =~= bb@);
    }
    loop
        invariant
            i <= ab@.len(),
            i <= bb@.len(),
            ab@ == str_key(a@),
            bb@ == str_key(b@),
            lex_le(str_key(a@), str_key(b@)) == lex_le(ab@.skip(i as int), bb@.skip(i as int)),
        decreases ab@.len() - i,
    {
        if i >= ab.len() {
            return true;
        }
        if i >= bb.len() {
            return false;
        }
        let x = ab[i];
        let y = bb[i];
        if x < y {
            return true;
        }
        if x > y {
            return false;
        }
        proof {
            assert(ab@.skip(i as int).skip(1) =~= ab@.skip(i as int + 1));
            assert(bb@.skip(i as int).skip(1) =~= bb@.skip(i as int + 1));
        }
        i = i + 1;
    }
}


/// Where the entry at position `x` of `a.insert(j, b.last()) + b.drop_last()`
/// stood in `a + b`.
spec fn shuffle_source(a_len: int, b_len: int, j: int, x: int) -> int {
    if x < j {
        x
    } else if x == j {
        a_len + b_len - 1
    } else {
        x - 1
    }
}

/// Moving the last entry of the pending run into the sorted run keeps the
/// names of the combined runs pairwise distinct: the step only permutes the
/// combined entries.
proof fn lemma_step_keeps_distinct(
    a: Seq<(String, convex::Value)>,
    b: Seq<(String, convex::Value)>,
    j: int,
)
    requires
        b.len() > 0,
        0 <= j <= a.len(),
        keys_distinct(a + b),
    ensures
        keys_distinct(a.insert(j, b.last()) + b.drop_last()),
{
    let e = b.last();
    let whole = a + b;
    let shuffled = a.insert(j, e) + b.drop_last();
    a.insert_ensures(j, e);
    assert(shuffled.len() == whole.len());
    assert forall|x: int, y: int|
        0 <= x < y < shuffled.len() implies (#[trigger] shuffled[x]).0@ != (
    #[trigger] shuffled[y]).0@ by {
        let xo = shuffle_source(a.len() as int, b.len() as int, j, x);
        let yo = shuffle_source(a.len() as int, b.len() as int, j, y);
        assert(shuffled[x] == whole[xo]);
        assert(shuffled[y] == whole[yo]);
        assert(xo != yo);
        if xo < yo {
            assert(whole[xo].0@ != whole[yo].0@);
        } else {
            assert(whole[yo].0@ != whole[xo].0@);
        }
    }
}

/// Inserts one entry into a sorted run of entries, keeping it sorted. The
/// new run is the old one with the entry inserted at one position.
fn insert_sorted(out: &mut Vec<(String, convex::Value)>, e: (String, convex::Value))
    requires
        entries_sorted(old(out)@),
    ensures
        entries_sorted(final(out)@),
        exists|j: int|
            0 <= j <= old(out)@.len() && final(out)@ == #[trigger] old(out)@.insert(j, e),
{
    let ghost orig = out@;
    let mut j: usize = 0;
    while j < out.len() && key_le(&out[j].0, &e.0)
        invariant
            out@ == orig,
            j <= out@.len(),
            forall|k: int| 0 <= k < j ==> lex_le(entry_key(#[trigger] out@[k]), entry_key(e)),
        decreases out@.len() - j,
    {
        j = j + 1;
    }
    let ghost jj = j as int;
    proof {
        if jj < orig.len() {
            lemma_lex_le_total(entry_key(orig[jj]), entry_key(e));
            assert(lex_le(entry_key(e), entry_key(orig[jj])));
        }
    }
    out.insert(j, e);
    proof {
        orig.insert_ensures(jj, e);
        assert forall|i: int| 0 <= i && i + 1 < out@.len() implies lex_le(
            entry_key(#[trigger] out@[i]),
            entry_key(out@[i + 1]),
        ) by {
            if i + 1 < jj {
                assert(out@[i] == orig[i]);
                assert(out@[i + 1] == orig[i + 1]);
            } else if i + 1 == jj {
                assert(out@[i] == orig[i]);
                assert(out@[i + 1] == e);
            } else if i == jj {
                assert(out@[i] == e);
                assert(out@[i + 1] == orig[i]);
            } else {
                assert(out@[i] == orig[i - 1]);
                assert(out@[i + 1] == orig[i]);
            }
        }
    }
}

/// Orders argument entries by name, byte-lexicographically.
///
/// The result is a permutation of the input, so distinct names stay
/// distinct and no entry is dropped or invented.
pub fn sort_entries(v: Vec<(String, convex::Value)>) -> (r: Vec<(String, convex::Value)>)
    requires
        keys_distinct(v@),
    ensures
        entries_sorted(r@),
        keys_distinct(r@),
        r@.to_multiset() == v@.to_multiset(),
        r@.len() == v@.len(),
{
    let mut v = v;
    let ghost orig = v@;
    let mut out: Vec<(String, convex::Value)> = Vec::new();
    proof {
        assert(out@ + v@ =~= v@);
    }
    while v.len() > 0
        invariant
            entries_sorted(out@),
            keys_distinct(out@ + v@),
            (out@ + v@).to_multiset() == orig.to_multiset(),
            out@.len() + v@.len() == orig.len(),
        decreases v@.len(),
    {
        let ghost pre_out = out@;
        let ghost pre_v = v@;
        let e = v.pop().unwrap();
        insert_sorted(&mut out, e);
        proof {
            broadcast use to_multiset_build;
            broadcast use to_multiset_insert;
            broadcast use vstd::multiset::group_multiset_axioms;

            let j = choose|j: int|
                0 <= j <= pre_out.len() && out@ == #[trigger] pre_out.insert(j, e);
            assert(pre_v =~= v@.push(e));
            lemma_step_keeps_distinct(pre_out, pre_v, j);
            assert(pre_v.last() == e);
            assert(pre_v.drop_last() =~= v@);
            assert(keys_distinct(out@ + v@));
            lemma_concat_multiset(pre_out, pre_v);
            lemma_concat_multiset(out@, v@);
            assert(pre_v.to_multiset() == v@.to_multiset().insert(e));
            assert(out@.to_multiset() == pre_out.to_multiset().insert(e));
            assert((out@ + v@).to_multiset() =~= (pre_out + pre_v).to_multiset());
        }
    }
    proof {
        assert(out@ + v@ =~= out@);
        lemma_distinct_prefix(out@, v@);
    }
    out
}

/// The entry multiset of a concatenation is the sum of the parts'.
proof fn lemma_concat_multiset(a: Seq<(String, convex::Value)>, b: Seq<(String, convex::Value)>)
    ensures
        (a + b).to_multiset() == a.to_multiset().add(b.to_multiset()),
{
    vstd::seq_lib::lemma_multiset_commutative(a, b);
}

/// A prefix of a run with pairwise-distinct names has pairwise-distinct
/// names.
proof fn lemma_distinct_prefix(a: Seq<(String, convex::Value)>, b: Seq<(String, convex::Value)>)
    requires
        keys_distinct(a + b),
    ensures
        keys_distinct(a),
{
    assert forall|x: int, y: int| 0 <= x < y < a.len() implies (#[trigger] a[x]).0@ != (
    #[trigger] a[y]).0@ by {
        assert(a[x] == (a + b)[x]);
        assert(a[y] == (a + b)[y]);
    }
}

} // verus!

verus! {

/// The canonical argument map of one backend call: entries with pairwise
/// distinct names, held in byte-lexicographic name order.
#[derive(Debug)]
pub struct QueryArgs {
    entries: Vec<(String, convex::Value)>,
}

impl QueryArgs {
    /// The entries, in order.
    pub closed spec fn entries_seq(&self) -> Seq<(String, convex::Value)> {
        self.entries@
    }

    /// Well-formedness: names are distinct and the entries are in key order.
    pub open spec fn wf(&self) -> bool {
        entries_sorted(self.entries_seq()) && keys_distinct(self.entries_seq())
    }

    /// Whether some entry is named `k`.
    pub open spec fn has_key(&self, k: Seq<char>) -> bool {
        exists|i: int|
            0 <= i < self.entries_seq().len() && (#[trigger] self.entries_seq()[i]).0@ == k
    }

    /// The number of arguments.
    pub fn len(&self) -> (n: usize)
        ensures
            n == self.entries_seq().len(),
    {
        self.entries.len()
    }

    /// Looks an argument up by name.
    pub fn get(&self, key: &String) -> (r: Option<&convex::Value>)
        ensures
            match r {
                Some(v) => exists|i: int|
                    0 <= i < self.entries_seq().len() && (#[trigger] self.entries_seq()[i]).0@
                        == key@ && *v == self.entries_seq()[i].1,
                None => !self.has_key(key@),
            },
    {
        let mut i: usize = 0;
        while i < self.entries.len()
            invariant
                i <= self.entries_seq().len(),
                forall|k: int|
                    0 <= k < i ==> (#[trigger] self.entries_seq()[k]).0@ != key@,
            decreases self.entries_seq().len() - i,
        {
            if self.entries[i].0.eq(key) {
                return Some(&self.entries[i].1);
            }
            i = i + 1;
        }
        None
    }

    /// Hands the ordered entries out, for building the backend's own
    /// argument map.
    pub fn into_entries(self) -> (r: Vec<(String, convex::Value)>)
        ensures
            r@ == self.entries_seq(),
    {
        self.entries
    }
}

/// Relies on std's `HashMap`: iterating it yields exactly the map's
/// entries, each key once — keys are pairwise distinct — in an order that
/// is unspecified and may differ from process to process.
#[verifier::external_body]
fn map_entries(m: HashMap<String, String>) -> (r: Vec<(String, String)>)
    ensures
        keys_distinct(r@),
        r@.len() == m@.dom().len(),
        forall|i: int| 0 <= i < r@.len() ==> m@.contains_pair((#[trigger] r@[i]).0, r@[i].1),
        forall|k: String|
            #[trigger] m@.dom().contains(k) ==> exists|i: int|
                0 <= i < r@.len() && (#[trigger] r@[i]).0 == k,
{
    m.into_iter().collect()
}

/// Parses every argument of the mapping, reporting the first failure.
///
/// Succeeds exactly when every value string is accepted; on success the
/// result has one entry per input entry, with the same name in the same
/// position and the typed decoding of that entry's string as its value.
pub fn encode_entries(entries: &Vec<(String, String)>) -> (r: Result<
    Vec<(String, convex::Value)>,
    ClientError,
>)
    ensures
        r matches Ok(out) ==> {
            &&& out@.len() == entries@.len()
            &&& forall|i: int| 0 <= i < out@.len() ==> (#[trigger] out@[i]).0 == entries@[i].0
            &&& forall|i: int|
                0 <= i < out@.len() ==> (#[trigger] out@[i]).1 == decoded_arg(entries@[i].1@)
        },
        r is Ok <==> (forall|i: int|
            0 <= i < entries@.len() ==> arg_accepted((#[trigger] entries@[i]).1@)),
        r matches Err(e) ==> e is InternalError,
{
    let mut out: Vec<(String, convex::Value)> = Vec::new();
    let mut i: usize = 0;
    while i < entries.len()
        invariant
            i <= entries@.len(),
            out@.len() == i,
            forall|k: int| 0 <= k < i ==> (#[trigger] out@[k]).0 == entries@[k].0,
            forall|k: int| 0 <= k < i ==> (#[trigger] out@[k]).1 == decoded_arg(entries@[k].1@),
            forall|k: int| 0 <= k < i ==> arg_accepted((#[trigger] entries@[k]).1@),
        decreases entries@.len() - i,
    {
        let name = entries[i].0.clone();
        match parse_arg_value(entries[i].1.as_str()) {
            Ok(v) => out.push((name, v)),
            Err(e) => {
                return Err(e);
            },
        }
        i = i + 1;
    }
    Ok(out)
}

/// Turns the caller's argument mapping — names to JSON-encoded strings —
/// into the canonical typed argument map of one backend call.
///
/// Succeeds exactly when every value string in the mapping is accepted;
/// malformed JSON, or a JSON value the backend cannot represent, is
/// reported as `InternalError`, and no input panics. On success the map is
/// well-formed — distinct names in canonical (byte-lexicographic) order —
/// its entry names are exactly the keys of the input mapping, and each
/// entry's value is the typed decoding of its own name's string. The
/// result is thereby a function of the mapping's contents alone, never of
/// the hash map's iteration order.
pub fn parse_json_args(raw_args: HashMap<String, String>) -> (r: Result<QueryArgs, ClientError>)
    ensures
        r matches Ok(a) ==> a.wf(),
        r matches Ok(a) ==> a.entries_seq().len() == raw_args@.dom().len(),
        r matches Ok(a) ==> forall|i: int|
            0 <= i < a.entries_seq().len() ==> raw_args@.dom().contains(
                (#[trigger] a.entries_seq()[i]).0,
            ),
        r matches Ok(a) ==> forall|i: int|
            0 <= i < a.entries_seq().len() ==> (#[trigger] a.entries_seq()[i]).1 == decoded_arg(
                raw_args@[a.entries_seq()[i].0]@,
            ),
        r is Ok <==> (forall|k: String|
            #[trigger] raw_args@.dom().contains(k) ==> arg_accepted(raw_args@[k]@)),
        r matches Err(e) ==> e is InternalError,
{
    let ghost m = raw_args@;
    let entries = map_entries(raw_args);
    match encode_entries(&entries) {
        Ok(vals) => {
            proof {
                assert forall|i: int, j: int|
                    0 <= i < j < vals@.len() implies (#[trigger] vals@[i]).0@ != (
                #[trigger] vals@[j]).0@ by {
                    assert(entries@[i].0@ != entries@[j].0@);
                }
                assert forall|k: String| #[trigger] m.dom().contains(k) implies arg_accepted(
                    m[k]@,
                ) by {
                    let i = choose|i: int| 0 <= i < entries@.len() && (#[trigger] entries@[i]).0
                        == k;
                    assert(m.contains_pair(entries@[i].0, entries@[i].1));
                    assert(arg_accepted(entries@[i].1@));
                }
            }
            let sorted = sort_entries(vals);
            proof {
                broadcast use vstd::seq_lib::group_to_multiset_ensures;

                assert forall|i: int|
                    0 <= i < sorted@.len() implies m.dom().contains((#[trigger] sorted@[i]).0)
                    && sorted@[i].1 == decoded_arg(m[sorted@[i].0]@) by {
                    assert(sorted@.to_multiset().count(sorted@[i]) > 0);
                    assert(vals@.contains(sorted@[i]));
                    let j = choose|j: int| 0 <= j < vals@.len() && vals@[j] == sorted@[i];
                    assert(vals@[j].0 == entries@[j].0);
                    assert(vals@[j].1 == decoded_arg(entries@[j].1@));
                    assert(m.contains_pair(entries@[j].0, entries@[j].1));
                    assert(m[sorted@[i].0] == entries@[j].1);
                }
            }
            Ok(QueryArgs { entries: sorted })
        },
        Err(e) => {
            proof {
                assert(!(forall|i: int|
                    0 <= i < entries@.len() ==> arg_accepted((#[trigger] entries@[i]).1@)));
                let i = choose|i: int|
                    0 <= i < entries@.len() && !arg_accepted((#[trigger] entries@[i]).1@);
                assert(m.contains_pair(entries@[i].0, entries@[i].1));
                assert(m.dom().contains(entries@[i].0) && !arg_accepted(m[entries@[i].0]@));
            }
            Err(e)
        },
    }
}

} // verus!
