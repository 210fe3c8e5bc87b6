//! Audit metadata: a map from text keys to text values, held sorted by key
//! and stored as a count followed by the key and value of each entry in key
//! order.
use vstd::prelude::*;

use crate::codec::{
    enc_string, enc_u32, over_limit_message, string_fits, take_le, take_string, Decoder, Encoder,
    lemma_take_le_enc, lemma_take_string_enc, lemma_take_string_sound, lemma_take_le_sound,
};
use crate::errors::PersistenceError;
use crate::le::{le_value, pow256};
use crate::text::chars_of;

verus! {

/// One metadata entry as text.
pub type Entry = (Seq<char>, Seq<char>);

/// The order of keys: character by character, a proper prefix first.
pub open spec fn text_lt(a: Seq<char>, b: Seq<char>) -> bool
    decreases a.len(),
{
    if b.len() == 0 {
        false
    } else if a.len() == 0 {
        true
    } else if a[0] != b[0] {
        a[0] < b[0]
    } else {
        text_lt(a.drop_first(), b.drop_first())
    }
}

/// No key comes before itself.
pub proof fn lemma_text_lt_irreflexive(a: Seq<char>)
    ensures
        !text_lt(a, a),
    decreases a.len(),
{
    if a.len() > 0 {
        lemma_text_lt_irreflexive(a.drop_first());
    }
}

/// Key order is transitive.
pub proof fn lemma_text_lt_transitive(a: Seq<char>, b: Seq<char>, c: Seq<char>)
    requires
        text_lt(a, b),
        text_lt(b, c),
    ensures
        text_lt(a, c),
    decreases a.len(),
{
    if a.len() > 0 && b.len() > 0 && c.len() > 0 && a[0] == b[0] && b[0] == c[0] {
        lemma_text_lt_transitive(a.drop_first(), b.drop_first(), c.drop_first());
    }
}

/// Of two different keys, one comes first.
pub proof fn lemma_text_lt_total(a: Seq<char>, b: Seq<char>)
    ensures
        text_lt(a, b) || text_lt(b, a) || a == b,
    decreases a.len(),
{
    if a.len() > 0 && b.len() > 0 {
        if a[0] == b[0] {
            lemma_text_lt_total(a.drop_first(), b.drop_first());
            if a.drop_first() == b.drop_first() {
                assert(a =~= seq![a[0]] + a.drop_first());
                assert(b =~= seq![b[0]] + b.drop_first());
            }
        }
    } else if a.len() == 0 && b.len() == 0 {
        assert(a =~= b);
    }
}

/// Whether keys rise strictly along `s`.
pub open spec fn sorted_keys(s: Seq<Entry>) -> bool {
    forall|i: int, j: int| 0 <= i < j < s.len() ==> text_lt(#[trigger] s[i].0, #[trigger] s[j].0)
}

/// Whether no key occurs twice in `s`.
pub open spec fn distinct_keys(s: Seq<Entry>) -> bool {
    forall|i: int, j: int| 0 <= i < j < s.len() ==> #[trigger] s[i].0 != #[trigger] s[j].0
}

/// Where `key` goes in sorted `s`: after every smaller key.
pub open spec fn insert_position(s: Seq<Entry>, key: Seq<char>) -> nat
    decreases s.len(),
{
    if s.len() == 0 {
        0
    } else if text_lt(s[0].0, key) {
        1 + insert_position(s.drop_first(), key)
    } else {
        0
    }
}

/// `s` with `e` inserted in key order.
pub open spec fn sorted_insert(s: Seq<Entry>, e: Entry) -> Seq<Entry> {
    s.insert(insert_position(s, e.0) as int, e)
}

/// The entries of `s` in key order.
pub open spec fn sort_entries(s: Seq<Entry>) -> Seq<Entry>
    decreases s.len(),
{
    if s.len() == 0 {
        seq![]
    } else {
        sorted_insert(sort_entries(s.drop_last()), s.last())
    }
}

proof fn lemma_insert_position(s: Seq<Entry>, key: Seq<char>)
    requires
        sorted_keys(s),
    ensures
        insert_position(s, key) <= s.len(),
        forall|i: int| 0 <= i < insert_position(s, key) ==> text_lt(#[trigger] s[i].0, key),
        insert_position(s, key) < s.len() ==> !text_lt(s[insert_position(s, key) as int].0, key),
    decreases s.len(),
{
    if s.len() > 0 && text_lt(s[0].0, key) {
        let t = s.drop_first();
        assert forall|i: int, j: int| 0 <= i < j < t.len() implies text_lt(#[trigger] t[i].0, #[trigger] t[j].0) by {
            assert(t[i] == s[i + 1] && t[j] == s[j + 1]);
        }
        lemma_insert_position(t, key);
        assert forall|i: int| 0 <= i < insert_position(s, key) implies text_lt(#[trigger] s[i].0, key) by {
            if i > 0 {
                assert(s[i] == t[i - 1]);
            }
        }
    }
}

/// Inserting a key not yet present keeps the keys sorted.
proof fn lemma_sorted_insert(s: Seq<Entry>, e: Entry)
    requires
        sorted_keys(s),
        forall|i: int| 0 <= i < s.len() ==> #[trigger] s[i].0 != e.0,
    ensures
        sorted_keys(sorted_insert(s, e)),
        sorted_insert(s, e).to_multiset() == s.to_multiset().insert(e),
        sorted_insert(s, e).len() == s.len() + 1,
{
    lemma_insert_position(s, e.0);
    let p = insert_position(s, e.0) as int;
    let r = sorted_insert(s, e);
    if p < s.len() {
        lemma_text_lt_total(s[p].0, e.0);
    }
    assert forall|i: int, j: int| 0 <= i < j < r.len() implies text_lt(#[trigger] r[i].0, #[trigger] r[j].0) by {
        if j < p {
            assert(r[i] == s[i] && r[j] == s[j]);
        } else if j == p {
            assert(r[i] == s[i] && r[j] == e);
        } else if i < p {
            assert(r[i] == s[i] && r[j] == s[j - 1]);
            assert(text_lt(e.0, s[p].0));
            if j - 1 > p {
                lemma_text_lt_transitive(e.0, s[p].0, s[j - 1].0);
            }
            lemma_text_lt_transitive(s[i].0, e.0, s[j - 1].0);
        } else if i == p {
            assert(r[i] == e && r[j] == s[j - 1]);
            if j - 1 > p {
                lemma_text_lt_transitive(e.0, s[p].0, s[j - 1].0);
            }
        } else {
            assert(r[i] == s[i - 1] && r[j] == s[j - 1]);
        }
    }
    vstd::seq_lib::to_multiset_insert(s, p, e);
}

/// Sorting entries with distinct keys sorts them, keeping every entry.
pub proof fn lemma_sort_entries(s: Seq<Entry>)
    requires
        distinct_keys(s),
    ensures
        sorted_keys(sort_entries(s)),
        sort_entries(s).to_multiset() == s.to_multiset(),
        sort_entries(s).len() == s.len(),
    decreases s.len(),
{
    if s.len() > 0 {
        let init = s.drop_last();
        assert forall|i: int, j: int| 0 <= i < j < init.len() implies #[trigger] init[i].0 != #[trigger] init[j].0 by {
            assert(init[i] == s[i] && init[j] == s[j]);
        }
        lemma_sort_entries(init);
        let t = sort_entries(init);
        assert forall|i: int| 0 <= i < t.len() implies #[trigger] t[i].0 != s.last().0 by {
            vstd::seq_lib::to_multiset_contains(t, t[i]);
            vstd::seq_lib::to_multiset_contains(init, t[i]);
            assert(t.contains(t[i]));
            let k = choose|k: int| 0 <= k < init.len() && init[k] == t[i];
            assert(init[k] == s[k]);
        }
        lemma_sorted_insert(t, s.last());
        vstd::seq_lib::to_multiset_build(init, s.last());
        assert(init.push(s.last()) =~= s);
        assert(sort_entries(s) == sorted_insert(t, s.last()));
        assert(sort_entries(s).to_multiset() =~= init.to_multiset().insert(s.last()));
        assert(s.to_multiset() =~= init.to_multiset().insert(s.last()));
    } else {
        assert(s =~= sort_entries(s));
    }
}

/// Sorting entries already in key order leaves them as they are.
pub proof fn lemma_sort_sorted(s: Seq<Entry>)
    requires
        sorted_keys(s),
    ensures
        sort_entries(s) == s,
    decreases s.len(),
{
    if s.len() > 0 {
        let init = s.drop_last();
        assert forall|i: int, j: int| 0 <= i < j < init.len() implies text_lt(#[trigger] init[i].0, #[trigger] init[j].0) by {
            assert(init[i] == s[i] && init[j] == s[j]);
        }
        lemma_sort_sorted(init);
        lemma_insert_position(init, s.last().0);
        let p = insert_position(init, s.last().0);
        if p < init.len() {
            assert(text_lt(init[p as int].0, s.last().0));
        }
        assert(init.insert(init.len() as int, s.last()) =~= s);
    }
}

/// The stored form of entries: their number, then each key and value.
pub open spec fn enc_entries(s: Seq<Entry>) -> Seq<u8>
    decreases s.len(),
{
    if s.len() == 0 {
        seq![]
    } else {
        enc_entries(s.drop_last()) + enc_string(s.last().0) + enc_string(s.last().1)
    }
}

/// The stored form of metadata entries.
pub open spec fn enc_metadata(s: Seq<Entry>) -> Seq<u8> {
    enc_u32(s.len() as u32) + enc_entries(s)
}

/// Whether every key and value of `s` can be written.
pub open spec fn entries_fit(s: Seq<Entry>) -> bool {
    forall|i: int| 0 <= i < s.len() ==> string_fits(#[trigger] s[i].0) && string_fits(s[i].1)
}

/// Reading `count` entries off the front of `s`.
pub open spec fn parse_entries(s: Seq<u8>, count: nat) -> Option<(Seq<Entry>, Seq<u8>)>
    decreases count,
{
    if count == 0 {
        Some((seq![], s))
    } else {
        match parse_entries(s, (count - 1) as nat) {
            None => None,
            Some((entries, rest)) => match take_string(rest) {
                None => None,
                Some((key, rest2)) => match take_string(rest2) {
                    None => None,
                    Some((value, rest3)) => Some((entries.push((key, value)), rest3)),
                },
            },
        }
    }
}

/// The most entries a stored record may hold.
pub const MAX_METADATA_ENTRIES: u32 = 10_000;

/// The entries a stored metadata record holds, in stored order, if it is
/// well formed: a count of at most the safety limit, that many keys and
/// values, nothing after them, and no key twice.
pub open spec fn parse_metadata(bytes: Seq<u8>) -> Option<Seq<Entry>> {
    match take_le(bytes, 4) {
        None => None,
        Some((count, rest)) => if count > MAX_METADATA_ENTRIES {
            None
        } else {
            match parse_entries(rest, count) {
                Some((entries, tail)) => if tail.len() == 0 && distinct_keys(entries) {
                    Some(entries)
                } else {
                    None
                },
                None => None,
            }
        },
    }
}

proof fn lemma_parse_entries_enc(s: Seq<Entry>, rest: Seq<u8>)
    requires
        entries_fit(s),
    ensures
        parse_entries(enc_entries(s) + rest, s.len()) == Some((s, rest)),
    decreases s.len(),
{
    if s.len() == 0 {
        assert(enc_entries(s) + rest =~= rest);
        assert(seq![] =~= s);
    } else {
        let init = s.drop_last();
        let k = s.last().0;
        let v = s.last().1;
        assert(string_fits(s[s.len() - 1].0));
        let tail = enc_string(k) + enc_string(v) + rest;
        assert forall|i: int| 0 <= i < init.len() implies string_fits(#[trigger] init[i].0) && string_fits(init[i].1) by {
            assert(init[i] == s[i]);
        }
        assert(enc_entries(s) + rest =~= enc_entries(init) + tail);
        lemma_parse_entries_enc(init, tail);
        lemma_take_string_enc(k, enc_string(v) + rest);
        assert(tail =~= enc_string(k) + (enc_string(v) + rest));
        lemma_take_string_enc(v, rest);
        assert(init.push((k, v)) =~= s);
    }
}

/// Metadata held in key order reads back as itself: its stored form parses
/// to the same entries, which are already in key order.
pub proof fn law_metadata_roundtrip(s: Seq<Entry>)
    requires
        sorted_keys(s),
        entries_fit(s),
        s.len() <= MAX_METADATA_ENTRIES,
    ensures
        parse_metadata(enc_metadata(s)) == Some(s),
        sort_entries(s) == s,
{
    lemma_sort_sorted(s);
    lemma_pow256_4();
    lemma_take_le_enc(s.len(), 4, enc_entries(s));
    lemma_parse_entries_enc(s, seq![]);
    assert(enc_entries(s) + seq![] =~= enc_entries(s));
    assert forall|i: int, j: int| 0 <= i < j < s.len() implies #[trigger] s[i].0 != #[trigger] s[j].0 by {
        lemma_text_lt_irreflexive(s[i].0);
    }
}

proof fn lemma_pow256_4()
    ensures
        pow256(4) == 0x1_0000_0000,
{
    reveal_with_fuel(pow256, 5);
}

/// `s` with `e` stored under its key: the value replaced when the key is
/// present, the entry inserted in key order when not.
pub open spec fn metadata_insert(s: Seq<Entry>, e: Entry) -> Seq<Entry> {
    let p = insert_position(s, e.0) as int;
    if p < s.len() && s[p].0 == e.0 {
        s.update(p, e)
    } else {
        s.insert(p, e)
    }
}

/// Whether some entry of `s` has key `key`.
pub open spec fn has_key(s: Seq<Entry>, key: Seq<char>) -> bool {
    exists|i: int| 0 <= i < s.len() && #[trigger] s[i].0 == key
}

proof fn lemma_key_at_position(s: Seq<Entry>, key: Seq<char>)
    requires
        sorted_keys(s),
    ensures
        has_key(s, key) <==> (insert_position(s, key) < s.len() && s[insert_position(s, key) as int].0
            == key),
{
    lemma_insert_position(s, key);
    let p = insert_position(s, key) as int;
    if has_key(s, key) {
        let i = choose|i: int| 0 <= i < s.len() && #[trigger] s[i].0 == key;
        if i < p {
            lemma_text_lt_irreflexive(key);
        } else if i > p {
            if p < s.len() {
                lemma_text_lt_total(s[p].0, key);
                if s[p].0 != key {
                    assert(text_lt(s[p].0, s[i].0));
                    lemma_text_lt_transitive(key, s[p].0, s[i].0);
                    lemma_text_lt_irreflexive(key);
                }
            }
        }
    }
}

proof fn lemma_update_sorted(s: Seq<Entry>, p: int, e: Entry)
    requires
        sorted_keys(s),
        0 <= p < s.len(),
        s[p].0 == e.0,
    ensures
        sorted_keys(s.update(p, e)),
{
    let r = s.update(p, e);
    assert forall|i: int, j: int| 0 <= i < j < r.len() implies text_lt(#[trigger] r[i].0, #[trigger] r[j].0) by {
        assert(r[i].0 == s[i].0 && r[j].0 == s[j].0);
    }
}

/// Compares two keys in key order.
pub fn key_less(a: &str, b: &str) -> (r: bool)
    ensures
        r == text_lt(a@, b@),
{
    let x = chars_of(a);
    let y = chars_of(b);
    let mut i: usize = 0;
    proof {
        assert(a@.skip(0) =~= a@);
        assert(b@.skip(0) =~= b@);
    }
    while i < x.len() && i < y.len() && x[i] == y[i]
        invariant
            x@ == a@,
            y@ == b@,
            i <= x@.len(),
            i <= y@.len(),
            text_lt(a@, b@) == text_lt(a@.skip(i as int), b@.skip(i as int)),
        decreases x.len() - i,
    {
        proof {
            let xs = a@.skip(i as int);
            let ys = b@.skip(i as int);
            assert(xs.drop_first() =~= a@.skip(i + 1));
            assert(ys.drop_first() =~= b@.skip(i + 1));
        }
        i += 1;
    }
    if i == y.len() {
        false
    } else if i == x.len() {
        true
    } else {
        x[i] < y[i]
    }
}

/// Text-keyed audit metadata, held in key order with each key once.
#[derive(Debug, PartialEq, Eq)]
pub struct AuditMetadata {
    entries: Vec<(String, String)>,
}

/// The text of one stored entry.
pub open spec fn entry_view(e: (String, String)) -> Entry {
    (e.0@, e.1@)
}

impl AuditMetadata {
    /// The entries, in key order.
    pub closed spec fn view_entries(&self) -> Seq<Entry> {
        self.entries@.map_values(|e: (String, String)| entry_view(e))
    }

    #[verifier::type_invariant]
    closed spec fn in_key_order(self) -> bool {
        sorted_keys(self.view_entries())
    }

    /// No metadata.
    pub fn new() -> (m: Self)
        ensures
            m.view_entries() == Seq::<Entry>::empty(),
    {
        let m = AuditMetadata { entries: Vec::new() };
        assert(m.view_entries() =~= Seq::<Entry>::empty());
        m
    }

    /// The number of entries.
    pub fn len(&self) -> (n: usize)
        ensures
            n == self.view_entries().len(),
    {
        self.entries.len()
    }

    /// The entries, in key order.
    pub fn entries(&self) -> (e: &[(String, String)])
        ensures
            e@.map_values(|x: (String, String)| entry_view(x)) == self.view_entries(),
            sorted_keys(self.view_entries()),
    {
        proof {
            use_type_invariant(self);
        }
        self.entries.as_slice()
    }

    fn position(&self, key: &str) -> (p: usize)
        ensures
            p == insert_position(self.view_entries(), key@),
    {
        let ghost v = self.view_entries();
        let mut k: usize = 0;
        proof {
            assert(v.skip(0) =~= v);
        }
        while k < self.entries.len() && key_less(self.entries[k].0.as_str(), key)
            invariant
                v == self.view_entries(),
                k <= v.len(),
                insert_position(v, key@) == k + insert_position(v.skip(k as int), key@),
            decreases self.entries.len() - k,
        {
            proof {
                assert(v.skip(k as int).drop_first() =~= v.skip(k + 1));
                assert(v.skip(k as int)[0] == v[k as int]);
            }
            k += 1;
        }
        proof {
            if k < v.len() {
                assert(v.skip(k as int)[0] == v[k as int]);
            }
        }
        k
    }

    /// Stores `value` under `key`, replacing the value of a present key.
    pub fn insert(&mut self, key: String, value: String)
        ensures
            final(self).view_entries() == metadata_insert(old(self).view_entries(), (key@, value@)),
    {
        proof {
            use_type_invariant(&*self);
        }
        let ghost v = self.view_entries();
        let p = self.position(key.as_str());
        proof {
            lemma_insert_position(v, key@);
            lemma_key_at_position(v, key@);
        }
        if p < self.entries.len() && self.entries[p].0 == key {
            proof {
                lemma_update_sorted(v, p as int, (key@, value@));
                assert(v.update(p as int, (key@, value@)) =~= self.entries@.update(p as int, (key, value)).map_values(|e: (String, String)| entry_view(e)));
            }
            let mut entries = Vec::new();
            std::mem::swap(&mut entries, &mut self.entries);
            entries.set(p, (key, value));
            self.entries = entries;
        } else {
            proof {
                assert forall|i: int| 0 <= i < v.len() implies #[trigger] v[i].0 != key@ by {}
                lemma_sorted_insert(v, (key@, value@));
                assert(v.insert(p as int, (key@, value@)) =~= self.entries@.insert(p as int, (key, value)).map_values(|e: (String, String)| entry_view(e)));
            }
            let mut entries = Vec::new();
            std::mem::swap(&mut entries, &mut self.entries);
            entries.insert(p, (key, value));
            self.entries = entries;
        }
    }

    /// Stores a new entry; refuses, changing nothing, when `key` is present.
    fn insert_new(&mut self, key: String, value: String) -> (added: bool)
        ensures
            added == !has_key(old(self).view_entries(), key@),
            added ==> final(self).view_entries() == sorted_insert(old(self).view_entries(), (key@, value@)),
            !added ==> final(self).view_entries() == old(self).view_entries(),
    {
        proof {
            use_type_invariant(&*self);
        }
        let ghost v = self.view_entries();
        let p = self.position(key.as_str());
        proof {
            lemma_insert_position(v, key@);
            lemma_key_at_position(v, key@);
        }
        if p < self.entries.len() && self.entries[p].0 == key {
            false
        } else {
            proof {
                assert forall|i: int| 0 <= i < v.len() implies #[trigger] v[i].0 != key@ by {}
                lemma_sorted_insert(v, (key@, value@));
                assert(v.insert(p as int, (key@, value@)) =~= self.entries@.insert(p as int, (key, value)).map_values(|e: (String, String)| entry_view(e)));
            }
            let mut entries = Vec::new();
            std::mem::swap(&mut entries, &mut self.entries);
            entries.insert(p, (key, value));
            self.entries = entries;
            true
        }
    }
}

/// Why entries cannot be written: the label of the first key or value over
/// the limit.
pub open spec fn unfit_message(s: Seq<Entry>) -> Seq<char>
    decreases s.len(),
{
    if s.len() == 0 {
        seq![]
    } else if !string_fits(s[0].0) {
        over_limit_message("audit metadata key"@)
    } else if !string_fits(s[0].1) {
        over_limit_message("audit metadata value"@)
    } else {
        unfit_message(s.drop_first())
    }
}

/// The message of metadata with more entries than a count can hold.
pub open spec fn too_many_entries_text() -> Seq<char> {
    "audit metadata has too many entries"@
}

/// Writes metadata: the entry count, then each key and value in key order.
/// Refused as an invalid record when there are more entries than a count
/// holds or a key or value is over the field limit.
pub fn encode_metadata(metadata: &AuditMetadata) -> (res: Result<Vec<u8>, PersistenceError>)
    ensures
        res is Ok <==> metadata.view_entries().len() <= u32::MAX && entries_fit(
            metadata.view_entries(),
        ),
        res matches Ok(b) ==> b@ == enc_metadata(metadata.view_entries()),
        res matches Err(e) ==> (e matches PersistenceError::InvalidRecord { message } && message@
            == if metadata.view_entries().len() > u32::MAX {
            too_many_entries_text()
        } else {
            unfit_message(metadata.view_entries())
        }),
{
    let entries = metadata.entries();
    let ghost v = metadata.view_entries();
    if entries.len() > 0xffff_ffff {
        return Err(PersistenceError::InvalidRecord {
            message: String::from_str("audit metadata has too many entries"),
        });
    }
    let mut encoder = Encoder::new();
    encoder.u32(entries.len() as u32);
    let mut i: usize = 0;
    proof {
        assert(v.subrange(0, 0) =~= Seq::<Entry>::empty());
        assert(v.skip(0) =~= v);
    }
    while i < entries.len()
        invariant
            v == entries@.map_values(|x: (String, String)| entry_view(x)),
            v == metadata.view_entries(),
            v.len() <= u32::MAX,
            i <= v.len(),
            encoder@ == enc_u32(v.len() as u32) + enc_entries(v.subrange(0, i as int)),
            entries_fit(v.subrange(0, i as int)),
            unfit_message(v) == unfit_message(v.skip(i as int)),
        decreases entries.len() - i,
    {
        let ghost before = encoder@;
        let ghost e = v[i as int];
        proof {
            assert(v.skip(i as int)[0] == e);
            assert(v.skip(i as int).drop_first() =~= v.skip(i + 1));
            assert(v.subrange(0, i + 1).drop_last() =~= v.subrange(0, i as int));
            assert(v.subrange(0, i + 1).last() == e);
        }
        match encoder.string(entries[i].0.as_str(), "audit metadata key") {
            Ok(()) => {},
            Err(message) => {
                proof {
                    assert(entries@[i as int].0@ == e.0);
                    assert(!string_fits(v[i as int].0));
                    assert(unfit_message(v.skip(i as int)) == over_limit_message("audit metadata key"@));
                }
                return Err(PersistenceError::InvalidRecord { message });
            },
        }
        match encoder.string(entries[i].1.as_str(), "audit metadata value") {
            Ok(()) => {},
            Err(message) => {
                proof {
                    assert(entries@[i as int].1@ == e.1);
                    assert(string_fits(v[i as int].0));
                    assert(!string_fits(v[i as int].1));
                    assert(unfit_message(v.skip(i as int)) == over_limit_message("audit metadata value"@));
                }
                return Err(PersistenceError::InvalidRecord { message });
            },
        }
        proof {
            assert(entries@[i as int].0@ == e.0 && entries@[i as int].1@ == e.1);
            assert(string_fits(e.0) && string_fits(e.1));
            assert(v.subrange(0, i + 1)[i as int] == e);
            assert(encoder@ =~= enc_u32(v.len() as u32) + enc_entries(v.subrange(0, i + 1)));
            assert forall|j: int| 0 <= j < i + 1 implies string_fits(#[trigger] v.subrange(0, i + 1)[j].0)
                && string_fits(v.subrange(0, i + 1)[j].1) by {
                if j < i {
                    assert(v.subrange(0, i + 1)[j] == v.subrange(0, i as int)[j]);
                }
            }
        }
        i += 1;
    }
    proof {
        assert(v.subrange(0, v.len() as int) =~= v);
    }
    Ok(encoder.finish())
}

proof fn lemma_parse_prefix(s: Seq<u8>, m: nat, n: nat)
    requires
        m <= n,
        parse_entries(s, n) is Some,
    ensures
        parse_entries(s, m) is Some,
        parse_entries(s, m).unwrap().0 == parse_entries(s, n).unwrap().0.subrange(0, m as int),
    decreases n,
{
    lemma_parse_len(s, n);
    if m < n {
        lemma_parse_len(s, (n - 1) as nat);
        lemma_parse_prefix(s, m, (n - 1) as nat);
        let prev = parse_entries(s, (n - 1) as nat).unwrap().0;
        let all = parse_entries(s, n).unwrap().0;
        assert(all.subrange(0, m as int) =~= prev.subrange(0, m as int));
    } else {
        let all = parse_entries(s, n).unwrap().0;
        assert(all.subrange(0, n as int) =~= all);
    }
}

proof fn lemma_parse_none(s: Seq<u8>, m: nat, n: nat)
    requires
        m <= n,
        parse_entries(s, m) is None,
    ensures
        parse_entries(s, n) is None,
    decreases n,
{
    if m < n {
        lemma_parse_none(s, m, (n - 1) as nat);
    }
}

proof fn lemma_parse_len(s: Seq<u8>, n: nat)
    requires
        parse_entries(s, n) is Some,
    ensures
        parse_entries(s, n).unwrap().0.len() == n,
    decreases n,
{
    if n > 0 {
        lemma_parse_len(s, (n - 1) as nat);
    }
}

/// Reads stored metadata back: the entries come out in key order. Refused
/// as corrupt storage unless the record is exactly a count within the
/// safety limit followed by that many keys and values, no key twice.
pub fn decode_metadata(bytes: &[u8]) -> (res: Result<AuditMetadata, PersistenceError>)
    ensures
        res is Ok <==> parse_metadata(bytes@) is Some,
        res matches Ok(m) ==> m.view_entries() == sort_entries(parse_metadata(bytes@).unwrap()),
        res matches Err(e) ==> e is StorageCorrupt,
{
    let mut decoder = Decoder::new(bytes);
    let count = match decoder.u32() {
        Ok(count) => count,
        Err(message) => {
            return Err(PersistenceError::StorageCorrupt { message });
        },
    };
    let ghost body = decoder.rest();
    if count > MAX_METADATA_ENTRIES {
        return Err(PersistenceError::StorageCorrupt {
            message: String::from_str("audit metadata entry count exceeds the safety limit"),
        });
    }
    let mut metadata = AuditMetadata::new();
    let mut i: u32 = 0;
    let ghost mut read: Seq<Entry> = Seq::empty();
    while i < count
        invariant
            take_le(bytes@, 4) == Some((count as nat, body)),
            i <= count,
            parse_entries(body, i as nat) == Some((read, decoder.rest())),
            distinct_keys(read),
            metadata.view_entries() == sort_entries(read),
        decreases count - i,
    {
        let key = match decoder.string("audit metadata key") {
            Ok(key) => key,
            Err(message) => {
                proof {
                    lemma_parse_none(body, (i + 1) as nat, count as nat);
                }
                return Err(PersistenceError::StorageCorrupt { message });
            },
        };
        let value = match decoder.string("audit metadata value") {
            Ok(value) => value,
            Err(message) => {
                proof {
                    lemma_parse_none(body, (i + 1) as nat, count as nat);
                }
                return Err(PersistenceError::StorageCorrupt { message });
            },
        };
        let ghost entry: Entry = (key@, value@);
        proof {
            lemma_sort_entries(read);
            assert(has_key(metadata.view_entries(), key@) <==> has_key(read, key@)) by {
                let v = metadata.view_entries();
                if has_key(v, key@) {
                    let j = choose|j: int| 0 <= j < v.len() && #[trigger] v[j].0 == key@;
                    vstd::seq_lib::to_multiset_contains(v, v[j]);
                    vstd::seq_lib::to_multiset_contains(read, v[j]);
                    let k = choose|k: int| 0 <= k < read.len() && read[k] == v[j];
                    assert(read[k].0 == key@);
                }
                if has_key(read, key@) {
                    let j = choose|j: int| 0 <= j < read.len() && #[trigger] read[j].0 == key@;
                    vstd::seq_lib::to_multiset_contains(v, read[j]);
                    vstd::seq_lib::to_multiset_contains(read, read[j]);
                    let k = choose|k: int| 0 <= k < v.len() && v[k] == read[j];
                    assert(v[k].0 == key@);
                }
            }
        }
        let shown = key.clone();
        if !metadata.insert_new(key, value) {
            proof {
                let next = read.push(entry);
                assert(parse_entries(body, (i + 1) as nat) == Some((next, decoder.rest())));
                let j = choose|j: int| 0 <= j < read.len() && #[trigger] read[j].0 == entry.0;
                if parse_entries(body, count as nat) is Some {
                    lemma_parse_prefix(body, (i + 1) as nat, count as nat);
                    lemma_parse_len(body, count as nat);
                    let all = parse_entries(body, count as nat).unwrap().0;
                    assert(next == all.subrange(0, i + 1));
                    assert(all[j] == next[j]);
                    assert(all[i as int] == next[i as int]);
                    assert(!distinct_keys(all));
                }
            }
            let mut message = String::from_str("duplicate audit metadata key '");
            message.append(shown.as_str());
            message.append("'");
            return Err(PersistenceError::StorageCorrupt { message });
        }
        proof {
            let next = read.push(entry);
            assert(next.drop_last() =~= read);
            assert(distinct_keys(next)) by {
                assert forall|a: int, b: int| 0 <= a < b < next.len() implies #[trigger] next[a].0 != #[trigger] next[b].0 by {
                    if b == read.len() {
                        assert(next[a] == read[a]);
                    } else {
                        assert(next[a] == read[a] && next[b] == read[b]);
                    }
                }
            }
            read = next;
        }
        i += 1;
    }
    proof {
        lemma_parse_len(body, count as nat);
    }
    match decoder.finish() {
        Ok(()) => Ok(metadata),
        Err(message) => Err(PersistenceError::StorageCorrupt { message }),
    }
}

} // verus!
