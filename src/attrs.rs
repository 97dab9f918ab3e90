//! Attribute maps (string keys to string values) and the `key=value&...`
//! message format that replies carry them in.

use vstd::prelude::*;
use vstd::string::*;
use crate::heos_attributes::{attr_text, joined_attrs};
use crate::text::{
    find, first_match, lemma_first_match_unique, lemma_no_match, matches_at, same_text, split_on,
    split_once,
};

verus! {

/// The map that inserting `ps` in order builds; a later key replaces an earlier one.
pub open spec fn pairs_map(ps: Seq<(Seq<char>, Seq<char>)>) -> Map<Seq<char>, Seq<char>>
    decreases ps.len(),
{
    if ps.len() == 0 {
        Map::empty()
    } else {
        pairs_map(ps.drop_last()).insert(ps.last().0, ps.last().1)
    }
}

pub proof fn lemma_pairs_map_push(ps: Seq<(Seq<char>, Seq<char>)>, p: (Seq<char>, Seq<char>))
    ensures
        pairs_map(ps.push(p)) == pairs_map(ps).insert(p.0, p.1),
{
    assert(ps.push(p).drop_last() =~= ps);
}

/// What one more segment adds to the decoded attributes.
proof fn lemma_segment_step(done: Seq<Seq<char>>, seg: Seq<char>)
    ensures
        pairs_map(segment_pairs(done.push(seg))) == match split_once(seg, seq!['=']) {
            Some(kv) => pairs_map(segment_pairs(done)).insert(kv.0, kv.1),
            None => pairs_map(segment_pairs(done)),
        },
{
    assert(done.push(seg).drop_last() =~= done);
    assert(done.push(seg).last() == seg);
    match split_once(seg, seq!['=']) {
        Some(kv) => lemma_pairs_map_push(segment_pairs(done), kv),
        None => {},
    }
}

/// The pairs of the segments that hold a `=`, cut at their first `=`.
pub open spec fn segment_pairs(segs: Seq<Seq<char>>) -> Seq<(Seq<char>, Seq<char>)>
    decreases segs.len(),
{
    if segs.len() == 0 {
        Seq::empty()
    } else {
        let init = segment_pairs(segs.drop_last());
        match split_once(segs.last(), seq!['=']) {
            Some(kv) => init.push(kv),
            None => init,
        }
    }
}

/// The attributes of a message string: split on `&`, each segment cut at its
/// first `=`, segments without `=` dropped, a later key replacing an earlier one.
pub open spec fn message_attrs(m: Seq<char>) -> Map<Seq<char>, Seq<char>> {
    pairs_map(segment_pairs(split_on(m, seq!['&'])))
}

/// A pair that can travel in a message: no `&` in key or value, no `=` in the key.
pub open spec fn plain_pair(p: (Seq<char>, Seq<char>)) -> bool {
    !p.0.contains('&') && !p.0.contains('=') && !p.1.contains('&')
}

/// The keys of `ps` are pairwise distinct.
pub open spec fn distinct_keys(ps: Seq<(Seq<char>, Seq<char>)>) -> bool {
    forall|i: int, j: int| 0 <= i < j < ps.len() ==> ps[i].0 != ps[j].0
}

proof fn lemma_no_char_no_match(s: Seq<char>, c: char)
    requires
        !s.contains(c),
    ensures
        first_match(s, seq![c]) is None,
{
    assert forall|j: int| !matches_at(s, seq![c], j) by {
        if matches_at(s, seq![c], j) {
            assert(s.subrange(j, j + 1)[0] == s[j]);
        }
    };
    lemma_no_match(s, seq![c]);
}

proof fn lemma_first_char_match(a: Seq<char>, c: char, b: Seq<char>)
    requires
        !a.contains(c),
    ensures
        first_match(a + seq![c] + b, seq![c]) == Some(a.len() as int),
{
    let s = a + seq![c] + b;
    assert(s.subrange(a.len() as int, a.len() as int + 1) =~= seq![c]);
    assert forall|j: int| 0 <= j < a.len() implies !matches_at(s, seq![c], j) by {
        if matches_at(s, seq![c], j) {
            assert(s.subrange(j, j + 1)[0] == s[j]);
            assert(s[j] == a[j]);
        }
    };
    lemma_first_match_unique(s, seq![c], a.len() as int);
}

proof fn lemma_split_joined(ps: Seq<(Seq<char>, Seq<char>)>)
    requires
        ps.len() > 0,
        forall|i: int| 0 <= i < ps.len() ==> plain_pair(#[trigger] ps[i]),
    ensures
        split_on(joined_attrs(ps), seq!['&']) == ps.map_values(|p: (Seq<char>, Seq<char>)| attr_text(p)),
    decreases ps.len(),
{
    let t0 = attr_text(ps[0]);
    assert(plain_pair(ps[0]));
    assert(!t0.contains('&')) by {
        if t0.contains('&') {
            let j = choose|j: int| 0 <= j < t0.len() && t0[j] == '&';
            if j < ps[0].0.len() {
                assert(ps[0].0[j] == '&');
            } else if j == ps[0].0.len() {
            } else {
                assert(ps[0].1[j - ps[0].0.len() - 1] == '&');
            }
        }
    };
    let texts = ps.map_values(|p: (Seq<char>, Seq<char>)| attr_text(p));
    if ps.len() == 1 {
        lemma_no_char_no_match(t0, '&');
        assert(texts =~= seq![t0]);
    } else {
        let rest = ps.drop_first();
        lemma_split_joined(rest);
        let s = joined_attrs(ps);
        lemma_first_char_match(t0, '&', joined_attrs(rest));
        assert(s.take(t0.len() as int) =~= t0);
        assert(s.skip(t0.len() as int + 1) =~= joined_attrs(rest));
        assert(texts =~= seq![t0] + rest.map_values(|p: (Seq<char>, Seq<char>)| attr_text(p)));
    }
}

proof fn lemma_segment_pairs_of_texts(ps: Seq<(Seq<char>, Seq<char>)>)
    requires
        forall|i: int| 0 <= i < ps.len() ==> plain_pair(#[trigger] ps[i]),
    ensures
        segment_pairs(ps.map_values(|p: (Seq<char>, Seq<char>)| attr_text(p))) == ps,
    decreases ps.len(),
{
    let texts = ps.map_values(|p: (Seq<char>, Seq<char>)| attr_text(p));
    if ps.len() > 0 {
        let init = ps.drop_last();
        assert(texts.drop_last() =~= init.map_values(|p: (Seq<char>, Seq<char>)| attr_text(p)));
        assert forall|i: int| 0 <= i < init.len() implies plain_pair(#[trigger] init[i]) by {
            assert(init[i] == ps[i]);
        };
        lemma_segment_pairs_of_texts(init);
        let p = ps.last();
        assert(plain_pair(ps[ps.len() - 1]));
        lemma_first_char_match(p.0, '=', p.1);
        let t = attr_text(p);
        assert(t.take(p.0.len() as int) =~= p.0);
        assert(t.skip(p.0.len() as int + 1) =~= p.1);
        assert(ps =~= init.push(p));
    } else {
        assert(texts =~= Seq::<Seq<char>>::empty());
    }
}

/// Decoding a message made of key/value pairs joined with `&` gives back
/// the map of exactly those pairs, whatever their order, for pairs with no
/// `&` in key or value and no `=` in the key.
pub proof fn lemma_message_round_trip(ps: Seq<(Seq<char>, Seq<char>)>)
    requires
        forall|i: int| 0 <= i < ps.len() ==> plain_pair(#[trigger] ps[i]),
    ensures
        message_attrs(joined_attrs(ps)) == pairs_map(ps),
{
    if ps.len() == 0 {
        let e = Seq::<char>::empty();
        lemma_no_char_no_match(e, '&');
        assert(split_on(e, seq!['&']) == seq![e]);
        lemma_no_char_no_match(e, '=');
        assert(seq![e].drop_last() =~= Seq::<Seq<char>>::empty());
        assert(seq![e].last() == e);
        assert(segment_pairs(Seq::<Seq<char>>::empty()) == Seq::<(Seq<char>, Seq<char>)>::empty());
        assert(segment_pairs(seq![e]) =~= Seq::<(Seq<char>, Seq<char>)>::empty());
    } else {
        lemma_split_joined(ps);
        lemma_segment_pairs_of_texts(ps);
    }
}

/// With distinct keys, the map of `ps` holds exactly the pairs of `ps`.
pub proof fn lemma_pairs_map_distinct(ps: Seq<(Seq<char>, Seq<char>)>)
    requires
        distinct_keys(ps),
    ensures
        forall|i: int| 0 <= i < ps.len() ==> #[trigger] pairs_map(ps).contains_key(ps[i].0)
            && pairs_map(ps)[ps[i].0] == ps[i].1,
        forall|k: Seq<char>| #[trigger]
            pairs_map(ps).contains_key(k) ==> exists|i: int| 0 <= i < ps.len() && ps[i].0 == k,
    decreases ps.len(),
{
    if ps.len() > 0 {
        let init = ps.drop_last();
        assert(distinct_keys(init)) by {
            assert forall|i: int, j: int| 0 <= i < j < init.len() implies init[i].0 != init[j].0 by {
                assert(init[i] == ps[i] && init[j] == ps[j]);
            };
        };
        lemma_pairs_map_distinct(init);
        assert(pairs_map(ps) == pairs_map(init).insert(ps.last().0, ps.last().1));
        assert forall|i: int| 0 <= i < ps.len() implies #[trigger] pairs_map(ps).contains_key(ps[i].0)
            && pairs_map(ps)[ps[i].0] == ps[i].1 by {
            if i < ps.len() - 1 {
                assert(init[i] == ps[i]);
                assert(ps[i].0 != ps[ps.len() - 1].0);
                assert(pairs_map(init).contains_key(init[i].0));
            }
        };
        assert forall|k: Seq<char>| #[trigger]
            pairs_map(ps).contains_key(k) implies exists|i: int| 0 <= i < ps.len() && ps[i].0 == k by {
            if k != ps.last().0 {
                assert(pairs_map(init).contains_key(k));
                let i = choose|i: int| 0 <= i < init.len() && init[i].0 == k;
                assert(ps[i] == init[i]);
            } else {
                assert(ps[ps.len() - 1].0 == k);
            }
        };
    }
}

/// The text view of owned pairs.
pub open spec fn owned_pairs(v: Seq<(String, String)>) -> Seq<(Seq<char>, Seq<char>)> {
    v.map_values(|p: (String, String)| (p.0@, p.1@))
}

/// A map from string keys to string values.
#[derive(Debug, Clone)]
pub struct Attributes {
    entries: Vec<(String, String)>,
}

impl View for Attributes {
    type V = Map<Seq<char>, Seq<char>>;

    closed spec fn view(&self) -> Map<Seq<char>, Seq<char>> {
        pairs_map(owned_pairs(self.entries@))
    }
}

impl Attributes {
    /// An empty map.
    pub fn new() -> (r: Self)
        ensures
            r@ == Map::<Seq<char>, Seq<char>>::empty(),
    {
        Attributes { entries: Vec::new() }
    }

    /// Sets `key` to `value`, replacing any earlier value.
    pub fn insert(&mut self, key: String, value: String)
        ensures
            final(self)@ == old(self)@.insert(key@, value@),
    {
        let ghost before = owned_pairs(self.entries@);
        self.entries.push((key, value));
        proof {
            assert(owned_pairs(self.entries@).drop_last() =~= before);
        }
    }

    /// The value of `key`, if set.
    pub fn get(&self, key: &str) -> (r: Option<&String>)
        ensures
            r matches Some(v) ==> self@.contains_key(key@) && self@[key@] == v@,
            r is None <==> !self@.contains_key(key@),
    {
        let ghost ps = owned_pairs(self.entries@);
        let mut i: usize = self.entries.len();
        assert(ps.take(i as int) =~= ps);
        while i > 0
            invariant
                ps == owned_pairs(self.entries@),
                i <= self.entries@.len(),
                pairs_map(ps).contains_key(key@) == pairs_map(ps.take(i as int)).contains_key(
                    key@,
                ),
                pairs_map(ps).contains_key(key@) ==> pairs_map(ps)[key@] == pairs_map(
                    ps.take(i as int),
                )[key@],
            decreases i,
        {
            proof {
                assert(ps.take(i as int).drop_last() =~= ps.take(i - 1));
            }
            if same_text(self.entries[i - 1].0.as_str(), key) {
                proof {
                    assert(ps[i - 1] == (self.entries@[i - 1].0@, self.entries@[i - 1].1@));
                    assert(ps.take(i as int).last() == ps[i - 1]);
                }
                return Some(&self.entries[i - 1].1);
            }
            proof {
                assert(ps[i - 1] == (self.entries@[i - 1].0@, self.entries@[i - 1].1@));
                assert(ps.take(i as int).last() == ps[i - 1]);
            }
            i -= 1;
        }
        proof {
            assert(ps.take(0) =~= Seq::<(Seq<char>, Seq<char>)>::empty());
        }
        None
    }

    /// Whether `key` is set.
    pub fn contains_key(&self, key: &str) -> (r: bool)
        ensures
            r == self@.contains_key(key@),
    {
        self.get(key).is_some()
    }
}

/// Adds the pair of one message segment, if it holds a `=`.
pub(crate) fn add_segment(attrs: &mut Attributes, seg: &str)
    ensures
        final(attrs)@ == match split_once(seg@, seq!['=']) {
            Some(kv) => old(attrs)@.insert(kv.0, kv.1),
            None => old(attrs)@,
        },
{
    proof {
        reveal_strlit("=");
    }
    let eq = "=";
    assert(eq@ =~= seq!['=']);
    match find(seg, eq) {
        Some(i) => {
            let n = seg.unicode_len();
            let key = String::from_str(seg.substring_char(0, i));
            let value = String::from_str(seg.substring_char(i + 1, n));
            proof {
                assert(key@ =~= seg@.take(i as int));
                assert(value@ =~= seg@.skip(i + 1));
            }
            attrs.insert(key, value);
        },
        None => {},
    }
}

/// The attributes of a message string (see `message_attrs`).
pub fn decode_message(message: &str) -> (r: Attributes)
    ensures
        r@ == message_attrs(message@),
{
    proof {
        reveal_strlit("&");
    }
    let amp = "&";
    assert(amp@ =~= seq!['&']);
    let mut attrs = Attributes::new();
    let mut rest: &str = message;
    let ghost mut done: Seq<Seq<char>> = Seq::empty();
    loop
        invariant
            amp@ == seq!['&'],
            split_on(message@, seq!['&']) == done + split_on(rest@, seq!['&']),
            attrs@ == pairs_map(segment_pairs(done)),
        decreases rest@.len(),
    {
        match find(rest, amp) {
            Some(i) => {
                let n = rest.unicode_len();
                let seg = rest.substring_char(0, i);
                add_segment(&mut attrs, seg);
                proof {
                    lemma_segment_step(done, seg@);
                    assert(split_on(rest@, seq!['&']) == seq![rest@.take(i as int)] + split_on(
                        rest@.skip(i + 1),
                        seq!['&'],
                    ));
                    assert(seg@ =~= rest@.take(i as int));
                    done = done.push(seg@);
                }
                let next = rest.substring_char(i + 1, n);
                proof {
                    assert(next@ =~= rest@.skip(i + 1));
                    assert(split_on(message@, seq!['&']) =~= done + split_on(next@, seq!['&']));
                }
                rest = next;
            },
            None => {
                add_segment(&mut attrs, rest);
                proof {
                    lemma_segment_step(done, rest@);
                    assert(split_on(rest@, seq!['&']) == seq![rest@]);
                    assert(split_on(message@, seq!['&']) =~= done.push(rest@));
                }
                return attrs;
            },
        }
    }
}

} // verus!
