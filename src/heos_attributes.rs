//! The `key=value&...` query suffix of a command line.

use vstd::prelude::*;
use crate::error::HeosError;

verus! {

/// One attribute as it stands on the wire: `key=value`.
pub open spec fn attr_text(p: (Seq<char>, Seq<char>)) -> Seq<char> {
    p.0 + seq!['='] + p.1
}

/// Attributes in order, joined with `&`.
pub open spec fn joined_attrs(ps: Seq<(Seq<char>, Seq<char>)>) -> Seq<char>
    decreases ps.len(),
{
    if ps.len() == 0 {
        Seq::empty()
    } else if ps.len() == 1 {
        attr_text(ps[0])
    } else {
        attr_text(ps[0]) + seq!['&'] + joined_attrs(ps.drop_first())
    }
}

/// The query suffix: empty without attributes, else `?` and the joined attributes.
pub open spec fn query_string(ps: Seq<(Seq<char>, Seq<char>)>) -> Seq<char> {
    if ps.len() == 0 {
        Seq::empty()
    } else {
        seq!['?'] + joined_attrs(ps)
    }
}

/// The pairs of borrowed strings, as text.
pub open spec fn attr_pairs(v: Seq<(&str, &str)>) -> Seq<(Seq<char>, Seq<char>)> {
    v.map_values(|p: (&str, &str)| (p.0@, p.1@))
}

pub proof fn lemma_joined_push(ps: Seq<(Seq<char>, Seq<char>)>, p: (Seq<char>, Seq<char>))
    requires
        ps.len() > 0,
    ensures
        joined_attrs(ps.push(p)) == joined_attrs(ps) + seq!['&'] + attr_text(p),
    decreases ps.len(),
{
    let q = ps.push(p);
    assert(q.drop_first() =~= ps.drop_first().push(p));
    assert(q[0] == ps[0]);
    if ps.len() == 1 {
        assert(q.drop_first() =~= seq![p]);
        assert(joined_attrs(seq![p]) == attr_text(p));
        assert(joined_attrs(q) =~= joined_attrs(ps) + seq!['&'] + attr_text(p));
    } else {
        lemma_joined_push(ps.drop_first(), p);
        assert(joined_attrs(q) =~= joined_attrs(ps) + seq!['&'] + attr_text(p));
    }
}

/// Appends `key=value` to `out`.
fn push_attr(out: &mut String, key: &str, value: &str)
    ensures
        final(out)@ == old(out)@ + attr_text((key@, value@)),
{
    out.append(key);
    out.append("=");
    out.append(value);
    proof {
        reveal_strlit("=");
        assert(final(out)@ =~= old(out)@ + attr_text((key@, value@)));
    }
}

/// The query suffix for `attrs`, shared by the public renderers.
pub(crate) fn join_attributes(attrs: &Vec<(&str, &str)>) -> (r: String)
    ensures
        r@ == query_string(attr_pairs(attrs@)),
{
    let ghost ps = attr_pairs(attrs@);
    let mut out = String::new();
    if attrs.len() == 0 {
        return out;
    }
    out.append("?");
    push_attr(&mut out, attrs[0].0, attrs[0].1);
    proof {
        reveal_strlit("?");
        assert(ps.take(1) =~= seq![ps[0]]);
    }
    let mut i: usize = 1;
    while i < attrs.len()
        invariant
            ps == attr_pairs(attrs@),
            1 <= i <= attrs@.len(),
            out@ == seq!['?'] + joined_attrs(ps.take(i as int)),
        decreases attrs@.len() - i,
    {
        let ghost before = out@;
        out.append("&");
        push_attr(&mut out, attrs[i].0, attrs[i].1);
        proof {
            reveal_strlit("&");
            lemma_joined_push(ps.take(i as int), ps[i as int]);
            assert(ps.take(i + 1) =~= ps.take(i as int).push(ps[i as int]));
            assert(out@ =~= seq!['?'] + joined_attrs(ps.take(i + 1)));
        }
        i += 1;
    }
    assert(ps.take(i as int) =~= ps);
    out
}

/// The query suffix for `attrs`: empty without attributes, else
/// `?k1=v1&k2=v2...` in the given order.
pub fn attributes_string_from(attrs: Vec<(&str, &str)>) -> (r: String)
    ensures
        r@ == query_string(attr_pairs(attrs@)),
{
    join_attributes(&attrs)
}

/// Values that render as a command's query suffix.
pub trait HeosAttributes {
    /// The attributes, in order, as text.
    spec fn attr_model(&self) -> Seq<(Seq<char>, Seq<char>)>;

    /// The query suffix; it is always produced.
    fn to_heos_attrs(&self) -> (r: Result<String, HeosError>)
        ensures
            r matches Ok(s) && s@ == query_string(self.attr_model()),
    ;
}

impl<'a> HeosAttributes for Vec<(&'a str, &'a str)> {
    open spec fn attr_model(&self) -> Seq<(Seq<char>, Seq<char>)> {
        attr_pairs(self@)
    }

    fn to_heos_attrs(&self) -> (r: Result<String, HeosError>) {
        Ok(join_attributes(self))
    }
}

} // verus!
