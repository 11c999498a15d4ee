//! The request and response model the layers read and write: method, path,
//! headers as (name, value) pairs with lower-case names, status and body.

use vstd::prelude::*;
use crate::text::same_chars;

verus! {

/// A header list as the contracts see it.
pub type HeaderSeq = Seq<(Seq<char>, Seq<char>)>;

/// The first value stored under `n`, as `HeaderMap::get` returns it.
pub open spec fn find_header(hs: HeaderSeq, n: Seq<char>) -> Option<Seq<char>>
    decreases hs.len(),
{
    if hs.len() == 0 {
        None
    } else if hs[0].0 == n {
        Some(hs[0].1)
    } else {
        find_header(hs.drop_first(), n)
    }
}

/// The list with every entry named `n` removed.
pub open spec fn without_header(hs: HeaderSeq, n: Seq<char>) -> HeaderSeq
    decreases hs.len(),
{
    if hs.len() == 0 {
        hs
    } else if hs[0].0 == n {
        without_header(hs.drop_first(), n)
    } else {
        seq![hs[0]] + without_header(hs.drop_first(), n)
    }
}

/// The list after `HeaderMap::insert(n, v)`: the first entry named `n` takes
/// the value `v` in place and later ones are dropped; with no such entry the
/// pair is appended.
pub open spec fn put_header(hs: HeaderSeq, n: Seq<char>, v: Seq<char>) -> HeaderSeq
    decreases hs.len(),
{
    if hs.len() == 0 {
        seq![(n, v)]
    } else if hs[0].0 == n {
        seq![(n, v)] + without_header(hs.drop_first(), n)
    } else {
        seq![hs[0]] + put_header(hs.drop_first(), n, v)
    }
}

/// Request metadata handed through the layers; the body stays with the caller.
#[derive(Clone, Debug)]
pub struct Request {
    pub method: String,
    pub path: String,
    pub headers: Vec<(String, String)>,
}

/// A response: status code, headers and body bytes.
#[derive(Clone, Debug)]
pub struct Response {
    pub status: u16,
    pub headers: Vec<(String, String)>,
    pub body: Vec<u8>,
}

/// What a gating layer does with a request.
#[derive(Debug)]
pub enum Step {
    /// Hand this request to the inner service.
    Forward(Request),
    /// Answer with this response; the inner service is not called.
    Respond(Response),
}

/// The first value stored under `name`.
pub fn get_header(hs: &Vec<(String, String)>, name: &str) -> (r: Option<String>)
    ensures
        r.deep_view() == find_header(hs.deep_view(), name@),
{
    let ghost all = hs.deep_view();
    let mut i: usize = 0;
    assert(all.skip(0) == all);
    while i < hs.len()
        invariant
            all == hs.deep_view(),
            i <= hs.len(),
            find_header(all, name@) == find_header(all.skip(i as int), name@),
        decreases hs.len() - i,
    {
        let ghost rest = all.skip(i as int);
        assert(rest[0] == all[i as int]);
        assert(rest.drop_first() == all.skip(i + 1));
        if same_chars(hs[i].0.as_str(), name) {
            return Some(hs[i].1.clone());
        }
        i = i + 1;
    }
    assert(all.skip(i as int).len() == 0);
    None
}

/// Sets `name` to `value` as `HeaderMap::insert` does.
pub fn set_header(hs: &mut Vec<(String, String)>, name: &str, value: &str)
    ensures
        final(hs).deep_view() == put_header(old(hs).deep_view(), name@, value@),
{
    let ghost all = old(hs).deep_view();
    let mut out: Vec<(String, String)> = Vec::new();
    let mut placed = false;
    let mut i: usize = 0;
    assert(all.skip(0) == all);
    assert(out.deep_view() + put_header(all, name@, value@) == put_header(all, name@, value@));
    assert(all.take(0).len() == 0);
    while i < hs.len()
        invariant
            all == hs.deep_view(),
            i <= hs.len(),
            !placed ==> find_header(all.take(i as int), name@) is None,
            !placed ==> out.deep_view() + put_header(all.skip(i as int), name@, value@)
                == put_header(all, name@, value@),
            placed ==> out.deep_view() + without_header(all.skip(i as int), name@)
                == put_header(all, name@, value@),
        decreases hs.len() - i,
    {
        let ghost rest = all.skip(i as int);
        assert(rest[0] == all[i as int]);
        assert(rest.drop_first() == all.skip(i + 1));
        let ghost before = out.deep_view();
        if same_chars(hs[i].0.as_str(), name) {
            if !placed {
                out.push((name.to_owned(), value.to_owned()));
                placed = true;
                assert(out.deep_view() == before.push((name@, value@)));
                assert(before + put_header(rest, name@, value@) == before + (seq![(name@, value@)]
                    + without_header(rest.drop_first(), name@)));
                assert(before + (seq![(name@, value@)] + without_header(rest.drop_first(), name@))
                    == out.deep_view() + without_header(rest.drop_first(), name@));
            } else {
                assert(without_header(rest, name@) == without_header(rest.drop_first(), name@));
            }
        } else {
            assert(all[i as int] == hs@[i as int].deep_view());
            assert(all[i as int].0 != name@);
            let h = (hs[i].0.clone(), hs[i].1.clone());
            out.push(h);
            assert(out.deep_view() == before.push(all[i as int]));
            if !placed {
                assert(put_header(rest, name@, value@) == seq![all[i as int]] + put_header(
                    rest.drop_first(),
                    name@,
                    value@,
                ));
                assert(before + (seq![all[i as int]] + put_header(rest.drop_first(), name@, value@))
                    == out.deep_view() + put_header(rest.drop_first(), name@, value@));
                assert(all.take(i + 1) == all.take(i as int).push(all[i as int]));
                assert(all.take(i + 1) == all.take(i as int) + seq![all[i as int]]);
                proof {
                    let single = seq![all[i as int]];
                    assert(single.drop_first().len() == 0);
                    assert(find_header(single.drop_first(), name@) is None);
                    assert(single[0] == all[i as int]);
                    assert(find_header(single, name@) is None);
                    lemma_find_concat_none(all.take(i as int), seq![all[i as int]], name@);
                }
            } else {
                assert(without_header(rest, name@) == seq![all[i as int]] + without_header(
                    rest.drop_first(),
                    name@,
                ));
                assert(before + (seq![all[i as int]] + without_header(rest.drop_first(), name@))
                    == out.deep_view() + without_header(rest.drop_first(), name@));
            }
        }
        i = i + 1;
    }
    let ghost rest = all.skip(i as int);
    assert(rest.len() == 0);
    if !placed {
        out.push((name.to_owned(), value.to_owned()));
        assert(put_header(rest, name@, value@) == seq![(name@, value@)]);
    } else {
        assert(without_header(rest, name@) == rest);
    }
    assert(out.deep_view() == put_header(all, name@, value@));
    *hs = out;
}

/// After setting a header, looking it up gives the value set.
pub proof fn lemma_put_then_find(hs: HeaderSeq, n: Seq<char>, v: Seq<char>)
    ensures
        find_header(put_header(hs, n, v), n) == Some(v),
    decreases hs.len(),
{
    if hs.len() == 0 {
    } else if hs[0].0 == n {
    } else {
        lemma_put_then_find(hs.drop_first(), n, v);
        assert((seq![hs[0]] + put_header(hs.drop_first(), n, v)).drop_first() == put_header(
            hs.drop_first(),
            n,
            v,
        ));
    }
}

/// `n` occurs exactly once in the list, with value `v`.
pub open spec fn settled(hs: HeaderSeq, n: Seq<char>, v: Seq<char>) -> bool
    decreases hs.len(),
{
    if hs.len() == 0 {
        false
    } else if hs[0].0 == n {
        hs[0].1 == v && find_header(hs.drop_first(), n) is None
    } else {
        settled(hs.drop_first(), n, v)
    }
}

/// Removing a name that is absent changes nothing.
pub proof fn lemma_without_absent(hs: HeaderSeq, n: Seq<char>)
    requires
        find_header(hs, n) is None,
    ensures
        without_header(hs, n) == hs,
    decreases hs.len(),
{
    if hs.len() > 0 {
        lemma_without_absent(hs.drop_first(), n);
        assert(seq![hs[0]] + hs.drop_first() == hs);
    }
}

/// After removing a name, it is absent.
pub proof fn lemma_without_removes(hs: HeaderSeq, n: Seq<char>)
    ensures
        find_header(without_header(hs, n), n) is None,
    decreases hs.len(),
{
    if hs.len() > 0 {
        lemma_without_removes(hs.drop_first(), n);
        if hs[0].0 != n {
            assert((seq![hs[0]] + without_header(hs.drop_first(), n)).drop_first()
                == without_header(hs.drop_first(), n));
        }
    }
}

/// Removing or setting one name leaves the lookup of another alone.
pub proof fn lemma_find_other(hs: HeaderSeq, n: Seq<char>, v: Seq<char>, m: Seq<char>)
    requires
        m != n,
    ensures
        find_header(without_header(hs, n), m) == find_header(hs, m),
        find_header(put_header(hs, n, v), m) == find_header(hs, m),
    decreases hs.len(),
{
    if hs.len() == 0 {
        assert(seq![(n, v)].drop_first().len() == 0);
        assert(find_header(seq![(n, v)].drop_first(), m) is None);
        assert(seq![(n, v)][0].0 == n);
    } else {
        lemma_find_other(hs.drop_first(), n, v, m);
        assert((seq![(n, v)] + without_header(hs.drop_first(), n))[0].0 == n);
        assert((seq![hs[0]] + put_header(hs.drop_first(), n, v))[0] == hs[0]);
        assert((seq![hs[0]] + without_header(hs.drop_first(), n))[0] == hs[0]);
        assert((seq![hs[0]] + without_header(hs.drop_first(), n)).drop_first()
            == without_header(hs.drop_first(), n));
        assert((seq![hs[0]] + put_header(hs.drop_first(), n, v)).drop_first()
            == put_header(hs.drop_first(), n, v));
        assert((seq![(n, v)] + without_header(hs.drop_first(), n)).drop_first()
            == without_header(hs.drop_first(), n));
    }
}

/// Setting a name settles it.
pub proof fn lemma_put_settles(hs: HeaderSeq, n: Seq<char>, v: Seq<char>)
    ensures
        settled(put_header(hs, n, v), n, v),
    decreases hs.len(),
{
    if hs.len() == 0 {
        assert(seq![(n, v)].drop_first().len() == 0);
    } else if hs[0].0 == n {
        lemma_without_removes(hs.drop_first(), n);
        assert((seq![(n, v)] + without_header(hs.drop_first(), n)).drop_first()
            == without_header(hs.drop_first(), n));
    } else {
        lemma_put_settles(hs.drop_first(), n, v);
        assert((seq![hs[0]] + put_header(hs.drop_first(), n, v)).drop_first()
            == put_header(hs.drop_first(), n, v));
    }
}

/// Setting a settled name to its value changes nothing.
pub proof fn lemma_put_settled(hs: HeaderSeq, n: Seq<char>, v: Seq<char>)
    requires
        settled(hs, n, v),
    ensures
        put_header(hs, n, v) == hs,
    decreases hs.len(),
{
    if hs[0].0 == n {
        lemma_without_absent(hs.drop_first(), n);
        assert(seq![(n, v)] + hs.drop_first() == hs);
    } else {
        lemma_put_settled(hs.drop_first(), n, v);
        assert(seq![hs[0]] + hs.drop_first() == hs);
    }
}

/// Removing or setting another name keeps a name settled.
pub proof fn lemma_settled_other(hs: HeaderSeq, n: Seq<char>, v: Seq<char>, m: Seq<char>, w: Seq<char>)
    requires
        settled(hs, n, v),
        m != n,
    ensures
        settled(without_header(hs, m), n, v),
        settled(put_header(hs, m, w), n, v),
    decreases hs.len(),
{
    let rest = hs.drop_first();
    if hs[0].0 == n {
        lemma_find_other(rest, m, w, n);
        assert((seq![hs[0]] + without_header(rest, m)).drop_first() == without_header(rest, m));
        assert((seq![hs[0]] + put_header(rest, m, w)).drop_first() == put_header(rest, m, w));
    } else {
        lemma_settled_other(rest, n, v, m, w);
        assert((seq![hs[0]] + without_header(rest, m)).drop_first() == without_header(rest, m));
        assert((seq![hs[0]] + put_header(rest, m, w)).drop_first() == put_header(rest, m, w));
        assert((seq![(m, w)] + without_header(rest, m)).drop_first() == without_header(rest, m));
    }
}

proof fn lemma_find_concat_none(a: HeaderSeq, b: HeaderSeq, n: Seq<char>)
    requires
        find_header(a, n) is None,
        find_header(b, n) is None,
    ensures
        find_header(a + b, n) is None,
    decreases a.len(),
{
    if a.len() == 0 {
        assert(a + b == b);
    } else {
        assert((a + b).drop_first() == a.drop_first() + b);
        lemma_find_concat_none(a.drop_first(), b, n);
    }
}

} // verus!
