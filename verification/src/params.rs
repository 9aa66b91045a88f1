//! Parsing of the callback redirect's request line.
//!
//! Only the first line of the HTTP request is examined: the query component
//! between the first `?` and the following space is split on `&`, and each
//! segment on its first `=` into a key and a raw value. Segments without an
//! `=` are dropped; no percent-decoding is performed.

use vstd::prelude::*;
use vstd::utf8::decode_utf8;
use vstd::utf8::valid_utf8;

verus! {

pub const LF: u8 = 10;

pub const CR: u8 = 13;

pub const QMARK: u8 = 63;

pub const SP: u8 = 32;

pub const AMP: u8 = 38;

pub const EQ: u8 = 61;

/// `i` is the first position of `b` in `s`.
pub open spec fn first_at(s: Seq<u8>, b: u8, i: int) -> bool {
    &&& 0 <= i < s.len()
    &&& s[i] == b
    &&& forall|j: int| 0 <= j < i ==> s[j] != b
}

/// The first position of `b` in `s`, if `b` occurs at all.
pub open spec fn find_first(s: Seq<u8>, b: u8) -> Option<int> {
    if exists|i: int| first_at(s, b, i) {
        Some(choose|i: int| first_at(s, b, i))
    } else {
        None
    }
}

proof fn lemma_find_first_at(s: Seq<u8>, b: u8, i: int)
    requires
        first_at(s, b, i),
    ensures
        find_first(s, b) == Some(i),
{
    let j = choose|j: int| first_at(s, b, j);
    if j < i {
        assert(s[j] != b);
    } else if i < j {
        assert(s[i] != b);
    }
}

proof fn lemma_find_first_none(s: Seq<u8>, b: u8)
    requires
        forall|j: int| 0 <= j < s.len() ==> s[j] != b,
    ensures
        find_first(s, b) is None,
{
    if exists|i: int| first_at(s, b, i) {
        let i = choose|i: int| first_at(s, b, i);
        assert(s[i] != b);
    }
}

/// The request line: everything before the first line feed, with a trailing
/// carriage return stripped.
pub open spec fn line_of(req: Seq<u8>) -> Seq<u8> {
    let raw = match find_first(req, LF) {
        Some(i) => req.take(i),
        None => req,
    };
    if raw.len() > 0 && raw[raw.len() - 1] == CR {
        raw.drop_last()
    } else {
        raw
    }
}

/// The query component of the request line: the bytes between the first `?`
/// and the next space after it. Absent if the line has no `?`, or no space
/// after the `?` (the request then carries no parameters).
pub open spec fn query_of(line: Seq<u8>) -> Option<Seq<u8>> {
    match find_first(line, QMARK) {
        None => None,
        Some(qi) => {
            let rest = line.skip(qi + 1);
            match find_first(rest, SP) {
                None => None,
                Some(si) => Some(rest.take(si)),
            }
        },
    }
}

/// One `&`-separated segment as a key/value pair, split at its first `=`; a
/// segment without `=` is malformed and contributes nothing.
pub open spec fn pair_item(p: Seq<u8>) -> Seq<(Seq<u8>, Seq<u8>)> {
    match find_first(p, EQ) {
        None => Seq::empty(),
        Some(e) => seq![(p.take(e), p.skip(e + 1))],
    }
}

/// All key/value pairs of a query, in order of appearance.
pub open spec fn pairs_of(q: Seq<u8>) -> Seq<(Seq<u8>, Seq<u8>)>
    decreases q.len(),
{
    match find_first(q, AMP) {
        None => pair_item(q),
        Some(i) => pair_item(q.take(i)) + pairs_of(q.skip(i + 1)),
    }
}

/// The parameter pairs carried by a whole request: those of its request
/// line's query component, or none when that component is absent.
pub open spec fn params_of(req: Seq<u8>) -> Seq<(Seq<u8>, Seq<u8>)> {
    match query_of(line_of(req)) {
        None => Seq::empty(),
        Some(q) => pairs_of(q),
    }
}

/// The byte views of a vector of raw key/value pairs.
pub open spec fn pair_views(v: Seq<(Vec<u8>, Vec<u8>)>) -> Seq<(Seq<u8>, Seq<u8>)> {
    Seq::new(v.len(), |i: int| (v[i].0@, v[i].1@))
}

/// What `from_utf8_lossy` makes of a byte sequence; a function of the bytes
/// alone.
pub uninterp spec fn lossy_decode(b: Seq<u8>) -> Seq<char>;

/// Relies on `String::from_utf8_lossy`: the result depends on the bytes
/// alone, and bytes that are valid UTF-8 decode to exactly their UTF-8
/// reading (invalid sequences become replacement characters).
#[verifier::external_body]
fn decode_utf8_lossy(b: &[u8]) -> (r: String)
    ensures
        r@ == lossy_decode(b@),
        valid_utf8(b@) ==> r@ == decode_utf8(b@),
{
    String::from_utf8_lossy(b).into_owned()
}

/// Finds the first occurrence of `b` in `s` at or after `from`.
fn find_byte_from(s: &[u8], b: u8, from: usize) -> (r: Option<usize>)
    requires
        from <= s@.len(),
    ensures
        (r matches Some(i) ==> from <= i < s@.len() && s@[i as int] == b && (forall|j: int|
            from <= j < i ==> s@[j] != b)),
        (r is None ==> forall|j: int| from <= j < s@.len() ==> s@[j] != b),
{
    let mut i = from;
    while i < s.len()
        invariant
            from <= i <= s@.len(),
            forall|j: int| from <= j < i ==> s@[j] != b,
        decreases s@.len() - i,
    {
        if s[i] == b {
            return Some(i);
        }
        i += 1;
    }
    None
}

/// Extracts the query component of the request line, if the request carries
/// one.
pub fn extract_query<'a>(request: &'a [u8]) -> (r: Option<&'a [u8]>)
    ensures
        (r matches Some(q) ==> query_of(line_of(request@)) == Some(q@)),
        (r is None ==> query_of(line_of(request@)) is None),
{
    let line_end = match find_byte_from(request, LF, 0) {
        Some(i) => {
            proof {
                lemma_find_first_at(request@, LF, i as int);
            }
            i
        },
        None => {
            proof {
                lemma_find_first_none(request@, LF);
                assert(request@.take(request@.len() as int) =~= request@);
            }
            request.len()
        },
    };
    let ghost raw = request@.take(line_end as int);
    let line_len = if line_end > 0 && request[line_end - 1] == CR {
        line_end - 1
    } else {
        line_end
    };
    let line = &request[0..line_len];
    proof {
        if line_end > 0 && request@[line_end - 1] == CR {
            assert(raw.drop_last() =~= request@.take(line_end - 1));
        }
        assert(line@ =~= line_of(request@));
    }
    match find_byte_from(line, QMARK, 0) {
        None => {
            proof {
                lemma_find_first_none(line@, QMARK);
            }
            None
        },
        Some(qi) => {
            proof {
                lemma_find_first_at(line@, QMARK, qi as int);
            }
            let rest = &line[qi + 1..line.len()];
            proof {
                assert(rest@ =~= line@.skip(qi + 1));
            }
            match find_byte_from(rest, SP, 0) {
                None => {
                    proof {
                        lemma_find_first_none(rest@, SP);
                    }
                    None
                },
                Some(si) => {
                    proof {
                        lemma_find_first_at(rest@, SP, si as int);
                    }
                    let q = &rest[0..si];
                    proof {
                        assert(q@ =~= rest@.take(si as int));
                    }
                    Some(q)
                },
            }
        },
    }
}

proof fn lemma_pair_views_push(v: Seq<(Vec<u8>, Vec<u8>)>, p: (Vec<u8>, Vec<u8>))
    ensures
        pair_views(v.push(p)) == pair_views(v) + seq![(p.0@, p.1@)],
{
    assert(pair_views(v.push(p)) =~= pair_views(v) + seq![(p.0@, p.1@)]);
}

/// Splits a query on `&` and each segment at its first `=`, keeping the raw
/// bytes of each well-formed pair in order and dropping malformed segments.
pub fn parse_query_pairs(q: &[u8]) -> (r: Vec<(Vec<u8>, Vec<u8>)>)
    ensures
        pair_views(r@) == pairs_of(q@),
{
    let mut r: Vec<(Vec<u8>, Vec<u8>)> = Vec::new();
    let mut start: usize = 0;
    let q_len = q.len();
    proof {
        assert(pair_views(r@) =~= Seq::<(Seq<u8>, Seq<u8>)>::empty());
        assert(q@.skip(0) =~= q@);
    }
    loop
        invariant_except_break
            q_len == q@.len(),
            start <= q@.len(),
            pairs_of(q@) == pair_views(r@) + pairs_of(q@.skip(start as int)),
        ensures
            pair_views(r@) == pairs_of(q@),
        decreases q@.len() - start,
    {
        let ghost r0 = r@;
        let ghost sfx = q@.skip(start as int);
        let amp = find_byte_from(q, AMP, start);
        let seg_end = match amp {
            Some(i) => i,
            None => q_len,
        };
        proof {
            assert(start <= seg_end <= q@.len());
        }
        let ghost seg = q@.subrange(start as int, seg_end as int);
        let eqpos = find_byte_from(q, EQ, start);
        let mut found = false;
        if let Some(e) = eqpos {
            if e < seg_end {
                found = true;
                let key = vstd::slice::slice_to_vec(&q[start..e]);
                let val = vstd::slice::slice_to_vec(&q[e + 1..seg_end]);
                proof {
                    assert(first_at(seg, EQ, e - start));
                    lemma_find_first_at(seg, EQ, e - start);
                    assert(seg.take(e - start) =~= q@.subrange(start as int, e as int));
                    assert(seg.skip(e - start + 1) =~= q@.subrange(e + 1, seg_end as int));
                    assert(pair_item(seg) =~= seq![(key@, val@)]);
                    lemma_pair_views_push(r0, (key, val));
                }
                r.push((key, val));
            }
        }
        if !found {
            proof {
                assert forall|j: int| 0 <= j < seg.len() implies seg[j] != EQ by {
                    assert(seg[j] == q@[start + j]);
                }
                lemma_find_first_none(seg, EQ);
                assert(pair_item(seg) =~= Seq::<(Seq<u8>, Seq<u8>)>::empty());
                assert(pair_views(r@) + pair_item(seg) =~= pair_views(r@));
            }
        }
        proof {
            assert(pair_views(r@) =~= pair_views(r0) + pair_item(seg));
        }
        match amp {
            Some(i) => {
                proof {
                    assert(i < q@.len());
                    assert(first_at(sfx, AMP, i - start));
                    lemma_find_first_at(sfx, AMP, i - start);
                    assert(sfx.take(i - start) =~= seg);
                    assert(sfx.skip(i - start + 1) =~= q@.skip(i + 1));
                    assert(pairs_of(sfx) == pair_item(seg) + pairs_of(q@.skip(i + 1)));
                }
                start = i + 1;
            },
            None => {
                proof {
                    assert forall|j: int| 0 <= j < sfx.len() implies sfx[j] != AMP by {
                        assert(sfx[j] == q@[start + j]);
                    }
                    lemma_find_first_none(sfx, AMP);
                    assert(sfx =~= seg);
                    assert(pairs_of(sfx) == pair_item(seg));
                }
                break ;
            },
        }
    }
    r
}

/// Parses the whole request: extracts the query component of the request
/// line and decodes each raw key and value with the lossy UTF-8 decoding.
pub fn parse_callback_params(request: &[u8]) -> (r: Vec<(String, String)>)
    ensures
        r@.len() == params_of(request@).len(),
        forall|i: int|
            0 <= i < r@.len() ==> r@[i].0@ == lossy_decode(params_of(request@)[i].0) && r@[i].1@
                == lossy_decode(params_of(request@)[i].1),
{
    let mut out: Vec<(String, String)> = Vec::new();
    match extract_query(request) {
        None => out,
        Some(q) => {
            let pairs = parse_query_pairs(q);
            let ghost ps = params_of(request@);
            proof {
                assert(pair_views(pairs@) == ps);
            }
            let mut i: usize = 0;
            while i < pairs.len()
                invariant
                    i <= pairs@.len(),
                    pair_views(pairs@) == ps,
                    out@.len() == i,
                    forall|j: int|
                        0 <= j < i ==> out@[j].0@ == lossy_decode(ps[j].0) && out@[j].1@
                            == lossy_decode(ps[j].1),
                decreases pairs@.len() - i,
            {
                let p = &pairs[i];
                let key = decode_utf8_lossy(p.0.as_slice());
                let val = decode_utf8_lossy(p.1.as_slice());
                proof {
                    assert(pair_views(pairs@)[i as int] == (pairs@[i as int].0@, pairs@[
                        i as int
                    ].1@));
                }
                out.push((key, val));
                i += 1;
            }
            out
        },
    }
}

} // verus!
