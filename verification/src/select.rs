//! Device selection over enumerated serial ports.
//!
//! Selection is a two-pass priority search over the candidates in
//! enumeration order, first match wins, no scoring. Pass one looks for a
//! USB-kind candidate whose product and manufacturer strings — concatenated
//! with a single space and uppercased — contain one of the detection
//! keywords. Pass two, only if pass one finds nothing, takes the first
//! USB-kind candidate of any description. If both passes come up empty,
//! selection fails with the no-device-found error.

use vstd::prelude::*;
use crate::state::RelayError;

verus! {

/// How a discovered serial port is attached. For a USB-attached port the
/// descriptor carries optional product and manufacturer strings, held here
/// as their raw bytes.
#[derive(Debug)]
pub enum PortKind {
    Usb { product: Option<Vec<u8>>, manufacturer: Option<Vec<u8>> },
    Other,
}

/// A discovered serial port: its opaque platform name and its kind.
/// Candidates are produced by enumeration and consumed immediately by
/// selection.
#[derive(Debug)]
pub struct PortCandidate {
    pub name: String,
    pub kind: PortKind,
}

/// Whether a candidate is USB-attached.
pub open spec fn is_usb(c: PortCandidate) -> bool {
    c.kind is Usb
}

/// The bytes of an optional descriptor string, empty when absent.
pub open spec fn opt_view(o: Option<Vec<u8>>) -> Seq<u8> {
    match o {
        Some(v) => v@,
        None => Seq::empty(),
    }
}

/// The description a USB candidate is matched on: product bytes, a single
/// space, then manufacturer bytes, with a missing string taken as empty.
pub open spec fn desc_spec(c: PortCandidate) -> Seq<u8> {
    match c.kind {
        PortKind::Usb { product, manufacturer } => opt_view(product) + seq![32u8] + opt_view(
            manufacturer,
        ),
        PortKind::Other => Seq::empty(),
    }
}

/// A byte mapped to its ASCII uppercase form; bytes outside the lowercase
/// letters are unchanged.
pub open spec fn upper_byte(b: u8) -> u8 {
    if 97 <= b <= 122 {
        (b - 32) as u8
    } else {
        b
    }
}

/// A byte sequence mapped to its ASCII uppercase form.
pub open spec fn upper_seq(s: Seq<u8>) -> Seq<u8> {
    s.map_values(|b: u8| upper_byte(b))
}

/// Whether `n` occurs as a contiguous subsequence of `h`.
pub open spec fn has_sub(h: Seq<u8>, n: Seq<u8>) -> bool {
    exists|t: int| 0 <= t <= h.len() - n.len() && #[trigger] h.subrange(t, t + n.len()) == n
}

/// The detection keyword "CH340".
pub open spec fn kw_ch340() -> Seq<u8> {
    seq![67u8, 72u8, 51u8, 52u8, 48u8]
}

/// The detection keyword "CH341".
pub open spec fn kw_ch341() -> Seq<u8> {
    seq![67u8, 72u8, 51u8, 52u8, 49u8]
}

/// The detection keyword "USB-SERIAL".
pub open spec fn kw_usb_serial() -> Seq<u8> {
    seq![85u8, 83u8, 66u8, 45u8, 83u8, 69u8, 82u8, 73u8, 65u8, 76u8]
}

/// Whether a candidate is USB-attached and its uppercased description
/// contains one of the detection keywords.
pub open spec fn keyword_match(c: PortCandidate) -> bool {
    &&& is_usb(c)
    &&& {
        ||| has_sub(upper_seq(desc_spec(c)), kw_ch340())
        ||| has_sub(upper_seq(desc_spec(c)), kw_ch341())
        ||| has_sub(upper_seq(desc_spec(c)), kw_usb_serial())
    }
}

/// The position of the first keyword-matching candidate, if any.
pub open spec fn first_keyword(s: Seq<PortCandidate>) -> Option<int>
    decreases s.len(),
{
    if s.len() == 0 {
        None
    } else if keyword_match(s[0]) {
        Some(0)
    } else {
        match first_keyword(s.drop_first()) {
            Some(i) => Some(i + 1),
            None => None,
        }
    }
}

/// The position of the first USB-kind candidate, if any.
pub open spec fn first_usb(s: Seq<PortCandidate>) -> Option<int>
    decreases s.len(),
{
    if s.len() == 0 {
        None
    } else if is_usb(s[0]) {
        Some(0)
    } else {
        match first_usb(s.drop_first()) {
            Some(i) => Some(i + 1),
            None => None,
        }
    }
}

/// What selection returns: the position of the first keyword match, else
/// the position of the first USB-kind candidate, else the no-device error.
pub open spec fn select_spec(s: Seq<PortCandidate>) -> Result<int, RelayError> {
    match first_keyword(s) {
        Some(i) => Ok(i),
        None => match first_usb(s) {
            Some(i) => Ok(i),
            None => Err(RelayError::NoDeviceFound),
        },
    }
}

/// The first keyword match is a keyword match, lies in range, and nothing
/// before it matches; and where there is none, nothing matches at all.
pub proof fn lemma_first_keyword_props(s: Seq<PortCandidate>)
    ensures
        match first_keyword(s) {
            Some(i) => 0 <= i < s.len() && keyword_match(s[i]) && forall|j: int|
                0 <= j < i ==> !keyword_match(#[trigger] s[j]),
            None => forall|j: int| 0 <= j < s.len() ==> !keyword_match(#[trigger] s[j]),
        },
    decreases s.len(),
{
    if s.len() == 0 {
    } else if keyword_match(s[0]) {
    } else {
        let d = s.drop_first();
        lemma_first_keyword_props(d);
        match first_keyword(d) {
            Some(i) => {
                assert(d[i] == s[i + 1]);
                assert forall|j: int| 0 <= j < i + 1 implies !keyword_match(#[trigger] s[j]) by {
                    if j > 0 {
                        assert(!keyword_match(d[j - 1]));
                        assert(d[j - 1] == s[j]);
                    }
                }
            },
            None => {
                assert forall|j: int| 0 <= j < s.len() implies !keyword_match(
                    #[trigger] s[j],
                ) by {
                    if j > 0 {
                        assert(!keyword_match(d[j - 1]));
                        assert(d[j - 1] == s[j]);
                    }
                }
            },
        }
    }
}

/// The first USB-kind candidate is USB-kind, lies in range, and nothing
/// before it is USB-kind; and where there is none, no candidate is.
pub proof fn lemma_first_usb_props(s: Seq<PortCandidate>)
    ensures
        match first_usb(s) {
            Some(i) => 0 <= i < s.len() && is_usb(s[i]) && forall|j: int|
                0 <= j < i ==> !is_usb(#[trigger] s[j]),
            None => forall|j: int| 0 <= j < s.len() ==> !is_usb(#[trigger] s[j]),
        },
    decreases s.len(),
{
    if s.len() == 0 {
    } else if is_usb(s[0]) {
    } else {
        let d = s.drop_first();
        lemma_first_usb_props(d);
        match first_usb(d) {
            Some(i) => {
                assert(d[i] == s[i + 1]);
                assert forall|j: int| 0 <= j < i + 1 implies !is_usb(#[trigger] s[j]) by {
                    if j > 0 {
                        assert(!is_usb(d[j - 1]));
                        assert(d[j - 1] == s[j]);
                    }
                }
            },
            None => {
                assert forall|j: int| 0 <= j < s.len() implies !is_usb(#[trigger] s[j]) by {
                    if j > 0 {
                        assert(!is_usb(d[j - 1]));
                        assert(d[j - 1] == s[j]);
                    }
                }
            },
        }
    }
}

/// Keyword-priority law: when exactly one candidate matches a detection
/// keyword, selection picks that candidate, wherever it stands among the
/// other USB-kind and non-USB candidates.
pub proof fn lemma_unique_keyword_selected(s: Seq<PortCandidate>, i: int)
    requires
        0 <= i < s.len(),
        keyword_match(s[i]),
        forall|j: int| 0 <= j < s.len() && j != i ==> !keyword_match(#[trigger] s[j]),
    ensures
        select_spec(s) matches Ok(k) && k == i,
{
    lemma_first_keyword_props(s);
}

/// Fallback law: with no keyword match anywhere but at least one USB-kind
/// candidate, selection picks the first USB-kind candidate in sequence
/// order.
pub proof fn lemma_fallback_first_usb(s: Seq<PortCandidate>, i: int)
    requires
        forall|j: int| 0 <= j < s.len() ==> !keyword_match(#[trigger] s[j]),
        0 <= i < s.len(),
        is_usb(s[i]),
        forall|j: int| 0 <= j < i ==> !is_usb(#[trigger] s[j]),
    ensures
        select_spec(s) matches Ok(k) && k == i,
{
    lemma_first_keyword_props(s);
    lemma_first_usb_props(s);
    match first_usb(s) {
        Some(k) => {
            if k < i {
                assert(!is_usb(s[k]));
            }
            if k > i {
                assert(!is_usb(s[i]));
            }
        },
        None => {
            assert(!is_usb(s[i]));
        },
    }
}

/// Failure law: with no USB-kind candidate at all, selection fails with
/// the no-device-found error.
pub proof fn lemma_no_usb_no_device(s: Seq<PortCandidate>)
    requires
        forall|j: int| 0 <= j < s.len() ==> !is_usb(#[trigger] s[j]),
    ensures
        select_spec(s) matches Err(e) && e is NoDeviceFound,
{
    lemma_first_keyword_props(s);
    lemma_first_usb_props(s);
    match first_keyword(s) {
        Some(k) => {
            assert(!is_usb(s[k]));
        },
        None => {
        },
    }
}

/// Whether the `n.len()` bytes of `h` starting at `t` equal `n`.
fn matches_at(h: &Vec<u8>, n: &Vec<u8>, t: usize) -> (r: bool)
    requires
        t + n@.len() <= h@.len(),
    ensures
        r == (h@.subrange(t as int, t + n@.len()) == n@),
{
    let hl = h.len();
    let mut j: usize = 0;
    while j < n.len()
        invariant
            j <= n@.len(),
            hl == h@.len(),
            t + n@.len() <= hl,
            forall|k: int| 0 <= k < j ==> h@[t + k] == n@[k],
        decreases n@.len() - j,
    {
        if h[t + j] != n[j] {
            proof {
                assert(h@.subrange(t as int, t + n@.len())[j as int] == h@[t + j]);
            }
            return false;
        }
        j = j + 1;
    }
    proof {
        assert(h@.subrange(t as int, t + n@.len()) =~= n@);
    }
    true
}

/// Whether `n` occurs as a contiguous subsequence of `h`.
fn contains_sub(h: &Vec<u8>, n: &Vec<u8>) -> (r: bool)
    ensures
        r == has_sub(h@, n@),
{
    if n.len() == 0 {
        proof {
            assert(h@.subrange(0int, 0int + n@.len() as int) =~= n@);
            assert(has_sub(h@, n@));
        }
        return true;
    }
    if n.len() > h.len() {
        return false;
    }
    let hl = h.len();
    let bound = hl - n.len();
    let mut t: usize = 0;
    while t <= bound
        invariant
            1 <= n@.len() <= h@.len(),
            hl == h@.len(),
            bound == h@.len() - n@.len(),
            t <= bound + 1,
            forall|q: int| 0 <= q < t ==> #[trigger] h@.subrange(q, q + n@.len()) != n@,
        decreases bound + 1 - t,
    {
        if matches_at(h, n, t) {
            proof {
                assert(0 <= t <= h@.len() - n@.len() && h@.subrange(t as int, t + n@.len())
                    == n@);
            }
            return true;
        }
        t = t + 1;
    }
    false
}

/// Build the matched-on description of a candidate: product bytes, one
/// space, then manufacturer bytes.
fn desc_bytes(c: &PortCandidate) -> (v: Vec<u8>)
    ensures
        v@ == desc_spec(*c),
{
    let mut v: Vec<u8> = Vec::new();
    match &c.kind {
        PortKind::Other => {
            proof {
                assert(v@ =~= desc_spec(*c));
            }
            v
        },
        PortKind::Usb { product, manufacturer } => {
            let ghost pb = opt_view(*product);
            let ghost mb = opt_view(*manufacturer);
            if let Some(p) = product {
                let mut i: usize = 0;
                while i < p.len()
                    invariant
                        i <= p@.len(),
                        pb == p@,
                        v@ =~= pb.take(i as int),
                    decreases p@.len() - i,
                {
                    v.push(p[i]);
                    proof {
                        assert(v@ =~= pb.take(i + 1));
                    }
                    i = i + 1;
                }
            }
            proof {
                assert(v@ =~= pb);
            }
            v.push(32u8);
            if let Some(m) = manufacturer {
                let mut i: usize = 0;
                while i < m.len()
                    invariant
                        i <= m@.len(),
                        mb == m@,
                        v@ =~= pb + seq![32u8] + mb.take(i as int),
                    decreases m@.len() - i,
                {
                    v.push(m[i]);
                    proof {
                        assert(v@ =~= pb + seq![32u8] + mb.take(i + 1));
                    }
                    i = i + 1;
                }
            }
            proof {
                assert(v@ =~= desc_spec(*c));
            }
            v
        },
    }
}

/// Map a byte to its ASCII uppercase form.
fn upper_ascii(b: u8) -> (r: u8)
    ensures
        r == upper_byte(b),
{
    if 97 <= b && b <= 122 {
        b - 32
    } else {
        b
    }
}

/// Map a byte vector to its ASCII uppercase form.
fn to_upper_vec(v: &Vec<u8>) -> (r: Vec<u8>)
    ensures
        r@ == upper_seq(v@),
{
    let mut r: Vec<u8> = Vec::new();
    let mut i: usize = 0;
    while i < v.len()
        invariant
            i <= v@.len(),
            r@.len() == i,
            forall|j: int| 0 <= j < i ==> r@[j] == upper_byte(#[trigger] v@[j]),
        decreases v@.len() - i,
    {
        let b = upper_ascii(v[i]);
        r.push(b);
        i = i + 1;
    }
    proof {
        assert(r@ =~= upper_seq(v@));
    }
    r
}

/// The detection keyword "CH340" as bytes.
fn kw_ch340_vec() -> (v: Vec<u8>)
    ensures
        v@ == kw_ch340(),
{
    let v = vec![67u8, 72u8, 51u8, 52u8, 48u8];
    proof {
        assert(v@ =~= kw_ch340());
    }
    v
}

/// The detection keyword "CH341" as bytes.
fn kw_ch341_vec() -> (v: Vec<u8>)
    ensures
        v@ == kw_ch341(),
{
    let v = vec![67u8, 72u8, 51u8, 52u8, 49u8];
    proof {
        assert(v@ =~= kw_ch341());
    }
    v
}

/// The detection keyword "USB-SERIAL" as bytes.
fn kw_usb_serial_vec() -> (v: Vec<u8>)
    ensures
        v@ == kw_usb_serial(),
{
    let v = vec![85u8, 83u8, 66u8, 45u8, 83u8, 69u8, 82u8, 73u8, 65u8, 76u8];
    proof {
        assert(v@ =~= kw_usb_serial());
    }
    v
}

/// Whether a candidate is USB-attached.
pub fn is_usb_port(c: &PortCandidate) -> (r: bool)
    ensures
        r == is_usb(*c),
{
    match &c.kind {
        PortKind::Usb { .. } => true,
        PortKind::Other => false,
    }
}

/// Whether a candidate is USB-attached with a keyword-matching
/// description.
pub fn candidate_matches(c: &PortCandidate) -> (r: bool)
    ensures
        r == keyword_match(*c),
{
    match &c.kind {
        PortKind::Other => false,
        PortKind::Usb { .. } => {
            let d = desc_bytes(c);
            let u = to_upper_vec(&d);
            let k1 = kw_ch340_vec();
            if contains_sub(&u, &k1) {
                return true;
            }
            let k2 = kw_ch341_vec();
            if contains_sub(&u, &k2) {
                return true;
            }
            let k3 = kw_usb_serial_vec();
            contains_sub(&u, &k3)
        },
    }
}

/// Pick the relay's port among the candidates: the position of the first
/// keyword match, else the position of the first USB-kind candidate, else
/// the no-device-found error.
pub fn select(cands: &Vec<PortCandidate>) -> (r: Result<usize, RelayError>)
    ensures
        match select_spec(cands@) {
            Ok(i) => r matches Ok(u) && u as int == i,
            Err(e) => r matches Err(f) && f == e,
        },
        r matches Ok(u) ==> u < cands@.len(),
        r matches Err(f) ==> f is NoDeviceFound,
{
    let mut i: usize = 0;
    while i < cands.len()
        invariant
            i <= cands@.len(),
            forall|j: int| 0 <= j < i ==> !keyword_match(#[trigger] cands@[j]),
        decreases cands@.len() - i,
    {
        if candidate_matches(&cands[i]) {
            proof {
                lemma_first_keyword_props(cands@);
                match first_keyword(cands@) {
                    Some(k) => {
                        if k < i {
                            assert(!keyword_match(cands@[k]));
                        }
                        if k > i {
                            assert(!keyword_match(cands@[i as int]));
                        }
                    },
                    None => {
                        assert(!keyword_match(cands@[i as int]));
                    },
                }
                assert(first_keyword(cands@) == Some(i as int));
            }
            return Ok(i);
        }
        i = i + 1;
    }
    proof {
        lemma_first_keyword_props(cands@);
    }
    let mut i: usize = 0;
    while i < cands.len()
        invariant
            i <= cands@.len(),
            forall|j: int| 0 <= j < cands@.len() ==> !keyword_match(#[trigger] cands@[j]),
            forall|j: int| 0 <= j < i ==> !is_usb(#[trigger] cands@[j]),
        decreases cands@.len() - i,
    {
        if is_usb_port(&cands[i]) {
            proof {
                lemma_first_keyword_props(cands@);
                lemma_first_usb_props(cands@);
                match first_usb(cands@) {
                    Some(k) => {
                        if k < i {
                            assert(!is_usb(cands@[k]));
                        }
                        if k > i {
                            assert(!is_usb(cands@[i as int]));
                        }
                    },
                    None => {
                        assert(!is_usb(cands@[i as int]));
                    },
                }
                assert(first_usb(cands@) == Some(i as int));
            }
            return Ok(i);
        }
        i = i + 1;
    }
    proof {
        lemma_first_usb_props(cands@);
    }
    Err(RelayError::NoDeviceFound)
}

} // verus!
