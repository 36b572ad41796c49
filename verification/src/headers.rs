//! HTTP headers as the proxy sees them: an ordered multimap, each entry a
//! name and a value, both plain byte strings.
//!
//! On the request leg every inbound header is copied to the upstream request
//! except the transport-managed ones — connection-management headers and the
//! body-length header — which the outbound transport derives itself. Header
//! names are compared ASCII-case-insensitively, as HTTP requires.

use vstd::prelude::*;
use vstd::string::StringSliceAdditionalSpecFns;
use vstd::string::StrSliceExecFns;

verus! {

/// One header entry: a name and a value, in wire order.
pub struct Header {
    pub name: Vec<u8>,
    pub value: Vec<u8>,
}

/// The mathematical model of one header: its name bytes and value bytes.
pub open spec fn header_model(h: Header) -> (Seq<u8>, Seq<u8>) {
    (h.name@, h.value@)
}

/// The mathematical model of a header list, in order.
pub open spec fn models(hs: Seq<Header>) -> Seq<(Seq<u8>, Seq<u8>)> {
    hs.map_values(|h: Header| header_model(h))
}

/// ASCII lowercase of one byte; bytes outside `A..Z` are unchanged.
pub open spec fn lower_byte(b: u8) -> u8 {
    if 65 <= b <= 90 {
        (b + 32) as u8
    } else {
        b
    }
}

/// ASCII lowercase of a byte string.
pub open spec fn lower_bytes(s: Seq<u8>) -> Seq<u8> {
    s.map_values(|b: u8| lower_byte(b))
}

/// Whether a header name (compared ASCII-case-insensitively) is one the
/// outbound transport manages itself: the connection-management headers and
/// the body-length header. These are not copied to the upstream request.
pub open spec fn is_transport_managed(name: Seq<u8>) -> bool {
    let l = lower_bytes(name);
    ||| l == "connection".spec_bytes()
    ||| l == "keep-alive".spec_bytes()
    ||| l == "proxy-connection".spec_bytes()
    ||| l == "transfer-encoding".spec_bytes()
    ||| l == "upgrade".spec_bytes()
    ||| l == "content-length".spec_bytes()
}

/// The model of the headers that are forwarded upstream: exactly the entries
/// whose name is not transport-managed, unchanged and in their original
/// order.
pub open spec fn forwarded_models(hs: Seq<Header>) -> Seq<(Seq<u8>, Seq<u8>)>
    decreases hs.len(),
{
    if hs.len() == 0 {
        Seq::empty()
    } else {
        let rest = forwarded_models(hs.drop_last());
        if is_transport_managed(hs.last().name@) {
            rest
        } else {
            rest.push(header_model(hs.last()))
        }
    }
}

/// ASCII lowercase of a byte string, computed.
fn lower_bytes_exec(s: &Vec<u8>) -> (r: Vec<u8>)
    ensures
        r@ == lower_bytes(s@),
{
    let mut r: Vec<u8> = Vec::new();
    let mut i: usize = 0;
    while i < s.len()
        invariant
            i <= s@.len(),
            r@ =~= lower_bytes(s@.subrange(0, i as int)),
        decreases s@.len() - i,
    {
        let b = s[i];
        if 65 <= b && b <= 90 {
            r.push(b + 32);
        } else {
            r.push(b);
        }
        i = i + 1;
        proof {
            assert(s@.subrange(0, i as int) =~= s@.subrange(0, i - 1).push(s@[i - 1]));
            assert(r@ =~= lower_bytes(s@.subrange(0, i as int)));
        }
    }
    proof {
        assert(s@.subrange(0, s@.len() as int) =~= s@);
    }
    r
}

/// Whether two byte strings are equal.
fn bytes_eq(a: &Vec<u8>, b: &Vec<u8>) -> (r: bool)
    ensures
        r == (a@ == b@),
{
    if a.len() != b.len() {
        return false;
    }
    let mut i: usize = 0;
    while i < a.len()
        invariant
            i <= a@.len(),
            a@.len() == b@.len(),
            forall|j: int| 0 <= j < i ==> a@[j] == b@[j],
        decreases a@.len() - i,
    {
        if a[i] != b[i] {
            return false;
        }
        i = i + 1;
    }
    proof {
        assert(a@ =~= b@);
    }
    true
}

/// Whether a header name is transport-managed, computed.
pub fn name_is_transport_managed(name: &Vec<u8>) -> (r: bool)
    ensures
        r == is_transport_managed(name@),
{
    let low = lower_bytes_exec(name);
    let r = bytes_eq(&low, &"connection".as_bytes_vec()) || bytes_eq(
        &low,
        &"keep-alive".as_bytes_vec(),
    ) || bytes_eq(&low, &"proxy-connection".as_bytes_vec()) || bytes_eq(
        &low,
        &"transfer-encoding".as_bytes_vec(),
    ) || bytes_eq(&low, &"upgrade".as_bytes_vec()) || bytes_eq(
        &low,
        &"content-length".as_bytes_vec(),
    );
    r
}

/// Copies a byte string.
fn copy_bytes(s: &Vec<u8>) -> (r: Vec<u8>)
    ensures
        r@ == s@,
{
    let mut r: Vec<u8> = Vec::new();
    let mut i: usize = 0;
    while i < s.len()
        invariant
            i <= s@.len(),
            r@ =~= s@.subrange(0, i as int),
        decreases s@.len() - i,
    {
        r.push(s[i]);
        i = i + 1;
        proof {
            assert(s@.subrange(0, i as int) =~= s@.subrange(0, i - 1).push(s@[i - 1]));
        }
    }
    proof {
        assert(s@.subrange(0, s@.len() as int) =~= s@);
    }
    r
}

/// Selects the inbound headers that are copied to the upstream request:
/// every entry whose name is not transport-managed, with name and value
/// unchanged and the original order kept.
pub fn forward_request_headers(hs: &Vec<Header>) -> (r: Vec<Header>)
    ensures
        models(r@) == forwarded_models(hs@),
{
    let mut r: Vec<Header> = Vec::new();
    let mut i: usize = 0;
    proof {
        assert(hs@.subrange(0, 0) =~= Seq::<Header>::empty());
        assert(models(r@) =~= forwarded_models(hs@.subrange(0, 0)));
    }
    while i < hs.len()
        invariant
            i <= hs@.len(),
            models(r@) == forwarded_models(hs@.subrange(0, i as int)),
        decreases hs@.len() - i,
    {
        let ghost pre = hs@.subrange(0, i as int);
        let ghost nxt = hs@.subrange(0, i as int + 1);
        let ghost m = header_model(hs@[i as int]);
        let ghost prev = models(r@);
        let h = &hs[i];
        if !name_is_transport_managed(&h.name) {
            let copied = Header { name: copy_bytes(&h.name), value: copy_bytes(&h.value) };
            proof {
                assert(header_model(copied) == m);
            }
            r.push(copied);
            proof {
                assert(models(r@) =~= prev.push(m));
            }
        }
        proof {
            assert(nxt.drop_last() =~= pre);
            assert(nxt.last() == hs@[i as int]);
            if is_transport_managed(hs@[i as int].name@) {
                assert(forwarded_models(nxt) == forwarded_models(pre));
            } else {
                assert(forwarded_models(nxt) == forwarded_models(pre).push(m));
            }
            assert(models(r@) == forwarded_models(nxt));
        }
        i = i + 1;
    }
    proof {
        assert(hs@.subrange(0, hs@.len() as int) =~= hs@);
    }
    r
}

/// Every inbound header whose name is not transport-managed is present on
/// the upstream request, with its name and value unchanged.
pub proof fn lemma_unmanaged_header_is_forwarded(hs: Seq<Header>, i: int)
    requires
        0 <= i < hs.len(),
        !is_transport_managed(hs[i].name@),
    ensures
        forwarded_models(hs).contains(header_model(hs[i])),
    decreases hs.len(),
{
    let f = forwarded_models(hs);
    if i == hs.len() - 1 {
        assert(hs.last() == hs[i]);
        assert(f == forwarded_models(hs.drop_last()).push(header_model(hs[i])));
        assert(f[f.len() - 1] == header_model(hs[i]));
        assert(f.contains(header_model(hs[i])));
    } else {
        let rest = hs.drop_last();
        assert(rest[i] == hs[i]);
        lemma_unmanaged_header_is_forwarded(rest, i);
        let fr = forwarded_models(rest);
        let j = choose|j: int| 0 <= j < fr.len() && fr[j] == header_model(hs[i]);
        assert(f[j] == header_model(hs[i]));
        assert(f.contains(header_model(hs[i])));
    }
}

/// Every header on the upstream request comes from some header of the
/// inbound request, unchanged, and is not transport-managed: none is added,
/// renamed, or altered.
pub proof fn lemma_forwarded_header_is_inbound(hs: Seq<Header>, j: int)
    requires
        0 <= j < forwarded_models(hs).len(),
    ensures
        !is_transport_managed(forwarded_models(hs)[j].0),
        exists|i: int| 0 <= i < hs.len() && forwarded_models(hs)[j] == header_model(hs[i]),
    decreases hs.len(),
{
    let f = forwarded_models(hs);
    if hs.len() == 0 {
        assert(f.len() == 0);
    } else {
        let rest = hs.drop_last();
        let fr = forwarded_models(rest);
        if !is_transport_managed(hs.last().name@) && j == fr.len() {
            assert(f[j] == header_model(hs.last()));
            assert(hs[hs.len() - 1] == hs.last());
            assert(f[j] == header_model(hs[hs.len() - 1]));
        } else {
            assert(f[j] == fr[j]);
            lemma_forwarded_header_is_inbound(rest, j);
            let i = choose|i: int|
                0 <= i < rest.len() && forwarded_models(rest)[j] == header_model(rest[i]);
            assert(rest[i] == hs[i]);
            assert(f[j] == header_model(hs[i]));
        }
    }
}

} // verus!
