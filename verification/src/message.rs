//! A plain-value model of the HTTP message heads the stack inspects:
//! version, authority, headers, and the per-request extension slots the
//! stack itself defines.

use crate::settings::Settings;
use vstd::prelude::*;

verus! {

/// HTTP protocol version of a message.
#[derive(Debug, Clone, Copy, PartialEq, Eq, Hash, Structural)]
pub enum Version {
    Http11,
    Http2,
}

/// One header: a (lower-case) name and its value.
#[derive(Debug, Clone)]
pub struct Header {
    pub name: Vec<u8>,
    pub value: Vec<u8>,
}

/// Token handed to higher layers when an HTTP/1 connection upgrade must
/// be taken over.
#[derive(Debug, Clone, Copy, PartialEq, Eq, Structural)]
pub struct UpgradeToken {
    pub id: u64,
}

/// The parts of a request the routing stack reads or rewrites.
#[derive(Debug)]
pub struct RequestHead {
    pub version: Version,
    /// The request method is CONNECT.
    pub is_connect: bool,
    /// The authority of the request target, when the target carries one.
    pub authority: Option<Vec<u8>>,
    /// The request target was in absolute form.
    pub was_absolute_form: bool,
    /// The connection is to be kept alive after this exchange.
    pub keep_alive: bool,
    pub headers: Vec<Header>,
    /// Extension slot: an HTTP/1 upgrade pending on this request.
    pub upgrade: Option<UpgradeToken>,
}

/// The parts of a response the stack reads or rewrites.
#[derive(Debug)]
pub struct ResponseHead {
    pub version: Version,
    pub status: u16,
    pub headers: Vec<Header>,
    /// Extension slot: the response answers a CONNECT request.
    pub connect_marker: bool,
}

/// `i` is the position of the first header named `name`.
pub open spec fn header_match_at(hs: Seq<Header>, name: Seq<u8>, i: int) -> bool {
    0 <= i < hs.len() && hs[i].name@ == name && (forall|j: int|
        0 <= j < i ==> #[trigger] hs[j].name@ != name)
}

/// The value of the first header named `name`, if one is present.
pub open spec fn spec_header_value(hs: Seq<Header>, name: Seq<u8>) -> Option<Seq<u8>> {
    if exists|i: int| header_match_at(hs, name, i) {
        Some(hs[choose|i: int| header_match_at(hs, name, i)].value@)
    } else {
        None
    }
}

/// The value of the first header named `name`, if one is present.
pub fn find_header<'a>(hs: &'a Vec<Header>, name: &Vec<u8>) -> (r: Option<&'a Vec<u8>>)
    ensures
        match r {
            Some(v) => spec_header_value(hs@, name@) == Some(v@),
            None => spec_header_value(hs@, name@) is None,
        },
{
    let mut i: usize = 0;
    while i < hs.len()
        invariant
            i <= hs@.len(),
            forall|j: int| 0 <= j < i ==> #[trigger] hs@[j].name@ != name@,
        decreases hs@.len() - i,
    {
        if crate::addr::bytes_eq(name, &hs[i].name) {
            proof {
                assert(header_match_at(hs@, name@, i as int));
                let w = choose|k: int| header_match_at(hs@, name@, k);
                assert(w == i as int);
            }
            return Some(&hs[i].value);
        }
        i = i + 1;
    }
    proof {
        assert(forall|k: int| !header_match_at(hs@, name@, k));
    }
    None
}

/// Whether some header is named `name`.
pub fn has_header(hs: &Vec<Header>, name: &Vec<u8>) -> (r: bool)
    ensures
        r <==> spec_header_value(hs@, name@) is Some,
{
    find_header(hs, name).is_some()
}

/// The `l5d-dst-override` header name, as ASCII bytes.
pub open spec fn dst_override_hdr() -> Seq<u8> {
    seq![108u8, 53u8, 100u8, 45u8, 100u8, 115u8, 116u8, 45u8, 111u8, 118u8, 101u8, 114u8, 114u8, 105u8, 100u8, 101u8]
}

/// The `l5d-require-id` header name, as ASCII bytes.
pub open spec fn require_id_hdr() -> Seq<u8> {
    seq![108u8, 53u8, 100u8, 45u8, 114u8, 101u8, 113u8, 117u8, 105u8, 114u8, 101u8, 45u8, 105u8, 100u8]
}

/// The `l5d-orig-proto` header name, as ASCII bytes.
pub open spec fn orig_proto_hdr() -> Seq<u8> {
    seq![108u8, 53u8, 100u8, 45u8, 111u8, 114u8, 105u8, 103u8, 45u8, 112u8, 114u8, 111u8, 116u8, 111u8]
}

/// The `upgrade` header name, as ASCII bytes.
pub open spec fn upgrade_hdr() -> Seq<u8> {
    seq![117u8, 112u8, 103u8, 114u8, 97u8, 100u8, 101u8]
}

/// The `host` header name, as ASCII bytes.
pub open spec fn host_hdr() -> Seq<u8> {
    seq![104u8, 111u8, 115u8, 116u8]
}

/// The `connection` header name, as ASCII bytes.
pub open spec fn connection_hdr() -> Seq<u8> {
    seq![99u8, 111u8, 110u8, 110u8, 101u8, 99u8, 116u8, 105u8, 111u8, 110u8]
}

pub fn dst_override_hdr_bytes() -> (r: Vec<u8>)
    ensures
        r@ == dst_override_hdr(),
{
    let r: Vec<u8> = vec![108u8, 53u8, 100u8, 45u8, 100u8, 115u8, 116u8, 45u8, 111u8, 118u8, 101u8, 114u8, 114u8, 105u8, 100u8, 101u8];
    proof {
        assert(r@ =~= dst_override_hdr());
    }
    r
}

pub fn require_id_hdr_bytes() -> (r: Vec<u8>)
    ensures
        r@ == require_id_hdr(),
{
    let r: Vec<u8> = vec![108u8, 53u8, 100u8, 45u8, 114u8, 101u8, 113u8, 117u8, 105u8, 114u8, 101u8, 45u8, 105u8, 100u8];
    proof {
        assert(r@ =~= require_id_hdr());
    }
    r
}

pub fn orig_proto_hdr_bytes() -> (r: Vec<u8>)
    ensures
        r@ == orig_proto_hdr(),
{
    let r: Vec<u8> = vec![108u8, 53u8, 100u8, 45u8, 111u8, 114u8, 105u8, 103u8, 45u8, 112u8, 114u8, 111u8, 116u8, 111u8];
    proof {
        assert(r@ =~= orig_proto_hdr());
    }
    r
}

pub fn upgrade_hdr_bytes() -> (r: Vec<u8>)
    ensures
        r@ == upgrade_hdr(),
{
    let r: Vec<u8> = vec![117u8, 112u8, 103u8, 114u8, 97u8, 100u8, 101u8];
    proof {
        assert(r@ =~= upgrade_hdr());
    }
    r
}

pub fn host_hdr_bytes() -> (r: Vec<u8>)
    ensures
        r@ == host_hdr(),
{
    let r: Vec<u8> = vec![104u8, 111u8, 115u8, 116u8];
    proof {
        assert(r@ =~= host_hdr());
    }
    r
}

pub fn connection_hdr_bytes() -> (r: Vec<u8>)
    ensures
        r@ == connection_hdr(),
{
    let r: Vec<u8> = vec![99u8, 111u8, 110u8, 110u8, 101u8, 99u8, 116u8, 105u8, 111u8, 110u8];
    proof {
        assert(r@ =~= connection_hdr());
    }
    r
}

/// The headers with every one named `name` removed, the rest in order.
pub open spec fn spec_remove_headers(hs: Seq<Header>, name: Seq<u8>) -> Seq<Header>
    decreases hs.len(),
{
    if hs.len() == 0 {
        Seq::empty()
    } else if hs[0].name@ == name {
        spec_remove_headers(hs.drop_first(), name)
    } else {
        seq![hs[0]] + spec_remove_headers(hs.drop_first(), name)
    }
}

/// Removes every header named `name`, keeping the rest in order.
pub fn remove_headers(hs: Vec<Header>, name: &Vec<u8>) -> (r: Vec<Header>)
    ensures
        r@ == spec_remove_headers(hs@, name@),
{
    let ghost orig: Seq<Header> = hs@;
    let mut rest = hs;
    let mut out: Vec<Header> = Vec::new();
    while rest.len() > 0
        invariant
            spec_remove_headers(orig, name@) == out@ + spec_remove_headers(rest@, name@),
        decreases rest@.len(),
    {
        let ghost r0: Seq<Header> = rest@;
        let h = rest.remove(0);
        proof {
            assert(rest@ =~= r0.drop_first());
            assert(h == r0[0]);
        }
        if crate::addr::bytes_eq(&h.name, name) {
            proof {
                assert(out@ + spec_remove_headers(r0, name@) == out@ + spec_remove_headers(
                    rest@,
                    name@,
                ));
            }
        } else {
            out.push(h);
            proof {
                assert(out@ + spec_remove_headers(rest@, name@) =~= (out@.drop_last() + (seq![h]
                    + spec_remove_headers(rest@, name@))));
                assert(seq![h] + spec_remove_headers(rest@, name@) == spec_remove_headers(
                    r0,
                    name@,
                ));
            }
        }
    }
    proof {
        assert(spec_remove_headers(rest@, name@) =~= Seq::<Header>::empty());
        assert(out@ =~= out@ + Seq::<Header>::empty());
    }
    out
}

/// No header named `name` survives its removal.
pub proof fn lemma_remove_headers_none(hs: Seq<Header>, name: Seq<u8>)
    ensures
        forall|i: int|
            0 <= i < spec_remove_headers(hs, name).len() ==> (#[trigger] spec_remove_headers(
                hs,
                name,
            )[i]).name@ != name,
    decreases hs.len(),
{
    if hs.len() == 0 {
    } else {
        lemma_remove_headers_none(hs.drop_first(), name);
        let r = spec_remove_headers(hs, name);
        let tail = spec_remove_headers(hs.drop_first(), name);
        if hs[0].name@ == name {
            assert forall|i: int| 0 <= i < r.len() implies (#[trigger] r[i]).name@ != name by {
                assert(r[i] == tail[i]);
            }
        } else {
            assert forall|i: int| 0 <= i < r.len() implies (#[trigger] r[i]).name@ != name by {
                if i == 0 {
                    assert(r[0] == hs[0]);
                } else {
                    assert(r[i] == tail[i - 1]);
                }
            }
        }
    }
}

/// The protocol settings a request implies: HTTP/2 when the request is
/// HTTP/2, otherwise HTTP/1 with the request's connection options.
pub open spec fn spec_settings_of(req: RequestHead) -> Settings {
    if req.version is Http2 {
        Settings::Http2
    } else {
        Settings::Http1 {
            keep_alive: req.keep_alive,
            wants_h1_upgrade: spec_header_value(req.headers@, upgrade_hdr()) is Some,
            was_absolute_form: req.was_absolute_form,
        }
    }
}

impl Settings {
    /// Derives the protocol settings from a request.
    pub fn from_request(req: &RequestHead) -> (r: Settings)
        ensures
            r == spec_settings_of(*req),
    {
        match req.version {
            Version::Http2 => Settings::Http2,
            Version::Http11 => Settings::Http1 {
                keep_alive: req.keep_alive,
                wants_h1_upgrade: has_header(&req.headers, &upgrade_hdr_bytes()),
                was_absolute_form: req.was_absolute_form,
            },
        }
    }
}

} // verus!
