//! Requests of a custom URL scheme: their headers on the wire, and the exchange
//! in which they are answered.

use crate::runtime::{BackendCall, HandlerId, Query, Runtime};
use crate::text;
use crate::text::lossy_text;
use vstd::prelude::*;
use vstd::string::*;
use vstd::utf8::*;

verus! {

/// Header names and values by their contents.
pub open spec fn headers_view(headers: Seq<(String, String)>) -> Seq<(Seq<char>, Seq<char>)> {
    headers.map_values(|h: (String, String)| (h.0@, h.1@))
}

/// Headers on the wire: each name and each value in UTF-8, with a NUL after it.
pub open spec fn flattened(headers: Seq<(Seq<char>, Seq<char>)>) -> Seq<u8>
    decreases headers.len(),
{
    if headers.len() == 0 {
        Seq::empty()
    } else {
        encode_utf8(headers[0].0) + seq![0u8] + encode_utf8(headers[0].1) + seq![0u8] + flattened(
            headers.skip(1),
        )
    }
}

proof fn flattened_last(headers: Seq<(Seq<char>, Seq<char>)>)
    requires
        headers.len() > 0,
    ensures
        flattened(headers) == flattened(headers.drop_last()) + (encode_utf8(headers.last().0)
            + seq![0u8] + encode_utf8(headers.last().1) + seq![0u8]),
    decreases headers.len(),
{
    let tail = encode_utf8(headers.last().0) + seq![0u8] + encode_utf8(headers.last().1)
        + seq![0u8];
    if headers.len() == 1 {
        assert(headers.skip(1) =~= Seq::empty());
        assert(flattened(headers.skip(1)) =~= Seq::<u8>::empty());
        assert(flattened(headers.drop_last()) =~= Seq::<u8>::empty());
        assert(flattened(headers) =~= tail);
    } else {
        flattened_last(headers.skip(1));
        assert(headers.skip(1).drop_last() =~= headers.drop_last().skip(1));
        assert(headers.skip(1).last() == headers.last());
        let head = encode_utf8(headers[0].0) + seq![0u8] + encode_utf8(headers[0].1) + seq![0u8];
        assert(head + (flattened(headers.drop_last().skip(1)) + tail) =~= (head + flattened(
            headers.drop_last().skip(1),
        )) + tail);
    }
}

fn push_text(out: &mut Vec<u8>, s: &str)
    ensures
        final(out)@ == old(out)@ + encode_utf8(s@) + seq![0u8],
{
    let bytes = s.as_bytes();
    let ghost before = out@;
    out.extend_from_slice(bytes);
    assert(out@ =~= before + encode_utf8(s@));
    out.push(0);
    assert(out@ =~= before + encode_utf8(s@) + seq![0u8]);
}

/// Puts headers on the wire.
pub fn flatten_headers(headers: &[(String, String)]) -> (r: Vec<u8>)
    ensures
        r@ == flattened(headers_view(headers@)),
{
    let mut out: Vec<u8> = Vec::new();
    let mut i: usize = 0;
    let ghost all = headers_view(headers@);
    while i < headers.len()
        invariant
            all == headers_view(headers@),
            i <= headers@.len(),
            out@ == flattened(all.take(i as int)),
        decreases headers@.len() - i,
    {
        let ghost before = out@;
        push_text(&mut out, headers[i].0.as_str());
        push_text(&mut out, headers[i].1.as_str());
        proof {
            let now = all.take(i as int + 1);
            flattened_last(now);
            assert(now.drop_last() =~= all.take(i as int));
            assert(now.last() == (headers@[i as int].0@, headers@[i as int].1@));
            assert(out@ =~= flattened(now));
        }
        i = i + 1;
    }
    proof {
        assert(all.take(all.len() as int) =~= all);
    }
    out
}

/// The place of the first NUL, or the end.
pub open spec fn first_nul(bytes: Seq<u8>) -> int
    decreases bytes.len(),
{
    if bytes.len() == 0 || bytes[0] == 0 {
        0
    } else {
        1 + first_nul(bytes.skip(1))
    }
}

proof fn first_nul_at(bytes: Seq<u8>, n: int)
    requires
        0 <= n <= bytes.len(),
        forall|i: int| 0 <= i < n ==> bytes[i] != 0,
        n < bytes.len() ==> bytes[n] == 0,
    ensures
        first_nul(bytes) == n,
    decreases n,
{
    if n > 0 {
        first_nul_at(bytes.skip(1), n - 1);
    }
}

/// The first NUL lies within the bytes, or at their end.
pub proof fn first_nul_bounds(bytes: Seq<u8>)
    ensures
        0 <= first_nul(bytes) <= bytes.len(),
    decreases bytes.len(),
{
    if bytes.len() > 0 && bytes[0] != 0 {
        first_nul_bounds(bytes.skip(1));
    }
}

/// The pieces between the NULs. There is one more of them than there are NULs.
pub open spec fn segments(bytes: Seq<u8>) -> Seq<Seq<u8>>
    decreases bytes.len(),
{
    proof {
        first_nul_bounds(bytes);
    }
    let n = first_nul(bytes);
    if n >= bytes.len() {
        seq![bytes]
    } else {
        seq![bytes.take(n)] + segments(bytes.skip(n + 1))
    }
}

/// The pieces in pairs, as far as both of a pair are there. A pair of empty
/// pieces ends the list.
pub open spec fn paired(s: Seq<Seq<u8>>) -> Seq<(Seq<u8>, Seq<u8>)>
    decreases s.len(),
{
    if s.len() < 2 || s[0].len() == 0 && s[1].len() == 0 {
        Seq::empty()
    } else {
        seq![(s[0], s[1])] + paired(s.skip(2))
    }
}

/// The names and values on the wire, as bytes.
pub open spec fn wire_headers(bytes: Seq<u8>) -> Seq<(Seq<u8>, Seq<u8>)> {
    paired(segments(bytes))
}

/// A text is what bytes are read as: what they encode, if they are valid UTF-8.
pub open spec fn read_as(bytes: Seq<u8>, s: Seq<char>) -> bool {
    &&& s == text::utf8_lossy(bytes)
    &&& valid_utf8(bytes) ==> s == decode_utf8(bytes)
}

/// Headers that survive the wire: no NUL in any name or value, and none that is
/// empty altogether, which would end the list.
pub open spec fn wire_safe(headers: Seq<(Seq<char>, Seq<char>)>) -> bool {
    forall|i: int|
        0 <= i < headers.len() ==> text::nul_free((#[trigger] headers[i]).0) && text::nul_free(
            headers[i].1,
        ) && !(headers[i].0.len() == 0 && headers[i].1.len() == 0)
}

spec fn pieces_view(s: Seq<Vec<u8>>) -> Seq<Seq<u8>> {
    s.map_values(|p: Vec<u8>| p@)
}

fn split_at_nul(bytes: &[u8]) -> (r: Vec<Vec<u8>>)
    ensures
        pieces_view(r@) == segments(bytes@),
{
    let mut out: Vec<Vec<u8>> = Vec::new();
    let mut piece: Vec<u8> = Vec::new();
    let mut i: usize = 0;
    let ghost mut start: int = 0;
    assert(bytes@.skip(0) =~= bytes@);
    assert(pieces_view(out@) + segments(bytes@.skip(0)) =~= segments(bytes@));
    while i < bytes.len()
        invariant
            0 <= start <= i <= bytes@.len(),
            piece@ == bytes@.subrange(start, i as int),
            forall|j: int| start <= j < i ==> bytes@[j] != 0,
            pieces_view(out@) + segments(bytes@.skip(start)) == segments(bytes@),
        decreases bytes@.len() - i,
    {
        if bytes[i] == 0 {
            let ghost before = out@;
            let ghost rest = bytes@.skip(start);
            let mut done: Vec<u8> = Vec::new();
            std::mem::swap(&mut done, &mut piece);
            proof {
                first_nul_at(rest, i - start);
                assert(rest.take(i - start) =~= done@);
                assert(rest.skip(i - start + 1) =~= bytes@.skip(i as int + 1));
            }
            out.push(done);
            proof {
                assert(pieces_view(out@) =~= pieces_view(before).push(done@));
                assert(pieces_view(out@) + segments(bytes@.skip(i as int + 1)) =~= pieces_view(
                    before,
                ) + (seq![done@] + segments(bytes@.skip(i as int + 1))));
                start = i as int + 1;
                assert(piece@ =~= bytes@.subrange(start, i as int + 1));
            }
        } else {
            piece.push(bytes[i]);
            assert(piece@ =~= bytes@.subrange(start, i as int + 1));
        }
        i = i + 1;
    }
    let ghost before = out@;
    proof {
        let rest = bytes@.skip(start);
        first_nul_at(rest, rest.len() as int);
        assert(piece@ =~= rest);
    }
    out.push(piece);
    assert(pieces_view(out@) =~= pieces_view(before) + seq![piece@]);
    out
}

proof fn encoded_has_no_nul(s: Seq<char>)
    requires
        text::nul_free(s),
    ensures
        forall|i: int| 0 <= i < encode_utf8(s).len() ==> #[trigger] encode_utf8(s)[i] != 0,
        encode_utf8(s).len() == 0 <==> s.len() == 0,
    decreases s.len(),
{
    if s.len() > 0 {
        let u = s[0] as u32;
        assert(s[0] != '\0');
        if u == 0 {
            char_u32_cast(s[0], u);
            char_u32_cast('\0', 0);
        }
        char_is_scalar(s[0]);
        assert((u & 0x7f) as u8 != 0 || u > 0x7f) by (bit_vector)
            requires
                u != 0,
        ;
        assert(forall|b: u8| #[trigger] (0x80u8 | b) != 0) by (bit_vector);
        assert(forall|b: u8| #[trigger] (0xc0u8 | b) != 0) by (bit_vector);
        assert(forall|b: u8| #[trigger] (0xe0u8 | b) != 0) by (bit_vector);
        assert(forall|b: u8| #[trigger] (0xf0u8 | b) != 0) by (bit_vector);
        let first = vstd::utf8::encode_scalar(u);
        assert forall|i: int| 0 <= i < first.len() implies #[trigger] first[i] != 0 by {}
        assert(text::nul_free(s.drop_first())) by {
            assert forall|i: int| 0 <= i < s.drop_first().len() implies s.drop_first()[i]
                != '\0' by {
                assert(s[i + 1] != '\0');
            }
        }
        encoded_has_no_nul(s.drop_first());
        let rest = encode_utf8(s.drop_first());
        assert(encode_utf8(s) == first + rest);
        assert forall|i: int| 0 <= i < encode_utf8(s).len() implies #[trigger] encode_utf8(s)[i]
            != 0 by {
            if i < first.len() {
                assert(encode_utf8(s)[i] == first[i]);
            } else {
                assert(encode_utf8(s)[i] == rest[i - first.len()]);
            }
        }
    }
}

/// Headers that are put on the wire come back as the same bytes, pair for pair.
pub proof fn headers_survive_the_wire(headers: Seq<(Seq<char>, Seq<char>)>)
    requires
        wire_safe(headers),
    ensures
        wire_headers(flattened(headers)) == headers.map_values(
            |h: (Seq<char>, Seq<char>)| (encode_utf8(h.0), encode_utf8(h.1)),
        ),
    decreases headers.len(),
{
    let bytes = flattened(headers);
    let enc = |h: (Seq<char>, Seq<char>)| (encode_utf8(h.0), encode_utf8(h.1));
    if headers.len() == 0 {
        assert(first_nul(bytes) == 0);
        assert(segments(bytes) =~= seq![bytes]);
        assert(wire_headers(bytes) =~= headers.map_values(enc));
    } else {
        let (name, value) = headers[0];
        let (n, v) = (encode_utf8(name), encode_utf8(value));
        let rest = flattened(headers.skip(1));
        encoded_has_no_nul(name);
        encoded_has_no_nul(value);
        assert(bytes =~= n + seq![0u8] + (v + seq![0u8] + rest));
        first_nul_at(bytes, n.len() as int);
        assert(bytes.take(n.len() as int) =~= n);
        let after_name = bytes.skip(n.len() as int + 1);
        assert(after_name =~= v + seq![0u8] + rest);
        first_nul_at(after_name, v.len() as int);
        assert(after_name.take(v.len() as int) =~= v);
        assert(after_name.skip(v.len() as int + 1) =~= rest);
        let s = segments(bytes);
        assert(s == seq![n] + segments(after_name));
        assert(segments(after_name) == seq![v] + segments(rest));
        assert(s[0] == n && s[1] == v);
        assert(s.skip(2) =~= segments(rest));
        assert forall|i: int| 0 <= i < headers.skip(1).len() implies text::nul_free(
            (#[trigger] headers.skip(1)[i]).0,
        ) && text::nul_free(headers.skip(1)[i].1) && !(headers.skip(1)[i].0.len() == 0
            && headers.skip(1)[i].1.len() == 0) by {
            assert(headers.skip(1)[i] == headers[i + 1]);
        }
        headers_survive_the_wire(headers.skip(1));
        assert(wire_headers(bytes) =~= seq![(n, v)] + headers.skip(1).map_values(enc));
        assert(headers.map_values(enc) =~= seq![(n, v)] + headers.skip(1).map_values(enc));
    }
}

/// Reads headers off the wire: names and values alternate, each ended by a NUL.
/// Headers that were put on the wire and can survive it are read as they were.
pub fn parse_flat_headers(bytes: &[u8]) -> (r: Vec<(String, String)>)
    ensures
        r@.len() == wire_headers(bytes@).len(),
        forall|i: int|
            0 <= i < r@.len() ==> read_as(wire_headers(bytes@)[i].0, (#[trigger] r@[i]).0@)
                && read_as(wire_headers(bytes@)[i].1, r@[i].1@),
        forall|headers: Seq<(Seq<char>, Seq<char>)>|
            wire_safe(headers) && bytes@ == #[trigger] flattened(headers) ==> headers_view(r@)
                == headers,
{
    let pieces = split_at_nul(bytes);
    let mut out: Vec<(String, String)> = Vec::new();
    let mut i: usize = 0;
    let ghost all = pieces_view(pieces@);
    assert(all.skip(0) =~= all);
    let mut open = true;
    let count: usize = pieces.len();
    while open && count - i >= 2
        invariant
            all == pieces_view(pieces@),
            all == segments(bytes@),
            i <= count == pieces@.len(),
            out@.len() + (if open {
                paired(all.skip(i as int)).len()
            } else {
                0
            }) == paired(all).len(),
            open ==> forall|j: int|
                0 <= j < paired(all.skip(i as int)).len() ==> #[trigger] paired(
                    all.skip(i as int),
                )[j] == paired(all)[out@.len() + j],
            forall|j: int|
                0 <= j < out@.len() ==> read_as(paired(all)[j].0, (#[trigger] out@[j]).0@)
                    && read_as(paired(all)[j].1, out@[j].1@),
        decreases pieces@.len() - i, (if open {
            1int
        } else {
            0
        }),
    {
        let ghost rest = all.skip(i as int);
        let ghost done = out@;
        proof {
            assert(rest[0] == pieces@[i as int]@);
            assert(rest[1] == pieces@[i as int + 1]@);
            assert(rest.skip(2) =~= all.skip(i as int + 2));
        }
        if pieces[i].len() == 0 && pieces[i + 1].len() == 0 {
            open = false;
        } else {
            proof {
                assert(paired(rest)[0] == (rest[0], rest[1]));
                assert(paired(all)[done.len() as int] == (rest[0], rest[1]));
                assert forall|j: int| 0 <= j < paired(rest.skip(2)).len() implies #[trigger] paired(
                    rest.skip(2),
                )[j] == paired(all)[done.len() + 1 + j] by {
                    assert(paired(rest)[j + 1] == paired(rest.skip(2))[j]);
                }
            }
            let name = lossy_text(pieces[i].as_slice());
            let value = lossy_text(pieces[i + 1].as_slice());
            out.push((name, value));
            i = i + 2;
        }
    }
    proof {
        if open {
            assert(all.skip(i as int).len() < 2);
            assert(paired(all.skip(i as int)).len() == 0);
        }
        assert forall|headers: Seq<(Seq<char>, Seq<char>)>|
            wire_safe(headers) && bytes@ == #[trigger] flattened(headers) implies headers_view(
            out@,
        ) == headers by {
            headers_survive_the_wire(headers);
            assert forall|j: int| 0 <= j < headers.len() implies headers_view(out@)[j]
                == headers[j] by {
                assert(out@[j] == out@[j]);
                vstd::utf8::encode_utf8_valid_utf8(headers[j].0);
                vstd::utf8::encode_utf8_valid_utf8(headers[j].1);
                vstd::utf8::encode_utf8_decode_utf8(headers[j].0);
                vstd::utf8::encode_utf8_decode_utf8(headers[j].1);
            }
            assert(headers_view(out@) =~= headers);
        }
    }
    out
}

/// One request of a scheme, for the embedder to answer.
pub struct SchemeRequest {
    pub window_id: u32,
    pub method: String,
    pub url: String,
    pub headers: Vec<(String, String)>,
    pub exchange: SchemeExchange,
}

/// The exchange that a request is answered in. The backend owns what is behind
/// the handle.
pub struct SchemeExchange {
    pub handle: usize,
}

impl SchemeExchange {
    /// Asks for up to `capacity` bytes of the request body. Without a backend
    /// that can be asked, that is an error.
    pub fn read_body(&self, rt: &Runtime, capacity: usize) -> (r: Query<isize>)
        requires
            rt.ready(),
        ensures
            r == (if rt.table().scheme_request_read_body {
                Query::Ask(
                    BackendCall::SchemeRequestReadBody { exchange: self.handle, capacity },
                )
            } else {
                Query::Known(-1isize)
            }),
    {
        if rt.api().scheme_request_read_body {
            Query::Ask(BackendCall::SchemeRequestReadBody { exchange: self.handle, capacity })
        } else {
            Query::Known(-1)
        }
    }

    /// Sends the response status and headers. Call once, before `write`.
    pub fn begin(&self, rt: &mut Runtime, status: i32, headers: &[(String, String)])
        requires
            old(rt).ready(),
        ensures
            if old(rt).table().scheme_response_begin {
                final(rt).called_with(
                    *old(rt),
                    |c: BackendCall|
                        c matches BackendCall::SchemeResponseBegin {
                            exchange,
                            status: s,
                            headers: bytes,
                        } && exchange == self.handle && s == status && bytes@ == flattened(
                            headers_view(headers@),
                        ),
                )
            } else {
                *final(rt) == *old(rt)
            },
    {
        if rt.api().scheme_response_begin {
            let flat = flatten_headers(headers);
            rt.call(
                BackendCall::SchemeResponseBegin { exchange: self.handle, status, headers: flat },
            );
            assert(rt.calls@.drop_last() =~= old(rt).calls@);
        }
    }

    /// Asks for response body bytes to be appended. Without a backend that can be
    /// asked, that is an error.
    pub fn write(&self, rt: &Runtime, bytes: &[u8]) -> (r: Query<isize>)
        requires
            rt.ready(),
        ensures
            if rt.table().scheme_response_write {
                r matches Query::Ask(BackendCall::SchemeResponseWrite { exchange, bytes: b })
                    && exchange == self.handle && b@ == bytes@
            } else {
                r == Query::Known(-1isize)
            },
    {
        if rt.api().scheme_response_write {
            let mut copy: Vec<u8> = Vec::new();
            copy.extend_from_slice(bytes);
            assert(copy@ =~= bytes@);
            Query::Ask(BackendCall::SchemeResponseWrite { exchange: self.handle, bytes: copy })
        } else {
            Query::Known(-1)
        }
    }

    /// Completes the response and releases the exchange.
    pub fn finish(self, rt: &mut Runtime)
        requires
            old(rt).ready(),
        ensures
            final(rt).called(
                *old(rt),
                if old(rt).table().scheme_response_finish {
                    Some(BackendCall::SchemeResponseFinish { exchange: self.handle })
                } else {
                    None
                },
            ),
    {
        let present = rt.api().scheme_response_finish;
        rt.call_if(present, BackendCall::SchemeResponseFinish { exchange: self.handle });
    }
}

/// Registers the handler that services every request of a scheme, given by its
/// name alone.
pub fn register_scheme_handler(rt: &mut Runtime, scheme: &str, handler: HandlerId)
    requires
        old(rt).ready(),
        old(rt).table().register_scheme_handler ==> text::nul_free(scheme@),
    ensures
        *final(rt) == (Runtime {
            scheme: Some(handler),
            calls: final(rt).calls,
            ..*old(rt)
        }),
        if old(rt).table().register_scheme_handler {
            crate::runtime::made_call(
                old(rt).calls@,
                final(rt).calls@,
                |c: BackendCall|
                    c matches BackendCall::RegisterSchemeHandler { scheme: s } && s@ == scheme@,
            )
        } else {
            final(rt).calls@ == old(rt).calls@
        },
{
    rt.scheme = Some(handler);
    if rt.api().register_scheme_handler {
        rt.call(BackendCall::RegisterSchemeHandler { scheme: scheme.to_string() });
        assert(rt.calls@.drop_last() =~= old(rt).calls@);
    }
}

/// The contents of a text, or nothing for a null pointer.
pub open spec fn text_or_empty(s: Option<String>) -> Seq<char> {
    match s {
        Some(t) => t@,
        None => Seq::empty(),
    }
}

/// Takes in a request. It goes to the registered handler; without one the
/// exchange is released, so that the page does not hang.
pub fn scheme_request_trampoline(
    rt: &mut Runtime,
    window_id: u32,
    exchange: usize,
    method: Option<String>,
    url: Option<String>,
    headers: &[u8],
) -> (r: Option<(HandlerId, SchemeRequest)>)
    requires
        old(rt).ready(),
    ensures
        match old(rt).scheme {
            Some(h) => {
                &&& r matches Some((handler, req))
                &&& handler == h
                &&& req.window_id == window_id
                &&& req.method@ == text_or_empty(method)
                &&& req.url@ == text_or_empty(url)
                &&& req.exchange.handle == exchange
                &&& req.headers@.len() == wire_headers(headers@).len()
                &&& forall|i: int|
                    0 <= i < req.headers@.len() ==> read_as(
                        wire_headers(headers@)[i].0,
                        (#[trigger] req.headers@[i]).0@,
                    ) && read_as(wire_headers(headers@)[i].1, req.headers@[i].1@)
                &&& *final(rt) == *old(rt)
            },
            None => {
                &&& r is None
                &&& final(rt).called(
                    *old(rt),
                    if old(rt).table().scheme_response_finish {
                        Some(BackendCall::SchemeResponseFinish { exchange })
                    } else {
                        None
                    },
                )
            },
        },
{
    let method_text = match method {
        Some(m) => m,
        None => String::new(),
    };
    let url_text = match url {
        Some(u) => u,
        None => String::new(),
    };
    let parsed = parse_flat_headers(headers);
    let req = SchemeRequest {
        window_id,
        method: method_text,
        url: url_text,
        headers: parsed,
        exchange: SchemeExchange { handle: exchange },
    };
    match rt.scheme {
        Some(handler) => Some((handler, req)),
        None => {
            req.exchange.finish(rt);
            None
        },
    }
}

} // verus!
