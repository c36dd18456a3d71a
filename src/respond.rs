//! Composing the response: status line, content type, the echo of diagnostic
//! headers, and the rendered body.

use vstd::prelude::*;
use crate::assets::{resolve, resolve_spec, AssetStore};
use crate::classify::{
    is_valid_status, opt_bytes, Format, InboundHeaders, RequestContext, CODE_HEADER, FORMAT_HEADER,
    INGRESS_NAME_HEADER, NAMESPACE_HEADER, ORIGINAL_URI_HEADER, REQUEST_ID_HEADER, SERVICE_NAME_HEADER,
    SERVICE_PORT_HEADER,
};
use crate::render::{render, render_spec, Config};

verus! {

/// The outbound response. A body of `None` is sent empty.
#[derive(Clone, Debug)]
pub struct Response {
    pub status: u16,
    pub format: Format,
    pub headers: Vec<(String, Vec<u8>)>,
    pub body: Option<String>,
}

/// The name of the `k`-th diagnostic header, in the order they are echoed.
pub open spec fn header_name(k: int) -> Seq<char> {
    if k == 0 {
        "X-Code"@
    } else if k == 1 {
        "X-Format"@
    } else if k == 2 {
        "X-Original-URI"@
    } else if k == 3 {
        "X-Namespace"@
    } else if k == 4 {
        "X-Ingress-Name"@
    } else if k == 5 {
        "X-Service-Name"@
    } else if k == 6 {
        "X-Service-Port"@
    } else {
        "X-Request-Id"@
    }
}

/// The value the request carried for the `k`-th diagnostic header.
pub open spec fn header_value(h: InboundHeaders, k: int) -> Option<Seq<u8>> {
    if k == 0 {
        opt_bytes(h.code)
    } else if k == 1 {
        opt_bytes(h.format)
    } else if k == 2 {
        opt_bytes(h.original_uri)
    } else if k == 3 {
        opt_bytes(h.namespace)
    } else if k == 4 {
        opt_bytes(h.ingress_name)
    } else if k == 5 {
        opt_bytes(h.service_name)
    } else if k == 6 {
        opt_bytes(h.service_port)
    } else {
        opt_bytes(h.request_id)
    }
}

pub open spec fn echo_entry(name: Seq<char>, value: Option<Seq<u8>>) -> Seq<(Seq<char>, Seq<u8>)> {
    match value {
        Some(v) => seq![(name, v)],
        None => Seq::empty(),
    }
}

/// The echo of the first `k` diagnostic headers, each one the request carried.
pub open spec fn echo_upto(h: InboundHeaders, k: nat) -> Seq<(Seq<char>, Seq<u8>)>
    decreases k,
{
    if k == 0 {
        Seq::empty()
    } else {
        echo_upto(h, (k - 1) as nat) + echo_entry(header_name(k - 1), header_value(h, k - 1))
    }
}

/// The headers echoed back: none unless debug mode is on, and then each
/// diagnostic header the request carried, with its value unchanged.
pub open spec fn debug_echo_spec(debug: bool, h: InboundHeaders) -> Seq<(Seq<char>, Seq<u8>)> {
    if debug {
        echo_upto(h, 8)
    } else {
        Seq::empty()
    }
}

fn push_echo(out: &mut Vec<(String, Vec<u8>)>, name: &str, value: &Option<Vec<u8>>)
    ensures
        final(out).deep_view() == old(out).deep_view() + echo_entry(name@, opt_bytes(*value)),
{
    match value {
        Some(v) => {
            let copy = v.clone();
            assert(copy@ =~= v@);
            assert(copy.deep_view() =~= v@);
            let entry = (String::from_str(name), copy);
            assert(entry.deep_view() == (name@, v@));
            out.push(entry);
            assert(final(out).deep_view() =~= old(out).deep_view() + echo_entry(name@, opt_bytes(*value)));
        },
        None => {
            assert(final(out).deep_view() =~= old(out).deep_view() + echo_entry(name@, opt_bytes(*value)));
        },
    }
}

/// The diagnostic headers to echo on the response.
pub fn debug_echo(debug: bool, headers: &InboundHeaders) -> (r: Vec<(String, Vec<u8>)>)
    ensures
        r.deep_view() == debug_echo_spec(debug, *headers),
{
    let mut r: Vec<(String, Vec<u8>)> = Vec::new();
    if !debug {
        assert(r.deep_view() =~= Seq::<(Seq<char>, Seq<u8>)>::empty());
        return r;
    }
    assert(r.deep_view() =~= echo_upto(*headers, 0));
    push_echo(&mut r, CODE_HEADER, &headers.code);
    push_echo(&mut r, FORMAT_HEADER, &headers.format);
    push_echo(&mut r, ORIGINAL_URI_HEADER, &headers.original_uri);
    push_echo(&mut r, NAMESPACE_HEADER, &headers.namespace);
    push_echo(&mut r, INGRESS_NAME_HEADER, &headers.ingress_name);
    push_echo(&mut r, SERVICE_NAME_HEADER, &headers.service_name);
    push_echo(&mut r, SERVICE_PORT_HEADER, &headers.service_port);
    push_echo(&mut r, REQUEST_ID_HEADER, &headers.request_id);
    proof {
        reveal_with_fuel(echo_upto, 9);
    }
    r
}

/// The status line: the requested code where a body is sent and the code is a
/// valid status, 404 otherwise.
pub open spec fn status_spec(code: u16, has_body: bool) -> u16 {
    if has_body && 100 <= code && code <= 999 {
        code
    } else {
        404
    }
}

/// Assembles the response for a request from the format the cascade settled on
/// and the rendered body, `None` where no artifact was found or it did not render.
pub fn compose(ctx: &RequestContext, debug: bool, format: Format, rendered: Option<String>) -> (r: Response)
    ensures
        r.status == status_spec(ctx.status_code, rendered is Some),
        r.format == format,
        r.headers.deep_view() == debug_echo_spec(debug, ctx.headers),
        r.body.deep_view() == rendered.deep_view(),
{
    let headers = debug_echo(debug, &ctx.headers);
    let status = if rendered.is_some() && is_valid_status(ctx.status_code) {
        ctx.status_code
    } else {
        404
    };
    Response { status, format, headers, body: rendered }
}

/// The rendered body for a request: the artifact the cascade found, rendered
/// against the configuration.
pub open spec fn body_spec(store: Seq<(Seq<char>, Seq<char>)>, config: Seq<(Seq<char>, Seq<char>)>, code: u16, f: Format) -> Option<Seq<char>> {
    match resolve_spec(store, code, f).1 {
        Some(t) => render_spec(t, config),
        None => None,
    }
}

/// Answers a classified request from the asset store and the configuration.
pub fn respond(ctx: &RequestContext, debug: bool, store: &AssetStore, config: &Config) -> (r: Response)
    ensures
        r.status == status_spec(ctx.status_code, body_spec(store@, config@, ctx.status_code, ctx.format) is Some),
        r.format == resolve_spec(store@, ctx.status_code, ctx.format).0,
        r.headers.deep_view() == debug_echo_spec(debug, ctx.headers),
        r.body.deep_view() == body_spec(store@, config@, ctx.status_code, ctx.format),
{
    let asset = resolve(store, ctx.status_code, ctx.format);
    let rendered = match &asset.body {
        Some(t) => render(t, config),
        None => None,
    };
    compose(ctx, debug, asset.format, rendered)
}

} // verus!
