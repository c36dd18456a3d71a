//! General properties of the pipeline, stated over the specifications that the
//! executable functions are proved against.

use vstd::prelude::*;
use crate::assets::{candidate_names, lookup, resolve_spec};
use crate::classify::{Format, InboundHeaders};
use crate::decimal::decimal;
use crate::render::render_spec;
use crate::respond::{body_spec, debug_echo_spec, echo_entry, echo_upto, header_name, header_value, status_spec};

verus! {

/// Looking up a name that no entry carries finds nothing.
proof fn lemma_lookup_absent(entries: Seq<(Seq<char>, Seq<char>)>, name: Seq<char>)
    requires
        forall|i: int| 0 <= i < entries.len() ==> (#[trigger] entries[i]).0 != name,
    ensures
        lookup(entries, name) is None,
    decreases entries.len(),
{
    if entries.len() > 0 {
        let rest = entries.drop_first();
        assert forall|i: int| 0 <= i < rest.len() implies (#[trigger] rest[i]).0 != name by {
            assert(rest[i] == entries[i + 1]);
        }
        lemma_lookup_absent(rest, name);
    }
}

/// When the artifact named exactly after the code exists in the wanted format, it
/// is the one served, in that format, and the body is its rendering.
pub proof fn exact_artifact_is_served(
    store: Seq<(Seq<char>, Seq<char>)>,
    config: Seq<(Seq<char>, Seq<char>)>,
    code: u16,
    f: Format,
    text: Seq<char>,
)
    requires
        lookup(store, decimal(code as nat) + "."@ + f.extension_spec()) == Some(text),
    ensures
        resolve_spec(store, code, f) == (f, Some(text)),
        body_spec(store, config, code, f) == render_spec(text, config),
{
}

/// With nothing in the asset root, every request gets an empty 404.
pub proof fn empty_root_gives_empty_not_found(config: Seq<(Seq<char>, Seq<char>)>, code: u16, f: Format)
    ensures
        body_spec(Seq::empty(), config, code, f) is None,
        status_spec(code, body_spec(Seq::empty(), config, code, f) is Some) == 404,
{
    let n = candidate_names(code, f);
    assert(lookup(Seq::empty(), n[0]) is None);
    assert(lookup(Seq::empty(), n[4]) is None);
}

/// A JSON request answered from an asset root whose only artifacts are the
/// century page `{code/100}xx.html` is served as HTML.
pub proof fn json_falls_back_to_html(store: Seq<(Seq<char>, Seq<char>)>, code: u16)
    requires
        forall|i: int| 0 <= i < store.len() ==> (#[trigger] store[i]).0 == decimal((code / 100) as nat) + "xx.html"@,
    ensures
        resolve_spec(store, code, Format::Json).0 == Format::Html,
{
    reveal_strlit("json");
    reveal_strlit("xx.html");
    let n = candidate_names(code, Format::Json);
    let page = decimal((code / 100) as nat) + "xx.html"@;
    assert(page.last() == 'l');
    assert forall|k: int| 0 <= k < 4 implies lookup(store, #[trigger] n[k]) is None by {
        assert(n[k].last() == 'n');
        assert forall|i: int| 0 <= i < store.len() implies (#[trigger] store[i]).0 != n[k] by {
            assert(store[i].0.last() == 'l');
        }
        lemma_lookup_absent(store, n[k]);
    }
}

proof fn lemma_header_names_distinct(a: int, b: int)
    requires
        0 <= a < 8,
        0 <= b < 8,
        a != b,
    ensures
        header_name(a) != header_name(b),
{
    reveal_strlit("X-Code");
    reveal_strlit("X-Format");
    reveal_strlit("X-Original-URI");
    reveal_strlit("X-Namespace");
    reveal_strlit("X-Ingress-Name");
    reveal_strlit("X-Service-Name");
    reveal_strlit("X-Service-Port");
    reveal_strlit("X-Request-Id");
    assert(header_name(a)[2] != header_name(b)[2] || header_name(a)[10] != header_name(b)[10]);
}

proof fn lemma_echo_upto(h: InboundHeaders, upto: nat, k: int, v: Seq<u8>)
    requires
        upto <= 8,
        0 <= k < 8,
    ensures
        (exists|i: int| 0 <= i < echo_upto(h, upto).len() && #[trigger] echo_upto(h, upto)[i] == (header_name(k), v))
            <==> (k < upto && header_value(h, k) == Some(v)),
    decreases upto,
{
    if upto > 0 {
        let prev = echo_upto(h, (upto - 1) as nat);
        let last = echo_entry(header_name(upto - 1), header_value(h, upto - 1));
        let all = echo_upto(h, upto);
        assert(all == prev + last);
        lemma_echo_upto(h, (upto - 1) as nat, k, v);
        if k != upto - 1 {
            lemma_header_names_distinct(k, upto - 1);
        }
        if exists|i: int| 0 <= i < all.len() && #[trigger] all[i] == (header_name(k), v) {
            let i = choose|i: int| 0 <= i < all.len() && #[trigger] all[i] == (header_name(k), v);
            if i < prev.len() {
                assert(prev[i] == all[i]);
            } else {
                assert(last[i - prev.len()] == all[i]);
            }
        }
        if k < upto && header_value(h, k) == Some(v) {
            if k < upto - 1 {
                let i = choose|i: int| 0 <= i < prev.len() && #[trigger] prev[i] == (header_name(k), v);
                assert(all[i] == prev[i]);
            } else {
                assert(all[prev.len() as int] == (header_name(k), v));
            }
        }
    }
}

/// A diagnostic header is echoed, with its value unchanged, exactly when debug
/// mode is on and the request carried it; with debug mode off nothing is echoed.
pub proof fn echo_only_in_debug_and_when_present(debug: bool, h: InboundHeaders, k: int, v: Seq<u8>)
    requires
        0 <= k < 8,
    ensures
        (exists|i: int| 0 <= i < debug_echo_spec(debug, h).len() && #[trigger] debug_echo_spec(debug, h)[i] == (header_name(k), v))
            <==> (debug && header_value(h, k) == Some(v)),
        !debug ==> debug_echo_spec(debug, h).len() == 0,
{
    let e = debug_echo_spec(debug, h);
    if debug {
        lemma_echo_upto(h, 8, k, v);
        assert(e == echo_upto(h, 8));
        if exists|i: int| 0 <= i < e.len() && #[trigger] e[i] == (header_name(k), v) {
            let i = choose|i: int| 0 <= i < e.len() && #[trigger] e[i] == (header_name(k), v);
            assert(echo_upto(h, 8)[i] == (header_name(k), v));
        }
        if header_value(h, k) == Some(v) {
            let i = choose|i: int| 0 <= i < echo_upto(h, 8).len() && #[trigger] echo_upto(h, 8)[i] == (header_name(k), v);
            assert(e[i] == (header_name(k), v));
        }
    }
}

} // verus!
