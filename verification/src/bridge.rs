//! Pure helpers around the hosting platform's bridge: finding the bot
//! identity among forwarded request headers, decoding the forwarded header
//! list, and addressing the event relay.

use vstd::prelude::*;

use crate::jsonval::{json_parse, parse_json, v_as_array, v_as_str, value_model};
use crate::jsonval::JsonSpec;
use crate::render::{chars_to_string, push_str_chars, query_view};
use vstd::string::StringExecFns;

verus! {

/// The code of a character with any ASCII upper-case letter folded to its
/// lower-case counterpart.
pub open spec fn ascii_lower_code(c: char) -> u32 {
    if 65 <= c as u32 <= 90 {
        (c as u32 + 32) as u32
    } else {
        c as u32
    }
}

/// Whether two character sequences agree up to ASCII case.
pub open spec fn eq_ascii_ci(a: Seq<char>, b: Seq<char>) -> bool {
    a.len() == b.len() && (forall|i: int|
        0 <= i < a.len() ==> ascii_lower_code(a[i]) == ascii_lower_code(b[i]))
}

/// The header that carries the bot identity on a forwarded event.
pub open spec fn secret_token_header() -> Seq<char> {
    "x-telegram-bot-api-secret-token"@
}

/// The value of the first header whose name matches `key` up to ASCII
/// case; empty when no header matches.
pub open spec fn header_lookup(
    hs: Seq<(Seq<char>, Seq<char>)>,
    key: Seq<char>,
) -> Seq<char>
    decreases hs.len(),
{
    if hs.len() == 0 {
        Seq::empty()
    } else if eq_ascii_ci(hs[0].0, key) {
        hs[0].1
    } else {
        header_lookup(hs.drop_first(), key)
    }
}

/// Whether two strings agree up to ASCII case.
fn eq_ignore_ascii_case_str(a: &str, b: &str) -> (r: bool)
    ensures
        r == eq_ascii_ci(a@, b@),
{
    let la = a.unicode_len();
    let lb = b.unicode_len();
    if la != lb {
        return false;
    }
    let mut i: usize = 0;
    while i < la
        invariant
            i <= la,
            la == a@.len(),
            la == b@.len(),
            forall|j: int| 0 <= j < i ==> ascii_lower_code(a@[j]) == ascii_lower_code(b@[j]),
        decreases la - i,
    {
        let ca = a.get_char(i);
        let cb = b.get_char(i);
        let xa = ca as u32;
        let xb = cb as u32;
        let fa: u32 = if 65 <= xa && xa <= 90 {
            xa + 32
        } else {
            xa
        };
        let fb: u32 = if 65 <= xb && xb <= 90 {
            xb + 32
        } else {
            xb
        };
        if fa != fb {
            assert(ascii_lower_code(a@[i as int]) != ascii_lower_code(b@[i as int]));
            return false;
        }
        i += 1;
    }
    true
}

/// Finds the bot identity among the forwarded headers: the value of the
/// first header named `x-telegram-bot-api-secret-token`, compared without
/// regard to ASCII case; empty when no such header was forwarded.
pub fn bot_id_from_headers(headers: &Vec<(String, String)>) -> (r: String)
    ensures
        r@ == header_lookup(query_view(headers@), secret_token_header()),
{
    let ghost hv = query_view(headers@);
    proof {
        assert(hv.skip(0) =~= hv);
    }
    let mut i: usize = 0;
    while i < headers.len()
        invariant
            i <= headers.len(),
            hv == query_view(headers@),
            hv.len() == headers@.len(),
            header_lookup(hv, secret_token_header()) == header_lookup(
                hv.skip(i as int),
                secret_token_header(),
            ),
        decreases headers.len() - i,
    {
        proof {
            assert(hv.skip(i as int)[0] == hv[i as int]);
            assert(hv[i as int] == (headers@[i as int].0@, headers@[i as int].1@));
        }
        if eq_ignore_ascii_case_str(headers[i].0.as_str(), "x-telegram-bot-api-secret-token") {
            return headers[i].1.clone();
        }
        proof {
            assert(hv.skip(i as int).drop_first() =~= hv.skip(i as int + 1));
        }
        i += 1;
    }
    proof {
        assert(hv.skip(headers@.len() as int) =~= Seq::<(Seq<char>, Seq<char>)>::empty());
    }
    String::new()
}

/// The URL of the event relay for one bot identity.
pub open spec fn event_url_spec(prefix: Seq<char>, bot_id: Seq<char>) -> Seq<char> {
    prefix + "/event/"@ + bot_id
}

/// Builds the event-relay URL for one bot identity.
pub fn event_url(prefix: &str, bot_id: &str) -> (r: String)
    ensures
        r@ == event_url_spec(prefix@, bot_id@),
{
    let mut out: Vec<char> = Vec::new();
    push_str_chars(&mut out, prefix);
    push_str_chars(&mut out, "/event/");
    push_str_chars(&mut out, bot_id);
    proof {
        assert(out@ =~= event_url_spec(prefix@, bot_id@));
    }
    chars_to_string(&out)
}

/// Which JSON documents are one forwarded header: a two-element array of
/// strings, name first.
pub open spec fn header_pair_of_json(j: JsonSpec) -> Option<(Seq<char>, Seq<char>)> {
    match j {
        JsonSpec::Arr(xs) => if xs.len() == 2 && xs[0] is Str && xs[1] is Str {
            Some((xs[0]->Str_0, xs[1]->Str_0))
        } else {
            None
        },
        _ => None,
    }
}

/// The header list a sequence of JSON documents holds, when every one of
/// them is a forwarded header.
pub open spec fn header_list_of(xs: Seq<JsonSpec>) -> Option<Seq<(Seq<char>, Seq<char>)>>
    decreases xs.len(),
{
    if xs.len() == 0 {
        Some(Seq::empty())
    } else {
        match (header_list_of(xs.drop_last()), header_pair_of_json(xs.last())) {
            (Some(acc), Some(p)) => Some(acc.push(p)),
            _ => None,
        }
    }
}

/// Which JSON documents decode as a forwarded header list.
pub open spec fn headers_of_json(j: JsonSpec) -> Option<Seq<(Seq<char>, Seq<char>)>> {
    match j {
        JsonSpec::Arr(xs) => header_list_of(xs),
        _ => None,
    }
}

/// What decoding raw header bytes yields: the header list of the JSON
/// document the bytes hold, if they hold a decodable one.
pub open spec fn headers_from_bytes_spec(b: Seq<u8>) -> Option<Seq<(Seq<char>, Seq<char>)>> {
    match json_parse(b) {
        Some(j) => headers_of_json(j),
        None => None,
    }
}

/// One element that is no forwarded header spoils the whole list.
proof fn lemma_header_list_none(xs: Seq<JsonSpec>, i: int)
    requires
        0 <= i < xs.len(),
        header_pair_of_json(xs[i]) is None,
    ensures
        header_list_of(xs) is None,
    decreases xs.len(),
{
    if i < xs.len() - 1 {
        lemma_header_list_none(xs.drop_last(), i);
    }
}

/// Decodes the raw header payload the host forwards alongside an event:
/// a JSON array of two-element name/value string arrays. Yields nothing
/// when the bytes are not a valid document or any element has the wrong
/// shape.
pub fn decode_headers_bytes(b: &[u8]) -> (r: Option<Vec<(String, String)>>)
    ensures
        match headers_from_bytes_spec(b@) {
            Some(hs) => r matches Some(v) && query_view(v@) == hs,
            None => r is None,
        },
{
    let v = match parse_json(b) {
        Some(v) => v,
        None => return None,
    };
    let items = match v_as_array(&v) {
        Some(a) => a,
        None => return None,
    };
    let ghost xs = value_model(v)->Arr_0;
    let mut out: Vec<(String, String)> = Vec::new();
    let mut i: usize = 0;
    while i < items.len()
        invariant
            i <= items.len(),
            json_parse(b@) == Some(value_model(v)),
            value_model(v) is Arr,
            xs == value_model(v)->Arr_0,
            xs.len() == items@.len(),
            forall|k: int| 0 <= k < items@.len() ==> value_model(#[trigger] items@[k]) == xs[k],
            header_list_of(xs.take(i as int)) matches Some(acc) && acc == query_view(out@),
        decreases items.len() - i,
    {
        let pair = match v_as_array(&items[i]) {
            Some(p) => p,
            None => {
                proof {
                    assert(value_model(items@[i as int]) == xs[i as int]);
                    lemma_header_list_none(xs, i as int);
                }
                return None;
            },
        };
        if pair.len() != 2 {
            proof {
                assert(value_model(items@[i as int]) == xs[i as int]);
                assert(header_pair_of_json(xs[i as int]) is None);
                lemma_header_list_none(xs, i as int);
            }
            return None;
        }
        let name = match v_as_str(&pair[0]) {
            Some(s) => s,
            None => {
                proof {
                    assert(value_model(items@[i as int]) == xs[i as int]);
                    assert(value_model(pair@[0]) == xs[i as int]->Arr_0[0]);
                    assert(header_pair_of_json(xs[i as int]) is None);
                    lemma_header_list_none(xs, i as int);
                }
                return None;
            },
        };
        let value = match v_as_str(&pair[1]) {
            Some(s) => s,
            None => {
                proof {
                    assert(value_model(items@[i as int]) == xs[i as int]);
                    assert(value_model(pair@[1]) == xs[i as int]->Arr_0[1]);
                    assert(header_pair_of_json(xs[i as int]) is None);
                    lemma_header_list_none(xs, i as int);
                }
                return None;
            },
        };
        out.push((String::from_str(name), String::from_str(value)));
        proof {
            assert(xs.take(i as int + 1).drop_last() =~= xs.take(i as int));
            assert(xs.take(i as int + 1).last() == xs[i as int]);
            assert(query_view(out@) =~= header_list_of(xs.take(i as int + 1))->Some_0);
        }
        i += 1;
    }
    proof {
        assert(xs.take(items@.len() as int) =~= xs);
    }
    Some(out)
}

} // verus!
