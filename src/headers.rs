use vstd::prelude::*;

verus! {

/// One request header as received: its name, and its value as raw bytes.
#[derive(Debug)]
pub struct Header {
    pub name: String,
    pub value: Vec<u8>,
}

/// A byte that a header value may hold and still read as text: a tab or a
/// visible ASCII character.
pub open spec fn is_visible_ascii(b: u8) -> bool {
    (32 <= b && b < 127) || b == 9
}

/// The characters that ASCII bytes stand for.
pub open spec fn ascii_chars(bytes: Seq<u8>) -> Seq<char> {
    bytes.map_values(|b: u8| b as char)
}

/// The text of a header value: its characters where every byte is a tab or
/// visible ASCII, and the empty text otherwise.
pub open spec fn value_text(bytes: Seq<u8>) -> Seq<char> {
    if forall|i: int| 0 <= i < bytes.len() ==> is_visible_ascii(#[trigger] bytes[i]) {
        ascii_chars(bytes)
    } else {
        Seq::empty()
    }
}

/// Relies on http's `HeaderValue::from_bytes`, which accepts exactly the byte
/// strings made of tabs and bytes from 32 up but 127, and on
/// `HeaderValue::to_str`, which then yields the bytes as text exactly when each
/// is a tab or visible ASCII.
#[verifier::external_body]
fn header_value_str(bytes: &[u8]) -> (r: Option<String>)
    ensures
        r is Some <==> forall|i: int| 0 <= i < bytes@.len() ==> is_visible_ascii(#[trigger] bytes@[i]),
        r matches Some(s) ==> s@ == ascii_chars(bytes@),
{
    match axum::http::HeaderValue::from_bytes(bytes) {
        Ok(v) => v.to_str().ok().map(|s| s.to_owned()),
        Err(_) => None,
    }
}

/// The text of a header value, with the empty text for a value that does not
/// read as text.
pub fn header_text(bytes: &Vec<u8>) -> (r: String)
    ensures
        r@ == value_text(bytes@),
{
    match header_value_str(bytes.as_slice()) {
        Some(s) => s,
        None => String::new(),
    }
}

/// The header object of a request: each header name mapped to the text of the
/// value of its last occurrence.
pub open spec fn echo_map(hs: Seq<Header>) -> Map<Seq<char>, Seq<char>>
    decreases hs.len(),
{
    if hs.len() == 0 {
        Map::empty()
    } else {
        echo_map(hs.drop_last()).insert(hs.last().name@, value_text(hs.last().value@))
    }
}

/// The header object of a request has a key for each name that occurs among
/// its headers and no other, and each key's value is the text of the last
/// header of that name.
pub proof fn lemma_echo_map_entries(hs: Seq<Header>)
    ensures
        forall|k: Seq<char>|
            #[trigger] echo_map(hs).contains_key(k) <==> exists|i: int| 0 <= i < hs.len() && (#[trigger] hs[i]).name@ == k,
        forall|i: int|
            0 <= i < hs.len() && (forall|j: int| i < j < hs.len() ==> (#[trigger] hs[j]).name@ != hs[i].name@)
                ==> echo_map(hs)[(#[trigger] hs[i]).name@] == value_text(hs[i].value@),
    decreases hs.len(),
{
    if hs.len() > 0 {
        let pre = hs.drop_last();
        lemma_echo_map_entries(pre);
        assert forall|k: Seq<char>|
            #[trigger] echo_map(hs).contains_key(k) implies exists|i: int| 0 <= i < hs.len() && (#[trigger] hs[i]).name@ == k by {
            if k != hs.last().name@ {
                assert(echo_map(pre).contains_key(k));
                let i = choose|i: int| 0 <= i < pre.len() && (#[trigger] pre[i]).name@ == k;
                assert(hs[i] == pre[i]);
            } else {
                assert(hs[hs.len() - 1].name@ == k);
            }
        }
        assert forall|k: Seq<char>|
            (exists|i: int| 0 <= i < hs.len() && (#[trigger] hs[i]).name@ == k) implies #[trigger] echo_map(hs).contains_key(k) by {
            let i = choose|i: int| 0 <= i < hs.len() && (#[trigger] hs[i]).name@ == k;
            if i < pre.len() {
                assert(pre[i] == hs[i]);
                assert(echo_map(pre).contains_key(k));
            }
        }
        assert forall|i: int|
            0 <= i < hs.len() && (forall|j: int| i < j < hs.len() ==> (#[trigger] hs[j]).name@ != hs[i].name@)
                implies echo_map(hs)[(#[trigger] hs[i]).name@] == value_text(hs[i].value@) by {
            if i < pre.len() {
                assert(pre[i] == hs[i]);
                assert(hs[hs.len() - 1].name@ != hs[i].name@);
                assert forall|j: int| i < j < pre.len() implies (#[trigger] pre[j]).name@ != pre[i].name@ by {
                    assert(pre[j] == hs[j]);
                }
                assert(echo_map(pre)[pre[i].name@] == value_text(pre[i].value@));
            }
        }
    }
}

/// No name occurs twice in a listing.
pub open spec fn unique_names(v: Seq<(String, String)>) -> bool {
    forall|i: int, j: int|
        0 <= i < v.len() && 0 <= j < v.len() && i != j ==> (#[trigger] v[i]).0@ != (#[trigger] v[j]).0@
}

/// A listing of name/value pairs holds exactly the entries of `m`, each once.
pub open spec fn lists_map(v: Seq<(String, String)>, m: Map<Seq<char>, Seq<char>>) -> bool {
    &&& unique_names(v)
    &&& forall|i: int|
        0 <= i < v.len() ==> m.contains_key((#[trigger] v[i]).0@) && m[v[i].0@] == v[i].1@
    &&& forall|k: Seq<char>| #[trigger] m.contains_key(k) ==> exists|i: int| 0 <= i < v.len() && (#[trigger] v[i]).0@ == k
}

/// Flattens a request's headers into unique names, the last occurrence of a
/// name giving its value.
pub fn flatten_headers(headers: &Vec<Header>) -> (r: Vec<(String, String)>)
    ensures
        lists_map(r@, echo_map(headers@)),
{
    let mut out: Vec<(String, String)> = Vec::new();
    let mut n: usize = 0;
    while n < headers.len()
        invariant
            n <= headers@.len(),
            lists_map(out@, echo_map(headers@.take(n as int))),
        decreases headers@.len() - n,
    {
        let h = &headers[n];
        let text = header_text(&h.value);
        let ghost before = out@;
        let ghost m = echo_map(headers@.take(n as int));
        assert(headers@.take(n as int + 1).drop_last() == headers@.take(n as int));
        let mut j: usize = 0;
        let mut found = false;
        while j < out.len()
            invariant
                j <= out@.len(),
                out@ == before,
                !found ==> forall|i: int| 0 <= i < j ==> (#[trigger] out@[i]).0@ != h.name@,
                found ==> j < out@.len() && out@[j as int].0@ == h.name@,
            ensures
                j <= out@.len(),
                out@ == before,
                !found ==> j == out@.len() && forall|i: int| 0 <= i < j ==> (#[trigger] out@[i]).0@ != h.name@,
                found ==> j < out@.len() && out@[j as int].0@ == h.name@,
            decreases out@.len() - j + (if found { 0int } else { 1int }),
        {
            if out[j].0 == h.name {
                found = true;
                break;
            }
            j = j + 1;
        }
        proof {
            assert(echo_map(headers@.take(n as int + 1)) == m.insert(h.name@, text@));
        }
        if found {
            let name = out[j].0.clone();
            out.set(j, (name, text));
            proof {
                let m2 = m.insert(h.name@, text@);
                assert forall|i: int| 0 <= i < out@.len() implies m2.contains_key((#[trigger] out@[i]).0@)
                    && m2[out@[i].0@] == out@[i].1@ by {
                    if i != j {
                        assert(out@[i] == before[i]);
                        assert(before[i].0@ != before[j as int].0@);
                    }
                }
                assert forall|a: int, b: int|
                    0 <= a < out@.len() && 0 <= b < out@.len() && a != b implies (#[trigger] out@[a]).0@
                    != (#[trigger] out@[b]).0@ by {
                    assert(before[a].0@ != before[b].0@);
                }
                assert forall|k: Seq<char>| #[trigger] m2.contains_key(k) implies exists|i: int|
                    0 <= i < out@.len() && (#[trigger] out@[i]).0@ == k by {
                    if k != h.name@ {
                        let i = choose|i: int| 0 <= i < before.len() && (#[trigger] before[i]).0@ == k;
                        assert(out@[i] == before[i]);
                    } else {
                        assert(out@[j as int].0@ == k);
                    }
                }
            }
        } else {
            assert(forall|i: int| 0 <= i < before.len() ==> (#[trigger] before[i]).0@ != h.name@);
            out.push((h.name.clone(), text));
            proof {
                let m2 = m.insert(h.name@, text@);
                assert forall|k: Seq<char>| #[trigger] m2.contains_key(k) implies exists|i: int|
                    0 <= i < out@.len() && (#[trigger] out@[i]).0@ == k by {
                    if k != h.name@ {
                        let i = choose|i: int| 0 <= i < before.len() && (#[trigger] before[i]).0@ == k;
                        assert(out@[i] == before[i]);
                    } else {
                        assert(out@[before.len() as int].0@ == k);
                    }
                }
                assert forall|i: int| 0 <= i < out@.len() implies m2.contains_key((#[trigger] out@[i]).0@)
                    && m2[out@[i].0@] == out@[i].1@ by {
                    if i < before.len() {
                        assert(out@[i] == before[i]);
                    }
                }
                assert forall|a: int, b: int|
                    0 <= a < out@.len() && 0 <= b < out@.len() && a != b implies (#[trigger] out@[a]).0@
                    != (#[trigger] out@[b]).0@ by {
                    if a < before.len() && b < before.len() {
                        assert(before[a].0@ != before[b].0@);
                    } else if a < before.len() {
                        assert(before[a].0@ != h.name@);
                    } else {
                        assert(before[b].0@ != h.name@);
                    }
                }
            }
        }
        n = n + 1;
    }
    assert(headers@.take(headers@.len() as int) == headers@);
    out
}

} // verus!
