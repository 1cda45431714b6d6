//! The headers of a request and what the front end reads from them.
use crate::text::read_header_text;
#[allow(unused_imports)]
use crate::text::{header_text, opt_view};
use vstd::prelude::*;

verus! {

/// A header as it came over the wire. The name is in lower case.
pub struct RawHeader {
    pub name: String,
    pub value: Vec<u8>,
}

/// A header whose value is text.
pub struct Header {
    pub name: String,
    pub value: String,
}

impl View for RawHeader {
    type V = (Seq<char>, Seq<u8>);

    open spec fn view(&self) -> (Seq<char>, Seq<u8>) {
        (self.name@, self.value@)
    }
}

impl View for Header {
    type V = (Seq<char>, Seq<char>);

    open spec fn view(&self) -> (Seq<char>, Seq<char>) {
        (self.name@, self.value@)
    }
}

/// A list of headers by their views.
pub open spec fn raw_headers_view(headers: Seq<RawHeader>) -> Seq<(Seq<char>, Seq<u8>)> {
    headers.map_values(|h: RawHeader| h@)
}

/// A list of text headers by their views.
pub open spec fn headers_view(headers: Seq<Header>) -> Seq<(Seq<char>, Seq<char>)> {
    headers.map_values(|h: Header| h@)
}

/// The value of the first header of a name.
pub open spec fn first_value(headers: Seq<(Seq<char>, Seq<u8>)>, name: Seq<char>) -> Option<Seq<u8>>
    decreases headers.len(),
{
    if headers.len() == 0 {
        None
    } else if headers[0].0 == name {
        Some(headers[0].1)
    } else {
        first_value(headers.drop_first(), name)
    }
}

/// The request ID that a request brings: the first `x-request-id` header, if its value is
/// text.
pub open spec fn given_request_id(headers: Seq<(Seq<char>, Seq<u8>)>) -> Option<Seq<char>> {
    match first_value(headers, "x-request-id"@) {
        Some(value) => header_text(value),
        None => None,
    }
}

/// The headers whose value is text, in their order.
pub open spec fn text_headers(headers: Seq<(Seq<char>, Seq<u8>)>) -> Seq<(Seq<char>, Seq<char>)> {
    headers.filter(|h: (Seq<char>, Seq<u8>)| header_text(h.1) is Some).map_values(
        |h: (Seq<char>, Seq<u8>)| (h.0, header_text(h.1)->0),
    )
}

/// Whether a list of headers announces a disaggregated request.
pub open spec fn announces_disaggregated(headers: Seq<(Seq<char>, Seq<char>)>) -> bool {
    headers.contains(("x-dynamo-routing-mode"@, "disaggregated"@))
}

/// Reads the request ID that a request brings.
pub fn read_request_id(headers: &Vec<RawHeader>) -> (id: Option<String>)
    ensures
        opt_view(id) == given_request_id(raw_headers_view(headers@)),
{
    let name = "x-request-id".to_owned();
    let ghost all = raw_headers_view(headers@);
    assert(all.skip(0) =~= all);
    let mut i: usize = 0;
    while i < headers.len()
        invariant
            i <= headers@.len(),
            all == raw_headers_view(headers@),
            name@ == "x-request-id"@,
            first_value(all, name@) == first_value(all.skip(i as int), name@),
        decreases headers@.len() - i,
    {
        assert(all.skip(i as int)[0] == headers@[i as int]@);
        if headers[i].name == name {
            return read_header_text(headers[i].value.as_slice());
        }
        assert(all.skip(i as int).drop_first() =~= all.skip(i + 1));
        i = i + 1;
    }
    None
}

/// Reads the headers whose value is text.
pub fn read_text_headers(headers: &Vec<RawHeader>) -> (texts: Vec<Header>)
    ensures
        headers_view(texts@) == text_headers(raw_headers_view(headers@)),
{
    let mut texts: Vec<Header> = Vec::new();
    let ghost all = raw_headers_view(headers@);
    let ghost keep = |h: (Seq<char>, Seq<u8>)| header_text(h.1) is Some;
    let ghost read = |h: (Seq<char>, Seq<u8>)| (h.0, header_text(h.1)->0);
    let mut i: usize = 0;
    proof {
        reveal(Seq::filter);
        assert(headers_view(texts@) =~= all.take(0).filter(keep).map_values(read));
    }
    while i < headers.len()
        invariant
            i <= headers@.len(),
            all == raw_headers_view(headers@),
            keep == (|h: (Seq<char>, Seq<u8>)| header_text(h.1) is Some),
            read == (|h: (Seq<char>, Seq<u8>)| (h.0, header_text(h.1)->0)),
            headers_view(texts@) == all.take(i as int).filter(keep).map_values(read),
        decreases headers@.len() - i,
    {
        let ghost before = texts@;
        let ghost entry = headers@[i as int]@;
        match read_header_text(headers[i].value.as_slice()) {
            Some(value) => {
                texts.push(Header { name: headers[i].name.clone(), value });
                assert(headers_view(texts@) =~= headers_view(before).push(read(entry)));
            },
            None => {},
        }
        proof {
            reveal(Seq::filter);
            assert(all.take(i + 1).drop_last() =~= all.take(i as int));
            assert(all.take(i + 1).last() == entry);
            let kept = all.take(i as int).filter(keep);
            if keep(entry) {
                assert(all.take(i + 1).filter(keep) == kept.push(entry));
                assert(kept.push(entry).map_values(read) =~= kept.map_values(read).push(read(entry)));
            }
        }
        i = i + 1;
    }
    assert(all.take(all.len() as int) =~= all);
    texts
}

/// Reads whether a list of headers announces a disaggregated request.
pub fn reads_disaggregated(headers: &Vec<Header>) -> (found: bool)
    ensures
        found == announces_disaggregated(headers_view(headers@)),
{
    let name = "x-dynamo-routing-mode".to_owned();
    let value = "disaggregated".to_owned();
    let ghost all = headers_view(headers@);
    let mut i: usize = 0;
    while i < headers.len()
        invariant
            i <= headers@.len(),
            all == headers_view(headers@),
            name@ == "x-dynamo-routing-mode"@,
            value@ == "disaggregated"@,
            forall|j: int| 0 <= j < i ==> #[trigger] all[j] != (name@, value@),
        decreases headers@.len() - i,
    {
        assert(all[i as int] == headers@[i as int]@);
        if headers[i].name == name && headers[i].value == value {
            return true;
        }
        i = i + 1;
    }
    false
}

/// What a filter keeps stood in the list.
proof fn lemma_kept_is_from_list<A>(list: Seq<A>, keep: spec_fn(A) -> bool, kept: A)
    requires
        list.filter(keep).contains(kept),
    ensures
        list.contains(kept),
    decreases list.len(),
{
    reveal(Seq::filter);
    if list.len() > 0 && !(keep(list.last()) && kept == list.last()) {
        let rest = list.drop_last().filter(keep);
        let j = choose|j: int| 0 <= j < list.filter(keep).len() && list.filter(keep)[j] == kept;
        assert(rest[j] == kept);
        lemma_kept_is_from_list(list.drop_last(), keep, kept);
        let i = choose|i: int| 0 <= i < list.drop_last().len() && list.drop_last()[i] == kept;
        assert(list[i] == kept);
    } else if list.len() > 0 {
        assert(list[list.len() - 1] == kept);
    }
}

/// The headers that are passed on are exactly those that read as text: each is one of the
/// request's with its value read, and each of the request's with a text value is among
/// them.
pub proof fn law_text_headers_are_the_readable_ones(
    headers: Seq<(Seq<char>, Seq<u8>)>,
    name: Seq<char>,
    text: Seq<char>,
)
    ensures
        text_headers(headers).contains((name, text)) <==> exists|value: Seq<u8>|
            #[trigger] headers.contains((name, value)) && header_text(value) == Some(text),
{
    let keep = |h: (Seq<char>, Seq<u8>)| header_text(h.1) is Some;
    let kept = headers.filter(keep);
    broadcast use vstd::seq_lib::group_filter_ensures;

    if text_headers(headers).contains((name, text)) {
        let j = choose|j: int| 0 <= j < text_headers(headers).len() && text_headers(headers)[j] == (name, text);
        assert(kept.contains(kept[j]));
        assert(keep(kept[j]));
        lemma_kept_is_from_list(headers, keep, kept[j]);
        assert(headers.contains((name, kept[j].1)));
    }
    if exists|value: Seq<u8>| #[trigger] headers.contains((name, value)) && header_text(value) == Some(text) {
        let value = choose|value: Seq<u8>|
            #[trigger] headers.contains((name, value)) && header_text(value) == Some(text);
        let i = choose|i: int| 0 <= i < headers.len() && headers[i] == (name, value);
        assert(keep(headers[i]));
        assert(kept.contains(headers[i]));
        let j = choose|j: int| 0 <= j < kept.len() && kept[j] == headers[i];
        assert(text_headers(headers)[j] == (name, text));
    }
}

} // verus!
