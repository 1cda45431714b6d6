//! What reading and writing numbers, texts and headers comes to, in terms of their
//! characters and bytes.
#[allow(unused_imports)]
use crate::headers::{read_request_id, read_text_headers, reads_disaggregated, Header, RawHeader};
#[allow(unused_imports)]
use crate::headers::{first_value, headers_view, raw_headers_view, text_headers};
#[allow(unused_imports)]
use crate::text::{
    decimal, digits_value, header_text, is_digit, is_text_byte, law_decimal_reads_back, parse_u16, read_header_text,
    write_decimal,
};
use vstd::prelude::*;

verus! {

/// A run of digits stands for a number in base ten: none stands for zero, and each further
/// digit adds its own value to ten times what stands before it.
pub proof fn law_digits_count_by_tens(digits: Seq<char>, digit: char)
    requires
        '0' <= digit <= '9',
    ensures
        digits_value(Seq::<char>::empty()) == 0,
        digits_value(digits.push(digit)) == 10 * digits_value(digits) + (digit as int - 48),
{
    assert(digits.push(digit).drop_last() =~= digits);
    assert('0' as u32 == 48);
}

/// A number above zero is not written with a leading zero.
proof fn lemma_first_digit(n: nat)
    ensures
        n > 0 ==> decimal(n)[0] != '0',
    decreases n,
{
    assert('0' as u32 == 48);
    law_decimal_reads_back(n);
    if n >= 10 {
        law_decimal_reads_back(n / 10);
        lemma_first_digit(n / 10);
        assert(decimal(n)[0] == decimal(n / 10)[0]);
    }
}

/// A number is written with decimal digits that stand for it, and without leading zeros.
pub proof fn law_number_is_written_in_decimal(n: u64, written: String)
    requires
        call_ensures(write_decimal, (n,), written),
    ensures
        written@.len() > 0,
        forall|i: int| 0 <= i < written@.len() ==> '0' <= #[trigger] written@[i] <= '9',
        digits_value(written@) == n,
        written@[0] == '0' ==> n == 0 && written@.len() == 1,
{
    law_decimal_reads_back(n as nat);
    lemma_first_digit(n as nat);
    assert forall|i: int| 0 <= i < written@.len() implies '0' <= #[trigger] written@[i] <= '9' by {
        assert(is_digit(written@[i]));
    }
}

/// A text of decimal digits reads as the number that they stand for, if it is at most 65535,
/// with or without a plus before it.
pub proof fn law_digits_read_as_their_number(digits: Seq<char>, text: &str, read: Option<u16>)
    requires
        call_ensures(parse_u16, (text,), read),
        text@ == digits || text@ == seq!['+'] + digits,
        digits.len() > 0,
        forall|i: int| 0 <= i < digits.len() ==> '0' <= #[trigger] digits[i] <= '9',
    ensures
        digits_value(digits) <= 65535 ==> read is Some && read->0 == digits_value(digits),
        digits_value(digits) > 65535 ==> read is None,
{
    assert forall|i: int| 0 <= i < digits.len() implies is_digit(#[trigger] digits[i]) by {}
    if text@ == digits {
        assert(is_digit(text@[0]));
        assert(text@[0] != '+');
    } else {
        assert(text@[0] == '+');
        assert(text@.drop_first() =~= digits);
    }
}

/// A text with anything else in it than decimal digits and a plus before them, or without a
/// digit, does not read as a number.
pub proof fn law_other_text_is_no_number(text: &str, read: Option<u16>)
    requires
        call_ensures(parse_u16, (text,), read),
        ({
            ||| text@.len() == 0
            ||| text@.len() == 1 && text@[0] == '+'
            ||| exists|i: int|
                0 <= i < text@.len() && !('0' <= #[trigger] text@[i] <= '9') && !(i == 0 && text@[0] == '+')
        }),
    ensures
        read is None,
{
    let digits = if text@.len() > 0 && text@[0] == '+' { text@.drop_first() } else { text@ };
    if exists|i: int| 0 <= i < text@.len() && !('0' <= #[trigger] text@[i] <= '9') && !(i == 0 && text@[0] == '+') {
        let i = choose|i: int|
            0 <= i < text@.len() && !('0' <= #[trigger] text@[i] <= '9') && !(i == 0 && text@[0] == '+');
        if text@[0] == '+' {
            assert(digits[i - 1] == text@[i]);
            assert(!is_digit(digits[i - 1]));
        } else {
            assert(!is_digit(digits[i]));
        }
    }
}

/// What is written as a number of 16 bits reads back as that number.
pub proof fn law_written_number_reads_back(n: u64, written: String, text: &str, read: Option<u16>)
    requires
        call_ensures(write_decimal, (n,), written),
        call_ensures(parse_u16, (text,), read),
        text@ == written@,
    ensures
        n <= 65535 ==> read is Some && read->0 == n,
        n > 65535 ==> read is None,
{
    law_number_is_written_in_decimal(n, written);
    law_digits_read_as_their_number(written@, text, read);
}

/// Whether a byte is a visible character of ASCII, a space or a tab.
pub open spec fn visible(b: u8) -> bool {
    b == 9 || (b >= 32 && b <= 126)
}

/// Whether all bytes of a header value are visible.
pub open spec fn all_visible(bytes: Seq<u8>) -> bool {
    forall|i: int| 0 <= i < bytes.len() ==> visible(#[trigger] bytes[i])
}

/// Whether a text spells out a run of bytes, one character for each.
pub open spec fn spells(text: Seq<char>, bytes: Seq<u8>) -> bool {
    &&& text.len() == bytes.len()
    &&& forall|i: int| 0 <= i < bytes.len() ==> #[trigger] text[i] as int == bytes[i] as int
}

/// A header value is text exactly when all its bytes are visible, and the text then has the
/// character of each byte in its place.
proof fn lemma_header_text(bytes: Seq<u8>)
    ensures
        header_text(bytes) is Some <==> all_visible(bytes),
        header_text(bytes) matches Some(text) ==> spells(text, bytes),
{
    assert forall|i: int| 0 <= i < bytes.len() implies is_text_byte(#[trigger] bytes[i]) == visible(bytes[i]) by {}
    if header_text(bytes) is Some {
        assert(all_visible(bytes));
    }
    if all_visible(bytes) {
        assert(forall|i: int| 0 <= i < bytes.len() ==> is_text_byte(#[trigger] bytes[i]));
    }
}

/// Reading a header value succeeds exactly when all its bytes are visible, and gives the
/// character of each byte in its place.
pub proof fn law_header_value_is_spelled_out(bytes: &[u8], text: Option<String>)
    requires
        call_ensures(read_header_text, (bytes,), text),
    ensures
        text is Some <==> all_visible(bytes@),
        text matches Some(s) ==> spells(s@, bytes@),
{
    lemma_header_text(bytes@);
}

proof fn lemma_first_value(headers: Seq<(Seq<char>, Seq<u8>)>, name: Seq<char>, at: int)
    requires
        0 <= at <= headers.len(),
        forall|i: int| 0 <= i < at ==> (#[trigger] headers[i]).0 != name,
    ensures
        at < headers.len() && headers[at].0 == name ==> first_value(headers, name) == Some(headers[at].1),
        at == headers.len() ==> first_value(headers, name) is None,
    decreases headers.len(),
{
    if headers.len() > 0 && at > 0 {
        assert(headers[0].0 != name);
        let rest = headers.drop_first();
        assert forall|i: int| 0 <= i < at - 1 implies (#[trigger] rest[i]).0 != name by {
            assert(rest[i] == headers[i + 1]);
        }
        if at < headers.len() {
            assert(rest[at - 1] == headers[at]);
        }
        lemma_first_value(rest, name, at - 1);
    }
}

/// The ID that a request brings is the value of its first `x-request-id` header, whatever
/// follows. There is none where that value is not all visible, though a later header of the
/// name had one.
pub proof fn law_first_request_id_counts(headers: &Vec<RawHeader>, at: int, id: Option<String>)
    requires
        call_ensures(read_request_id, (headers,), id),
        0 <= at < headers@.len(),
        headers@[at].name@ == "x-request-id"@,
        forall|i: int| 0 <= i < at ==> (#[trigger] headers@[i]).name@ != "x-request-id"@,
    ensures
        id is Some <==> all_visible(headers@[at].value@),
        id matches Some(s) ==> spells(s@, headers@[at].value@),
{
    let views = raw_headers_view(headers@);
    assert(views[at] == headers@[at]@);
    assert forall|i: int| 0 <= i < at implies (#[trigger] views[i]).0 != "x-request-id"@ by {
        assert(views[i] == headers@[i]@);
    }
    lemma_first_value(views, "x-request-id"@, at);
    lemma_header_text(headers@[at].value@);
}

/// A request without an `x-request-id` header brings no ID.
pub proof fn law_no_request_id_without_its_header(headers: &Vec<RawHeader>, id: Option<String>)
    requires
        call_ensures(read_request_id, (headers,), id),
        forall|i: int| 0 <= i < headers@.len() ==> (#[trigger] headers@[i]).name@ != "x-request-id"@,
    ensures
        id is None,
{
    let views = raw_headers_view(headers@);
    assert forall|i: int| 0 <= i < views.len() implies (#[trigger] views[i]).0 != "x-request-id"@ by {
        assert(views[i] == headers@[i]@);
    }
    lemma_first_value(views, "x-request-id"@, views.len() as int);
}

proof fn lemma_text_headers_push(headers: Seq<(Seq<char>, Seq<u8>)>, last: (Seq<char>, Seq<u8>))
    ensures
        text_headers(headers.push(last)) == (if header_text(last.1) is Some {
            text_headers(headers).push((last.0, header_text(last.1)->0))
        } else {
            text_headers(headers)
        }),
        text_headers(Seq::<(Seq<char>, Seq<u8>)>::empty()) == Seq::<(Seq<char>, Seq<char>)>::empty(),
{
    reveal(Seq::filter);
    let keep = |h: (Seq<char>, Seq<u8>)| header_text(h.1) is Some;
    assert(headers.push(last).drop_last() =~= headers);
    assert(headers.push(last).last() == last);
    if keep(last) {
        assert(headers.push(last).filter(keep) == headers.filter(keep).push(last));
        assert(text_headers(headers.push(last)) =~= text_headers(headers).push((last.0, header_text(last.1)->0)));
    }
    assert(text_headers(Seq::<(Seq<char>, Seq<u8>)>::empty()) =~= Seq::<(Seq<char>, Seq<char>)>::empty());
}

/// A list of headers without any has no text headers.
pub proof fn law_no_text_headers_of_none(headers: &Vec<RawHeader>, texts: Vec<Header>)
    requires
        call_ensures(read_text_headers, (headers,), texts),
        headers@.len() == 0,
    ensures
        texts@.len() == 0,
{
    lemma_text_headers_push(Seq::empty(), (Seq::empty(), Seq::empty()));
    assert(raw_headers_view(headers@) =~= Seq::<(Seq<char>, Seq<u8>)>::empty());
    assert(headers_view(texts@).len() == 0);
}

/// A further header at the end of a list is read as one more text header at the end, under
/// its own name and with its own value, if all of that is visible; otherwise it is left out.
/// What was read of the others stays, in its order.
pub proof fn law_each_readable_header_is_kept(
    headers: &Vec<RawHeader>,
    more: &Vec<RawHeader>,
    last: RawHeader,
    texts: Vec<Header>,
    more_texts: Vec<Header>,
)
    requires
        call_ensures(read_text_headers, (headers,), texts),
        call_ensures(read_text_headers, (more,), more_texts),
        more@ == headers@.push(last),
    ensures
        more_texts@.len() == texts@.len() + (if all_visible(last.value@) {
            1int
        } else {
            0int
        }),
        forall|i: int|
            0 <= i < texts@.len() ==> (#[trigger] more_texts@[i]).name@ == texts@[i].name@ && more_texts@[i].value@
                == texts@[i].value@,
        all_visible(last.value@) ==> more_texts@.last().name@ == last.name@ && spells(
            more_texts@.last().value@,
            last.value@,
        ),
{
    let views = raw_headers_view(headers@);
    assert(raw_headers_view(more@) =~= views.push(last@));
    lemma_text_headers_push(views, last@);
    lemma_header_text(last.value@);
    let read = headers_view(texts@);
    let more_read = headers_view(more_texts@);
    assert(read.len() == texts@.len() && more_read.len() == more_texts@.len());
    assert forall|i: int| 0 <= i < texts@.len() implies (#[trigger] more_texts@[i]).name@ == texts@[i].name@
        && more_texts@[i].value@ == texts@[i].value@ by {
        assert(more_read[i] == read[i]);
        assert(more_read[i] == more_texts@[i]@ && read[i] == texts@[i]@);
    }
    if all_visible(last.value@) {
        assert(more_read.last() == more_texts@.last()@);
    }
}

/// A list of headers announces a disaggregated request exactly when one of them has the name
/// of the routing mode and the value for disaggregation, both to the letter.
pub proof fn law_routing_mode_header_decides(headers: &Vec<Header>, found: bool)
    requires
        call_ensures(reads_disaggregated, (headers,), found),
    ensures
        found <==> exists|i: int|
            0 <= i < headers@.len() && (#[trigger] headers@[i]).name@ == "x-dynamo-routing-mode"@
                && headers@[i].value@ == "disaggregated"@,
{
    let views = headers_view(headers@);
    let wanted = ("x-dynamo-routing-mode"@, "disaggregated"@);
    if found {
        let i = choose|i: int| 0 <= i < views.len() && views[i] == wanted;
        assert(headers@[i].name@ == wanted.0 && headers@[i].value@ == wanted.1);
    }
    if exists|i: int|
        0 <= i < headers@.len() && (#[trigger] headers@[i]).name@ == "x-dynamo-routing-mode"@ && headers@[i].value@
            == "disaggregated"@ {
        let i = choose|i: int|
            0 <= i < headers@.len() && (#[trigger] headers@[i]).name@ == "x-dynamo-routing-mode"@
                && headers@[i].value@ == "disaggregated"@;
        assert(views[i] == wanted);
    }
}

} // verus!
