//! What a handler answers with, and the checks that answer must pass before
//! it may go back to the wire.

use vstd::prelude::*;
use vstd::utf8::*;

verus! {

/// The entries of a header set as plain values: each name with its values.
pub type HeaderEntries = Seq<(Seq<char>, Seq<Seq<char>>)>;

/// Whether some entry carries the name.
pub open spec fn has_name(entries: HeaderEntries, name: Seq<char>) -> bool {
    exists|i: int| 0 <= i < entries.len() && (#[trigger] entries[i]).0 == name
}

/// The position of an entry that carries the name, where there is one.
pub open spec fn position_of(entries: HeaderEntries, name: Seq<char>) -> int {
    choose|i: int| 0 <= i < entries.len() && (#[trigger] entries[i]).0 == name
}

/// Whether no name occurs in two entries.
pub open spec fn distinct_names(entries: HeaderEntries) -> bool {
    forall|i: int, j: int|
        0 <= i < j < entries.len() ==> (#[trigger] entries[i]).0 != (#[trigger] entries[j]).0
}

/// The entries after `name` is set to `values`: an entry that carries the
/// name keeps its place and gets the new values, and a new name goes to the
/// end.
pub open spec fn with_entry(
    entries: HeaderEntries,
    name: Seq<char>,
    values: Seq<Seq<char>>,
) -> HeaderEntries {
    if has_name(entries, name) {
        entries.update(position_of(entries, name), (name, values))
    } else {
        entries.push((name, values))
    }
}

/// The values stored under the name, if any.
pub open spec fn values_of(entries: HeaderEntries, name: Seq<char>) -> Option<Seq<Seq<char>>> {
    if has_name(entries, name) {
        Some(entries[position_of(entries, name)].1)
    } else {
        None
    }
}

/// A name that was set holds the values it was set to, and no name comes to
/// occur twice.
pub proof fn lemma_entry_is_set(entries: HeaderEntries, name: Seq<char>, values: Seq<Seq<char>>)
    requires
        distinct_names(entries),
    ensures
        distinct_names(with_entry(entries, name, values)),
        values_of(with_entry(entries, name, values), name) == Some(values),
{
    let after = with_entry(entries, name, values);
    if has_name(entries, name) {
        let at = position_of(entries, name);
        assert(after[at] == (name, values));
    } else {
        assert(after[entries.len() as int] == (name, values));
    }
    assert(has_name(after, name));
    let found = position_of(after, name);
    assert(after[found].0 == name);
}

/// Setting a name leaves every other name with the values it had.
pub proof fn lemma_other_entries_are_kept(
    entries: HeaderEntries,
    name: Seq<char>,
    values: Seq<Seq<char>>,
    other: Seq<char>,
)
    requires
        distinct_names(entries),
        other != name,
    ensures
        values_of(with_entry(entries, name, values), other) == values_of(entries, other),
{
    let after = with_entry(entries, name, values);
    lemma_entry_is_set(entries, name, values);
    if has_name(entries, other) {
        let at = position_of(entries, other);
        assert(after[at] == entries[at]);
        assert(has_name(after, other));
        let found = position_of(after, other);
        assert(after[found].0 == other);
        assert(found == at);
    } else {
        if has_name(after, other) {
            let found = position_of(after, other);
            assert(after[found].0 == other);
            if found < entries.len() {
                assert(entries[found].0 == other);
            }
            assert(false);
        }
    }
}

/// Whether two strings hold the same text.
fn same_text(a: &str, b: &str) -> (same: bool)
    ensures
        same == (a@ == b@),
{
    let x = a.as_bytes();
    let y = b.as_bytes();
    proof {
        encode_utf8_decode_utf8(a@);
        encode_utf8_decode_utf8(b@);
    }
    if x.len() != y.len() {
        return false;
    }
    let mut i: usize = 0;
    while i < x.len()
        invariant
            i <= x.len(),
            x.len() == y.len(),
            x@ == encode_utf8(a@),
            y@ == encode_utf8(b@),
            forall|k: int| 0 <= k < i ==> x@[k] == y@[k],
        decreases x.len() - i,
    {
        if x[i] != y[i] {
            return false;
        }
        i += 1;
    }
    assert(x@ =~= y@);
    true
}

/// The headers of a handler's response: a mapping from a name to its values
/// in order, which keeps the names in the order they were first set.
#[derive(Debug)]
pub struct Headers {
    entries: Vec<(String, Vec<String>)>,
}

impl View for Headers {
    type V = HeaderEntries;

    closed spec fn view(&self) -> HeaderEntries {
        self.entries.deep_view()
    }
}

impl Headers {
    #[verifier::type_invariant]
    spec fn names_are_distinct(&self) -> bool {
        distinct_names(self.entries.deep_view())
    }

    /// A header set with no entry.
    pub fn new() -> (headers: Headers)
        ensures
            headers@ == HeaderEntries::empty(),
    {
        let headers = Headers { entries: Vec::new() };
        headers
    }

    /// The number of names.
    pub fn len(&self) -> (n: usize)
        ensures
            n == self@.len(),
            distinct_names(self@),
    {
        proof {
            use_type_invariant(self);
        }
        self.entries.len()
    }

    /// The place of the entry that carries the name, or the number of
    /// entries where none does.
    fn find(&self, name: &str) -> (at: usize)
        ensures
            at <= self@.len(),
            at < self@.len() ==> self@[at as int].0 == name@,
            at == self@.len() ==> !has_name(self@, name@),
    {
        let mut at: usize = 0;
        while at < self.entries.len()
            invariant
                at <= self.entries.len(),
                self@.len() == self.entries.len(),
                forall|i: int| 0 <= i < at ==> (#[trigger] self@[i]).0 != name@,
            ensures
                at <= self.entries.len(),
                at < self@.len() ==> self@[at as int].0 == name@,
                forall|i: int| 0 <= i < at ==> (#[trigger] self@[i]).0 != name@,
            decreases self.entries.len() - at,
        {
            if same_text(self.entries[at].0.as_str(), name) {
                break;
            }
            at += 1;
        }
        at
    }

    /// The values stored under the name.
    pub fn get(&self, name: &str) -> (values: Option<&Vec<String>>)
        ensures
            values.deep_view() == values_of(self@, name@),
    {
        proof {
            use_type_invariant(self);
        }
        let at = self.find(name);
        if at < self.entries.len() {
            Some(&self.entries[at].1)
        } else {
            None
        }
    }

    /// Sets the values of a name and returns the values it had before.
    pub fn insert(&mut self, name: String, values: Vec<String>) -> (previous: Option<Vec<String>>)
        ensures
            final(self)@ == with_entry(old(self)@, name@, values.deep_view()),
            previous.deep_view() == values_of(old(self)@, name@),
            distinct_names(final(self)@),
    {
        proof {
            use_type_invariant(&*self);
        }
        let at = self.find(name.as_str());
        let mut entries: Vec<(String, Vec<String>)> = Vec::new();
        core::mem::swap(&mut self.entries, &mut entries);
        let previous = if at < entries.len() {
            let old_entry = entries.remove(at);
            entries.insert(at, (name, values));
            Some(old_entry.1)
        } else {
            entries.push((name, values));
            None
        };
        assert(entries.deep_view() =~= with_entry(old(self)@, name@, values.deep_view()));
        self.entries = entries;
        previous
    }
}

/// A header set whose one entry is the name `ok` with the message as its
/// value.
pub fn build_headers(msg: &str) -> (headers: Headers)
    ensures
        headers@ == seq![("ok"@, seq![msg@])],
{
    let mut headers = Headers::new();
    let mut values: Vec<String> = Vec::new();
    values.push(msg.to_owned());
    assert(values.deep_view() =~= seq![msg@]);
    headers.insert("ok".to_owned(), values);
    headers
}

/// What a handler returns: a status with its reason phrase, the headers, and
/// the body, read to its end.
#[derive(Debug)]
pub struct Response {
    pub status: (u32, &'static str),
    pub headers: Headers,
    pub body: Vec<u8>,
}

/// A response in the form the server sends: a status the protocol knows,
/// one line per header value, and the body.
#[derive(Debug)]
pub struct WireResponse {
    pub status: u16,
    pub headers: Vec<(String, String)>,
    pub body: Vec<u8>,
}

/// A wire response as plain values.
pub ghost struct WireResponseView {
    pub status: int,
    pub headers: Seq<(Seq<char>, Seq<char>)>,
    pub body: Seq<u8>,
}

impl View for WireResponse {
    type V = WireResponseView;

    open spec fn view(&self) -> WireResponseView {
        WireResponseView {
            status: self.status as int,
            headers: self.headers.deep_view(),
            body: self.body@,
        }
    }
}

/// Why a handler's response cannot be sent.
#[derive(Clone, Copy, Debug, PartialEq, Eq, Structural)]
pub enum ValidationFault {
    /// The status is no three-digit code.
    Status,
    /// A header line has a name or a value that cannot be written as a
    /// header field.
    Header,
}

/// The legal status codes: the three-digit numbers.
pub open spec fn is_status_code(code: int) -> bool {
    100 <= code < 1000
}

/// A character that may stand in a header value: a tab, or anything that is
/// neither an ASCII control character nor DEL.
pub open spec fn is_field_char(c: char) -> bool {
    c as u32 == 0x09 || (c as u32 >= 0x20 && c as u32 != 0x7f)
}

/// Whether a string can be written as the value of a header field: it holds
/// no control character but tabs, so no carriage return and no line feed.
pub open spec fn is_field_value(value: Seq<char>) -> bool {
    forall|i: int| 0 <= i < value.len() ==> is_field_char(#[trigger] value[i])
}

/// A character that may stand in a header name: an ASCII letter or digit, or
/// one of ``! " # $ % & ' * + - . ^ _ ` | ~``.
pub open spec fn is_token_char(c: char) -> bool {
    let n = c as u32;
    ||| 0x30 <= n <= 0x39
    ||| 0x41 <= n <= 0x5a
    ||| 0x5e <= n <= 0x7a
    ||| 0x21 <= n <= 0x27
    ||| n == 0x2a
    ||| n == 0x2b
    ||| n == 0x2d
    ||| n == 0x2e
    ||| n == 0x7c
    ||| n == 0x7e
}

/// Whether a string can be written as the name of a header field: between 1
/// and 65535 characters, each of them allowed in a name.
pub open spec fn is_field_name(name: Seq<char>) -> bool {
    &&& 1 <= name.len() <= 65535
    &&& forall|i: int| 0 <= i < name.len() ==> is_token_char(#[trigger] name[i])
}

/// Whether the header lines of one entry can be written: each of its values
/// and, where it has a value, its name.
pub open spec fn is_field_entry(entry: (Seq<char>, Seq<Seq<char>>)) -> bool {
    &&& entry.1.len() > 0 ==> is_field_name(entry.0)
    &&& forall|j: int| 0 <= j < entry.1.len() ==> is_field_value(#[trigger] entry.1[j])
}

/// Whether every header line of a header set can be written.
pub open spec fn are_fields(entries: HeaderEntries) -> bool {
    forall|i: int| 0 <= i < entries.len() ==> is_field_entry(#[trigger] entries[i])
}

/// The header lines of one entry: its name with each of its values.
pub open spec fn lines_of(name: Seq<char>, values: Seq<Seq<char>>) -> Seq<(Seq<char>, Seq<char>)> {
    Seq::new(values.len(), |j: int| (name, values[j]))
}

/// The header lines of a header set, entry by entry.
pub open spec fn lines(entries: HeaderEntries) -> Seq<(Seq<char>, Seq<char>)>
    decreases entries.len(),
{
    if entries.len() == 0 {
        Seq::empty()
    } else {
        lines(entries.drop_last()) + lines_of(entries.last().0, entries.last().1)
    }
}

/// The fault of a response, or `None` where it can be sent.
pub open spec fn fault_of(status: int, entries: HeaderEntries) -> Option<ValidationFault> {
    if !is_status_code(status) {
        Some(ValidationFault::Status)
    } else if !are_fields(entries) {
        Some(ValidationFault::Header)
    } else {
        None
    }
}

/// The wire form of a response that can be sent.
pub open spec fn wire_of(status: int, entries: HeaderEntries, body: Seq<u8>) -> WireResponseView {
    WireResponseView { status, headers: lines(entries), body }
}

/// Whether a wire response can be written out: its status is a status code
/// and each of its header lines is a header field.
pub open spec fn is_sendable(wire: WireResponseView) -> bool {
    &&& is_status_code(wire.status)
    &&& forall|k: int|
        0 <= k < wire.headers.len() ==> is_field_name((#[trigger] wire.headers[k]).0)
            && is_field_value(wire.headers[k].1)
}

/// The header lines of a header set whose entries can all be written are
/// header fields, each of them.
pub proof fn lemma_lines_are_fields(entries: HeaderEntries)
    requires
        are_fields(entries),
    ensures
        forall|k: int|
            0 <= k < lines(entries).len() ==> is_field_name((#[trigger] lines(entries)[k]).0)
                && is_field_value(lines(entries)[k].1),
    decreases entries.len(),
{
    if entries.len() > 0 {
        let front = entries.drop_last();
        let last = entries.last();
        assert forall|i: int| 0 <= i < front.len() implies is_field_entry(#[trigger] front[i]) by {
            assert(is_field_entry(entries[i]));
        }
        lemma_lines_are_fields(front);
        assert(is_field_entry(last));
        assert forall|k: int| 0 <= k < lines(entries).len() implies is_field_name(
            (#[trigger] lines(entries)[k]).0,
        ) && is_field_value(lines(entries)[k].1) by {
            if k >= lines(front).len() {
                let j = k - lines(front).len();
                assert(lines(entries)[k] == (last.0, last.1[j]));
                assert(is_field_value(last.1[j]));
            }
        }
    }
}

/// A response with a carriage return or a line feed in a header value cannot
/// be sent, whatever else it holds.
pub proof fn lemma_line_break_is_a_fault(status: int, entries: HeaderEntries, i: int, j: int, k: int)
    requires
        0 <= i < entries.len(),
        0 <= j < entries[i].1.len(),
        0 <= k < entries[i].1[j].len(),
        entries[i].1[j][k] == '\r' || entries[i].1[j][k] == '\n',
    ensures
        fault_of(status, entries) is Some,
{
}

/// Asks `http::StatusCode::from_u16` whether it takes the code.
///
/// Trusted: it takes exactly the codes from 100 to 999.
#[verifier::external_body]
fn takes_status(code: u16) -> (taken: bool)
    ensures
        taken == is_status_code(code as int),
{
    http::StatusCode::from_u16(code).is_ok()
}

/// Asks `http::header::HeaderName::from_bytes` whether it takes the name.
///
/// Trusted: it takes a name of 1 to 65535 bytes, each of them an ASCII
/// letter, a digit or one of the sixteen marks of a token, and no other. A
/// character outside ASCII is encoded as bytes that it refuses, so the rule
/// reads the same over characters.
#[verifier::external_body]
fn takes_name(name: &str) -> (taken: bool)
    ensures
        taken == is_field_name(name@),
{
    http::header::HeaderName::from_bytes(name.as_bytes()).is_ok()
}

/// Asks `http::HeaderValue::from_str` whether it takes the value.
///
/// Trusted: it refuses a value exactly when one of its bytes is DEL or a
/// control byte other than a tab. The bytes that encode a character outside
/// ASCII are all above DEL, so the rule reads the same over characters.
#[verifier::external_body]
fn takes_value(value: &str) -> (taken: bool)
    ensures
        taken == is_field_value(value@),
{
    http::HeaderValue::from_str(value).is_ok()
}

/// Checks a handler's response and puts it into wire form. The status must
/// be a three-digit code, and every header line must be a header field the
/// protocol can carry; the body passes as it is.
#[verifier::loop_isolation(false)]
pub fn validate(response: Response) -> (result: Result<WireResponse, ValidationFault>)
    ensures
        match result {
            Ok(wire) => {
                &&& fault_of(response.status.0 as int, response.headers@) is None
                &&& wire@ == wire_of(response.status.0 as int, response.headers@, response.body@)
                &&& is_sendable(wire@)
            },
            Err(fault) => fault_of(response.status.0 as int, response.headers@) == Some(fault),
        },
{
    let Response { status, headers, body } = response;
    let code = status.0;
    if code > 0xffff || !takes_status(code as u16) {
        return Err(ValidationFault::Status);
    }
    let entries = &headers.entries;
    let ghost all = headers@;
    let mut sent: Vec<(String, String)> = Vec::new();
    let mut i: usize = 0;
    while i < entries.len()
        invariant
            i <= entries.len(),
            all == entries.deep_view(),
            sent.deep_view() == lines(all.take(i as int)),
            are_fields(all.take(i as int)),
        decreases entries.len() - i,
    {
        let name = &entries[i].0;
        let values = &entries[i].1;
        let ghost before = sent.deep_view();
        if values.len() > 0 && !takes_name(name.as_str()) {
            assert(!is_field_entry(all[i as int]));
            return Err(ValidationFault::Header);
        }
        let mut j: usize = 0;
        while j < values.len()
            invariant
                j <= values.len(),
                sent.deep_view() == before + lines_of(name@, values.deep_view().take(j as int)),
                forall|k: int| 0 <= k < j ==> is_field_value(#[trigger] values.deep_view()[k]),
            decreases values.len() - j,
        {
            let value = &values[j];
            if !takes_value(value.as_str()) {
                assert(!is_field_entry(all[i as int])) by {
                    assert(all[i as int].1[j as int] == value@);
                }
                return Err(ValidationFault::Header);
            }
            let ghost so_far = sent.deep_view();
            sent.push((name.clone(), value.clone()));
            assert(sent.deep_view() =~= so_far.push((name@, value@)));
            j += 1;
        }
        assert(all.take(i as int + 1).drop_last() =~= all.take(i as int));
        i += 1;
    }
    assert(all.take(i as int) =~= all);
    proof {
        lemma_lines_are_fields(all);
    }
    Ok(WireResponse { status: code as u16, headers: sent, body })
}

} // verus!
