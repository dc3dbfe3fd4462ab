//! Plain result records for receive operations, made from what the kernel wrote.
use vstd::prelude::*;
use crate::codes::{ERROR_MORE_DATA, NO_ERROR};

verus! {

/// A length-prefixed text field as the kernel wrote it: its declared length, and its
/// text where it could be decoded.
pub struct RawField {
    pub length: u32,
    pub text: Option<String>,
}

/// A request head as the kernel wrote it into the buffer.
pub struct RawHead {
    pub id: u64,
    pub verb: u32,
    pub major: u16,
    pub minor: u16,
    pub custom_verb: RawField,
    pub url: RawField,
    /// The well-known header slots, by slot index.
    pub known: Vec<RawField>,
    /// The other headers, as name and value.
    pub unknown: Vec<(RawField, RawField)>,
}

/// A field's text, when it is present: a nonzero length and decodable text.
pub open spec fn field_text(f: RawField) -> Option<Seq<char>> {
    if f.length > 0 && f.text is Some {
        Some(f.text.unwrap()@)
    } else {
        None
    }
}

pub enum HeaderKey {
    /// A well-known header slot.
    Known(u32),
    /// A header named by the client.
    Custom(String),
}

pub enum HeaderKeyView {
    Known(u32),
    Custom(Seq<char>),
}

impl View for HeaderKey {
    type V = HeaderKeyView;

    open spec fn view(&self) -> HeaderKeyView {
        match self {
            HeaderKey::Known(i) => HeaderKeyView::Known(*i),
            HeaderKey::Custom(s) => HeaderKeyView::Custom(s@),
        }
    }
}

pub struct Header {
    pub key: HeaderKey,
    pub value: String,
}

pub struct HeaderView {
    pub key: HeaderKeyView,
    pub value: Seq<char>,
}

impl View for Header {
    type V = HeaderView;

    open spec fn view(&self) -> HeaderView {
        HeaderView { key: self.key@, value: self.value@ }
    }
}

pub open spec fn headers_view(v: Seq<Header>) -> Seq<HeaderView> {
    v.map_values(|h: Header| h@)
}

/// The present well-known headers among the first `n` slots, in slot order.
pub open spec fn known_headers(known: Seq<RawField>, n: nat) -> Seq<HeaderView>
    decreases n,
{
    if n == 0 || n > known.len() {
        seq![]
    } else {
        let p = known_headers(known, (n - 1) as nat);
        match field_text(known[n - 1]) {
            Some(v) => p.push(HeaderView { key: HeaderKeyView::Known((n - 1) as u32), value: v }),
            None => p,
        }
    }
}

/// The other headers among the first `n` whose name and value are both present.
pub open spec fn custom_headers(unknown: Seq<(RawField, RawField)>, n: nat) -> Seq<HeaderView>
    decreases n,
{
    if n == 0 || n > unknown.len() {
        seq![]
    } else {
        let p = custom_headers(unknown, (n - 1) as nat);
        let (name, value) = unknown[n - 1];
        if field_text(name) is Some && field_text(value) is Some {
            p.push(
                HeaderView {
                    key: HeaderKeyView::Custom(field_text(name).unwrap()),
                    value: field_text(value).unwrap(),
                },
            )
        } else {
            p
        }
    }
}

/// A fully received request head.
pub struct RequestHead {
    pub verb: u32,
    pub major: u16,
    pub minor: u16,
    pub custom_verb: Option<String>,
    pub url: Option<String>,
    pub headers: Vec<Header>,
}

pub struct RequestHeadView {
    pub verb: u32,
    pub major: u16,
    pub minor: u16,
    pub custom_verb: Option<Seq<char>>,
    pub url: Option<Seq<char>>,
    pub headers: Seq<HeaderView>,
}

pub open spec fn opt_view(s: Option<String>) -> Option<Seq<char>> {
    match s {
        Some(t) => Some(t@),
        None => None,
    }
}

impl View for RequestHead {
    type V = RequestHeadView;

    open spec fn view(&self) -> RequestHeadView {
        RequestHeadView {
            verb: self.verb,
            major: self.major,
            minor: self.minor,
            custom_verb: opt_view(self.custom_verb),
            url: opt_view(self.url),
            headers: headers_view(self.headers@),
        }
    }
}

/// What a head receive resolves to: its code, whether a retry with a larger buffer
/// must follow, the request id (on success and on "more data"), and the head (on
/// full success).
pub struct HeadResult {
    pub code: u32,
    pub more: bool,
    pub id: Option<u64>,
    pub head: Option<RequestHead>,
}

pub struct HeadResultView {
    pub code: u32,
    pub more: bool,
    pub id: Option<u64>,
    pub head: Option<RequestHeadView>,
}

impl View for HeadResult {
    type V = HeadResultView;

    open spec fn view(&self) -> HeadResultView {
        HeadResultView {
            code: self.code,
            more: self.more,
            id: self.id,
            head: match self.head {
                Some(h) => Some(h@),
                None => None,
            },
        }
    }
}

pub open spec fn head_of(raw: RawHead) -> RequestHeadView {
    RequestHeadView {
        verb: raw.verb,
        major: raw.major,
        minor: raw.minor,
        custom_verb: field_text(raw.custom_verb),
        url: field_text(raw.url),
        headers: known_headers(raw.known@, raw.known@.len())
            + custom_headers(raw.unknown@, raw.unknown@.len()),
    }
}

pub open spec fn head_result_of(code: u32, raw: RawHead) -> HeadResultView {
    if code == NO_ERROR {
        HeadResultView { code, more: false, id: Some(raw.id), head: Some(head_of(raw)) }
    } else if code == ERROR_MORE_DATA {
        HeadResultView { code, more: true, id: Some(raw.id), head: None }
    } else {
        HeadResultView { code, more: false, id: None, head: None }
    }
}

fn field_string(f: &RawField) -> (r: Option<String>)
    ensures
        opt_view(r) == field_text(*f),
{
    if f.length > 0 {
        match &f.text {
            Some(t) => Some(t.clone()),
            None => None,
        }
    } else {
        None
    }
}

/// Turns what a head receive settled with into its result record. On "more data"
/// only the code, the retry flag and the request id are given; on any other
/// failure only the code and the flag.
pub fn head_result(code: u32, raw: &RawHead) -> (r: HeadResult)
    ensures
        r@ == head_result_of(code, *raw),
{
    if code == NO_ERROR {
        let mut headers: Vec<Header> = Vec::new();
        let mut i: usize = 0;
        while i < raw.known.len()
            invariant
                i <= raw.known@.len(),
                headers_view(headers@) == known_headers(raw.known@, i as nat),
            decreases raw.known@.len() - i,
        {
            let ghost before = headers@;
            match field_string(&raw.known[i]) {
                Some(v) => {
                    headers.push(Header { key: HeaderKey::Known(i as u32), value: v });
                    assert(headers_view(headers@) =~= headers_view(before).push(
                        HeaderView { key: HeaderKeyView::Known(i as u32), value: v@ },
                    ));
                },
                None => {},
            }
            i = i + 1;
        }
        let mut j: usize = 0;
        while j < raw.unknown.len()
            invariant
                i == raw.known@.len(),
                j <= raw.unknown@.len(),
                headers_view(headers@) == known_headers(raw.known@, i as nat) + custom_headers(
                    raw.unknown@,
                    j as nat,
                ),
            decreases raw.unknown@.len() - j,
        {
            let ghost before = headers@;
            let name = field_string(&raw.unknown[j].0);
            let value = field_string(&raw.unknown[j].1);
            match (name, value) {
                (Some(n), Some(v)) => {
                    let ghost hv = HeaderView { key: HeaderKeyView::Custom(n@), value: v@ };
                    headers.push(Header { key: HeaderKey::Custom(n), value: v });
                    assert(headers_view(headers@) =~= headers_view(before).push(hv));
                },
                _ => {},
            }
            j = j + 1;
            assert(headers_view(headers@) =~= known_headers(raw.known@, i as nat)
                + custom_headers(raw.unknown@, j as nat));
        }
        let head = RequestHead {
            verb: raw.verb,
            major: raw.major,
            minor: raw.minor,
            custom_verb: field_string(&raw.custom_verb),
            url: field_string(&raw.url),
            headers,
        };
        HeadResult { code, more: false, id: Some(raw.id), head: Some(head) }
    } else if code == ERROR_MORE_DATA {
        HeadResult { code, more: true, id: Some(raw.id), head: None }
    } else {
        HeadResult { code, more: false, id: None, head: None }
    }
}

impl HeadResult {
    /// The request id to reissue the receive with, when a larger buffer is needed.
    pub fn retry_id(&self) -> (r: Option<u64>)
        ensures
            r == if self.more { self.id } else { None::<u64> },
    {
        if self.more {
            self.id
        } else {
            None
        }
    }
}

/// A "more data" head names the request that a retry continues; a successful retry
/// of that request keeps its id and needs no further retry.
pub proof fn lemma_head_retry(first: RawHead, second: RawHead)
    requires
        second.id == first.id,
    ensures
        head_result_of(ERROR_MORE_DATA, first).more,
        head_result_of(ERROR_MORE_DATA, first).id == Some(first.id),
        head_result_of(NO_ERROR, second).id == head_result_of(ERROR_MORE_DATA, first).id,
        !head_result_of(NO_ERROR, second).more,
        head_result_of(NO_ERROR, second).head == Some(head_of(second)),
{
}

/// What a body receive resolves to: its code, whether a larger buffer is needed,
/// and on success (or "more data") the bytes transferred and a copy of them.
pub struct BodyResult {
    pub code: u32,
    pub more: bool,
    pub size: Option<u32>,
    pub data: Option<Vec<u8>>,
}

pub open spec fn carries_payload(code: u32) -> bool {
    code == NO_ERROR || code == ERROR_MORE_DATA
}

/// Turns what a body receive settled with into its result record; `data` is the
/// first `bytes` bytes of the buffer the kernel wrote.
pub fn body_result(code: u32, bytes: u32, buffer: &[u8]) -> (r: BodyResult)
    requires
        carries_payload(code) ==> bytes <= buffer@.len(),
    ensures
        r.code == code,
        r.more == (code == ERROR_MORE_DATA),
        r.size == if carries_payload(code) { Some(bytes) } else { None::<u32> },
        r.data is Some == carries_payload(code),
        r.data is Some ==> r.data.unwrap()@ == buffer@.subrange(0, bytes as int),
{
    if code == NO_ERROR || code == ERROR_MORE_DATA {
        let mut data: Vec<u8> = Vec::new();
        let mut i: usize = 0;
        while i < bytes as usize
            invariant
                i <= bytes,
                bytes <= buffer@.len(),
                data@ == buffer@.subrange(0, i as int),
            decreases bytes - i,
        {
            data.push(buffer[i]);
            i = i + 1;
            assert(data@ =~= buffer@.subrange(0, i as int));
        }
        BodyResult { code, more: code == ERROR_MORE_DATA, size: Some(bytes), data: Some(data) }
    } else {
        BodyResult { code, more: false, size: None, data: None }
    }
}

impl BodyResult {
    /// A successful receive of zero bytes: the body has been read to its end.
    pub fn is_end(&self) -> (r: bool)
        ensures
            r == (self.code == NO_ERROR && self.size == Some(0u32)),
    {
        self.code == NO_ERROR && match self.size {
            Some(n) => n == 0,
            None => false,
        }
    }
}

pub struct BodyProgress {
    pub id: u64,
    pub received: nat,
    pub ended: bool,
}

/// The progress after one settled body receive of `size` bytes with `code`.
pub open spec fn body_step(p: BodyProgress, code: u32, size: u32) -> BodyProgress {
    if p.ended {
        p
    } else if code == NO_ERROR && size == 0 {
        BodyProgress { ended: true, ..p }
    } else if carries_payload(code) {
        BodyProgress { received: p.received + size as nat, ..p }
    } else {
        p
    }
}

pub open spec fn body_run(p: BodyProgress, results: Seq<(u32, u32)>) -> BodyProgress
    decreases results.len(),
{
    if results.len() == 0 {
        p
    } else {
        body_run(body_step(p, results[0].0, results[0].1), results.drop_first())
    }
}

/// Follows the body of one request: bytes received so far, and whether its end
/// was seen.
pub struct BodyReader {
    id: u64,
    received: u64,
    ended: bool,
}

impl View for BodyReader {
    type V = BodyProgress;

    closed spec fn view(&self) -> BodyProgress {
        BodyProgress { id: self.id, received: self.received as nat, ended: self.ended }
    }
}

impl BodyReader {
    pub fn new(id: u64) -> (r: BodyReader)
        ensures
            r@ == (BodyProgress { id, received: 0, ended: false }),
    {
        BodyReader { id, received: 0, ended: false }
    }

    /// The request id to issue the next body receive with; `None` once the end of
    /// the body was seen.
    pub fn next(&self) -> (r: Option<u64>)
        ensures
            r == if self@.ended { None::<u64> } else { Some(self@.id) },
    {
        if self.ended {
            None
        } else {
            Some(self.id)
        }
    }

    pub fn received(&self) -> (r: u64)
        ensures
            r == self@.received,
    {
        self.received
    }

    /// Records a settled body receive.
    pub fn record(&mut self, code: u32, size: u32)
        requires
            old(self)@.received + size <= u64::MAX,
        ensures
            final(self)@ == body_step(old(self)@, code, size),
    {
        if !self.ended {
            if code == NO_ERROR && size == 0 {
                self.ended = true;
            } else if code == NO_ERROR || code == ERROR_MORE_DATA {
                self.received = self.received + size as u64;
            }
        }
    }
}

/// Once a body receive settles with code 0 and zero bytes, the body is over: no
/// later result adds bytes for that request, and no further receive is issued.
pub proof fn lemma_body_end(p: BodyProgress, later: Seq<(u32, u32)>)
    ensures
        body_step(p, NO_ERROR, 0).ended,
        body_run(body_step(p, NO_ERROR, 0), later) == body_step(p, NO_ERROR, 0),
        body_step(p, NO_ERROR, 0).received == p.received,
    decreases later.len(),
{
    lemma_ended_stays(body_step(p, NO_ERROR, 0), later);
}

proof fn lemma_ended_stays(p: BodyProgress, later: Seq<(u32, u32)>)
    requires
        p.ended,
    ensures
        body_run(p, later) == p,
    decreases later.len(),
{
    if later.len() > 0 {
        lemma_ended_stays(body_step(p, later[0].0, later[0].1), later.drop_first());
    }
}

} // verus!
