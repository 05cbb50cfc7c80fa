//! The request data model: method, start line, header block, and body.

use vstd::prelude::*;

use crate::bytes::clone_bytes;
use crate::bytes::find_byte;
use crate::bytes::find_byte_spec;
use crate::text::get_token;
use crate::text::get_token_vec;
use crate::text::post_token;
use crate::text::post_token_vec;
use crate::bytes::bytes_eq;

verus! {

/// A request method. The variant set is closed: an unrecognized token in the
/// start line is a parse failure, not a variant.
#[derive(Clone, Copy, PartialEq, Eq, Structural, Debug)]
pub enum Verb {
    Get,
    Post,
}

/// The method denoted by `s`: the token `GET` or `POST`, or nothing.
pub open spec fn verb_of(s: Seq<u8>) -> Option<Verb> {
    if s == get_token() {
        Some(Verb::Get)
    } else if s == post_token() {
        Some(Verb::Post)
    } else {
        None
    }
}

impl Verb {
    /// Resolves a method token.
    pub fn parse(token: &Vec<u8>) -> (r: Option<Verb>)
        ensures
            r == verb_of(token@),
    {
        let get = get_token_vec();
        if bytes_eq(token, &get) {
            return Some(Verb::Get);
        }
        let post = post_token_vec();
        if bytes_eq(token, &post) {
            return Some(Verb::Post);
        }
        None
    }
}

/// One header field: a name and a value, both trimmed.
#[derive(Debug)]
pub struct Header {
    pub key: Vec<u8>,
    pub value: Vec<u8>,
}

/// The mathematical content of a [`Header`].
pub ghost struct HeaderView {
    pub key: Seq<u8>,
    pub value: Seq<u8>,
}

impl View for Header {
    type V = HeaderView;

    open spec fn view(&self) -> HeaderView {
        HeaderView { key: self.key@, value: self.value@ }
    }
}

impl Header {
    /// Whether `line` can be read as a header field, that is, whether it
    /// holds a colon. The first line that cannot ends the header block.
    pub fn is_header(line: &Vec<u8>) -> (r: bool)
        ensures
            r == (find_byte_spec(line@, 58, 0) is Some),
    {
        find_byte(line, 58, 0).is_some()
    }
}

/// The ordered header block. Insertion order is preserved; lookup by name
/// returns the first match.
#[derive(Debug)]
pub struct Headers(pub Vec<Header>);

impl View for Headers {
    type V = Seq<HeaderView>;

    open spec fn view(&self) -> Seq<HeaderView> {
        self.0@.map_values(|h: Header| h@)
    }
}

/// The value of the first field named `key` at or after position `i`.
pub open spec fn lookup_from(hs: Seq<HeaderView>, key: Seq<u8>, i: int) -> Option<Seq<u8>>
    decreases hs.len() - i,
{
    if i < 0 || i >= hs.len() {
        None
    } else if hs[i].key == key {
        Some(hs[i].value)
    } else {
        lookup_from(hs, key, i + 1)
    }
}

/// The value of the first field named `key`, or nothing. First insertion
/// wins; later duplicates are kept but never returned.
pub open spec fn lookup_spec(hs: Seq<HeaderView>, key: Seq<u8>) -> Option<Seq<u8>> {
    lookup_from(hs, key, 0)
}

proof fn lemma_lookup_skip(hs: Seq<HeaderView>, key: Seq<u8>, i: int)
    requires
        0 <= i <= hs.len(),
        forall|k: int| 0 <= k < i ==> (#[trigger] hs[k]).key != key,
    ensures
        lookup_spec(hs, key) == lookup_from(hs, key, i),
    decreases i,
{
    if i > 0 {
        lemma_lookup_skip(hs, key, i - 1);
    }
}

impl Headers {
    /// An empty header block.
    pub fn new() -> (r: Headers)
        ensures
            r@ == Seq::<HeaderView>::empty(),
    {
        let r = Headers(Vec::new());
        proof {
            assert(r@ =~= Seq::<HeaderView>::empty());
        }
        r
    }

    /// The value of the first field named `key`, or `None`.
    pub fn get(&self, key: &Vec<u8>) -> (r: Option<Vec<u8>>)
        ensures
            match r {
                Some(v) => lookup_spec(self@, key@) == Some(v@),
                None => lookup_spec(self@, key@) is None,
            },
    {
        let mut i: usize = 0;
        while i < self.0.len()
            invariant
                i <= self@.len(),
                self@.len() == self.0@.len(),
                forall|k: int| 0 <= k < i ==> (#[trigger] self@[k]).key != key@,
            decreases self@.len() - i,
        {
            if bytes_eq(&self.0[i].key, key) {
                proof {
                    lemma_lookup_skip(self@, key@, i as int);
                }
                return Some(clone_bytes(&self.0[i].value));
            }
            i += 1;
        }
        proof {
            lemma_lookup_skip(self@, key@, i as int);
        }
        None
    }

    /// Appends a field to the block, behind every existing one.
    pub fn add(&mut self, h: Header)
        ensures
            final(self)@ == old(self)@.push(h@),
    {
        let ghost hv = h@;
        self.0.push(h);
        proof {
            assert(self@ =~= old(self)@.push(hv));
        }
    }
}

/// The first line of a request: its method and its target.
#[derive(Debug)]
pub struct StartLine {
    pub verb: Verb,
    pub path: Vec<u8>,
}

/// A request body: the bytes declared by `Content-Length`.
#[derive(Debug)]
pub struct Body(pub Vec<u8>);

/// One parsed request: start line, header block, optional body.
#[derive(Debug)]
pub struct Request(pub StartLine, pub Headers, pub Option<Body>);

/// The mathematical content of a [`Request`].
pub ghost struct RequestView {
    pub verb: Verb,
    pub path: Seq<u8>,
    pub headers: Seq<HeaderView>,
    pub body: Option<Seq<u8>>,
}

impl View for Request {
    type V = RequestView;

    open spec fn view(&self) -> RequestView {
        RequestView {
            verb: self.0.verb,
            path: self.0.path@,
            headers: self.1@,
            body: match self.2 {
                Some(ref b) => Some(b.0@),
                None => None,
            },
        }
    }
}

} // verus!
