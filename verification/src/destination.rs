//! Destinations: the named buffers that a document's content is routed into.
//!
//! A destination is made the first time a control word selects it and lasts
//! for the whole conversion. It holds either decoded text or raw bytes, and
//! which of the two is settled when it is made.

use vstd::prelude::*;
use vstd::string::*;
use vstd::utf8::encode_utf8;

use crate::diagnostic::Diagnostic;
use crate::encoding::codepage_of;
use crate::encoding::decoded_text;
use crate::encoding::max_run_len;
use crate::encoding::TextEncoding;
use crate::names::distinct;
use crate::names::lemma_named_item;
use crate::names::lemma_named_push;
use crate::names::lemma_named_update;
use crate::names::named;
use crate::text::bytes_to_vec;
use crate::text::extend_bytes;
use crate::text::str_eq;

verus! {

/// A buffer of content: decoded text, or raw bytes.
#[derive(Debug)]
pub enum Destination {
    Text(String),
    Bytes(Vec<u8>),
}

/// What a destination holds, as mathematical values.
pub enum Content {
    Text(Seq<char>),
    Bytes(Seq<u8>),
}

impl Content {
    /// The content as bytes: text in UTF-8, raw bytes as they are.
    pub open spec fn bytes(self) -> Seq<u8> {
        match self {
            Content::Text(text) => encode_utf8(text),
            Content::Bytes(bytes) => bytes,
        }
    }

    /// An empty buffer of the kind asked for.
    pub open spec fn empty(uses_encoding: bool) -> Content {
        if uses_encoding {
            Content::Text(Seq::empty())
        } else {
            Content::Bytes(Seq::empty())
        }
    }

    /// The content after a run of bytes was written under the given code
    /// page. Raw bytes take the run as it is. Text takes the run decoded, and
    /// stays as it was where no code page is in force.
    pub open spec fn written(self, codepage: Option<u16>, bytes: Seq<u8>) -> Content {
        match self {
            Content::Text(text) => match codepage {
                Some(cp) => Content::Text(text + decoded_text(cp, bytes)),
                None => self,
            },
            Content::Bytes(raw) => Content::Bytes(raw + bytes),
        }
    }

    /// What a write under the given code page has to report: a text buffer
    /// cannot take bytes while no code page is in force.
    pub open spec fn write_diagnostic(self, codepage: Option<u16>) -> Option<Diagnostic> {
        if self is Text && codepage is None {
            Some(Diagnostic::NoEncoding)
        } else {
            None
        }
    }
}

impl View for Destination {
    type V = Content;

    open spec fn view(&self) -> Content {
        match self {
            Destination::Text(text) => Content::Text(text@),
            Destination::Bytes(bytes) => Content::Bytes(bytes@),
        }
    }
}

impl Clone for Destination {
    fn clone(&self) -> (copy: Destination)
        ensures
            copy@ == self@,
    {
        match self {
            Destination::Text(text) => Destination::Text(text.clone()),
            Destination::Bytes(bytes) => Destination::Bytes(bytes_to_vec(bytes.as_slice())),
        }
    }
}

impl Destination {
    /// The content as bytes: text in UTF-8, raw bytes as they are.
    pub fn as_bytes(&self) -> (bytes: &[u8])
        ensures
            bytes@ == self@.bytes(),
    {
        match self {
            Destination::Text(text) => text.as_str().as_bytes(),
            Destination::Bytes(bytes) => bytes.as_slice(),
        }
    }

    /// Appends text to a text buffer.
    pub fn append_text(&mut self, new_text: &str)
        requires
            *old(self) is Text,
        ensures
            final(self)@ == Content::Text(old(self)@->Text_0 + new_text@),
    {
        match self {
            Destination::Text(text) => {
                text.append(new_text);
            },
            // Not reached: the buffer holds text.
            Destination::Bytes(_) => {},
        }
    }

    /// Appends bytes to a buffer of raw bytes.
    pub fn append_bytes(&mut self, new_bytes: &[u8])
        requires
            *old(self) is Bytes,
        ensures
            final(self)@ == Content::Bytes(old(self)@->Bytes_0 + new_bytes@),
    {
        match self {
            Destination::Bytes(bytes) => {
                extend_bytes(bytes, new_bytes);
            },
            // Not reached: the buffer holds raw bytes.
            Destination::Text(_) => {},
        }
    }
}

/// The destinations after one was selected: a name that is new gets an empty
/// buffer of the kind asked for, a name that is known keeps its buffer.
pub open spec fn selected(
    destinations: Map<Seq<char>, Content>,
    name: Seq<char>,
    uses_encoding: bool,
) -> Map<Seq<char>, Content> {
    if destinations.contains_key(name) {
        destinations
    } else {
        destinations.insert(name, Content::empty(uses_encoding))
    }
}

/// The destinations after a run of bytes was written to the one of the given
/// name under the given code page.
pub open spec fn written(
    destinations: Map<Seq<char>, Content>,
    name: Seq<char>,
    codepage: Option<u16>,
    bytes: Seq<u8>,
) -> Map<Seq<char>, Content> {
    if destinations.contains_key(name) {
        destinations.insert(name, destinations[name].written(codepage, bytes))
    } else {
        destinations
    }
}

/// All the destinations of one conversion, each under its name.
pub struct DestinationRegistry {
    names: Vec<String>,
    destinations: Vec<Destination>,
}

impl View for DestinationRegistry {
    type V = Map<Seq<char>, Content>;

    closed spec fn view(&self) -> Map<Seq<char>, Content> {
        named(self.name_seq(), self.content_seq())
    }
}

impl DestinationRegistry {
    spec fn name_seq(&self) -> Seq<Seq<char>> {
        self.names@.map_values(|name: String| name@)
    }

    spec fn content_seq(&self) -> Seq<Content> {
        self.destinations@.map_values(|destination: Destination| destination@)
    }

    /// Every destination has its name, and no name occurs twice.
    pub closed spec fn wf(&self) -> bool {
        &&& self.names@.len() == self.destinations@.len()
        &&& distinct(self.name_seq())
    }

    /// No destinations.
    pub fn new() -> (registry: DestinationRegistry)
        ensures
            registry.wf(),
            registry@ == Map::<Seq<char>, Content>::empty(),
    {
        let registry = DestinationRegistry { names: Vec::new(), destinations: Vec::new() };
        registry
    }

    /// The place of a name in the list.
    fn find(&self, name: &str) -> (found: Option<usize>)
        requires
            self.wf(),
        ensures
            match found {
                Some(i) => {
                    &&& i < self.names@.len()
                    &&& self.name_seq()[i as int] == name@
                    &&& self@.contains_key(name@)
                    &&& self@[name@] == self.destinations@[i as int]@
                },
                None => !self@.contains_key(name@),
            },
    {
        let mut i: usize = 0;
        while i < self.names.len()
            invariant
                i <= self.names@.len(),
                self.wf(),
                forall|j: int| 0 <= j < i ==> self.name_seq()[j] != name@,
            decreases self.names@.len() - i,
        {
            if str_eq(self.names[i].as_str(), name) {
                proof {
                    lemma_named_item(self.name_seq(), self.content_seq(), i as int);
                }
                return Some(i);
            }
            i += 1;
        }
        None
    }

    /// Whether a destination of this name exists.
    pub fn contains(&self, name: &str) -> (known: bool)
        requires
            self.wf(),
        ensures
            known == self@.contains_key(name@),
    {
        self.find(name).is_some()
    }

    /// Selects the destination of the given name, and makes it first where it
    /// does not exist: a text buffer if `uses_encoding`, else raw bytes.
    ///
    /// A destination that exists must be of the kind asked for.
    pub fn select_or_create(&mut self, name: &str, uses_encoding: bool)
        requires
            old(self).wf(),
            old(self)@.contains_key(name@) ==> (old(self)@[name@] is Text <==> uses_encoding),
        ensures
            final(self).wf(),
            final(self)@ == selected(old(self)@, name@, uses_encoding),
    {
        if self.find(name).is_none() {
            proof {
                lemma_named_push(
                    self.name_seq(),
                    self.content_seq(),
                    name@,
                    Content::empty(uses_encoding),
                );
            }
            let ghost names_before = self.name_seq();
            self.names.push(name.to_owned());
            if uses_encoding {
                self.destinations.push(Destination::Text(String::new()));
            } else {
                self.destinations.push(Destination::Bytes(Vec::new()));
            }
            assert(self.name_seq() =~= names_before.push(name@));
        }
    }

    /// Writes a run of bytes to the destination of the given name. Raw bytes
    /// take the run as it is. Text takes the run decoded in `encoding`; where
    /// there is none, the run is dropped and the lack reported.
    pub fn write(
        &mut self,
        name: &str,
        encoding: Option<TextEncoding>,
        bytes: &[u8],
    ) -> (diagnostic: Option<Diagnostic>)
        requires
            old(self).wf(),
            old(self)@.contains_key(name@),
            bytes@.len() <= max_run_len(),
        ensures
            final(self).wf(),
            final(self)@ == written(old(self)@, name@, codepage_of(encoding), bytes@),
            diagnostic == old(self)@[name@].write_diagnostic(codepage_of(encoding)),
    {
        let found = self.find(name);
        let i = found.unwrap();
        proof {
            lemma_named_update(
                self.name_seq(),
                self.content_seq(),
                i as int,
                self.content_seq()[i as int].written(codepage_of(encoding), bytes@),
            );
        }
        let is_text = match &self.destinations[i] {
            Destination::Text(_) => true,
            Destination::Bytes(_) => false,
        };
        if is_text {
            match encoding {
                Some(encoding) => {
                    let text = encoding.decode(bytes);
                    self.destinations[i].append_text(text.as_str());
                    None
                },
                None => Some(Diagnostic::NoEncoding),
            }
        } else {
            self.destinations[i].append_bytes(bytes);
            None
        }
    }

    /// The content of the destination of the given name as bytes, where it
    /// exists.
    pub fn snapshot(&self, name: &str) -> (content: Option<Vec<u8>>)
        requires
            self.wf(),
        ensures
            match content {
                Some(bytes) => self@.contains_key(name@) && bytes@ == self@[name@].bytes(),
                None => !self@.contains_key(name@),
            },
    {
        match self.find(name) {
            Some(i) => Some(bytes_to_vec(self.destinations[i].as_bytes())),
            None => None,
        }
    }
}

} // verus!
