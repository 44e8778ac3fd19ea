//! The state of one group: what is in force between a pair of braces.
//!
//! A group knows which destination its text goes to, which encoding that
//! text is in, the attributes that control words have set, and whether the
//! next control may be skipped if it is not understood. Opening a nested
//! group copies all of this; closing it throws the copy away. The
//! destinations themselves are shared by all groups and outlive them.

use vstd::prelude::*;
use vstd::string::*;

use crate::destination::selected;
use crate::destination::written;
use crate::destination::Content;
use crate::destination::DestinationRegistry;
use crate::diagnostic::Diagnostic;
use crate::encoding::codepage_of;
use crate::encoding::encoding_of;
use crate::encoding::max_run_len;
use crate::encoding::TextEncoding;
use crate::names::distinct;
use crate::names::lemma_named_item;
use crate::names::lemma_named_push;
use crate::names::lemma_named_update;
use crate::names::named;
use crate::text::str_eq;

verus! {

/// What a group holds, as mathematical values.
#[verifier::ext_equal]
pub struct GroupView {
    /// The name of the destination that text goes to, once one is selected.
    pub destination: Option<Seq<char>>,
    /// The code page of the encoding in force, if any.
    pub encoding: Option<u16>,
    /// The attributes that control words have set, by name.
    pub values: Map<Seq<char>, Option<i32>>,
    /// Whether the next control may be skipped if it is not understood.
    pub ignore_next_control: bool,
}

impl GroupView {
    /// A group in which nothing has been set yet.
    pub open spec fn fresh() -> GroupView {
        GroupView {
            destination: None,
            encoding: None,
            values: Map::empty(),
            ignore_next_control: false,
        }
    }

    /// The destinations after this group wrote a run of bytes: the run goes
    /// to the group's destination under the group's encoding; without a
    /// destination it goes nowhere.
    pub open spec fn write(self, destinations: Map<Seq<char>, Content>, bytes: Seq<u8>) -> Map<
        Seq<char>,
        Content,
    > {
        match self.destination {
            Some(name) => written(destinations, name, self.encoding, bytes),
            None => destinations,
        }
    }

    /// What a write by this group has to report: text with nowhere to go, or
    /// text for a text destination while no encoding is in force.
    pub open spec fn write_diagnostic(self, destinations: Map<Seq<char>, Content>) -> Option<
        Diagnostic,
    > {
        match self.destination {
            Some(name) => destinations[name].write_diagnostic(self.encoding),
            None => Some(Diagnostic::TextOutsideGroup),
        }
    }

    /// Whether the destination that this group writes to exists.
    pub open spec fn destination_exists(self, destinations: Map<Seq<char>, Content>) -> bool {
        self.destination matches Some(name) ==> destinations.contains_key(name)
    }
}

/// The state of one group.
pub struct GroupState {
    cur_destination: Option<String>,
    dest_encoding: Option<TextEncoding>,
    value_names: Vec<String>,
    values: Vec<Option<i32>>,
    opt_ignore_next_control: bool,
}

impl View for GroupState {
    type V = GroupView;

    closed spec fn view(&self) -> GroupView {
        GroupView {
            destination: match self.cur_destination {
                Some(name) => Some(name@),
                None => None,
            },
            encoding: codepage_of(self.dest_encoding),
            values: named(self.name_seq(), self.values@),
            ignore_next_control: self.opt_ignore_next_control,
        }
    }
}

impl Clone for GroupState {
    /// A copy for a nested group.
    fn clone(&self) -> (copy: GroupState)
        ensures
            copy@ == self@,
            copy.wf() == self.wf(),
    {
        let cur_destination = match &self.cur_destination {
            Some(name) => Some(name.clone()),
            None => None,
        };
        let mut value_names: Vec<String> = Vec::new();
        let mut i: usize = 0;
        while i < self.value_names.len()
            invariant
                i <= self.value_names@.len(),
                value_names@ == self.value_names@.take(i as int),
            decreases self.value_names@.len() - i,
        {
            value_names.push(self.value_names[i].clone());
            i += 1;
        }
        let mut values: Vec<Option<i32>> = Vec::new();
        let mut k: usize = 0;
        while k < self.values.len()
            invariant
                k <= self.values@.len(),
                values@ == self.values@.take(k as int),
            decreases self.values@.len() - k,
        {
            values.push(self.values[k]);
            k += 1;
        }
        assert(value_names@ =~= self.value_names@);
        assert(values@ =~= self.values@);
        GroupState {
            cur_destination,
            dest_encoding: self.dest_encoding,
            value_names,
            values,
            opt_ignore_next_control: self.opt_ignore_next_control,
        }
    }
}

impl GroupState {
    spec fn name_seq(&self) -> Seq<Seq<char>> {
        self.value_names@.map_values(|name: String| name@)
    }

    /// Every attribute has its name, and no name occurs twice.
    pub closed spec fn wf(&self) -> bool {
        &&& self.value_names@.len() == self.values@.len()
        &&& distinct(self.name_seq())
    }

    /// A group in which nothing has been set yet.
    pub fn new() -> (group: GroupState)
        ensures
            group.wf(),
            group@ == GroupView::fresh(),
    {
        let group = GroupState {
            cur_destination: None,
            dest_encoding: None,
            value_names: Vec::new(),
            values: Vec::new(),
            opt_ignore_next_control: false,
        };
        group
    }

    /// Puts the encoding of a code page in force. A code page without an
    /// encoding leaves none in force.
    pub fn set_codepage(&mut self, cp: u16)
        ensures
            final(self)@ == (GroupView { encoding: encoding_of(cp), ..old(self)@ }),
            final(self).wf() == old(self).wf(),
    {
        self.dest_encoding = TextEncoding::from_codepage(cp);
    }

    /// The encoding in force, if any.
    pub fn get_encoding(&mut self) -> (encoding: Option<TextEncoding>)
        ensures
            codepage_of(encoding) == old(self)@.encoding,
            final(self)@ == old(self)@,
            final(self).wf() == old(self).wf(),
    {
        self.dest_encoding
    }

    /// Puts an encoding in force, or none.
    pub fn set_encoding(&mut self, encoding: Option<TextEncoding>)
        ensures
            final(self)@ == (GroupView { encoding: codepage_of(encoding), ..old(self)@ }),
            final(self).wf() == old(self).wf(),
    {
        self.dest_encoding = encoding;
    }

    /// Makes the destination of the given name the one that this group
    /// writes to, and makes the destination first where it does not exist: a
    /// text buffer if `uses_encoding`, else raw bytes.
    ///
    /// A destination that exists must be of the kind asked for.
    pub fn set_destination(
        &mut self,
        destinations: &mut DestinationRegistry,
        name: &str,
        uses_encoding: bool,
    )
        requires
            old(destinations).wf(),
            old(destinations)@.contains_key(name@) ==> (old(destinations)@[name@] is Text
                <==> uses_encoding),
        ensures
            final(self)@ == (GroupView { destination: Some(name@), ..old(self)@ }),
            final(self).wf() == old(self).wf(),
            final(destinations).wf(),
            final(destinations)@ == selected(old(destinations)@, name@, uses_encoding),
    {
        self.cur_destination = Some(name.to_owned());
        destinations.select_or_create(name, uses_encoding);
    }

    /// The name of the destination that this group writes to, once one is
    /// selected.
    pub fn get_destination_name(&self) -> (name: Option<String>)
        ensures
            match name {
                Some(name) => self@.destination == Some(name@),
                None => self@.destination is None,
            },
    {
        match &self.cur_destination {
            Some(name) => Some(name.clone()),
            None => None,
        }
    }

    /// Writes a run of bytes to this group's destination, under this group's
    /// encoding. Without a destination the run is dropped and reported as
    /// text outside of any group; a text destination without an encoding
    /// drops the run and reports that.
    pub fn write(
        &mut self,
        destinations: &mut DestinationRegistry,
        bytes: &[u8],
    ) -> (diagnostic: Option<Diagnostic>)
        requires
            old(destinations).wf(),
            old(self)@.destination_exists(old(destinations)@),
            bytes@.len() <= max_run_len(),
        ensures
            final(self)@ == old(self)@,
            final(self).wf() == old(self).wf(),
            final(destinations).wf(),
            final(destinations)@ == old(self)@.write(old(destinations)@, bytes@),
            diagnostic == old(self)@.write_diagnostic(old(destinations)@),
    {
        match &self.cur_destination {
            Some(name) => destinations.write(name.as_str(), self.dest_encoding, bytes),
            None => Some(Diagnostic::TextOutsideGroup),
        }
    }

    /// Lets the next control be skipped if it is not understood.
    pub fn set_opt_ignore_next_control(&mut self)
        ensures
            final(self)@ == (GroupView { ignore_next_control: true, ..old(self)@ }),
            final(self).wf() == old(self).wf(),
    {
        self.opt_ignore_next_control = true;
    }

    /// Whether the control at hand may be skipped if it is not understood.
    /// The permission is used up by asking.
    pub fn get_and_clear_ignore_next_control(&mut self) -> (ignore: bool)
        ensures
            ignore == old(self)@.ignore_next_control,
            final(self)@ == (GroupView { ignore_next_control: false, ..old(self)@ }),
            final(self).wf() == old(self).wf(),
    {
        let ignore = self.opt_ignore_next_control;
        self.opt_ignore_next_control = false;
        ignore
    }

    /// Sets the attribute of the given name.
    pub fn set_value(&mut self, name: &str, value: Option<i32>)
        requires
            old(self).wf(),
        ensures
            final(self).wf(),
            final(self)@ == (GroupView {
                values: old(self)@.values.insert(name@, value),
                ..old(self)@
            }),
    {
        let ghost names = self.name_seq();
        let ghost values = self.values@;
        match self.find_value(name) {
            Some(i) => {
                proof {
                    lemma_named_update(names, values, i as int, value);
                }
                self.values[i] = value;
            },
            None => {
                proof {
                    lemma_named_push(names, values, name@, value);
                }
                self.value_names.push(name.to_owned());
                self.values.push(value);
                assert(self.name_seq() =~= names.push(name@));
            },
        }
    }

    /// The attribute of the given name, where it has been set.
    pub fn get_value(&self, name: &str) -> (value: Option<Option<i32>>)
        requires
            self.wf(),
        ensures
            match value {
                Some(v) => self@.values.contains_key(name@) && self@.values[name@] == v,
                None => !self@.values.contains_key(name@),
            },
    {
        match self.find_value(name) {
            Some(i) => Some(self.values[i]),
            None => None,
        }
    }

    /// The place of an attribute in the list.
    fn find_value(&self, name: &str) -> (found: Option<usize>)
        requires
            self.wf(),
        ensures
            match found {
                Some(i) => {
                    &&& i < self.values@.len()
                    &&& self.name_seq()[i as int] == name@
                    &&& self@.values.contains_key(name@)
                    &&& self@.values[name@] == self.values@[i as int]
                },
                None => !self.name_seq().contains(name@),
            },
    {
        let mut i: usize = 0;
        while i < self.value_names.len()
            invariant
                i <= self.value_names@.len(),
                self.wf(),
                forall|j: int| 0 <= j < i ==> self.name_seq()[j] != name@,
            decreases self.value_names@.len() - i,
        {
            if str_eq(self.value_names[i].as_str(), name) {
                proof {
                    lemma_named_item(self.name_seq(), self.values@, i as int);
                }
                return Some(i);
            }
            i += 1;
        }
        None
    }
}

} // verus!
