use vstd::prelude::*;
use crate::errors::WinThingError;
use crate::handle::EvtHandle;
use crate::json::{json_model, Json};
use crate::property::extracted;
use crate::tables::{publisher_metadata, publisher_metadata_entries, PROPERTY_ID_END};
use crate::variant::Variant;

verus! {

/// The metadata of one publisher: its name and the handle opened against it.
#[derive(Debug)]
pub struct PublisherMeta {
    pub name: String,
    handle: EvtHandle,
}

/// A publisher record as contracts see it.
pub struct PublisherMetaView {
    pub name: Seq<char>,
    pub token: Option<usize>,
}

impl PublisherMeta {
    /// The native identifier that the record's handle still owns.
    pub open spec fn token(&self) -> Option<usize> {
        self@.token
    }

    pub closed spec fn view(&self) -> PublisherMetaView {
        PublisherMetaView { name: self.name@, token: self.handle.token() }
    }

    /// The publisher's name.
    pub fn name(&self) -> (name: &String)
        ensures
            name@ == self@.name,
    {
        &self.name
    }

    /// Makes the record of the publisher `name` from the answer of the native
    /// call that opened its metadata. A failed open, or a null handle, is the
    /// caller's error to see.
    pub fn new(name: String, opened: Result<usize, u32>) -> (out: Result<Self, WinThingError>)
        ensures
            match out {
                Ok(meta) => meta@.name == name@ && meta.token().is_some() && EvtHandle::opened(opened)
                    == Ok::<usize, WinThingError>(meta.token().unwrap()),
                Err(e) => EvtHandle::opened(opened) == Err::<usize, WinThingError>(e),
            },
    {
        match EvtHandle::open(opened) {
            Ok(handle) => Ok(Self { name, handle }),
            Err(e) => Err(e),
        }
    }

    /// The native identifier to query properties with, while the record is open.
    pub fn raw_handle(&self) -> (raw: Option<usize>)
        ensures
            raw == self.token(),
    {
        self.handle.raw()
    }

    /// Gives up the handle; the caller releases what is returned.
    pub fn close(&mut self) -> (released: Option<usize>)
        ensures
            released == old(self).token(),
            final(self).token().is_none(),
            final(self)@.name == old(self)@.name,
    {
        self.handle.close()
    }

    /// The identifiers of the root properties to query, in table order.
    pub fn property_ids() -> (ids: Vec<u32>)
        ensures
            ids@ =~= seq![0u32, 1, 2, 3, 4, 5, 6, 12, 16, 21, 25],
    {
        let table = publisher_metadata();
        let ids = table.query_ids();
        proof {
            let entries = publisher_metadata_entries();
            assert(entries.len() == 12);
            assert(entries[11].id == PROPERTY_ID_END);
            let n = ids@.len() as int;
            if n > 11 {
                assert(table.entries@[11].id != table.terminator);
            }
            if n < 11 {
                assert(table.entries@[n].id == table.terminator);
            }
        }
        ids
    }

    /// The publisher's root properties as a JSON object, from the replies to
    /// the queries of `property_ids()`, one reply per identifier and in that
    /// order. Properties that could not be read or converted are left out.
    /// The only error is a record whose handle is no longer valid: then
    /// nothing is extracted.
    pub fn to_json_value(&self, replies: &Vec<Result<Variant, WinThingError>>) -> (out: Result<
        serde_json::Value,
        WinThingError,
    >)
        ensures
            match out {
                Ok(mapping) => self.token().is_some() && json_model(mapping) == Json::Object(
                    extracted(publisher_metadata_entries(), PROPERTY_ID_END, replies@),
                ),
                Err(e) => self.token().is_none() && e == WinThingError::InvalidHandle,
            },
    {
        if !self.handle.is_valid() {
            return Err(WinThingError::InvalidHandle);
        }
        let table = publisher_metadata();
        Ok(table.extract(replies))
    }
}

} // verus!
