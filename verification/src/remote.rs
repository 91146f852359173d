//! What a fetch hands to the dashboard: the data or an error, stamped with
//! the time of capture and tagged with the part of the dashboard that asked.

use crate::application::{application_views, Application, ApplicationView};
use crate::timestamp::{age_label, Timestamp};
use vstd::prelude::*;
use vstd::string::*;

verus! {

/// The payload of a fetch.
#[derive(Debug, PartialEq, Eq)]
pub enum Data {
    Application(Vec<Application>),
    Error(String),
}

/// What a [`Data`] holds, as plain values.
pub enum DataView {
    Application(Seq<ApplicationView>),
    Error(Seq<char>),
}

impl View for Data {
    type V = DataView;

    open spec fn view(&self) -> DataView {
        match self {
            Data::Application(apps) => DataView::Application(application_views(apps@)),
            Data::Error(message) => DataView::Error(message@),
        }
    }
}

impl Clone for Data {
    fn clone(&self) -> (copy: Self)
        ensures
            copy@ == self@,
    {
        match self {
            Data::Application(apps) => {
                let copy = apps.clone();
                assert(application_views(copy@) =~= application_views(apps@));
                Data::Application(copy)
            },
            Data::Error(message) => Data::Error(message.clone()),
        }
    }
}

/// A payload with the time it was captured at and the origin that asked
/// for it.
#[derive(Debug, PartialEq, Eq)]
pub struct RemoteData {
    pub data: Data,
    pub updated_at: Timestamp,
    pub origin: String,
}

/// What a [`RemoteData`] holds, as plain values.
pub struct RemoteDataView {
    pub data: DataView,
    pub updated_at: Timestamp,
    pub origin: Seq<char>,
}

impl View for RemoteData {
    type V = RemoteDataView;

    open spec fn view(&self) -> RemoteDataView {
        RemoteDataView { data: self.data@, updated_at: self.updated_at, origin: self.origin@ }
    }
}

impl Clone for RemoteData {
    fn clone(&self) -> (copy: Self)
        ensures
            copy@ == self@,
    {
        RemoteData {
            data: self.data.clone(),
            updated_at: self.updated_at,
            origin: self.origin.clone(),
        }
    }
}

impl RemoteData {
    /// Stamps `data` with the current time of the system clock.
    pub fn new(data: Data, origin: &str) -> (remote: Self)
        ensures
            remote.data == data,
            remote.origin@ == origin@,
    {
        Self { data, updated_at: Timestamp::now(), origin: String::from_str(origin) }
    }

    /// The age of the data as seen at `dt`, in words. The data and the time
    /// of capture stay as they are.
    pub fn generate_update_label(&self, dt: i64) -> (label: String)
        ensures
            label@ == age_label(self.updated_at.elapsed(dt)),
    {
        self.updated_at.to_string_with_dt(dt)
    }
}

/// An entry of the error log.
#[derive(Debug, PartialEq, Eq)]
pub struct ErrorEntry {
    pub error: String,
    pub ts: Timestamp,
}

/// What an [`ErrorEntry`] holds, as plain values.
pub struct ErrorEntryView {
    pub error: Seq<char>,
    pub ts: Timestamp,
}

impl View for ErrorEntry {
    type V = ErrorEntryView;

    open spec fn view(&self) -> ErrorEntryView {
        ErrorEntryView { error: self.error@, ts: self.ts }
    }
}

impl Clone for ErrorEntry {
    fn clone(&self) -> (copy: Self)
        ensures
            copy == *self,
    {
        ErrorEntry { error: self.error.clone(), ts: self.ts }
    }
}

impl ErrorEntry {
    /// An entry for `e`, stamped with the current time of the system clock.
    pub fn new(e: &str) -> (entry: Self)
        ensures
            entry.error@ == e@,
    {
        Self { error: String::from_str(e), ts: Timestamp::now() }
    }
}

/// The views of the entries of an error log, in the log's order.
pub open spec fn error_views(log: Seq<ErrorEntry>) -> Seq<ErrorEntryView> {
    log.map_values(|entry: ErrorEntry| entry@)
}

} // verus!
