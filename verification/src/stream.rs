//! The record stream: a single forward pass over the records that a codec
//! reads, bound to one registry.
//!
//! The stream reads nothing itself. Its owner asks the codec for the next
//! raw record while the stream wants one, and hands over what came back.

use vstd::prelude::*;

use crate::model;
use crate::model::RecordView;
use crate::raw::{RawRecord, RawRecordView};
use crate::record::VariantRecord;
use crate::registry::{HeaderRegistry, RegistryView};

verus! {

/// What the codec answered when it was asked for the next record.
#[derive(Debug)]
pub enum DecodeEvent {
    /// The next raw record.
    Record(RawRecord),
    /// There are no more records.
    End,
    /// The codec could not read the next record.
    Failed,
}

/// An answer of the codec as a mathematical value.
pub enum DecodeEventView {
    Record(RawRecordView),
    End,
    Failed,
}

impl View for DecodeEvent {
    type V = DecodeEventView;

    open spec fn view(&self) -> DecodeEventView {
        match self {
            DecodeEvent::Record(raw) => DecodeEventView::Record(raw@),
            DecodeEvent::End => DecodeEventView::End,
            DecodeEvent::Failed => DecodeEventView::Failed,
        }
    }
}

/// The record that an answer of the codec yields under `reg`. The end of the
/// input, a failure of the codec and a malformed raw record all yield none.
pub open spec fn yielded(event: DecodeEventView, reg: RegistryView) -> Option<RecordView> {
    match event {
        DecodeEventView::Record(raw) => model::decode(raw, reg),
        _ => None,
    }
}

/// The state of one pass over the records of a dataset.
#[derive(Debug)]
pub struct RecordStream {
    finished: bool,
}

impl RecordStream {
    /// Whether the pass is over.
    pub closed spec fn finished(&self) -> bool {
        self.finished
    }

    /// A stream at the start of its pass.
    pub fn new() -> (s: RecordStream)
        ensures
            !s.finished(),
    {
        RecordStream { finished: false }
    }

    /// Whether the codec is to be asked for another record.
    pub fn wants_record(&self) -> (r: bool)
        ensures
            r == !self.finished(),
    {
        !self.finished
    }

    /// Takes the codec's answer and gives the next record, or `None` at the
    /// end of the stream. The first answer that yields no record ends the
    /// pass, and a stream whose pass is over gives `None` whatever it is
    /// handed.
    pub fn next(&mut self, registry: &HeaderRegistry, event: DecodeEvent) -> (r: Option<
        VariantRecord,
    >)
        ensures
            old(self).finished() ==> r is None && final(self).finished(),
            !old(self).finished() ==> match yielded(event@, registry@) {
                Some(v) => r matches Some(rec) && rec@ == v && rec.wf() && rec@.valid_for(
                    registry@,
                ) && !final(self).finished(),
                None => r is None && final(self).finished(),
            },
    {
        if self.finished {
            return None;
        }
        match event {
            DecodeEvent::Record(raw) => match VariantRecord::decode(&raw, registry) {
                Ok(rec) => Some(rec),
                Err(_) => {
                    self.finished = true;
                    None
                },
            },
            _ => {
                self.finished = true;
                None
            },
        }
    }
}

} // verus!
