//! The certificate record a successful probe produces: the latest
//! observed TLS certificate state for one host.

use vstd::prelude::*;
use crate::timestamp::{instant_before, UtcInstant};

verus! {

/// The most recently observed TLS certificate state for one host.
#[derive(Debug, PartialEq, Eq)]
pub struct CertificateRecord {
    /// Hostname: the record's unique, stable identity.
    pub name: String,
    /// Start of the certificate's validity window, UTC.
    pub valid_from: UtcInstant,
    /// End of the certificate's validity window, UTC.
    pub valid_to: UtcInstant,
    /// Wall-clock completion time of the probe that produced the record.
    pub updated: UtcInstant,
}

/// The mathematical content of a certificate record.
pub ghost struct RecModel {
    pub name: Seq<char>,
    pub valid_from: UtcInstant,
    pub valid_to: UtcInstant,
    pub updated: UtcInstant,
}

impl RecModel {
    /// Well-formed record content: well-formed instants and an
    /// increasing validity window.
    pub open spec fn wf(self) -> bool {
        &&& self.valid_from.wf()
        &&& self.valid_to.wf()
        &&& self.updated.wf()
        &&& self.valid_from.lt(self.valid_to)
    }
}

impl View for CertificateRecord {
    type V = RecModel;

    open spec fn view(&self) -> RecModel {
        RecModel {
            name: self.name@,
            valid_from: self.valid_from,
            valid_to: self.valid_to,
            updated: self.updated,
        }
    }
}

impl CertificateRecord {
    pub open spec fn wf(self) -> bool {
        self@.wf()
    }

    /// Whether this record is well-formed, decided at run time, for
    /// records that arrive from outside the library (say, loaded back
    /// from durable storage).
    pub fn is_wf(&self) -> (b: bool)
        ensures
            b == self.wf(),
    {
        self.valid_from.is_wf()
            && self.valid_to.is_wf()
            && self.updated.is_wf()
            && instant_before(&self.valid_from, &self.valid_to)
    }
}

} // verus!
