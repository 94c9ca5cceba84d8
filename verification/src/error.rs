//! The closed error set of the library. Every failure a reconciliation pass
//! can surface is one of these, carried as a plain value.

use vstd::prelude::*;
use vstd::string::*;

use crate::types::ReferenceKind;

verus! {

/// One variant per failure source: the cluster control plane, the table
/// store, a reference that should have resolved, an unparsable schema, and
/// the table log protocol.
#[derive(Clone, Debug, PartialEq, Eq)]
pub enum Error {
    /// A control-plane call failed.
    Kubernetes { message: String },
    /// A table-store call failed.
    DeltaLake { message: String },
    /// A required ConfigMap or Secret reference did not resolve.
    MissingReference { object: String, kind: ReferenceKind, name: String },
    /// The serialized table schema did not parse.
    SchemaJson { message: String },
    /// The table's log protocol was violated.
    DeltaProtocol { message: String },
}

impl Error {
    /// A human-readable description, in the shape
    /// `Missing reference {kind}/{name} for object {object}` for a missing
    /// reference and `{source kind} error: {message}` otherwise.
    pub fn message(&self) -> (r: String)
        ensures
            (match self {
                Error::Kubernetes { message } => r@ == "Kubernetes error: "@ + message@,
                Error::DeltaLake { message } => r@ == "Deltalake error: "@ + message@,
                Error::MissingReference { object, kind, name } => r@ == "Missing reference "@
                    + (match kind {
                        ReferenceKind::ConfigMap => "ConfigMap"@,
                        ReferenceKind::Secret => "Secret"@,
                    }) + "/"@ + name@ + " for object "@ + object@,
                Error::SchemaJson { message } => r@ == "Invalid schema json: "@ + message@,
                Error::DeltaProtocol { message } => r@ == "Delta protocol error: "@ + message@,
            }),
    {
        match self {
            Error::Kubernetes { message } => {
                let mut r = String::from_str("Kubernetes error: ");
                r.append(message.as_str());
                r
            },
            Error::DeltaLake { message } => {
                let mut r = String::from_str("Deltalake error: ");
                r.append(message.as_str());
                r
            },
            Error::MissingReference { object, kind, name } => {
                let mut r = String::from_str("Missing reference ");
                r.append(kind.as_str());
                r.append("/");
                r.append(name.as_str());
                r.append(" for object ");
                r.append(object.as_str());
                r
            },
            Error::SchemaJson { message } => {
                let mut r = String::from_str("Invalid schema json: ");
                r.append(message.as_str());
                r
            },
            Error::DeltaProtocol { message } => {
                let mut r = String::from_str("Delta protocol error: ");
                r.append(message.as_str());
                r
            },
        }
    }
}

} // verus!
