//! Charge-point side of the OCPP 1.6 session protocol for one connector of an
//! electric-vehicle charging station.
//!
//! The crate keeps the session state of the connector (authorization,
//! transaction, reservation, charger status), validates every operation on it,
//! and maps between the charging-domain model and the OCPP vocabulary.
//! Every operation is a function from the current state and an inbound message
//! to the next state, the answer for the caller, and the requests and events
//! that the surrounding service has to deliver.
//!
//! - `manager` holds the session state and its operations, stated over a
//!   model of the session, with the laws that hold of every session.
//! - `frontend`, `backend` and `charger` hold the verbs: what a message of a
//!   local service, of the backend or of a charger leads to.
//! - `ocpp_types`, `chmgr_types`, `engy_types` and `auth_types` hold the
//!   charging-domain model, `v106` and `v201` the OCPP vocabulary.
//! - `clock` reads the time, `text` writes numbers as OCPP wants them, and
//!   `error` names what can go wrong.
//! - `engy_mock` stands in for the energy manager where none is at hand.

pub mod auth_types;
pub mod backend;
pub mod charger;
pub mod chmgr_types;
pub mod clock;
pub mod engy_mock;
pub mod engy_types;
pub mod error;
pub mod frontend;
pub mod manager;
pub mod ocpp_types;
pub mod text;
pub mod v106;
pub mod v201;
