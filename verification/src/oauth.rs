//! Federated sign-in: providers, their credentials, and the exchange of an
//! authorization code for a bearer credential.

pub mod error;
pub mod exchanger;
pub mod model;
pub mod params;

pub use self::model::Provider;
