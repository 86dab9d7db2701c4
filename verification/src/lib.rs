//! Client side of a request/reply exchange with a duplicate-detection service.
//!
//! A client is created, initialized with the address of the service and a
//! timeout, and then asked to make requests. The client itself never touches
//! a socket: for each request it tells its driver, step by step, what to do
//! with the transport and the codec, and takes in what came of it. What the
//! client does at each step is stated in [`model`], and what follows from that
//! is proved in [`laws`].

pub mod client;
pub mod error;
pub mod exchange;
pub mod laws;
pub mod model;
pub mod text;

pub use client::dupl_client_close;
pub use client::dupl_client_create;
pub use client::dupl_client_init;
pub use client::dupl_client_last_error;
pub use client::dupl_client_request;
pub use client::Config;
pub use client::DuplClient;
pub use error::ErrorMsg;
pub use error::ForeignText;
pub use exchange::Action;
pub use exchange::Event;
pub use model::Stage;
