//! Request handling for serverless functions, built by wrapping a base handler
//! with layers of middleware.
//!
//! A [`Handler`] answers a [`Request`] and a [`Context`] with a [`Response`] or
//! an [`Error`]. A [`Middleware`] layer wraps a handler: the layer applied last
//! is the outermost one, which runs first on the way in and last on the way
//! out. Both are traits that users implement.

pub mod error;
pub mod handler;
pub mod laws;
pub mod message;
pub mod middleware;

pub use error::{Error, ErrorKind, HostError};
pub use handler::{default_handler, DefaultHandler, Handler, HostHandler, Wrapped, WrappingHandler};
pub use message::{Body, Context, HeaderField, Request, Response};
pub use middleware::{body, header, status, Middleware, SetBody, SetHeader, SetStatus};
