//! A client for the Gitter chat service, verified with Verus.
//!
//! The crate holds the decisions of the client and leaves every input and
//! output to its caller:
//!
//! - [`faye`] is a client for the Bayeux publish/subscribe protocol. Its
//!   session engine is a state machine: it is told what happened on the
//!   transport and answers with what to do next. What the engine does is
//!   given by a model over plain values, and the laws that its users rely on
//!   are proved of that model.
//! - [`gitter`] describes the requests of the REST API and reads what is
//!   needed out of their responses; [`models`] holds the API's data.

pub mod faye;
pub mod gitter;
pub mod models;
pub mod text;
pub mod time;

pub use crate::gitter::{ApiError, ApiResult, Gitter, Pagination};
pub use crate::models::{
    BackedBy, Channel, GithubType, Group, GroupType, Issue, JoinRoom, Mention, Message,
    Organization, OutMessage, Repository, Room, SearchResult, UnreadItems, UpdateRoom, Url, User,
};
