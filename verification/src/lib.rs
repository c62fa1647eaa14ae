//! A minimal federated-publishing core: translates an in-memory blog
//! (authors and posts) into ActivityStreams actors, activities and
//! collections, and answers the three read endpoints a federated peer
//! issues (actor profile, outbox, WebFinger lookup).

pub mod endpoints;
pub mod ids;
pub mod model;
pub mod text;
pub mod translate;
