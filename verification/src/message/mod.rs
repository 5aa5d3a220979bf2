//! Message model as exchanged with the hubs and the server by the gateway's
//! message service: the shared payloads and the few that only this service
//! speaks.

pub mod domain;
