//! Static service configuration: where the message bus lives and which
//! exchange carries the instruction and update topics. It is read once at
//! startup and never changes afterwards.

use vstd::prelude::*;

verus! {

/// Connection settings for the message bus.
pub struct RabbitMQ {
    /// Connection URI of the bus.
    pub uri: String,
    /// Exchange used both for the instruction subscription and for outbound
    /// pose updates.
    pub exchange: String,
}

/// The whole service configuration.
pub struct Config {
    pub rabbitmq: RabbitMQ,
}

impl RabbitMQ {
    pub fn new(uri: String, exchange: String) -> (c: RabbitMQ)
        ensures
            c.uri@ == uri@,
            c.exchange@ == exchange@,
    {
        RabbitMQ { uri, exchange }
    }
}

impl Config {
    pub fn new(rabbitmq: RabbitMQ) -> (c: Config)
        ensures
            c.rabbitmq.uri@ == rabbitmq.uri@,
            c.rabbitmq.exchange@ == rabbitmq.exchange@,
    {
        Config { rabbitmq }
    }
}

} // verus!
