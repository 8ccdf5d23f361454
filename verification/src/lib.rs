//! Attribute-style route registration for a Rocket application, reduced to
//! plain data: a route annotation is resolved into a `RouteMapping` record,
//! records accumulate in a `Registry`, and the assembler drains the registry
//! once to mount every record onto a fresh application.

pub mod assembler;
pub mod framework;
pub mod laws;
pub mod mapping;
pub mod method;
pub mod registry;
