//! Core of a federated GraphQL subgraph pair: one service owns planet
//! entities with polymorphic detail payloads and arbitrary-precision numeric
//! scalars; the other owns satellite entities, extends the planet type with a
//! `satellites` relationship, and guards one field behind a role check.
pub mod guard;
pub mod numtext;
pub mod scalar;
pub mod model;
pub mod graphql;
