//! Example web-service library: a tagged-union JSON encoder under several
//! serialization policies, route tables with nested mounting, and generated
//! API documentation schemas that are proved to match the routes.

pub mod codec;
pub mod docs;
pub mod enum_mapping;
pub mod enum_of_js_simple_types;
pub mod json;
pub mod nesting_with_derive;
pub mod nesting_with_openapirouter;
pub mod routes;
pub mod servers;
