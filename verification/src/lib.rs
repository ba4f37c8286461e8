//! A typed client core for the Up Bank REST API: it builds authenticated
//! request descriptions, classifies and decodes JSON responses into typed
//! resource objects, and exposes cursor-style pagination over list results.

pub mod v1;
