//! Verified lessons on core language constructs: pattern matching over
//! tagged-union values, closure capture modes with runtime guards, error
//! handling idioms, and small demonstrations of structs, enums, generics,
//! traits, and the standard collections.

pub mod closures;
pub mod conversion;
pub mod custom_types;
pub mod error_handling;
pub mod flow_of_control;
pub mod functions;
pub mod generics;
pub mod matching;
pub mod modules;
pub mod my_mod;
pub mod parsing;
pub mod primitives;
pub mod scoping_rules;
pub mod std_library_types;
pub mod top;
pub mod traits;
pub mod use_mod;
pub mod variable_binding;
