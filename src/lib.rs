//! Loading of encrypted application scripts: a decryption engine for stored
//! units, the rule that tells protected units from pass-through ones, and the
//! integrity checks that must pass before any unit is decrypted.
pub mod cipher;
pub mod engine;
pub mod text;
pub mod load;
pub mod graph;
pub mod integrity;
