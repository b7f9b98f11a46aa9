//! Decoding and structural checking of binary class files.
//!
//! The library decodes a big-endian binary class file into an in-memory
//! structure and then verifies that structure against the format's
//! structural and semantic rules.  Parsing is a pure function of the input
//! bytes; checking is a pure function of the decoded structure.  Method
//! bodies are treated as opaque byte sequences throughout.

pub mod attrinfo;
pub mod attrnames;
pub mod cf;
pub mod checker;
pub mod classfile;
pub mod cpinfo;
pub mod descriptor;
pub mod flags;
pub mod jstr;
pub mod parser;
pub mod smtattr;
