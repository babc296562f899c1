//! Build-time icon bundling for GTK applications.
//!
//! The crate discovers SVG icon files, derives icon names from their file
//! names, detects name collisions, computes the resource prefix under which
//! the icons are registered, serializes the icons into a GResource archive
//! (through the `gvdb` crate) and generates a source file with one constant
//! per icon.  All decision logic is verified; file-system access and the
//! GTK registration calls live outside this crate.

pub mod archive;
pub mod codegen;
pub mod config;
pub mod error;
pub mod icon;
pub mod naming;
pub mod pipeline;
pub mod table;
pub mod text;

use vstd::prelude::*;

verus! {

/// The resource prefix used when the configuration names neither a base
/// resource path nor an application id.
pub open spec fn general_prefix() -> Seq<char> {
    "/org/gtkrs/icons/scalable/actions/"@
}

} // verus!
