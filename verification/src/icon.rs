//! Icons registered lazily at run time.
//!
//! A [`LazyIcon`] pairs an icon name with the bytes of its SVG file.  The
//! single-icon resource bundle that registering it needs is computed here;
//! performing the registration against the GUI toolkit, at most once per
//! process, is the caller's concern.

use vstd::prelude::*;
use vstd::slice::slice_to_vec;
use vstd::string::*;

use crate::archive::{archive_of, build_archive, bundle_ok, svg_data_ok, ResourceFile};
use crate::error::BuildError;
use crate::general_prefix;

verus! {

/// An icon whose resource registration is deferred until first use.
pub struct LazyIcon {
    name: &'static str,
    data: &'static [u8],
}

/// The archive key under which a lazily registered icon is stored.
pub open spec fn registered_key(name: Seq<char>) -> Seq<char> {
    general_prefix() + name + ".svg"@
}

impl LazyIcon {
    /// The icon's name.
    pub closed spec fn spec_name(&self) -> Seq<char> {
        self.name@
    }

    /// The bytes of the icon's SVG file.
    pub closed spec fn spec_data(&self) -> Seq<u8> {
        self.data@
    }

    /// Pairs an icon name with the bytes of its SVG file.
    pub fn new(name: &'static str, data: &'static [u8]) -> (r: Self)
        ensures
            r.spec_name() == name@,
            r.spec_data() == data@,
    {
        LazyIcon { name, data }
    }

    /// The icon's name.
    pub fn name(&self) -> (r: &str)
        ensures
            r@ == self.spec_name(),
    {
        self.name
    }

    /// The single-icon resource bundle whose registration makes this icon
    /// available: the icon's bytes, stored under the general prefix and
    /// the icon's name.
    pub fn resource_bundle(&self) -> (r: Result<Vec<u8>, BuildError>)
        ensures
            r is Ok <==> svg_data_ok(self.spec_data()) && bundle_ok(
                seq![(registered_key(self.spec_name()), self.spec_data())],
            ),
            (r matches Ok(bytes) ==> bytes@ == archive_of(
                seq![(registered_key(self.spec_name()), self.spec_data())],
            )),
            (r matches Err(e) ==> match e {
                BuildError::FileDataFailed => !svg_data_ok(self.spec_data()),
                BuildError::ArchiveFailed => svg_data_ok(self.spec_data()) && !bundle_ok(
                    seq![(registered_key(self.spec_name()), self.spec_data())],
                ),
                _ => false,
            }),
    {
        let mut key = String::from_str("/org/gtkrs/icons/scalable/actions/");
        key.append(self.name);
        key.append(".svg");
        let mut files: Vec<ResourceFile> = Vec::new();
        files.push(ResourceFile { key, data: slice_to_vec(self.data) });
        assert(crate::archive::resource_entries(files@) =~= seq![
            (registered_key(self.spec_name()), self.spec_data()),
        ]);
        proof {
            assert(files@[0].data@ == self.spec_data());
            assert(crate::archive::all_files_ok(files@) <==> svg_data_ok(self.spec_data()));
        }
        build_archive(&files)
    }
}

} // verus!
