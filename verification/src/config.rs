//! The icon build configuration.
//!
//! A build names an icon folder, an optional list of shipped icons to pull
//! in, and optionally an application id or a base resource path that decide
//! the resource prefix.

use vstd::prelude::*;
use vstd::string::*;

use crate::general_prefix;
use crate::text::{replace_char, str_replace_char};

verus! {

/// What an icon build was asked to do.
///
/// The values come from a small key/value configuration document; parsing
/// that document is the caller's concern.
pub struct Config {
    /// Application id; decides the resource prefix when no base resource
    /// path is given.
    pub app_id: Option<String>,
    /// Base resource path; takes precedence over the application id.
    pub base_resource_path: Option<String>,
    /// Folder holding the custom icon files.
    pub icons_folder: Option<String>,
    /// Names of shipped icons to bundle in addition to the custom folder.
    pub icons: Option<Vec<String>>,
}

impl Default for Config {
    /// A configuration with nothing set.
    fn default() -> (c: Config)
        ensures
            c.app_id is None,
            c.base_resource_path is None,
            c.icons_folder is None,
            c.icons is None,
    {
        Config { app_id: None, base_resource_path: None, icons_folder: None, icons: None }
    }
}

impl Config {
    /// Falls back to the given folder when the configuration names none.
    ///
    /// A build that ships its own icons passes the shipped folder here, so
    /// that a configuration without an explicit folder still resolves.
    pub fn or_default_folder(self, fallback: Option<String>) -> (c: Config)
        ensures
            c.app_id == self.app_id,
            c.base_resource_path == self.base_resource_path,
            c.icons == self.icons,
            self.icons_folder is Some ==> c.icons_folder == self.icons_folder,
            self.icons_folder is None ==> c.icons_folder == fallback,
    {
        if self.icons_folder.is_some() {
            self
        } else {
            Config {
                app_id: self.app_id,
                base_resource_path: self.base_resource_path,
                icons_folder: fallback,
                icons: self.icons,
            }
        }
    }
}

/// The resource prefix a configuration decides: the base resource path if
/// one is given, else a path derived from the application id, else the
/// general prefix.
pub open spec fn resource_prefix(c: Config) -> Seq<char> {
    if c.base_resource_path is Some {
        c.base_resource_path->0@ + "icons/scalable/actions/"@
    } else if c.app_id is Some {
        "/"@ + replace_char(c.app_id->0@, '.', '/') + "/icons/scalable/actions/"@
    } else {
        general_prefix()
    }
}

/// Computes the resource prefix under which the icons are bundled.
pub fn compute_prefix(config: &Config) -> (r: String)
    ensures
        r@ == resource_prefix(*config),
{
    match &config.base_resource_path {
        Some(base) => {
            let mut s = base.clone();
            s.append("icons/scalable/actions/");
            s
        },
        None => {
            match &config.app_id {
                Some(app_id) => {
                    let replaced = str_replace_char(app_id.as_str(), '.', '/');
                    let mut s = String::from_str("/");
                    s.append(replaced.as_str());
                    s.append("/icons/scalable/actions/");
                    assert(s@ =~= resource_prefix(*config));
                    s
                },
                None => String::from_str("/org/gtkrs/icons/scalable/actions/"),
            }
        },
    }
}

} // verus!
