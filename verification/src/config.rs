//! The settings of a project: where its source lies and where the rendered
//! file goes, each relative to the project's root.
use vstd::prelude::*;
use vstd::string::*;

verus! {

/// Where the source lies if the settings do not say.
pub const DEFAULT_RUST_ENTRY: &'static str = "native/src/";

/// Where the rendered file goes if the settings do not say.
pub const DEFAULT_DART_OUT: &'static str = "lib/gen/";

/// The name of the file that holds the settings.
pub const DEFAULT_CONFIG_DIR: &'static str = "flusty.toml";

/// The settings of a project.
#[derive(Debug, PartialEq, Eq)]
pub struct Config {
    /// Where the source lies.
    pub rust_entry: Option<String>,
    /// Where the rendered file goes.
    pub dart_out: Option<String>,
}

impl Default for Config {
    fn default() -> (r: Self)
        ensures
            r.rust_entry is None,
            r.dart_out is None,
    {
        Config { rust_entry: None, dart_out: None }
    }
}

impl Clone for Config {
    fn clone(&self) -> (r: Self)
        ensures
            crate::error::text_of(r.rust_entry) == crate::error::text_of(self.rust_entry),
            crate::error::text_of(r.dart_out) == crate::error::text_of(self.dart_out),
    {
        Config {
            rust_entry: crate::error::copy_text(&self.rust_entry),
            dart_out: crate::error::copy_text(&self.dart_out),
        }
    }
}

impl Config {
    /// Where the source lies, relative to the project's root: what was set,
    /// else `native/src/`.
    pub fn rust_entry(&self) -> (r: String)
        ensures
            r@ == match self.rust_entry {
                Some(s) => s@,
                None => DEFAULT_RUST_ENTRY@,
            },
    {
        match &self.rust_entry {
            Some(s) => s.clone(),
            None => String::from_str(DEFAULT_RUST_ENTRY),
        }
    }

    /// Where the rendered file goes, relative to the project's root: what was
    /// set, else `lib/gen/`.
    pub fn dart_out(&self) -> (r: String)
        ensures
            r@ == match self.dart_out {
                Some(s) => s@,
                None => DEFAULT_DART_OUT@,
            },
    {
        match &self.dart_out {
            Some(s) => s.clone(),
            None => String::from_str(DEFAULT_DART_OUT),
        }
    }

    /// Sets where the source lies.
    pub fn set_rust_entry(&mut self, path: &str)
        ensures
            final(self).rust_entry is Some,
            final(self).rust_entry->0@ == path@,
            final(self).dart_out == old(self).dart_out,
    {
        self.rust_entry = Some(String::from_str(path));
    }

    /// Sets where the rendered file goes.
    pub fn set_dart_out(&mut self, path: &str)
        ensures
            final(self).dart_out is Some,
            final(self).dart_out->0@ == path@,
            final(self).rust_entry == old(self).rust_entry,
    {
        self.dart_out = Some(String::from_str(path));
    }
}

} // verus!
