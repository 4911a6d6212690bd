//! Directory rules: the user-facing form of one bind-directory declaration.

use vstd::prelude::*;

use crate::error::Error;

verus! {

/// Options of one directory rule.
#[derive(Debug)]
pub struct DirOptions {
    /// Allow access to character and block devices.
    pub allow_devices: bool,
    /// Instead of binding a directory, mount a device-less filesystem named
    /// here (for example `proc` or `sysfs`).
    pub filesystem: Option<String>,
    /// Silently ignore the rule if the directory to be bound does not
    /// exist.
    pub maybe: bool,
    /// Disallow execution of binaries.
    pub no_exec: bool,
    /// Do not bind recursively.
    pub no_recursive: bool,
    /// Allow read-write access.
    pub read_write: bool,
    /// Bind a freshly created temporary directory writeable for the sandbox
    /// user.  Accepts no outside-path and implies read-write access.
    pub temporary: bool,
}

impl Default for DirOptions {
    /// All options off, no filesystem type.
    fn default() -> (r: Self)
        ensures
            !r.allow_devices,
            r.filesystem is None,
            !r.maybe,
            !r.no_exec,
            !r.no_recursive,
            !r.read_write,
            !r.temporary,
    {
        DirOptions {
            allow_devices: false,
            filesystem: Option::None,
            maybe: false,
            no_exec: false,
            no_recursive: false,
            read_write: false,
            temporary: false,
        }
    }
}

/// One directory rule.
#[derive(Debug)]
pub struct DirRule {
    /// Path inside the sandbox where the directory will be mounted.
    pub inside_path: String,
    /// Path outside the sandbox to be mounted.
    pub outside_path: Option<String>,
    /// Mount options for this directory.
    pub options: DirOptions,
}

impl DirRule {
    /// Builds a directory rule.
    ///
    /// A `temporary` rule with a declared outside-path fails with a
    /// `DirRule` error; otherwise the rule is kept as given, except that
    /// `temporary` forces `read_write` on.
    pub fn new(inside_path: &str, outside_path: Option<&str>, options: DirOptions) -> (r: Result<
        Self,
        Error,
    >)
        ensures
            options.temporary && outside_path is Some ==> (r matches Err(e) && e matches Error::DirRule(
                m,
            ) && m@ == "temporary directory cannot have an outside path"@),
            !(options.temporary && outside_path is Some) ==> (r matches Ok(d) && {
                &&& d.inside_path@ == inside_path@
                &&& (d.outside_path is Some <==> outside_path is Some)
                &&& (outside_path is Some ==> d.outside_path->0@ == outside_path->0@)
                &&& d.options.read_write == (options.temporary || options.read_write)
                &&& d.options.allow_devices == options.allow_devices
                &&& d.options.filesystem == options.filesystem
                &&& d.options.maybe == options.maybe
                &&& d.options.no_exec == options.no_exec
                &&& d.options.no_recursive == options.no_recursive
                &&& d.options.temporary == options.temporary
            }),
    {
        if options.temporary && outside_path.is_some() {
            return Result::Err(
                Error::DirRule("temporary directory cannot have an outside path".to_owned()),
            );
        }
        let read_write = if options.temporary {
            true
        } else {
            options.read_write
        };
        Result::Ok(
            DirRule {
                inside_path: inside_path.to_owned(),
                outside_path: match outside_path {
                    Option::Some(p) => Option::Some(p.to_owned()),
                    Option::None => Option::None,
                },
                options: DirOptions {
                    allow_devices: options.allow_devices,
                    filesystem: options.filesystem,
                    maybe: options.maybe,
                    no_exec: options.no_exec,
                    no_recursive: options.no_recursive,
                    read_write,
                    temporary: options.temporary,
                },
            },
        )
    }
}

} // verus!
