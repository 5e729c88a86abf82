//! Where generated stub files go, and how remote endpoint URLs are
//! formed.

use vstd::prelude::*;

verus! {

use vstd::string::StringExecFns;

/// The directory layout of the generated stub sources.
pub struct OutputDirectory;

impl OutputDirectory {
    /// The root of the generated tree.
    pub fn base() -> (r: String)
        ensures
            r@ == "result"@,
    {
        let mut out = String::new();
        out.append("result");
        out
    }

    /// The file that holds one endpoint's or module's stub.
    pub fn file_from_endpoint_path(path: &str) -> (r: String)
        ensures
            r@ == "result/"@ + path@ + ".rs"@,
    {
        let mut out = String::new();
        out.append("result/");
        out.append(path);
        out.append(".rs");
        out
    }

    /// The directory that holds one module's children.
    pub fn dir_from_endpoint_path(path: &str) -> (r: String)
        ensures
            r@ == "result/"@ + path@,
    {
        let mut out = String::new();
        out.append("result/");
        out.append(path);
        out
    }

    /// A module stub doubles as an endpoint stub: same file.
    pub fn module_file(path: &str) -> (r: String)
        ensures
            r@ == "result/"@ + path@ + ".rs"@,
    {
        OutputDirectory::file_from_endpoint_path(path)
    }

    /// The directory of one module.
    pub fn module_dir(path: &str) -> (r: String)
        ensures
            r@ == "result/"@ + path@,
    {
        OutputDirectory::dir_from_endpoint_path(path)
    }
}

/// The fixed origin of the remote service.
pub struct UsosUri;

impl UsosUri {
    /// The origin, with its trailing slash.
    pub fn origin() -> (r: &'static str)
        ensures
            r@ == "https://apps.usos.pwr.edu.pl/"@,
    {
        "https://apps.usos.pwr.edu.pl/"
    }

    /// The absolute URL of a path under the origin.
    pub fn with_path(path: &str) -> (r: String)
        ensures
            r@ == "https://apps.usos.pwr.edu.pl/"@ + path@,
    {
        let mut out = String::new();
        out.append(UsosUri::origin());
        out.append(path);
        out
    }
}

} // verus!
