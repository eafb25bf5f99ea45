//! Run-wide options: which backend binary to call and where this tool keeps
//! its own files.

use vstd::prelude::*;

use crate::text::{path_join, spec_path_join};

verus! {

/// The binary name of the backend CLI and the directory this tool keeps its
/// settings and isolated homes in.
#[derive(Debug)]
pub struct Options {
    pub cf_binary_name: String,
    pub mcf_home: String,
}

/// Relies on dirs::home_dir: the operating system's notion of the user's
/// home directory, if it has one, as text. The result depends on the
/// machine's environment, so nothing is promised of it.
#[verifier::external_body]
fn os_home_dir() -> (r: Option<String>) {
    dirs::home_dir().and_then(|home| home.to_str().map(|text| text.to_string()))
}

impl Clone for Options {
    fn clone(&self) -> (r: Self)
        ensures
            r == *self,
    {
        Options { cf_binary_name: self.cf_binary_name.clone(), mcf_home: self.mcf_home.clone() }
    }
}

impl Default for Options {
    /// The backend binary under its usual name, and this tool's files under
    /// `.mcf` in the user's home directory; where the platform offers no
    /// home directory, the path is left empty.
    fn default() -> (r: Options)
        ensures
            r.cf_binary_name@ == "cf"@,
            r.mcf_home@.len() == 0 || (exists|home: Seq<char>|
                r.mcf_home@ == spec_path_join(home, ".mcf"@)),
    {
        let mcf_home = match os_home_dir() {
            Some(home) => {
                let joined = path_join(home.as_str(), ".mcf");
                proof {
                    assert(joined@ == spec_path_join(home@, ".mcf"@));
                }
                joined
            },
            None => String::new(),
        };
        Options { cf_binary_name: "cf".to_owned(), mcf_home }
    }
}

impl Options {
    /// The directory this tool keeps its files in.
    pub fn get_mcf_home_path_buf(&self) -> (r: String)
        ensures
            r@ == self.mcf_home@,
    {
        self.mcf_home.clone()
    }

    /// The default options with any given field overridden.
    pub fn new(cf_binary_name: Option<String>, mcf_home: Option<String>) -> (r: Options)
        ensures
            (match mcf_home {
                Some(p) => r.mcf_home@ == p@,
                None => r.mcf_home@.len() == 0 || (exists|home: Seq<char>|
                    r.mcf_home@ == spec_path_join(home, ".mcf"@)),
            }),
            (match cf_binary_name {
                Some(b) => r.cf_binary_name@ == b@,
                None => r.cf_binary_name@ == "cf"@,
            }),
    {
        let mut options = Options::default();

        if let Some(some) = mcf_home {
            options.mcf_home = some;
        }

        if let Some(some) = cf_binary_name {
            options.cf_binary_name = some;
        }

        options
    }
}

} // verus!
