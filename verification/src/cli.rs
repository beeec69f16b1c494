//! The command-line surface of the bootstrap tool, as plain data. Parsing
//! the actual process arguments into this shape happens outside the
//! library.

use vstd::prelude::*;

verus! {

/// The operator's inputs: which node release to run, the credentials and
/// coordinates of the secret store, an optional base data directory, and
/// extra arguments forwarded verbatim to the node process.
pub struct Cli {
    /// Version tag (e.g. `v1.1.0`) or branch (e.g. `master`) of the node binary.
    pub node_version: String,
    /// Application key of the secret-store credentials.
    pub ovh_app_key: String,
    /// Application secret of the secret-store credentials.
    pub ovh_app_secret: String,
    /// Consumer key of the secret-store credentials.
    pub ovh_consumer_key: String,
    /// OKMS identifier that the secret path lives under.
    pub ovh_okms_id: String,
    /// Secret path containing the validator keys.
    pub ovh_secret_path: String,
    /// Base path of the chain's data, as the node binary takes it.
    pub base_path: Option<String>,
    /// Extra arguments to start the validator node with.
    pub extra_args: Vec<String>,
}

impl Cli {
    /// The base-path arguments handed to every subprocess: `--base-path`
    /// and the directory when one was given, nothing otherwise.
    pub fn base_path_args(&self) -> (r: Vec<String>)
        ensures
            self.base_path is Some ==> r@.len() == 2 && r@[0]@ == "--base-path"@ && r@[1]@
                == self.base_path->Some_0@,
            self.base_path is None ==> r@.len() == 0,
    {
        let mut args: Vec<String> = Vec::new();
        match &self.base_path {
            Some(p) => {
                args.push(String::from_str("--base-path"));
                args.push(p.clone());
            },
            None => {},
        }
        args
    }
}

} // verus!
