//! The local service's credential descriptor.
use crate::errors::{ErrorKind, ValClientError};
use crate::text::{lemma_split_on_nonempty, split_on, split_text};
use vstd::prelude::*;

verus! {

/// The fields of the credential file, in the order they stand in it.
#[derive(Debug)]
pub struct LockfileData {
    pub lockfile_path: String,
    pub application: String,
    pub pid: String,
    pub port: String,
    pub password: String,
    pub protocol: String,
}

/// The credential file holds at least five `:`-separated fields.
pub open spec fn well_formed_lockfile(contents: Seq<char>) -> bool {
    split_on(contents, ':').len() >= 5
}

impl LockfileData {
    /// The five fields of the credential file, as texts.
    pub open spec fn fields(&self) -> Seq<Seq<char>> {
        seq![self.application@, self.pid@, self.port@, self.password@, self.protocol@]
    }

    /// Reads the descriptor from the credential file's contents: the first
    /// five `:`-separated fields are application, pid, port, password and
    /// protocol. Fewer than five fields is an error.
    pub fn new(lockfile_path: String, contents: &str) -> (r: Result<Self, ValClientError>)
        ensures
            r is Ok <==> well_formed_lockfile(contents@),
            r matches Ok(d) ==> d.lockfile_path@ == lockfile_path@ && d.fields() == split_on(
                contents@,
                ':',
            ).take(5),
            r matches Err(e) ==> e.kind == ErrorKind::MalformedCredentialFile && e.data@
                == "Failed to read lockfile"@,
    {
        let mut parts = split_text(contents, ':');
        let ghost pieces = split_on(contents@, ':');
        proof {
            lemma_split_on_nonempty(contents@, ':');
        }
        if parts.len() < 5 {
            return Err(
                ValClientError::with_kind(
                    ErrorKind::MalformedCredentialFile,
                    "Failed to read lockfile",
                    "lockfile holds fewer than five fields",
                ),
            );
        }
        assert(parts@[4]@ == pieces[4]);
        parts.truncate(5);
        let protocol = parts.pop().unwrap();
        let password = parts.pop().unwrap();
        let port = parts.pop().unwrap();
        let pid = parts.pop().unwrap();
        let application = parts.pop().unwrap();
        let d = LockfileData { lockfile_path, application, pid, port, password, protocol };
        assert(d.fields() =~= pieces.take(5));
        Ok(d)
    }

    /// The path the descriptor was read from.
    pub fn get_path_str(&self) -> (r: &str)
        ensures
            r@ == self.lockfile_path@,
    {
        self.lockfile_path.as_str()
    }
}

} // verus!
