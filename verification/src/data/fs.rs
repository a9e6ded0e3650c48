//! The layout of the data directory: trees of cards under `categories/`.
use vstd::prelude::*;
use crate::data::error::DataError;
use crate::text::{chars_of, slice_chars, string_of};

verus! {

#[verifier::external_type_specification]
#[verifier::external_body]
pub struct ExPathBuf(std::path::PathBuf);

/// The data directory the files live in.
pub struct DataFs {
    data_dir: std::path::PathBuf,
}

impl DataFs {
    /// A data directory at this place (the directory itself is made by the
    /// caller).
    pub fn at(data_dir: std::path::PathBuf) -> (r: DataFs)
        ensures
            r.data_dir_spec() == data_dir,
    {
        DataFs { data_dir }
    }

    pub closed spec fn data_dir_spec(&self) -> std::path::PathBuf {
        self.data_dir
    }

    pub fn data_dir(&self) -> (r: &std::path::PathBuf)
        ensures
            *r == self.data_dir_spec(),
    {
        &self.data_dir
    }

    /// Splits a card or folder path into its tree and the path inside the
    /// tree, at the first `/`; a path without `/` is invalid.
    pub fn parse_path(path: &str) -> (r: Result<(String, String), DataError>)
        ensures
            match r {
                Ok((tree, rest)) => exists|i: int| 0 <= i < path@.len() && path@[i] == '/'
                    && (forall|j: int| 0 <= j < i ==> path@[j] != '/')
                    && tree@ == path@.take(i) && rest@ == path@.skip(i + 1),
                Err(e) => {
                    &&& forall|i: int| 0 <= i < path@.len() ==> path@[i] != '/'
                    &&& e matches DataError::InvalidPath(p)
                    &&& p@ == path@
                },
            },
    {
        let cs = chars_of(path);
        let n = cs.len();
        for i in 0..n
            invariant
                n == cs@.len(),
                cs@ == path@,
                forall|j: int| 0 <= j < i ==> path@[j] != '/',
        {
            if cs[i] == '/' {
                let tree = slice_chars(&cs, 0, i);
                let rest = slice_chars(&cs, i + 1, n);
                proof {
                    assert(tree@ =~= path@.take(i as int));
                    assert(rest@ =~= path@.skip(i + 1));
                }
                return Ok((string_of(&tree), string_of(&rest)));
            }
        }
        Err(DataError::InvalidPath(path.to_string()))
    }
}

} // verus!
