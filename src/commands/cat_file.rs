//! Showing the content of an object.
use vstd::prelude::*;
use crate::object::address::{is_address, object_path};
use crate::object::operation::object_file;
use crate::repo::Repo;

verus! {

/// Provide the content of a repository object.
pub struct CatFile {
    /// The kind asked for (blob | commit | tag | tree).
    pub typ: String,
    /// The object to show.
    pub object: String,
}

impl CatFile {
    /// The file in `repo` to read the object from; none where the object's name is not
    /// a well-formed address.
    pub fn cat(&self, repo: &Repo) -> (r: Option<String>)
        ensures
            r is Some <==> is_address(self.object@),
            r matches Some(p) ==> p@ == object_path(repo.lit_dir@, self.object@),
    {
        let name = Self::object_find(repo, &self.object, &self.typ, true);
        object_file(repo, name.as_str())
    }

    /// Resolves the name of an object to its address. Names are taken to be full
    /// addresses: short addresses and references are not resolved.
    fn object_find(_repo: &Repo, name: &String, _fmt: &String, _follow: bool) -> (r: String)
        ensures
            r@ == name@,
    {
        name.clone()
    }
}

} // verus!
