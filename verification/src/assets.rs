use vstd::prelude::*;

verus! {

/// The directory that the program's textures and font are unpacked into
/// for the length of a run.
pub struct TempAssets {
    dir: String,
}

/// The text of `std::path::Path::join` of `dir` and `relative`. `join` is
/// a function of its two arguments alone; which separator it inserts, and
/// when `relative` replaces `dir` (an absolute path, a drive prefix, a
/// root), is fixed by the platform the program is built for, so the name
/// stands for the join of that platform and nothing more is said of it.
pub uninterp spec fn joined_path(dir: Seq<char>, relative: Seq<char>) -> Seq<char>;

/// Calls `std::path::Path::join` on `dir` and `relative` and hands the
/// joined path back as text (`to_string_lossy`, which changes nothing of a
/// path built from two `&str`). The contract claims only that the text is
/// the join of the two arguments, `joined_path`.
#[verifier::external_body]
fn path_join(dir: &str, relative: &str) -> (r: String)
    ensures
        r@ == joined_path(dir@, relative@),
{
    std::path::Path::new(dir).join(relative).to_string_lossy().into_owned()
}

impl TempAssets {
    /// The assets unpacked under `dir`.
    pub fn new(dir: String) -> (r: Self)
        ensures
            r.dir()@ == dir@,
    {
        TempAssets { dir }
    }

    /// The directory the assets were unpacked into.
    pub closed spec fn dir(&self) -> String {
        self.dir
    }

    /// The directory the assets were unpacked into.
    pub fn dir_str(&self) -> (r: &str)
        ensures
            r@ == self.dir()@,
    {
        self.dir.as_str()
    }

    /// The full path of the asset at `relative` inside the directory: the
    /// directory joined with `relative` as `Path::join` joins them.
    pub fn path(&self, relative: &str) -> (r: String)
        ensures
            r@ == joined_path(self.dir()@, relative@),
    {
        path_join(self.dir.as_str(), relative)
    }
}

} // verus!
