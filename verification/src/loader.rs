//! The model files that the viewer carries inside its binary, looked up by name.
use vstd::prelude::*;
use vstd::string::StringExecFns;
use crate::text::str_equals;

verus! {

/// A file built into the viewer.
#[derive(Clone, Copy, Debug, PartialEq, Eq, Structural)]
pub enum StaticFile {
    /// `boot_lala.mtl`, the boot model's materials.
    BootLalaMtl,
    /// `boot_lala.obj`, the boot model's geometry.
    BootLalaObj,
}

/// The name of `boot_lala.mtl`.
pub open spec fn mtl_name() -> Seq<char> {
    seq!['b', 'o', 'o', 't', '_', 'l', 'a', 'l', 'a', '.', 'm', 't', 'l']
}

/// The name of `boot_lala.obj`.
pub open spec fn obj_name() -> Seq<char> {
    seq!['b', 'o', 'o', 't', '_', 'l', 'a', 'l', 'a', '.', 'o', 'b', 'j']
}

/// The error for a path that names no built-in file; it holds the path.
#[derive(Debug)]
pub struct FileNotFoundError(pub String);

/// Serves the built-in files.
pub struct StaticLoader {}

impl StaticLoader {
    /// A loader of the built-in files.
    pub fn new() -> (l: StaticLoader)
        ensures
            l == (StaticLoader {}),
    {
        StaticLoader {}
    }

    /// The built-in file named `path`, or the error that holds `path`.
    pub fn get_file(&self, path: &str) -> (r: Result<StaticFile, FileNotFoundError>)
        ensures
            path@ == mtl_name() ==> r == Ok::<StaticFile, FileNotFoundError>(StaticFile::BootLalaMtl),
            path@ == obj_name() ==> r == Ok::<StaticFile, FileNotFoundError>(StaticFile::BootLalaObj),
            path@ != mtl_name() && path@ != obj_name() ==> (r matches Err(e) && e.0@ == path@),
    {
        let mtl = ['b', 'o', 'o', 't', '_', 'l', 'a', 'l', 'a', '.', 'm', 't', 'l'];
        let obj = ['b', 'o', 'o', 't', '_', 'l', 'a', 'l', 'a', '.', 'o', 'b', 'j'];
        assert(mtl@ =~= mtl_name());
        assert(obj@ =~= obj_name());
        if str_equals(path, &mtl) {
            Ok(StaticFile::BootLalaMtl)
        } else if str_equals(path, &obj) {
            Ok(StaticFile::BootLalaObj)
        } else {
            Err(FileNotFoundError(String::from_str(path)))
        }
    }
}

impl Default for StaticLoader {
    fn default() -> (l: StaticLoader)
        ensures
            l == (StaticLoader {}),
    {
        StaticLoader::new()
    }
}

} // verus!
