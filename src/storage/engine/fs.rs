//! The filesystem engine: every file of a storage in one base directory.
use vstd::prelude::*;
use vstd::string::StrSliceExecFns;
use vstd::string::StringExecFns;

verus! {

/// `name` under the directory `base`, as `PathBuf::push` joins them on
/// Unix: an absolute `name` replaces `base`; otherwise the two are separated
/// by one `/`, unless `base` is empty or already ends with one. `name` is not
/// checked for `..` or inner separators.
pub open spec fn join(base: Seq<char>, name: Seq<char>) -> Seq<char> {
    if name.len() > 0 && name[0] == '/' {
        name
    } else if base.len() == 0 || base.last() == '/' {
        base + name
    } else {
        base + seq!['/'] + name
    }
}

/// What stands at an engine's base path once it has been prepared; where
/// nothing stood, preparing it means creating the directory, parents
/// included.
#[derive(Debug, PartialEq, Eq)]
pub enum BaseDir {
    /// A directory was already there.
    Existing,
    /// Nothing was there, and the directory was created.
    Created,
    /// Something other than a directory is there.
    NotDirectory,
    /// Nothing was there, and creating the directory failed with this error.
    CreateFailed(String),
}

/// Why a filesystem engine could not be set up.
#[derive(Debug, PartialEq, Eq)]
pub enum FSNewError {
    /// The base path names something other than a directory.
    BasePathNotDir,
    /// The base directory could not be created; the underlying error.
    FailedToCreateBaseDir(String),
}

/// A filesystem engine: all files under one base directory.
#[derive(Debug)]
pub struct Engine {
    base_path: String,
}

impl View for Engine {
    type V = Seq<char>;

    closed spec fn view(&self) -> Seq<char> {
        self.base_path@
    }
}

impl FSNewError {
    /// The reason text of this error.
    pub fn to_string(&self) -> (r: String)
        ensures
            self is BasePathNotDir ==> r@ == "base path not a directory"@,
            self is FailedToCreateBaseDir ==> r@ == "failed to create directory under base path"@,
    {
        match self {
            FSNewError::BasePathNotDir => String::from_str("base path not a directory"),
            FSNewError::FailedToCreateBaseDir(_) => String::from_str(
                "failed to create directory under base path",
            ),
        }
    }
}

impl Engine {
    /// An engine over `base_path`, given what its preparation found there:
    /// ready over an existing or a newly created directory, refused where a
    /// non-directory stands or the directory could not be created.
    pub fn new(base_path: String, found: BaseDir) -> (r: Result<Engine, FSNewError>)
        ensures
            match found {
                BaseDir::Existing | BaseDir::Created => r matches Ok(e) && e@ == base_path@,
                BaseDir::NotDirectory => r == Err::<Engine, FSNewError>(
                    FSNewError::BasePathNotDir,
                ),
                BaseDir::CreateFailed(m) => r matches Err(FSNewError::FailedToCreateBaseDir(c))
                    && c@ == m@,
            },
    {
        match found {
            BaseDir::Existing | BaseDir::Created => Ok(Engine { base_path }),
            BaseDir::NotDirectory => Err(FSNewError::BasePathNotDir),
            BaseDir::CreateFailed(cause) => Err(FSNewError::FailedToCreateBaseDir(cause)),
        }
    }

    /// The base directory.
    pub fn base_path(&self) -> (r: &str)
        ensures
            r@ == self@,
    {
        self.base_path.as_str()
    }

    /// The path a file named `name` is written to: `name` joined onto the
    /// base directory, with no check on what `name` holds. A file already there
    /// is overwritten by the caller's copy.
    pub fn put(&self, name: &str) -> (r: String)
        ensures
            r@ == join(self@, name@),
    {
        if name.unicode_len() > 0 && name.get_char(0) == '/' {
            return name.to_owned();
        }
        let base = self.base_path.as_str();
        let n = base.unicode_len();
        let mut path = self.base_path.clone();
        if n == 0 || base.get_char(n - 1) == '/' {
            path.append(name);
        } else {
            proof {
                reveal_strlit("/");
            }
            path.append("/");
            path.append(name);
        }
        path
    }
}

} // verus!
