//! Where the server keeps its data and logs.
use vstd::prelude::*;

verus! {

/// Whether `c` separates path components: `/`, and on Windows also `\`.
pub open spec fn is_separator(c: char, windows: bool) -> bool {
    c == '/' || (windows && c == '\\')
}

/// The separator that joining puts in: `\` on Windows, `/` elsewhere.
pub open spec fn separator(windows: bool) -> char {
    if windows {
        '\\'
    } else {
        '/'
    }
}

/// On Windows, whether `base` is a drive prefix alone, such as `C:`.
pub open spec fn drive_only(base: Seq<char>, windows: bool) -> bool {
    &&& windows
    &&& base.len() == 2
    &&& ('a' <= base[0] <= 'z' || 'A' <= base[0] <= 'Z')
    &&& base[1] == ':'
}

/// `base` joined with the relative component `name`, as `Path::join` does:
/// a separator goes between them unless `base` is empty, already ends with
/// one, or (on Windows) is a drive prefix alone, which stays drive-relative.
pub open spec fn join(base: Seq<char>, name: Seq<char>, windows: bool) -> Seq<char> {
    if base.len() == 0 || is_separator(base.last(), windows) || drive_only(base, windows) {
        base + name
    } else {
        base + seq![separator(windows)] + name
    }
}

/// `base` joined with the relative component `name`.
pub fn join_path(base: &str, name: &str, windows: bool) -> (p: String)
    ensures
        p@ == join(base@, name@, windows),
{
    let mut p = String::from_str(base);
    let n = base.unicode_len();
    let drive = windows && n == 2 && {
        let first = base.get_char(0);
        ('a' <= first && first <= 'z' || 'A' <= first && first <= 'Z') && base.get_char(1) == ':'
    };
    if n != 0 && !drive {
        let last = base.get_char(n - 1);
        if !(last == '/' || (windows && last == '\\')) {
            if windows {
                p.push('\\');
            } else {
                p.push('/');
            }
        }
    }
    p.append(name);
    p
}

/// The data file, the temporary data file and the logs file are three
/// different paths in every folder, so writing the temporary file and then
/// moving it over the data file touches neither the data nor the logs
/// before the move.
pub proof fn law_data_paths_distinct(base: Seq<char>, windows: bool)
    ensures
        join(base, "data"@, windows) != join(base, "data.temp"@, windows),
        join(base, "data"@, windows) != join(base, "logs"@, windows),
        join(base, "data.temp"@, windows) != join(base, "logs"@, windows),
{
    reveal_strlit("data");
    reveal_strlit("data.temp");
    reveal_strlit("logs");
    let d = join(base, "data"@, windows);
    let t = join(base, "data.temp"@, windows);
    let l = join(base, "logs"@, windows);
    assert(d.len() != t.len());
    assert(t.len() != l.len());
    assert(d.len() == l.len());
    assert(d[d.len() - 1] == 'a' && l[l.len() - 1] == 's');
}

/// The environment gives no data directory.
#[derive(Debug, PartialEq, Eq)]
pub enum DirError {
    /// No `FOLDERID_RoamingAppData` (Windows).
    NoRoamingAppData,
    /// No `HOME` (elsewhere).
    NoHome,
}

impl DirError {
    /// The message of the error.
    pub open spec fn text(&self) -> Seq<char> {
        match self {
            DirError::NoRoamingAppData => "Your environment seems to be broken: FOLDERID_RoamingAppData variable does not exist"@,
            DirError::NoHome => "Your environment seems to be broken: HOME variable does not exist"@,
        }
    }

    /// The message of the error.
    pub fn message(&self) -> (m: String)
        ensures
            m@ == self.text(),
    {
        match self {
            DirError::NoRoamingAppData => String::from_str(
                "Your environment seems to be broken: FOLDERID_RoamingAppData variable does not exist",
            ),
            DirError::NoHome => String::from_str("Your environment seems to be broken: HOME variable does not exist"),
        }
    }
}

/// Holds the location at which the logs and data should be stored, and
/// whether its paths follow Windows rules.
#[derive(Debug)]
pub struct DataDir {
    path: String,
    windows: bool,
}

impl DataDir {
    /// The folder.
    pub closed spec fn path(&self) -> Seq<char> {
        self.path@
    }

    /// Whether the paths follow Windows rules.
    pub closed spec fn on_windows(&self) -> bool {
        self.windows
    }

    /// The data directory at the given folder.
    pub fn from_path(path: String, windows: bool) -> (d: DataDir)
        ensures
            d.path() == path@,
            d.on_windows() == windows,
    {
        DataDir { path, windows }
    }

    /// Resolves the folder: the one given, else `erudition` in the user's
    /// data directory `data_dir`; an error when neither exists, worded for
    /// Windows when `windows` holds.
    pub fn new(path_opt: Option<String>, data_dir: Option<String>, windows: bool) -> (r: Result<DataDir, DirError>)
        ensures
            path_opt matches Some(p) ==> (r matches Ok(d) && d.path() == p@ && d.on_windows() == windows),
            path_opt is None && data_dir is Some ==> (r matches Ok(d) && d.path() == join(
                data_dir->0@,
                "erudition"@,
                windows,
            ) && d.on_windows() == windows),
            path_opt is None && data_dir is None && windows ==> r == Err::<DataDir, DirError>(DirError::NoRoamingAppData),
            path_opt is None && data_dir is None && !windows ==> r == Err::<DataDir, DirError>(DirError::NoHome),
    {
        match path_opt {
            Some(path) => Ok(DataDir { path, windows }),
            None => match data_dir {
                Some(dir) => Ok(DataDir { path: join_path(dir.as_str(), "erudition", windows), windows }),
                None => if windows {
                    Err(DirError::NoRoamingAppData)
                } else {
                    Err(DirError::NoHome)
                },
            },
        }
    }

    /// The folder.
    pub fn as_path(&self) -> (p: &str)
        ensures
            p@ == self.path(),
    {
        self.path.as_str()
    }

    /// Returns the path to the data file.
    pub fn data(&self) -> (p: String)
        ensures
            p@ == join(self.path(), "data"@, self.on_windows()),
    {
        join_path(self.path.as_str(), "data", self.windows)
    }

    /// Returns the path to the temporary data file, used to secure writing
    /// (write then move).
    pub fn data_temp(&self) -> (p: String)
        ensures
            p@ == join(self.path(), "data.temp"@, self.on_windows()),
    {
        join_path(self.path.as_str(), "data.temp", self.windows)
    }

    /// Returns the path to the logs file.
    pub fn logs(&self) -> (p: String)
        ensures
            p@ == join(self.path(), "logs"@, self.on_windows()),
    {
        join_path(self.path.as_str(), "logs", self.windows)
    }
}

} // verus!
