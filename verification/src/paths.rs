use vstd::prelude::*;

verus! {

/// A file-system location: `base` joined with each of `parts` in turn
/// (`Path::new(base).join(parts[0]).join(parts[1])...`). The library decides
/// locations; the program that touches the file system builds the `PathBuf`.
pub struct FsPath {
    pub base: String,
    pub parts: Vec<String>,
}

/// The abstract content of a location: its base and its parts, as text.
pub open spec fn path_of(base: Seq<char>, parts: Seq<Seq<char>>) -> (Seq<char>, Seq<Seq<char>>) {
    (base, parts)
}

impl View for FsPath {
    type V = (Seq<char>, Seq<Seq<char>>);

    open spec fn view(&self) -> (Seq<char>, Seq<Seq<char>>) {
        (self.base@, self.parts@.map_values(|p: String| p@))
    }
}

/// A location of one part below `base`.
pub fn path1(base: &str, a: &str) -> (r: FsPath)
    ensures
        r@ == path_of(base@, seq![a@]),
{
    let mut parts: Vec<String> = Vec::new();
    parts.push(String::from_str(a));
    let r = FsPath { base: String::from_str(base), parts };
    assert(r@.1 =~= seq![a@]);
    r
}

/// A location of two parts below `base`.
pub fn path2(base: &str, a: &str, b: &str) -> (r: FsPath)
    ensures
        r@ == path_of(base@, seq![a@, b@]),
{
    let mut parts: Vec<String> = Vec::new();
    parts.push(String::from_str(a));
    parts.push(String::from_str(b));
    let r = FsPath { base: String::from_str(base), parts };
    assert(r@.1 =~= seq![a@, b@]);
    r
}

/// A location of four parts below `base`.
pub fn path4(base: &str, a: &str, b: &str, c: &str, d: &str) -> (r: FsPath)
    ensures
        r@ == path_of(base@, seq![a@, b@, c@, d@]),
{
    let mut parts: Vec<String> = Vec::new();
    parts.push(String::from_str(a));
    parts.push(String::from_str(b));
    parts.push(String::from_str(c));
    parts.push(String::from_str(d));
    let r = FsPath { base: String::from_str(base), parts };
    assert(r@.1 =~= seq![a@, b@, c@, d@]);
    r
}

/// The operating systems that place Obsidian's own settings differently.
#[derive(PartialEq, Eq, Structural, Clone, Copy, Debug)]
pub enum HostOs {
    Windows,
    MacOs,
    Other,
}

/// Where Obsidian keeps `obsidian.json` (its list of vaults): below the user's
/// configuration directory, or on macOS below
/// `~/Library/Application Support`. `None` when the directory it needs is unknown.
pub fn obsidian_json_path(os: HostOs, config_dir: Option<String>, home_dir: Option<String>) -> (r:
    Option<FsPath>)
    ensures
        os == HostOs::MacOs ==> match home_dir {
            Some(h) => r matches Some(p) && p@ == path_of(
                h@,
                seq!["Library"@, "Application Support"@, "obsidian"@, "obsidian.json"@],
            ),
            None => r is None,
        },
        os != HostOs::MacOs ==> match config_dir {
            Some(d) => r matches Some(p) && p@ == path_of(d@, seq!["obsidian"@, "obsidian.json"@]),
            None => r is None,
        },
{
    match os {
        HostOs::MacOs => match home_dir {
            Some(h) => Some(
                path4(h.as_str(), "Library", "Application Support", "obsidian", "obsidian.json"),
            ),
            None => None,
        },
        _ => match config_dir {
            Some(d) => Some(path2(d.as_str(), "obsidian", "obsidian.json")),
            None => None,
        },
    }
}

} // verus!
