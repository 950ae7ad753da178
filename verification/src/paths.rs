//! Where the menu's files are looked for, and in which order.
//!
//! Nothing here touches the file system: the caller says which candidates
//! exist.

use vstd::prelude::*;

verus! {

/// The candidate paths of the configuration file `name`, best first: below
/// `$XDG_CONFIG_HOME` if that is set, below `$HOME/.config` if `$HOME` is
/// set, then the two system-wide places.
pub open spec fn config_candidates_of(
    xdg_config_home: Option<Seq<char>>,
    home: Option<Seq<char>>,
    name: Seq<char>,
) -> Seq<Seq<char>> {
    (match xdg_config_home {
        Some(dir) => seq![dir + "/cpmenu/"@ + name],
        None => seq![],
    }) + (match home {
        Some(dir) => seq![dir + "/.config/cpmenu/"@ + name],
        None => seq![],
    }) + seq!["/etc"@ + "/cpmenu/"@ + name, "/usr/local/etc"@ + "/cpmenu/"@ + name]
}

/// The candidate paths of the icon file of the button `label`, best first.
pub open spec fn icon_candidates_of(label: Seq<char>) -> Seq<Seq<char>> {
    seq![
        "./icons/"@ + label + ".png"@,
        "/usr/local/share/cpmenu/icons/"@ + label + ".png"@,
        "/usr/share/cpmenu/icons/"@ + label + ".png"@,
    ]
}

/// The texts of a list of strings.
pub open spec fn texts(paths: Seq<String>) -> Seq<Seq<char>> {
    Seq::new(paths.len(), |i: int| paths[i]@)
}

/// The text of an optional string slice.
pub open spec fn slice_text(s: Option<&str>) -> Option<Seq<char>> {
    match s {
        Some(s) => Some(s@),
        None => None,
    }
}

/// Joins three pieces into one path.
fn join3(first: &str, second: &str, third: &str) -> (r: String)
    ensures
        r@ == first@ + second@ + third@,
{
    let mut path: String = String::from_str(first);
    path.append(second);
    path.append(third);
    path
}

/// Lists where the configuration file `name` is looked for, best first.
pub fn config_candidates(xdg_config_home: Option<&str>, home: Option<&str>, name: &str) -> (r:
    Vec<String>)
    ensures
        texts(r@) == config_candidates_of(slice_text(xdg_config_home), slice_text(home), name@),
{
    let mut paths: Vec<String> = Vec::new();
    if let Some(dir) = xdg_config_home {
        paths.push(join3(dir, "/cpmenu/", name));
    }
    if let Some(dir) = home {
        paths.push(join3(dir, "/.config/cpmenu/", name));
    }
    paths.push(join3("/etc", "/cpmenu/", name));
    paths.push(join3("/usr/local/etc", "/cpmenu/", name));
    paths
}

/// Lists where the icon file of the button `label` is looked for, best
/// first.
pub fn icon_candidates(label: &str) -> (r: Vec<String>)
    ensures
        texts(r@) == icon_candidates_of(label@),
{
    let mut paths: Vec<String> = Vec::new();
    paths.push(join3("./icons/", label, ".png"));
    paths.push(join3("/usr/local/share/cpmenu/icons/", label, ".png"));
    paths.push(join3("/usr/share/cpmenu/icons/", label, ".png"));
    paths
}

/// Picks the first candidate that exists: the answer is the least index
/// `i` with `exists[i]`, or none if no candidate exists.
pub fn first_existing(exists: &Vec<bool>) -> (r: Option<usize>)
    ensures
        match r {
            Some(i) => i < exists@.len() && exists@[i as int] && forall|j: int|
                0 <= j < i ==> !exists@[j],
            None => forall|j: int| 0 <= j < exists@.len() ==> !exists@[j],
        },
{
    let mut i: usize = 0;
    while i < exists.len()
        invariant
            i <= exists@.len(),
            forall|j: int| 0 <= j < i ==> !exists@[j],
        decreases exists@.len() - i,
    {
        if exists[i] {
            return Some(i);
        }
        i += 1;
    }
    None
}

/// Which icon file a button gets.
#[derive(Debug, Clone, Copy, PartialEq, Eq, Structural)]
pub enum IconChoice {
    /// The file that the button names itself.
    Custom,
    /// The default candidate of this index.
    Default(usize),
    /// No file.
    Nothing,
}

/// Chooses the icon file of a button. `custom_exists` says whether the file
/// that the button names exists, if it names one, and `defaults_exist[i]`
/// whether default candidate `i` does.
///
/// A button that names a file gets that file if it exists and none if it
/// does not: the defaults are no fallback for it. A button that names no
/// file gets the first default candidate that exists, if there is one.
pub fn choose_icon(custom_exists: Option<bool>, defaults_exist: &Vec<bool>) -> (r: IconChoice)
    ensures
        custom_exists == Some(true) ==> r == IconChoice::Custom,
        custom_exists == Some(false) ==> r == IconChoice::Nothing,
        custom_exists is None ==> match r {
            IconChoice::Default(i) => i < defaults_exist@.len() && defaults_exist@[i as int]
                && forall|j: int| 0 <= j < i ==> !defaults_exist@[j],
            IconChoice::Nothing => forall|j: int|
                0 <= j < defaults_exist@.len() ==> !defaults_exist@[j],
            IconChoice::Custom => false,
        },
{
    match custom_exists {
        Some(true) => IconChoice::Custom,
        Some(false) => IconChoice::Nothing,
        None => match first_existing(defaults_exist) {
            Some(i) => IconChoice::Default(i),
            None => IconChoice::Nothing,
        },
    }
}

} // verus!
