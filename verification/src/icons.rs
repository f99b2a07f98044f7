//! The icons that the extension ships with.

use vstd::prelude::*;
use vstd::string::StringExecFns;

verus! {

/// Where the icon `name` lies inside the extension's directory, one path
/// component after the other: `src`, `icons`, and the file `name` with the
/// ending `.svg`.
pub open spec fn icon_path(name: Seq<char>) -> Seq<Seq<char>> {
    seq!["src"@, "icons"@, name + ".svg"@]
}

/// Where the icon `name` lies inside the extension's directory. The caller
/// knows that directory and joins the components to it.
pub fn get_icon_path(name: &str) -> (path: Vec<String>)
    ensures
        path.deep_view() == icon_path(name@),
{
    let mut file = name.to_owned();
    file.append(".svg");
    let mut path: Vec<String> = Vec::new();
    path.push("src".to_owned());
    path.push("icons".to_owned());
    path.push(file);
    path
}

} // verus!
