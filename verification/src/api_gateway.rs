use vstd::prelude::*;

use crate::text::owned;

verus! {

/// An optional text, empty where absent (`unwrap_or_default`).
pub open spec fn or_empty(s: Option<&str>) -> Seq<char> {
    match s {
        Some(t) => t@,
        None => Seq::empty(),
    }
}

/// The lines printed for one REST API, followed by an empty line.
pub open spec fn rest_api_entry(
    id: Seq<char>,
    name: Seq<char>,
    description: Seq<char>,
    version: Seq<char>,
) -> Seq<char> {
    "ID:          "@ + id + "\n"@ + "Name:        "@ + name + "\n"@ + "Description: "@ + description
        + "\n"@ + "Version:     "@ + version + "\n"@ + "\n"@
}

/// An absent text reads as empty, and a present one as itself.
pub proof fn law_or_empty(t: &str)
    ensures
        or_empty(Some(t)) == t@,
        or_empty(None) == Seq::<char>::empty(),
{
}

/// The entry is four lines and an empty one: each line is its 13-character
/// label followed by the API's own id, name, description or version, in that
/// order, each ended by a newline.
pub proof fn law_entry_lines(id: Seq<char>, name: Seq<char>, description: Seq<char>, version: Seq<char>)
    ensures
        ({
            let e = rest_api_entry(id, name, description, version);
            let a: int = 14 + id.len() as int;
            let b: int = a + 14 + name.len();
            let c: int = b + 14 + description.len();
            &&& e.len() == c + 15 + version.len()
            &&& e.subrange(0, 13) == "ID:          "@
            &&& e.subrange(13, a - 1) == id
            &&& e[a - 1] == '\n'
            &&& e.subrange(a, a + 13) == "Name:        "@
            &&& e.subrange(a + 13, b - 1) == name
            &&& e[b - 1] == '\n'
            &&& e.subrange(b, b + 13) == "Description: "@
            &&& e.subrange(b + 13, c - 1) == description
            &&& e[c - 1] == '\n'
            &&& e.subrange(c, c + 13) == "Version:     "@
            &&& e.subrange(c + 13, c + 13 + version.len() as int) == version
            &&& e[c + 13 + version.len()] == '\n'
            &&& e[c + 14 + version.len()] == '\n'
        }),
{
    reveal_strlit("ID:          ");
    reveal_strlit("Name:        ");
    reveal_strlit("Description: ");
    reveal_strlit("Version:     ");
    reveal_strlit("\n");
    let e = rest_api_entry(id, name, description, version);
    let a: int = 14 + id.len() as int;
    let b: int = a + 14 + name.len();
    let c: int = b + 14 + description.len();
    let nl = "\n"@;
    assert(e =~= "ID:          "@ + id + nl + "Name:        "@ + name + nl + "Description: "@ + description + nl + "Version:     "@ + version + nl + nl);
    assert(e.subrange(0, 13) =~= "ID:          "@);
    assert(e.subrange(13, a - 1) =~= id);
    assert(e.subrange(a, a + 13) =~= "Name:        "@);
    assert(e.subrange(a + 13, b - 1) =~= name);
    assert(e.subrange(b, b + 13) =~= "Description: "@);
    assert(e.subrange(b + 13, c - 1) =~= description);
    assert(e.subrange(c, c + 13) =~= "Version:     "@);
    assert(e.subrange(c + 13, c + 13 + version.len() as int) =~= version);
}

fn push_or_empty(out: &mut String, s: Option<&str>)
    ensures
        final(out)@ == old(out)@ + or_empty(s),
{
    match s {
        Some(t) => out.append(t),
        None => {
            assert(old(out)@ + Seq::<char>::empty() =~= old(out)@);
        },
    }
}

/// The text printed for one REST API of the gateway: its id, name,
/// description and version, each empty where the API has none.
pub fn rest_api_entry_text(
    id: Option<&str>,
    name: Option<&str>,
    description: Option<&str>,
    version: Option<&str>,
) -> (r: String)
    ensures
        r@ == rest_api_entry(
            or_empty(id),
            or_empty(name),
            or_empty(description),
            or_empty(version),
        ),
{
    let mut r = owned("ID:          ");
    push_or_empty(&mut r, id);
    r.append("\n");
    r.append("Name:        ");
    push_or_empty(&mut r, name);
    r.append("\n");
    r.append("Description: ");
    push_or_empty(&mut r, description);
    r.append("\n");
    r.append("Version:     ");
    push_or_empty(&mut r, version);
    r.append("\n");
    r.append("\n");
    assert(r@ =~= rest_api_entry(
        or_empty(id),
        or_empty(name),
        or_empty(description),
        or_empty(version),
    ));
    r
}

} // verus!
