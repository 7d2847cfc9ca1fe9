//! The ephemeral directory in which one request's source file lives.
//!
//! A workspace is named by a random version 4 UUID in its hyphenated
//! lower-case form, so that no two connections share a directory and no name
//! can step outside the root.

use vstd::prelude::*;
use vstd::string::{StrSliceExecFns, StringExecFns};

verus! {

/// A digit of lower-case hexadecimal.
pub open spec fn is_lower_hex(c: char) -> bool {
    ('0' <= c <= '9') || ('a' <= c <= 'f')
}

/// Whether a hyphen stands at position `i` of an identifier.
pub open spec fn is_hyphen_slot(i: int) -> bool {
    i == 8 || i == 13 || i == 18 || i == 23
}

/// Whether `c` may stand at position `i` of an identifier: a hyphen between
/// the groups, `4` for the version, one of `8 9 a b` for the variant, and a
/// hexadecimal digit elsewhere.
pub open spec fn fits_slot(i: int, c: char) -> bool {
    if is_hyphen_slot(i) {
        c == '-'
    } else if i == 14 {
        c == '4'
    } else if i == 19 {
        c == '8' || c == '9' || c == 'a' || c == 'b'
    } else {
        is_lower_hex(c)
    }
}

/// The form of a workspace identifier: 36 characters in groups of 8, 4, 4, 4
/// and 12.
pub open spec fn is_workspace_id(id: Seq<char>) -> bool {
    &&& id.len() == 36
    &&& forall|i: int| 0 <= i < 36 ==> fits_slot(i, #[trigger] id[i])
}

/// The directory of the workspace named `id`, relative to the working
/// directory of the service.
pub open spec fn dir_of(id: Seq<char>) -> Seq<char> {
    "temp/"@ + id
}

/// The source file of the workspace named `id`.
pub open spec fn script_of(id: Seq<char>) -> Seq<char> {
    dir_of(id) + "/script.js"@
}

/// Draws a random identifier with `uuid::Uuid::new_v4` and renders it with
/// the `Display` of `uuid::Uuid`. Trusted: the generator fixes the version
/// and variant bits, and the rendering is the hyphenated lower-case form.
/// Nothing is claimed of the random digits.
#[verifier::external_body]
fn uuid_v4_text() -> (id: String)
    ensures
        is_workspace_id(id@),
{
    uuid::Uuid::new_v4().to_string()
}

/// The name of one request's workspace.
pub struct Workspace {
    id: String,
}

impl View for Workspace {
    type V = Seq<char>;

    closed spec fn view(&self) -> Seq<char> {
        self.id@
    }
}

impl Workspace {
    #[verifier::type_invariant]
    spec fn well_formed(&self) -> bool {
        is_workspace_id(self.id@)
    }

    /// A workspace under a freshly drawn identifier.
    pub fn fresh() -> (w: Workspace)
        ensures
            is_workspace_id(w@),
    {
        Workspace { id: uuid_v4_text() }
    }

    /// The workspace named `id`, if `id` has the form of an identifier.
    pub fn with_id(id: String) -> (r: Option<Workspace>)
        ensures
            r is Some <==> is_workspace_id(id@),
            r matches Some(w) ==> w@ == id@,
    {
        let text = id.as_str();
        if text.unicode_len() != 36 {
            return None;
        }
        let mut i: usize = 0;
        while i < 36
            invariant
                i <= 36,
                text@ == id@,
                text@.len() == 36,
                forall|j: int| 0 <= j < i ==> fits_slot(j, #[trigger] text@[j]),
            decreases 36 - i,
        {
            let c = text.get_char(i);
            let fits = if i == 8 || i == 13 || i == 18 || i == 23 {
                c == '-'
            } else if i == 14 {
                c == '4'
            } else if i == 19 {
                c == '8' || c == '9' || c == 'a' || c == 'b'
            } else {
                ('0' <= c && c <= '9') || ('a' <= c && c <= 'f')
            };
            if !fits {
                assert(!fits_slot(i as int, text@[i as int]));
                return None;
            }
            i = i + 1;
        }
        Some(Workspace { id })
    }

    /// The identifier.
    pub fn id(&self) -> (id: &str)
        ensures
            id@ == self@,
            is_workspace_id(self@),
    {
        proof {
            use_type_invariant(self);
        }
        self.id.as_str()
    }

    /// The path of the workspace directory.
    pub fn dir_path(&self) -> (path: String)
        ensures
            path@ == dir_of(self@),
    {
        let mut path = String::from_str("temp/");
        path.append(self.id.as_str());
        path
    }

    /// The path of the source file inside the workspace directory.
    pub fn script_path(&self) -> (path: String)
        ensures
            path@ == script_of(self@),
    {
        let mut path = self.dir_path();
        path.append("/script.js");
        path
    }
}

/// The executable that runs a workspace's source file, with the file's path
/// as its only argument.
pub fn interpreter() -> (name: &'static str)
    ensures
        name@ == "node"@,
{
    "node"
}

/// An identifier holds no path separator and no dot, so the directory it
/// names is a direct child of the root.
pub proof fn lemma_id_is_one_path_segment(id: Seq<char>)
    requires
        is_workspace_id(id),
    ensures
        forall|i: int| 0 <= i < id.len() ==> id[i] != '/' && id[i] != '.' && id[i] != '\\',
{
    assert forall|i: int| 0 <= i < id.len() implies id[i] != '/' && id[i] != '.' && id[i]
        != '\\' by {
        assert(fits_slot(i, id[i]));
    }
}

/// Different identifiers name different directories and different source
/// files.
pub proof fn lemma_distinct_ids_distinct_paths(a: Seq<char>, b: Seq<char>)
    requires
        a != b,
    ensures
        dir_of(a) != dir_of(b),
        script_of(a) != script_of(b),
{
    let root = "temp/"@;
    let file = "/script.js"@;
    assert(dir_of(a).subrange(root.len() as int, dir_of(a).len() as int) =~= a);
    assert(dir_of(b).subrange(root.len() as int, dir_of(b).len() as int) =~= b);
    assert(script_of(a).subrange(0, dir_of(a).len() as int) =~= dir_of(a));
    assert(script_of(b).subrange(0, dir_of(b).len() as int) =~= dir_of(b));
    if script_of(a) == script_of(b) {
        assert(dir_of(a).len() + file.len() == dir_of(b).len() + file.len());
    }
}

} // verus!
