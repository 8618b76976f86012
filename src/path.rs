use vstd::prelude::*;

use crate::error::{AppError, ErrorView};

verus! {

/// The separator between path components.
pub open spec fn is_separator(c: char) -> bool {
    c == '/'
}

/// The component of `s` that starts at `i` is exactly `..`.
pub open spec fn parent_component_at(s: Seq<char>, i: int) -> bool {
    &&& 0 <= i
    &&& i + 2 <= s.len()
    &&& s[i] == '.'
    &&& s[i + 1] == '.'
    &&& (i == 0 || is_separator(s[i - 1]))
    &&& (i + 2 == s.len() || is_separator(s[i + 2]))
}

/// Some component of the path `s` is a parent-directory reference.
pub open spec fn has_parent_component(s: Seq<char>) -> bool {
    exists|i: int| parent_component_at(s, i)
}

/// A single file name: no separator in it, and not a parent-directory reference.
pub open spec fn is_plain_name(n: Seq<char>) -> bool {
    &&& forall|k: int| 0 <= k < n.len() ==> !is_separator(#[trigger] n[k])
    &&& n != seq!['.', '.']
}

/// `name` appended to the directory `dir`, with one separator between them.
pub open spec fn join(dir: Seq<char>, name: Seq<char>) -> Seq<char> {
    if dir.len() == 0 || is_separator(dir.last()) {
        dir + name
    } else {
        dir + seq!['/'] + name
    }
}

/// What std's `Path::parent` returns for a path.
pub uninterp spec fn parent_of(s: Seq<char>) -> Option<Seq<char>>;

/// What std's `Path::file_name` returns for a path.
pub uninterp spec fn file_name_of(s: Seq<char>) -> Option<Seq<char>>;

pub open spec fn opt_view(o: Option<String>) -> Option<Seq<char>> {
    match o {
        Some(s) => Some(s@),
        None => None,
    }
}

pub open spec fn outcome_view(o: Result<String, String>) -> Result<Seq<char>, Seq<char>> {
    match o {
        Ok(s) => Ok(s@),
        Err(e) => Err(e@),
    }
}

/// The path that validation settles on before the traversal check, from the
/// outcome of canonicalizing the path itself (`direct`), its parent and final
/// component, and the outcome of canonicalizing that parent.
pub open spec fn candidate_path(
    direct: Result<Seq<char>, Seq<char>>,
    parent: Option<Seq<char>>,
    name: Option<Seq<char>>,
    parent_canonical: Result<Seq<char>, Seq<char>>,
) -> Result<Seq<char>, ErrorView> {
    match direct {
        Ok(c) => Ok(c),
        Err(_) => match parent {
            None => Err(ErrorView::PathValidation("No parent directory"@)),
            Some(_) => match name {
                None => Err(ErrorView::PathValidation("No file name"@)),
                Some(n) => match parent_canonical {
                    Ok(p) => Ok(join(p, n)),
                    Err(e) => Err(
                        ErrorView::PathValidation("Parent directory does not exist: "@ + e),
                    ),
                },
            },
        },
    }
}

/// The result of validation: the candidate path, unless it holds a
/// parent-directory component.
pub open spec fn resolution(
    direct: Result<Seq<char>, Seq<char>>,
    parent: Option<Seq<char>>,
    name: Option<Seq<char>>,
    parent_canonical: Result<Seq<char>, Seq<char>>,
) -> Result<Seq<char>, ErrorView> {
    match candidate_path(direct, parent, name, parent_canonical) {
        Ok(c) => if has_parent_component(c) {
            Err(ErrorView::PathTraversal)
        } else {
            Ok(c)
        },
        Err(e) => Err(e),
    }
}

/// `r` is the executable form of the mathematical result `m`.
pub open spec fn result_is(r: Result<ValidatedPath, AppError>, m: Result<Seq<char>, ErrorView>) -> bool {
    match r {
        Ok(v) => m == Ok::<Seq<char>, ErrorView>(v@),
        Err(e) => m == Err::<Seq<char>, ErrorView>(e@),
    }
}

/// An absolute path that holds no parent-directory component.
pub struct ValidatedPath {
    path: String,
}

impl View for ValidatedPath {
    type V = Seq<char>;

    closed spec fn view(&self) -> Seq<char> {
        self.path@
    }
}

impl ValidatedPath {
    #[verifier::type_invariant]
    spec fn well_formed(&self) -> bool {
        !has_parent_component(self.path@)
    }

    pub fn as_str(&self) -> (r: &str)
        ensures
            r@ == self@,
            !has_parent_component(self@),
    {
        proof {
            use_type_invariant(self);
        }
        self.path.as_str()
    }

    pub fn into_string(self) -> (r: String)
        ensures
            r@ == self@,
    {
        self.path
    }
}

/// The characters of `s`, in order.
pub fn chars_of(s: &str) -> (r: Vec<char>)
    ensures
        r@ == s@,
{
    let mut r: Vec<char> = Vec::new();
    for c in it: s.chars()
        invariant
            r@ == it.seq().subrange(0, it.index() as int),
    {
        r.push(c);
    }
    r
}

/// Whether some component of `s` is a parent-directory reference.
pub fn contains_parent_component(s: &str) -> (r: bool)
    ensures
        r == has_parent_component(s@),
{
    let v = chars_of(s);
    let n = v.len();
    let mut i: usize = 0;
    while i < n
        invariant
            i <= n,
            n == v@.len(),
            v@ == s@,
            forall|k: int| 0 <= k < i ==> !parent_component_at(s@, k),
        decreases n - i,
    {
        if i + 1 < n && v[i] == '.' && v[i + 1] == '.' && (i == 0 || v[i - 1] == '/') && (i + 2
            == n || v[i + 2] == '/') {
            assert(parent_component_at(s@, i as int));
            return true;
        }
        i = i + 1;
    }
    assert forall|k: int| !parent_component_at(s@, k) by {
        if 0 <= k < n {
        }
    }
    false
}

/// Wraps `candidate` as a validated path, or refuses it when it holds a
/// parent-directory component.
pub fn check_traversal(candidate: String) -> (r: Result<ValidatedPath, AppError>)
    ensures
        has_parent_component(candidate@) ==> r is Err && r->Err_0@ == ErrorView::PathTraversal,
        !has_parent_component(candidate@) ==> r is Ok && r->Ok_0@ == candidate@,
{
    if contains_parent_component(candidate.as_str()) {
        Err(AppError::PathTraversal)
    } else {
        Ok(ValidatedPath { path: candidate })
    }
}

/// Appends the file name `name` to the directory `dir`.
pub fn join_name(dir: &str, name: &str) -> (r: String)
    ensures
        r@ == join(dir@, name@),
{
    let d = chars_of(dir);
    let mut r = String::from_str(dir);
    if d.len() > 0 && d[d.len() - 1] != '/' {
        r.append("/");
        proof {
            reveal_strlit("/");
        }
    }
    r.append(name);
    r
}

/// Relies on std's `Path::canonicalize`: the outcome depends on the file
/// system, so nothing is stated of it.
#[verifier::external_body]
fn canonicalize(s: &str) -> (r: Result<String, String>) {
    std::path::Path::new(s).canonicalize().map(|p| p.to_string_lossy().into_owned()).map_err(
        |e| e.to_string(),
    )
}

/// Relies on std's `Path::parent`: the path without its final component.
#[verifier::external_body]
fn path_parent(s: &str) -> (r: Option<String>)
    ensures
        opt_view(r) == parent_of(s@),
{
    std::path::Path::new(s).parent().map(|p| p.to_string_lossy().into_owned())
}

/// Relies on std's `Path::file_name`: the final component of the path, which
/// holds no separator, and none where the path ends in `..`.
#[verifier::external_body]
fn path_file_name(s: &str) -> (r: Option<String>)
    ensures
        opt_view(r) == file_name_of(s@),
        r is Some ==> is_plain_name(r->0@),
{
    std::path::Path::new(s).file_name().map(|n| n.to_string_lossy().into_owned())
}

/// Decides the validated path from the outcome of canonicalizing the path
/// itself, its parent and final component, and the outcome of canonicalizing
/// that parent (read only where the first failed).
pub fn resolve(
    direct: Result<String, String>,
    parent: Option<String>,
    name: Option<String>,
    parent_canonical: Result<String, String>,
) -> (r: Result<ValidatedPath, AppError>)
    ensures
        result_is(
            r,
            resolution(
                outcome_view(direct),
                opt_view(parent),
                opt_view(name),
                outcome_view(parent_canonical),
            ),
        ),
{
    let candidate = match direct {
        Ok(c) => c,
        Err(_) => {
            if parent.is_none() {
                return Err(AppError::PathValidation(String::from_str("No parent directory")));
            }
            match name {
                None => {
                    return Err(AppError::PathValidation(String::from_str("No file name")));
                },
                Some(n) => match parent_canonical {
                    Ok(p) => join_name(p.as_str(), n.as_str()),
                    Err(e) => {
                        let mut m = String::from_str("Parent directory does not exist: ");
                        m.append(e.as_str());
                        return Err(AppError::PathValidation(m));
                    },
                },
            }
        },
    };
    check_traversal(candidate)
}

/// Resolves an untrusted path string to a canonical path with no
/// parent-directory component: the path itself where it canonicalizes, else
/// its canonical parent joined with its final component.
pub fn validate_path(path_str: &str) -> (r: Result<ValidatedPath, AppError>)
    ensures
        exists|direct: Result<Seq<char>, Seq<char>>, parent_canonical: Result<Seq<char>, Seq<char>>|
            result_is(
                r,
                #[trigger] resolution(
                    direct,
                    parent_of(path_str@),
                    file_name_of(path_str@),
                    parent_canonical,
                ),
            ),
        r is Ok ==> !has_parent_component(r->Ok_0@),
{
    let direct = canonicalize(path_str);
    let parent = path_parent(path_str);
    let name = path_file_name(path_str);
    let parent_canonical = match (&direct, &parent, &name) {
        (Err(_), Some(p), Some(_)) => canonicalize(p.as_str()),
        _ => Err(String::new()),
    };
    let ghost d = outcome_view(direct);
    let ghost pc = outcome_view(parent_canonical);
    let r = resolve(direct, parent, name, parent_canonical);
    assert(result_is(r, resolution(d, parent_of(path_str@), file_name_of(path_str@), pc)));
    if let Ok(v) = &r {
        proof {
            use_type_invariant(v);
        }
    }
    r
}

/// Joining a plain file name to a directory path with no parent-directory
/// component yields a path with none either.
pub proof fn lemma_join_plain_name(dir: Seq<char>, name: Seq<char>)
    requires
        !has_parent_component(dir),
        is_plain_name(name),
    ensures
        !has_parent_component(join(dir, name)),
{
    let j = join(dir, name);
    let off: int = j.len() - name.len();
    assert forall|i: int| !parent_component_at(j, i) by {
        if parent_component_at(j, i) {
            assert(j.subrange(off, j.len() as int) =~= name);
            if i + 2 <= dir.len() {
                assert(j[i] == dir[i] && j[i + 1] == dir[i + 1]);
                if i > 0 {
                    assert(j[i - 1] == dir[i - 1]);
                }
                if i + 2 < dir.len() {
                    assert(j[i + 2] == dir[i + 2]);
                }
                assert(parent_component_at(dir, i));
            } else if i + 1 == dir.len() {
                assert(j[i] == dir.last());
            } else if i >= off {
                assert(j[i] == name[i - off]);
                assert(j[i + 1] == name[i + 1 - off]);
                if i > off {
                    assert(j[i - 1] == name[i - 1 - off]);
                } else if off > 0 {
                    assert(is_separator(j[off - 1]));
                }
                if i + 2 < j.len() {
                    assert(j[i + 2] == name[i + 2 - off]);
                }
                assert(name =~= seq!['.', '.']);
            } else {
                assert(j[i] == '/');
            }
        }
    }
}

/// A path whose candidate form still holds a parent-directory component is
/// refused as a traversal.
pub proof fn lemma_surviving_parent_is_traversal(
    direct: Result<Seq<char>, Seq<char>>,
    parent: Option<Seq<char>>,
    name: Option<Seq<char>>,
    parent_canonical: Result<Seq<char>, Seq<char>>,
)
    requires
        candidate_path(direct, parent, name, parent_canonical) is Ok,
        has_parent_component(candidate_path(direct, parent, name, parent_canonical)->Ok_0),
    ensures
        resolution(direct, parent, name, parent_canonical) == Err::<Seq<char>, ErrorView>(
            ErrorView::PathTraversal,
        ),
{
}

/// An existing path resolves to exactly its canonical form, whatever else is
/// known of it.
pub proof fn lemma_existing_path_is_canonical(
    canonical: Seq<char>,
    parent: Option<Seq<char>>,
    name: Option<Seq<char>>,
    parent_canonical: Result<Seq<char>, Seq<char>>,
)
    requires
        !has_parent_component(canonical),
    ensures
        resolution(Ok(canonical), parent, name, parent_canonical) == Ok::<Seq<char>, ErrorView>(
            canonical,
        ),
{
}

/// A path that does not exist, whose parent does, resolves to the canonical
/// parent joined with its file name.
pub proof fn lemma_new_file_in_existing_dir(
    failure: Seq<char>,
    parent: Seq<char>,
    name: Seq<char>,
    parent_canonical: Seq<char>,
)
    requires
        is_plain_name(name),
        !has_parent_component(parent_canonical),
    ensures
        resolution(Err(failure), Some(parent), Some(name), Ok(parent_canonical)) == Ok::<
            Seq<char>,
            ErrorView,
        >(join(parent_canonical, name)),
{
    lemma_join_plain_name(parent_canonical, name);
}

} // verus!
