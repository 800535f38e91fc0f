//! Decisions of the interactive flows: which menu entries are offered, how a
//! failed login is classified, where the store lives, how titles are centred,
//! and the display name carried in a session token.
use vstd::prelude::*;
use vstd::string::StringExecFns;

verus! {

/// An entry of the main menu.
#[derive(Clone, Copy, Debug, PartialEq, Eq, Structural)]
pub enum MenuChoice {
    Register,
    Login,
    UploadPicture,
    Logout,
    Exit,
}

/// The entries offered, in order, for the given authentication state.
pub open spec fn menu_spec(logged_in: bool) -> Seq<MenuChoice> {
    if logged_in {
        seq![MenuChoice::UploadPicture, MenuChoice::Logout, MenuChoice::Exit]
    } else {
        seq![MenuChoice::Register, MenuChoice::Login, MenuChoice::Exit]
    }
}

/// The entries of the main menu: upload and logout only when authenticated.
pub fn menu_items(logged_in: bool) -> (r: Vec<MenuChoice>)
    ensures
        r@ == menu_spec(logged_in),
{
    if logged_in {
        vec![MenuChoice::UploadPicture, MenuChoice::Logout, MenuChoice::Exit]
    } else {
        vec![MenuChoice::Register, MenuChoice::Login, MenuChoice::Exit]
    }
}

/// How a failed login is reported to the user.
#[derive(Clone, Copy, Debug, PartialEq, Eq, Structural)]
pub enum LoginFailure {
    InvalidCredentials,
    Other,
}

/// `p` occurs in `s` as a contiguous run.
pub open spec fn occurs_in(p: Seq<char>, s: Seq<char>) -> bool {
    exists|i: int| 0 <= i <= s.len() - p.len() && #[trigger] s.subrange(i, i + p.len()) == p
}

/// What `str::to_lowercase` makes of a text.
pub uninterp spec fn lower_of(s: Seq<char>) -> Seq<char>;

/// Relies on str::to_lowercase for Unicode lower-casing.
#[verifier::external_body]
fn lowercase(s: &str) -> (r: String)
    ensures
        r@ == lower_of(s@),
{
    s.to_lowercase()
}

/// Relies on str::contains with a `&str` pattern: whether the pattern occurs.
#[verifier::external_body]
fn contains_text(s: &str, p: &str) -> (r: bool)
    ensures
        r == occurs_in(p@, s@),
{
    s.contains(p)
}

/// Whether a lower-cased failure text names one of the known signs of wrong
/// credentials.
pub open spec fn names_bad_credentials(lower: Seq<char>) -> bool {
    occurs_in("bcrypt"@, lower) || occurs_in("hashedpassword"@, lower) || occurs_in(
        "usuario no encontrado"@,
        lower,
    ) || occurs_in("no rows"@, lower) || occurs_in("invalid"@, lower) || occurs_in(
        "bad request"@,
        lower,
    )
}

/// The classification of an already lower-cased failure text.
pub fn classify_lowered(lower: &str) -> (r: LoginFailure)
    ensures
        r == (if names_bad_credentials(lower@) {
            LoginFailure::InvalidCredentials
        } else {
            LoginFailure::Other
        }),
{
    if contains_text(lower, "bcrypt") || contains_text(lower, "hashedpassword") || contains_text(
        lower,
        "usuario no encontrado",
    ) || contains_text(lower, "no rows") || contains_text(lower, "invalid") || contains_text(
        lower,
        "bad request",
    ) {
        LoginFailure::InvalidCredentials
    } else {
        LoginFailure::Other
    }
}

/// The classification of a failure text, compared without regard to case.
/// This is a heuristic on the service's free text, not a stable contract.
pub fn classify_login_failure(text: &str) -> (r: LoginFailure)
    ensures
        r == (if names_bad_credentials(lower_of(text@)) {
            LoginFailure::InvalidCredentials
        } else {
            LoginFailure::Other
        }),
{
    let lower = lowercase(text);
    classify_lowered(lower.as_str())
}

/// The store's directory: the override if given, else the first of the
/// candidate directories that holds the marker file, else the working
/// directory, else `.`.
pub open spec fn store_dir_spec(
    override_dir: Option<Seq<char>>,
    candidates: Seq<Seq<char>>,
    has_marker: Seq<bool>,
    cwd: Option<Seq<char>>,
) -> Seq<char> {
    match override_dir {
        Some(d) => d,
        None => if exists|i: int| 0 <= i < candidates.len() && #[trigger] has_marker[i] {
            candidates[first_marked(has_marker)]
        } else {
            match cwd {
                Some(c) => c,
                None => "."@,
            }
        },
    }
}

/// The index of the first `true`, or the length where there is none.
pub open spec fn first_marked(has_marker: Seq<bool>) -> int
    decreases has_marker.len(),
{
    if has_marker.len() == 0 {
        0
    } else if has_marker[0] {
        0
    } else {
        1 + first_marked(has_marker.drop_first())
    }
}

proof fn first_marked_facts(m: Seq<bool>, k: int)
    requires
        0 <= k <= m.len(),
        forall|j: int| 0 <= j < k ==> !#[trigger] m[j],
    ensures
        k < m.len() && m[k] ==> first_marked(m) == k,
        k == m.len() ==> first_marked(m) == m.len(),
    decreases k,
{
    if k > 0 {
        let rest = m.drop_first();
        assert forall|j: int| 0 <= j < k - 1 implies !#[trigger] rest[j] by {
            assert(rest[j] == m[j + 1]);
        }
        first_marked_facts(rest, k - 1);
        if k < m.len() {
            assert(rest[k - 1] == m[k]);
        }
    }
}

/// The view of each string of a vector.
pub open spec fn views(v: Seq<String>) -> Seq<Seq<char>> {
    v.map_values(|s: String| s@)
}

/// The directory where the credential store lives, searched in a fixed order:
/// the explicit override, the nearest candidate (the executable's directory and
/// its ancestors, nearest first) that holds the project marker, the working
/// directory, `.`.
pub fn find_project_dir(
    override_dir: Option<String>,
    candidates: &Vec<String>,
    has_marker: &Vec<bool>,
    cwd: Option<String>,
) -> (r: String)
    requires
        candidates.len() == has_marker.len(),
    ensures
        r@ == store_dir_spec(
            match override_dir {
                Some(d) => Some(d@),
                None => None,
            },
            views(candidates@),
            has_marker@,
            match cwd {
                Some(c) => Some(c@),
                None => None,
            },
        ),
{
    if override_dir.is_some() {
        return override_dir.unwrap();
    }
    let mut i: usize = 0;
    while i < has_marker.len()
        invariant
            0 <= i <= has_marker.len(),
            candidates.len() == has_marker.len(),
            override_dir is None,
            forall|j: int| 0 <= j < i ==> !#[trigger] has_marker@[j],
        decreases has_marker.len() - i,
    {
        if has_marker[i] {
            proof {
                first_marked_facts(has_marker@, i as int);
                assert(views(candidates@).len() == candidates@.len());
                assert(has_marker@[i as int]);
                assert(exists|j: int| 0 <= j < views(candidates@).len() && #[trigger] has_marker@[j]);
                assert(views(candidates@)[i as int] == candidates@[i as int]@);
            }
            return candidates[i].clone();
        }
        i = i + 1;
    }
    proof {
        assert(!(exists|j: int| 0 <= j < has_marker@.len() && #[trigger] has_marker@[j]));
    }
    match cwd {
        Some(c) => c,
        None => String::from_str("."),
    }
}

/// The padding put on each side of a title of `title_len` bytes to centre it
/// within `width` columns.
pub fn centre_padding(width: usize, title_len: usize) -> (r: usize)
    ensures
        r == (if width > title_len {
            (width - title_len) / 2
        } else {
            0
        }),
{
    if width > title_len {
        (width - title_len) / 2
    } else {
        0
    }
}

} // verus!
