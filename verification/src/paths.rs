//! Platform path resolution: the fixed, OS-conditioned formulas that locate
//! the emulator's data directory and the paths derived from it, together
//! with the path arithmetic (joining, parent) that the rest of the library
//! builds on. Paths are plain strings with `/` as the separator.

use vstd::prelude::*;

verus! {

/// The operating-system family the resolver is running on. `Other` covers
/// every system that is neither macOS nor Windows.
#[derive(Clone, Copy, PartialEq, Eq, Structural, Debug)]
pub enum Os {
    MacOs,
    Windows,
    Other,
}

/// The characters of `base`, a separator, then the characters of `rel`.
pub open spec fn joined(base: Seq<char>, rel: Seq<char>) -> Seq<char> {
    base + seq!['/'] + rel
}

/// Index of the last `/` in `s`, or `-1` if `s` has none.
pub open spec fn last_slash_idx(s: Seq<char>) -> int
    decreases s.len(),
{
    if s.len() == 0 {
        -1
    } else if s[s.len() - 1] == '/' {
        s.len() - 1
    } else {
        last_slash_idx(s.subrange(0, s.len() - 1))
    }
}

/// Whether `s` has a parent path, i.e. contains a separator.
pub open spec fn has_parent(s: Seq<char>) -> bool {
    last_slash_idx(s) >= 0
}

/// Everything before the last separator of `s`.
pub open spec fn parent_seq(s: Seq<char>) -> Seq<char> {
    s.subrange(0, last_slash_idx(s))
}

pub proof fn lemma_last_slash_ge(s: Seq<char>, i: int)
    requires
        0 <= i < s.len(),
        s[i] == '/',
    ensures
        last_slash_idx(s) >= i,
    decreases s.len(),
{
    if s[s.len() - 1] == '/' {
    } else {
        let t = s.subrange(0, s.len() - 1);
        assert(i < s.len() - 1);
        assert(t[i] == '/');
        lemma_last_slash_ge(t, i);
    }
}

/// A joined path always has a parent, because the join inserted a separator.
pub proof fn lemma_joined_has_parent(base: Seq<char>, rel: Seq<char>)
    ensures
        has_parent(joined(base, rel)),
{
    let j = joined(base, rel);
    assert(j[base.len() as int] == '/');
    lemma_last_slash_ge(j, base.len() as int);
}

/// `base`, a separator, then `rel`, as one freshly allocated string.
pub fn join_path(base: &str, rel: &str) -> (r: String)
    ensures
        r@ == joined(base@, rel@),
{
    let mut s: String = base.to_owned();
    s.append("/");
    s.append(rel);
    proof {
        reveal_strlit("/");
        assert(s@ =~= joined(base@, rel@));
    }
    s
}

/// Everything before the last separator of `path`, or `None` if `path`
/// contains no separator.
pub fn parent_dir(path: &str) -> (r: Option<String>)
    ensures
        has_parent(path@) ==> r is Some && r->Some_0@ == parent_seq(path@),
        !has_parent(path@) ==> r is None,
{
    let n: usize = path.unicode_len();
    let mut i: usize = n;
    proof {
        assert(path@.subrange(0, n as int) =~= path@);
    }
    while i > 0
        invariant
            i <= n,
            n == path@.len(),
            last_slash_idx(path@) == last_slash_idx(path@.subrange(0, i as int)),
        decreases i,
    {
        if path.get_char(i - 1) == '/' {
            proof {
                let t = path@.subrange(0, i as int);
                assert(t[t.len() - 1] == '/');
                assert(last_slash_idx(t) == i - 1);
            }
            return Some(path.substring_char(0, i - 1).to_owned());
        }
        proof {
            let t = path@.subrange(0, i as int);
            assert(t[t.len() - 1] != '/');
            assert(t.subrange(0, t.len() - 1) =~= path@.subrange(0, i - 1));
        }
        i = i - 1;
    }
    proof {
        assert(path@.subrange(0, 0).len() == 0);
    }
    None
}

/// The emulator's data directory, given the OS-reported base directory
/// (the home directory on macOS and other Unix-likes, the roaming
/// app-data directory on Windows). Pure path arithmetic: three fixed
/// formulas, one per OS family, and nothing when the base is unknown.
pub fn emulator_data_dir(os: Os, base: Option<&str>) -> (r: Option<String>)
    ensures
        r is Some <==> base is Some,
        base is Some && os is MacOs ==> r->Some_0@ == base->Some_0@
            + "/Library/Application Support/Ryujinx"@,
        base is Some && os is Windows ==> r->Some_0@ == base->Some_0@ + "/Ryujinx"@,
        base is Some && os is Other ==> r->Some_0@ == base->Some_0@ + "/.config/Ryujinx"@,
{
    match base {
        None => None,
        Some(b) => match os {
            Os::MacOs => Some(b.to_owned().concat("/Library/Application Support/Ryujinx")),
            Os::Windows => Some(b.to_owned().concat("/Ryujinx")),
            Os::Other => Some(b.to_owned().concat("/.config/Ryujinx")),
        },
    }
}

/// Relies on dirs::home_dir: the OS-reported home directory, an
/// environment-dependent value of which nothing further is promised.
#[verifier::external_body]
fn os_home_dir() -> (r: Option<String>) {
    dirs::home_dir().map(|p| p.to_string_lossy().into_owned())
}

/// The emulator's data directory resolved from the environment: on
/// Windows from the caller-supplied app-data directory, elsewhere from
/// the OS-reported home directory. The value of the home directory is
/// environment-dependent, so on macOS and other Unix-likes only the
/// shape of the result is promised; the formula itself is stated
/// exactly by [`emulator_data_dir`].
pub fn ryujinx_data_path(os: Os, windows_app_data: Option<&str>) -> (r: Option<String>)
    ensures
        os is Windows ==> (r is Some <==> windows_app_data is Some),
        os is Windows && windows_app_data is Some ==> r->Some_0@ == windows_app_data->Some_0@
            + "/Ryujinx"@,
        os is MacOs && r is Some ==> exists|h: Seq<char>|
            r->Some_0@ == h + "/Library/Application Support/Ryujinx"@,
        os is Other && r is Some ==> exists|h: Seq<char>| r->Some_0@ == h + "/.config/Ryujinx"@,
{
    match os {
        Os::Windows => emulator_data_dir(os, windows_app_data),
        _ => {
            let home = os_home_dir();
            match home {
                None => None,
                Some(h) => emulator_data_dir(os, Some(h.as_str())),
            }
        },
    }
}

/// The known-bad file under the emulator's data directory: a specific
/// mod's system-override file left behind by a prior broken release.
pub fn known_bad_file(data_dir: &str) -> (r: String)
    ensures
        r@ == data_dir@ + "/mods/contents/0100a6301214e000/skyline/exefs/subsdk9"@,
{
    data_dir.to_owned().concat("/mods/contents/0100a6301214e000/skyline/exefs/subsdk9")
}

/// The default installation destination: the emulator's virtual SD-card
/// directory under its data directory.
pub fn default_destination(data_dir: &str) -> (r: String)
    ensures
        r@ == data_dir@ + "/sdcard"@,
{
    data_dir.to_owned().concat("/sdcard")
}

/// The mods directory that the installer guarantees to exist under the
/// destination root.
pub fn mods_dir(destination_root: &str) -> (r: String)
    ensures
        r@ == destination_root@ + "/engage/mods"@,
{
    destination_root.to_owned().concat("/engage/mods")
}

} // verus!
