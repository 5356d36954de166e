//! Reveal-in-file-manager command: given a file-system path, pick the
//! OS mechanism that opens a file manager with that path highlighted.
//! One platform gets a direct explorer invocation, another a desktop-bus
//! method call, the third a finder invocation. The bus call cannot carry
//! a comma in its argument, so a path holding one — or a missing bus
//! connection — falls back to a generic "open the containing directory"
//! invocation. The selection is decided here; the shell performs the
//! chosen invocation and surfaces any failure as a string-described
//! error, never a process-level fault.

use vstd::prelude::*;
use vstd::string::StrSliceExecFns;

verus! {

/// The platform the shell was built for, fixed at startup.
#[derive(Clone, Copy, PartialEq, Eq, Structural, Debug)]
pub enum Platform {
    Windows,
    Linux,
    MacOs,
}

/// The concrete invocation chosen for one reveal request.
#[derive(Clone, Debug)]
pub enum RevealPlan {
    /// Direct explorer invocation with the path selected.
    ExplorerSelect { path: String },
    /// Desktop-bus call asking the file manager to show the item.
    DbusShowItems { path: String },
    /// Generic opener pointed at the containing directory.
    OpenContainingDir { dir: String },
    /// Finder invocation revealing the path.
    FinderReveal { path: String },
}

#[verifier::ext_equal]
pub ghost enum RevealPlanView {
    ExplorerSelect { path: Seq<char> },
    DbusShowItems { path: Seq<char> },
    OpenContainingDir { dir: Seq<char> },
    FinderReveal { path: Seq<char> },
}

impl View for RevealPlan {
    type V = RevealPlanView;

    open spec fn view(&self) -> RevealPlanView {
        match self {
            RevealPlan::ExplorerSelect { path } => RevealPlanView::ExplorerSelect { path: path@ },
            RevealPlan::DbusShowItems { path } => RevealPlanView::DbusShowItems { path: path@ },
            RevealPlan::OpenContainingDir { dir } => RevealPlanView::OpenContainingDir {
                dir: dir@,
            },
            RevealPlan::FinderReveal { path } => RevealPlanView::FinderReveal { path: path@ },
        }
    }
}

/// A path the desktop-bus call can carry: its argument escaping breaks
/// on a comma.
pub open spec fn bus_safe(path: Seq<char>) -> bool {
    !path.contains(',')
}

/// Index of the last path separator, or -1 when there is none.
pub open spec fn last_slash(s: Seq<char>) -> int
    decreases s.len(),
{
    if s.len() == 0 {
        -1
    } else if s.last() == '/' {
        s.len() - 1
    } else {
        last_slash(s.drop_last())
    }
}

/// Directory containing a path: everything before the last separator,
/// the root when the last separator starts the path, and the current
/// directory when the path is a bare name.
pub open spec fn spec_parent_dir(s: Seq<char>) -> Seq<char> {
    let k = last_slash(s);
    if k == -1 {
        "."@
    } else if k == 0 {
        "/"@
    } else {
        s.subrange(0, k)
    }
}

proof fn lemma_last_slash_found(s: Seq<char>, k: int)
    requires
        0 <= k < s.len(),
        s[k] == '/',
        forall|j: int| k < j < s.len() ==> s[j] != '/',
    ensures
        last_slash(s) == k,
    decreases s.len(),
{
    if k < s.len() - 1 {
        assert(s.last() != '/');
        assert(s.drop_last()[k] == '/');
        assert(forall|j: int| k < j < s.drop_last().len() ==> s.drop_last()[j] != '/');
        lemma_last_slash_found(s.drop_last(), k);
    }
}

proof fn lemma_last_slash_none(s: Seq<char>)
    requires
        forall|j: int| 0 <= j < s.len() ==> s[j] != '/',
    ensures
        last_slash(s) == -1,
    decreases s.len(),
{
    if s.len() > 0 {
        assert(forall|j: int| 0 <= j < s.drop_last().len() ==> s.drop_last()[j] != '/');
        lemma_last_slash_none(s.drop_last());
    }
}

/// Whether the string holds the character anywhere.
pub fn contains_char(s: &str, c: char) -> (b: bool)
    ensures
        b == s@.contains(c),
{
    let n = s.unicode_len();
    let mut i: usize = 0;
    while i < n
        invariant
            n == s@.len(),
            i <= n,
            forall|j: int| 0 <= j < i ==> s@[j] != c,
        decreases n - i,
    {
        if s.get_char(i) == c {
            proof {
                assert(s@[i as int] == c);
            }
            return true;
        }
        i = i + 1;
    }
    false
}

/// Directory containing the path, as the fallback invocation needs it.
pub fn parent_dir(path: &str) -> (r: String)
    ensures
        r@ == spec_parent_dir(path@),
{
    let n = path.unicode_len();
    let mut i: usize = n;
    while i > 0
        invariant
            n == path@.len(),
            i <= n,
            forall|j: int| i <= j < n ==> path@[j] != '/',
        decreases i,
    {
        if path.get_char(i - 1) == '/' {
            proof {
                lemma_last_slash_found(path@, i - 1);
            }
            if i == 1 {
                return "/".to_owned();
            }
            let dir = path.substring_char(0, i - 1);
            return dir.to_owned();
        }
        i = i - 1;
    }
    proof {
        lemma_last_slash_none(path@);
    }
    ".".to_owned()
}

/// The invocation each platform and path gets.
pub open spec fn spec_plan_reveal(
    platform: Platform,
    path: Seq<char>,
    bus_available: bool,
) -> RevealPlanView {
    match platform {
        Platform::Windows => RevealPlanView::ExplorerSelect { path },
        Platform::MacOs => RevealPlanView::FinderReveal { path },
        Platform::Linux => if bus_available && bus_safe(path) {
            RevealPlanView::DbusShowItems { path }
        } else {
            RevealPlanView::OpenContainingDir { dir: spec_parent_dir(path) }
        },
    }
}

/// Picks the mechanism that reveals the path on this platform: a direct
/// invocation where the OS has one, the desktop-bus call where the bus
/// is reachable and can carry the path, and the generic
/// containing-directory fallback otherwise.
pub fn plan_reveal(platform: Platform, path: String, bus_available: bool) -> (r: RevealPlan)
    ensures
        r@ == spec_plan_reveal(platform, path@, bus_available),
{
    match platform {
        Platform::Windows => RevealPlan::ExplorerSelect { path },
        Platform::MacOs => RevealPlan::FinderReveal { path },
        Platform::Linux => {
            if bus_available && !contains_char(path.as_str(), ',') {
                RevealPlan::DbusShowItems { path }
            } else {
                let dir = parent_dir(path.as_str());
                RevealPlan::OpenContainingDir { dir }
            }
        },
    }
}

} // verus!
