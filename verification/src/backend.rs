//! The desktop backend abstraction: probed capability sets, the
//! selection of a backend for the running environment, the judgement of
//! an ordered fallback, and the capability interface both families
//! implement.
//!
//! A backend here plans subprocess commands and reads their output; the
//! surrounding application runs them.

use vstd::prelude::*;
use crate::Error;
use crate::chars::{eq_fold, seq_lower};

verus! {

/// One subprocess call: the program and its arguments, in order.
pub struct Invocation {
    pub argv: Vec<String>,
}

/// The plain view of one subprocess call.
pub open spec fn invocation_view(c: Invocation) -> Seq<Seq<char>> {
    c.argv.deep_view()
}

/// One way of setting the wallpaper: its calls run in order, and the
/// attempt succeeds when every call does.
pub struct Attempt {
    pub commands: Vec<Invocation>,
}

/// The plain view of one attempt.
pub open spec fn attempt_view(a: Attempt) -> Seq<Seq<Seq<char>>> {
    a.commands@.map_values(|c: Invocation| invocation_view(c))
}

/// The plain view of an ordered list of attempts.
pub open spec fn plan_view(p: Seq<Attempt>) -> Seq<Seq<Seq<Seq<char>>>> {
    p.map_values(|a: Attempt| attempt_view(a))
}

/// The view of an optionally given string argument.
pub open spec fn opt_str_view(s: Option<&String>) -> Option<Seq<char>> {
    match s {
        Some(t) => Some(t@),
        None => None,
    }
}

/// Appends one fixed word to an argument vector.
pub(crate) fn push_lit(v: &mut Vec<String>, s: &str)
    ensures
        final(v)@.len() == old(v)@.len() + 1,
        final(v)@[old(v)@.len() as int]@ == s@,
        forall|i: int| 0 <= i < old(v)@.len() ==> final(v)@[i] == old(v)@[i],
{
    v.push(String::from_str(s));
}

/// The tools a tiling-compositor desktop may offer, as probed once at
/// start; the set never changes afterward.
#[derive(Clone, Copy, Debug, PartialEq, Eq, Structural)]
pub struct WallpaperTools {
    pub has_hyprpaper: bool,
    pub has_swww: bool,
    pub has_swaybg: bool,
}

impl WallpaperTools {
    /// At least one tool is present.
    pub open spec fn any_spec(self) -> bool {
        self.has_hyprpaper || self.has_swww || self.has_swaybg
    }

    /// A probed capability set.  Instantiating the backend with no
    /// usable tool at all is a fatal configuration fault, so that case
    /// is left out by precondition.
    pub fn new(has_hyprpaper: bool, has_swww: bool, has_swaybg: bool) -> (r: Self)
        requires
            has_hyprpaper || has_swww || has_swaybg,
        ensures
            r.has_hyprpaper == has_hyprpaper,
            r.has_swww == has_swww,
            r.has_swaybg == has_swaybg,
            r.any_spec(),
    {
        WallpaperTools { has_hyprpaper, has_swww, has_swaybg }
    }

    /// Whether any tool is present.
    pub fn has_any(&self) -> (r: bool)
        ensures
            r == self.any_spec(),
    {
        self.has_hyprpaper || self.has_swww || self.has_swaybg
    }
}

/// The desktop families a backend exists for.
#[derive(Clone, Copy, Debug, PartialEq, Eq, Structural)]
pub enum BackendKind {
    Hyprland,
    Plasma,
}

/// Which backend the environment calls for: a recognized desktop
/// identity decides directly; an unrecognized or absent one falls
/// through the families' own availability probes in order; when none
/// answers, no desktop is supported.
pub open spec fn select_spec(hint: Seq<char>, hyprland_available: bool, plasma_available: bool) -> Result<
    BackendKind,
    Error,
> {
    if seq_lower(hint) == seq_lower("hyprland"@) {
        Ok(BackendKind::Hyprland)
    } else if seq_lower(hint) == seq_lower("kde"@) || seq_lower(hint) == seq_lower("plasma"@) {
        Ok(BackendKind::Plasma)
    } else if hyprland_available {
        Ok(BackendKind::Hyprland)
    } else if plasma_available {
        Ok(BackendKind::Plasma)
    } else {
        Err(Error::NoSupportedDesktop)
    }
}

/// Which backend serves this environment, from the desktop-identity
/// hint and the families' availability probes.
pub fn select_backend(desktop_hint: &str, hyprland_available: bool, plasma_available: bool) -> (r:
    Result<BackendKind, Error>)
    ensures
        r == select_spec(desktop_hint@, hyprland_available, plasma_available),
{
    if eq_fold(desktop_hint, "hyprland") {
        Ok(BackendKind::Hyprland)
    } else if eq_fold(desktop_hint, "kde") || eq_fold(desktop_hint, "plasma") {
        Ok(BackendKind::Plasma)
    } else if hyprland_available {
        Ok(BackendKind::Hyprland)
    } else if plasma_available {
        Ok(BackendKind::Plasma)
    } else {
        Err(Error::NoSupportedDesktop)
    }
}

/// Law: with no recognized desktop identity and every availability
/// probe negative, selection signals that no desktop is supported —
/// so no wallpaper operation is ever planned.
pub proof fn lemma_zero_backends_refused(hint: Seq<char>)
    requires
        seq_lower(hint) != seq_lower("hyprland"@),
        seq_lower(hint) != seq_lower("kde"@),
        seq_lower(hint) != seq_lower("plasma"@),
    ensures
        select_spec(hint, false, false) == Err::<BackendKind, Error>(Error::NoSupportedDesktop),
{
}

/// The position of the first success in an ordered list of attempt
/// results, if any attempt succeeded.
pub open spec fn first_true(s: Seq<bool>) -> Option<int>
    decreases s.len(),
{
    if s.len() == 0 {
        None
    } else if s[0] {
        Some(0)
    } else {
        match first_true(s.drop_first()) {
            Some(i) => Some(1 + i),
            None => None,
        }
    }
}

/// What `first_true` finds: `None` exactly when everything failed,
/// otherwise the first successful position.
pub proof fn lemma_first_true(s: Seq<bool>)
    ensures
        s.len() == 0 ==> first_true(s) is None,
        first_true(s) is None <==> (forall|j: int| 0 <= j < s.len() ==> !s[j]),
        first_true(s) matches Some(i) ==> 0 <= i < s.len() && s[i] && (forall|j: int|
            0 <= j < i ==> !s[j]),
    decreases s.len(),
{
    if s.len() > 0 && !s[0] {
        lemma_first_true(s.drop_first());
        assert(forall|j: int| 1 <= j < s.len() ==> s[j] == s.drop_first()[j - 1]);
    }
}

/// Judges an ordered fallback: the first successful attempt carries the
/// operation, and the backend as a whole fails exactly when every
/// attempt failed.
pub fn judge_attempts(results: &Vec<bool>) -> (r: Result<usize, Error>)
    ensures
        first_true(results@) matches Some(i) ==> r == Ok::<usize, Error>(i as usize),
        first_true(results@) is None ==> r == Err::<usize, Error>(Error::BackendFailure),
{
    let mut i: usize = 0;
    while i < results.len()
        invariant
            i <= results@.len(),
            forall|j: int| 0 <= j < i ==> !results@[j],
        decreases results@.len() - i,
    {
        if results[i] {
            proof {
                lemma_first_true(results@);
                assert(results@[i as int]);
            }
            return Ok(i);
        }
        i = i + 1;
    }
    proof {
        lemma_first_true(results@);
    }
    Err(Error::BackendFailure)
}

/// The notification verdict over the ordered fallback.  `dialog` is the
/// native dialog call's result, `None` when no such call was planned;
/// `generic` is the generic cross-desktop notifier's result, run exactly
/// when the dialog did not carry the notification.  The operation
/// succeeds precisely when the mechanism finally used succeeded.
pub fn judge_notify(dialog: Option<bool>, generic: Option<bool>) -> (r: Result<(), Error>)
    requires
        (dialog == Some(true)) <==> generic is None,
    ensures
        dialog == Some(true) ==> r == Ok::<(), Error>(()),
        generic == Some(true) ==> r == Ok::<(), Error>(()),
        generic == Some(false) ==> r == Err::<(), Error>(Error::BackendFailure),
{
    match generic {
        None => Ok(()),
        Some(true) => Ok(()),
        Some(false) => Err(Error::BackendFailure),
    }
}

/// Law: when the first attempt fails and the second succeeds, the
/// fallback chooses the second and the operation as a whole succeeds.
pub proof fn lemma_second_attempt_carries(s: Seq<bool>)
    requires
        s.len() >= 2,
        !s[0],
        s[1],
    ensures
        first_true(s) == Some(1int),
{
    assert(s.drop_first()[0] == s[1]);
    assert(first_true(s.drop_first()) == Some(0int));
}

/// The wallpaper capability both desktop families implement.  An
/// implementation plans commands and interprets their output; running
/// them is the caller's part.  The exact contracts live on each
/// family's own methods, which these delegate to.
pub trait WallpaperManager {
    /// The command that enumerates the screens, if the family has one.
    fn screens_query(&self) -> Option<Invocation>;

    /// The screen targets named by the enumeration's output; a
    /// synthetic `default` target stands in when enumeration is
    /// unavailable or its output unreadable.
    fn screens_from_output(&self, output: Option<&String>) -> Vec<String>;

    /// The ordered attempts that set `path` as the wallpaper on
    /// `screen`, one per available tool, highest priority first.
    fn set_plan(&self, path: &String, screen: Option<&String>) -> Vec<Attempt>;

    /// The ordered queries that read the current wallpaper back.
    fn query_plan(&self) -> Vec<Invocation>;

    /// The wallpaper path named by the output of the query at this
    /// position of the plan, if it names one.
    fn query_parse(&self, index: usize, output: &String, screen: Option<&String>) -> Option<
        String,
    >;

    /// What an exhausted query plan means: a backend that can set but
    /// not read reports no wallpaper; one with nothing left fails.
    fn query_exhausted(&self) -> Result<Option<String>, Error>;
}

} // verus!
