//! The tiling-compositor backend: three interchangeable tools, probed
//! once, tried in a fixed priority order — hyprpaper, then swww, then
//! swaybg.  Shell strings are never composed; every call is a plain
//! argument vector.

use vstd::prelude::*;
use crate::Error;
use crate::backend::{
    invocation_view, opt_str_view, plan_view, push_lit, Attempt, Invocation, WallpaperManager,
    WallpaperTools,
};
use crate::chars::{
    find_sub, find_sub_spec, is_prefix, lemma_find_sub, seq_lower, split_lines, split_lines_vec,
    str_has_prefix_fold, trim_ascii, trim_spec,
};
use crate::fetch::opt_chars;
use crate::jsonval::{arr_of, doc_of, field_string, json_array, json_parse, member_str};

verus! {

/// The call that preloads the image into the hyprpaper daemon.
pub open spec fn hyprpaper_preload_argv(path: Seq<char>) -> Seq<Seq<char>> {
    seq!["hyprpaper"@, "preload"@, path]
}

/// The call that applies the preloaded image, on one screen when given.
pub open spec fn hyprpaper_apply_argv(path: Seq<char>, screen: Option<Seq<char>>) -> Seq<
    Seq<char>,
> {
    match screen {
        Some(s) => seq!["hyprctl"@, "hyprpaper"@, "wallpaper"@, s + ","@ + path],
        None => seq!["hyprctl"@, "hyprpaper"@, "wallpaper"@, path],
    }
}

/// The swww call that shows the image, on one output when given.
pub open spec fn swww_argv(path: Seq<char>, screen: Option<Seq<char>>) -> Seq<Seq<char>> {
    match screen {
        Some(s) => seq!["swww"@, "img"@, path, "-o"@, s, "-t"@, "grow"@],
        None => seq!["swww"@, "img"@, path, "-t"@, "grow"@],
    }
}

/// The swaybg call that shows the image.
pub open spec fn swaybg_argv(path: Seq<char>) -> Seq<Seq<char>> {
    seq!["swaybg"@, "-i"@, path]
}

/// The ordered attempts a tool set allows: hyprpaper first (preload,
/// then apply), then swww, then swaybg — present tools only.
pub open spec fn hypr_set_spec(t: WallpaperTools, path: Seq<char>, screen: Option<Seq<char>>) -> Seq<
    Seq<Seq<Seq<char>>>,
> {
    (if t.has_hyprpaper {
        seq![seq![hyprpaper_preload_argv(path), hyprpaper_apply_argv(path, screen)]]
    } else {
        Seq::<Seq<Seq<Seq<char>>>>::empty()
    }) + (if t.has_swww {
        seq![seq![swww_argv(path, screen)]]
    } else {
        Seq::<Seq<Seq<Seq<char>>>>::empty()
    }) + (if t.has_swaybg {
        seq![seq![swaybg_argv(path)]]
    } else {
        Seq::<Seq<Seq<Seq<char>>>>::empty()
    })
}

/// The ordered wallpaper queries a tool set allows: hyprpaper's state,
/// then swww's report.
pub open spec fn hypr_query_spec(t: WallpaperTools) -> Seq<Seq<Seq<char>>> {
    (if t.has_hyprpaper {
        seq![seq!["hyprctl"@, "hyprpaper"@, "wallpaper"@]]
    } else {
        Seq::<Seq<Seq<char>>>::empty()
    }) + (if t.has_swww {
        seq![seq!["swww"@, "query"@]]
    } else {
        Seq::<Seq<Seq<char>>>::empty()
    })
}

/// The path in hyprpaper's state output: the whole output trimmed,
/// empty meaning none.
pub open spec fn hyprpaper_path_spec(out: Seq<char>) -> Option<Seq<char>> {
    if trim_spec(out).len() > 0 {
        Some(trim_spec(out))
    } else {
        None
    }
}

/// What one line of swww's report yields: on a line for the requested
/// screen (its case-folded name leading the case-folded line), the
/// trimmed path after the `image: ` marker, if that is not empty.
pub open spec fn swww_line_result(line: Seq<char>, screen: Option<Seq<char>>) -> Option<
    Seq<char>,
> {
    let on_screen = match screen {
        Some(s) => is_prefix(seq_lower(s), seq_lower(line)),
        None => true,
    };
    let k = find_sub_spec(line, "image: "@);
    if on_screen && k >= 0 {
        let path = trim_spec(line.skip(k + "image: "@.len()));
        if path.len() > 0 {
            Some(path)
        } else {
            None
        }
    } else {
        None
    }
}

/// What swww's report yields: the first line with a result.
pub open spec fn swww_pick(lines: Seq<Seq<char>>, screen: Option<Seq<char>>) -> Option<Seq<char>>
    decreases lines.len(),
{
    if lines.len() == 0 {
        None
    } else {
        match swww_line_result(lines[0], screen) {
            Some(p) => Some(p),
            None => swww_pick(lines.drop_first(), screen),
        }
    }
}

/// The hyprpaper preload call for `path`.
fn hyprpaper_preload(path: &String) -> (r: Invocation)
    ensures
        invocation_view(r) == hyprpaper_preload_argv(path@),
{
    let mut argv: Vec<String> = Vec::new();
    push_lit(&mut argv, "hyprpaper");
    push_lit(&mut argv, "preload");
    argv.push(path.clone());
    proof {
        assert(argv.deep_view() =~= hyprpaper_preload_argv(path@));
    }
    Invocation { argv }
}

/// The hyprpaper apply call for `path`, on `screen` when given.
fn hyprpaper_apply(path: &String, screen: Option<&String>) -> (r: Invocation)
    ensures
        invocation_view(r) == hyprpaper_apply_argv(path@, opt_str_view(screen)),
{
    let mut argv: Vec<String> = Vec::new();
    push_lit(&mut argv, "hyprctl");
    push_lit(&mut argv, "hyprpaper");
    push_lit(&mut argv, "wallpaper");
    match screen {
        Some(s) => {
            let mut combo = s.clone();
            combo.append(",");
            combo.append(path.as_str());
            argv.push(combo);
        },
        None => {
            argv.push(path.clone());
        },
    }
    proof {
        assert(argv.deep_view() =~= hyprpaper_apply_argv(path@, opt_str_view(screen)));
    }
    Invocation { argv }
}

/// The swww call for `path`, on `screen` when given.
fn swww_invocation(path: &String, screen: Option<&String>) -> (r: Invocation)
    ensures
        invocation_view(r) == swww_argv(path@, opt_str_view(screen)),
{
    let mut argv: Vec<String> = Vec::new();
    push_lit(&mut argv, "swww");
    push_lit(&mut argv, "img");
    argv.push(path.clone());
    match screen {
        Some(s) => {
            push_lit(&mut argv, "-o");
            argv.push(s.clone());
        },
        None => {},
    }
    push_lit(&mut argv, "-t");
    push_lit(&mut argv, "grow");
    proof {
        assert(argv.deep_view() =~= swww_argv(path@, opt_str_view(screen)));
    }
    Invocation { argv }
}

/// The swaybg call for `path`.
fn swaybg_invocation(path: &String) -> (r: Invocation)
    ensures
        invocation_view(r) == swaybg_argv(path@),
{
    let mut argv: Vec<String> = Vec::new();
    push_lit(&mut argv, "swaybg");
    push_lit(&mut argv, "-i");
    argv.push(path.clone());
    proof {
        assert(argv.deep_view() =~= swaybg_argv(path@));
    }
    Invocation { argv }
}

/// The single synthetic screen target.
fn default_screens() -> (r: Vec<String>)
    ensures
        r@.len() == 1,
        r@[0]@ == "default"@,
        r.deep_view() == seq!["default"@],
{
    let mut v: Vec<String> = Vec::new();
    v.push(String::from_str("default"));
    proof {
        assert(v.deep_view() =~= seq!["default"@]);
    }
    v
}

/// The `name` string members of a monitor listing's elements, in
/// listing order; elements without one contribute nothing.
pub open spec fn monitor_names_spec(items: Seq<serde_json::Value>) -> Seq<Seq<char>>
    decreases items.len(),
{
    if items.len() == 0 {
        Seq::empty()
    } else {
        match member_str(items[0], "name"@) {
            Some(n) => seq![n] + monitor_names_spec(items.drop_first()),
            None => monitor_names_spec(items.drop_first()),
        }
    }
}

/// What a screen listing's output means: the `name` members of its
/// array elements in order when it parses as a JSON array — possibly
/// none — and the synthetic `default` target otherwise.
pub open spec fn screens_spec(output: Option<Seq<char>>) -> Seq<Seq<char>> {
    match output {
        Some(o) => match doc_of(o) {
            Some(root) => match arr_of(root) {
                Some(items) => monitor_names_spec(items),
                None => seq!["default"@],
            },
            None => seq!["default"@],
        },
        None => seq!["default"@],
    }
}

/// The tiling-compositor backend over a probed tool set.
pub struct HyprlandManager {
    pub tools: WallpaperTools,
}

impl HyprlandManager {
    /// A manager over a probed capability set; instantiating it with no
    /// usable tool is a fatal configuration fault, left out by
    /// precondition.
    pub fn new(tools: WallpaperTools) -> (r: Self)
        requires
            tools.any_spec(),
        ensures
            r.tools == tools,
    {
        HyprlandManager { tools }
    }

    /// The ordered attempts that set `path` as the wallpaper, one per
    /// present tool, highest priority first.
    pub fn set_attempts(&self, path: &String, screen: Option<&String>) -> (r: Vec<Attempt>)
        ensures
            plan_view(r@) == hypr_set_spec(self.tools, path@, opt_str_view(screen)),
    {
        let mut out: Vec<Attempt> = Vec::new();
        if self.tools.has_hyprpaper {
            let mut commands: Vec<Invocation> = Vec::new();
            commands.push(hyprpaper_preload(path));
            commands.push(hyprpaper_apply(path, screen));
            out.push(Attempt { commands });
        }
        if self.tools.has_swww {
            let mut commands: Vec<Invocation> = Vec::new();
            commands.push(swww_invocation(path, screen));
            out.push(Attempt { commands });
        }
        if self.tools.has_swaybg {
            let mut commands: Vec<Invocation> = Vec::new();
            commands.push(swaybg_invocation(path));
            out.push(Attempt { commands });
        }
        proof {
            assert(plan_view(out@) =~~= hypr_set_spec(self.tools, path@, opt_str_view(screen)));
        }
        out
    }

    /// The call that lists the monitors as JSON.
    pub fn screens_invocation(&self) -> (r: Invocation)
        ensures
            invocation_view(r) == seq!["hyprctl"@, "monitors"@, "-j"@],
    {
        let mut argv: Vec<String> = Vec::new();
        push_lit(&mut argv, "hyprctl");
        push_lit(&mut argv, "monitors");
        push_lit(&mut argv, "-j");
        proof {
            assert(argv.deep_view() =~= seq!["hyprctl"@, "monitors"@, "-j"@]);
        }
        Invocation { argv }
    }

    /// The monitor names in the listing's output: the `name` member of
    /// every array element that has one, in listing order — possibly
    /// none.  A missing, unreadable or non-array output yields the
    /// synthetic `default` target.
    pub fn screens_from_json(&self, output: Option<&String>) -> (r: Vec<String>)
        ensures
            r.deep_view() == screens_spec(opt_str_view(output)),
    {
        let out: &String = match output {
            Some(o) => o,
            None => {
                return default_screens();
            },
        };
        let parsed = match json_parse(out.as_str()) {
            Some(v) => v,
            None => {
                return default_screens();
            },
        };
        let arr = match json_array(&parsed) {
            Some(a) => a,
            None => {
                return default_screens();
            },
        };
        let mut names: Vec<String> = Vec::new();
        let mut i: usize = 0;
        proof {
            assert(arr@.skip(0) =~= arr@);
        }
        while i < arr.len()
            invariant
                i <= arr@.len(),
                opt_str_view(output) == Some(out@),
                doc_of(out@) == Some(parsed),
                arr_of(parsed) == Some(arr@),
                names.deep_view() + monitor_names_spec(arr@.skip(i as int)) == monitor_names_spec(
                    arr@,
                ),
            decreases arr@.len() - i,
        {
            let ghost prev = names.deep_view();
            let ghost item_view = arr@[i as int];
            match field_string(&arr[i], "name") {
                Some(s) => {
                    names.push(s);
                    proof {
                        assert(names.deep_view() =~= prev.push(names@.last()@));
                    }
                },
                None => {},
            }
            proof {
                assert(arr@.skip(i as int)[0] == item_view);
                assert(arr@.skip(i as int).drop_first() =~= arr@.skip(i + 1));
                assert(names.deep_view() + monitor_names_spec(arr@.skip(i + 1))
                    =~= prev + monitor_names_spec(arr@.skip(i as int)));
            }
            i = i + 1;
        }
        proof {
            assert(arr@.skip(i as int) =~= Seq::<serde_json::Value>::empty());
            assert(names.deep_view() + monitor_names_spec(arr@.skip(i as int)) =~= names.deep_view());
        }
        names
    }

    /// The ordered wallpaper queries for the present tools.
    pub fn query_invocations(&self) -> (r: Vec<Invocation>)
        ensures
            r@.map_values(|c: Invocation| invocation_view(c)) == hypr_query_spec(self.tools),
    {
        let mut out: Vec<Invocation> = Vec::new();
        if self.tools.has_hyprpaper {
            let mut argv: Vec<String> = Vec::new();
            push_lit(&mut argv, "hyprctl");
            push_lit(&mut argv, "hyprpaper");
            push_lit(&mut argv, "wallpaper");
            proof {
                assert(argv.deep_view() =~= seq!["hyprctl"@, "hyprpaper"@, "wallpaper"@]);
            }
            out.push(Invocation { argv });
        }
        if self.tools.has_swww {
            let mut argv: Vec<String> = Vec::new();
            push_lit(&mut argv, "swww");
            push_lit(&mut argv, "query");
            proof {
                assert(argv.deep_view() =~= seq!["swww"@, "query"@]);
            }
            out.push(Invocation { argv });
        }
        proof {
            assert(out@.map_values(|c: Invocation| invocation_view(c)) =~~= hypr_query_spec(
                self.tools,
            ));
        }
        out
    }

    /// The path hyprpaper's state output names, if any.
    pub fn hyprpaper_wallpaper_path(&self, output: &String) -> (r: Option<String>)
        ensures
            opt_chars(r) == hyprpaper_path_spec(output@),
    {
        let t = trim_ascii(output.as_str());
        if t.unicode_len() > 0 {
            Some(t.to_owned())
        } else {
            None
        }
    }

    /// The path swww's report names for the requested screen, if any:
    /// the first matching line's `image: ` entry.
    pub fn swww_wallpaper_path(&self, output: &String, screen: Option<&String>) -> (r: Option<
        String,
    >)
        ensures
            opt_chars(r) == swww_pick(split_lines(output@), opt_str_view(screen)),
    {
        let lines = split_lines_vec(output.as_str());
        let ghost sc = opt_str_view(screen);
        proof {
            assert(lines.deep_view().skip(0) =~= lines.deep_view());
        }
        let mut i: usize = 0;
        while i < lines.len()
            invariant
                i <= lines@.len(),
                lines.deep_view() == split_lines(output@),
                sc == opt_str_view(screen),
                swww_pick(split_lines(output@), sc) == swww_pick(
                    lines.deep_view().skip(i as int),
                    sc,
                ),
            decreases lines@.len() - i,
        {
            let ghost line_view = lines.deep_view()[i as int];
            let line: &String = &lines[i];
            proof {
                assert(line@ == line_view);
            }
            let on_screen: bool = match screen {
                Some(s) => str_has_prefix_fold(line.as_str(), s.as_str()),
                None => true,
            };
            if on_screen {
                match find_sub(line.as_str(), "image: ") {
                    Some(k) => {
                        proof {
                            reveal_strlit("image: ");
                            lemma_find_sub(line@, "image: "@);
                            assert(crate::chars::match_at(
                                line@,
                                "image: "@,
                                find_sub_spec(line@, "image: "@),
                            ));
                        }
                        let line_len: usize = line.as_str().unicode_len();
                        let rest = line.as_str().substring_char(k + 7, line_len);
                        let path = trim_ascii(rest);
                        proof {
                            assert(rest@ =~= line@.skip(
                                find_sub_spec(line@, "image: "@) + "image: "@.len(),
                            ));
                        }
                        if path.unicode_len() > 0 {
                            proof {
                                assert(swww_line_result(line_view, sc) == Some(path@));
                                assert(swww_pick(lines.deep_view().skip(i as int), sc) == Some(
                                    path@,
                                ));
                            }
                            return Some(path.to_owned());
                        }
                    },
                    None => {},
                }
            }
            proof {
                reveal_strlit("image: ");
                if on_screen {
                    lemma_find_sub(line_view, "image: "@);
                }
                assert(swww_line_result(line_view, sc) is None);
                assert(lines.deep_view().skip(i as int).drop_first() =~= lines.deep_view().skip(
                    i + 1,
                ));
            }
            i = i + 1;
        }
        proof {
            assert(lines.deep_view().skip(i as int) =~= Seq::<Seq<char>>::empty());
        }
        None
    }

    /// What an exhausted query plan means here: with swaybg present the
    /// wallpaper is merely unreadable — swaybg can set but not report —
    /// and with nothing left the backend fails.
    pub fn query_fallback_result(&self) -> (r: Result<Option<String>, Error>)
        ensures
            self.tools.has_swaybg ==> r == Ok::<Option<String>, Error>(None),
            !self.tools.has_swaybg ==> r == Err::<Option<String>, Error>(Error::BackendFailure),
    {
        if self.tools.has_swaybg {
            Ok(None)
        } else {
            Err(Error::BackendFailure)
        }
    }
}

impl WallpaperManager for HyprlandManager {
    fn screens_query(&self) -> (q: Option<Invocation>)
        ensures
            q is Some && invocation_view(q.unwrap()) == seq!["hyprctl"@, "monitors"@, "-j"@],
    {
        Some(self.screens_invocation())
    }

    fn screens_from_output(&self, output: Option<&String>) -> (r: Vec<String>)
        ensures
            r.deep_view() == screens_spec(opt_str_view(output)),
    {
        self.screens_from_json(output)
    }

    fn set_plan(&self, path: &String, screen: Option<&String>) -> (r: Vec<Attempt>)
        ensures
            plan_view(r@) == hypr_set_spec(self.tools, path@, opt_str_view(screen)),
    {
        self.set_attempts(path, screen)
    }

    fn query_plan(&self) -> (r: Vec<Invocation>)
        ensures
            r@.map_values(|c: Invocation| invocation_view(c)) == hypr_query_spec(self.tools),
    {
        self.query_invocations()
    }

    fn query_parse(&self, index: usize, output: &String, screen: Option<&String>) -> (r: Option<
        String,
    >)
        ensures
            opt_chars(r) == if self.tools.has_hyprpaper && index == 0 {
                hyprpaper_path_spec(output@)
            } else {
                swww_pick(split_lines(output@), opt_str_view(screen))
            },
    {
        if self.tools.has_hyprpaper && index == 0 {
            self.hyprpaper_wallpaper_path(output)
        } else {
            self.swww_wallpaper_path(output, screen)
        }
    }

    fn query_exhausted(&self) -> (r: Result<Option<String>, Error>)
        ensures
            self.tools.has_swaybg ==> r == Ok::<Option<String>, Error>(None),
            !self.tools.has_swaybg ==> r == Err::<Option<String>, Error>(Error::BackendFailure),
    {
        self.query_fallback_result()
    }
}

} // verus!
