//! The integrated-shell backend: one scripting tool drives the desktop,
//! and a dialog tool carries notifications when present.  Every call is
//! a plain argument vector; no shell string is composed.

use vstd::prelude::*;
use crate::Error;
use crate::backend::{
    invocation_view, opt_str_view, plan_view, push_lit, Attempt, Invocation, WallpaperManager,
};
use crate::chars::{is_prefix, str_eq, str_has_prefix, trim_ascii, trim_spec};
use crate::fetch::opt_chars;

verus! {

/// The script handed to the shell's scripting interface to set the
/// image on every desktop.
pub open spec fn plasma_set_script(path: Seq<char>) -> Seq<char> {
    "var allDesktops = desktops();\nfor (i=0;i<allDesktops.length;i++) {\n    d = allDesktops[i];\n    d.wallpaperPlugin = \"org.kde.image\";\n    d.currentConfigGroup = Array(\"Wallpaper\", \"org.kde.image\", \"General\");\n    d.writeConfig(\"Image\", \"file://"@
        + path + "\");\n}"@
}

/// The call that runs the wallpaper-setting script.
pub open spec fn plasma_set_argv(path: Seq<char>) -> Seq<Seq<char>> {
    seq![
        "qdbus"@,
        "org.kde.plasmashell"@,
        "/PlasmaShell"@,
        "org.kde.PlasmaShell.evaluateScript"@,
        plasma_set_script(path),
    ]
}

/// The script that prints the configured wallpaper of the first
/// desktop.
pub open spec fn plasma_read_script() -> Seq<char> {
    "var allDesktops = desktops();\nif (allDesktops.length > 0) {\n    var d = allDesktops[0];\n    d.currentConfigGroup = Array(\"Wallpaper\", \"org.kde.image\", \"General\");\n    print(d.readConfig(\"Image\"));\n}"@
}

/// The call that runs the wallpaper-reading script.
pub open spec fn plasma_query_argv() -> Seq<Seq<char>> {
    seq![
        "qdbus"@,
        "org.kde.plasmashell"@,
        "/PlasmaShell"@,
        "org.kde.PlasmaShell.evaluateScript"@,
        plasma_read_script(),
    ]
}

/// What the read-back script's output means: nothing when empty or
/// `undefined`; otherwise the trimmed path, a `file://` prefix
/// stripped.
pub open spec fn plasma_path_spec(out: Seq<char>) -> Option<Seq<char>> {
    let t = trim_spec(out);
    if t.len() == 0 || t == "undefined"@ {
        None
    } else if is_prefix("file://"@, t) {
        Some(t.skip("file://"@.len() as int))
    } else {
        Some(t)
    }
}

/// The dialog call that shows a passive popup, with the image as its
/// icon when given.
pub open spec fn kdialog_argv(title: Seq<char>, message: Seq<char>, image: Option<Seq<char>>) -> Seq<
    Seq<char>,
> {
    seq!["kdialog"@, "--title"@, title, "--passivepopup"@, message, "5"@] + (match image {
        Some(p) => seq!["--icon"@, p],
        None => Seq::<Seq<char>>::empty(),
    })
}

/// The integrated-shell backend.  Its one scripting tool is probed at
/// construction.
pub struct PlasmaManager {}

impl PlasmaManager {
    /// A manager for the shell's scripting tool; instantiating it when
    /// the tool is absent is a fatal configuration fault, left out by
    /// precondition.
    pub fn new(has_qdbus: bool) -> (r: Self)
        requires
            has_qdbus,
    {
        PlasmaManager {  }
    }

    /// The call that asks the window manager for its support data.
    pub fn screens_invocation(&self) -> (r: Invocation)
        ensures
            invocation_view(r) == seq![
                "qdbus"@,
                "org.kde.KWin"@,
                "/KWin"@,
                "org.kde.KWin.supportInformation"@,
            ],
    {
        let mut argv: Vec<String> = Vec::new();
        push_lit(&mut argv, "qdbus");
        push_lit(&mut argv, "org.kde.KWin");
        push_lit(&mut argv, "/KWin");
        push_lit(&mut argv, "org.kde.KWin.supportInformation");
        proof {
            assert(argv.deep_view() =~= seq![
                "qdbus"@,
                "org.kde.KWin"@,
                "/KWin"@,
                "org.kde.KWin.supportInformation"@,
            ]);
        }
        Invocation { argv }
    }

    /// The screen targets: the support data is not parsed for names
    /// yet, so the synthetic `default` target stands for all screens.
    pub fn screen_targets(&self) -> (r: Vec<String>)
        ensures
            r@.len() == 1,
            r@[0]@ == "default"@,
    {
        let mut v: Vec<String> = Vec::new();
        push_lit(&mut v, "default");
        v
    }

    /// The call that sets `path` on every desktop.
    pub fn set_invocation(&self, path: &String) -> (r: Invocation)
        ensures
            invocation_view(r) == plasma_set_argv(path@),
    {
        let mut argv: Vec<String> = Vec::new();
        push_lit(&mut argv, "qdbus");
        push_lit(&mut argv, "org.kde.plasmashell");
        push_lit(&mut argv, "/PlasmaShell");
        push_lit(&mut argv, "org.kde.PlasmaShell.evaluateScript");
        let mut script = String::from_str(
            "var allDesktops = desktops();\nfor (i=0;i<allDesktops.length;i++) {\n    d = allDesktops[i];\n    d.wallpaperPlugin = \"org.kde.image\";\n    d.currentConfigGroup = Array(\"Wallpaper\", \"org.kde.image\", \"General\");\n    d.writeConfig(\"Image\", \"file://",
        );
        script.append(path.as_str());
        script.append("\");\n}");
        argv.push(script);
        proof {
            assert(argv.deep_view() =~= plasma_set_argv(path@));
        }
        Invocation { argv }
    }

    /// The call that reads the configured wallpaper back.
    pub fn query_invocation(&self) -> (r: Invocation)
        ensures
            invocation_view(r) == plasma_query_argv(),
    {
        let mut argv: Vec<String> = Vec::new();
        push_lit(&mut argv, "qdbus");
        push_lit(&mut argv, "org.kde.plasmashell");
        push_lit(&mut argv, "/PlasmaShell");
        push_lit(&mut argv, "org.kde.PlasmaShell.evaluateScript");
        push_lit(
            &mut argv,
            "var allDesktops = desktops();\nif (allDesktops.length > 0) {\n    var d = allDesktops[0];\n    d.currentConfigGroup = Array(\"Wallpaper\", \"org.kde.image\", \"General\");\n    print(d.readConfig(\"Image\"));\n}",
        );
        proof {
            assert(argv.deep_view() =~= plasma_query_argv());
        }
        Invocation { argv }
    }

    /// The wallpaper path the read-back output names, if it names one.
    pub fn wallpaper_from_script_output(&self, output: &String) -> (r: Option<String>)
        ensures
            opt_chars(r) == plasma_path_spec(output@),
    {
        let t = trim_ascii(output.as_str());
        if t.unicode_len() == 0 || str_eq(t, "undefined") {
            return None;
        }
        if str_has_prefix(t, "file://") {
            proof {
                reveal_strlit("file://");
            }
            let stripped = t.substring_char(7, t.unicode_len());
            proof {
                assert(stripped@ =~= trim_spec(output@).skip("file://"@.len() as int));
            }
            return Some(stripped.to_owned());
        }
        Some(t.to_owned())
    }

    /// The notification plan: the shell's dialog tool shows the popup
    /// when present; without it — or when the dialog call fails — the
    /// caller falls back to the generic notifier.
    pub fn notify_invocation(
        &self,
        has_kdialog: bool,
        title: &String,
        message: &String,
        image: Option<&String>,
    ) -> (r: Option<Invocation>)
        ensures
            !has_kdialog ==> r is None,
            has_kdialog ==> {
                &&& r is Some
                &&& invocation_view(r.unwrap()) == kdialog_argv(
                    title@,
                    message@,
                    opt_str_view(image),
                )
            },
    {
        if !has_kdialog {
            return None;
        }
        let mut argv: Vec<String> = Vec::new();
        push_lit(&mut argv, "kdialog");
        push_lit(&mut argv, "--title");
        argv.push(title.clone());
        push_lit(&mut argv, "--passivepopup");
        argv.push(message.clone());
        push_lit(&mut argv, "5");
        match image {
            Some(p) => {
                push_lit(&mut argv, "--icon");
                argv.push(p.clone());
            },
            None => {},
        }
        proof {
            assert(argv.deep_view() =~= kdialog_argv(title@, message@, opt_str_view(image)));
        }
        Some(Invocation { argv })
    }
}

impl WallpaperManager for PlasmaManager {
    fn screens_query(&self) -> (q: Option<Invocation>)
        ensures
            q is Some && invocation_view(q.unwrap()) == seq![
                "qdbus"@,
                "org.kde.KWin"@,
                "/KWin"@,
                "org.kde.KWin.supportInformation"@,
            ],
    {
        Some(self.screens_invocation())
    }

    fn screens_from_output(&self, _output: Option<&String>) -> (r: Vec<String>)
        ensures
            r@.len() == 1,
            r@[0]@ == "default"@,
    {
        self.screen_targets()
    }

    fn set_plan(&self, path: &String, _screen: Option<&String>) -> (r: Vec<Attempt>)
        ensures
            plan_view(r@) == seq![seq![plasma_set_argv(path@)]],
    {
        let mut commands: Vec<Invocation> = Vec::new();
        commands.push(self.set_invocation(path));
        let mut out: Vec<Attempt> = Vec::new();
        out.push(Attempt { commands });
        proof {
            assert(plan_view(out@) =~~= seq![seq![plasma_set_argv(path@)]]);
        }
        out
    }

    fn query_plan(&self) -> (r: Vec<Invocation>)
        ensures
            r@.map_values(|c: Invocation| invocation_view(c)) == seq![plasma_query_argv()],
    {
        let mut out: Vec<Invocation> = Vec::new();
        out.push(self.query_invocation());
        proof {
            assert(out@.map_values(|c: Invocation| invocation_view(c)) =~~= seq![
                plasma_query_argv(),
            ]);
        }
        out
    }

    fn query_parse(&self, _index: usize, output: &String, _screen: Option<&String>) -> (r: Option<
        String,
    >)
        ensures
            opt_chars(r) == plasma_path_spec(output@),
    {
        self.wallpaper_from_script_output(output)
    }

    /// A failed or exhausted read is no error here: the shell simply
    /// reports no wallpaper.
    fn query_exhausted(&self) -> (r: Result<Option<String>, Error>)
        ensures
            r == Ok::<Option<String>, Error>(None),
    {
        Ok(None)
    }
}

} // verus!
