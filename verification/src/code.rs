//! Which code of a plugin to run, and how.

use crate::error::PluginError;
use crate::manifest::{CodePaths, OperatingSystem};
use crate::platform::Platform;
use crate::text;
use vstd::prelude::*;

verus! {

/// The code of a plugin that was chosen to run.
#[derive(Debug, PartialEq, Eq)]
pub struct Code {
    /// Where the code is, in the directory of the plugin.
    pub path: String,
    /// Whether the plugin supports this operating system only as one on which
    /// Windows programs can run.
    pub wine: bool,
}

#[verifier::ext_equal]
pub struct CodeView {
    pub path: Seq<char>,
    pub wine: bool,
}

impl View for Code {
    type V = CodeView;

    open spec fn view(&self) -> CodeView {
        CodeView { path: self.path@, wine: self.wine }
    }
}

/// Whether a manifest lists `platform`.
pub open spec fn lists(os: Seq<OperatingSystem>, platform: Seq<char>) -> bool {
    exists|i: int| 0 <= i < os.len() && (#[trigger] os[i]).platform@ == platform
}

/// The path for one operating system.
pub open spec fn own_path(code: CodePaths, platform: Platform) -> Option<Seq<char>> {
    text::optional_text(
        match platform {
            Platform::Windows => code.windows,
            Platform::Mac => code.mac,
            Platform::Linux => code.linux,
        },
    )
}

/// `first`, or `second` where there is none.
pub open spec fn either(
    first: Option<Seq<char>>,
    second: Option<Seq<char>>,
) -> Option<Seq<char>> {
    if first is Some {
        first
    } else {
        second
    }
}

/// The path for one build target.
pub open spec fn target_path(code: CodePaths, target: Seq<char>) -> Option<Seq<char>> {
    match code.by_target {
        Some(paths) => if paths@.contains_key(target) {
            Some(paths@[target]@)
        } else {
            None
        },
        None => None,
    }
}

/// The code to run on `platform`. A plugin that lists the operating system runs
/// its most specific code there. One that does not, and lists Windows, runs
/// under Wine.
pub open spec fn chosen_code(
    os: Seq<OperatingSystem>,
    code: CodePaths,
    platform: Platform,
    target: Seq<char>,
) -> Option<CodeView> {
    if lists(os, platform.label()) {
        match either(target_path(code, target), either(own_path(code, platform), text::optional_text(code.any))) {
            Some(path) => Some(CodeView { path, wine: false }),
            None => None,
        }
    } else if lists(os, "windows"@) {
        match either(text::optional_text(code.any), text::optional_text(code.windows)) {
            Some(path) => Some(CodeView { path, wine: true }),
            None => None,
        }
    } else {
        None
    }
}

fn is_listed(os: &Vec<OperatingSystem>, platform: &str) -> (result: bool)
    ensures
        result == lists(os@, platform@),
{
    let mut i: usize = 0;
    while i < os.len()
        invariant
            i <= os.len(),
            forall|j: int| 0 <= j < i ==> (#[trigger] os@[j]).platform@ != platform@,
        decreases os.len() - i,
    {
        if text::same_text(os[i].platform.as_str(), platform) {
            return true;
        }
        i += 1;
    }
    false
}

fn first_of(first: Option<String>, second: &Option<String>) -> (result: Option<String>)
    ensures
        text::optional_text(result) == either(
            text::optional_text(first),
            text::optional_text(*second),
        ),
{
    match first {
        Some(path) => Some(path),
        None => second.clone(),
    }
}

/// Chooses the code to run on `platform`, a machine of the build target
/// `target`.
pub fn choose_code(
    os: &Vec<OperatingSystem>,
    code: &CodePaths,
    platform: Platform,
    target: &str,
) -> (result: Result<Code, PluginError>)
    ensures
        match result {
            Ok(chosen) => chosen_code(os@, *code, platform, target@) == Some(chosen@),
            Err(error) => chosen_code(os@, *code, platform, target@) is None && error
                == PluginError::UnsupportedPlatform(platform),
        },
{
    let (path, wine) = if is_listed(os, platform.name()) {
        let for_target = match &code.by_target {
            Some(paths) => match paths.get(target) {
                Some(path) => Some(path.clone()),
                None => None,
            },
            None => None,
        };
        let own = match platform {
            Platform::Windows => &code.windows,
            Platform::Mac => &code.mac,
            Platform::Linux => &code.linux,
        };
        (first_of(for_target, &first_of(own.clone(), &code.any)), false)
    } else if is_listed(os, "windows") {
        (first_of(code.any.clone(), &code.windows), true)
    } else {
        (None, false)
    };
    match path {
        Some(path) => Ok(Code { path, wine }),
        None => Err(PluginError::UnsupportedPlatform(platform)),
    }
}

/// How a plugin is run.
#[derive(Clone, Copy, Debug, PartialEq, Eq, Structural)]
pub enum Launch {
    /// As a page in a hidden window.
    Webview,
    /// As a program for Node.js.
    Node,
    /// As a Windows program, under Wine.
    Wine,
    /// As a program for this operating system.
    Native,
}

/// Whether a lowercase path names a page.
pub open spec fn is_page(path: Seq<char>) -> bool {
    ||| ".html"@.is_suffix_of(path)
    ||| ".htm"@.is_suffix_of(path)
    ||| ".xhtml"@.is_suffix_of(path)
}

/// Whether a lowercase path names a script.
pub open spec fn is_script(path: Seq<char>) -> bool {
    ||| ".js"@.is_suffix_of(path)
    ||| ".mjs"@.is_suffix_of(path)
    ||| ".cjs"@.is_suffix_of(path)
}

/// How to run the code with the lowercase path `path`.
pub open spec fn launch_of(path: Seq<char>, wine: bool) -> Launch {
    if is_page(path) {
        Launch::Webview
    } else if is_script(path) {
        Launch::Node
    } else if wine {
        Launch::Wine
    } else {
        Launch::Native
    }
}

/// Finds how to run the code with the lowercase path `path`.
pub fn classify(path: &str, wine: bool) -> (launch: Launch)
    ensures
        launch == launch_of(path@, wine),
{
    if text::ends_with(path, ".html") || text::ends_with(path, ".htm") || text::ends_with(
        path,
        ".xhtml",
    ) {
        Launch::Webview
    } else if text::ends_with(path, ".js") || text::ends_with(path, ".mjs") || text::ends_with(
        path,
        ".cjs",
    ) {
        Launch::Node
    } else if wine {
        Launch::Wine
    } else {
        Launch::Native
    }
}

impl Code {
    /// Finds how to run the code. The extension decides, in whatever case it is
    /// written.
    pub fn launch(&self) -> (launch: Launch)
        ensures
            launch == launch_of(text::lowercase(self@.path), self@.wine),
            vstd::utf8::is_ascii_chars(self@.path) ==> launch == launch_of(
                self@.path.map_values(|c: char| text::ascii_lower(c)),
                self@.wine,
            ),
    {
        let lower = self.path.as_str().to_lowercase();
        classify(lower.as_str(), self.wine)
    }
}

/// Wine is used only for a plugin that does not list the operating system, and
/// that lists Windows; never on Windows itself.
pub proof fn law_wine_is_for_windows_programs_elsewhere(
    os: Seq<OperatingSystem>,
    code: CodePaths,
    platform: Platform,
    target: Seq<char>,
)
    ensures
        chosen_code(os, code, platform, target) matches Some(chosen) ==> {
            chosen.wine <==> !lists(os, platform.label()) && lists(os, "windows"@)
        },
        chosen_code(os, code, platform, target) matches Some(chosen) ==> {
            platform == Platform::Windows ==> !chosen.wine
        },
{
}

/// A plugin that lists neither the operating system nor Windows does not run.
pub proof fn law_unlisted_plugins_do_not_run(
    os: Seq<OperatingSystem>,
    code: CodePaths,
    platform: Platform,
    target: Seq<char>,
)
    requires
        !lists(os, platform.label()),
        !lists(os, "windows"@),
    ensures
        chosen_code(os, code, platform, target) is None,
{
}

/// Chosen code shows its path and whether it is for Wine.
pub proof fn law_code_is_shown(code: Code)
    ensures
        code@.path == code.path@,
        code@.wine == code.wine,
{
}

/// A plugin that lists the operating system runs there without Wine, as long as it
/// has code at all: that for the build target if there is some, else that for the
/// operating system, else that for all.
pub proof fn law_listed_plugins_run_their_most_specific_code(
    os: Seq<OperatingSystem>,
    code: CodePaths,
    platform: Platform,
    target: Seq<char>,
    at: int,
)
    requires
        0 <= at < os.len(),
        os[at].platform@ == match platform {
            Platform::Windows => "windows"@,
            Platform::Mac => "mac"@,
            Platform::Linux => "linux"@,
        },
    ensures
        ({
            let chosen = chosen_code(os, code, platform, target);
            let by_target = code.by_target is Some && code.by_target->0@.contains_key(target);
            let own = match platform {
                Platform::Windows => code.windows,
                Platform::Mac => code.mac,
                Platform::Linux => code.linux,
            };
            &&& chosen is Some <==> by_target || own is Some || code.any is Some
            &&& chosen is Some ==> !chosen->0.wine
            &&& by_target ==> chosen->0.path == code.by_target->0@[target]@
            &&& !by_target && own is Some ==> chosen->0.path == own->0@
            &&& !by_target && own is None && code.any is Some ==> chosen->0.path == code.any->0@
        }),
{
    assert(lists(os, platform.label()));
}

/// A plugin that does not list the operating system but lists Windows runs under
/// Wine, with the code for all operating systems if there is some, else with that
/// for Windows. Code for another operating system or for a build target is not
/// run.
pub proof fn law_windows_plugins_run_under_wine_elsewhere(
    os: Seq<OperatingSystem>,
    code: CodePaths,
    platform: Platform,
    target: Seq<char>,
    at: int,
)
    requires
        0 <= at < os.len(),
        os[at].platform@ == "windows"@,
        forall|i: int|
            0 <= i < os.len() ==> (#[trigger] os[i]).platform@ != match platform {
                Platform::Windows => "windows"@,
                Platform::Mac => "mac"@,
                Platform::Linux => "linux"@,
            },
    ensures
        ({
            let chosen = chosen_code(os, code, platform, target);
            &&& chosen is Some <==> code.any is Some || code.windows is Some
            &&& chosen is Some ==> chosen->0.wine
            &&& code.any is Some ==> chosen->0.path == code.any->0@
            &&& code.any is None && code.windows is Some ==> chosen->0.path == code.windows->0@
        }),
{
    assert(lists(os, "windows"@));
}

/// A plugin that names neither the operating system nor Windows does not run,
/// whatever code it has.
pub proof fn law_plugins_for_other_systems_do_not_run(
    os: Seq<OperatingSystem>,
    code: CodePaths,
    platform: Platform,
    target: Seq<char>,
)
    requires
        forall|i: int|
            0 <= i < os.len() ==> (#[trigger] os[i]).platform@ != "windows"@ && os[i].platform@
                != match platform {
                Platform::Windows => "windows"@,
                Platform::Mac => "mac"@,
                Platform::Linux => "linux"@,
            },
    ensures
        chosen_code(os, code, platform, target) is None,
{
}

/// How code is run depends on how its path ends, and only where it ends like
/// neither a page nor a script on whether it is for Wine.
pub proof fn law_ending_decides_how_code_runs(path: Seq<char>, wine: bool)
    ensures
        ({
            let is_page = exists|n: int|
                0 <= n <= path.len() && (#[trigger] path.skip(n) == ".html"@ || path.skip(n)
                    == ".htm"@ || path.skip(n) == ".xhtml"@);
            let is_script = exists|n: int|
                0 <= n <= path.len() && (#[trigger] path.skip(n) == ".js"@ || path.skip(n)
                    == ".mjs"@ || path.skip(n) == ".cjs"@);
            &&& launch_of(path, wine) == Launch::Webview <==> is_page
            &&& launch_of(path, wine) == Launch::Node <==> !is_page && is_script
            &&& launch_of(path, wine) == Launch::Wine <==> !is_page && !is_script && wine
            &&& launch_of(path, wine) == Launch::Native <==> !is_page && !is_script && !wine
        }),
{
    lemma_ending(path, ".html"@);
    lemma_ending(path, ".htm"@);
    lemma_ending(path, ".xhtml"@);
    lemma_ending(path, ".js"@);
    lemma_ending(path, ".mjs"@);
    lemma_ending(path, ".cjs"@);
}

proof fn lemma_ending(path: Seq<char>, ending: Seq<char>)
    ensures
        ending.is_suffix_of(path) ==> 0 <= path.len() - ending.len() && path.skip(
            path.len() - ending.len(),
        ) == ending,
        forall|n: int|
            0 <= n <= path.len() && #[trigger] path.skip(n) == ending ==> ending.is_suffix_of(path),
{
    if ending.is_suffix_of(path) {
        assert(path.skip(path.len() - ending.len()) =~= ending);
    }
    assert forall|n: int| 0 <= n <= path.len() && #[trigger] path.skip(n) == ending implies
        ending.is_suffix_of(path) by {
        assert(n == path.len() - ending.len());
        assert(ending =~= path.subrange(path.len() - ending.len(), path.len() as int));
    }
}

} // verus!
