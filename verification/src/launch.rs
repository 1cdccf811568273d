//! What is needed to start a plugin: programs, arguments, windows.

use crate::error::PluginError;
use crate::instances;
use crate::instances::PluginChildType;
use crate::text;
use vstd::prelude::*;
use vstd::string::*;

verus! {

/// The event with which a plugin registers.
pub const REGISTER_EVENT: &'static str = "registerPlugin";

/// The arguments that tell a plugin how to register. The last one announces the
/// description of the host, which follows it.
pub open spec fn registration(port_base: u16, plugin: Seq<char>) -> Seq<Seq<char>> {
    seq![
        "-port"@,
        text::decimal(port_base as nat),
        "-pluginUUID"@,
        plugin,
        "-registerEvent"@,
        REGISTER_EVENT@,
        "-info"@,
    ]
}

/// Makes the arguments that tell a plugin how to register.
pub fn registration_arguments(port_base: u16, plugin: &str) -> (arguments: Vec<String>)
    ensures
        text::text_views(arguments@) == registration(port_base, plugin@),
{
    let mut arguments: Vec<String> = Vec::new();
    arguments.push("-port".to_owned());
    arguments.push(text::to_decimal(port_base as u64));
    arguments.push("-pluginUUID".to_owned());
    arguments.push(plugin.to_owned());
    arguments.push("-registerEvent".to_owned());
    arguments.push(REGISTER_EVENT.to_owned());
    arguments.push("-info".to_owned());
    assert(text::text_views(arguments@) =~= registration(port_base, plugin@));
    arguments
}

/// Where a program is.
#[derive(Debug, PartialEq, Eq)]
pub enum Program {
    /// A program of the system, by its name.
    System(String),
    /// A program in the directory of the plugin, by its path there.
    Bundled(String),
}

pub enum ProgramView {
    System(Seq<char>),
    Bundled(Seq<char>),
}

impl View for Program {
    type V = ProgramView;

    open spec fn view(&self) -> ProgramView {
        match self {
            Program::System(name) => ProgramView::System(name@),
            Program::Bundled(path) => ProgramView::Bundled(path@),
        }
    }
}

/// A program with its arguments.
#[derive(Debug, PartialEq, Eq)]
pub struct Command {
    pub program: Program,
    pub arguments: Vec<String>,
}

#[verifier::ext_equal]
pub struct CommandView {
    pub program: ProgramView,
    pub arguments: Seq<Seq<char>>,
}

impl View for Command {
    type V = CommandView;

    open spec fn view(&self) -> CommandView {
        CommandView { program: self.program@, arguments: text::text_views(self.arguments@) }
    }
}

impl Command {
    /// Appends an argument.
    pub fn with_argument(self, argument: String) -> (result: Command)
        ensures
            result@ == (CommandView {
                program: self@.program,
                arguments: self@.arguments.push(argument@),
            }),
    {
        let Command { program, mut arguments } = self;
        let ghost before = arguments@;
        arguments.push(argument);
        assert(text::text_views(arguments@) =~= text::text_views(before).push(argument@));
        Command { program, arguments }
    }
}

/// How to run the program `name` of the system. From inside a Flatpak it is
/// reached through the program that starts programs of the host.
pub open spec fn system_command(name: Seq<char>, flatpak: bool) -> CommandView {
    if flatpak {
        CommandView {
            program: ProgramView::System("flatpak-spawn"@),
            arguments: seq!["--host"@, name],
        }
    } else {
        CommandView { program: ProgramView::System(name), arguments: Seq::empty() }
    }
}

fn run_system_program(name: &str, flatpak: bool) -> (command: Command)
    ensures
        command@ == system_command(name@, flatpak),
{
    let mut arguments: Vec<String> = Vec::new();
    if flatpak {
        arguments.push("--host".to_owned());
        arguments.push(name.to_owned());
        let command = Command {
            program: Program::System("flatpak-spawn".to_owned()),
            arguments,
        };
        assert(command@ =~= system_command(name@, flatpak));
        command
    } else {
        let command = Command { program: Program::System(name.to_owned()), arguments };
        assert(command@ =~= system_command(name@, flatpak));
        command
    }
}

/// The program that runs plugins of a kind, for those that need one.
pub open spec fn runner(child_type: PluginChildType) -> Option<Seq<char>> {
    match child_type {
        PluginChildType::Node => Some("node"@),
        PluginChildType::Wine => Some("wine"@),
        PluginChildType::Native => None,
    }
}

fn find_runner(child_type: PluginChildType) -> (result: Option<&'static str>)
    ensures
        match result {
            Some(name) => runner(child_type) == Some(name@),
            None => runner(child_type) is None,
        },
{
    match child_type {
        PluginChildType::Node => Some("node"),
        PluginChildType::Wine => Some("wine"),
        PluginChildType::Native => None,
    }
}

/// The command that asks the program that runs plugins of a kind for its
/// version.
pub open spec fn version_query(child_type: PluginChildType, flatpak: bool) -> Option<CommandView> {
    match runner(child_type) {
        Some(name) => Some(
            CommandView {
                program: system_command(name, flatpak).program,
                arguments: system_command(name, flatpak).arguments.push("--version"@),
            },
        ),
        None => None,
    }
}

/// Makes the command that asks the program that runs plugins of a kind for its
/// version.
pub fn query_version(child_type: PluginChildType, flatpak: bool) -> (command: Option<Command>)
    ensures
        match command {
            Some(command) => version_query(child_type, flatpak) == Some(command@),
            None => version_query(child_type, flatpak) is None,
        },
{
    match find_runner(child_type) {
        Some(name) => Some(
            run_system_program(name, flatpak).with_argument("--version".to_owned()),
        ),
        None => None,
    }
}

/// The command that starts the code `code` of `plugin`, up to the description of
/// the host, which is the last argument.
pub open spec fn start(
    child_type: PluginChildType,
    code: Seq<char>,
    plugin: Seq<char>,
    port_base: u16,
    flatpak: bool,
) -> CommandView {
    match runner(child_type) {
        Some(name) => CommandView {
            program: system_command(name, flatpak).program,
            arguments: system_command(name, flatpak).arguments.push(code) + registration(
                port_base,
                plugin,
            ),
        },
        None => CommandView {
            program: ProgramView::Bundled(code),
            arguments: registration(port_base, plugin),
        },
    }
}

/// Makes the command that starts the code `code` of `plugin`, up to the
/// description of the host, which is the last argument.
pub fn start_command(
    child_type: PluginChildType,
    code: &str,
    plugin: &str,
    port_base: u16,
    flatpak: bool,
) -> (command: Command)
    ensures
        command@ == start(child_type, code@, plugin@, port_base, flatpak),
{
    let mut registration = registration_arguments(port_base, plugin);
    match find_runner(child_type) {
        Some(name) => {
            let command = run_system_program(name, flatpak).with_argument(code.to_owned());
            let Command { program, mut arguments } = command;
            let ghost first = arguments@;
            let ghost second = registration@;
            arguments.append(&mut registration);
            let command = Command { program, arguments };
            assert(text::text_views(first + second) =~= text::text_views(first)
                + text::text_views(second));
            assert(command@ =~= start(child_type, code@, plugin@, port_base, flatpak));
            command
        },
        None => {
            let command = Command {
                program: Program::Bundled(code.to_owned()),
                arguments: registration,
            };
            assert(command@ =~= start(child_type, code@, plugin@, port_base, flatpak));
            command
        },
    }
}

/// What becomes of the directory in which a plugin can have a Wine of its own.
#[derive(Clone, Copy, Debug, PartialEq, Eq, Structural)]
pub enum WinePrefix {
    /// The plugin does not run under Wine.
    Unused,
    /// Wine is told to use the directory.
    Separate,
    /// The directory is removed, and Wine uses the one that all share.
    Shared,
}

/// Finds what becomes of the Wine directory of a plugin. `separate` is the
/// setting that each plugin has a Wine of its own.
pub fn wine_prefix(child_type: PluginChildType, separate: bool) -> (prefix: WinePrefix)
    ensures
        prefix == match child_type {
            PluginChildType::Wine => if separate {
                WinePrefix::Separate
            } else {
                WinePrefix::Shared
            },
            _ => WinePrefix::Unused,
        },
{
    match child_type {
        PluginChildType::Wine => if separate {
            WinePrefix::Separate
        } else {
            WinePrefix::Shared
        },
        PluginChildType::Native => WinePrefix::Unused,
        PluginChildType::Node => WinePrefix::Unused,
    }
}

/// A hidden window that a plugin runs in.
#[derive(Debug, PartialEq, Eq)]
pub struct Window {
    pub label: String,
    pub url: String,
    pub title: String,
}

#[verifier::ext_equal]
pub struct WindowView {
    pub label: Seq<char>,
    pub url: Seq<char>,
    pub title: Seq<char>,
}

impl View for Window {
    type V = WindowView;

    open spec fn view(&self) -> WindowView {
        WindowView { label: self.label@, url: self.url@, title: self.title@ }
    }
}

/// The window in which `plugin` shows the page at `page`. Files are served two
/// ports above the one that plugins connect to.
pub open spec fn plugin_window(
    plugin: Seq<char>,
    title: Seq<char>,
    page: Seq<char>,
    port_base: u16,
) -> WindowView {
    WindowView {
        label: instances::window_label(plugin),
        url: "http://localhost:"@ + text::decimal((port_base + 2) as nat) + "/"@ + page,
        title,
    }
}

/// Plans the window in which `plugin` shows the page at `page`.
pub fn plan_window(plugin: &str, title: &str, page: &str, port_base: u16) -> (window: Window)
    requires
        port_base + 2 <= u16::MAX,
    ensures
        window@ == plugin_window(plugin@, title@, page@, port_base),
{
    let url = "http://localhost:".to_owned().concat(
        text::to_decimal((port_base + 2) as u64).as_str(),
    ).concat("/").concat(page);
    Window { label: text::underscore_dots(plugin), url, title: title.to_owned() }
}

/// The script with which a page connects to the host, up to the first use of the
/// arguments of the connection.
pub const SCRIPT_HEAD: &'static str = "const opendeckInit = () => {\n\t\t\t\ttry {\n\t\t\t\t\tif (document.readyState !== \"complete\") throw new Error(\"not ready\");\n\t\t\t\t\tif (typeof connectOpenActionSocket === \"function\") connectOpenActionSocket(";

/// The script between the two uses of the arguments of the connection.
pub const SCRIPT_MIDDLE: &'static str = ");\n\t\t\t\t\telse connectElgatoStreamDeckSocket(";

/// The script after the arguments of the connection.
pub const SCRIPT_TAIL: &'static str = ");\n\t\t\t\t} catch (e) {\n\t\t\t\t\tsetTimeout(opendeckInit, 10);\n\t\t\t\t}\n\t\t\t};\n\t\t\topendeckInit();\n\t\t\t";

/// The arguments with which a page connects: the port, the plugin, the event and
/// the description of the host.
pub open spec fn connection_arguments(
    port_base: u16,
    plugin: Seq<char>,
    info: Seq<char>,
) -> Seq<char> {
    text::decimal(port_base as nat) + ", \""@ + plugin + "\", \""@ + REGISTER_EVENT@ + "\", `"@
        + info + "`"@
}

/// The script with which the page of `plugin` connects to the host. It tries
/// until the page is loaded.
pub open spec fn connection_script(
    port_base: u16,
    plugin: Seq<char>,
    info: Seq<char>,
) -> Seq<char> {
    SCRIPT_HEAD@ + connection_arguments(port_base, plugin, info) + SCRIPT_MIDDLE@
        + connection_arguments(port_base, plugin, info) + SCRIPT_TAIL@
}

/// Writes the script with which the page of `plugin` connects to the host.
pub fn write_script(port_base: u16, plugin: &str, info: &str) -> (script: String)
    ensures
        script@ == connection_script(port_base, plugin@, info@),
{
    let arguments = text::to_decimal(port_base as u64).concat(", \"").concat(plugin).concat(
        "\", \"",
    ).concat(REGISTER_EVENT).concat("\", `").concat(info).concat("`");
    SCRIPT_HEAD.to_owned().concat(arguments.as_str()).concat(SCRIPT_MIDDLE).concat(
        arguments.as_str(),
    ).concat(SCRIPT_TAIL)
}

/// A page connects with what a process is told: the same port, plugin and event.
pub proof fn law_pages_register_like_processes(port_base: u16, plugin: Seq<char>, info: Seq<char>)
    ensures
        ({
            let told = registration(port_base, plugin);
            connection_arguments(port_base, plugin, info) == told[1] + ", \""@ + told[3] + "\", \""@
                + told[5] + "\", `"@ + info + "`"@
        }),
{
}

/// The name of the file that the output of `plugin` goes to.
pub open spec fn log_name(plugin: Seq<char>) -> Seq<char> {
    plugin + ".log"@
}

/// Makes the name of the file that the output of `plugin` goes to.
pub fn log_file_name(plugin: &str) -> (name: String)
    ensures
        name@ == log_name(plugin@),
{
    plugin.to_owned().concat(".log")
}

/// `String::from_utf8` gives the text that the bytes encode, if they encode one.
#[verifier::external_body]
fn decode(bytes: Vec<u8>) -> (result: Option<String>)
    ensures
        match result {
            Some(text) => vstd::utf8::encode_utf8(text@) == bytes@,
            None => !vstd::utf8::valid_utf8(bytes@),
        },
{
    String::from_utf8(bytes).ok()
}

/// The version of Node.js that plugins need.
pub const NODE_VERSION: &'static str = "v20.0.0";

/// Whether what Node.js answers when asked for its version, with white space at
/// the ends, is good enough. Versions are compared as texts.
pub open spec fn node_answer_suffices(answer: Seq<char>) -> bool {
    !text::comes_before(text::trimmed(answer), NODE_VERSION@)
}

/// Checks what Node.js answered when asked for its version; `None` if it could
/// not be run. The answer is text.
pub fn check_node(answer: Option<Vec<u8>>) -> (result: Result<(), PluginError>)
    requires
        answer matches Some(bytes) ==> vstd::utf8::valid_utf8(bytes@),
    ensures
        result == match answer {
            Some(bytes) => if node_answer_suffices(vstd::utf8::decode_utf8(bytes@)) {
                Ok(())
            } else {
                Err(PluginError::NodeRequired)
            },
            None => Err(PluginError::NodeRequired),
        },
{
    if let Some(bytes) = answer {
        if let Some(answer) = decode(bytes) {
            proof {
                vstd::utf8::encode_utf8_decode_utf8(answer@);
            }
            if !text::sorts_before(text::trim(answer.as_str()), NODE_VERSION) {
                return Ok(());
            }
        }
    }
    Err(PluginError::NodeRequired)
}

/// Checks whether Wine answered when asked for its version; `None` if it could
/// not be run.
pub fn check_wine(succeeded: Option<bool>) -> (result: Result<(), PluginError>)
    ensures
        result == if succeeded == Some(true) {
            Ok(())
        } else {
            Err(PluginError::WineRequired)
        },
{
    match succeeded {
        Some(true) => Ok(()),
        _ => Err(PluginError::WineRequired),
    }
}

/// A program shows where it is, a command its program and its arguments in order,
/// and a window its label, address and title.
pub proof fn law_commands_and_windows_are_shown(
    program: Program,
    command: Command,
    window: Window,
)
    ensures
        program matches Program::System(name) ==> program@ == ProgramView::System(name@),
        program matches Program::Bundled(path) ==> program@ == ProgramView::Bundled(path@),
        command@.program == command.program@,
        command@.arguments.len() == command.arguments@.len(),
        forall|i: int|
            0 <= i < command.arguments@.len() ==> #[trigger] command@.arguments[i]
                == command.arguments@[i]@,
        window@.label == window.label@,
        window@.url == window.url@,
        window@.title == window.title@,
{
}

/// A plugin is told, as names each followed by its value, the port, its own
/// identifier and the event to register with; the name of the description comes
/// last.
pub proof fn law_plugins_are_told_port_identifier_and_event(port_base: u16, plugin: Seq<char>)
    ensures
        registration(port_base, plugin).len() == 7,
        registration(port_base, plugin)[0] == "-port"@,
        text::value_of(registration(port_base, plugin)[1]) == port_base,
        registration(port_base, plugin)[1][0] == '0' ==> registration(port_base, plugin)[1].len()
            == 1,
        registration(port_base, plugin)[2] == "-pluginUUID"@,
        registration(port_base, plugin)[3] == plugin,
        registration(port_base, plugin)[4] == "-registerEvent"@,
        registration(port_base, plugin)[5] == "registerPlugin"@,
        registration(port_base, plugin)[6] == "-info"@,
{
    text::law_decimal_reads_back(port_base as nat);
}

/// Node.js and Wine are asked for their version, by their name or, from inside a
/// Flatpak, through the program that starts programs of the host. A program for
/// this operating system needs neither.
pub proof fn law_runners_are_asked_for_their_version(child_type: PluginChildType, flatpak: bool)
    ensures
        ({
            let asked = version_query(child_type, flatpak);
            let name = if child_type == PluginChildType::Node {
                "node"@
            } else {
                "wine"@
            };
            &&& asked is Some <==> child_type != PluginChildType::Native
            &&& asked is Some && flatpak ==> {
                &&& asked->0.program == ProgramView::System("flatpak-spawn"@)
                &&& asked->0.arguments.len() == 3
                &&& asked->0.arguments[0] == "--host"@
                &&& asked->0.arguments[1] == name
                &&& asked->0.arguments[2] == "--version"@
            }
            &&& asked is Some && !flatpak ==> {
                &&& asked->0.program == ProgramView::System(name)
                &&& asked->0.arguments.len() == 1
                &&& asked->0.arguments[0] == "--version"@
            }
        }),
{
}

/// A plugin is started by the program that was asked for its version, reached in
/// the same way: where the question to it stood, the code follows, and then what
/// the plugin is told. A program for this operating system is started itself,
/// inside a Flatpak and outside, and told the same.
pub proof fn law_plugins_are_started_by_the_runner_that_was_asked(
    child_type: PluginChildType,
    code: Seq<char>,
    plugin: Seq<char>,
    port_base: u16,
    flatpak: bool,
)
    ensures
        ({
            let started = start(child_type, code, plugin, port_base, flatpak);
            let told = registration(port_base, plugin);
            let asked = version_query(child_type, flatpak);
            &&& asked matches Some(asked) ==> {
                let n = asked.arguments.len() - 1;
                &&& started.program == asked.program
                &&& started.arguments.take(n) == asked.arguments.take(n)
                &&& started.arguments[n] == code
                &&& started.arguments.skip(n + 1) == told
            }
            &&& asked is None ==> started.program == ProgramView::Bundled(code)
                && started.arguments == told
        }),
{
    let started = start(child_type, code, plugin, port_base, flatpak);
    if let Some(asked) = version_query(child_type, flatpak) {
        let n = asked.arguments.len() - 1;
        assert(started.arguments.take(n) =~= asked.arguments.take(n));
        assert(started.arguments.skip(n + 1) =~= registration(port_base, plugin));
    }
}

/// A plugin is started by the program that its kind is named after: inside a
/// Flatpak through the program that starts programs of the host, which is given
/// its name, and outside directly.
pub proof fn law_flatpak_reaches_programs_of_the_host(
    child_type: PluginChildType,
    code: Seq<char>,
    plugin: Seq<char>,
    port_base: u16,
    flatpak: bool,
)
    requires
        child_type != PluginChildType::Native,
    ensures
        ({
            let started = start(child_type, code, plugin, port_base, flatpak);
            let name = if child_type == PluginChildType::Node {
                "node"@
            } else {
                "wine"@
            };
            &&& flatpak ==> {
                &&& started.program == ProgramView::System("flatpak-spawn"@)
                &&& started.arguments[0] == "--host"@
                &&& started.arguments[1] == name
                &&& started.arguments[2] == code
                &&& started.arguments.len() == 10
            }
            &&& !flatpak ==> {
                &&& started.program == ProgramView::System(name)
                &&& started.arguments[0] == code
                &&& started.arguments.len() == 8
            }
        }),
{
}

/// A plugin's window has the plugin's title and is labelled by its name. Its
/// address is that of a local server, two ports above the one that plugins connect
/// to, followed by the page.
pub proof fn law_windows_show_the_page_two_ports_above(
    plugin: Seq<char>,
    title: Seq<char>,
    page: Seq<char>,
    port_base: u16,
)
    requires
        port_base + 2 <= u16::MAX,
    ensures
        ({
            let window = plugin_window(plugin, title, page, port_base);
            let digits = text::decimal((port_base + 2) as nat).len() as int;
            &&& window.title == title
            &&& window.label.len() == plugin.len()
            &&& forall|i: int|
                0 <= i < plugin.len() ==> #[trigger] window.label[i] == if plugin[i] == '.' {
                    '_'
                } else {
                    plugin[i]
                }
            &&& window.url.take(17) == "http://localhost:"@
            &&& text::value_of(window.url.subrange(17, 17 + digits)) == port_base + 2
            &&& window.url[17 + digits] == '/'
            &&& window.url.skip(18 + digits) == page
        }),
{
    reveal_strlit("http://localhost:");
    reveal_strlit("/");
    let window = plugin_window(plugin, title, page, port_base);
    let port = text::decimal((port_base + 2) as nat);
    let digits = port.len() as int;
    text::law_decimal_reads_back((port_base + 2) as nat);
    assert("http://localhost:"@.len() == 17);
    assert("/"@.len() == 1);
    assert(window.url.take(17) =~= "http://localhost:"@);
    assert(window.url.subrange(17, 17 + digits) =~= port);
    assert(window.url.skip(18 + digits) =~= page);
}

/// The script hands the same arguments to whichever of the two functions the page
/// has: the port, the plugin, the event and the description of the host, which
/// stands between backquotes.
pub proof fn law_script_connects_with_the_same_arguments_twice(
    port_base: u16,
    plugin: Seq<char>,
    info: Seq<char>,
)
    ensures
        ({
            let arguments = text::decimal(port_base as nat) + ", \""@ + plugin + "\", \""@
                + "registerPlugin"@ + "\", `"@ + info + "`"@;
            let script = connection_script(port_base, plugin, info);
            let head = SCRIPT_HEAD@.len() as int;
            let middle = SCRIPT_MIDDLE@.len() as int;
            let length = arguments.len() as int;
            &&& script.take(head) == SCRIPT_HEAD@
            &&& script.subrange(head, head + length) == arguments
            &&& script.subrange(head + length, head + length + middle) == SCRIPT_MIDDLE@
            &&& script.subrange(head + length + middle, head + 2 * length + middle) == arguments
            &&& script.skip(head + 2 * length + middle) == SCRIPT_TAIL@
        }),
{
    let arguments = connection_arguments(port_base, plugin, info);
    let script = connection_script(port_base, plugin, info);
    let head = SCRIPT_HEAD@.len() as int;
    let middle = SCRIPT_MIDDLE@.len() as int;
    let length = arguments.len() as int;
    assert(script.take(head) =~= SCRIPT_HEAD@);
    assert(script.subrange(head, head + length) =~= arguments);
    assert(script.subrange(head + length, head + length + middle) =~= SCRIPT_MIDDLE@);
    assert(script.subrange(head + length + middle, head + 2 * length + middle) =~= arguments);
    assert(script.skip(head + 2 * length + middle) =~= SCRIPT_TAIL@);
}

/// A plugin's log is named after it, with `.log` behind, so that different plugins
/// have different logs.
pub proof fn law_logs_are_named_after_plugins(plugin: Seq<char>, other: Seq<char>)
    ensures
        log_name(plugin).take(plugin.len() as int) == plugin,
        log_name(plugin).skip(plugin.len() as int) == ".log"@,
        log_name(plugin) == log_name(other) ==> plugin == other,
{
    assert(log_name(plugin).take(plugin.len() as int) =~= plugin);
    assert(log_name(plugin).skip(plugin.len() as int) =~= ".log"@);
    assert(log_name(other).take(other.len() as int) =~= other);
    if log_name(plugin) == log_name(other) {
        assert(plugin.len() == other.len());
    }
}

/// An answer of Node.js is good enough if and only if, without the white space
/// around it, it is `v20.0.0` or comes after that in the order of texts.
pub proof fn law_node_answers(lead: Seq<char>, answer: Seq<char>, trail: Seq<char>)
    requires
        text::is_blank(lead),
        text::is_blank(trail),
        answer.len() > 0 ==> !text::white_space(answer.first()) && !text::white_space(
            answer.last(),
        ),
    ensures
        node_answer_suffices(lead + answer + trail) <==> answer == "v20.0.0"@
            || text::comes_before("v20.0.0"@, answer),
{
    text::law_trimming_keeps_what_is_between_blanks(lead, answer, trail);
    text::law_order_of_texts_is_total(answer, "v20.0.0"@);
}

} // verus!
