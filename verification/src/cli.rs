//! The command-line wrapper's decisions: which arguments are admissible,
//! which subcommands are reserved, how the delegated command line is built,
//! which environment variables pass through, and how a child's exit status
//! becomes an exit code. The wrapper's process handling itself lives outside
//! this library.

use vstd::prelude::*;
use vstd::string::StringExecFns;
use vstd::utf8::encode_utf8;

use crate::text::{spec_starts_with, spec_u64_decimal, str_starts_with, usize_to_decimal};

verus! {

/// The largest admissible single argument, in bytes.
pub const MAX_ARG_LENGTH: usize = 1000000;

/// The largest admissible total of all argument lengths, in bytes.
pub const MAX_TOTAL_ARGS_LENGTH: usize = 10000000;

fn string_is(s: &String, literal: &str) -> (r: bool)
    ensures
        r == (s@ == literal@),
{
    let owned: String = literal.to_owned();
    *s == owned
}

/// The subcommands reserved for the wrapped assistant binary itself.
pub open spec fn spec_is_goose_subcommand(arg: Seq<char>) -> bool {
    ||| arg == "configure"@
    ||| arg == "info"@
    ||| arg == "mcp"@
    ||| arg == "acp"@
    ||| arg == "session"@
    ||| arg == "s"@
    ||| arg == "project"@
    ||| arg == "p"@
    ||| arg == "projects"@
    ||| arg == "ps"@
    ||| arg == "run"@
    ||| arg == "recipe"@
    ||| arg == "schedule"@
    ||| arg == "sched"@
    ||| arg == "update"@
    ||| arg == "bench"@
    ||| arg == "web"@
}

/// Whether an argument names a reserved subcommand of the wrapped binary.
pub fn is_goose_subcommand(arg: &str) -> (r: bool)
    ensures
        r == spec_is_goose_subcommand(arg@),
{
    let owned: String = arg.to_owned();
    string_is(&owned, "configure") || string_is(&owned, "info") || string_is(&owned, "mcp")
        || string_is(&owned, "acp") || string_is(&owned, "session") || string_is(&owned, "s")
        || string_is(&owned, "project") || string_is(&owned, "p") || string_is(&owned, "projects")
        || string_is(&owned, "ps") || string_is(&owned, "run") || string_is(&owned, "recipe")
        || string_is(&owned, "schedule") || string_is(&owned, "sched") || string_is(
        &owned,
        "update",
    ) || string_is(&owned, "bench") || string_is(&owned, "web")
}

/// Whether one argument is admissible: within the single-argument byte limit
/// and free of null bytes.
pub open spec fn spec_arg_ok(arg: Seq<char>) -> bool {
    &&& (encode_utf8(arg).len() as usize) <= MAX_ARG_LENGTH
    &&& !encode_utf8(arg).contains(0u8)
}

/// The total byte length of a sequence of arguments.
pub open spec fn spec_total_len(args: Seq<Seq<char>>) -> int
    decreases args.len(),
{
    if args.len() == 0 {
        0
    } else {
        (encode_utf8(args[0]).len() as usize) + spec_total_len(args.drop_first())
    }
}

proof fn lemma_total_len_push(args: Seq<Seq<char>>, arg: Seq<char>)
    ensures
        spec_total_len(args.push(arg)) == spec_total_len(args) + (encode_utf8(arg).len() as usize),
    decreases args.len(),
{
    if args.len() == 0 {
        assert(args.push(arg)[0] == arg);
        assert(args.push(arg).drop_first() =~= Seq::empty());
        assert(spec_total_len(Seq::<Seq<char>>::empty()) == 0);
    } else {
        assert(args.push(arg)[0] == args[0]);
        assert(args.push(arg).drop_first() =~= args.drop_first().push(arg));
        lemma_total_len_push(args.drop_first(), arg);
    }
}

/// Whether a whole argument list is admissible: every argument admissible and
/// the total length within the limit.
pub open spec fn spec_args_valid(args: Seq<Seq<char>>) -> bool {
    &&& forall|i: int| 0 <= i < args.len() ==> spec_arg_ok(#[trigger] args[i])
    &&& spec_total_len(args) <= MAX_TOTAL_ARGS_LENGTH
}

/// Admits or rejects a whole argument list: admitted exactly when every
/// argument is within the single-argument limit and free of null bytes, and
/// the lengths in total stay within the overall limit. The error names the
/// first rule broken.
pub fn validate_args(args: &Vec<String>) -> (r: Result<(), String>)
    ensures
        r is Ok <==> spec_args_valid(args.deep_view()),
{
    let ghost view = args.deep_view();
    let mut total: u128 = 0;
    let n = args.len();
    proof {
        assert(view.take(0) =~= Seq::<Seq<char>>::empty());
    }
    for i in 0..n
        invariant
            n == args@.len(),
            view == args.deep_view(),
            view.len() == n,
            total == spec_total_len(view.take(i as int)),
            total <= (i as int) * (MAX_ARG_LENGTH as int),
            forall|j: int| 0 <= j < i ==> spec_arg_ok(#[trigger] view[j]),
    {
        let arg: &String = &args[i];
        let bytes: &[u8] = arg.as_str().as_bytes();
        let arg_len: usize = arg.as_str().len();
        proof {
            assert(view[i as int] == args@[i as int]@);
            assert(bytes@ == encode_utf8(view[i as int]));
        }
        if arg_len > MAX_ARG_LENGTH {
            let mut message: String = "Argument ".to_owned();
            message.append(usize_to_decimal(i).as_str());
            message.append(" is too long: ");
            message.append(usize_to_decimal(arg_len).as_str());
            message.append(" bytes (max: ");
            message.append(usize_to_decimal(MAX_ARG_LENGTH).as_str());
            message.append(")");
            proof {
                assert(!spec_arg_ok(view[i as int]));
            }
            return Err(message);
        }
        let m = bytes.len();
        for j in 0..m
            invariant
                m == bytes@.len(),
                bytes@ == encode_utf8(view[i as int]),
                view == args.deep_view(),
                view.len() == n,
                i < n,
                forall|t: int| 0 <= t < j ==> #[trigger] bytes@[t] != 0u8,
        {
            if bytes[j] == 0 {
                let mut message: String = "Argument ".to_owned();
                message.append(usize_to_decimal(i).as_str());
                message.append(" contains null byte");
                proof {
                    assert(encode_utf8(view[i as int]).contains(0u8));
                    assert(!spec_arg_ok(view[i as int]));
                }
                return Err(message);
            }
        }
        proof {
            assert forall|t: int|
                0 <= t < encode_utf8(view[i as int]).len() implies #[trigger] encode_utf8(
                view[i as int],
            )[t] != 0u8 by {
                assert(bytes@[t] != 0u8);
            }
            assert(!encode_utf8(view[i as int]).contains(0u8));
            assert(spec_arg_ok(view[i as int]));
            lemma_total_len_push(view.take(i as int), view[i as int]);
            assert(view.take(i as int).push(view[i as int]) =~= view.take(i as int + 1));
        }
        total = total + arg_len as u128;
    }
    proof {
        assert(view.take(n as int) =~= view);
    }
    if total > MAX_TOTAL_ARGS_LENGTH as u128 {
        let mut message: String = "Total arguments length is too large: ".to_owned();
        let shown: u64 = if total > u64::MAX as u128 {
            u64::MAX
        } else {
            total as u64
        };
        message.append(crate::text::u64_to_decimal(shown).as_str());
        message.append(" bytes (max: ");
        message.append(usize_to_decimal(MAX_TOTAL_ARGS_LENGTH).as_str());
        message.append(")");
        Err(message)
    } else {
        Ok(())
    }
}

/// The command line handed to the wrapped binary: `session` when the first
/// argument asks for an interactive session, otherwise `run -t` followed by
/// every argument unchanged and unjoined.
pub open spec fn spec_goose_args(args: Seq<Seq<char>>) -> Seq<Seq<char>>
    recommends
        args.len() >= 1,
{
    if args[0] == "-i"@ || args[0] == "--interactive"@ {
        seq!["session"@]
    } else {
        seq!["run"@, "-t"@] + args
    }
}

/// Builds the command line for the wrapped binary from raw arguments.
pub fn build_goose_args(args: &Vec<String>) -> (r: Vec<String>)
    requires
        args@.len() >= 1,
    ensures
        r.deep_view() == spec_goose_args(args.deep_view()),
{
    let ghost view = args.deep_view();
    let first: &String = &args[0];
    if string_is(first, "-i") || string_is(first, "--interactive") {
        let mut command: Vec<String> = Vec::new();
        command.push("session".to_owned());
        proof {
            assert(command.deep_view() =~= seq!["session"@]);
        }
        command
    } else {
        let mut command: Vec<String> = Vec::new();
        command.push("run".to_owned());
        command.push("-t".to_owned());
        let n = args.len();
        for i in 0..n
            invariant
                n == args@.len(),
                view == args.deep_view(),
                view.len() == n,
                command.deep_view() =~= seq!["run"@, "-t"@] + view.take(i as int),
        {
            let ghost before = command.deep_view();
            command.push(args[i].clone());
            proof {
                assert(command.deep_view() =~= before.push(view[i as int]));
                assert(view.take(i as int).push(view[i as int]) =~= view.take(i as int + 1));
                assert(before.push(view[i as int]) =~= seq!["run"@, "-t"@] + view.take(
                    i as int + 1,
                ));
            }
        }
        proof {
            assert(view.take(n as int) =~= view);
        }
        command
    }
}

/// The wrapper's parsed command line: an interactive-session flag and the
/// free-form query words.
#[derive(Debug)]
pub struct Cli {
    /// Start an interactive session instead of a one-off query.
    pub interactive: bool,
    /// The query words, kept separate and in order.
    pub query: Vec<String>,
}

impl Cli {
    /// The command line handed to the wrapped binary: `session` in
    /// interactive mode, otherwise `run -t` followed by the query words
    /// unchanged and unjoined.
    pub fn build_goose_args(&self) -> (r: Vec<String>)
        ensures
            self.interactive ==> r.deep_view() == seq!["session"@],
            !self.interactive ==> r.deep_view() == seq!["run"@, "-t"@] + self.query.deep_view(),
    {
        if self.interactive {
            let mut command: Vec<String> = Vec::new();
            command.push("session".to_owned());
            proof {
                assert(command.deep_view() =~= seq!["session"@]);
            }
            command
        } else {
            let ghost view = self.query.deep_view();
            let mut command: Vec<String> = Vec::new();
            command.push("run".to_owned());
            command.push("-t".to_owned());
            let n = self.query.len();
            for i in 0..n
                invariant
                    n == self.query@.len(),
                    view == self.query.deep_view(),
                    view.len() == n,
                    command.deep_view() =~= seq!["run"@, "-t"@] + view.take(i as int),
            {
                let ghost before = command.deep_view();
                command.push(self.query[i].clone());
                proof {
                    assert(command.deep_view() =~= before.push(view[i as int]));
                    assert(view.take(i as int).push(view[i as int]) =~= view.take(i as int + 1));
                    assert(before.push(view[i as int]) =~= seq!["run"@, "-t"@] + view.take(
                        i as int + 1,
                    ));
                }
            }
            proof {
                assert(view.take(n as int) =~= view);
            }
            command
        }
    }
}

/// Whether an environment variable may pass through to the wrapped binary:
/// a fixed allow-list plus two development prefixes.
pub open spec fn spec_safe_env_key(key: Seq<char>) -> bool {
    ||| key == "PATH"@
    ||| key == "HOME"@
    ||| key == "USER"@
    ||| key == "LOGNAME"@
    ||| key == "SHELL"@
    ||| key == "TERM"@
    ||| key == "LANG"@
    ||| key == "LC_ALL"@
    ||| key == "LC_CTYPE"@
    ||| key == "TZ"@
    ||| key == "TMPDIR"@
    ||| key == "EDITOR"@
    ||| key == "VISUAL"@
    ||| key == "PAGER"@
    ||| key == "DISPLAY"@
    ||| key == "COLORTERM"@
    ||| key == "GOOSE_BINARY"@
    ||| key == "OPENAI_API_KEY"@
    ||| key == "ANTHROPIC_API_KEY"@
    ||| key == "GOOSE_MODEL"@
    ||| key == "GOOSE_PROVIDER"@
    ||| spec_starts_with(key, "GOOSE_"@)
    ||| spec_starts_with(key, "XDG_"@)
}

/// Tests whether one environment variable may pass through.
pub fn is_safe_env_key(key: &str) -> (r: bool)
    ensures
        r == spec_safe_env_key(key@),
{
    let owned: String = key.to_owned();
    string_is(&owned, "PATH") || string_is(&owned, "HOME") || string_is(&owned, "USER")
        || string_is(&owned, "LOGNAME") || string_is(&owned, "SHELL") || string_is(&owned, "TERM")
        || string_is(&owned, "LANG") || string_is(&owned, "LC_ALL") || string_is(
        &owned,
        "LC_CTYPE",
    ) || string_is(&owned, "TZ") || string_is(&owned, "TMPDIR") || string_is(&owned, "EDITOR")
        || string_is(&owned, "VISUAL") || string_is(&owned, "PAGER") || string_is(
        &owned,
        "DISPLAY",
    ) || string_is(&owned, "COLORTERM") || string_is(&owned, "GOOSE_BINARY") || string_is(
        &owned,
        "OPENAI_API_KEY",
    ) || string_is(&owned, "ANTHROPIC_API_KEY") || string_is(&owned, "GOOSE_MODEL") || string_is(
        &owned,
        "GOOSE_PROVIDER",
    ) || str_starts_with(key, "GOOSE_") || str_starts_with(key, "XDG_")
}

/// The pass-through subset of some environment pairs, order kept.
pub open spec fn spec_filtered_env(pairs: Seq<(Seq<char>, Seq<char>)>) -> Seq<
    (Seq<char>, Seq<char>),
>
    decreases pairs.len(),
{
    if pairs.len() == 0 {
        Seq::empty()
    } else if spec_safe_env_key(pairs[0].0) {
        seq![pairs[0]] + spec_filtered_env(pairs.drop_first())
    } else {
        spec_filtered_env(pairs.drop_first())
    }
}

proof fn lemma_filtered_env_push(pairs: Seq<(Seq<char>, Seq<char>)>, p: (Seq<char>, Seq<char>))
    ensures
        spec_safe_env_key(p.0) ==> spec_filtered_env(pairs.push(p)) == spec_filtered_env(
            pairs,
        ).push(p),
        !spec_safe_env_key(p.0) ==> spec_filtered_env(pairs.push(p)) == spec_filtered_env(pairs),
    decreases pairs.len(),
{
    if pairs.len() == 0 {
        assert(pairs.push(p)[0] == p);
        assert(pairs.push(p).drop_first() =~= Seq::empty());
        assert(spec_filtered_env(Seq::<(Seq<char>, Seq<char>)>::empty())
            == Seq::<(Seq<char>, Seq<char>)>::empty());
        if spec_safe_env_key(p.0) {
            assert(seq![p] + Seq::<(Seq<char>, Seq<char>)>::empty() =~= spec_filtered_env(
                pairs,
            ).push(p));
        }
    } else {
        assert(pairs.push(p)[0] == pairs[0]);
        assert(pairs.push(p).drop_first() =~= pairs.drop_first().push(p));
        lemma_filtered_env_push(pairs.drop_first(), p);
        if spec_safe_env_key(pairs[0].0) {
            if spec_safe_env_key(p.0) {
                assert(seq![pairs[0]] + spec_filtered_env(pairs.drop_first()).push(p)
                    =~= (seq![pairs[0]] + spec_filtered_env(pairs.drop_first())).push(p));
            }
        }
    }
}

/// Keeps only the environment pairs whose keys may pass through, in order.
pub fn filter_env_pairs(pairs: Vec<(String, String)>) -> (out: Vec<(String, String)>)
    ensures
        out.deep_view() == spec_filtered_env(pairs.deep_view()),
{
    let ghost orig = pairs.deep_view();
    let mut remaining = pairs;
    let mut out: Vec<(String, String)> = Vec::new();
    let ghost consumed = Seq::<(Seq<char>, Seq<char>)>::empty();
    proof {
        assert(orig.take(0) =~= Seq::<(Seq<char>, Seq<char>)>::empty());
        assert(spec_filtered_env(orig.take(0)) =~= Seq::<(Seq<char>, Seq<char>)>::empty());
        assert(out.deep_view() =~= Seq::<(Seq<char>, Seq<char>)>::empty());
    }
    let mut i: usize = 0;
    let n = remaining.len();
    while i < n
        invariant
            i <= n,
            n == remaining@.len(),
            orig == remaining.deep_view(),
            orig.len() == n,
            out.deep_view() == spec_filtered_env(orig.take(i as int)),
        decreases n - i,
    {
        let keep = {
            let pair: &(String, String) = &remaining[i];
            is_safe_env_key(pair.0.as_str())
        };
        proof {
            assert(orig[i as int] == remaining@[i as int].deep_view());
            lemma_filtered_env_push(orig.take(i as int), orig[i as int]);
            assert(orig.take(i as int).push(orig[i as int]) =~= orig.take(i as int + 1));
        }
        if keep {
            let ghost before = out.deep_view();
            let pair: &(String, String) = &remaining[i];
            out.push((pair.0.clone(), pair.1.clone()));
            proof {
                assert(out.deep_view() =~= before.push(orig[i as int]));
            }
        }
        i = i + 1;
    }
    proof {
        assert(orig.take(n as int) =~= orig);
    }
    out
}

/// The exit code reported for a finished child: its own exit code when it
/// exited, 128 plus the signal number when a signal ended it, and 1 when
/// neither is known.
pub open spec fn spec_exit_code(code: Option<i32>, signal: Option<i32>) -> int {
    match code {
        Some(c) => c as int,
        None => match signal {
            Some(s) => 128 + s,
            None => 1,
        },
    }
}

/// Converts a child's reported exit code or terminating signal into the
/// wrapper's own exit code.
pub fn exit_code_from(code: Option<i32>, signal: Option<i32>) -> (r: i32)
    requires
        signal matches Some(s) ==> s <= i32::MAX - 128,
    ensures
        r == spec_exit_code(code, signal),
{
    match code {
        Some(c) => c,
        None => match signal {
            Some(s) => 128 + s,
            None => 1,
        },
    }
}

/// Whether a file mode carries any execute bit (owner, group or other).
pub fn mode_is_executable(mode: u32) -> (r: bool)
    ensures
        r == ((mode & 0o111) != 0),
{
    (mode & 0o111) != 0
}

/// The history command's arguments.
#[derive(Debug)]
pub struct HistoryArgs {
    /// List recent history entries.
    pub list: bool,
    /// Show full details for each entry.
    pub verbose: bool,
    /// How many entries to show.
    pub limit: usize,
}

/// What the history command prints for given arguments.
pub open spec fn spec_history_lines(list: bool, verbose: bool, limit: usize) -> Seq<Seq<char>> {
    let base = seq!["Hello from history command!"@];
    let with_list = if list {
        base.push(
            "Listing recent history entries (limit: "@ + spec_u64_decimal(limit as int) + ")..."@,
        )
    } else {
        base
    };
    let with_verbose = if verbose {
        with_list.push("Verbose mode enabled - showing full details"@)
    } else {
        with_list
    };
    if !list && !verbose {
        with_verbose.push("This command will show your chat history."@).push(
            "Use --help to see available options."@,
        )
    } else {
        with_verbose
    }
}

impl HistoryArgs {
    /// The lines this command prints, in order.
    pub fn output_lines(&self) -> (lines: Vec<String>)
        ensures
            lines.deep_view() == spec_history_lines(self.list, self.verbose, self.limit),
    {
        let mut lines: Vec<String> = Vec::new();
        lines.push("Hello from history command!".to_owned());
        proof {
            assert(lines.deep_view() =~= seq!["Hello from history command!"@]);
        }
        if self.list {
            let mut line: String = "Listing recent history entries (limit: ".to_owned();
            line.append(usize_to_decimal(self.limit).as_str());
            line.append(")...");
            let ghost before = lines.deep_view();
            lines.push(line);
            proof {
                assert(lines.deep_view() =~= before.push(
                    "Listing recent history entries (limit: "@ + spec_u64_decimal(
                        self.limit as int,
                    ) + ")..."@,
                ));
            }
        }
        if self.verbose {
            let ghost before = lines.deep_view();
            lines.push("Verbose mode enabled - showing full details".to_owned());
            proof {
                assert(lines.deep_view() =~= before.push(
                    "Verbose mode enabled - showing full details"@,
                ));
            }
        }
        if !self.list && !self.verbose {
            let ghost before = lines.deep_view();
            lines.push("This command will show your chat history.".to_owned());
            lines.push("Use --help to see available options.".to_owned());
            proof {
                assert(lines.deep_view() =~= before.push(
                    "This command will show your chat history."@,
                ).push("Use --help to see available options."@));
            }
        }
        lines
    }
}

/// The shell-integration command's arguments.
#[derive(Debug)]
pub struct ShellArgs {
    /// Install shell integration.
    pub install: bool,
    /// Uninstall shell integration.
    pub uninstall: bool,
    /// Show shell integration status.
    pub status: bool,
    /// The shell to integrate with, when named.
    pub shell_type: Option<String>,
}

/// What the shell command prints for given arguments.
pub open spec fn spec_shell_lines(
    install: bool,
    uninstall: bool,
    status: bool,
    shell_type: Option<Seq<char>>,
) -> Seq<Seq<char>> {
    let base = seq!["Hello from shell command!"@];
    if install {
        let with_install = base.push("Installing shell integration..."@);
        match shell_type {
            Some(shell) => with_install.push("Shell type: "@ + shell),
            None => with_install,
        }
    } else if uninstall {
        base.push("Uninstalling shell integration..."@)
    } else if status {
        base.push("Checking shell integration status..."@)
    } else {
        base.push("This command will handle shell integration."@).push(
            "Use --help to see available options."@,
        )
    }
}

impl ShellArgs {
    /// The lines this command prints, in order.
    pub fn output_lines(&self) -> (lines: Vec<String>)
        ensures
            lines.deep_view() == spec_shell_lines(
                self.install,
                self.uninstall,
                self.status,
                self.shell_type.deep_view(),
            ),
    {
        let mut lines: Vec<String> = Vec::new();
        lines.push("Hello from shell command!".to_owned());
        proof {
            assert(lines.deep_view() =~= seq!["Hello from shell command!"@]);
        }
        if self.install {
            let ghost before = lines.deep_view();
            lines.push("Installing shell integration...".to_owned());
            proof {
                assert(lines.deep_view() =~= before.push("Installing shell integration..."@));
            }
            match &self.shell_type {
                Some(shell) => {
                    let mut line: String = "Shell type: ".to_owned();
                    line.append(shell.as_str());
                    let ghost mid = lines.deep_view();
                    lines.push(line);
                    proof {
                        assert(lines.deep_view() =~= mid.push("Shell type: "@ + shell@));
                    }
                },
                None => {},
            }
        } else if self.uninstall {
            let ghost before = lines.deep_view();
            lines.push("Uninstalling shell integration...".to_owned());
            proof {
                assert(lines.deep_view() =~= before.push("Uninstalling shell integration..."@));
            }
        } else if self.status {
            let ghost before = lines.deep_view();
            lines.push("Checking shell integration status...".to_owned());
            proof {
                assert(lines.deep_view() =~= before.push(
                    "Checking shell integration status..."@,
                ));
            }
        } else {
            let ghost before = lines.deep_view();
            lines.push("This command will handle shell integration.".to_owned());
            lines.push("Use --help to see available options.".to_owned());
            proof {
                assert(lines.deep_view() =~= before.push(
                    "This command will handle shell integration."@,
                ).push("Use --help to see available options."@));
            }
        }
        lines
    }
}

/// The fixed application-directory identity used when locating the wrapped
/// binary's configuration.
#[derive(Debug)]
pub struct AppStrategySettings {
    pub top_level_domain: String,
    pub author: String,
    pub app_name: String,
}

/// The wrapped binary's application-directory identity.
pub fn goose_app_strategy() -> (s: AppStrategySettings)
    ensures
        s.top_level_domain@ == "Block"@,
        s.author@ == "Block"@,
        s.app_name@ == "goose"@,
{
    AppStrategySettings {
        top_level_domain: "Block".to_owned(),
        author: "Block".to_owned(),
        app_name: "goose".to_owned(),
    }
}

} // verus!
