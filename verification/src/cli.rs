//! The command line.

use vstd::prelude::*;
use vstd::string::StringExecFns;

use crate::text::same_text;

verus! {

/// What the command line asks for.
#[derive(Debug, Clone)]
pub struct CliArgs {
    pub validate_config: bool,
    pub dry_run: bool,
    pub export_metrics: bool,
    pub show_version: bool,
    pub show_help: bool,
}

/// The characters of each text.
pub open spec fn texts(strings: Seq<String>) -> Seq<Seq<char>> {
    strings.map_values(|s: String| s@)
}

/// What the command line asks for: each flag counts wherever it stands in `args`.
pub open spec fn parsed(args: Seq<Seq<char>>) -> CliArgs {
    CliArgs {
        validate_config: args.contains("--validate-config"@),
        dry_run: args.contains("--dry-run"@),
        export_metrics: args.contains("--export-metrics"@),
        show_version: args.contains("--version"@) || args.contains("-V"@),
        show_help: args.contains("--help"@) || args.contains("-h"@),
    }
}

/// Whether an argument is one of the flags.
pub open spec fn is_flag(arg: Seq<char>) -> bool {
    ||| arg == "--validate-config"@
    ||| arg == "--dry-run"@
    ||| arg == "--export-metrics"@
    ||| arg == "--version"@
    ||| arg == "-V"@
    ||| arg == "--help"@
    ||| arg == "-h"@
}

/// Whether the text is among the arguments.
fn has_arg(args: &Vec<String>, wanted: &str) -> (found: bool)
    ensures
        found == texts(args@).contains(wanted@),
        found == exists|i: int| 0 <= i < args@.len() && (#[trigger] args@[i])@ == wanted@,
{
    let mut at: usize = 0;
    while at < args.len()
        invariant
            at <= args@.len(),
            forall|i: int| 0 <= i < at ==> texts(args@)[i] != wanted@,
            forall|i: int| 0 <= i < at ==> (#[trigger] args@[i])@ != wanted@,
        decreases args@.len() - at,
    {
        if same_text(args[at].as_str(), wanted) {
            assert(texts(args@)[at as int] == wanted@);
            return true;
        }
        at += 1;
    }
    false
}

/// Adds a line to the lines of a text.
fn push_line(lines: &mut Vec<String>, line: &str)
    ensures
        texts(final(lines)@) == texts(old(lines)@).push(line@),
{
    lines.push(line.to_owned());
    assert(texts(lines@) =~= texts(old(lines)@).push(line@));
}

/// The line that names the program and its version.
pub open spec fn version_text(version: Seq<char>) -> Seq<char> {
    "certstream-server-rust "@ + version
}

/// The lines of the help.
pub open spec fn help_text(version: Seq<char>) -> Seq<Seq<char>> {
    seq![
        version_text(version),
        ""@,
        "High-performance Certificate Transparency log streaming server"@,
        ""@,
        "USAGE:"@,
        "    certstream-server-rust [OPTIONS]"@,
        ""@,
        "OPTIONS:"@,
        "    --validate-config    Validate configuration and exit"@,
        "    --dry-run            Start server without connecting to CT logs"@,
        "    --export-metrics     Export current metrics and exit (output is empty on cold start)"@,
        "    -V, --version        Print version information"@,
        "    -h, --help           Print help information"@,
        ""@,
        "ENVIRONMENT VARIABLES:"@,
        "    CERTSTREAM_CONFIG              Path to config file"@,
        "    CERTSTREAM_HOST                Server host (default: 0.0.0.0)"@,
        "    CERTSTREAM_PORT                Server port (default: 8080)"@,
        "    CERTSTREAM_LOG_LEVEL           Log level (default: info)"@,
        "    CERTSTREAM_BUFFER_SIZE         Broadcast buffer size (default: 1000)"@,
        "    CERTSTREAM_USER_AGENT          Override the outbound HTTP User-Agent"@,
        ""@,
        "For more information, see: https://github.com/reloading01/certstream-server-rust"@,
    ]
}

/// The User-Agent of every outbound HTTP request unless the configuration overrides it, made
/// from the version so that no two clients can drift apart.
pub fn default_user_agent(version: &str) -> (agent: String)
    ensures
        agent@ == "certstream-server-rust/"@ + version@,
{
    "certstream-server-rust/".to_owned().concat(version)
}

impl CliArgs {
    /// Reads an argument sequence. By convention the first argument is the program's name, but
    /// every flag is looked for anywhere in the sequence.
    pub fn parse_from(args: Vec<String>) -> (cli: Self)
        ensures
            cli == parsed(texts(args@)),
            cli.validate_config == exists|i: int|
                0 <= i < args@.len() && (#[trigger] args@[i])@ == "--validate-config"@,
            cli.dry_run == exists|i: int|
                0 <= i < args@.len() && (#[trigger] args@[i])@ == "--dry-run"@,
            cli.export_metrics == exists|i: int|
                0 <= i < args@.len() && (#[trigger] args@[i])@ == "--export-metrics"@,
            cli.show_version == exists|i: int|
                0 <= i < args@.len() && ((#[trigger] args@[i])@ == "--version"@ || args@[i]@
                    == "-V"@),
            cli.show_help == exists|i: int|
                0 <= i < args@.len() && ((#[trigger] args@[i])@ == "--help"@ || args@[i]@ == "-h"@),
    {
        CliArgs {
            validate_config: has_arg(&args, "--validate-config"),
            dry_run: has_arg(&args, "--dry-run"),
            export_metrics: has_arg(&args, "--export-metrics"),
            show_version: has_arg(&args, "--version") || has_arg(&args, "-V"),
            show_help: has_arg(&args, "--help") || has_arg(&args, "-h"),
        }
    }

    /// The line that names the program and its version.
    pub fn version_line(version: &str) -> (line: String)
        ensures
            line@ == version_text(version@),
            line@ == "certstream-server-rust "@ + version@,
    {
        "certstream-server-rust ".to_owned().concat(version)
    }

    /// The lines of the help.
    pub fn help_lines(version: &str) -> (lines: Vec<String>)
        ensures
            texts(lines@) == help_text(version@),
            lines@.len() == 23,
            lines@[0]@ == "certstream-server-rust "@ + version@,
            lines@[1]@ == ""@,
            lines@[2]@ == "High-performance Certificate Transparency log streaming server"@,
            lines@[3]@ == ""@,
            lines@[4]@ == "USAGE:"@,
            lines@[5]@ == "    certstream-server-rust [OPTIONS]"@,
            lines@[6]@ == ""@,
            lines@[7]@ == "OPTIONS:"@,
            lines@[8]@ == "    --validate-config    Validate configuration and exit"@,
            lines@[9]@ == "    --dry-run            Start server without connecting to CT logs"@,
            lines@[10]@
                == "    --export-metrics     Export current metrics and exit (output is empty on cold start)"@,
            lines@[11]@ == "    -V, --version        Print version information"@,
            lines@[12]@ == "    -h, --help           Print help information"@,
            lines@[13]@ == ""@,
            lines@[14]@ == "ENVIRONMENT VARIABLES:"@,
            lines@[15]@ == "    CERTSTREAM_CONFIG              Path to config file"@,
            lines@[16]@ == "    CERTSTREAM_HOST                Server host (default: 0.0.0.0)"@,
            lines@[17]@ == "    CERTSTREAM_PORT                Server port (default: 8080)"@,
            lines@[18]@ == "    CERTSTREAM_LOG_LEVEL           Log level (default: info)"@,
            lines@[19]@
                == "    CERTSTREAM_BUFFER_SIZE         Broadcast buffer size (default: 1000)"@,
            lines@[20]@
                == "    CERTSTREAM_USER_AGENT          Override the outbound HTTP User-Agent"@,
            lines@[21]@ == ""@,
            lines@[22]@
                == "For more information, see: https://github.com/reloading01/certstream-server-rust"@,
    {
        let mut lines: Vec<String> = Vec::new();
        lines.push(Self::version_line(version));
        assert(texts(lines@) =~= seq![version_text(version@)]);
        push_line(&mut lines, "");
        push_line(&mut lines, "High-performance Certificate Transparency log streaming server");
        push_line(&mut lines, "");
        push_line(&mut lines, "USAGE:");
        push_line(&mut lines, "    certstream-server-rust [OPTIONS]");
        push_line(&mut lines, "");
        push_line(&mut lines, "OPTIONS:");
        push_line(&mut lines, "    --validate-config    Validate configuration and exit");
        push_line(&mut lines, "    --dry-run            Start server without connecting to CT logs");
        push_line(
            &mut lines,
            "    --export-metrics     Export current metrics and exit (output is empty on cold start)",
        );
        push_line(&mut lines, "    -V, --version        Print version information");
        push_line(&mut lines, "    -h, --help           Print help information");
        push_line(&mut lines, "");
        push_line(&mut lines, "ENVIRONMENT VARIABLES:");
        push_line(&mut lines, "    CERTSTREAM_CONFIG              Path to config file");
        push_line(&mut lines, "    CERTSTREAM_HOST                Server host (default: 0.0.0.0)");
        push_line(&mut lines, "    CERTSTREAM_PORT                Server port (default: 8080)");
        push_line(&mut lines, "    CERTSTREAM_LOG_LEVEL           Log level (default: info)");
        push_line(
            &mut lines,
            "    CERTSTREAM_BUFFER_SIZE         Broadcast buffer size (default: 1000)",
        );
        push_line(
            &mut lines,
            "    CERTSTREAM_USER_AGENT          Override the outbound HTTP User-Agent",
        );
        push_line(&mut lines, "");
        push_line(
            &mut lines,
            "For more information, see: https://github.com/reloading01/certstream-server-rust",
        );
        assert(texts(lines@) =~= help_text(version@));
        assert(lines@.len() == texts(lines@).len());
        assert(forall|i: int| 0 <= i < 23 ==> (#[trigger] lines@[i])@ == texts(lines@)[i]);
        lines
    }
}

/// An argument that is no flag is ignored, wherever it stands.
pub proof fn law_unknown_args_are_ignored(
    before: Seq<Seq<char>>,
    arg: Seq<char>,
    after: Seq<Seq<char>>,
)
    requires
        !is_flag(arg),
    ensures
        parsed(before + seq![arg] + after) == parsed(before + after),
{
    assert forall|flag: Seq<char>| flag != arg implies #[trigger] (before + seq![arg]
        + after).contains(flag) == (before + after).contains(flag) by {
        lemma_contains_in_sum(before + seq![arg], after, flag);
        lemma_contains_in_sum(before, seq![arg], flag);
        lemma_contains_in_sum(before, after, flag);
        assert(!seq![arg].contains(flag));
    }
}

/// A text is among the arguments of two command lines put together if it is in one of them.
proof fn lemma_contains_in_sum(a: Seq<Seq<char>>, b: Seq<Seq<char>>, text: Seq<char>)
    ensures
        (a + b).contains(text) == (a.contains(text) || b.contains(text)),
{
    if a.contains(text) {
        let i = choose|i: int| 0 <= i < a.len() && a[i] == text;
        assert((a + b)[i] == text);
    }
    if b.contains(text) {
        let i = choose|i: int| 0 <= i < b.len() && b[i] == text;
        assert((a + b)[a.len() + i] == text);
    }
}

/// Flags combine: two command lines put together ask for what either of them asks for.
pub proof fn law_flags_combine(a: Seq<Seq<char>>, b: Seq<Seq<char>>)
    ensures
        parsed(a + b) == (CliArgs {
            validate_config: parsed(a).validate_config || parsed(b).validate_config,
            dry_run: parsed(a).dry_run || parsed(b).dry_run,
            export_metrics: parsed(a).export_metrics || parsed(b).export_metrics,
            show_version: parsed(a).show_version || parsed(b).show_version,
            show_help: parsed(a).show_help || parsed(b).show_help,
        }),
{
    assert forall|flag: Seq<char>| #[trigger] (a + b).contains(flag) == (a.contains(flag)
        || b.contains(flag)) by {
        lemma_contains_in_sum(a, b, flag);
    }
}

/// Neither the order of the arguments nor how often one is given matters.
pub proof fn law_only_which_args_matters(a: Seq<Seq<char>>, b: Seq<Seq<char>>)
    requires
        forall|arg: Seq<char>| a.contains(arg) == b.contains(arg),
    ensures
        parsed(a) == parsed(b),
{
}

/// Each field is set by the spellings of its own flag, wherever one stands, and by nothing else.
pub proof fn law_each_field_answers_to_its_own_flag(args: Seq<Seq<char>>)
    ensures
        parsed(args).validate_config == exists|i: int|
            0 <= i < args.len() && #[trigger] args[i] == "--validate-config"@,
        parsed(args).dry_run == exists|i: int|
            0 <= i < args.len() && #[trigger] args[i] == "--dry-run"@,
        parsed(args).export_metrics == exists|i: int|
            0 <= i < args.len() && #[trigger] args[i] == "--export-metrics"@,
        parsed(args).show_version == exists|i: int|
            0 <= i < args.len() && (#[trigger] args[i] == "--version"@ || args[i] == "-V"@),
        parsed(args).show_help == exists|i: int|
            0 <= i < args.len() && (#[trigger] args[i] == "--help"@ || args[i] == "-h"@),
{
}

/// The spellings of the flags are different texts.
proof fn lemma_flags_differ()
    ensures
        "--validate-config"@.len() == 17,
        "--dry-run"@.len() == 9,
        "--export-metrics"@.len() == 16,
        "--version"@.len() == 9,
        "-V"@.len() == 2,
        "--help"@.len() == 6,
        "-h"@.len() == 2,
        "--dry-run"@ != "--version"@,
        "-V"@ != "-h"@,
{
    reveal_strlit("--validate-config");
    reveal_strlit("--dry-run");
    reveal_strlit("--export-metrics");
    reveal_strlit("--version");
    reveal_strlit("-V");
    reveal_strlit("--help");
    reveal_strlit("-h");
    assert("--dry-run"@[2] != "--version"@[2]);
    assert("-V"@[1] != "-h"@[1]);
}

/// One argument alone sets at most one field: that of the flag it spells.
pub proof fn law_one_argument_sets_one_field(arg: Seq<char>)
    ensures
        ({
            let cli = parsed(seq![arg]);
            &&& cli.validate_config == (arg == "--validate-config"@)
            &&& cli.dry_run == (arg == "--dry-run"@)
            &&& cli.export_metrics == (arg == "--export-metrics"@)
            &&& cli.show_version == (arg == "--version"@ || arg == "-V"@)
            &&& cli.show_help == (arg == "--help"@ || arg == "-h"@)
            &&& cli.validate_config ==> !cli.dry_run && !cli.export_metrics && !cli.show_version
                && !cli.show_help
            &&& cli.dry_run ==> !cli.export_metrics && !cli.show_version && !cli.show_help
            &&& cli.export_metrics ==> !cli.show_version && !cli.show_help
            &&& cli.show_version ==> !cli.show_help
        }),
{
    lemma_flags_differ();
    assert(seq![arg][0] == arg);
    assert(forall|text: Seq<char>| #[trigger] seq![arg].contains(text) ==> text == arg);
    assert(seq![arg].contains(arg));
}

/// Whether a line holds a word.
pub open spec fn mentions(line: Seq<char>, word: Seq<char>) -> bool {
    exists|at: int|
        0 <= at <= line.len() - word.len() && #[trigger] line.subrange(at, at + word.len()) == word
}

/// A line holds a word that stands somewhere in it.
proof fn lemma_mentions(line: Seq<char>, word: Seq<char>, at: int)
    requires
        0 <= at <= line.len() - word.len(),
        line.subrange(at, at + word.len()) == word,
    ensures
        mentions(line, word),
{
}

/// The help tells of every flag, and of the version it was made for.
pub proof fn law_help_lists_every_flag(version: Seq<char>)
    ensures
        forall|flag: Seq<char>| #[trigger]
            is_flag(flag) ==> exists|i: int|
                0 <= i < help_text(version).len() && mentions(
                    #[trigger] help_text(version)[i],
                    flag,
                ),
        mentions(help_text(version)[0], version),
{
    reveal_strlit("--validate-config");
    reveal_strlit("--dry-run");
    reveal_strlit("--export-metrics");
    reveal_strlit("--version");
    reveal_strlit("-V");
    reveal_strlit("--help");
    reveal_strlit("-h");
    reveal_strlit("certstream-server-rust ");
    reveal_strlit("    --validate-config    Validate configuration and exit");
    reveal_strlit("    --dry-run            Start server without connecting to CT logs");
    reveal_strlit(
        "    --export-metrics     Export current metrics and exit (output is empty on cold start)",
    );
    reveal_strlit("    -V, --version        Print version information");
    reveal_strlit("    -h, --help           Print help information");
    let help = help_text(version);
    assert(help[0].subrange(23, 23 + version.len() as int) =~= version);
    assert(help[8].subrange(4, 21) =~= "--validate-config"@);
    lemma_mentions(help[8], "--validate-config"@, 4);
    assert(help[9].subrange(4, 13) =~= "--dry-run"@);
    lemma_mentions(help[9], "--dry-run"@, 4);
    assert(help[10].subrange(4, 20) =~= "--export-metrics"@);
    lemma_mentions(help[10], "--export-metrics"@, 4);
    assert(help[11].subrange(4, 6) =~= "-V"@);
    lemma_mentions(help[11], "-V"@, 4);
    assert(help[11].subrange(8, 17) =~= "--version"@);
    lemma_mentions(help[11], "--version"@, 8);
    assert(help[12].subrange(4, 6) =~= "-h"@);
    lemma_mentions(help[12], "-h"@, 4);
    assert(help[12].subrange(8, 14) =~= "--help"@);
    lemma_mentions(help[12], "--help"@, 8);
}

} // verus!
