//! The precedence and formatting core: whether a message at a given severity
//! is emitted under a configuration, and the text of the line when it is.
//!
//! The structural shape of a line is pinned exactly by [`format_message`]:
//! an optional `[<elapsed>] ` prefix, the severity's label, `": "`, then the
//! message unchanged. [`error_format`] renders the same line with the label
//! and the elapsed numeral colored through the `colored` crate; what escape
//! codes that adds depends on the environment, so its contract pins the
//! emit-or-skip decision and that the line ends with the message, no more.

use vstd::prelude::*;
use vstd::string::StringExecFns;

use crate::config::Config;
use crate::level::{rank, spec_rank, LogLevel};
use colored::Colorize;

verus! {

/// Whether a message of severity `level` is emitted under `config`: true
/// iff its rank reaches the configured minimum (the boundary is inclusive).
pub open spec fn spec_should_emit(level: LogLevel, config: Config) -> bool {
    spec_rank(level) >= spec_rank(config.log_level)
}

/// Decides whether a message of severity `log_level` passes the configured
/// minimum severity. A message at exactly the minimum passes.
pub fn calculate_precedence(log_level: &LogLevel, config: &Config) -> (r: bool)
    ensures
        r == spec_should_emit(*log_level, *config),
{
    rank(log_level) >= rank(&config.log_level)
}

/// The total order law: under a configuration whose minimum severity is `b`,
/// a message of severity `a` is emitted exactly when `a`'s rank reaches
/// `b`'s, whatever the rest of the configuration holds.
pub proof fn lemma_precedence_total_order(a: LogLevel, b: LogLevel, t: bool)
    ensures
        spec_should_emit(a, Config { log_level: b, time: t }) <==> spec_rank(a) >= spec_rank(b),
{
}

/// The inclusive boundary law: every severity passes a configuration that
/// names it as its own minimum.
pub proof fn lemma_minimum_emits(level: LogLevel, t: bool)
    ensures
        spec_should_emit(level, Config { log_level: level, time: t }),
{
}

/// The decimal digit with value `d`.
pub open spec fn spec_digit_char(d: int) -> char {
    if d == 0 {
        '0'
    } else if d == 1 {
        '1'
    } else if d == 2 {
        '2'
    } else if d == 3 {
        '3'
    } else if d == 4 {
        '4'
    } else if d == 5 {
        '5'
    } else if d == 6 {
        '6'
    } else if d == 7 {
        '7'
    } else if d == 8 {
        '8'
    } else {
        '9'
    }
}

/// Whether `c` is a decimal digit.
pub open spec fn is_dec_digit(c: char) -> bool {
    c == '0' || c == '1' || c == '2' || c == '3' || c == '4' || c == '5' || c == '6' || c == '7'
        || c == '8' || c == '9'
}

/// The decimal numeral of `n`, most significant digit first, no leading
/// zeros but for `n == 0` itself.
pub open spec fn dec_digits(n: nat) -> Seq<char>
    decreases n,
{
    if n < 10 {
        seq![spec_digit_char(n as int)]
    } else {
        dec_digits(n / 10) + seq![spec_digit_char((n % 10) as int)]
    }
}

/// Every character of a decimal numeral is a digit, and a numeral is never
/// empty.
pub proof fn lemma_dec_digits_are_digits(n: nat)
    ensures
        dec_digits(n).len() >= 1,
        forall|i: int| 0 <= i < dec_digits(n).len() ==> is_dec_digit(#[trigger] dec_digits(n)[i]),
    decreases n,
{
    if n >= 10 {
        lemma_dec_digits_are_digits(n / 10);
    }
}

/// The one-character string holding the digit with value `d`.
fn digit_str(d: u64) -> (s: &'static str)
    requires
        d < 10,
    ensures
        s@ == seq![spec_digit_char(d as int)],
{
    match d {
        0 => {
            proof {
                reveal_strlit("0");
                assert("0"@ =~= seq![spec_digit_char(0int)]);
            }
            "0"
        },
        1 => {
            proof {
                reveal_strlit("1");
                assert("1"@ =~= seq![spec_digit_char(1int)]);
            }
            "1"
        },
        2 => {
            proof {
                reveal_strlit("2");
                assert("2"@ =~= seq![spec_digit_char(2int)]);
            }
            "2"
        },
        3 => {
            proof {
                reveal_strlit("3");
                assert("3"@ =~= seq![spec_digit_char(3int)]);
            }
            "3"
        },
        4 => {
            proof {
                reveal_strlit("4");
                assert("4"@ =~= seq![spec_digit_char(4int)]);
            }
            "4"
        },
        5 => {
            proof {
                reveal_strlit("5");
                assert("5"@ =~= seq![spec_digit_char(5int)]);
            }
            "5"
        },
        6 => {
            proof {
                reveal_strlit("6");
                assert("6"@ =~= seq![spec_digit_char(6int)]);
            }
            "6"
        },
        7 => {
            proof {
                reveal_strlit("7");
                assert("7"@ =~= seq![spec_digit_char(7int)]);
            }
            "7"
        },
        8 => {
            proof {
                reveal_strlit("8");
                assert("8"@ =~= seq![spec_digit_char(8int)]);
            }
            "8"
        },
        _ => {
            proof {
                reveal_strlit("9");
                assert("9"@ =~= seq![spec_digit_char(9int)]);
            }
            "9"
        },
    }
}

/// The fixed label of a severity: the lower-case level name.
pub open spec fn spec_label(level: LogLevel) -> Seq<char> {
    match level {
        LogLevel::Trace => seq!['t', 'r', 'a', 'c', 'e'],
        LogLevel::Debug => seq!['d', 'e', 'b', 'u', 'g'],
        LogLevel::Info => seq!['i', 'n', 'f', 'o'],
        LogLevel::Warning => seq!['w', 'a', 'r', 'n', 'i', 'n', 'g'],
        LogLevel::Error => seq!['e', 'r', 'r', 'o', 'r'],
    }
}

/// The label of a severity.
pub fn label(level: &LogLevel) -> (s: &'static str)
    ensures
        s@ == spec_label(*level),
{
    match level {
        LogLevel::Trace => {
            proof {
                reveal_strlit("trace");
                assert("trace"@ =~= spec_label(LogLevel::Trace));
            }
            "trace"
        },
        LogLevel::Debug => {
            proof {
                reveal_strlit("debug");
                assert("debug"@ =~= spec_label(LogLevel::Debug));
            }
            "debug"
        },
        LogLevel::Info => {
            proof {
                reveal_strlit("info");
                assert("info"@ =~= spec_label(LogLevel::Info));
            }
            "info"
        },
        LogLevel::Warning => {
            proof {
                reveal_strlit("warning");
                assert("warning"@ =~= spec_label(LogLevel::Warning));
            }
            "warning"
        },
        LogLevel::Error => {
            proof {
                reveal_strlit("error");
                assert("error"@ =~= spec_label(LogLevel::Error));
            }
            "error"
        },
    }
}

/// The severity tag that precedes the message: the label, a colon and one
/// space.
pub open spec fn spec_tag(level: LogLevel) -> Seq<char> {
    spec_label(level) + seq![':', ' ']
}

/// A whole line from its already-rendered pieces: an optional
/// `[<elapsed>] ` prefix, then the severity tag, then the message unchanged.
pub open spec fn spec_compose(
    show_time: bool,
    elapsed: Seq<char>,
    tag: Seq<char>,
    message: Seq<char>,
) -> Seq<char> {
    (if show_time {
        seq!['['] + elapsed + seq![']', ' ']
    } else {
        Seq::<char>::empty()
    }) + tag + message
}

/// What `format_message` returns: nothing when the severity is filtered out,
/// else the line the configuration asks for.
pub open spec fn spec_format(
    level: LogLevel,
    message: Seq<char>,
    config: Config,
    elapsed_seconds: u64,
) -> Option<Seq<char>> {
    if spec_should_emit(level, config) {
        Some(
            spec_compose(
                config.time,
                dec_digits(elapsed_seconds as nat),
                spec_tag(level),
                message,
            ),
        )
    } else {
        None
    }
}

/// Whether `s` is free of the ANSI escape character, the one character the
/// color renderer reacts to inside its input.
pub open spec fn escape_free(s: Seq<char>) -> bool {
    forall|i: int| 0 <= i < s.len() ==> s[i] != '\u{1b}'
}

/// Whether `s` holds `inner` as one contiguous piece, with arbitrary text —
/// escape codes, or nothing — around it.
pub open spec fn embeds(s: Seq<char>, inner: Seq<char>) -> bool {
    exists|a: Seq<char>, b: Seq<char>| s == #[trigger] (a + inner + b)
}

/// Whether `t` is a rendering of the severity tag of `level`: the label,
/// then a colon, then one space, in that order, each piece possibly wrapped
/// in escape codes.
pub open spec fn tag_shaped(t: Seq<char>, level: LogLevel) -> bool {
    exists|a: Seq<char>, b: Seq<char>, c: Seq<char>|
        t == #[trigger] (a + spec_label(level) + b + seq![':'] + c + seq![' '])
}

/// No severity label carries the escape character: every label is plain
/// lower-case letters.
pub proof fn lemma_label_escape_free(level: LogLevel)
    ensures
        escape_free(spec_label(level)),
{
}

/// Joins already-rendered pieces into one line, exactly as [`spec_compose`]
/// says.
pub fn compose_line(show_time: bool, elapsed: &str, tag: &str, message: &str) -> (s: String)
    ensures
        s@ == spec_compose(show_time, elapsed@, tag@, message@),
{
    let mut out = String::new();
    if show_time {
        out.append("[");
        out.append(elapsed);
        out.append("] ");
    }
    out.append(tag);
    out.append(message);
    proof {
        reveal_strlit("[");
        reveal_strlit("] ");
        assert("["@ =~= seq!['[']);
        assert("] "@ =~= seq![']', ' ']);
        assert(out@ =~= spec_compose(show_time, elapsed@, tag@, message@));
    }
    out
}

/// Builds the line for a message of severity `log_level`, or nothing when
/// the configured minimum filters it out. This is the structural, color-free
/// form of the facility's output; its text is pinned exactly. An empty
/// message still yields a valid prefixed line.
pub fn format_message(
    log_level: LogLevel,
    message: &str,
    config: &Config,
    elapsed_seconds: u64,
) -> (r: Option<String>)
    ensures
        r is Some <==> spec_should_emit(log_level, *config),
        r matches Some(s) ==> Some(s@) == spec_format(log_level, message@, *config, elapsed_seconds),
{
    if !calculate_precedence(&log_level, config) {
        return None;
    }
    let elapsed = u64_to_dec(elapsed_seconds);
    let mut tag = String::from_str(label(&log_level));
    tag.append(": ");
    proof {
        reveal_strlit(": ");
        assert(": "@ =~= seq![':', ' ']);
        assert(tag@ =~= spec_tag(log_level));
    }
    Some(compose_line(config.time, elapsed.as_str(), tag.as_str(), message))
}

/// Relies on colored::Colorize::red, Colorize::bold and ColoredString's
/// Display: renders the text bold red when coloring is enabled, unchanged
/// otherwise. Whether escape codes are added depends on the environment;
/// what holds of every outcome is that text free of the escape character
/// comes back whole, with at most a style prefix and a reset around it.
#[verifier::external_body]
fn paint_red_bold(s: &str) -> (r: String)
    ensures
        escape_free(s@) ==> embeds(r@, s@),
{
    format!("{}", s.red().bold())
}

/// Relies on colored::Colorize::yellow, Colorize::bold and ColoredString's
/// Display: renders the text bold yellow when coloring is enabled,
/// unchanged otherwise; as for [`paint_red_bold`], escape-free text comes
/// back whole inside the result.
#[verifier::external_body]
fn paint_yellow_bold(s: &str) -> (r: String)
    ensures
        escape_free(s@) ==> embeds(r@, s@),
{
    format!("{}", s.yellow().bold())
}

/// Relies on colored::Colorize::blue, Colorize::bold and ColoredString's
/// Display: renders the text bold blue when coloring is enabled, unchanged
/// otherwise; as for [`paint_red_bold`], escape-free text comes back whole
/// inside the result.
#[verifier::external_body]
fn paint_blue_bold(s: &str) -> (r: String)
    ensures
        escape_free(s@) ==> embeds(r@, s@),
{
    format!("{}", s.blue().bold())
}

/// Relies on colored::Colorize::bold and ColoredString's Display: renders
/// the text bold when coloring is enabled, unchanged otherwise; as for
/// [`paint_red_bold`], escape-free text comes back whole inside the result.
#[verifier::external_body]
fn paint_bold(s: &str) -> (r: String)
    ensures
        escape_free(s@) ==> embeds(r@, s@),
{
    format!("{}", s.bold())
}

/// Relies on colored::Colorize::yellow and ColoredString's Display: renders
/// the text yellow when coloring is enabled, unchanged otherwise; as for
/// [`paint_red_bold`], escape-free text comes back whole inside the result.
#[verifier::external_body]
fn paint_yellow(s: &str) -> (r: String)
    ensures
        escape_free(s@) ==> embeds(r@, s@),
{
    format!("{}", s.yellow())
}

/// The colored severity tag: the bold label in the severity's color
/// (error red, warning yellow, info blue, debug and trace uncolored), a
/// bold colon and one space — so the label, the colon and the space stand
/// in the tag in that order, whatever escape codes the environment adds.
fn painted_tag(level: &LogLevel) -> (tag: String)
    ensures
        tag_shaped(tag@, *level),
{
    let text = label(level);
    proof {
        lemma_label_escape_free(*level);
    }
    let painted = match level {
        LogLevel::Error => paint_red_bold(text),
        LogLevel::Warning => paint_yellow_bold(text),
        LogLevel::Info => paint_blue_bold(text),
        LogLevel::Debug => paint_bold(text),
        LogLevel::Trace => paint_bold(text),
    };
    proof {
        reveal_strlit(":");
        assert(":"@ =~= seq![':']);
        assert(escape_free(":"@));
    }
    let colon = paint_bold(":");
    let mut tag = painted;
    tag.append(colon.as_str());
    tag.append(" ");
    proof {
        reveal_strlit(" ");
        assert(" "@ =~= seq![' ']);
        assert(embeds(painted@, spec_label(*level)));
        assert(embeds(colon@, ":"@));
        let (a1, b1) = choose|a1: Seq<char>, b1: Seq<char>|
            painted@ == #[trigger] (a1 + spec_label(*level) + b1);
        let (a2, b2) = choose|a2: Seq<char>, b2: Seq<char>| colon@ == #[trigger] (a2 + ":"@ + b2);
        assert(tag@ =~= a1 + spec_label(*level) + (b1 + a2) + seq![':'] + b2 + seq![' ']);
    }
    tag
}

/// Builds the colored line for a message of severity `log_level`, or
/// nothing when the configured minimum filters it out. The line is the one
/// [`format_message`] describes, with the severity tag and the elapsed
/// numeral colored. The coloring depends on the environment, so the exact
/// escape codes cannot be pinned; what is promised of every outcome is the
/// line's composition: the [`spec_compose`] shape over the message, with a
/// tag that holds the label, colon and space in order, and an elapsed piece
/// that holds the decimal numeral whole.
pub fn error_format(
    log_level: LogLevel,
    message: String,
    config: &Config,
    elapsed_seconds: u64,
) -> (r: Option<String>)
    ensures
        r is Some <==> spec_should_emit(log_level, *config),
        r matches Some(s) ==> exists|prefix: Seq<char>| s@ == #[trigger] (prefix + message@),
        r matches Some(s) ==> exists|e: Seq<char>, t: Seq<char>|
            {
                &&& s@ == #[trigger] spec_compose(config.time, e, t, message@)
                &&& tag_shaped(t, log_level)
                &&& embeds(e, dec_digits(elapsed_seconds as nat))
            },
{
    if !calculate_precedence(&log_level, config) {
        return None;
    }
    let num = u64_to_dec(elapsed_seconds);
    proof {
        lemma_dec_digits_are_digits(elapsed_seconds as nat);
        assert forall|i: int| 0 <= i < num@.len() implies num@[i] != '\u{1b}' by {
            assert(is_dec_digit(dec_digits(elapsed_seconds as nat)[i]));
        }
        assert(escape_free(num@));
    }
    let elapsed = paint_yellow(num.as_str());
    let tag = painted_tag(&log_level);
    let line = compose_line(config.time, elapsed.as_str(), tag.as_str(), message.as_str());
    proof {
        let prefix = (if config.time {
            seq!['['] + elapsed@ + seq![']', ' ']
        } else {
            Seq::<char>::empty()
        }) + tag@;
        assert(line@ == prefix + message@);
        assert(line@ == spec_compose(config.time, elapsed@, tag@, message@));
    }
    Some(line)
}

/// Without the elapsed-time marker, the emitted line is the severity tag
/// followed by the message, and never starts with a bracket.
pub proof fn lemma_no_time_no_prefix(level: LogLevel, message: Seq<char>, config: Config, elapsed_seconds: u64)
    requires
        spec_should_emit(level, config),
        !config.time,
    ensures
        spec_format(level, message, config, elapsed_seconds) == Some(spec_tag(level) + message),
        (spec_tag(level) + message)[0] != '[',
{
    assert(spec_compose(false, dec_digits(elapsed_seconds as nat), spec_tag(level), message)
        =~= spec_tag(level) + message);
}

/// With the elapsed-time marker, the emitted line starts with `[`, then the
/// decimal numeral of the elapsed seconds (digits only, at least one), then
/// `] `, then the severity tag and the message.
pub proof fn lemma_time_prefix(level: LogLevel, message: Seq<char>, config: Config, elapsed_seconds: u64)
    requires
        spec_should_emit(level, config),
        config.time,
    ensures
        ({
            let s = spec_format(level, message, config, elapsed_seconds)->Some_0;
            let ds = dec_digits(elapsed_seconds as nat);
            &&& s.len() == 3 + ds.len() + spec_tag(level).len() + message.len()
            &&& s[0] == '['
            &&& s.subrange(1, 1 + ds.len() as int) == ds
            &&& ds.len() >= 1
            &&& (forall|i: int| 1 <= i < 1 + ds.len() ==> is_dec_digit(#[trigger] s[i]))
            &&& s[1 + ds.len() as int] == ']'
            &&& s[2 + ds.len() as int] == ' '
            &&& s.subrange(3 + ds.len() as int, s.len() as int) == spec_tag(level) + message
        }),
{
    let s = spec_format(level, message, config, elapsed_seconds)->Some_0;
    let ds = dec_digits(elapsed_seconds as nat);
    lemma_dec_digits_are_digits(elapsed_seconds as nat);
    assert(s.subrange(1, 1 + ds.len() as int) =~= ds);
    assert(s.subrange(3 + ds.len() as int, s.len() as int) =~= spec_tag(level) + message);
}

/// Renders `n` as its decimal numeral.
pub fn u64_to_dec(n: u64) -> (s: String)
    ensures
        s@ == dec_digits(n as nat),
    decreases n,
{
    if n < 10 {
        String::from_str(digit_str(n))
    } else {
        let mut s = u64_to_dec(n / 10);
        s.append(digit_str(n % 10));
        proof {
            assert(s@ =~= dec_digits(n as nat));
        }
        s
    }
}

} // verus!
