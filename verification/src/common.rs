//! The options of the borg commands, and the rendering of each command's
//! invocation string.
//!
//! Every command is launched through one shell-tokenizable string: the
//! `*_fmt_args` functions build it, piece by piece, exactly as stated in
//! their contracts; `shlex` quotes the operands that need it and splits the
//! finished string back into argv words.

use vstd::prelude::*;

use crate::errors::{
    CompactError, CompactErrorView, CreateError, CreateErrorView, InitError, InitErrorView,
    ListError, ListErrorView, MountError, MountErrorView, PruneError, PruneErrorView,
};
use crate::text::{spec_dec, u16_to_string, u64_to_string, u8_to_string};

verus! {

/// What shlex::split returns for a command string: its argv words, or nothing
/// when the string cannot be tokenized.
pub uninterp spec fn spec_shlex_split(s: Seq<char>) -> Option<Seq<Seq<char>>>;

/// The characters that make shlex::quote wrap a word in double quotes.
pub open spec fn spec_shell_special(c: char) -> bool {
    ||| c == '|'
    ||| c == '&'
    ||| c == ';'
    ||| c == '<'
    ||| c == '>'
    ||| c == '('
    ||| c == ')'
    ||| c == '$'
    ||| c == '`'
    ||| c == '\\'
    ||| c == '"'
    ||| c == '\''
    ||| c == ' '
    ||| c == '\t'
    ||| c == '\r'
    ||| c == '\n'
    ||| c == '*'
    ||| c == '?'
    ||| c == '['
    ||| c == '#'
    ||| c == '~'
    ||| c == '='
    ||| c == '%'
}

/// A word that shlex::quote passes through unchanged: nonempty and free of
/// the special characters.
pub open spec fn spec_shell_safe(s: Seq<char>) -> bool {
    forall|i: int| 0 <= i < s.len() ==> !spec_shell_special(#[trigger] s[i])
}

/// The backslash escaping shlex::quote applies inside a double-quoted word.
pub open spec fn spec_quote_escape(s: Seq<char>) -> Seq<char>
    decreases s.len(),
{
    if s.len() == 0 {
        Seq::empty()
    } else {
        let c = s[0];
        let head = if c == '$' || c == '`' || c == '"' || c == '\\' {
            seq!['\\', c]
        } else {
            seq![c]
        };
        head + spec_quote_escape(s.skip(1))
    }
}

/// What shlex::quote returns for a word: the empty word becomes a pair of
/// double quotes, a nonempty word free of special characters is returned
/// unchanged, and any other word is wrapped in double quotes with its
/// dollar, backtick, double-quote and backslash characters escaped.
pub open spec fn spec_quoted(s: Seq<char>) -> Seq<char> {
    if s.len() == 0 {
        seq!['"', '"']
    } else if spec_shell_safe(s) {
        s
    } else {
        seq!['"'] + spec_quote_escape(s) + seq!['"']
    }
}

/// Relies on shlex::quote, whose source checks each byte of the word against
/// the special set and escapes within double quotes; a special character is
/// never part of another character's UTF-8 encoding.
#[verifier::external_body]
fn shlex_quote(s: &str) -> (r: String)
    ensures
        r@ == spec_quoted(s@),
{
    shlex::quote(s).into_owned()
}

/// Relies on shlex::split: the POSIX-style tokenization of a command string.
#[verifier::external_body]
fn shlex_split(s: &str) -> (r: Option<Vec<String>>)
    ensures
        r.deep_view() == spec_shlex_split(s@),
{
    shlex::split(s)
}

/// Split a rendered invocation string into argv words.
pub fn split_invocation(s: &str) -> (r: Option<Vec<String>>)
    ensures
        r.deep_view() == spec_shlex_split(s@),
{
    shlex_split(s)
}

/// A pattern instruction, one entry of the `--pattern` command line
/// parameter.
///
/// Include instructions are useful to include paths that are contained in an
/// excluded path: the first matching pattern is used, so if an include
/// matches before an exclude, the file is backed up. If an
/// exclude-no-recurse pattern matches a directory, borg will not recurse
/// into it and will not discover any potential matches for include rules
/// below that directory.
#[derive(Debug, Clone, PartialEq)]
pub enum PatternInstruction {
    /// A plain root path to use as a starting point
    Root(String),
    /// Include matched files
    Include(Pattern),
    /// Exclude matched files
    Exclude(Pattern),
    /// Exclude matched directories without recursing into them
    ExcludeNoRecurse(Pattern),
}

/// A path-matching pattern, for use in [`PatternInstruction`] and the
/// exclude and select-path options.
///
/// Fnmatch, shell and regular-expression patterns are all matched by the
/// external tool's own engine; untrusted users should not be able to supply
/// regular-expression patterns, and shell and fnmatch patterns they supply
/// should contain only a handful of wildcards.
#[derive(Debug, Clone, PartialEq)]
pub enum Pattern {
    /// A shell pattern in which `*` matches any number of characters and `?`
    /// one character, with the path separator not treated specially
    FnMatch(String),
    /// A shell pattern in which `**/` also matches zero or more directory
    /// levels and `*` does not cross path separators
    Shell(String),
    /// A regular expression, matched against any substring of the path
    Regex(String),
    /// Matches a whole sub-directory: the prefix and everything under it
    PathPrefix(String),
    /// Matches one full path exactly
    PathFullMatch(String),
}

/// The rendering of a pattern: its style's prefix and the pattern text.
pub open spec fn spec_render_pattern(p: Pattern) -> Seq<char> {
    match p {
        Pattern::FnMatch(x) => "fm:"@ + x@,
        Pattern::Shell(x) => "sh:"@ + x@,
        Pattern::Regex(x) => "re:"@ + x@,
        Pattern::PathPrefix(x) => "pp:"@ + x@,
        Pattern::PathFullMatch(x) => "pf:"@ + x@,
    }
}

impl Pattern {
    /// Render the pattern as borg reads it.
    pub fn render(&self) -> (r: String)
        ensures
            r@ == spec_render_pattern(*self),
    {
        match self {
            Pattern::FnMatch(x) => {
                let mut s = String::from_str("fm:");
                s.append(x.as_str());
                s
            },
            Pattern::Shell(x) => {
                let mut s = String::from_str("sh:");
                s.append(x.as_str());
                s
            },
            Pattern::Regex(x) => {
                let mut s = String::from_str("re:");
                s.append(x.as_str());
                s
            },
            Pattern::PathPrefix(x) => {
                let mut s = String::from_str("pp:");
                s.append(x.as_str());
                s
            },
            Pattern::PathFullMatch(x) => {
                let mut s = String::from_str("pf:");
                s.append(x.as_str());
                s
            },
        }
    }
}

/// The rendering of a pattern instruction: its kind's marker and the
/// rendered pattern.
pub open spec fn spec_render_instruction(p: PatternInstruction) -> Seq<char> {
    match p {
        PatternInstruction::Root(path) => "P "@ + path@,
        PatternInstruction::Include(pattern) => "+ "@ + spec_render_pattern(pattern),
        PatternInstruction::Exclude(pattern) => "- "@ + spec_render_pattern(pattern),
        PatternInstruction::ExcludeNoRecurse(pattern) => "! "@ + spec_render_pattern(pattern),
    }
}

impl PatternInstruction {
    /// Render the instruction as borg reads it.
    pub fn render(&self) -> (r: String)
        ensures
            r@ == spec_render_instruction(*self),
    {
        match self {
            PatternInstruction::Root(path) => {
                let mut s = String::from_str("P ");
                s.append(path.as_str());
                s
            },
            PatternInstruction::Include(pattern) => {
                let mut s = String::from_str("+ ");
                s.append(pattern.render().as_str());
                s
            },
            PatternInstruction::Exclude(pattern) => {
                let mut s = String::from_str("- ");
                s.append(pattern.render().as_str());
                s
            },
            PatternInstruction::ExcludeNoRecurse(pattern) => {
                let mut s = String::from_str("! ");
                s.append(pattern.render().as_str());
                s
            },
        }
    }
}

/// The compression modes of an archive.
///
/// The `auto` and `obfuscate` modes are not supported by this library.
#[derive(Debug, Clone, Copy, PartialEq, Eq, Structural)]
pub enum CompressionMode {
    /// No compression
    NoCompression,
    /// lz4: very high speed, very low compression
    Lz4,
    /// zstd ("zstandard"), a modern wide-range algorithm; levels range from 1
    /// (fastest) to 22 (highest compression)
    Zstd(u8),
    /// zlib ("gz"): medium speed, medium compression; levels range from 0 to 9
    Zlib(u8),
    /// lzma ("xz"): low speed, high compression; levels range from 0 to 9,
    /// and levels above 6 only waste cycles
    Lzma(u8),
}

/// The rendering of a compression mode for the `--compression` parameter.
pub open spec fn spec_render_compression(m: CompressionMode) -> Seq<char> {
    match m {
        CompressionMode::NoCompression => "none"@,
        CompressionMode::Lz4 => "lz4"@,
        CompressionMode::Zstd(x) => "zstd,"@ + spec_dec(x as int),
        CompressionMode::Zlib(x) => "zlib,"@ + spec_dec(x as int),
        CompressionMode::Lzma(x) => "lzma,"@ + spec_dec(x as int),
    }
}

impl CompressionMode {
    /// Render the mode as the `--compression` parameter's value.
    pub fn render(&self) -> (r: String)
        ensures
            r@ == spec_render_compression(*self),
    {
        match self {
            CompressionMode::NoCompression => String::from_str("none"),
            CompressionMode::Lz4 => String::from_str("lz4"),
            CompressionMode::Zstd(x) => {
                let mut s = String::from_str("zstd,");
                s.append(u8_to_string(*x).as_str());
                s
            },
            CompressionMode::Zlib(x) => {
                let mut s = String::from_str("zlib,");
                s.append(u8_to_string(*x).as_str());
                s
            },
            CompressionMode::Lzma(x) => {
                let mut s = String::from_str("lzma,");
                s.append(u8_to_string(*x).as_str());
                s
            },
        }
    }
}

/// The encryption mode to create a repository with, carrying the passphrase
/// where the mode has one.
#[derive(Debug, Clone, PartialEq)]
pub enum EncryptionMode {
    /// No encryption, nor hashing; not recommended
    NoEncryption,
    /// No encryption, contents authenticated through HMAC-SHA256
    Authenticated(String),
    /// No encryption, contents authenticated through keyed BLAKE2b-256
    AuthenticatedBlake2(String),
    /// AES-CTR-256 with HMAC-SHA256, key stored in the repository
    Repokey(String),
    /// AES-CTR-256 with HMAC-SHA256, key stored locally
    Keyfile(String),
    /// AES-CTR-256 with keyed BLAKE2b-256, key stored in the repository
    RepokeyBlake2(String),
    /// AES-CTR-256 with keyed BLAKE2b-256, key stored locally
    KeyfileBlake2(String),
}

/// The name a creation encryption mode is passed to borg under.
pub open spec fn spec_enc_mode_name(m: EncryptionMode) -> Seq<char> {
    match m {
        EncryptionMode::NoEncryption => "none"@,
        EncryptionMode::Authenticated(_) => "authenticated"@,
        EncryptionMode::AuthenticatedBlake2(_) => "authenticated-blake2"@,
        EncryptionMode::Repokey(_) => "repokey"@,
        EncryptionMode::Keyfile(_) => "keyfile"@,
        EncryptionMode::RepokeyBlake2(_) => "repokey-blake2"@,
        EncryptionMode::KeyfileBlake2(_) => "keyfile-blake2"@,
    }
}

/// The passphrase a creation encryption mode carries, where it has one.
pub open spec fn spec_enc_passphrase(m: EncryptionMode) -> Option<Seq<char>> {
    match m {
        EncryptionMode::NoEncryption => None,
        EncryptionMode::Authenticated(x) => Some(x@),
        EncryptionMode::AuthenticatedBlake2(x) => Some(x@),
        EncryptionMode::Repokey(x) => Some(x@),
        EncryptionMode::Keyfile(x) => Some(x@),
        EncryptionMode::RepokeyBlake2(x) => Some(x@),
        EncryptionMode::KeyfileBlake2(x) => Some(x@),
    }
}

impl EncryptionMode {
    /// The name the mode is passed to borg under.
    pub fn mode_name(&self) -> (r: &'static str)
        ensures
            r@ == spec_enc_mode_name(*self),
    {
        match self {
            EncryptionMode::NoEncryption => "none",
            EncryptionMode::Authenticated(_) => "authenticated",
            EncryptionMode::AuthenticatedBlake2(_) => "authenticated-blake2",
            EncryptionMode::Repokey(_) => "repokey",
            EncryptionMode::Keyfile(_) => "keyfile",
            EncryptionMode::RepokeyBlake2(_) => "repokey-blake2",
            EncryptionMode::KeyfileBlake2(_) => "keyfile-blake2",
        }
    }

    /// The passphrase the mode carries, where it has one.
    pub fn get_passphrase(&self) -> (r: Option<String>)
        ensures
            r.deep_view() == spec_enc_passphrase(*self),
    {
        match self {
            EncryptionMode::NoEncryption => None,
            EncryptionMode::Authenticated(x) => Some(x.clone()),
            EncryptionMode::AuthenticatedBlake2(x) => Some(x.clone()),
            EncryptionMode::Repokey(x) => Some(x.clone()),
            EncryptionMode::Keyfile(x) => Some(x.clone()),
            EncryptionMode::RepokeyBlake2(x) => Some(x.clone()),
            EncryptionMode::KeyfileBlake2(x) => Some(x.clone()),
        }
    }
}

/// The common options that can be used with every borg command.
#[derive(Debug, Clone, PartialEq, Default)]
pub struct CommonOptions {
    /// The local path to the borg executable (default: "borg")
    pub local_path: Option<String>,
    /// The remote path to the borg executable (default: "borg")
    pub remote_path: Option<String>,
    /// Network upload rate limit in kiByte/s (0 = unlimited)
    pub upload_ratelimit: Option<u64>,
    /// The command used to connect to the borg serve process (default:
    /// "ssh"); useful to pick an alternative ssh key
    pub rsh: Option<String>,
}

/// The rendering of the common options: each one set contributes its flag,
/// its value and a trailing space.
pub open spec fn spec_common_render(c: CommonOptions) -> Seq<char> {
    let s = Seq::<char>::empty();
    let s = match c.rsh {
        Some(rsh) => s + "--rsh "@ + spec_quoted(rsh@) + " "@,
        None => s,
    };
    let s = match c.remote_path {
        Some(rp) => s + "--remote-path "@ + spec_quoted(rp@) + " "@,
        None => s,
    };
    match c.upload_ratelimit {
        Some(n) => s + "--upload-ratelimit "@ + spec_dec(n as int) + " "@,
        None => s,
    }
}

impl CommonOptions {
    /// Render the common options for an invocation string.
    pub fn render(&self) -> (r: String)
        ensures
            r@ == spec_common_render(*self),
    {
        let mut s = String::new();
        match &self.rsh {
            Some(rsh) => {
                s.append("--rsh ");
                s.append(shlex_quote(rsh.as_str()).as_str());
                s.append(" ");
            },
            None => {},
        }
        match &self.remote_path {
            Some(rp) => {
                s.append("--remote-path ");
                s.append(shlex_quote(rp.as_str()).as_str());
                s.append(" ");
            },
            None => {},
        }
        match &self.upload_ratelimit {
            Some(n) => {
                s.append("--upload-ratelimit ");
                s.append(u64_to_string(*n).as_str());
                s.append(" ");
            },
            None => {},
        }
        proof {
            assert(s@ =~= spec_common_render(*self));
        }
        s
    }

    /// The path of the borg executable to launch: the configured local path,
    /// or "borg".
    pub fn binary_path(&self) -> (r: String)
        ensures
            r@ == match self.local_path {
                Some(p) => p@,
                None => "borg"@,
            },
    {
        match &self.local_path {
            Some(p) => p.clone(),
            None => String::from_str("borg"),
        }
    }
}

/// The quantifier for [`PruneWithin`].
#[derive(Debug, Clone, Copy, PartialEq, Eq, Structural)]
pub enum PruneWithinTime {
    /// Hours
    Hour,
    /// Days
    Day,
    /// Weeks (7 days)
    Week,
    /// Months (31 days)
    Month,
    /// Years
    Year,
}

/// The letter a time quantifier is written as.
pub open spec fn spec_render_within_time(t: PruneWithinTime) -> Seq<char> {
    match t {
        PruneWithinTime::Hour => "H"@,
        PruneWithinTime::Day => "d"@,
        PruneWithinTime::Week => "w"@,
        PruneWithinTime::Month => "m"@,
        PruneWithinTime::Year => "y"@,
    }
}

impl PruneWithinTime {
    /// Render the quantifier's letter.
    pub fn render(&self) -> (r: &'static str)
        ensures
            r@ == spec_render_within_time(*self),
    {
        match self {
            PruneWithinTime::Hour => "H",
            PruneWithinTime::Day => "d",
            PruneWithinTime::Week => "w",
            PruneWithinTime::Month => "m",
            PruneWithinTime::Year => "y",
        }
    }
}

/// An interval in which backups are never pruned: a positive count and a
/// time quantifier.
#[derive(Debug, Clone, Copy, PartialEq, Eq, Structural)]
pub struct PruneWithin {
    /// The count; meaningful when positive
    pub quantifier: u16,
    /// The time quantifier
    pub time: PruneWithinTime,
}

/// The rendering of a keep-within interval: the count and the quantifier's
/// letter.
pub open spec fn spec_render_within(w: PruneWithin) -> Seq<char> {
    spec_dec(w.quantifier as int) + spec_render_within_time(w.time)
}

impl PruneWithin {
    /// Render the interval as the `--keep-within` parameter's value.
    pub fn render(&self) -> (r: String)
        ensures
            r@ == spec_render_within(*self),
    {
        let mut s = u16_to_string(self.quantifier);
        s.append(self.time.render());
        s
    }
}


/// The entries of a space-joined list.
pub open spec fn spec_join_spaced(items: Seq<Seq<char>>) -> Seq<char>
    decreases items.len(),
{
    if items.len() == 0 {
        Seq::empty()
    } else if items.len() == 1 {
        items[0]
    } else {
        spec_join_spaced(items.drop_last()) + seq![' '] + items.last()
    }
}

/// Join the items with single spaces.
fn join_spaced(items: &Vec<String>) -> (r: String)
    ensures
        r@ == spec_join_spaced(items.deep_view()),
{
    let mut s = String::new();
    let mut i: usize = 0;
    proof {
        assert(items.deep_view().subrange(0, 0) =~= Seq::<Seq<char>>::empty());
        assert(s@ =~= spec_join_spaced(items.deep_view().subrange(0, 0)));
    }
    while i < items.len()
        invariant
            i <= items@.len(),
            items.deep_view().len() == items@.len(),
            s@ == spec_join_spaced(items.deep_view().subrange(0, i as int)),
        decreases items@.len() - i,
    {
        let ghost pre = items.deep_view();
        if i > 0 {
            proof {
                reveal_strlit(" ");
            }
            s.append(" ");
        }
        s.append(items[i].as_str());
        proof {
            assert(pre[i as int] == items@[i as int]@);
            assert(pre.subrange(0, i + 1 as int).drop_last() =~= pre.subrange(0, i as int));
            assert(pre.subrange(0, i + 1 as int).last() == pre[i as int]);
            assert(s@ =~= spec_join_spaced(pre.subrange(0, i + 1 as int)));
        }
        i += 1;
    }
    proof {
        assert(items.deep_view().subrange(0, items@.len() as int) =~= items.deep_view());
    }
    s
}

/// The `--pattern` arguments for a list of instructions, before joining.
pub open spec fn spec_instruction_items(ps: Seq<PatternInstruction>) -> Seq<Seq<char>> {
    ps.map_values(|p: PatternInstruction| " --pattern="@ + spec_quoted(spec_render_instruction(p)))
}

/// Render and join the `--pattern` arguments of a list of instructions.
fn instruction_args(ps: &Vec<PatternInstruction>) -> (r: String)
    ensures
        r@ == spec_join_spaced(spec_instruction_items(ps@)),
{
    let mut items: Vec<String> = Vec::new();
    let mut i: usize = 0;
    while i < ps.len()
        invariant
            i <= ps@.len(),
            items.deep_view() =~~= spec_instruction_items(ps@).subrange(0, i as int),
        decreases ps@.len() - i,
    {
        proof {
            assert(items.deep_view().len() == items@.len());
            assert(items@.len() == i);
        }
        let mut s = String::from_str(" --pattern=");
        s.append(shlex_quote(ps[i].render().as_str()).as_str());
        items.push(s);
        proof {
            assert(items.deep_view() =~~= spec_instruction_items(ps@).subrange(0, i + 1 as int));
        }
        i += 1;
    }
    proof {
        assert(spec_instruction_items(ps@).subrange(0, ps@.len() as int) =~~= spec_instruction_items(
            ps@,
        ));
        assert(items.deep_view() =~~= spec_instruction_items(ps@));
    }
    join_spaced(&items)
}

/// The arguments for a list of patterns under one flag prefix, before
/// joining.
pub open spec fn spec_pattern_items(prefix: Seq<char>, ps: Seq<Pattern>) -> Seq<Seq<char>> {
    ps.map_values(|p: Pattern| prefix + spec_quoted(spec_render_pattern(p)))
}

/// Render and join the arguments of a list of patterns under one flag
/// prefix, such as `--exclude=` entries.
fn pattern_args(prefix: &str, ps: &Vec<Pattern>) -> (r: String)
    ensures
        r@ == spec_join_spaced(spec_pattern_items(prefix@, ps@)),
{
    let mut items: Vec<String> = Vec::new();
    let mut i: usize = 0;
    while i < ps.len()
        invariant
            i <= ps@.len(),
            items.deep_view() =~~= spec_pattern_items(prefix@, ps@).subrange(0, i as int),
        decreases ps@.len() - i,
    {
        proof {
            assert(items.deep_view().len() == items@.len());
            assert(items@.len() == i);
        }
        let mut s = String::from_str(prefix);
        s.append(shlex_quote(ps[i].render().as_str()).as_str());
        items.push(s);
        proof {
            assert(items.deep_view() =~~= spec_pattern_items(prefix@, ps@).subrange(
                0,
                i + 1 as int,
            ));
        }
        i += 1;
    }
    proof {
        assert(spec_pattern_items(prefix@, ps@).subrange(0, ps@.len() as int)
            =~~= spec_pattern_items(prefix@, ps@));
        assert(items.deep_view() =~~= spec_pattern_items(prefix@, ps@));
    }
    join_spaced(&items)
}

/// The trailing path operands of a create command, each quoted, before
/// joining.
pub open spec fn spec_path_items(paths: Seq<Seq<char>>) -> Seq<Seq<char>> {
    paths.map_values(|p: Seq<char>| spec_quoted(p))
}

/// Quote and join the trailing path operands of a create command, so that a
/// path holding shell metacharacters stays one operand.
fn path_args(paths: &Vec<String>) -> (r: String)
    ensures
        r@ == spec_join_spaced(spec_path_items(paths.deep_view())),
{
    let mut items: Vec<String> = Vec::new();
    let mut i: usize = 0;
    while i < paths.len()
        invariant
            i <= paths@.len(),
            paths.deep_view().len() == paths@.len(),
            items.deep_view() =~~= spec_path_items(paths.deep_view()).subrange(0, i as int),
        decreases paths@.len() - i,
    {
        proof {
            assert(items.deep_view().len() == items@.len());
            assert(items@.len() == i);
        }
        let quoted = shlex_quote(paths[i].as_str());
        items.push(quoted);
        proof {
            assert(paths.deep_view()[i as int] == paths@[i as int]@);
            assert(items.deep_view() =~~= spec_path_items(paths.deep_view()).subrange(
                0,
                i + 1 as int,
            ));
        }
        i += 1;
    }
    proof {
        assert(spec_path_items(paths.deep_view()).subrange(0, paths@.len() as int)
            =~~= spec_path_items(paths.deep_view()));
        assert(items.deep_view() =~~= spec_path_items(paths.deep_view()));
    }
    join_spaced(&items)
}

/// Options for the prune command.
///
/// A good procedure is to thin out more and more the older the backups get:
/// keeping the latest backup on each day, up to seven most recent days with
/// backups, is `keep_daily` 7. The rules are applied from secondly to yearly,
/// and backups selected by previous rules do not count towards those of later
/// rules.
#[derive(Debug, Clone, PartialEq)]
pub struct PruneOptions {
    /// Path to the repository, such as `/tmp/foo` or
    /// `user@example.com:/opt/repo`
    pub repository: String,
    /// The passphrase for the repository; may stay empty for an unencrypted
    /// repository
    pub passphrase: Option<String>,
    /// Archives within this interval do not count towards the totals of the
    /// other options
    pub keep_within: Option<PruneWithin>,
    /// Number of secondly archives to keep; meaningful when positive
    pub keep_secondly: Option<u16>,
    /// Number of minutely archives to keep; meaningful when positive
    pub keep_minutely: Option<u16>,
    /// Number of hourly archives to keep; meaningful when positive
    pub keep_hourly: Option<u16>,
    /// Number of daily archives to keep; meaningful when positive
    pub keep_daily: Option<u16>,
    /// Number of weekly archives to keep; meaningful when positive
    pub keep_weekly: Option<u16>,
    /// Number of monthly archives to keep; meaningful when positive
    pub keep_monthly: Option<u16>,
    /// Number of yearly archives to keep; meaningful when positive
    pub keep_yearly: Option<u16>,
    /// Write a checkpoint every this many seconds (default: 1800)
    pub checkpoint_interval: Option<u16>,
    /// Only consider archive names matching this shell glob
    pub glob_archives: Option<String>,
}

impl PruneOptions {
    /// Create [`PruneOptions`] with every optional rule unset.
    pub fn new(repository: String) -> (r: PruneOptions)
        ensures
            r.repository@ == repository@,
            r.passphrase is None,
            r.keep_within is None,
            r.keep_secondly is None,
            r.keep_minutely is None,
            r.keep_hourly is None,
            r.keep_daily is None,
            r.keep_weekly is None,
            r.keep_monthly is None,
            r.keep_yearly is None,
            r.checkpoint_interval is None,
            r.glob_archives is None,
    {
        PruneOptions {
            repository,
            passphrase: None,
            keep_within: None,
            keep_secondly: None,
            keep_minutely: None,
            keep_hourly: None,
            keep_daily: None,
            keep_weekly: None,
            keep_monthly: None,
            keep_yearly: None,
            checkpoint_interval: None,
            glob_archives: None,
        }
    }
}

/// What a mount command mounts: a whole repository or one archive.
#[derive(Debug, Clone, PartialEq)]
pub enum MountSource {
    /// Mount a repository
    Repository {
        /// Name of the repository, such as `/tmp/foo` or
        /// `user@example.com:/opt/repo`
        name: String,
        /// Mount only the first N archives; meaningful when positive
        first_n_archives: Option<u16>,
        /// Mount only the last N archives; meaningful when positive
        last_n_archives: Option<u16>,
        /// Only consider archive names matching this shell glob
        glob_archives: Option<String>,
    },
    /// Mount one archive, named `repository::archive`
    Archive {
        /// Path to the archive, such as `/tmp/foo::my-archive`
        archive_name: String,
    },
}

/// The rendering of a mount source for the invocation string.
pub open spec fn spec_render_mount_source(m: MountSource) -> Seq<char> {
    match m {
        MountSource::Repository { name, first_n_archives, last_n_archives, glob_archives } => {
            let s = name@;
            let s = match first_n_archives {
                Some(n) => s + " --first "@ + spec_dec(n as int),
                None => s,
            };
            let s = match last_n_archives {
                Some(n) => s + " --last "@ + spec_dec(n as int),
                None => s,
            };
            match glob_archives {
                Some(g) => s + " --glob-archives "@ + g@,
                None => s,
            }
        },
        MountSource::Archive { archive_name } => archive_name@,
    }
}

impl MountSource {
    /// Render the mount source for the invocation string.
    pub fn render(&self) -> (r: String)
        ensures
            r@ == spec_render_mount_source(*self),
    {
        match self {
            MountSource::Repository { name, first_n_archives, last_n_archives, glob_archives } => {
                let mut s = name.clone();
                match first_n_archives {
                    Some(n) => {
                        s.append(" --first ");
                        s.append(u16_to_string(*n).as_str());
                    },
                    None => {},
                }
                match last_n_archives {
                    Some(n) => {
                        s.append(" --last ");
                        s.append(u16_to_string(*n).as_str());
                    },
                    None => {},
                }
                match glob_archives {
                    Some(g) => {
                        s.append(" --glob-archives ");
                        s.append(g.as_str());
                    },
                    None => {},
                }
                proof {
                    assert(s@ =~= spec_render_mount_source(*self));
                }
                s
            },
            MountSource::Archive { archive_name } => archive_name.clone(),
        }
    }
}

/// Options for the mount and umount commands: mount an archive or repository
/// as a FUSE file system, useful for browsing and interactive restoration.
#[derive(Debug, Clone, PartialEq)]
pub struct MountOptions {
    /// The archive or repository to mount
    pub mount_source: MountSource,
    /// The path to mount at, such as `/mnt/my-borg-backup`
    pub mountpoint: String,
    /// The passphrase for the repository; may stay empty for an unencrypted
    /// repository
    pub passphrase: Option<String>,
    /// Paths to make visible; all paths are present when empty
    pub select_paths: Vec<Pattern>,
}

impl MountOptions {
    /// Create [`MountOptions`] with no passphrase and no path selection.
    pub fn new(mount_source: MountSource, mountpoint: String) -> (r: MountOptions)
        ensures
            r.mount_source == mount_source,
            r.mountpoint@ == mountpoint@,
            r.passphrase is None,
            r.select_paths@ =~= Seq::<Pattern>::empty(),
    {
        MountOptions { mount_source, mountpoint, passphrase: None, select_paths: Vec::new() }
    }
}

/// Options for the compact command.
#[derive(Debug, Clone, PartialEq)]
pub struct CompactOptions {
    /// Path to the repository, such as `/tmp/foo` or
    /// `user@example.com:/opt/repo`
    pub repository: String,
}

/// Options for the create command.
#[derive(Debug, Clone, PartialEq)]
pub struct CreateOptions {
    /// Path to the repository, such as `/tmp/foo` or
    /// `user@example.com:/opt/repo`
    pub repository: String,
    /// Name of the archive to create; must be unique within the repository
    /// and must not end in `.checkpoint` or `.checkpoint.N`
    pub archive: String,
    /// The passphrase for the repository; may stay empty for an unencrypted
    /// repository
    pub passphrase: Option<String>,
    /// A comment to attach to the archive
    pub comment: Option<String>,
    /// The compression mode to use; borg defaults to lz4
    pub compression: Option<CompressionMode>,
    /// The paths to archive, each traversed recursively
    pub paths: Vec<String>,
    /// Exclude directories that contain a CACHEDIR.TAG file
    pub exclude_caches: bool,
    /// The pattern instructions to apply; their order matters
    pub patterns: Vec<PatternInstruction>,
    /// Read include and exclude patterns from this path, one per line
    pub pattern_file: Option<String>,
    /// Exclude paths matching these patterns
    pub excludes: Vec<Pattern>,
    /// Read exclude patterns from this path, one per line
    pub exclude_file: Option<String>,
    /// Only store numeric user and group identifiers
    pub numeric_ids: bool,
    /// Detect sparse holes in the input (fixed chunker only)
    pub sparse: bool,
    /// Read device files and FIFOs as if they were regular files
    pub read_special: bool,
    /// Do not read and store extended attributes
    pub no_xattrs: bool,
    /// Do not read and store ACLs
    pub no_acls: bool,
    /// Do not read and store file flags
    pub no_flags: bool,
}

impl CreateOptions {
    /// Create [`CreateOptions`] with every optional setting unset and every
    /// flag off.
    pub fn new(
        repository: String,
        archive: String,
        paths: Vec<String>,
        patterns: Vec<PatternInstruction>,
    ) -> (r: CreateOptions)
        ensures
            r.repository@ == repository@,
            r.archive@ == archive@,
            r.paths@ == paths@,
            r.patterns@ == patterns@,
            r.passphrase is None,
            r.comment is None,
            r.compression is None,
            !r.exclude_caches,
            r.pattern_file is None,
            r.excludes@ =~= Seq::<Pattern>::empty(),
            r.exclude_file is None,
            !r.numeric_ids,
            !r.sparse,
            !r.read_special,
            !r.no_xattrs,
            !r.no_acls,
            !r.no_flags,
    {
        CreateOptions {
            repository,
            archive,
            passphrase: None,
            comment: None,
            compression: None,
            paths,
            exclude_caches: false,
            patterns,
            pattern_file: None,
            excludes: Vec::new(),
            exclude_file: None,
            numeric_ids: false,
            sparse: false,
            read_special: false,
            no_xattrs: false,
            no_acls: false,
            no_flags: false,
        }
    }
}

/// Options for the init command.
#[derive(Debug, Clone, PartialEq)]
pub struct InitOptions {
    /// Path to the repository, such as `/tmp/foo` or
    /// `user@example.com:/opt/repo`
    pub repository: String,
    /// The mode to encrypt the new repository with
    pub encryption_mode: EncryptionMode,
    /// Create the repository in append-only mode; delete and prune still run,
    /// only the low-level structure is affected
    pub append_only: bool,
    /// Create the parent directories of the repository when missing
    pub make_parent_dirs: bool,
    /// Storage quota of the new repository, such as `5G`; none by default
    pub storage_quota: Option<String>,
}

impl InitOptions {
    /// Create [`InitOptions`] with `append_only`, `make_parent_dirs` and
    /// `storage_quota` at their defaults.
    pub fn new(repository: String, encryption_mode: EncryptionMode) -> (r: InitOptions)
        ensures
            r.repository@ == repository@,
            r.encryption_mode == encryption_mode,
            !r.append_only,
            !r.make_parent_dirs,
            r.storage_quota is None,
    {
        InitOptions {
            repository,
            encryption_mode,
            append_only: false,
            make_parent_dirs: false,
            storage_quota: None,
        }
    }
}

/// Options for the list command.
#[derive(Debug, Clone, PartialEq)]
pub struct ListOptions {
    /// Path to the repository, such as `/tmp/foo` or
    /// `user@example.com:/opt/repo`
    pub repository: String,
    /// The passphrase for the repository; may stay empty for an unencrypted
    /// repository
    pub passphrase: Option<String>,
}

/// The invocation string of an init command.
pub open spec fn spec_init_fmt_args(options: InitOptions, common: CommonOptions) -> Seq<char> {
    let s = "--log-json "@ + spec_common_render(common) + "init -e "@ + spec_enc_mode_name(
        options.encryption_mode,
    );
    let s = if options.append_only {
        s + " --append-only"@
    } else {
        s
    };
    let s = if options.make_parent_dirs {
        s + " --make-parent-dirs"@
    } else {
        s
    };
    let s = match options.storage_quota {
        Some(q) => s + " --storage-quota "@ + spec_quoted(q@),
        None => s,
    };
    s + " "@ + spec_quoted(options.repository@)
}

/// Render the invocation string of an init command.
pub fn init_fmt_args(options: &InitOptions, common_options: &CommonOptions) -> (r: String)
    ensures
        r@ == spec_init_fmt_args(*options, *common_options),
{
    let mut s = String::from_str("--log-json ");
    s.append(common_options.render().as_str());
    s.append("init -e ");
    s.append(options.encryption_mode.mode_name());
    if options.append_only {
        s.append(" --append-only");
    }
    if options.make_parent_dirs {
        s.append(" --make-parent-dirs");
    }
    match &options.storage_quota {
        Some(q) => {
            s.append(" --storage-quota ");
            s.append(shlex_quote(q.as_str()).as_str());
        },
        None => {},
    }
    s.append(" ");
    s.append(shlex_quote(options.repository.as_str()).as_str());
    proof {
        assert(s@ =~= spec_init_fmt_args(*options, *common_options));
    }
    s
}

/// The invocation string of a prune command.
pub open spec fn spec_prune_fmt_args(options: PruneOptions, common: CommonOptions) -> Seq<char> {
    let s = "--log-json "@ + spec_common_render(common) + " prune"@;
    let s = match options.keep_within {
        Some(w) => s + " --keep-within "@ + spec_render_within(w),
        None => s,
    };
    let s = match options.keep_secondly {
        Some(n) => s + " --keep-secondly "@ + spec_dec(n as int),
        None => s,
    };
    let s = match options.keep_minutely {
        Some(n) => s + " --keep-minutely "@ + spec_dec(n as int),
        None => s,
    };
    let s = match options.keep_hourly {
        Some(n) => s + " --keep-hourly "@ + spec_dec(n as int),
        None => s,
    };
    let s = match options.keep_daily {
        Some(n) => s + " --keep-daily "@ + spec_dec(n as int),
        None => s,
    };
    let s = match options.keep_weekly {
        Some(n) => s + " --keep-weekly "@ + spec_dec(n as int),
        None => s,
    };
    let s = match options.keep_monthly {
        Some(n) => s + " --keep-monthly "@ + spec_dec(n as int),
        None => s,
    };
    let s = match options.keep_yearly {
        Some(n) => s + " --keep-yearly "@ + spec_dec(n as int),
        None => s,
    };
    s + " "@ + spec_quoted(options.repository@)
}

/// Render the invocation string of a prune command.
pub fn prune_fmt_args(options: &PruneOptions, common_options: &CommonOptions) -> (r: String)
    ensures
        r@ == spec_prune_fmt_args(*options, *common_options),
{
    let mut s = String::from_str("--log-json ");
    s.append(common_options.render().as_str());
    s.append(" prune");
    match &options.keep_within {
        Some(w) => {
            s.append(" --keep-within ");
            s.append(w.render().as_str());
        },
        None => {},
    }
    match &options.keep_secondly {
        Some(n) => {
            s.append(" --keep-secondly ");
            s.append(u16_to_string(*n).as_str());
        },
        None => {},
    }
    match &options.keep_minutely {
        Some(n) => {
            s.append(" --keep-minutely ");
            s.append(u16_to_string(*n).as_str());
        },
        None => {},
    }
    match &options.keep_hourly {
        Some(n) => {
            s.append(" --keep-hourly ");
            s.append(u16_to_string(*n).as_str());
        },
        None => {},
    }
    match &options.keep_daily {
        Some(n) => {
            s.append(" --keep-daily ");
            s.append(u16_to_string(*n).as_str());
        },
        None => {},
    }
    match &options.keep_weekly {
        Some(n) => {
            s.append(" --keep-weekly ");
            s.append(u16_to_string(*n).as_str());
        },
        None => {},
    }
    match &options.keep_monthly {
        Some(n) => {
            s.append(" --keep-monthly ");
            s.append(u16_to_string(*n).as_str());
        },
        None => {},
    }
    match &options.keep_yearly {
        Some(n) => {
            s.append(" --keep-yearly ");
            s.append(u16_to_string(*n).as_str());
        },
        None => {},
    }
    s.append(" ");
    s.append(shlex_quote(options.repository.as_str()).as_str());
    proof {
        assert(s@ =~= spec_prune_fmt_args(*options, *common_options));
    }
    s
}

/// The invocation string of a mount command.
pub open spec fn spec_mount_fmt_args(options: MountOptions, common: CommonOptions) -> Seq<char> {
    "--log-json "@ + spec_common_render(common) + " mount "@ + spec_render_mount_source(
        options.mount_source,
    ) + " "@ + options.mountpoint@ + spec_join_spaced(
        spec_pattern_items(" --pattern="@, options.select_paths@),
    )
}

/// Render the invocation string of a mount command.
pub fn mount_fmt_args(options: &MountOptions, common_options: &CommonOptions) -> (r: String)
    ensures
        r@ == spec_mount_fmt_args(*options, *common_options),
{
    let mut s = String::from_str("--log-json ");
    s.append(common_options.render().as_str());
    s.append(" mount ");
    s.append(options.mount_source.render().as_str());
    s.append(" ");
    s.append(options.mountpoint.as_str());
    s.append(pattern_args(" --pattern=", &options.select_paths).as_str());
    proof {
        assert(s@ =~= spec_mount_fmt_args(*options, *common_options));
    }
    s
}

/// The invocation string of a list command.
pub open spec fn spec_list_fmt_args(options: ListOptions, common: CommonOptions) -> Seq<char> {
    "--log-json "@ + spec_common_render(common) + " list --json "@ + spec_quoted(
        options.repository@,
    )
}

/// Render the invocation string of a list command.
pub fn list_fmt_args(options: &ListOptions, common_options: &CommonOptions) -> (r: String)
    ensures
        r@ == spec_list_fmt_args(*options, *common_options),
{
    let mut s = String::from_str("--log-json ");
    s.append(common_options.render().as_str());
    s.append(" list --json ");
    s.append(shlex_quote(options.repository.as_str()).as_str());
    proof {
        assert(s@ =~= spec_list_fmt_args(*options, *common_options));
    }
    s
}

/// The invocation string of a compact command.
pub open spec fn spec_compact_fmt_args(options: CompactOptions, common: CommonOptions) -> Seq<
    char,
> {
    "--log-json "@ + spec_common_render(common) + "compact "@ + spec_quoted(options.repository@)
}

/// Render the invocation string of a compact command.
pub fn compact_fmt_args(options: &CompactOptions, common_options: &CommonOptions) -> (r: String)
    ensures
        r@ == spec_compact_fmt_args(*options, *common_options),
{
    let mut s = String::from_str("--log-json ");
    s.append(common_options.render().as_str());
    s.append("compact ");
    s.append(shlex_quote(options.repository.as_str()).as_str());
    proof {
        assert(s@ =~= spec_compact_fmt_args(*options, *common_options));
    }
    s
}

/// The invocation string of a create command.
pub open spec fn spec_create_fmt_args(
    options: CreateOptions,
    common: CommonOptions,
    progress: bool,
) -> Seq<char> {
    let s = "--log-json"@;
    let s = if progress {
        s + " --progress"@
    } else {
        s
    };
    let s = s + " "@ + spec_common_render(common) + "create --json"@;
    let s = match options.comment {
        Some(c) => s + " --comment "@ + spec_quoted(c@),
        None => s,
    };
    let s = match options.compression {
        Some(m) => s + " --compression "@ + spec_render_compression(m),
        None => s,
    };
    let s = if options.numeric_ids {
        s + " --numeric-ids"@
    } else {
        s
    };
    let s = if options.sparse {
        s + " --sparse"@
    } else {
        s
    };
    let s = if options.read_special {
        s + " --read-special"@
    } else {
        s
    };
    let s = if options.no_xattrs {
        s + " --noxattrs"@
    } else {
        s
    };
    let s = if options.no_acls {
        s + " --noacls"@
    } else {
        s
    };
    let s = if options.no_flags {
        s + " --noflags"@
    } else {
        s
    };
    let s = if options.exclude_caches {
        s + " --exclude-caches"@
    } else {
        s
    };
    let s = s + spec_join_spaced(spec_instruction_items(options.patterns@));
    let s = s + spec_join_spaced(spec_pattern_items(" --exclude="@, options.excludes@));
    let s = match options.pattern_file {
        Some(f) => s + " --patterns-from "@ + spec_quoted(f@),
        None => s,
    };
    let s = match options.exclude_file {
        Some(f) => s + " --exclude-from "@ + spec_quoted(f@),
        None => s,
    };
    s + " "@ + spec_quoted(options.repository@) + "::"@ + spec_quoted(options.archive@) + " "@
        + spec_join_spaced(spec_path_items(options.paths.deep_view()))
}

/// Render the invocation string of a create command, with or without
/// progress reporting.
pub fn create_fmt_args(options: &CreateOptions, common_options: &CommonOptions, progress: bool) -> (
    r: String)
    ensures
        r@ == spec_create_fmt_args(*options, *common_options, progress),
{
    let mut s = String::from_str("--log-json");
    if progress {
        s.append(" --progress");
    }
    s.append(" ");
    s.append(common_options.render().as_str());
    s.append("create --json");
    match &options.comment {
        Some(c) => {
            s.append(" --comment ");
            s.append(shlex_quote(c.as_str()).as_str());
        },
        None => {},
    }
    match &options.compression {
        Some(m) => {
            s.append(" --compression ");
            s.append(m.render().as_str());
        },
        None => {},
    }
    if options.numeric_ids {
        s.append(" --numeric-ids");
    }
    if options.sparse {
        s.append(" --sparse");
    }
    if options.read_special {
        s.append(" --read-special");
    }
    if options.no_xattrs {
        s.append(" --noxattrs");
    }
    if options.no_acls {
        s.append(" --noacls");
    }
    if options.no_flags {
        s.append(" --noflags");
    }
    if options.exclude_caches {
        s.append(" --exclude-caches");
    }
    s.append(instruction_args(&options.patterns).as_str());
    s.append(pattern_args(" --exclude=", &options.excludes).as_str());
    match &options.pattern_file {
        Some(f) => {
            s.append(" --patterns-from ");
            s.append(shlex_quote(f.as_str()).as_str());
        },
        None => {},
    }
    match &options.exclude_file {
        Some(f) => {
            s.append(" --exclude-from ");
            s.append(shlex_quote(f.as_str()).as_str());
        },
        None => {},
    }
    s.append(" ");
    s.append(shlex_quote(options.repository.as_str()).as_str());
    s.append("::");
    s.append(shlex_quote(options.archive.as_str()).as_str());
    s.append(" ");
    s.append(path_args(&options.paths).as_str());
    proof {
        assert(s@ =~= spec_create_fmt_args(*options, *common_options, progress));
    }
    s
}


/// The argv words of a create command: the rendered invocation string,
/// tokenized. Fails with the tokenization error exactly when the string
/// cannot be tokenized.
pub fn create_invocation(
    options: &CreateOptions,
    common_options: &CommonOptions,
    progress: bool,
) -> (r: Result<Vec<String>, CreateError>)
    ensures
        match r {
            Ok(v) => spec_shlex_split(spec_create_fmt_args(*options, *common_options, progress))
                == Some(v.deep_view()),
            Err(e) => e@ == CreateErrorView::ShlexError && spec_shlex_split(
                spec_create_fmt_args(*options, *common_options, progress),
            ) is None,
        },
{
    let args = create_fmt_args(options, common_options, progress);
    match split_invocation(args.as_str()) {
        Some(v) => Ok(v),
        None => Err(CreateError::ShlexError),
    }
}

/// The argv words of an init command, as [`create_invocation`] for create.
pub fn init_invocation(options: &InitOptions, common_options: &CommonOptions) -> (r: Result<
    Vec<String>,
    InitError,
>)
    ensures
        match r {
            Ok(v) => spec_shlex_split(spec_init_fmt_args(*options, *common_options)) == Some(
                v.deep_view(),
            ),
            Err(e) => e@ == InitErrorView::ShlexError && spec_shlex_split(
                spec_init_fmt_args(*options, *common_options),
            ) is None,
        },
{
    let args = init_fmt_args(options, common_options);
    match split_invocation(args.as_str()) {
        Some(v) => Ok(v),
        None => Err(InitError::ShlexError),
    }
}

/// The argv words of a prune command, as [`create_invocation`] for create.
pub fn prune_invocation(options: &PruneOptions, common_options: &CommonOptions) -> (r: Result<
    Vec<String>,
    PruneError,
>)
    ensures
        match r {
            Ok(v) => spec_shlex_split(spec_prune_fmt_args(*options, *common_options)) == Some(
                v.deep_view(),
            ),
            Err(e) => e@ == PruneErrorView::ShlexError && spec_shlex_split(
                spec_prune_fmt_args(*options, *common_options),
            ) is None,
        },
{
    let args = prune_fmt_args(options, common_options);
    match split_invocation(args.as_str()) {
        Some(v) => Ok(v),
        None => Err(PruneError::ShlexError),
    }
}

/// The argv words of a mount command, as [`create_invocation`] for create.
pub fn mount_invocation(options: &MountOptions, common_options: &CommonOptions) -> (r: Result<
    Vec<String>,
    MountError,
>)
    ensures
        match r {
            Ok(v) => spec_shlex_split(spec_mount_fmt_args(*options, *common_options)) == Some(
                v.deep_view(),
            ),
            Err(e) => e@ == MountErrorView::ShlexError && spec_shlex_split(
                spec_mount_fmt_args(*options, *common_options),
            ) is None,
        },
{
    let args = mount_fmt_args(options, common_options);
    match split_invocation(args.as_str()) {
        Some(v) => Ok(v),
        None => Err(MountError::ShlexError),
    }
}

/// The argv words of a list command, as [`create_invocation`] for create.
pub fn list_invocation(options: &ListOptions, common_options: &CommonOptions) -> (r: Result<
    Vec<String>,
    ListError,
>)
    ensures
        match r {
            Ok(v) => spec_shlex_split(spec_list_fmt_args(*options, *common_options)) == Some(
                v.deep_view(),
            ),
            Err(e) => e@ == ListErrorView::ShlexError && spec_shlex_split(
                spec_list_fmt_args(*options, *common_options),
            ) is None,
        },
{
    let args = list_fmt_args(options, common_options);
    match split_invocation(args.as_str()) {
        Some(v) => Ok(v),
        None => Err(ListError::ShlexError),
    }
}

/// The argv words of a compact command, as [`create_invocation`] for create.
pub fn compact_invocation(options: &CompactOptions, common_options: &CommonOptions) -> (r: Result<
    Vec<String>,
    CompactError,
>)
    ensures
        match r {
            Ok(v) => spec_shlex_split(spec_compact_fmt_args(*options, *common_options)) == Some(
                v.deep_view(),
            ),
            Err(e) => e@ == CompactErrorView::ShlexError && spec_shlex_split(
                spec_compact_fmt_args(*options, *common_options),
            ) is None,
        },
{
    let args = compact_fmt_args(options, common_options);
    match split_invocation(args.as_str()) {
        Some(v) => Ok(v),
        None => Err(CompactError::ShlexError),
    }
}


/// The argv words of an umount command: the fixed subcommand word and the
/// mountpoint, handed to the binary as they are, with no rendering or
/// tokenization in between.
pub fn umount_invocation(mountpoint: String) -> (r: Vec<String>)
    ensures
        r.deep_view() == seq!["umount"@, mountpoint@],
{
    let ghost m = mountpoint@;
    let mut args: Vec<String> = Vec::new();
    args.push(String::from_str("umount"));
    args.push(mountpoint);
    proof {
        assert(args.deep_view() =~~= seq!["umount"@, m]);
    }
    args
}

} // verus!
