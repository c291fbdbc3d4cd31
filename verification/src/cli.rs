//! The command line: what was asked for, and what is missing from it.

use crate::text::ends_with;
use crate::text::texts;
use crate::text::has_suffix;
use crate::text::trim_end;
use crate::text::trimmed_end;
use itertools::Itertools;
use vstd::prelude::*;
use vstd::string::*;

verus! {

/// The name under which the program is shown where it was not given one.
pub const CLI_NAME: &'static str = "./daowiz";

/// The environment variable that holds the signing key.
pub const PRIVATE_KEY_ARG: &'static str = "DEPLOYMENT_PRIVATE_KEY";

/// The assumed IPFS URL, by default an in-process instance.
pub const DEFAULT_IPFS_GATEWAY: &'static str = "http://127.0.0.1:5001/";

/// Instructions for how to use the program.
pub const USAGE: &'static str = " - creates a new Vision Beacon DAO with the specified \
default modules
\tDEPLOYMENT_KEY (required) - an environment var specifying the ethereum \
private key to use for deploying the DAO
\t--eth-rpc-uri (required) - a flag specifying the http url of an EVM-\
compatible node that daowiz will deploy the Beacon DAO to
\t--ipfs-rpc-uri (optional) - a flag specifying the http url of an IPFS node \
that daowiz will deploy Beacon DAO metadata to. Uses an in-process IPFS node by \
default
\t--eth-chain-id (required) - a flag specifying the Ethereum blockchain to \
interact with
\t--contracts-dir (required) - a flag specifying the path to a directory \
containing the built Beacon DAO contracts that will be used for deploying the \
Beacon DAO";

/// The usage of the program, as shown when it is called without
/// arguments: the program's name, the modules it takes, and the
/// instructions.
pub open spec fn usage_text(program: Option<Seq<char>>) -> Seq<char> {
    (match program {
        Some(name) => name,
        None => CLI_NAME@,
    }) + " a.wasm a.js b.wasm b.js ... "@ + USAGE@ + "\n"@
}

/// Renders the usage of the program, under the name it was called by.
pub fn usage(program: Option<String>) -> (text: String)
    ensures
        text@ == usage_text(
            match program {
                Some(name) => Some(name@),
                None => None,
            },
        ),
{
    let name = match program {
        Some(name) => name,
        None => String::from_str(CLI_NAME),
    };
    name.concat(" a.wasm a.js b.wasm b.js ... ").concat(USAGE).concat("\n")
}

/// Configuration variables necessary for executing the `list` command.
#[derive(Debug, Clone, PartialEq, Eq)]
pub struct ListContext {
    pub private_key: String,
    pub eth_uri: String,
    pub eth_chain_id: u64,
    pub contracts_dir: String,
}

/// An error encountered while reading the command line.
#[derive(Debug, Clone, PartialEq, Eq)]
pub enum ParseError {
    MissingCommand,
    MissingPrivateKey,
    MissingRpcUrlETH,
    MissingContractsSrc,
    MissingChainId,
    /// Any other failure, with its description.
    MiscError(String),
}

/// A [`ParseError`] with its description as a sequence of characters.
pub enum ParseErrorView {
    MissingCommand,
    MissingPrivateKey,
    MissingRpcUrlETH,
    MissingContractsSrc,
    MissingChainId,
    MiscError(Seq<char>),
}

impl View for ParseError {
    type V = ParseErrorView;

    open spec fn view(&self) -> ParseErrorView {
        match *self {
            ParseError::MissingCommand => ParseErrorView::MissingCommand,
            ParseError::MissingPrivateKey => ParseErrorView::MissingPrivateKey,
            ParseError::MissingRpcUrlETH => ParseErrorView::MissingRpcUrlETH,
            ParseError::MissingContractsSrc => ParseErrorView::MissingContractsSrc,
            ParseError::MissingChainId => ParseErrorView::MissingChainId,
            ParseError::MiscError(cause) => ParseErrorView::MiscError(cause@),
        }
    }
}

impl ParseErrorView {
    /// The line shown to the user for this error.
    pub open spec fn text(self) -> Seq<char> {
        match self {
            ParseErrorView::MissingCommand => "parse error: no command specified"@,
            ParseErrorView::MissingPrivateKey =>
                "config error: no DEPLOYMENT_PRIVATE_KEY environment variable provided"@,
            ParseErrorView::MissingRpcUrlETH => "config error: command requires a --eth-rpc-uri"@,
            ParseErrorView::MissingContractsSrc =>
                "config error: command requires a --contracts-dir"@,
            ParseErrorView::MissingChainId => "config error: command requires a --eth-chain-id"@,
            ParseErrorView::MiscError(cause) => "error: "@ + cause,
        }
    }
}

impl ParseError {
    /// Renders the error as the line shown to the user.
    pub fn message(&self) -> (line: String)
        ensures
            line@ == self@.text(),
    {
        match self {
            ParseError::MissingCommand => String::from_str("parse error: no command specified"),
            ParseError::MissingPrivateKey => String::from_str(
                "config error: no DEPLOYMENT_PRIVATE_KEY environment variable provided",
            ),
            ParseError::MissingRpcUrlETH => String::from_str(
                "config error: command requires a --eth-rpc-uri",
            ),
            ParseError::MissingContractsSrc => String::from_str(
                "config error: command requires a --contracts-dir",
            ),
            ParseError::MissingChainId => String::from_str(
                "config error: command requires a --eth-chain-id",
            ),
            ParseError::MiscError(cause) => String::from_str("error: ").concat(cause.as_str()),
        }
    }
}

/// The command that was asked for, before its configuration is complete.
#[derive(Debug, Clone, Copy, PartialEq, Eq, Structural)]
pub enum CommandBuilder {
    New,
    List,
}

/// The command that a word names.
pub open spec fn command_named(word: Seq<char>) -> Option<CommandBuilder> {
    if word == "new"@ {
        Some(CommandBuilder::New)
    } else if word == "list"@ {
        Some(CommandBuilder::List)
    } else {
        None
    }
}

/// Reads the command that a word names.
pub fn command_of(word: &str) -> (cmd: Option<CommandBuilder>)
    ensures
        cmd == command_named(word@),
{
    let word = String::from_str(word);
    if word == String::from_str("new") {
        Some(CommandBuilder::New)
    } else if word == String::from_str("list") {
        Some(CommandBuilder::List)
    } else {
        None
    }
}

/// The text of a string that may be missing.
pub open spec fn text_of(value: Option<String>) -> Option<Seq<char>> {
    match value {
        Some(text) => Some(text@),
        None => None,
    }
}

/// The files found for one module: its JavaScript loader and its WASM
/// module, under the name they share.
#[derive(Debug, Clone, PartialEq, Eq)]
pub struct ModuleFiles {
    pub stem: String,
    pub loader: Option<String>,
    pub module: Option<String>,
}

/// [`ModuleFiles`] as mathematical values.
pub struct ModuleFilesView {
    pub stem: Seq<char>,
    pub loader: Option<Seq<char>>,
    pub module: Option<Seq<char>>,
}

impl View for ModuleFiles {
    type V = ModuleFilesView;

    open spec fn view(&self) -> ModuleFilesView {
        ModuleFilesView {
            stem: self.stem@,
            loader: text_of(self.loader),
            module: text_of(self.module),
        }
    }
}

/// The views of the files found, module by module.
pub open spec fn slots(files: Seq<ModuleFiles>) -> Seq<ModuleFilesView> {
    Seq::new(files.len(), |i: int| files[i]@)
}

/// The name that a loader and its module share: the file's name without
/// `.wasm`, `.js` and `_bg` at its end.
pub open spec fn stem_of(name: Seq<char>) -> Seq<char> {
    trimmed_end(trimmed_end(trimmed_end(name, ".wasm"@), ".js"@), "_bg"@)
}

/// The name that a loader and its module share.
pub fn stem(name: &str) -> (shared: String)
    ensures
        shared@ == stem_of(name@),
{
    let first = trim_end(name, ".wasm");
    let second = trim_end(first.as_str(), ".js");
    trim_end(second.as_str(), "_bg")
}

/// The position of the first module with the given stem, or the number
/// of modules where none has it.
pub open spec fn slot_of(files: Seq<ModuleFilesView>, stem: Seq<char>) -> int
    decreases files.len(),
{
    if files.len() == 0 || files[0].stem == stem {
        0
    } else {
        1 + slot_of(files.drop_first(), stem)
    }
}

/// The modules after a readable file was found under `name`: the file is
/// filed under its stem, as the module if its name ends in `.wasm`, as
/// the loader if it ends in `.js`. A stem seen for the first time comes
/// last.
pub open spec fn with_file(files: Seq<ModuleFilesView>, name: Seq<char>) -> Seq<ModuleFilesView> {
    let stem = stem_of(name);
    let at = slot_of(files, stem);
    let known = if at < files.len() {
        files
    } else {
        files.push(ModuleFilesView { stem, loader: None, module: None })
    };
    if ends_with(name, ".wasm"@) {
        known.update(at, ModuleFilesView { module: Some(name), ..known[at] })
    } else if ends_with(name, ".js"@) {
        known.update(at, ModuleFilesView { loader: Some(name), ..known[at] })
    } else {
        known
    }
}

/// The modules that have both their files, as pairs of loader and module,
/// in the order of the modules.
pub open spec fn modules_of(files: Seq<ModuleFilesView>) -> Seq<(Seq<char>, Seq<char>)>
    decreases files.len(),
{
    if files.len() == 0 {
        Seq::empty()
    } else {
        let before = modules_of(files.drop_last());
        match (files.last().loader, files.last().module) {
            (Some(loader), Some(module)) => before.push((loader, module)),
            _ => before,
        }
    }
}

/// The texts of pairs of loader and module.
pub open spec fn pairs_text(pairs: Seq<(String, String)>) -> Seq<(Seq<char>, Seq<char>)> {
    Seq::new(pairs.len(), |i: int| (pairs[i].0@, pairs[i].1@))
}

/// Whether no two modules share their stem.
pub open spec fn distinct_stems(files: Seq<ModuleFilesView>) -> bool {
    forall|i: int, j: int|
        0 <= i < j < files.len() ==> (#[trigger] files[i]).stem != (#[trigger] files[j]).stem
}

/// The slot of a stem is the first module that has it: no module before
/// it has the stem, and where it is a module, that module has the stem.
pub proof fn slot_is_the_first_with_stem(files: Seq<ModuleFilesView>, stem: Seq<char>)
    ensures
        0 <= slot_of(files, stem) <= files.len(),
        forall|k: int| 0 <= k < slot_of(files, stem) ==> (#[trigger] files[k]).stem != stem,
        slot_of(files, stem) < files.len() ==> files[slot_of(files, stem)].stem == stem,
    decreases files.len(),
{
    if files.len() > 0 && files[0].stem != stem {
        let rest = files.drop_first();
        slot_is_the_first_with_stem(rest, stem);
        assert forall|k: int| 0 <= k < slot_of(files, stem) implies (#[trigger] files[k]).stem
            != stem by {
            if k > 0 {
                assert(files[k] == rest[k - 1]);
            }
        }
        if slot_of(files, stem) < files.len() {
            assert(files[slot_of(files, stem)] == rest[slot_of(rest, stem)]);
        }
    }
}

/// Filing a file keeps the stems apart: a module is added only for a stem
/// that no module has yet.
pub proof fn with_file_keeps_stems_distinct(files: Seq<ModuleFilesView>, name: Seq<char>)
    requires
        distinct_stems(files),
    ensures
        distinct_stems(with_file(files, name)),
{
    let stem = stem_of(name);
    let at = slot_of(files, stem);
    slot_is_the_first_with_stem(files, stem);
    let known = if at < files.len() {
        files
    } else {
        files.push(ModuleFilesView { stem, loader: None, module: None })
    };
    assert(distinct_stems(known)) by {
        assert forall|i: int, j: int| 0 <= i < j < known.len() implies (#[trigger] known[i]).stem
            != (#[trigger] known[j]).stem by {
            if j < files.len() {
                assert(files[i].stem != files[j].stem);
            } else {
                assert(files[i].stem != stem);
            }
        }
    }
    let after = with_file(files, name);
    assert(after.len() == known.len());
    assert forall|i: int| 0 <= i < after.len() implies (#[trigger] after[i]).stem
        == known[i].stem by {}
    assert forall|i: int, j: int| 0 <= i < j < after.len() implies (#[trigger] after[i]).stem
        != (#[trigger] after[j]).stem by {
        assert(known[i].stem != known[j].stem);
    }
}

proof fn lemma_slot_of(files: Seq<ModuleFilesView>, stem: Seq<char>, at: int)
    requires
        0 <= at <= files.len(),
        forall|k: int| 0 <= k < at ==> (#[trigger] files[k]).stem != stem,
        at < files.len() ==> files[at].stem == stem,
    ensures
        slot_of(files, stem) == at,
    decreases at,
{
    if at > 0 {
        assert(files[0].stem != stem);
        let rest = files.drop_first();
        assert forall|k: int| 0 <= k < at - 1 implies (#[trigger] rest[k]).stem != stem by {
            assert(rest[k] == files[k + 1]);
        }
        lemma_slot_of(rest, stem, at - 1);
    }
}

/// What was read from the command line and the environment so far.
#[derive(Debug, Clone, PartialEq, Eq)]
pub struct ContextBuilder {
    pub cmd: Option<CommandBuilder>,
    pub eth_uri: Option<String>,
    pub eth_chain_id: Option<String>,
    pub ipfs_uri: Option<String>,
    pub contracts_dir: Option<String>,
    pub private_key: Option<String>,
    pub files: Vec<ModuleFiles>,
}

impl Default for ContextBuilder {
    /// A configuration in which nothing is set.
    fn default() -> (builder: ContextBuilder)
        ensures
            builder.cmd is None,
            builder.eth_uri is None,
            builder.eth_chain_id is None,
            builder.ipfs_uri is None,
            builder.contracts_dir is None,
            builder.private_key is None,
            builder.files@.len() == 0,
            builder.well_formed(),
    {
        ContextBuilder {
            cmd: None,
            eth_uri: None,
            eth_chain_id: None,
            ipfs_uri: None,
            contracts_dir: None,
            private_key: None,
            files: Vec::new(),
        }
    }
}

impl ContextBuilder {
    /// A configuration in which nothing is set.
    pub fn new() -> (builder: ContextBuilder)
        ensures
            builder.cmd is None,
            builder.eth_uri is None,
            builder.eth_chain_id is None,
            builder.ipfs_uri is None,
            builder.contracts_dir is None,
            builder.private_key is None,
            builder.files@.len() == 0,
            builder.well_formed(),
    {
        ContextBuilder::default()
    }

    /// Whether no two modules of the configuration share their stem, as it
    /// is after any number of files were filed in an empty configuration.
    pub open spec fn well_formed(self) -> bool {
        distinct_stems(slots(self.files@))
    }

    /// Files a readable file under the module it belongs to, and leaves
    /// everything else as it was. No stem comes to stand twice.
    pub fn with_file(self, name: String) -> (builder: ContextBuilder)
        ensures
            slots(builder.files@) == with_file(slots(self.files@), name@),
            self.well_formed() ==> builder.well_formed(),
            builder.cmd == self.cmd,
            builder.eth_uri == self.eth_uri,
            builder.eth_chain_id == self.eth_chain_id,
            builder.ipfs_uri == self.ipfs_uri,
            builder.contracts_dir == self.contracts_dir,
            builder.private_key == self.private_key,
    {
        let ghost before = slots(self.files@);
        let shared = stem(name.as_str());
        let mut files = self.files;
        let mut at: usize = 0;
        while at < files.len() && files[at].stem != shared
            invariant
                at <= files.len(),
                slots(files@) == before,
                forall|k: int| 0 <= k < at ==> (#[trigger] before[k]).stem != shared@,
            decreases files.len() - at,
        {
            assert(before[at as int] == files[at as int]@);
            at += 1;
        }
        proof {
            if at < files.len() {
                assert(before[at as int] == files[at as int]@);
            }
            lemma_slot_of(before, shared@, at as int);
        }
        let wasm = has_suffix(name.as_str(), ".wasm");
        let js = has_suffix(name.as_str(), ".js");
        let mut entry = if at < files.len() {
            files.remove(at)
        } else {
            ModuleFiles { stem: shared, loader: None, module: None }
        };
        if wasm {
            entry.module = Some(name);
        } else if js {
            entry.loader = Some(name);
        }
        files.insert(at, entry);
        assert(slots(files@) =~= with_file(before, name@));
        proof {
            if distinct_stems(before) {
                with_file_keeps_stems_distinct(before, name@);
            }
        }
        ContextBuilder {
            cmd: self.cmd,
            eth_uri: self.eth_uri,
            eth_chain_id: self.eth_chain_id,
            ipfs_uri: self.ipfs_uri,
            contracts_dir: self.contracts_dir,
            private_key: self.private_key,
            files,
        }
    }
}

/// Pairs each loader with its module, and leaves out the modules of which
/// one file is missing.
pub fn paired_modules(files: &Vec<ModuleFiles>) -> (pairs: Vec<(String, String)>)
    ensures
        pairs_text(pairs@) == modules_of(slots(files@)),
{
    let mut pairs: Vec<(String, String)> = Vec::new();
    let mut i: usize = 0;
    while i < files.len()
        invariant
            i <= files.len(),
            pairs_text(pairs@) == modules_of(slots(files@).take(i as int)),
        decreases files.len() - i,
    {
        let ghost found = pairs_text(pairs@);
        proof {
            let next = slots(files@).take(i + 1);
            assert(next.drop_last() =~= slots(files@).take(i as int));
            assert(next.last() == files[i as int]@);
        }
        match (&files[i].loader, &files[i].module) {
            (Some(loader), Some(module)) => {
                pairs.push((loader.clone(), module.clone()));
                assert(pairs_text(pairs@) =~= found.push((loader@, module@)));
            },
            _ => {
                assert(pairs_text(pairs@) =~= found);
            },
        }
        i += 1;
    }
    assert(slots(files@).take(files.len() as int) =~= slots(files@));
    pairs
}

/// Whether a character is a decimal digit.
pub open spec fn is_digit(c: char) -> bool {
    '0' <= c && c <= '9'
}

/// The number that decimal digits stand for.
pub open spec fn decimal_value(digits: Seq<char>) -> nat
    decreases digits.len(),
{
    if digits.len() == 0 {
        0
    } else {
        decimal_value(digits.drop_last()) * 10 + (digits.last() as nat - '0' as nat) as nat
    }
}

/// Whether every character is a decimal digit.
pub open spec fn all_digits(digits: Seq<char>) -> bool {
    forall|i: int| 0 <= i < digits.len() ==> is_digit(#[trigger] digits[i])
}

/// A text without the `+` that may stand at its beginning.
pub open spec fn unsigned(text: Seq<char>) -> Seq<char> {
    if text.len() > 0 && text[0] == '+' {
        text.skip(1)
    } else {
        text
    }
}

/// The number that a text stands for: decimal digits, at least one, after
/// an optional `+`, that stay within 64 bits.
pub open spec fn decimal_u64(text: Seq<char>) -> Option<u64> {
    if unsigned(text).len() > 0 && all_digits(unsigned(text)) && decimal_value(unsigned(text))
        <= u64::MAX {
        Some(decimal_value(unsigned(text)) as u64)
    } else {
        None
    }
}

/// `str::parse` for `u64`: the number that the text stands for in decimal
/// digits, which may follow a `+`. Any other character, no digit at all,
/// or a number beyond 64 bits gives nothing.
#[verifier::external_body]
fn parse_u64(text: &str) -> (number: Option<u64>)
    ensures
        number == decimal_u64(text@),
{
    text.parse::<u64>().ok()
}

/// `Itertools::tuples` on the arguments: they are grouped in pairs, in
/// their order, and an argument left over at the end is dropped.
#[verifier::external_body]
fn tuples(args: Vec<String>) -> (pairs: Vec<(String, String)>)
    ensures
        pairs@.len() == args@.len() / 2,
        forall|i: int|
            0 <= i < pairs@.len() ==> (#[trigger] pairs@[i]) == (args@[2 * i], args@[2 * i + 1]),
{
    args.into_iter().tuples().collect()
}

/// What the flags of a command line say.
pub struct FlagsView {
    pub eth_uri: Option<Seq<char>>,
    pub eth_chain_id: Option<Seq<char>>,
    pub ipfs_uri: Option<Seq<char>>,
    pub contracts_dir: Option<Seq<char>>,
    /// The arguments that are no flags: the names of module files.
    pub names: Seq<Seq<char>>,
}

/// Reads the arguments pair by pair. A pair that begins with a flag sets
/// it, the last time it is set counts; both arguments of any other pair
/// are names of module files.
pub open spec fn flags_of(pairs: Seq<(Seq<char>, Seq<char>)>) -> FlagsView
    decreases pairs.len(),
{
    if pairs.len() == 0 {
        FlagsView {
            eth_uri: None,
            eth_chain_id: None,
            ipfs_uri: None,
            contracts_dir: None,
            names: Seq::empty(),
        }
    } else {
        let before = flags_of(pairs.drop_last());
        let key = pairs.last().0;
        let value = pairs.last().1;
        if key == "--eth-rpc-uri"@ {
            FlagsView { eth_uri: Some(value), ..before }
        } else if key == "--eth-chain-id"@ {
            FlagsView { eth_chain_id: Some(value), ..before }
        } else if key == "--ipfs-rpc-uri"@ {
            FlagsView { ipfs_uri: Some(value), ..before }
        } else if key == "--contracts-dir"@ {
            FlagsView { contracts_dir: Some(value), ..before }
        } else {
            FlagsView { names: before.names.push(key).push(value), ..before }
        }
    }
}

/// The arguments after the program's name and the command.
pub open spec fn after_command(args: Seq<String>) -> Seq<String> {
    if args.len() >= 2 {
        args.skip(2)
    } else {
        Seq::empty()
    }
}

/// The arguments in pairs: an argument left over at the end is dropped.
pub open spec fn argument_pairs(args: Seq<String>) -> Seq<(Seq<char>, Seq<char>)> {
    Seq::new(args.len() / 2, |i: int| (args[2 * i]@, args[2 * i + 1]@))
}

/// The command that the arguments name: the word after the program's name.
pub open spec fn command_in(args: Seq<String>) -> Option<CommandBuilder> {
    if args.len() >= 2 {
        command_named(args[1]@)
    } else {
        None
    }
}

/// Gets the configuration of the command-line client from the
/// command-line arguments, the first of which is the program's name, and
/// beside it the names of the module files to look for, in the order of
/// the arguments. The signing key and the files are not set yet.
pub fn parse_flags(args: Vec<String>) -> (parsed: (ContextBuilder, Vec<String>))
    ensures
        parsed.0.cmd == command_in(args@),
        text_of(parsed.0.eth_uri) == flags_of(argument_pairs(after_command(args@))).eth_uri,
        text_of(parsed.0.eth_chain_id) == flags_of(
            argument_pairs(after_command(args@)),
        ).eth_chain_id,
        text_of(parsed.0.ipfs_uri) == flags_of(argument_pairs(after_command(args@))).ipfs_uri,
        text_of(parsed.0.contracts_dir) == flags_of(
            argument_pairs(after_command(args@)),
        ).contracts_dir,
        texts(parsed.1@) == flags_of(argument_pairs(after_command(args@))).names,
        parsed.0.private_key is None,
        parsed.0.files@.len() == 0,
        parsed.0.well_formed(),
{
    let mut args = args;
    let ghost given = args@;
    let rest = if args.len() >= 2 {
        args.split_off(2)
    } else {
        Vec::new()
    };
    assert(rest@ =~= after_command(given));
    let cmd = if args.len() >= 2 {
        command_of(args[1].as_str())
    } else {
        None
    };
    let ghost all = argument_pairs(rest@);
    let pairs = tuples(rest);
    let mut builder = ContextBuilder::new();
    builder.cmd = cmd;
    let mut names: Vec<String> = Vec::new();
    let mut i: usize = 0;
    while i < pairs.len()
        invariant
            i <= pairs.len(),
            pairs.len() == all.len(),
            forall|k: int| 0 <= k < all.len() ==> all[k] == ((#[trigger] pairs[k]).0@, pairs[k].1@),
            builder.cmd == cmd,
            builder.private_key is None,
            builder.files@.len() == 0,
            text_of(builder.eth_uri) == flags_of(all.take(i as int)).eth_uri,
            text_of(builder.eth_chain_id) == flags_of(all.take(i as int)).eth_chain_id,
            text_of(builder.ipfs_uri) == flags_of(all.take(i as int)).ipfs_uri,
            text_of(builder.contracts_dir) == flags_of(all.take(i as int)).contracts_dir,
            texts(names@) == flags_of(all.take(i as int)).names,
        decreases pairs.len() - i,
    {
        let ghost before = texts(names@);
        proof {
            let next = all.take(i + 1);
            assert(next.drop_last() =~= all.take(i as int));
            assert(next.last() == all[i as int]);
        }
        let key = pairs[i].0.clone();
        let value = pairs[i].1.clone();
        if key == String::from_str("--eth-rpc-uri") {
            builder.eth_uri = Some(value);
        } else if key == String::from_str("--eth-chain-id") {
            builder.eth_chain_id = Some(value);
        } else if key == String::from_str("--ipfs-rpc-uri") {
            builder.ipfs_uri = Some(value);
        } else if key == String::from_str("--contracts-dir") {
            builder.contracts_dir = Some(value);
        } else {
            names.push(key);
            names.push(value);
            assert(texts(names@) =~= before.push(key@).push(value@));
        }
        i += 1;
    }
    assert(all.take(all.len() as int) =~= all);
    (builder, names)
}

/// Configuration variables necessary for executing the `new` command.
#[derive(Debug, Clone, PartialEq, Eq)]
pub struct NewContext {
    pub private_key: String,
    pub eth_uri: String,
    pub eth_chain_id: u64,
    pub contracts_dir: String,
    /// The files of each module: its loader and its module.
    pub modules: Vec<(String, String)>,
    /// The content store's endpoint.
    pub ipfs_uri: String,
    /// Whether a content store is to be started in the background, because
    /// no endpoint was given.
    pub spawn_ipfs: bool,
}

/// Command-specific configuration options.
#[derive(Debug, Clone, PartialEq, Eq)]
pub enum Command {
    New(Box<NewContext>),
    List(ListContext),
}

/// Required args to the command-line application.
#[derive(Debug, Clone, PartialEq, Eq)]
pub struct Context {
    pub cmd: Command,
}

/// What a configuration lacks for its command: the first of the command,
/// the signing key, the chain's endpoint, a chain id that is a number, and
/// the contracts directory.
pub open spec fn missing(builder: ContextBuilder) -> Option<ParseError> {
    if builder.cmd is None {
        Some(ParseError::MissingCommand)
    } else if builder.private_key is None {
        Some(ParseError::MissingPrivateKey)
    } else if builder.eth_uri is None {
        Some(ParseError::MissingRpcUrlETH)
    } else if builder.eth_chain_id is None || decimal_u64(builder.eth_chain_id->0@) is None {
        Some(ParseError::MissingChainId)
    } else if builder.contracts_dir is None {
        Some(ParseError::MissingContractsSrc)
    } else {
        None
    }
}

/// Whether `command` is what a complete configuration asks for.
pub open spec fn fulfils(command: Command, builder: ContextBuilder) -> bool {
    match command {
        Command::List(context) => {
            &&& builder.cmd == Some(CommandBuilder::List)
            &&& Some(context.private_key) == builder.private_key
            &&& Some(context.eth_uri) == builder.eth_uri
            &&& Some(context.eth_chain_id) == decimal_u64(builder.eth_chain_id->0@)
            &&& Some(context.contracts_dir) == builder.contracts_dir
        },
        Command::New(context) => {
            &&& builder.cmd == Some(CommandBuilder::New)
            &&& Some(context.private_key) == builder.private_key
            &&& Some(context.eth_uri) == builder.eth_uri
            &&& Some(context.eth_chain_id) == decimal_u64(builder.eth_chain_id->0@)
            &&& Some(context.contracts_dir) == builder.contracts_dir
            &&& pairs_text(context.modules@) == modules_of(slots(builder.files@))
            &&& context.spawn_ipfs == (builder.ipfs_uri is None)
            &&& context.ipfs_uri@ == match builder.ipfs_uri {
                Some(uri) => uri@,
                None => DEFAULT_IPFS_GATEWAY@,
            }
        },
    }
}

impl Command {
    /// Unwraps fields from a configuration, returning an error if a
    /// required field was not specified. Uses defaults for relevant fields.
    pub fn try_from(v: ContextBuilder) -> (command: Result<Command, ParseError>)
        ensures
            missing(v) matches Some(error) ==> command == Err::<Command, ParseError>(error),
            missing(v) is None ==> (command matches Ok(made) && fulfils(made, v)),
    {
        let cmd = match v.cmd {
            Some(cmd) => cmd,
            None => {
                return Err(ParseError::MissingCommand);
            },
        };
        let private_key = match v.private_key {
            Some(key) => key,
            None => {
                return Err(ParseError::MissingPrivateKey);
            },
        };
        let eth_uri = match v.eth_uri {
            Some(uri) => uri,
            None => {
                return Err(ParseError::MissingRpcUrlETH);
            },
        };
        let eth_chain_id = match v.eth_chain_id {
            Some(text) => match parse_u64(text.as_str()) {
                Some(id) => id,
                None => {
                    return Err(ParseError::MissingChainId);
                },
            },
            None => {
                return Err(ParseError::MissingChainId);
            },
        };
        let contracts_dir = match v.contracts_dir {
            Some(dir) => dir,
            None => {
                return Err(ParseError::MissingContractsSrc);
            },
        };
        match cmd {
            CommandBuilder::New => {
                let modules = paired_modules(&v.files);
                let spawn_ipfs = v.ipfs_uri.is_none();
                let ipfs_uri = match v.ipfs_uri {
                    Some(uri) => uri,
                    None => String::from_str(DEFAULT_IPFS_GATEWAY),
                };
                Ok(
                    Command::New(
                        Box::new(
                            NewContext {
                                private_key,
                                eth_uri,
                                eth_chain_id,
                                contracts_dir,
                                modules,
                                ipfs_uri,
                                spawn_ipfs,
                            },
                        ),
                    ),
                )
            },
            CommandBuilder::List => Ok(
                Command::List(ListContext { private_key, eth_uri, eth_chain_id, contracts_dir }),
            ),
        }
    }
}

impl Context {
    /// Gets the configuration of the command-line client from a
    /// configuration that was read in full.
    pub fn try_from(v: ContextBuilder) -> (context: Result<Context, ParseError>)
        ensures
            missing(v) matches Some(error) ==> context == Err::<Context, ParseError>(error),
            missing(v) is None ==> (context matches Ok(made) && fulfils(made.cmd, v)),
    {
        match Command::try_from(v) {
            Ok(cmd) => Ok(Context { cmd }),
            Err(error) => Err(error),
        }
    }
}

} // verus!
