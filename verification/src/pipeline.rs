//! The transform: register the text, parse it, rewrite the tree, print it.
//!
//! Parsing and printing are swc's. A failure of either ends the transform;
//! nothing is retried and no partial output is returned.

use std::sync::Arc;
use vstd::prelude::*;
use swc::config::SourceMapsConfig;
use swc::{try_with_handler, Compiler, HandlerOpts, PrintArgs};
use swc_common::comments::SingleThreadedComments;
use swc_common::errors::Handler;
use swc_common::{FileName, FilePathMapping, SourceFile, SourceMap};
use swc_ecmascript::ast::Program;
use swc_ecmascript::visit::VisitMutWith;
use crate::model::{lemma_pass_each_leaves_no_target, pass_each, target_free_each, visited, Tree};
use crate::options::{ErrorFormat, FileIdentity, Options};
use crate::visitor::ConsoleEraser;

verus! {

/// swc's `Compiler`. Nothing of what it holds is read here.
#[verifier::external_type_specification]
#[verifier::external_body]
pub struct ExCompiler(Compiler);

/// swc's `SourceFile`, a registered source text.
#[verifier::external_type_specification]
#[verifier::external_body]
pub struct ExSourceFile(SourceFile);

/// swc's `Program`, the root of a syntax tree.
#[verifier::external_type_specification]
#[verifier::external_body]
pub struct ExProgram(Program);

/// swc's `Handler`, to which the parser reports.
#[verifier::external_type_specification]
#[verifier::external_body]
pub struct ExHandler(Handler);

/// swc's `SingleThreadedComments`, the comments of one source text.
#[verifier::external_type_specification]
#[verifier::external_body]
pub struct ExComments(SingleThreadedComments);

/// `anyhow::Error`, the error of swc's functions.
#[verifier::external_type_specification]
#[verifier::external_body]
pub struct ExError(anyhow::Error);

/// The text that a registered source file holds.
pub uninterp spec fn source_text(file: SourceFile) -> Seq<char>;

/// Whether swc's parser takes `text` as a module of plain ECMAScript
/// without reporting an error.
pub uninterp spec fn parses(text: Seq<char>) -> bool;

/// The program that swc's parser makes of a registered file. Its spans
/// count from where the file starts.
pub uninterp spec fn parsed_program(file: SourceFile) -> Program;

/// The comments that swc's parser finds in a registered file.
pub uninterp spec fn parsed_comments(file: SourceFile) -> SingleThreadedComments;

/// The expressions of a program that swc's walk reaches without passing
/// through another expression, in the order of the walk.
pub uninterp spec fn program_expressions(program: Program) -> Seq<Tree>;

/// The code that swc's printer writes for a program and its comments,
/// looking up positions in the compiler's table of sources; `None` where
/// the printer fails. The table only grows, and what is looked up for a
/// program lies in the source that it was parsed from.
pub uninterp spec fn printed(
    compiler: Compiler,
    program: Program,
    comments: SingleThreadedComments,
) -> Option<Seq<char>>;

/// The text that swc makes of an error in a style. An error holds its
/// message, what caused it and, where one was taken, its backtrace.
pub uninterp spec fn rendered(format: ErrorFormat, error: anyhow::Error) -> Seq<char>;

/// The text without the byte order mark that it may start with.
pub open spec fn without_bom(text: Seq<char>) -> Seq<char> {
    if text.len() > 0 && text[0] == '\u{feff}' {
        text.skip(1)
    } else {
        text
    }
}

/// What is put round the error of a stage.
pub const STAGE_CONTEXT: &'static str = "failed to process input file";

/// The stage at which a transform failed.
#[derive(Clone, Copy, Debug, PartialEq, Eq, Structural)]
pub enum ErrorKind {
    /// The text is not valid syntax.
    Parse,
    /// The tree could not be printed.
    Emit,
    /// The output could not be handed over to the caller.
    Serialization,
}

/// A failure of one stage, as the stage reported it.
#[derive(Debug)]
pub struct Failure {
    pub kind: ErrorKind,
    pub error: anyhow::Error,
}

/// What a transform gives back: the code, its source map if one was asked
/// for, and what was reported while the code was made.
#[derive(Clone, Debug, PartialEq, Eq)]
pub struct TransformOutput {
    pub code: String,
    pub map: Option<String>,
    pub diagnostics: Vec<String>,
}

/// The compiler with its table of registered sources. One context serves
/// any number of transforms; each registration gets a span range of its own.
pub struct Context {
    compiler: Arc<Compiler>,
}

/// A registered source text: its identity, the text as it was given, the
/// file that holds it, and the compiler in whose table the file stands.
pub struct SourceUnit {
    identity: FileIdentity,
    text: String,
    file: Arc<SourceFile>,
    compiler: Arc<Compiler>,
}

/// A parsed program with the comments that were found beside it, and the
/// compiler in whose table its source stands.
pub struct SyntaxTree {
    program: Program,
    comments: SingleThreadedComments,
    compiler: Arc<Compiler>,
}

/// Whether `report` is the text that swc makes of some error in `format`.
pub open spec fn reports(format: ErrorFormat, report: Seq<char>) -> bool {
    exists|error: anyhow::Error| report == #[trigger] rendered(format, error)
}

/// What the emit stage returns for what the printer writes: the code with
/// no source map and no diagnostics, or an `Emit` failure.
pub open spec fn emits(written: Option<Seq<char>>, emitted: Result<TransformOutput, Failure>) -> bool {
    match written {
        Some(code) => {
            &&& emitted matches Ok(output)
            &&& output.code@ == code
            &&& output.map is None
            &&& output.diagnostics@.len() == 0
        },
        None => emitted matches Err(failure) && failure.kind == ErrorKind::Emit,
    }
}

/// How a whole transform ends for what the printer writes: with the code,
/// or with the report of the failure in `format`.
pub open spec fn ends(
    written: Option<Seq<char>>,
    format: ErrorFormat,
    result: Result<TransformOutput, String>,
) -> bool {
    match written {
        Some(code) => {
            &&& result matches Ok(output)
            &&& output.code@ == code
            &&& output.map is None
            &&& output.diagnostics@.len() == 0
        },
        None => result matches Err(report) && reports(format, report@),
    }
}

/// Makes swc's `Compiler` over a new, empty `SourceMap`.
#[verifier::external_body]
fn new_compiler() -> Arc<Compiler> {
    Arc::new(Compiler::new(Arc::new(SourceMap::new(FilePathMapping::empty()))))
}

/// Registers `text` with `SourceMap::new_source_file`, under `FileName::Anon`
/// or `FileName::Real`. swc drops a leading byte order mark and stores the
/// rest unchanged.
#[verifier::external_body]
fn new_source_file(compiler: &Arc<Compiler>, identity: &FileIdentity, text: &str) -> (file: Arc<
    SourceFile,
>)
    ensures
        source_text(*file) == without_bom(text@),
{
    let name = match identity {
        FileIdentity::Anonymous => FileName::Anon,
        FileIdentity::Real(name) => FileName::Real(name.clone().into()),
    };
    compiler.cm.new_source_file(Arc::new(name), text.to_string())
}

/// Parses the file with `Compiler::parse_js`, with swc's defaults for the
/// target, the syntax and the kind of program (a module); the comments go
/// to `comments`. It returns `Ok` exactly when the parser reported no
/// error, which depends on the text alone; the program depends on the file.
#[verifier::external_body]
fn parse_js(
    compiler: &Arc<Compiler>,
    file: &Arc<SourceFile>,
    handler: &Handler,
    comments: &SingleThreadedComments,
) -> (parsed: Result<Program, anyhow::Error>)
    ensures
        parsed is Ok <==> parses(source_text(**file)),
        parsed matches Ok(program) ==> program == parsed_program(**file),
{
    let (target, syntax, is_module) = Default::default();
    compiler.parse_js(file.clone(), handler, target, syntax, is_module, Some(comments))
}

/// Puts a message round an error, with `anyhow::Error::context`. The
/// error that comes back has the message in front and the given error as
/// its cause; nothing is stated of it, because no contract reads an error
/// but to render it.
#[verifier::external_body]
fn in_context(error: anyhow::Error, message: &str) -> anyhow::Error {
    error.context(message.to_string())
}

/// The parse stage, with the handler that collects the parser's reports.
/// An error is put in the context of the stage.
fn parse_with(
    compiler: &Arc<Compiler>,
    file: &Arc<SourceFile>,
    handler: &Handler,
    comments: &SingleThreadedComments,
) -> (parsed: Result<Program, anyhow::Error>)
    ensures
        parsed is Ok <==> parses(source_text(**file)),
        parsed matches Ok(program) ==> program == parsed_program(**file),
{
    match parse_js(compiler, file, handler, comments) {
        Ok(program) => Ok(program),
        Err(error) => Err(in_context(error, STAGE_CONTEXT)),
    }
}

/// Runs the parse stage under swc's `try_with_handler`, with an empty
/// `SingleThreadedComments` for the comments. swc supplies the handler and,
/// on failure, puts what the handler collected in front of the error. It
/// returns `Ok` exactly when the stage did and the handler holds no error;
/// the parser reports to the handler only when it fails. The program is
/// the one that the stage returned, and the comments are those that the
/// parser put into the store.
#[verifier::external_body]
fn parse_reporting(compiler: &Arc<Compiler>, file: &Arc<SourceFile>) -> (parsed: Result<
    (Program, SingleThreadedComments),
    anyhow::Error,
>)
    ensures
        parsed is Ok <==> parses(source_text(**file)),
        parsed matches Ok(pair) ==> pair.0 == parsed_program(**file) && pair.1 == parsed_comments(
            **file,
        ),
{
    let comments = SingleThreadedComments::default();
    let stage = |handler: &Handler| parse_with(compiler, file, handler, &comments);
    let parsed = try_with_handler(compiler.cm.clone(), HandlerOpts::default(), stage);
    parsed.map(|program| (program, comments)).map_err(|e| e.to_pretty_error())
}

/// Walks the program with `VisitMutWith::visit_mut_with` and a
/// [`ConsoleEraser`]. What is taken from swc is that it calls
/// `visit_mut_expr` on every outermost expression, once and in order, and
/// changes nothing else of the program; that each then has been through
/// the pass, and is as it was where it held no target, is what
/// `visit_mut_expr` ensures.
#[verifier::external_body]
fn walk(program: &mut Program)
    ensures
        program_expressions(*final(program)).len() == program_expressions(*old(program)).len(),
        forall|i: int|
            0 <= i < program_expressions(*old(program)).len() ==> visited(
                program_expressions(*old(program))[i],
                #[trigger] program_expressions(*final(program))[i],
            ),
        target_free_each(program_expressions(*old(program))) ==> *final(program) == *old(program),
{
    program.visit_mut_with(&mut ConsoleEraser);
}

/// Prints the program and its comments with `Compiler::print`, with swc's
/// default settings but for the source map, which is switched off: the
/// output has none. `print` itself reports nothing. The printer takes the
/// comments out of their store as it writes them, so the store is given
/// away.
#[verifier::external_body]
fn print(compiler: &Arc<Compiler>, program: Program, comments: SingleThreadedComments) -> (written:
    Result<TransformOutput, anyhow::Error>)
    ensures
        written is Ok <==> printed(**compiler, program, comments) is Some,
        written matches Ok(output) ==> {
            &&& printed(**compiler, program, comments) == Some(output.code@)
            &&& output.map is None
            &&& output.diagnostics@.len() == 0
        },
{
    let args = PrintArgs {
        source_map: SourceMapsConfig::Bool(false),
        comments: Some(&comments),
        ..Default::default()
    };
    compiler.print(&program, args)
        .map(|out| TransformOutput { code: out.code, map: out.map, diagnostics: out.diagnostics })
}

/// Renders an error with swc's `ErrorFormat::format`.
#[verifier::external_body]
fn format_error(format: ErrorFormat, error: &anyhow::Error) -> (report: String)
    ensures
        report@ == rendered(format, *error),
{
    match format {
        ErrorFormat::Normal => swc::config::ErrorFormat::Normal.format(error),
        ErrorFormat::Json => swc::config::ErrorFormat::Json.format(error),
    }
}

impl SourceUnit {
    /// What holds of every unit: its file holds its text, without the byte
    /// order mark that the text may start with.
    #[verifier::type_invariant]
    pub closed spec fn registered(self) -> bool {
        source_text(*self.file) == without_bom(self.text@)
    }

    /// The identity under which the text was registered.
    pub closed spec fn spec_identity(self) -> FileIdentity {
        self.identity
    }

    /// The text as it was given.
    pub closed spec fn spec_text(self) -> Seq<char> {
        self.text@
    }

    /// The tree that the parser makes of the unit.
    pub closed spec fn tree(self) -> SyntaxTree {
        SyntaxTree {
            program: parsed_program(*self.file),
            comments: parsed_comments(*self.file),
            compiler: self.compiler,
        }
    }

    /// The identity under which the text was registered.
    pub fn identity(&self) -> (identity: &FileIdentity)
        ensures
            *identity == self.spec_identity(),
    {
        &self.identity
    }

    /// The text as it was given.
    pub fn text(&self) -> (text: &str)
        ensures
            text@ == self.spec_text(),
    {
        self.text.as_str()
    }
}

impl SyntaxTree {
    /// The outermost expressions of the program, each with all that is
    /// below it.
    pub closed spec fn expressions(self) -> Seq<Tree> {
        program_expressions(self.program)
    }

    /// The code that the printer writes for the tree; `None` where it
    /// fails.
    pub closed spec fn printed(self) -> Option<Seq<char>> {
        printed(*self.compiler, self.program, self.comments)
    }

    /// What holds of a tree before and after the pass: the expressions are
    /// the former ones, each after the pass, and a tree without targets is
    /// as it was.
    pub open spec fn passed(self, after: SyntaxTree) -> bool {
        &&& after.expressions() == pass_each(self.expressions())
        &&& target_free_each(self.expressions()) ==> after == self
    }

    /// The rewrite pass: visits every expression of the tree, children
    /// first, and replaces each member access on `console` by `void 0`.
    /// The tree is changed in place and handed back; a tree without targets
    /// comes back as it was. The pass cannot fail.
    pub fn apply(self) -> (tree: SyntaxTree)
        ensures
            self.passed(tree),
    {
        let mut tree = self;
        walk(&mut tree.program);
        assert(tree.expressions() =~= pass_each(self.expressions()));
        tree
    }
}

impl Context {
    /// A context with nothing registered.
    pub fn new() -> Context {
        Context { compiler: new_compiler() }
    }

    /// Registers `text` under `identity`. Any text is taken, and kept as it
    /// is; whether it is valid is the parser's business.
    pub fn register(&self, identity: FileIdentity, text: &str) -> (unit: SourceUnit)
        ensures
            unit.spec_identity() == identity,
            unit.spec_text() == text@,
    {
        let file = new_source_file(&self.compiler, &identity, text);
        SourceUnit { identity, text: text.to_owned(), file, compiler: self.compiler.clone() }
    }

    /// Parses a registered text, less the byte order mark that it may start
    /// with. It fails, with a `Parse` failure, exactly when that is not
    /// valid syntax; else it gives the tree of the unit.
    pub fn parse(&self, unit: &SourceUnit) -> (parsed: Result<SyntaxTree, Failure>)
        ensures
            parsed is Ok <==> parses(without_bom(unit.spec_text())),
            parsed matches Ok(tree) ==> tree == unit.tree(),
            parsed matches Err(failure) ==> failure.kind == ErrorKind::Parse,
    {
        proof {
            use_type_invariant(unit);
        }
        match parse_reporting(&unit.compiler, &unit.file) {
            Ok((program, comments)) => Ok(
                SyntaxTree { program, comments, compiler: unit.compiler.clone() },
            ),
            Err(error) => Err(Failure { kind: ErrorKind::Parse, error }),
        }
    }

    /// Prints a tree, which is given away: the printer takes the comments
    /// out of it as it writes them. The stage succeeds exactly when the
    /// printer does, with the code that the printer wrote and no source map
    /// and no diagnostics; a failure is an `Emit` failure. Positions are
    /// looked up in the table in which the source of the tree stands.
    pub fn emit(&self, tree: SyntaxTree) -> (emitted: Result<TransformOutput, Failure>)
        ensures
            emits(tree.printed(), emitted),
    {
        emit_outcome(print(&tree.compiler, tree.program, tree.comments))
    }
}

/// Applying the pass a second time gives the tree that the first pass
/// gave: `once` stands for the tree after one pass over `tree`, `twice` for
/// the tree after a pass over `once`.
pub proof fn lemma_apply_idempotent(tree: SyntaxTree, once: SyntaxTree, twice: SyntaxTree)
    requires
        tree.passed(once),
        once.passed(twice),
    ensures
        twice == once,
{
    lemma_pass_each_leaves_no_target(tree.expressions());
}

/// The pass leaves a tree without targets as it is: `after` stands for the
/// tree after a pass over `tree`.
pub proof fn lemma_apply_keeps_target_free(tree: SyntaxTree, after: SyntaxTree)
    requires
        target_free_each(tree.expressions()),
        tree.passed(after),
    ensures
        after == tree,
{
}

/// After the pass no expression of the tree is a target: `after` stands
/// for the tree after a pass over `tree`.
pub proof fn lemma_apply_leaves_no_target(tree: SyntaxTree, after: SyntaxTree)
    requires
        tree.passed(after),
    ensures
        target_free_each(after.expressions()),
{
    lemma_pass_each_leaves_no_target(tree.expressions());
}

/// A transform of a text whose tree holds no target ends as parsing and
/// printing alone would: `result` stands for what the transform of `unit`
/// gave.
pub proof fn lemma_transform_keeps_target_free(
    unit: SourceUnit,
    result: Result<TransformOutput, Failure>,
)
    requires
        target_free_each(unit.tree().expressions()),
        exists|tree: SyntaxTree|
            {
                &&& #[trigger] unit.tree().passed(tree)
                &&& emits(tree.printed(), result)
            },
    ensures
        emits(unit.tree().printed(), result),
{
}

/// Renders a failure in the given style.
pub fn convert_err(failure: &Failure, format: ErrorFormat) -> (report: String)
    ensures
        report@ == rendered(format, failure.error),
{
    format_error(format, &failure.error)
}

/// Parses, rewrites and prints one registered text. The first stage that
/// fails ends the transform with its failure: a `Parse` failure exactly
/// when the text is not valid syntax. Else the tree that is printed is the
/// parsed one after the pass, and the transform ends as the emit stage
/// does.
pub fn transform(context: &Context, unit: &SourceUnit) -> (result: Result<
    TransformOutput,
    Failure,
>)
    ensures
        !parses(without_bom(unit.spec_text())) ==> (result matches Err(failure) && failure.kind
            == ErrorKind::Parse),
        parses(without_bom(unit.spec_text())) ==> exists|tree: SyntaxTree|
            {
                &&& #[trigger] unit.tree().passed(tree)
                &&& emits(tree.printed(), result)
            },
{
    match context.parse(unit) {
        Err(failure) => Err(failure),
        Ok(tree) => {
            let tree = tree.apply();
            match context.emit(tree) {
                Ok(output) => Ok(output),
                Err(failure) => Err(
                    Failure { kind: failure.kind, error: in_context(failure.error, STAGE_CONTEXT) },
                ),
            }
        },
    }
}

/// One whole transform of `source`: registered under the identity that
/// `options` names, transformed, and in case of failure reported in the
/// style that `options` names. Text that is not valid syntax ends in a
/// report. For other text the tree that is printed is the tree of the
/// registered text after the pass, and the transform ends with the
/// printer's code, or with a report where the printer fails.
pub fn run(context: &Context, source: &str, options: &Options) -> (result: Result<
    TransformOutput,
    String,
>)
    ensures
        !parses(without_bom(source@)) ==> (result matches Err(report) && reports(
            options.spec_error_format(),
            report@,
        )),
        parses(without_bom(source@)) ==> exists|unit: SourceUnit, tree: SyntaxTree|
            {
                &&& unit.registered()
                &&& unit.spec_identity() == options.spec_identity()
                &&& unit.spec_text() == source@
                &&& #[trigger] unit.tree().passed(tree)
                &&& ends(tree.printed(), options.spec_error_format(), result)
            },
{
    let unit = context.register(options.identity(), source);
    proof {
        use_type_invariant(&unit);
    }
    conclude(transform(context, &unit), options.error_format())
}

/// What the emit stage makes of what the printer gave: the output as it
/// is, or an `Emit` failure that holds the printer's error.
pub fn emit_outcome(printed: Result<TransformOutput, anyhow::Error>) -> (result: Result<
    TransformOutput,
    Failure,
>)
    ensures
        printed matches Ok(output) ==> result == Ok::<TransformOutput, Failure>(output),
        printed matches Err(error) ==> result == Err::<TransformOutput, Failure>(
            Failure { kind: ErrorKind::Emit, error },
        ),
{
    match printed {
        Ok(output) => Ok(output),
        Err(error) => Err(Failure { kind: ErrorKind::Emit, error }),
    }
}

/// How a transform ends: its output as it is, or the report of its failure
/// in the given style.
pub fn conclude(outcome: Result<TransformOutput, Failure>, format: ErrorFormat) -> (result: Result<
    TransformOutput,
    String,
>)
    ensures
        outcome matches Ok(output) ==> result == Ok::<TransformOutput, String>(output),
        outcome matches Err(failure) ==> (result matches Err(report) && report@ == rendered(
            format,
            failure.error,
        )),
{
    match outcome {
        Ok(output) => Ok(output),
        Err(failure) => Err(convert_err(&failure, format)),
    }
}

} // verus!
