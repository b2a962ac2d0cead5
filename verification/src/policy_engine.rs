//! The expression policy engine: what expressions see of a request, and the
//! decoding and compiling of expressions.
use base64::{prelude::BASE64_URL_SAFE_NO_PAD, Engine as _};
use vstd::prelude::*;

pub mod context;
pub mod request;
pub mod uri;

verus! {

#[verifier::external_type_specification]
#[verifier::external_body]
pub struct ExRhaiParseError(rhai::ParseError);

#[verifier::external_type_specification]
#[verifier::external_body]
pub struct ExRhaiAst(rhai::AST);

#[verifier::external_type_specification]
#[verifier::external_body]
pub struct ExRhaiEngine(rhai::Engine);

/// What URL-safe base64 without padding decodes a text into, if it is valid.
pub uninterp spec fn base64_url_no_pad_decode(s: Seq<char>) -> Option<Seq<u8>>;

/// The text that bytes stand for as UTF-8, with invalid sequences replaced.
pub uninterp spec fn utf8_lossy(bytes: Seq<u8>) -> Seq<char>;

/// The view of optional bytes.
pub open spec fn opt_bytes(o: Option<Vec<u8>>) -> Option<Seq<u8>> {
    match o {
        Some(v) => Some(v@),
        None => None,
    }
}

/// Decodes URL-safe base64 without padding (`base64`'s
/// `BASE64_URL_SAFE_NO_PAD.decode`); nothing when the text is not valid.
/// Its result is named, not stated.
#[verifier::external_body]
fn decode_base64_url(s: &str) -> (r: Option<Vec<u8>>)
    ensures
        opt_bytes(r) == base64_url_no_pad_decode(s@),
{
    BASE64_URL_SAFE_NO_PAD.decode(s).ok()
}

/// Reads bytes as UTF-8, replacing invalid sequences
/// (`String::from_utf8_lossy`). Valid UTF-8 is read as it is; what replaces
/// invalid sequences is named, not stated.
#[verifier::external_body]
fn from_utf8_lossy(bytes: &[u8]) -> (r: String)
    ensures
        r@ == utf8_lossy(bytes@),
        vstd::utf8::valid_utf8(bytes@) ==> r@ == vstd::utf8::decode_utf8(bytes@),
{
    String::from_utf8_lossy(bytes).into_owned()
}

/// Compiles an expression with an engine (`rhai::Engine::compile_expression`).
/// Whether it compiles depends on the engine's settings and packages,
/// which this library does not see; nothing is stated of the result.
#[verifier::external_body]
fn compile_expression(engine: &rhai::Engine, source: &str) -> (r: Result<rhai::AST, rhai::ParseError>) {
    engine.compile_expression(source)
}

/// Why an expression could not be compiled.
pub enum ExpressionCompilationError {
    InvalidBase64,
    Parse(rhai::ParseError),
}

/// The source text of an encoded expression: URL-safe base64 of its UTF-8.
pub fn decode_expression(expression: &str) -> (r: Result<String, ExpressionCompilationError>)
    ensures
        match base64_url_no_pad_decode(expression@) {
            None => r matches Err(ExpressionCompilationError::InvalidBase64),
            Some(bytes) => r matches Ok(s) && s@ == utf8_lossy(bytes),
        },
{
    match decode_base64_url(expression) {
        Some(bytes) => Ok(from_utf8_lossy(bytes.as_slice())),
        None => Err(ExpressionCompilationError::InvalidBase64),
    }
}

/// Compiles an encoded expression with an engine: fails on invalid base64,
/// otherwise gives what the engine makes of the decoded text.
pub fn compile(engine: &rhai::Engine, expression: &str) -> (r: Result<rhai::AST, ExpressionCompilationError>)
    ensures
        base64_url_no_pad_decode(expression@) is None ==> r matches Err(
            ExpressionCompilationError::InvalidBase64,
        ),
        base64_url_no_pad_decode(expression@) is Some ==> !(r matches Err(
            ExpressionCompilationError::InvalidBase64,
        )),
{
    let source = decode_expression(expression)?;
    match compile_expression(engine, source.as_str()) {
        Ok(ast) => Ok(ast),
        Err(err) => Err(ExpressionCompilationError::Parse(err)),
    }
}

/// Whether an execution records debug output.
#[derive(Debug, Clone, Copy)]
pub struct ExecutionOptions {
    pub debug: bool,
}

/// A position in an expression's source: line and column, when known.
#[derive(Debug, Clone, Copy, PartialEq, Eq, Structural)]
pub struct SourcePosition {
    pub line: Option<usize>,
    pub column: Option<usize>,
}

/// Output of a `debug` call in an expression.
#[derive(Debug, Clone)]
pub struct RhaiDebugEntry {
    pub text: String,
    pub source: Option<String>,
    pub position: SourcePosition,
}

/// A line an expression printed.
#[derive(Debug, Clone)]
pub enum LogEntry {
    Text(String),
    Debug(RhaiDebugEntry),
}

/// What an execution printed.
#[derive(Debug, Clone)]
pub struct ExecutionOutput {
    pub debugs: Vec<RhaiDebugEntry>,
    pub prints: Vec<String>,
}

} // verus!
