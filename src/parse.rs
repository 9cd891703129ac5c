//! Discovery of the imports of a document, through Nickel's parser.

use vstd::prelude::*;
use nickel_lang_parser::ast::{Ast, AstAlloc, Import, Node};
use nickel_lang_parser::files::Files;
use nickel_lang_parser::grammar::TermParser;
use nickel_lang_parser::lexer::Lexer;
use nickel_lang_parser::traverse::{TraverseAlloc, TraverseControl};
use nickel_lang_parser::ErrorTolerantParser;
use crate::crawl::{ImportRef, LoadError};
use crate::format::InputFormat;

verus! {

/// The imports that Nickel's parser finds in a text, in tree order: the path
/// as written and its byte span, when known; `None` when the text does not
/// parse.
pub uninterp spec fn nickel_imports(text: Seq<char>) -> Option<Seq<(Seq<u8>, Option<(u32, u32)>)>>;

pub open spec fn import_views(imports: Seq<ImportRef>) -> Seq<(Seq<u8>, Option<(u32, u32)>)> {
    imports.map_values(|i: ImportRef| (i.path@, i.span))
}

/// Relies on `nickel_lang_parser::grammar::TermParser::parse_strict` to parse
/// the text, and on `traverse_ref` to visit its nodes top-down, collecting
/// every path import with its position.
#[verifier::external_body]
fn parse_imports(text: &str) -> (r: Result<Vec<ImportRef>, String>)
    ensures
        r is Ok <==> nickel_imports(text@) is Some,
        r matches Ok(v) ==> import_views(v@) == nickel_imports(text@)->0,
{
    let alloc = AstAlloc::new();
    let file_id = Files::empty().add("", text);
    let ast = TermParser::new().parse_strict(&alloc, file_id, Lexer::new(text)).map_err(|e| format!("{e:#?}"))?;
    let mut imports = Vec::new();
    ast.traverse_ref(&mut |node: &Ast<'_>, _: &()| {
        if let Node::Import(Import::Path { path, .. }) = &node.node {
            imports.push(ImportRef { path: path.as_encoded_bytes().to_vec(), span: node.pos.as_opt_ref().map(|p| (p.start.0, p.end.0)) });
        }
        TraverseControl::<(), ()>::Continue
    }, &());
    Ok(imports)
}

/// The imports of a document written in `format`, in tree order. Only the
/// native configuration language can import; a text that does not parse is a
/// `Parse` error.
pub fn document_imports(text: &str, format: InputFormat) -> (r: Result<Vec<ImportRef>, LoadError>)
    ensures
        format != InputFormat::Nickel ==> (r matches Ok(v) && v@.len() == 0),
        format == InputFormat::Nickel ==> {
            &&& (r is Ok <==> nickel_imports(text@) is Some)
            &&& (r matches Ok(v) ==> import_views(v@) == nickel_imports(text@)->0)
            &&& (r matches Err(e) ==> e is Parse)
        },
{
    match format {
        InputFormat::Nickel => match parse_imports(text) {
            Ok(v) => Ok(v),
            Err(message) => Err(LoadError::Parse { message }),
        },
        _ => Ok(Vec::new()),
    }
}

} // verus!
