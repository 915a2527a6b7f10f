use crate::external::{export_pdf, font_parses, parse_font, starts_as_pdf, utf8_text, virtual_file_id};
use crate::world::SimpleWorld;
use typst::layout::PagedDocument;
use vstd::prelude::*;
use vstd::utf8::{decode_utf8, valid_utf8};

verus! {

/// Why a compile request produced no buffer.
#[derive(Debug, Clone, Copy, PartialEq, Eq, Structural)]
pub enum Failure {
    /// The text is not valid UTF-8.
    InvalidText,
    /// The embedded font could not be parsed.
    FontLoad,
    /// The compiler reported errors.
    Compile,
    /// The document could not be exported as PDF.
    Export,
}

/// The name under which the input text is held.
pub const MAIN_PATH: &'static str = "example.typ";

/// Decodes the input text; bytes that are not UTF-8 are refused.
pub fn decode_input(bytes: &[u8]) -> (r: Result<String, Failure>)
    ensures
        r.is_ok() == valid_utf8(bytes@),
        r matches Ok(s) ==> s@ == decode_utf8(bytes@),
        r matches Err(e) ==> e == Failure::InvalidText,
{
    match utf8_text(bytes) {
        Some(s) => Ok(s),
        None => Err(Failure::InvalidText),
    }
}

/// Builds the environment for `text` with the font parsed from `font_data` as
/// its one font.
pub fn build_world(text: String, font_data: &[u8]) -> (r: Result<SimpleWorld, Failure>)
    ensures
        r.is_ok() == font_parses(font_data@),
        r matches Err(e) ==> e == Failure::FontLoad,
        r matches Ok(w) ==> w.font_slots().len() == 1 && w.source_text() == text@,
{
    match parse_font(font_data) {
        None => Err(Failure::FontLoad),
        Some(font) => {
            let main = virtual_file_id(MAIN_PATH);
            Ok(SimpleWorld::new(main, text, font))
        },
    }
}

/// Takes the outcome of the PDF export: bytes are the result, no bytes an
/// export failure.
pub fn settle_export(exported: Option<Vec<u8>>) -> (r: Result<Vec<u8>, Failure>)
    ensures
        r == match exported {
            Some(bytes) => Ok::<Vec<u8>, Failure>(bytes),
            None => Err(Failure::Export),
        },
{
    match exported {
        Some(bytes) => Ok(bytes),
        None => Err(Failure::Export),
    }
}

/// Turns what the compiler produced into the bytes handed out: no document is a
/// compile failure, a document that does not export is an export failure.
pub fn conclude(compiled: Option<PagedDocument>) -> (r: Result<Vec<u8>, Failure>)
    ensures
        compiled.is_none() ==> r == Err::<Vec<u8>, Failure>(Failure::Compile),
        compiled.is_some() ==> (r.is_ok() || r == Err::<Vec<u8>, Failure>(Failure::Export)),
        r matches Ok(bytes) ==> starts_as_pdf(bytes@),
{
    match compiled {
        None => Err(Failure::Compile),
        Some(document) => settle_export(export_pdf(&document)),
    }
}

/// Whether `w` is an environment for the text `input` encodes, with one font.
pub open spec fn environment_for(w: &SimpleWorld, input: Seq<u8>) -> bool {
    w.source_text() == decode_utf8(input) && w.font_slots().len() == 1
}

/// Whether every run of `compile` reports errors.
pub open spec fn always_fails<F: Fn(&SimpleWorld) -> Option<PagedDocument>>(compile: F) -> bool {
    forall|w: &SimpleWorld, o: Option<PagedDocument>| compile.ensures((w,), o) ==> o.is_none()
}

/// Compiles `input` in an environment whose one font is parsed from
/// `font_data`, and exports the document as PDF. `compile` runs the compiler on
/// the environment; a success comes from a document that it produced for that
/// environment, and starts with the PDF header.
pub fn compile_document<F>(input: &[u8], font_data: &[u8], compile: F) -> (r: Result<Vec<u8>, Failure>)
    where
        F: Fn(&SimpleWorld) -> Option<PagedDocument>,
    requires
        forall|w: &SimpleWorld| compile.requires((w,)),
    ensures
        !valid_utf8(input@) ==> r == Err::<Vec<u8>, Failure>(Failure::InvalidText),
        valid_utf8(input@) && !font_parses(font_data@) ==> r == Err::<Vec<u8>, Failure>(Failure::FontLoad),
        valid_utf8(input@) && font_parses(font_data@) ==> (r.is_ok() || r == Err::<Vec<u8>, Failure>(Failure::Compile)
            || r == Err::<Vec<u8>, Failure>(Failure::Export)),
        valid_utf8(input@) && font_parses(font_data@) && always_fails(compile) ==> r == Err::<
            Vec<u8>,
            Failure,
        >(Failure::Compile),
        r == Err::<Vec<u8>, Failure>(Failure::Compile) ==> exists|w: &SimpleWorld|
            environment_for(w, input@) && compile.ensures((w,), None::<PagedDocument>),
        r.is_ok() ==> exists|w: &SimpleWorld, d: PagedDocument|
            environment_for(w, input@) && compile.ensures((w,), Some(d)),
        r matches Ok(bytes) ==> starts_as_pdf(bytes@),
{
    let text = match decode_input(input) {
        Ok(text) => text,
        Err(e) => return Err(e),
    };
    let world = match build_world(text, font_data) {
        Ok(world) => world,
        Err(e) => return Err(e),
    };
    let compiled = compile(&world);
    let ghost outcome = compiled;
    let r = conclude(compiled);
    proof {
        assert(environment_for(&world, input@));
        if r.is_ok() || r == Err::<Vec<u8>, Failure>(Failure::Export) {
            assert(compile.ensures((&world,), Some(outcome->Some_0)));
        } else {
            assert(compile.ensures((&world,), None::<PagedDocument>));
        }
    }
    r
}

/// The compile operation at the boundary. `input` is the text's bytes and
/// `output_len` the caller's length cell, each `None` where the caller passed
/// none. Without a cell nothing is compiled. Every failure returns `None` and
/// sets a present cell to zero; success returns PDF bytes, never empty, and sets
/// the cell to their count.
pub fn compile_typst<F>(
    input: Option<&[u8]>,
    output_len: &mut Option<usize>,
    font_data: &[u8],
    compile: F,
) -> (r: Option<Vec<u8>>)
    where
        F: Fn(&SimpleWorld) -> Option<PagedDocument>,
    requires
        forall|w: &SimpleWorld| compile.requires((w,)),
    ensures
        old(output_len).is_none() ==> r.is_none() && final(output_len).is_none(),
        old(output_len).is_some() ==> *final(output_len) == Some(
            match r {
                Some(bytes) => bytes.len(),
                None => 0usize,
            },
        ),
        old(output_len).is_some() ==> (r.is_none() <==> *final(output_len) == Some(0usize)),
        input.is_none() ==> r.is_none(),
        input matches Some(text) ==> (!valid_utf8(text@) || !font_parses(font_data@) || always_fails(compile)
            ==> r.is_none()),
        r matches Some(bytes) ==> starts_as_pdf(bytes@) && (input matches Some(text) && exists|
            w: &SimpleWorld,
            d: PagedDocument,
        | environment_for(w, text@) && compile.ensures((w,), Some(d))),
{
    if output_len.is_none() {
        return None;
    }
    let text = match input {
        Some(text) => text,
        None => {
            *output_len = Some(0);
            return None;
        },
    };
    match compile_document(text, font_data, compile) {
        Ok(bytes) => {
            *output_len = Some(bytes.len());
            Some(bytes)
        },
        Err(_) => {
            *output_len = Some(0);
            None
        },
    }
}

} // verus!
