use std::path::PathBuf;

use typst::diag::{FileError, FileResult};
use typst::foundations::{Bytes, Datetime};
use typst::layout::PagedDocument;
use typst::syntax::{FileId, Source};
use typst::text::{Font, FontBook};
use typst::utils::LazyHash;
use typst::{Library, World};
use typst_ffi::{
    build_world, compile_document, compile_typst, conclude, decode_input, settle_export, Failure,
    SimpleWorld,
};

struct Environment<'a>(&'a SimpleWorld);

impl World for Environment<'_> {
    fn library(&self) -> &LazyHash<Library> {
        self.0.library()
    }

    fn book(&self) -> &LazyHash<FontBook> {
        self.0.book()
    }

    fn main(&self) -> FileId {
        self.0.main()
    }

    fn source(&self, id: FileId) -> FileResult<Source> {
        self.0.source(id).map_err(|_| FileError::NotFound(PathBuf::new()))
    }

    fn file(&self, id: FileId) -> FileResult<Bytes> {
        self.0.file(id).map_err(|_| FileError::NotFound(PathBuf::new()))
    }

    fn font(&self, index: usize) -> Option<Font> {
        self.0.font(index)
    }

    fn today(&self, _offset: Option<i64>) -> Option<Datetime> {
        None
    }
}

fn font_data() -> &'static [u8] {
    typst_assets::fonts().next().expect("a bundled font")
}

fn run(world: &SimpleWorld) -> Option<PagedDocument> {
    typst::compile::<PagedDocument>(&Environment(world)).output.ok()
}

const MINIMAL: &str = "#set page(width: 200pt, height: 200pt)\nHello, *Typst* world!\n";

#[test]
fn null_input_gives_nothing_and_zero_length() {
    let mut cell = Some(17);
    let r = compile_typst(None, &mut cell, font_data(), run);
    assert!(r.is_none());
    assert_eq!(cell, Some(0));
}

#[test]
fn missing_length_cell_gives_nothing() {
    let mut cell = None;
    let r = compile_typst(Some(MINIMAL.as_bytes()), &mut cell, font_data(), run);
    assert!(r.is_none());
    assert_eq!(cell, None);
}

#[test]
fn invalid_utf8_gives_nothing_and_zero_length() {
    let mut cell = Some(5);
    let r = compile_typst(Some(&[0x48, 0xff, 0x69][..]), &mut cell, font_data(), run);
    assert!(r.is_none());
    assert_eq!(cell, Some(0));
    let lone_continuation = [0x80u8];
    assert_eq!(decode_input(&lone_continuation), Err(Failure::InvalidText));
}

#[test]
fn minimal_document_compiles_to_pdf() {
    let mut cell = Some(0);
    let r = compile_typst(Some(MINIMAL.as_bytes()), &mut cell, font_data(), run);
    let bytes = r.expect("a PDF");
    assert!(bytes.len() > 0);
    assert_eq!(cell, Some(bytes.len()));
    assert!(bytes.starts_with(b"%PDF-"));
    assert_eq!(compile_document(MINIMAL.as_bytes(), font_data(), run), Ok(bytes));
}

#[test]
fn missing_image_and_date_fail_to_compile() {
    for text in ["#image(\"x.png\")", "#datetime.today().display()"] {
        let mut cell = Some(11);
        assert!(compile_typst(Some(text.as_bytes()), &mut cell, font_data(), run).is_none());
        assert_eq!(cell, Some(0));
    }
}

#[test]
fn unterminated_directive_gives_nothing() {
    let mut cell = Some(3);
    let r = compile_typst(Some("#set page(width: 200pt".as_bytes()), &mut cell, font_data(), run);
    assert!(r.is_none());
    assert_eq!(cell, Some(0));
    assert_eq!(
        compile_document("#set page(width: 200pt".as_bytes(), font_data(), run),
        Err(Failure::Compile)
    );
}

#[test]
fn compiling_twice_gives_identical_bytes() {
    let first = compile_document(MINIMAL.as_bytes(), font_data(), run).expect("a PDF");
    let second = compile_document(MINIMAL.as_bytes(), font_data(), run).expect("a PDF");
    assert_eq!(first.len(), second.len());
    assert_eq!(first, second);
}

#[test]
fn decode_keeps_the_characters() {
    assert_eq!(decode_input("héllo €".as_bytes()), Ok(String::from("héllo €")));
    assert_eq!(decode_input(b""), Ok(String::new()));
}

#[test]
fn malformed_font_is_a_font_failure() {
    assert_eq!(
        build_world(String::from("Hi"), b"not a font").err(),
        Some(Failure::FontLoad)
    );
    assert_eq!(
        compile_document(MINIMAL.as_bytes(), b"not a font", run),
        Err(Failure::FontLoad)
    );
    let mut cell = Some(9);
    assert!(compile_typst(Some(MINIMAL.as_bytes()), &mut cell, b"", run).is_none());
    assert_eq!(cell, Some(0));
}

#[test]
fn invalid_text_comes_before_font_loading() {
    assert_eq!(compile_document(&[0xc3], b"not a font", run), Err(Failure::InvalidText));
}

#[test]
fn compiler_refusal_is_a_compile_failure() {
    assert_eq!(
        compile_document(MINIMAL.as_bytes(), font_data(), |_| None),
        Err(Failure::Compile)
    );
    assert_eq!(conclude(None), Err(Failure::Compile));
}

#[test]
fn export_outcomes_are_settled() {
    assert_eq!(settle_export(Some(vec![1, 2, 3])), Ok(vec![1, 2, 3]));
    assert_eq!(settle_export(None), Err(Failure::Export));
}
