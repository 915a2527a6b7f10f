use typst::foundations::Bytes;
use typst::layout::PagedDocument;
use typst::syntax::{FileId, Source, VirtualPath};
use typst::text::{Font, FontBook};
use typst::Library;
use typst_pdf::PdfOptions;
use typst_utils::LazyHash;
use vstd::prelude::*;
use vstd::utf8::{decode_utf8, valid_utf8};

verus! {

#[verifier::external_type_specification]
#[verifier::external_body]
pub struct ExFileId(typst::syntax::FileId);

#[verifier::external_type_specification]
#[verifier::external_body]
pub struct ExSource(typst::syntax::Source);

#[verifier::external_type_specification]
#[verifier::external_body]
pub struct ExFont(typst::text::Font);

#[verifier::external_type_specification]
#[verifier::external_body]
pub struct ExFontBook(typst::text::FontBook);

#[verifier::external_type_specification]
#[verifier::external_body]
pub struct ExLibrary(typst::Library);

#[verifier::external_type_specification]
#[verifier::external_body]
pub struct ExBytes(typst::foundations::Bytes);

#[verifier::external_type_specification]
#[verifier::external_body]
pub struct ExPagedDocument(typst::layout::PagedDocument);

#[verifier::external_type_specification]
#[verifier::external_body]
#[verifier::reject_recursive_types(T)]
pub struct ExLazyHash<T: ?Sized>(typst_utils::LazyHash<T>);

/// Whether `Font::new` accepts these bytes as a font at collection index 0.
pub uninterp spec fn font_parses(data: Seq<u8>) -> bool;

/// Relies on `std::str::from_utf8`: it succeeds exactly on valid UTF-8, and the
/// text then holds the characters that the bytes encode.
#[verifier::external_body]
pub(crate) fn utf8_text(bytes: &[u8]) -> (r: Option<String>)
    ensures
        r.is_some() == valid_utf8(bytes@),
        r matches Some(s) ==> s@ == decode_utf8(bytes@),
{
    std::str::from_utf8(bytes).ok().map(|s| s.to_string())
}

/// Relies on `Font::new` (the bytes wrapped by `Bytes::new`): it parses the face at
/// collection index 0, and whether it succeeds depends on the bytes alone.
#[verifier::external_body]
pub(crate) fn parse_font(data: &[u8]) -> (r: Option<Font>)
    ensures
        r.is_some() == font_parses(data@),
{
    Font::new(Bytes::new(data.to_vec()), 0)
}

/// Relies on `FontBook::from_fonts`: entry `i` of the book describes `fonts[i]`.
#[verifier::external_body]
pub(crate) fn book_of(fonts: &Vec<Font>) -> (r: LazyHash<FontBook>) {
    LazyHash::new(FontBook::from_fonts(fonts.iter()))
}

/// Relies on `Library::default`: the standard library with default settings.
#[verifier::external_body]
pub(crate) fn default_library() -> (r: LazyHash<Library>) {
    LazyHash::new(Library::default())
}

/// Relies on `FileId::new`: interns a path outside any package. `VirtualPath::new`
/// roots the path, so the call does not panic on it.
#[verifier::external_body]
pub(crate) fn virtual_file_id(path: &str) -> (r: FileId) {
    FileId::new(None, VirtualPath::new(path))
}

/// Relies on the derived `PartialEq` of `FileId`, which compares its one field:
/// two ids are equal exactly when they are the same id.
#[verifier::external_body]
pub(crate) fn same_file_id(a: FileId, b: FileId) -> (r: bool)
    ensures
        r == (a == b),
{
    a == b
}

/// Relies on `Source::new`: parses the text as the file with the given id.
#[verifier::external_body]
pub(crate) fn new_source(id: FileId, text: String) -> (r: Source) {
    Source::new(id, text)
}

/// Relies on `Clone` for `Source`: it copies the reference-counted handle, so the
/// clone is the same handle.
#[verifier::external_body]
pub(crate) fn clone_source(s: &Source) -> (r: Source)
    ensures
        r == *s,
{
    s.clone()
}

/// Relies on `Clone` for `Font`: it copies the reference-counted handle, so the
/// clone is the same handle.
#[verifier::external_body]
pub(crate) fn clone_font(f: &Font) -> (r: Font)
    ensures
        r == *f,
{
    f.clone()
}

/// The five bytes every PDF file starts with: `%PDF-`.
pub open spec fn pdf_magic() -> Seq<u8> {
    seq![0x25u8, 0x50u8, 0x44u8, 0x46u8, 0x2du8]
}

/// Whether `bytes` start with the PDF header.
pub open spec fn starts_as_pdf(bytes: Seq<u8>) -> bool {
    bytes.len() >= 5 && bytes.subrange(0, 5) == pdf_magic()
}

/// Relies on `typst_pdf::pdf` with `PdfOptions::default()`: the document as PDF
/// bytes, or `None` where the export reports an error. The bytes come from
/// pdf-writer's `Pdf`, which starts its buffer with `%PDF-1.7`.
#[verifier::external_body]
pub(crate) fn export_pdf(document: &PagedDocument) -> (r: Option<Vec<u8>>)
    ensures
        r matches Some(bytes) ==> starts_as_pdf(bytes@),
{
    typst_pdf::pdf(document, &PdfOptions::default()).ok()
}

} // verus!
