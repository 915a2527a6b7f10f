use crate::external::{book_of, clone_font, clone_source, default_library, new_source, same_file_id};
use typst::foundations::Bytes;
use typst::syntax::{FileId, Source};
use typst::text::{Font, FontBook};
use typst::Library;
use typst_utils::LazyHash;
use vstd::prelude::*;

verus! {

/// Why a lookup in the environment came back empty.
#[derive(Debug, Clone, Copy, PartialEq, Eq, Structural)]
pub enum LookupError {
    /// Nothing by that identifier exists here.
    NotFound,
}

/// The environment a document is compiled in: one in-memory source, the
/// standard library, and a font book with the fonts it describes.
pub struct SimpleWorld {
    source: Source,
    text: Ghost<Seq<char>>,
    main: FileId,
    library: LazyHash<Library>,
    book: LazyHash<FontBook>,
    fonts: Vec<Font>,
}

impl SimpleWorld {
    /// The identifier under which the single source is held.
    pub closed spec fn main_id(&self) -> FileId {
        self.main
    }

    /// The single source this environment holds.
    pub closed spec fn held_source(&self) -> Source {
        self.source
    }

    /// The text the single source was made from.
    pub closed spec fn source_text(&self) -> Seq<char> {
        self.text@
    }

    /// The standard library documents are evaluated against.
    pub closed spec fn library_value(&self) -> LazyHash<Library> {
        self.library
    }

    /// The font book.
    pub closed spec fn book_value(&self) -> LazyHash<FontBook> {
        self.book
    }

    /// The fonts, by slot.
    pub closed spec fn font_slots(&self) -> Seq<Font> {
        self.fonts@
    }

    /// What a source lookup by identifier gives.
    pub open spec fn source_lookup(&self, id: FileId) -> Result<Source, LookupError> {
        if id == self.main_id() {
            Ok(self.held_source())
        } else {
            Err(LookupError::NotFound)
        }
    }

    /// What a lookup of an auxiliary file gives: there are none.
    pub open spec fn file_lookup(&self, id: FileId) -> Result<Bytes, LookupError> {
        Err(LookupError::NotFound)
    }

    /// What a font lookup by slot gives.
    pub open spec fn font_lookup(&self, index: int) -> Option<Font> {
        if 0 <= index < self.font_slots().len() {
            Some(self.font_slots()[index])
        } else {
            None
        }
    }

    /// An environment built from one font: its only slot holds that font.
    pub open spec fn holds_one_font(&self, font: Font) -> bool {
        self.font_slots() == seq![font]
    }

    /// Builds the environment for `text`, held under the identifier `main`, with
    /// `font` as its one font, the font book made from that font, and the
    /// default standard library.
    pub fn new(main: FileId, text: String, font: Font) -> (w: SimpleWorld)
        ensures
            w.main_id() == main,
            w.source_text() == text@,
            w.holds_one_font(font),
    {
        let ghost text_view = text@;
        let source = new_source(main, text);
        let mut fonts: Vec<Font> = Vec::new();
        fonts.push(font);
        let book = book_of(&fonts);
        let library = default_library();
        proof {
            assert(fonts@ =~= seq![font]);
        }
        SimpleWorld { source, text: Ghost(text_view), main, library, book, fonts }
    }

    /// The standard library documents are evaluated against.
    pub fn library(&self) -> (r: &LazyHash<Library>)
        ensures
            *r == self.library_value(),
    {
        &self.library
    }

    /// The font book that describes the font slots.
    pub fn book(&self) -> (r: &LazyHash<FontBook>)
        ensures
            *r == self.book_value(),
    {
        &self.book
    }

    /// The identifier of the main source.
    pub fn main(&self) -> (r: FileId)
        ensures
            r == self.main_id(),
    {
        self.main
    }

    /// Looks a source up by its identifier: only the main source is known.
    pub fn source(&self, id: FileId) -> (r: Result<Source, LookupError>)
        ensures
            r == self.source_lookup(id),
    {
        if same_file_id(id, self.main) {
            Ok(clone_source(&self.source))
        } else {
            Err(LookupError::NotFound)
        }
    }

    /// Looks an auxiliary file up: this environment holds none.
    pub fn file(&self, id: FileId) -> (r: Result<Bytes, LookupError>)
        ensures
            r == self.file_lookup(id),
    {
        Err(LookupError::NotFound)
    }

    /// The font in slot `index`, or `None` past the last slot.
    pub fn font(&self, index: usize) -> (r: Option<Font>)
        ensures
            r == self.font_lookup(index as int),
    {
        if index < self.fonts.len() {
            Some(clone_font(&self.fonts[index]))
        } else {
            None
        }
    }
}

/// In an environment built from one font, slot 0 holds that font and every
/// later slot is empty.
pub proof fn lemma_font_slots(w: SimpleWorld, font: Font, index: int)
    requires
        w.holds_one_font(font),
        index >= 1,
    ensures
        w.font_lookup(0) == Some(font),
        w.font_lookup(index) == None::<Font>,
{
}

/// No identifier, the main source's included, names an auxiliary file.
pub proof fn lemma_no_auxiliary_files(w: SimpleWorld, id: FileId)
    ensures
        w.file_lookup(id) == Err::<Bytes, LookupError>(LookupError::NotFound),
        w.file_lookup(w.main_id()) == Err::<Bytes, LookupError>(LookupError::NotFound),
{
}

} // verus!
