//! Content files: a metadata section, then a body to be rendered.

use vstd::prelude::*;
use crate::context::BuildContext;
use crate::date::{calendar_date, parse_date, Date};
use crate::error::{BuildError, Flaw, FlawView};
use crate::fields::{
    document_fields, optional_flag, optional_text, required_text, FieldView, Table,
};
use crate::path::SitePath;
use crate::text::{
    chars_of, file_stem, find, first_occurrence, lemma_first_occurrence, occurs_at, stem_of,
};

verus! {

/// The marker that opens the metadata section of a content file.
pub const META_TAG: &'static str = "@Meta";

/// The marker that opens the body of a content file.
pub const CONTENT_TAG: &'static str = "@Content";

/// A page ready to be written: its metadata and its body as HTML.
#[derive(Debug)]
pub struct Page {
    pub metadata: PageMetadata,
    pub content: String,
}

/// Metadata about a page.
#[derive(Debug)]
pub struct PageMetadata {
    /// Title of the page.
    pub title: String,
    /// Page author.
    pub author: String,
    /// Slug of the page, its file name by default.
    pub slug: String,
    /// Date the page was posted.
    pub date: Option<Date>,
    /// Whether or not the date should be rendered.
    pub show_date: bool,
    /// Link to the page.
    pub link: String,
    /// Output file path.
    pub out_path: SitePath,
}

/// The metadata as a content file states it.
#[derive(Debug)]
pub struct Metadata {
    pub title: String,
    pub author: String,
    pub slug: Option<String>,
    pub date: Option<Date>,
    pub show_date: Option<bool>,
}

/// Stated metadata as a mathematical value.
pub struct MetadataView {
    pub title: Seq<char>,
    pub author: Seq<char>,
    pub slug: Option<Seq<char>>,
    pub date: Option<Date>,
    pub show_date: Option<bool>,
}

impl View for Metadata {
    type V = MetadataView;

    open spec fn view(&self) -> MetadataView {
        MetadataView {
            title: self.title@,
            author: self.author@,
            slug: match self.slug {
                Some(slug) => Some(slug@),
                None => None,
            },
            date: self.date,
            show_date: self.show_date,
        }
    }
}

/// The two sections of a content file: the text strictly between the
/// metadata marker and the content marker, and the text after the content
/// marker. `None` if a marker is missing, or if the first content marker does
/// not come after the first metadata marker.
pub open spec fn front_matter(text: Seq<char>) -> Option<(Seq<char>, Seq<char>)> {
    match (first_occurrence(text, META_TAG@), first_occurrence(text, CONTENT_TAG@)) {
        (Some(meta), Some(content)) if meta + META_TAG@.len() <= content => Some(
            (
                text.subrange(meta + META_TAG@.len(), content),
                text.skip(content + CONTENT_TAG@.len()),
            ),
        ),
        _ => None,
    }
}

/// The date field: missing, or a string that stands for a calendar date.
pub open spec fn date_field(entries: Seq<(Seq<char>, FieldView)>) -> Result<Option<Date>, FlawView> {
    match optional_text(entries, "date"@) {
        Ok(Some(text)) => match calendar_date(text) {
            Some(date) => Ok(Some(date)),
            None => Err(FlawView::NotADate { field: "date"@ }),
        },
        Ok(None) => Ok(None),
        Err(flaw) => Err(flaw),
    }
}

/// The metadata that a table of fields states, or the first flaw in it:
/// `title` and `author` are required strings, `slug` an optional string,
/// `date` an optional date string, `show_date` an optional boolean, looked
/// at in this order. Other fields are ignored.
pub open spec fn metadata_of(entries: Seq<(Seq<char>, FieldView)>) -> Result<MetadataView, FlawView> {
    match required_text(entries, "title"@) {
        Err(flaw) => Err(flaw),
        Ok(title) => match required_text(entries, "author"@) {
            Err(flaw) => Err(flaw),
            Ok(author) => match optional_text(entries, "slug"@) {
                Err(flaw) => Err(flaw),
                Ok(slug) => match date_field(entries) {
                    Err(flaw) => Err(flaw),
                    Ok(date) => match optional_flag(entries, "show_date"@) {
                        Err(flaw) => Err(flaw),
                        Ok(show_date) => Ok(
                            MetadataView { title, author, slug, date, show_date },
                        ),
                    },
                },
            },
        },
    }
}

/// The metadata that a metadata section states, or why it cannot be read.
pub open spec fn parsed_metadata(section: Seq<char>) -> Result<MetadataView, FlawView> {
    match document_fields(section) {
        Ok(entries) => metadata_of(entries),
        Err(flaw) => Err(flaw),
    }
}

/// Splits a content file into its metadata section and its body.
pub fn split_front_matter(text: &str) -> (sections: Option<(String, String)>)
    ensures
        match sections {
            Some((meta, body)) => front_matter(text@) == Some((meta@, body@)),
            None => front_matter(text@) is None,
        },
{
    let chars = chars_of(text);
    let meta_tag = chars_of(META_TAG);
    let content_tag = chars_of(CONTENT_TAG);
    let meta_at = match find(&chars, &meta_tag) {
        Some(at) => at,
        None => return None,
    };
    let content_at = match find(&chars, &content_tag) {
        Some(at) => at,
        None => return None,
    };
    proof {
        lemma_first_occurrence(text@, META_TAG@);
        lemma_first_occurrence(text@, CONTENT_TAG@);
        assert(occurs_at(text@, META_TAG@, meta_at as int));
        assert(occurs_at(text@, CONTENT_TAG@, content_at as int));
    }
    if content_at < meta_at || content_at - meta_at < meta_tag.len() {
        return None;
    }
    assert(content_at + content_tag.len() <= chars.len());
    let meta = text.substring_char(meta_at + meta_tag.len(), content_at);
    let body = text.substring_char(content_at + content_tag.len(), chars.len());
    assert(text@.subrange(content_at + CONTENT_TAG@.len(), text@.len() as int) =~= text@.skip(
        content_at + CONTENT_TAG@.len(),
    ));
    Some((meta.to_owned(), body.to_owned()))
}

impl Metadata {
    /// Reads the metadata from the fields of a metadata section. An error
    /// names the first field that is missing or malformed, and says which
    /// of the two it is.
    pub fn from_table(table: &Table) -> (outcome: Result<Metadata, Flaw>)
        ensures
            match outcome {
                Ok(metadata) => metadata_of(table@) matches Ok(stated) && stated == metadata@,
                Err(flaw) => metadata_of(table@) matches Err(reason) && reason == flaw@,
            },
    {
        let title = match table.text("title") {
            Ok(title) => title,
            Err(flaw) => return Err(flaw),
        };
        let author = match table.text("author") {
            Ok(author) => author,
            Err(flaw) => return Err(flaw),
        };
        let slug = match table.text_if_present("slug") {
            Ok(slug) => slug,
            Err(flaw) => return Err(flaw),
        };
        let date = match table.text_if_present("date") {
            Ok(Some(text)) => match parse_date(text.as_str()) {
                Some(date) => Some(date),
                None => return Err(Flaw::NotADate { field: "date".to_owned() }),
            },
            Ok(None) => None,
            Err(flaw) => return Err(flaw),
        };
        let show_date = match table.flag_if_present("show_date") {
            Ok(show_date) => show_date,
            Err(flaw) => return Err(flaw),
        };
        Ok(Metadata { title, author, slug, date, show_date })
    }

    /// Reads the metadata from the text of a metadata section.
    pub fn parse(section: &str) -> (outcome: Result<Metadata, Flaw>)
        ensures
            match outcome {
                Ok(metadata) => parsed_metadata(section@) matches Ok(stated) && stated
                    == metadata@,
                Err(flaw) => parsed_metadata(section@) matches Err(reason) && reason == flaw@,
            },
    {
        match Table::parse(section) {
            Ok(table) => Metadata::from_table(&table),
            Err(flaw) => Err(flaw),
        }
    }
}

impl Page {
    /// The slug of a page: the one its metadata states, or else the name of
    /// its file without the extension.
    pub open spec fn slug_of(path: Seq<Seq<char>>, metadata: MetadataView) -> Seq<char> {
        match metadata.slug {
            Some(slug) => slug,
            None => stem_of(path.last()),
        }
    }

    /// Whether `self` is the page that the content file at `path` with the
    /// given sections makes in a build context.
    pub open spec fn is_page_of(
        &self,
        path: Seq<Seq<char>>,
        metadata: MetadataView,
        body: Seq<char>,
        context: &BuildContext,
    ) -> bool {
        let slug = Page::slug_of(path, metadata);
        &&& self.metadata.title@ == metadata.title
        &&& self.metadata.author@ == metadata.author
        &&& self.metadata.date == metadata.date
        &&& self.metadata.show_date == match metadata.show_date {
            Some(show) => show,
            None => true,
        }
        &&& self.metadata.slug@ == slug
        &&& context.page_output(path, slug) == Some(self.metadata.out_path@)
        &&& context.link_of(self.metadata.out_path@) == Some(self.metadata.link@)
        &&& self.content@ == context.markdown_renderer.rendering(body)
    }

    /// Builds the page of the content file at `path` from the text of that
    /// file: splits off the metadata, derives slug, output path and link,
    /// and renders the body.
    pub fn parse(path: &SitePath, file_contents: &str, context: &BuildContext) -> (outcome: Result<
        Page,
        BuildError,
    >)
        ensures
            match outcome {
                Ok(page) => {
                    &&& front_matter(file_contents@) matches Some((section, body))
                    &&& parsed_metadata(section) matches Ok(metadata)
                    &&& page.is_page_of(path@, metadata, body, context)
                },
                Err(BuildError::MalformedPage { path: at }) => {
                    &&& at@ == path@
                    &&& front_matter(file_contents@) is None
                },
                Err(BuildError::InvalidMetadata { path: at, reason }) => {
                    &&& at@ == path@
                    &&& front_matter(file_contents@) matches Some((section, body))
                    &&& parsed_metadata(section) matches Err(flaw)
                    &&& flaw == reason@
                },
                Err(BuildError::PathError { path: at }) => {
                    &&& at@ == path@
                    &&& front_matter(file_contents@) matches Some((section, body))
                    &&& parsed_metadata(section) matches Ok(metadata)
                    &&& context.page_output(path@, Page::slug_of(path@, metadata)) is None
                },
                Err(BuildError::ConfigError { .. }) => false,
            },
    {
        let (section, body) = match split_front_matter(file_contents) {
            Some(sections) => sections,
            None => return Err(BuildError::MalformedPage { path: path.duplicate() }),
        };
        let file_meta = match Metadata::parse(section.as_str()) {
            Ok(file_meta) => file_meta,
            Err(reason) => return Err(
                BuildError::InvalidMetadata { path: path.duplicate(), reason },
            ),
        };
        let slug = match file_meta.slug {
            Some(slug) => slug,
            None => match path.file_name() {
                Some(name) => file_stem(name.as_str()),
                None => {
                    return Err(BuildError::PathError { path: path.duplicate() });
                },
            },
        };
        let out_path = context.page_path(path, slug.as_str())?;
        let link = context.link(&out_path)?;
        let metadata = PageMetadata {
            title: file_meta.title,
            author: file_meta.author,
            date: file_meta.date,
            slug,
            link,
            out_path,
            show_date: match file_meta.show_date {
                Some(show) => show,
                None => true,
            },
        };
        let content = context.markdown_renderer.render(body.as_str());
        Ok(Page { metadata, content })
    }
}

} // verus!
