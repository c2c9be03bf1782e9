//! From a feed entry to the document that is written for it.

use crate::feed::{
    author_names, extract_html_string_from_entry, html_of, kept_summary, present_names,
    summary_to_keep, EntryConversionError, FeedEntry, FeedEntryView,
};
use crate::text::{concat3, opt_text, replace_char, texts, with_char_replaced};
use vstd::prelude::*;
use vstd::string::*;

verus! {

/// What stands before the body of an entry in its XHTML page.
pub const XHTML_HEAD: &'static str =
    "<?xml version=\"1.0\" encoding=\"UTF-8\" ?>\n\
<!DOCTYPE html PUBLIC \"-//W3C//DTD XHTML 1.1//EN\" \
\"http://www.w3.org/TR/xhtml11/DTD/xhtml11.dtd\">\n\
<html xmlns=\"http://www.w3.org/1999/xhtml\" xml:lang=\"en\">\n  \
<head>\n    \
<meta http-equiv=\"Content-Type\" content=\"application/xhtml+xml; charset=utf-8\" />\n    \
<title>Pride and Prejudice</title>\n    \
<link rel=\"stylesheet\" href=\"css/main.css\" type=\"text/css\" />\n  \
</head>\n  \
<body>\n";

/// What stands after the body of an entry in its XHTML page.
pub const XHTML_TAIL: &'static str = "  </body>\n</html>";

/// The XHTML page around the HTML of an entry.
pub fn html_string_to_xhtml_epub_string(html: &str) -> (xhtml: String)
    ensures
        xhtml@ == XHTML_HEAD@ + html@ + XHTML_TAIL@,
{
    concat3(XHTML_HEAD, html, XHTML_TAIL)
}

/// The path of the document for the entry called `title` in
/// `destination_dir`.
pub fn entry_title_to_file_name(destination_dir: &str, title: &str) -> (path: String)
    ensures
        path@ == destination_dir@ + "/"@ + title@ + ".epub"@,
{
    let mut path = concat3(destination_dir, "/", title);
    path.append(".epub");
    path
}

/// The name this tool gives itself as the generator of a document.
pub const EPUB_GENERATOR: &'static str = "feed-to-epub";

/// Why no document can be made from an entry.
#[derive(Clone, Copy, Debug, PartialEq, Eq, Structural)]
pub enum TransformError {
    /// The entry lacks what a document needs.
    ContentExtractionError(EntryConversionError),
}

/// Everything that goes into the document of one entry.
#[derive(Clone, Debug, PartialEq)]
pub struct EpubDocument {
    /// The path of the file to write.
    pub file_name: String,
    /// The generator named in the metadata.
    pub generator: String,
    /// The collection the document belongs to: the name of its feed.
    pub collection: String,
    /// When the entry was published, as RFC 3339 text.
    pub published: Option<String>,
    /// The description: the summary of the entry where it is short.
    pub description: Option<String>,
    /// The names of the authors.
    pub authors: Vec<String>,
    pub title: String,
    /// The one page of the document.
    pub xhtml: String,
}

/// The mathematical content of an [`EpubDocument`].
pub struct EpubDocumentView {
    pub file_name: Seq<char>,
    pub generator: Seq<char>,
    pub collection: Seq<char>,
    pub published: Option<Seq<char>>,
    pub description: Option<Seq<char>>,
    pub authors: Seq<Seq<char>>,
    pub title: Seq<char>,
    pub xhtml: Seq<char>,
}

impl View for EpubDocument {
    type V = EpubDocumentView;

    open spec fn view(&self) -> EpubDocumentView {
        EpubDocumentView {
            file_name: self.file_name@,
            generator: self.generator@,
            collection: self.collection@,
            published: opt_text(self.published),
            description: opt_text(self.description),
            authors: texts(self.authors@),
            title: self.title@,
            xhtml: self.xhtml@,
        }
    }
}

/// The name of the file for a title: the title with `_` for each `/`.
pub open spec fn file_stem(title: Seq<char>) -> Seq<char> {
    with_char_replaced(title, '/', '_')
}

/// The document for `entry` of the feed `feed_name`, to be written
/// into `download_dir`; or what the entry lacks. An entry without
/// HTML is refused first, then one without a title.
pub open spec fn epub_of(
    feed_name: Seq<char>,
    download_dir: Seq<char>,
    entry: FeedEntryView,
) -> Result<EpubDocumentView, TransformError> {
    match html_of(entry) {
        Err(e) => Err(TransformError::ContentExtractionError(e)),
        Ok(html) => match entry.title {
            None => Err(
                TransformError::ContentExtractionError(EntryConversionError::TitleExtractionError),
            ),
            Some(title) => Ok(
                EpubDocumentView {
                    file_name: download_dir + "/"@ + file_stem(title) + ".epub"@,
                    generator: EPUB_GENERATOR@,
                    collection: feed_name,
                    published: entry.published,
                    description: kept_summary(entry.summary),
                    authors: present_names(entry.authors),
                    title,
                    xhtml: XHTML_HEAD@ + html + XHTML_TAIL@,
                },
            ),
        },
    }
}

/// Plans the document for `entry` of the feed `feed_name`: see
/// [`epub_of`]. Writing the file is left to the caller.
pub fn entry_to_epub(feed_name: &str, download_dir: &str, entry: &FeedEntry) -> (document: Result<
    EpubDocument,
    TransformError,
>)
    ensures
        match epub_of(feed_name@, download_dir@, entry@) {
            Ok(planned) => document.is_ok() && document.unwrap()@ == planned,
            Err(e) => document == Err::<EpubDocument, TransformError>(e),
        },
{
    let html = match extract_html_string_from_entry(entry) {
        Ok(html) => html,
        Err(e) => {
            return Err(TransformError::ContentExtractionError(e));
        },
    };
    let title = match &entry.title {
        Some(title) => title.clone(),
        None => {
            return Err(
                TransformError::ContentExtractionError(EntryConversionError::TitleExtractionError),
            );
        },
    };
    let stem = replace_char(title.as_str(), '/', '_');
    Ok(
        EpubDocument {
            file_name: entry_title_to_file_name(download_dir, stem.as_str()),
            generator: EPUB_GENERATOR.to_owned(),
            collection: feed_name.to_owned(),
            published: entry.published.clone(),
            description: summary_to_keep(&entry.summary),
            authors: author_names(&entry.authors),
            title,
            xhtml: html_string_to_xhtml_epub_string(html.as_str()),
        },
    )
}

} // verus!
