//! Site-wide configuration.

use vstd::prelude::*;
use crate::context::SiteContext;
use crate::error::{BuildError, FlawView};
use crate::fields::{document_fields, optional_text, required_text, FieldView, Table};

verus! {

/// Global site configuration.
#[derive(Debug)]
pub struct SiteConfig {
    /// Title of the site.
    pub title: String,
    /// Site's tagline.
    pub tagline: String,
    /// Site's domain.
    pub domain: String,
    /// Directory to output the generated site to.
    pub output_dir: String,
    /// Directory where pages are stored.
    pub content_dir: String,
}

/// The output directory used when the configuration names none.
pub fn default_output_dir() -> (dir: String)
    ensures
        dir@ == "public"@,
{
    "public".to_owned()
}

/// The content directory used when the configuration names none.
pub fn default_content_dir() -> (dir: String)
    ensures
        dir@ == "content"@,
{
    "content".to_owned()
}

/// A site configuration as a mathematical value.
pub struct SiteConfigView {
    pub title: Seq<char>,
    pub tagline: Seq<char>,
    pub domain: Seq<char>,
    pub output_dir: Seq<char>,
    pub content_dir: Seq<char>,
}

impl View for SiteConfig {
    type V = SiteConfigView;

    open spec fn view(&self) -> SiteConfigView {
        SiteConfigView {
            title: self.title@,
            tagline: self.tagline@,
            domain: self.domain@,
            output_dir: self.output_dir@,
            content_dir: self.content_dir@,
        }
    }
}

/// The configuration that a table of fields states, or the first flaw in
/// it: `title`, `tagline` and `domain` are required strings; `output_dir`
/// and `content_dir` are optional strings that default to `public` and
/// `content`. The fields are looked at in this order.
pub open spec fn site_config_of(entries: Seq<(Seq<char>, FieldView)>) -> Result<
    SiteConfigView,
    FlawView,
> {
    match required_text(entries, "title"@) {
        Err(flaw) => Err(flaw),
        Ok(title) => match required_text(entries, "tagline"@) {
            Err(flaw) => Err(flaw),
            Ok(tagline) => match required_text(entries, "domain"@) {
                Err(flaw) => Err(flaw),
                Ok(domain) => match optional_text(entries, "output_dir"@) {
                    Err(flaw) => Err(flaw),
                    Ok(output_dir) => match optional_text(entries, "content_dir"@) {
                        Err(flaw) => Err(flaw),
                        Ok(content_dir) => Ok(
                            SiteConfigView {
                                title,
                                tagline,
                                domain,
                                output_dir: match output_dir {
                                    Some(dir) => dir,
                                    None => "public"@,
                                },
                                content_dir: match content_dir {
                                    Some(dir) => dir,
                                    None => "content"@,
                                },
                            },
                        ),
                    },
                },
            },
        },
    }
}

/// The configuration that a configuration text states, or why it cannot be
/// read.
pub open spec fn parsed_site_config(text: Seq<char>) -> Result<SiteConfigView, FlawView> {
    match document_fields(text) {
        Ok(entries) => site_config_of(entries),
        Err(flaw) => Err(flaw),
    }
}

impl SiteConfig {
    /// Reads the site configuration.
    pub fn parse(text: &str) -> (outcome: Result<SiteConfig, BuildError>)
        ensures
            match outcome {
                Ok(config) => parsed_site_config(text@) matches Ok(stated) && stated == config@,
                Err(BuildError::ConfigError { reason }) => parsed_site_config(text@) matches Err(
                    flaw,
                ) && flaw == reason@,
                Err(_) => false,
            },
    {
        let table = match Table::parse(text) {
            Ok(table) => table,
            Err(reason) => return Err(BuildError::ConfigError { reason }),
        };
        let title = match table.text("title") {
            Ok(title) => title,
            Err(reason) => return Err(BuildError::ConfigError { reason }),
        };
        let tagline = match table.text("tagline") {
            Ok(tagline) => tagline,
            Err(reason) => return Err(BuildError::ConfigError { reason }),
        };
        let domain = match table.text("domain") {
            Ok(domain) => domain,
            Err(reason) => return Err(BuildError::ConfigError { reason }),
        };
        let output_dir = match table.text_if_present("output_dir") {
            Ok(Some(dir)) => dir,
            Ok(None) => default_output_dir(),
            Err(reason) => return Err(BuildError::ConfigError { reason }),
        };
        let content_dir = match table.text_if_present("content_dir") {
            Ok(Some(dir)) => dir,
            Ok(None) => default_content_dir(),
            Err(reason) => return Err(BuildError::ConfigError { reason }),
        };
        Ok(SiteConfig { title, tagline, domain, output_dir, content_dir })
    }

    /// What the templates are told of the site.
    pub fn site_context(&self) -> (context: SiteContext)
        ensures
            context.title@ == self.title@,
            context.tagline@ == self.tagline@,
    {
        SiteContext { title: self.title.clone(), tagline: self.tagline.clone() }
    }
}

} // verus!
