//! The context of one build pass, and where each content file is written.

use vstd::prelude::*;
use crate::error::BuildError;
use crate::markdown::MarkdownRenderer;
use crate::path::{joined, SitePath};

verus! {

/// The file name of a markup file that is written in place, without a
/// directory of its own.
pub const INDEX_PAGE: &'static str = "index.md";

/// The file name of every generated HTML page.
pub const INDEX_HTML: &'static str = "index.html";

/// What every template is told of the site.
#[derive(Debug)]
pub struct SiteContext {
    pub title: String,
    pub tagline: String,
}

/// The configuration of one build pass.
pub struct BuildContext {
    /// Root of the generated site.
    pub output_dir: SitePath,
    /// Root of the content tree.
    pub content_dir: SitePath,
    pub site_context: SiteContext,
    pub markdown_renderer: MarkdownRenderer,
}

impl BuildContext {
    /// The place in the output tree that mirrors a place in the content
    /// tree; `None` for a path that is not under the content root.
    pub open spec fn output_of(&self, content: Seq<Seq<char>>) -> Option<Seq<Seq<char>>> {
        if self.content_dir@.is_prefix_of(content) {
            Some(self.output_dir@ + content.skip(self.content_dir@.len() as int))
        } else {
            None
        }
    }

    /// The output file of a markup file. The index page keeps its place and
    /// name; any other page becomes the `index.html` of a directory named by
    /// its slug.
    pub open spec fn page_output(&self, page: Seq<Seq<char>>, slug: Seq<char>) -> Option<
        Seq<Seq<char>>,
    > {
        match self.output_of(page) {
            Some(mirrored) if page.len() > self.content_dir@.len() => {
                let dir = mirrored.drop_last();
                if page.last() == INDEX_PAGE@ {
                    Some(dir.push(INDEX_HTML@))
                } else {
                    Some(dir.push(slug).push(INDEX_HTML@))
                }
            },
            _ => None,
        }
    }

    /// The public link of an output file: its directory, relative to the
    /// output root.
    pub open spec fn link_of(&self, out_path: Seq<Seq<char>>) -> Option<Seq<char>> {
        if self.output_dir@.is_prefix_of(out_path) && out_path.len() > self.output_dir@.len() {
            Some(joined(out_path.skip(self.output_dir@.len() as int).drop_last()))
        } else {
            None
        }
    }

    /// Where the index page of a content directory is written: the
    /// `index.html` of the directory's place in the output tree.
    pub open spec fn index_output(&self, dir: Seq<Seq<char>>) -> Option<Seq<Seq<char>>> {
        match self.output_of(dir) {
            Some(mirrored) => Some(mirrored.push(INDEX_HTML@)),
            None => None,
        }
    }

    /// Maps a path in the content tree to the same place in the output tree.
    pub fn output_path(&self, content: &SitePath) -> (outcome: Result<SitePath, BuildError>)
        ensures
            match outcome {
                Ok(mirrored) => self.output_of(content@) == Some(mirrored@),
                Err(BuildError::PathError { path }) => self.output_of(content@) is None && path@
                    == content@,
                Err(_) => false,
            },
    {
        if content.starts_with(&self.content_dir) {
            let rest = content.tail(self.content_dir.len());
            Ok(self.output_dir.join(&rest))
        } else {
            Err(BuildError::PathError { path: content.duplicate() })
        }
    }

    /// The output file of the markup file at `page` with the given slug.
    pub fn page_path(&self, page: &SitePath, slug: &str) -> (outcome: Result<SitePath, BuildError>)
        ensures
            match outcome {
                Ok(out_path) => self.page_output(page@, slug@) == Some(out_path@),
                Err(BuildError::PathError { path }) => self.page_output(page@, slug@) is None
                    && path@ == page@,
                Err(_) => false,
            },
    {
        let mirrored = self.output_path(page)?;
        if page.len() <= self.content_dir.len() {
            return Err(BuildError::PathError { path: page.duplicate() });
        }
        let is_index = match page.file_name() {
            Some(name) => *name == INDEX_PAGE.to_owned(),
            None => false,
        };
        match mirrored.parent() {
            Some(dir) => {
                if is_index {
                    Ok(dir.child(INDEX_HTML))
                } else {
                    Ok(dir.child(slug).child(INDEX_HTML))
                }
            },
            None => Err(BuildError::PathError { path: page.duplicate() }),
        }
    }

    /// The public link of an output file.
    pub fn link(&self, out_path: &SitePath) -> (outcome: Result<String, BuildError>)
        ensures
            match outcome {
                Ok(link) => self.link_of(out_path@) == Some(link@),
                Err(BuildError::PathError { path }) => self.link_of(out_path@) is None && path@
                    == out_path@,
                Err(_) => false,
            },
    {
        if out_path.starts_with(&self.output_dir) && out_path.len() > self.output_dir.len() {
            let relative = out_path.tail(self.output_dir.len());
            match relative.parent() {
                Some(dir) => Ok(dir.to_text()),
                None => Err(BuildError::PathError { path: out_path.duplicate() }),
            }
        } else {
            Err(BuildError::PathError { path: out_path.duplicate() })
        }
    }

    /// The output file of the index page of a content directory.
    pub fn index_path(&self, dir: &SitePath) -> (outcome: Result<SitePath, BuildError>)
        ensures
            match outcome {
                Ok(out_path) => self.index_output(dir@) == Some(out_path@),
                Err(BuildError::PathError { path }) => self.index_output(dir@) is None && path@
                    == dir@,
                Err(_) => false,
            },
    {
        let mirrored = self.output_path(dir)?;
        Ok(mirrored.child(INDEX_HTML))
    }
}

/// The index page never gets a directory of its own: it is written beside
/// the place that mirrors it, under the name of every generated page, and
/// its output path is no deeper than the file itself.
pub proof fn lemma_index_page_stays_in_place(
    context: BuildContext,
    page: Seq<Seq<char>>,
    slug: Seq<char>,
)
    requires
        context.page_output(page, slug) is Some,
        page.last() == INDEX_PAGE@,
    ensures
        ({
            let out_path = context.page_output(page, slug)->0;
            let mirrored = context.output_of(page)->0;
            &&& out_path.len() == mirrored.len()
            &&& out_path.drop_last() == mirrored.drop_last()
            &&& out_path.last() == INDEX_HTML@
        }),
{
    let out_path = context.page_output(page, slug)->0;
    let mirrored = context.output_of(page)->0;
    assert(out_path.drop_last() =~= mirrored.drop_last());
}

/// Any page but the index page is written as the `index.html` of a
/// directory of its own, one level below the place that mirrors its
/// directory, and named by the slug: its output path ends in the slug and
/// `index.html`.
pub proof fn lemma_page_path_ends_in_slug(context: BuildContext, page: Seq<Seq<char>>, slug: Seq<char>)
    requires
        context.page_output(page, slug) is Some,
        page.last() != INDEX_PAGE@,
    ensures
        ({
            let out_path = context.page_output(page, slug)->0;
            let mirrored = context.output_of(page)->0;
            &&& out_path.len() == mirrored.len() + 1
            &&& out_path.take(mirrored.len() - 1) == mirrored.drop_last()
            &&& out_path[out_path.len() - 2] == slug
            &&& out_path.last() == INDEX_HTML@
        }),
{
    let out_path = context.page_output(page, slug)->0;
    let mirrored = context.output_of(page)->0;
    assert(out_path.take(mirrored.len() - 1) =~= mirrored.drop_last());
}

/// Two pages, neither of them an index page, are written to the same file
/// only if they lie in the same directory and have the same slug.
pub proof fn lemma_same_output_same_place(
    context: BuildContext,
    first: Seq<Seq<char>>,
    first_slug: Seq<char>,
    second: Seq<Seq<char>>,
    second_slug: Seq<char>,
)
    requires
        context.page_output(first, first_slug) is Some,
        context.page_output(second, second_slug) is Some,
        first.last() != INDEX_PAGE@,
        second.last() != INDEX_PAGE@,
        context.page_output(first, first_slug) == context.page_output(second, second_slug),
    ensures
        first.drop_last() == second.drop_last(),
        first_slug == second_slug,
{
    let out_path = context.page_output(first, first_slug)->0;
    let root = context.content_dir@;
    let out_root = context.output_dir@;
    lemma_page_path_ends_in_slug(context, first, first_slug);
    lemma_page_path_ends_in_slug(context, second, second_slug);
    assert(first.len() == second.len());
    assert forall|k: int| 0 <= k < first.len() - 1 implies first[k] == second[k] by {
        if k < root.len() {
            assert(first.subrange(0, root.len() as int)[k] == root[k]);
            assert(second.subrange(0, root.len() as int)[k] == root[k]);
        } else {
            let at = out_root.len() + (k - root.len());
            assert(out_path[at] == first.skip(root.len() as int)[k - root.len()]);
            assert(out_path[at] == second.skip(root.len() as int)[k - root.len()]);
        }
    }
    assert(first.drop_last() =~= second.drop_last());
}

/// Every output path lies under the output root.
pub proof fn lemma_output_under_root(context: BuildContext, page: Seq<Seq<char>>, slug: Seq<char>)
    requires
        context.page_output(page, slug) is Some,
    ensures
        context.output_dir@.is_prefix_of(context.page_output(page, slug)->0),
        context.link_of(context.page_output(page, slug)->0) is Some,
{
    let out_path = context.page_output(page, slug)->0;
    assert(out_path.subrange(0, context.output_dir@.len() as int) =~= context.output_dir@);
}

} // verus!
