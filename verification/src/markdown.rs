//! Rendering of a page body to HTML, with highlighted code blocks.
//!
//! Parsing and serialization are done by `pulldown-cmark`, highlighting by
//! `syntect`. Between the two, the verified pass of [`crate::markup`] decides
//! which events reach the serializer and which code is highlighted.

use vstd::prelude::*;
use crate::text::{chars_of, matches_at, occurs_at};
use crate::theme::ONE_DARK;
use crate::markup::{
    emitted, initial_state, next_state, Emission, EmissionView, EventTag, EventTagView,
    Interceptor, InterceptorView,
};
use pulldown_cmark::{CodeBlockKind, Event, Tag};
use syntect::highlighting::Theme;
use syntect::parsing::{SyntaxReference, SyntaxSet};

verus! {

#[verifier::external_type_specification]
#[verifier::external_body]
pub struct ExSyntaxSet(SyntaxSet);

#[verifier::external_type_specification]
#[verifier::external_body]
pub struct ExSyntaxReference(SyntaxReference);

#[verifier::external_type_specification]
#[verifier::external_body]
pub struct ExTheme(Theme);

/// One item of the stream handed to the serializer.
#[derive(Debug)]
pub enum Step {
    /// The parser's event at this position, unchanged.
    Keep(usize),
    /// A raw HTML fragment.
    Html(String),
}

/// A step as a mathematical value.
pub enum StepView {
    Keep(int),
    Html(Seq<char>),
}

impl View for Step {
    type V = StepView;

    open spec fn view(&self) -> StepView {
        match self {
            Step::Keep(index) => StepView::Keep(*index as int),
            Step::Html(html) => StepView::Html(html@),
        }
    }
}

/// The events that the parser, with every extension enabled, yields for a
/// source text, each reduced to what the interception pass reads of it.
pub uninterp spec fn markup_events(source: Seq<char>) -> Seq<EventTagView>;

/// The HTML that the serializer writes for a stream of steps over the events
/// of a source text.
pub uninterp spec fn serialized_html(source: Seq<char>, steps: Seq<StepView>) -> Seq<char>;

/// The syntax that a syntax set finds for a language token, if it finds one.
pub uninterp spec fn found_syntax(syntaxes: SyntaxSet, token: Seq<char>) -> Option<SyntaxReference>;

/// What the interception of deep nesting reads of one item of a property
/// list.
#[derive(Clone, Copy, Debug, PartialEq, Eq, Structural)]
pub enum Mark {
    /// An array or a dictionary opens.
    Open,
    /// An array or a dictionary closes.
    Close,
    /// A value that holds no others.
    Leaf,
}

/// The items that the property-list reader yields for a text before its
/// first error or the end of the text, each reduced to a mark.
pub uninterp spec fn plist_marks(definition: Seq<char>) -> Seq<Mark>;

/// The first characters of a property list in binary form.
pub const BINARY_MAGIC: &'static str = "bplist00";

/// How deep the arrays and dictionaries of a theme definition may nest.
pub const MAX_THEME_NESTING: usize = 64;

/// How many arrays and dictionaries are open after the first `n` marks.
pub open spec fn depth_after(marks: Seq<Mark>, n: nat) -> int
    decreases n,
{
    if n == 0 {
        0
    } else {
        depth_after(marks, (n - 1) as nat) + match marks[n - 1] {
            Mark::Open => 1int,
            Mark::Close => -1int,
            Mark::Leaf => 0int,
        }
    }
}

/// Whether no more than `limit` arrays and dictionaries are ever open at
/// once.
pub open spec fn nesting_within(marks: Seq<Mark>, limit: int) -> bool {
    forall|n: nat| n <= marks.len() ==> #[trigger] depth_after(marks, n) <= limit
}

/// Whether a definition is one that is handed to the theme loader: not in
/// binary form, and nested no deeper than `MAX_THEME_NESTING`.
pub open spec fn is_loadable(definition: Seq<char>) -> bool {
    &&& !occurs_at(definition, BINARY_MAGIC@, 0)
    &&& nesting_within(plist_marks(definition), MAX_THEME_NESTING as int)
}

/// The HTML fragment that the highlighter writes for a piece of code, with
/// a syntax of a syntax set and a theme.
pub uninterp spec fn highlighted_html(
    syntaxes: SyntaxSet,
    theme: Theme,
    syntax: SyntaxReference,
    code: Seq<char>,
) -> Seq<char>;

/// A sequence of events as mathematical values.
pub open spec fn tags_view(tags: Seq<EventTag>) -> Seq<EventTagView> {
    tags.map_values(|tag: EventTag| tag@)
}

/// A sequence of steps as mathematical values.
pub open spec fn steps_view(steps: Seq<Step>) -> Seq<StepView> {
    steps.map_values(|step: Step| step@)
}

/// `pulldown_cmark::Parser::new_ext` with `Options::all()`, run to its end.
/// The contract names the event sequence as a function of the source text and
/// claims nothing else of it.
#[verifier::external_body]
fn scan_events(markdown: &str) -> (tags: Vec<EventTag>)
    ensures
        tags_view(tags@) == markup_events(markdown@),
{
    pulldown_cmark::Parser::new_ext(markdown, pulldown_cmark::Options::all())
        .map(|event| match event {
            Event::Start(Tag::CodeBlock(CodeBlockKind::Fenced(language))) => {
                EventTag::FenceStart(language.to_string())
            },
            Event::End(Tag::CodeBlock(CodeBlockKind::Fenced(_))) => EventTag::FenceEnd,
            Event::Text(text) => EventTag::Text(text.to_string()),
            _ => EventTag::Other,
        })
        .collect()
}

/// `pulldown_cmark::html::push_html` over the parser's events for `markdown`,
/// selected and interleaved with raw HTML as `steps` say. The contract names
/// the written HTML as a function of the source text and the steps.
#[verifier::external_body]
fn serialize(markdown: &str, steps: &Vec<Step>) -> (html: String)
    requires
        forall|k: int|
            0 <= k < steps.len() ==> (#[trigger] steps[k] matches Step::Keep(index) ==> index
                < markup_events(markdown@).len()),
    ensures
        html@ == serialized_html(markdown@, steps_view(steps@)),
{
    let events: Vec<Event> =
        pulldown_cmark::Parser::new_ext(markdown, pulldown_cmark::Options::all()).collect();
    let stream = steps.iter().map(|step| match step {
        Step::Keep(index) => events[*index].clone(),
        Step::Html(html) => Event::Html(html.as_str().into()),
    });
    let mut html = String::new();
    pulldown_cmark::html::push_html(&mut html, stream);
    html
}

/// `SyntaxSet::load_defaults_newlines`: the syntax definitions shipped with
/// the highlighter. Nothing is claimed of them. Loading enters their scope
/// names into a table that the whole process shares and that has room for a
/// limited number of names; this crate loads the syntaxes before any theme,
/// whose names then come second.
#[verifier::external_body]
fn load_default_syntaxes() -> SyntaxSet {
    SyntaxSet::load_defaults_newlines()
}

/// `plist::stream::Reader`, the reader behind the theme loader, run up to
/// its first error or its end. The contract names the sequence of marks as
/// a function of the text. A text in binary form is left out: such a list
/// may yield far more items than it has bytes.
#[verifier::external_body]
fn scan_plist(definition: &str) -> (marks: Vec<Mark>)
    requires
        !occurs_at(definition@, BINARY_MAGIC@, 0),
    ensures
        marks@ == plist_marks(definition@),
{
    plist::stream::Reader::new(std::io::Cursor::new(definition.as_bytes()))
        .map_while(Result::ok)
        .map(|event| match event {
            plist::stream::Event::StartArray(_) => Mark::Open,
            plist::stream::Event::StartDictionary(_) => Mark::Open,
            plist::stream::Event::EndCollection => Mark::Close,
            _ => Mark::Leaf,
        })
        .collect()
}

/// `ThemeSet::load_from_reader` on a theme definition held in memory.
/// Whether a definition loads depends on more than its text, so nothing is
/// claimed of the outcome. The loader calls itself once for every array and
/// dictionary that is open in the reader's items, so the definition must
/// not nest deeply; and it is not given a text in binary form. The syntax
/// set is asked for as the token that the syntaxes were loaded first.
#[verifier::external_body]
fn load_theme(definition: &str, loaded: &SyntaxSet) -> Option<Theme>
    requires
        is_loadable(definition@),
{
    let _ = loaded;
    syntect::highlighting::ThemeSet::load_from_reader(&mut std::io::Cursor::new(definition)).ok()
}

/// `SyntaxSet::find_syntax_by_token`, which looks a token up among the file
/// extensions of the syntaxes and then among their names. The contract names
/// the outcome as a function of the syntax set and the token.
#[verifier::external_body]
fn find_syntax<'a>(syntaxes: &'a SyntaxSet, token: &str) -> (found: Option<&'a SyntaxReference>)
    ensures
        match found {
            Some(syntax) => found_syntax(*syntaxes, token@) == Some(*syntax),
            None => found_syntax(*syntaxes, token@) is None,
        },
{
    syntaxes.find_syntax_by_token(token)
}

/// `syntect::html::highlighted_html_for_string`, for a syntax that the
/// syntax set itself has found. The contract names the fragment as a function
/// of the syntax set, the theme, the syntax and the code.
#[verifier::external_body]
fn highlight(syntaxes: &SyntaxSet, theme: &Theme, syntax: &SyntaxReference, code: &str) -> (html:
    String)
    requires
        exists|token: Seq<char>| found_syntax(*syntaxes, token) == Some(*syntax),
    ensures
        html@ == highlighted_html(*syntaxes, *theme, *syntax, code@),
{
    syntect::html::highlighted_html_for_string(code, syntaxes, syntax, theme)
}

/// Says whether no more than `limit` arrays and dictionaries are ever open
/// at once.
pub fn nesting_is_within(marks: &Vec<Mark>, limit: usize) -> (within: bool)
    ensures
        within == nesting_within(marks@, limit as int),
{
    let mut depth: i128 = 0;
    let mut i: usize = 0;
    while i < marks.len()
        invariant
            i <= marks.len(),
            depth == depth_after(marks@, i as nat),
            -(i as int) <= depth <= i,
            forall|n: nat| n <= i ==> #[trigger] depth_after(marks@, n) <= limit,
        decreases marks.len() - i,
    {
        match marks[i] {
            Mark::Open => {
                depth = depth + 1;
            },
            Mark::Close => {
                depth = depth - 1;
            },
            Mark::Leaf => {},
        }
        i += 1;
        assert(depth == depth_after(marks@, i as nat));
        if depth > limit as i128 {
            return false;
        }
        assert forall|n: nat| n <= i implies #[trigger] depth_after(marks@, n) <= limit by {
            if n < i {
            }
        }
    }
    true
}

/// The stream that passes the first `n` events through unchanged.
pub open spec fn keep_all(n: nat) -> Seq<StepView> {
    Seq::new(n, |i: int| StepView::Keep(i))
}

/// The text runs among the events from position `from` up to, and not
/// including, position `to`, joined in order.
pub open spec fn collected_text(tags: Seq<EventTagView>, from: int, to: int) -> Seq<char>
    decreases to - from,
{
    if to <= from {
        seq![]
    } else {
        collected_text(tags, from, to - 1) + match tags[to - 1] {
            EventTagView::Text(text) => text,
            _ => seq![],
        }
    }
}

/// Renders page bodies with one fixed colour theme.
pub struct MarkdownRenderer {
    theme: Theme,
    syntax_set: SyntaxSet,
}

impl MarkdownRenderer {
    /// Whether the renderer highlights code blocks tagged with this language.
    pub closed spec fn knows(&self, language: Seq<char>) -> bool {
        found_syntax(self.syntax_set, language) is Some
    }

    /// The fragment that replaces a code block of a known language.
    pub closed spec fn highlighted(&self, language: Seq<char>, code: Seq<char>) -> Seq<char> {
        highlighted_html(
            self.syntax_set,
            self.theme,
            found_syntax(self.syntax_set, language)->0,
            code,
        )
    }

    /// The theme that the renderer colours code with.
    pub closed spec fn theme(&self) -> Theme {
        self.theme
    }

    /// Whether an event opens a code block that the renderer will highlight.
    pub open spec fn opens_known_block(&self, tag: EventTagView) -> bool {
        match tag {
            EventTagView::FenceStart(language) => language.len() > 0 && self.knows(language),
            _ => false,
        }
    }

    /// The state of the interception pass after the first `n` events.
    pub open spec fn state_after(&self, tags: Seq<EventTagView>, n: nat) -> InterceptorView
        decreases n,
    {
        if n == 0 {
            initial_state()
        } else {
            let tag = tags[n - 1];
            next_state(self.state_after(tags, (n - 1) as nat), tag, self.opens_known_block(tag))
        }
    }

    /// What the pass hands out for the event at position `index`.
    pub open spec fn emitted_at(&self, tags: Seq<EventTagView>, index: int) -> EmissionView {
        let tag = tags[index];
        emitted(self.state_after(tags, index as nat), tag, self.opens_known_block(tag))
    }

    /// The steps that one emission contributes to the serializer's stream.
    pub open spec fn steps_for(&self, emission: EmissionView, index: int) -> Seq<StepView> {
        match emission {
            EmissionView::Nothing => seq![],
            EmissionView::Keep => seq![StepView::Keep(index)],
            EmissionView::Highlight { language, code } => seq![
                StepView::Html(self.highlighted(language, code)),
            ],
        }
    }

    /// The serializer's stream for the first `n` events.
    pub open spec fn steps_after(&self, tags: Seq<EventTagView>, n: nat) -> Seq<StepView>
        decreases n,
    {
        if n == 0 {
            seq![]
        } else {
            self.steps_after(tags, (n - 1) as nat) + self.steps_for(
                self.emitted_at(tags, n - 1),
                n - 1,
            )
        }
    }

    /// The HTML that the renderer produces for a body.
    pub open spec fn rendering(&self, source: Seq<char>) -> Seq<char> {
        let tags = markup_events(source);
        serialized_html(source, self.steps_after(tags, tags.len()))
    }

    /// The HTML of a body whose events all reach the serializer as the
    /// parser yields them: what the parser and the serializer produce on
    /// their own.
    pub open spec fn baseline_html(source: Seq<char>) -> Seq<char> {
        serialized_html(source, keep_all(markup_events(source).len()))
    }

    /// The syntax definitions that the renderer looks languages up in.
    pub closed spec fn syntaxes(&self) -> SyntaxSet {
        self.syntax_set
    }

    /// A renderer with the default syntax definitions and the built-in
    /// theme, One Dark; `None` if that theme does not load.
    pub fn new() -> (renderer: Option<MarkdownRenderer>)
        ensures
            !is_loadable(ONE_DARK@) ==> renderer is None,
    {
        MarkdownRenderer::with_theme(ONE_DARK)
    }

    /// A renderer with the default syntax definitions and the theme given
    /// by a theme definition text. A text in binary form, or one that nests
    /// deeper than `MAX_THEME_NESTING`, is refused without being loaded;
    /// any other text gives a renderer exactly if the loader accepts it.
    pub fn with_theme(theme_definition: &str) -> (renderer: Option<MarkdownRenderer>)
        ensures
            !is_loadable(theme_definition@) ==> renderer is None,
    {
        let chars = chars_of(theme_definition);
        let magic = chars_of(BINARY_MAGIC);
        if matches_at(&chars, &magic, 0) {
            return None;
        }
        let marks = scan_plist(theme_definition);
        if !nesting_is_within(&marks, MAX_THEME_NESTING) {
            return None;
        }
        let syntax_set = load_default_syntaxes();
        let theme = load_theme(theme_definition, &syntax_set);
        MarkdownRenderer::from_parts(syntax_set, theme)
    }

    /// A renderer with the given syntax definitions and theme, if there is
    /// a theme.
    pub fn from_parts(syntax_set: SyntaxSet, theme: Option<Theme>) -> (renderer: Option<
        MarkdownRenderer,
    >)
        ensures
            match theme {
                Some(theme) => renderer is Some && renderer->0.theme() == theme
                    && renderer->0.syntaxes() == syntax_set,
                None => renderer is None,
            },
    {
        match theme {
            Some(theme) => Some(MarkdownRenderer { theme, syntax_set }),
            None => None,
        }
    }

    /// Renders a body to HTML. Every event of the parser reaches the
    /// serializer unchanged and in order, except that each fenced code block
    /// of a known language is replaced by one highlighted fragment.
    pub fn render(&self, markdown: &str) -> (html: String)
        ensures
            html@ == self.rendering(markdown@),
    {
        let tags = scan_events(markdown);
        let ghost events = markup_events(markdown@);
        let mut pass = Interceptor::new();
        let mut steps: Vec<Step> = Vec::new();
        let mut i: usize = 0;
        while i < tags.len()
            invariant
                i <= tags.len(),
                tags_view(tags@) == events,
                events == markup_events(markdown@),
                pass@ == self.state_after(events, i as nat),
                steps_view(steps@) == self.steps_after(events, i as nat),
                pass@.active matches Some(language) ==> self.knows(language),
                forall|k: int|
                    0 <= k < steps.len() ==> (#[trigger] steps[k] matches Step::Keep(index)
                        ==> index < tags.len()),
            decreases tags.len() - i,
        {
            let tag = &tags[i];
            assert(tag@ == events[i as int]);
            let known = match tag {
                EventTag::FenceStart(language) => !language.as_str().is_empty() && find_syntax(
                    &self.syntax_set,
                    language.as_str(),
                ).is_some(),
                _ => false,
            };
            assert(known == self.opens_known_block(tag@));
            let ghost before = steps_view(steps@);
            match pass.step(tag, known) {
                Emission::Nothing => {},
                Emission::Keep => {
                    steps.push(Step::Keep(i));
                    assert(steps_view(steps@) =~= before + seq![StepView::Keep(i as int)]);
                },
                Emission::Highlight { language, code } => {
                    let syntax = find_syntax(&self.syntax_set, language.as_str()).unwrap();
                    let fragment = highlight(&self.syntax_set, &self.theme, syntax, code.as_str());
                    steps.push(Step::Html(fragment));
                    assert(steps_view(steps@) =~= before + seq![StepView::Html(fragment@)]);
                },
            }
            i += 1;
        }
        assert(tags.len() == events.len());
        serialize(markdown, &steps)
    }
}

/// As long as no event opens a block of a known language, nothing is
/// collected and every event is passed through.
pub proof fn lemma_plain_events_all_kept(renderer: MarkdownRenderer, tags: Seq<EventTagView>, n: nat)
    requires
        n <= tags.len(),
        forall|i: int| 0 <= i < n ==> !renderer.opens_known_block(#[trigger] tags[i]),
    ensures
        renderer.state_after(tags, n) == initial_state(),
        renderer.steps_after(tags, n) == keep_all(n),
    decreases n,
{
    if n > 0 {
        lemma_plain_events_all_kept(renderer, tags, (n - 1) as nat);
        assert(!renderer.opens_known_block(tags[n - 1]));
        assert(renderer.steps_after(tags, n) =~= keep_all(n));
    } else {
        assert(renderer.steps_after(tags, n) =~= keep_all(n));
    }
}

/// A body without fenced code blocks renders to what the parser and the
/// serializer produce on their own.
pub proof fn lemma_body_without_fences_is_baseline(renderer: MarkdownRenderer, source: Seq<char>)
    requires
        forall|i: int|
            0 <= i < markup_events(source).len() ==> !(#[trigger] markup_events(source)[i]
                is FenceStart),
    ensures
        renderer.rendering(source) == MarkdownRenderer::baseline_html(source),
{
    let tags = markup_events(source);
    lemma_plain_events_all_kept(renderer, tags, tags.len());
}

/// A body whose fenced code blocks all have an empty language tag, or one
/// that the highlighter does not know, renders to what the parser and the
/// serializer produce on their own.
pub proof fn lemma_unknown_languages_are_baseline(renderer: MarkdownRenderer, source: Seq<char>)
    requires
        forall|i: int|
            0 <= i < markup_events(source).len() ==> (#[trigger] markup_events(source)[i]
                matches EventTagView::FenceStart(language) ==> language.len() == 0
                || !renderer.knows(language)),
    ensures
        renderer.rendering(source) == MarkdownRenderer::baseline_html(source),
{
    let tags = markup_events(source);
    lemma_plain_events_all_kept(renderer, tags, tags.len());
}

/// An event reaches the serializer exactly if the pass kept it.
pub proof fn lemma_kept_events(
    renderer: MarkdownRenderer,
    tags: Seq<EventTagView>,
    n: nat,
    index: int,
)
    requires
        n <= tags.len(),
    ensures
        renderer.steps_after(tags, n).contains(StepView::Keep(index)) <==> 0 <= index < n
            && renderer.emitted_at(tags, index) == EmissionView::Keep,
    decreases n,
{
    if n > 0 {
        let earlier = renderer.steps_after(tags, (n - 1) as nat);
        let added = renderer.steps_for(renderer.emitted_at(tags, n - 1), n - 1);
        let all = renderer.steps_after(tags, n);
        lemma_kept_events(renderer, tags, (n - 1) as nat, index);
        assert(all == earlier + added);
        if all.contains(StepView::Keep(index)) {
            let at = choose|at: int| 0 <= at < all.len() && all[at] == StepView::Keep(index);
            if at < earlier.len() {
                assert(earlier[at] == StepView::Keep(index));
            } else {
                assert(added[at - earlier.len()] == StepView::Keep(index));
            }
        }
        if earlier.contains(StepView::Keep(index)) {
            let at = choose|at: int|
                0 <= at < earlier.len() && earlier[at] == StepView::Keep(index);
            assert(all[at] == StepView::Keep(index));
        }
        if index == n - 1 && renderer.emitted_at(tags, index) == EmissionView::Keep {
            assert(all[earlier.len() as int] == StepView::Keep(index));
        }
    }
}

/// While a block of a known language is open and only text follows, the
/// text is collected and nothing is handed to the serializer.
proof fn lemma_collecting(
    renderer: MarkdownRenderer,
    tags: Seq<EventTagView>,
    start: int,
    language: Seq<char>,
    upto: int,
)
    requires
        0 <= start < upto <= tags.len(),
        tags[start] == EventTagView::FenceStart(language),
        renderer.opens_known_block(tags[start]),
        forall|k: int| start < k < upto ==> #[trigger] tags[k] is Text,
    ensures
        renderer.state_after(tags, upto as nat) == (InterceptorView {
            active: Some(language),
            buffer: renderer.state_after(tags, start as nat).buffer + collected_text(
                tags,
                start + 1,
                upto,
            ),
        }),
        renderer.steps_after(tags, upto as nat) == renderer.steps_after(tags, start as nat),
    decreases upto - start,
{
    let before = renderer.state_after(tags, start as nat);
    if upto == start + 1 {
        assert(collected_text(tags, start + 1, upto) =~= Seq::<char>::empty());
        assert(before.buffer + collected_text(tags, start + 1, upto) =~= before.buffer);
        assert(renderer.steps_after(tags, upto as nat) =~= renderer.steps_after(
            tags,
            start as nat,
        ));
    } else {
        lemma_collecting(renderer, tags, start, language, upto - 1);
        assert(tags[upto - 1] is Text);
        let text = tags[upto - 1]->Text_0;
        assert(collected_text(tags, start + 1, upto) == collected_text(tags, start + 1, upto - 1)
            + text);
        assert(before.buffer + collected_text(tags, start + 1, upto) =~= (before.buffer
            + collected_text(tags, start + 1, upto - 1)) + text);
        assert(renderer.steps_after(tags, upto as nat) =~= renderer.steps_after(
            tags,
            start as nat,
        ));
    }
}

/// A fenced code block of a known language never reaches the serializer as
/// it is: its start, its text runs and its end are withheld, and in their
/// place stands one fragment, the highlighter's rendering of the joined text.
pub proof fn lemma_known_block_is_replaced(
    renderer: MarkdownRenderer,
    tags: Seq<EventTagView>,
    start: int,
    end: int,
    language: Seq<char>,
)
    requires
        0 <= start < end < tags.len(),
        tags[start] == EventTagView::FenceStart(language),
        language.len() > 0,
        renderer.knows(language),
        forall|k: int| start < k < end ==> #[trigger] tags[k] is Text,
        tags[end] is FenceEnd,
    ensures
        renderer.steps_after(tags, (end + 1) as nat) == renderer.steps_after(tags, start as nat)
            + seq![
            StepView::Html(
                renderer.highlighted(
                    language,
                    renderer.state_after(tags, start as nat).buffer + collected_text(
                        tags,
                        start + 1,
                        end,
                    ),
                ),
            ),
        ],
        renderer.state_after(tags, (end + 1) as nat) == initial_state(),
        forall|k: int|
            start <= k <= end ==> !renderer.steps_after(tags, tags.len()).contains(
                StepView::Keep(k),
            ),
{
    lemma_collecting(renderer, tags, start, language, end);
    assert forall|k: int| start <= k <= end implies !renderer.steps_after(
        tags,
        tags.len(),
    ).contains(StepView::Keep(k)) by {
        lemma_kept_events(renderer, tags, tags.len(), k);
        if start < k < end {
            lemma_collecting(renderer, tags, start, language, k);
        }
    }
}

} // verus!
