//! Templates: documents that are read from JSON, take a project's metadata and
//! packages, and are rendered to LaTeX by the document model.

use vstd::prelude::*;
use vstd::string::*;
use std::path::PathBuf;
use texcore::template::Template;
use texcore::Element;
use texcore::Input;
use texcore::Package;
use crate::error::Error;
use crate::text::decimal;

verus! {

/// The template of the `texcore` crate. What it holds is known only through
/// `template_metadata` and `template_lines`.
#[verifier::external_type_specification]
#[verifier::external_body]
pub struct ExTemplate(Template);

/// The part of a document that a line of LaTeX belongs to.
pub enum Level {
    /// The preamble, with the document class, title, author and date.
    Meta,
    /// The packages, which are rendered into a file of their own.
    Packages,
    /// The body of the document.
    Document,
}

/// One element of a template as the rendering reads it: where it goes, and its LaTeX.
pub struct Line {
    pub level: Level,
    pub latex: Seq<char>,
}

/// The metadata of a document.
#[derive(Clone, Debug)]
pub struct Metadata {
    pub author: String,
    pub date: String,
    pub title: String,
    pub fontsize: u8,
    pub papersize: String,
    pub doc_class: String,
    pub maketitle: bool,
}

/// The metadata of a document, as plain values.
pub struct MetadataView {
    pub author: Seq<char>,
    pub date: Seq<char>,
    pub title: Seq<char>,
    pub fontsize: u8,
    pub papersize: Seq<char>,
    pub doc_class: Seq<char>,
    pub maketitle: bool,
}

impl View for Metadata {
    type V = MetadataView;

    open spec fn view(&self) -> MetadataView {
        MetadataView {
            author: self.author@,
            date: self.date@,
            title: self.title@,
            fontsize: self.fontsize,
            papersize: self.papersize@,
            doc_class: self.doc_class@,
            maketitle: self.maketitle,
        }
    }
}

/// The metadata that a project has until its author sets them.
pub open spec fn default_metadata() -> MetadataView {
    MetadataView {
        author: "author"@,
        date: "date"@,
        title: "title"@,
        fontsize: 11,
        papersize: "letterpaper"@,
        doc_class: "article"@,
        maketitle: true,
    }
}

impl Metadata {
    /// Makes metadata of their seven values.
    pub fn new(
        author: &str,
        date: &str,
        title: &str,
        fontsize: u8,
        papersize: &str,
        doc_class: &str,
        maketitle: bool,
    ) -> (metadata: Metadata)
        ensures
            metadata@ == (MetadataView {
                author: author@,
                date: date@,
                title: title@,
                fontsize,
                papersize: papersize@,
                doc_class: doc_class@,
                maketitle,
            }),
    {
        Metadata {
            author: String::from_str(author),
            date: String::from_str(date),
            title: String::from_str(title),
            fontsize,
            papersize: String::from_str(papersize),
            doc_class: String::from_str(doc_class),
            maketitle,
        }
    }
}

impl Default for Metadata {
    fn default() -> (metadata: Metadata)
        ensures
            metadata@ == default_metadata(),
    {
        Metadata::new("author", "date", "title", 11, "letterpaper", "article", true)
    }
}

/// The metadata that a template holds.
pub uninterp spec fn template_metadata(template: Template) -> MetadataView;

/// The elements that a template holds, in their order.
pub uninterp spec fn template_lines(template: Template) -> Seq<Line>;

/// What a JSON text holds when it is read as a template: its metadata and its
/// elements, or nothing where the text is no template.
pub uninterp spec fn decoded(json: Seq<char>) -> Option<(MetadataView, Seq<Line>)>;

/// The texts with a line break between each two of them.
pub open spec fn joined(parts: Seq<Seq<char>>) -> Seq<char>
    decreases parts.len(),
{
    if parts.len() == 0 {
        Seq::<char>::empty()
    } else if parts.len() == 1 {
        parts[0]
    } else {
        joined(parts.drop_last()) + "\n"@ + parts.last()
    }
}

/// The LaTeX of the elements of one level, in their order.
pub open spec fn lines_of(lines: Seq<Line>, level: Level) -> Seq<Seq<char>>
    decreases lines.len(),
{
    if lines.len() == 0 {
        Seq::<Seq<char>>::empty()
    } else if lines.last().level == level {
        lines_of(lines.drop_last(), level).push(lines.last().latex)
    } else {
        lines_of(lines.drop_last(), level)
    }
}

/// The LaTeX of the metadata: the class of the document with the size of its font
/// and of its paper, then its title, its author and its date, each on its line.
pub open spec fn metadata_latex(metadata: MetadataView) -> Seq<char> {
    joined(
        seq![
            "\\documentclass["@ + decimal(metadata.fontsize as nat) + "pt, "@ + metadata.papersize
                + "]{"@ + metadata.doc_class + "}"@,
            "\\title{"@ + metadata.title + "}"@,
            "\\author{"@ + metadata.author + "}"@,
            "\\date{"@ + metadata.date + "}"@,
        ],
    )
}

/// The LaTeX that includes the file `input`.
pub open spec fn input_latex(input: Seq<char>) -> Seq<char> {
    "\\input{"@ + input + "}"@
}

/// The lines of the preamble: the metadata, the reference to the included file,
/// and the elements of the preamble.
pub open spec fn meta_lines(metadata: MetadataView, lines: Seq<Line>, input: Seq<char>) -> Seq<
    Seq<char>,
> {
    seq![metadata_latex(metadata), input_latex(input)] + lines_of(lines, Level::Meta)
}

/// The lines of the body: the elements of the document between its begin and its
/// end, after the title where the metadata ask for one.
pub open spec fn document_lines(metadata: MetadataView, lines: Seq<Line>) -> Seq<Seq<char>> {
    seq!["\\begin{document}"@] + (if metadata.maketitle {
        seq!["\\maketitle"@]
    } else {
        Seq::<Seq<char>>::empty()
    }) + lines_of(lines, Level::Document) + seq!["\\end{document}"@]
}

/// The two LaTeX texts of a document with the given metadata and elements: the main
/// text, which is the preamble and then the body and names `input` as the file to
/// include, and the text of the included file, which is the packages.
pub open spec fn split_latex(metadata: MetadataView, lines: Seq<Line>, input: Seq<char>) -> (
    Seq<char>,
    Seq<char>,
) {
    (
        joined(
            seq![
                joined(meta_lines(metadata, lines, input)),
                joined(document_lines(metadata, lines)),
            ],
        ),
        joined(lines_of(lines, Level::Packages)),
    )
}

/// The element that makes a document use the package `name`.
pub open spec fn package_line(name: Seq<char>) -> Line {
    Line { level: Level::Packages, latex: "\\usepackage{"@ + name + "}"@ }
}

/// The elements that make a document use the packages `names`, in their order.
pub open spec fn package_lines(names: Seq<String>) -> Seq<Line> {
    Seq::new(names.len(), |i: int| package_line(names[i]@))
}

/// What a template holds after a project's metadata and packages were merged into
/// what it held: the project's metadata, and the packages after its own elements.
pub open spec fn merged(
    held: (MetadataView, Seq<Line>),
    metadata: MetadataView,
    packages: Seq<String>,
) -> (MetadataView, Seq<Line>) {
    (metadata, held.1 + package_lines(packages))
}

/// `serde_json::from_str` for a template: the template that the text holds, or
/// nothing where it holds none.
#[verifier::external_body]
fn decode(json: &str) -> (r: Option<Template>)
    ensures
        r is Some <==> decoded(json@) is Some,
        r matches Some(template) ==> decoded(json@) == Some(
            (template_metadata(template), template_lines(template)),
        ),
{
    serde_json::from_str::<Template>(json).ok()
}

/// `Template::change_metadata`: the template holds the new metadata and the
/// elements that it held.
#[verifier::external_body]
fn change_metadata(template: &mut Template, metadata: &Metadata)
    ensures
        template_metadata(*final(template)) == metadata@,
        template_lines(*final(template)) == template_lines(*old(template)),
{
    template.change_metadata(
        texcore::Metadata::new(
            &metadata.author,
            &metadata.date,
            &metadata.title,
            metadata.fontsize,
            &metadata.papersize,
            &metadata.doc_class,
            metadata.maketitle,
        ),
    )
}

/// `Template::push_element` with a package: the element is the new last one.
#[verifier::external_body]
fn push_package(template: &mut Template, name: &str)
    ensures
        template_metadata(*final(template)) == template_metadata(*old(template)),
        template_lines(*final(template)) == template_lines(*old(template)).push(
            package_line(name@),
        ),
{
    template.push_element(Element::from(Package::new(name)))
}

/// `Template::to_latex_split_string`, run to its end on a runtime of its own while
/// the caller waits: the two texts of the template, or nothing where no runtime
/// could be started. The main text is the lines of the preamble and then the lines
/// of the body; the other text is the lines of the packages.
#[verifier::external_body]
fn to_latex_split_string(template: &Template, input: &str) -> (r: Option<(String, String)>)
    ensures
        r matches Some(texts) ==> (texts.0@, texts.1@) == split_latex(
            template_metadata(*template),
            template_lines(*template),
            input@,
        ),
{
    let runtime = tokio::runtime::Builder::new_multi_thread().worker_threads(1).build().ok()?;
    let input = Input::new(PathBuf::from(input), Some(texcore::Level::Meta));
    let context = runtime.enter();
    let texts = futures::executor::block_on(template.to_latex_split_string(input));
    drop(context);
    runtime.shutdown_background();
    Some(texts)
}

/// Reads a template from its JSON text.
pub fn parse_template(json: &str) -> (r: Option<Template>)
    ensures
        r is Some <==> decoded(json@) is Some,
        r matches Some(template) ==> decoded(json@) == Some(
            (template_metadata(template), template_lines(template)),
        ),
{
    decode(json)
}

/// Gives a template the metadata of a project and adds the project's packages
/// after the template's own elements, each as often as it is named.
pub fn merge(template: &mut Template, metadata: &Metadata, packages: &Vec<String>)
    ensures
        (template_metadata(*final(template)), template_lines(*final(template))) == merged(
            (template_metadata(*old(template)), template_lines(*old(template))),
            metadata@,
            packages@,
        ),
{
    change_metadata(template, metadata);
    let mut i: usize = 0;
    while i < packages.len()
        invariant
            i <= packages.len(),
            template_metadata(*template) == metadata@,
            template_lines(*template) == template_lines(*old(template)) + package_lines(
                packages@,
            ).take(i as int),
        decreases packages.len() - i,
    {
        push_package(template, packages[i].as_str());
        assert(package_lines(packages@).take(i + 1) =~= package_lines(packages@).take(
            i as int,
        ).push(package_line(packages@[i as int]@)));
        i += 1;
    }
    assert(package_lines(packages@).take(i as int) =~= package_lines(packages@));
}

/// Renders a template to its main text and the text of the file that the main
/// text includes under the name `input`.
pub fn render(template: &Template, input: &str) -> (r: Result<(String, String), Error>)
    ensures
        r matches Ok(texts) ==> (texts.0@, texts.1@) == split_latex(
            template_metadata(*template),
            template_lines(*template),
            input@,
        ),
        r matches Err(e) ==> e is IO,
{
    match to_latex_split_string(template, input) {
        Some(texts) => Ok(texts),
        None => Err(Error::IO(String::from_str("no runtime to render the template on"))),
    }
}

/// Texts that are joined begin with the first of them joined.
pub proof fn lemma_joined_begins(parts: Seq<Seq<char>>, count: int)
    requires
        0 < count <= parts.len(),
    ensures
        joined(parts).len() >= joined(parts.take(count)).len(),
        joined(parts).take(joined(parts.take(count)).len() as int) == joined(parts.take(count)),
    decreases parts.len(),
{
    if count == parts.len() {
        assert(parts.take(count) =~= parts);
        assert(joined(parts).take(joined(parts).len() as int) =~= joined(parts));
    } else {
        assert(parts.drop_last().take(count) =~= parts.take(count));
        lemma_joined_begins(parts.drop_last(), count);
        let head = joined(parts.take(count));
        assert(joined(parts) == joined(parts.drop_last()) + "\n"@ + parts.last());
        assert(joined(parts).take(head.len() as int) =~= joined(parts.drop_last()).take(
            head.len() as int,
        ));
    }
}

/// The main text of a document names the file to include: after the metadata and a
/// line break it holds the reference to `input`.
pub proof fn lemma_main_text_names_input(metadata: MetadataView, lines: Seq<Line>, input: Seq<char>)
    ensures
        ({
            let main = split_latex(metadata, lines, input).0;
            let at: int = metadata_latex(metadata).len() as int + 1;
            let len: int = input_latex(input).len() as int;
            &&& main.len() >= at + len
            &&& main.subrange(at, at + len) == input_latex(input)
        }),
{
    reveal_strlit("\n");
    let meta = meta_lines(metadata, lines, input);
    let head = seq![metadata_latex(metadata), input_latex(input)];
    let body = joined(document_lines(metadata, lines));
    let main = split_latex(metadata, lines, input).0;
    assert(meta.take(2) =~= head);
    lemma_joined_begins(meta, 2);
    assert(head.drop_last() =~= seq![metadata_latex(metadata)]);
    assert(joined(head) == metadata_latex(metadata) + "\n"@ + input_latex(input)) by {
        reveal_with_fuel(joined, 2);
    }
    let both = seq![joined(meta), body];
    assert(both.drop_last() =~= seq![joined(meta)]);
    assert(main == joined(meta) + "\n"@ + body) by {
        reveal_with_fuel(joined, 2);
    }
    let at: int = metadata_latex(metadata).len() as int + 1;
    let len: int = input_latex(input).len() as int;
    assert(joined(head).subrange(at, at + len) =~= input_latex(input));
    assert(joined(meta).take(joined(head).len() as int) == joined(head));
    assert(main.subrange(at, at + len) =~= joined(head).subrange(at, at + len));
}

/// Merging the same metadata again changes nothing, the metadata merged last
/// replace those merged before, and packages merged in two turns are merged as
/// if in one: each stays, as often as it was named.
pub proof fn lemma_merge_repeated(
    held: (MetadataView, Seq<Line>),
    first: MetadataView,
    second: MetadataView,
    packages: Seq<String>,
    more: Seq<String>,
)
    ensures
        merged(merged(held, first, packages), first, Seq::<String>::empty()) == merged(
            held,
            first,
            packages,
        ),
        merged(merged(held, first, packages), second, more) == merged(
            held,
            second,
            packages + more,
        ),
        merged(merged(held, first, Seq::<String>::empty()), second, packages) == merged(
            merged(held, second, packages),
            second,
            Seq::<String>::empty(),
        ),
{
    assert(package_lines(packages + more) =~= package_lines(packages) + package_lines(more));
    assert(package_lines(Seq::<String>::empty()) =~= Seq::<Line>::empty());
    assert(held.1 + package_lines(packages) + package_lines(Seq::<String>::empty()) =~= held.1
        + package_lines(packages));
    assert(held.1 + package_lines(packages) + package_lines(more) =~= held.1 + package_lines(
        packages + more,
    ));
    assert(held.1 + package_lines(Seq::<String>::empty()) + package_lines(packages) =~= held.1
        + package_lines(packages));
}

} // verus!
