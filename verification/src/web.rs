//! Projects made from a web form: they name a template of the managed catalog
//! and the metadata, and are handed out as an archive.

use vstd::prelude::*;
use vstd::string::*;
use texcore::template::Template;
use crate::archive::{packed, Package};
use crate::config::{archive_name, pack, project_entries};
use crate::document::{
    decoded, merge, package_lines, parse_template, split_latex, template_lines,
    template_metadata, Metadata, MetadataView,
};
use crate::error::Error;
use crate::repo::{gh_link, gh_link_text};
use crate::text::texts;

verus! {

/// What a web form holds: the project, its template and the metadata.
#[derive(Debug)]
pub struct WebConfig {
    pub proj_name: String,
    pub template: String,
    pub author: String,
    pub date: String,
    pub title: String,
    pub fontsize: u8,
    pub papersize: String,
    pub doc_class: String,
}

/// The line that offers the template `name` in the form.
pub open spec fn option_line(name: Seq<char>) -> Seq<char> {
    "<option value='"@ + name + "'>"@ + name + "</option>"@
}

/// The lines that offer the first `count` templates, joined by line breaks.
pub open spec fn option_lines(names: Seq<Seq<char>>, count: int) -> Seq<char>
    decreases count,
{
    if count <= 0 {
        Seq::<char>::empty()
    } else if count == 1 {
        option_line(names[0])
    } else {
        option_lines(names, count - 1) + "\n"@ + option_line(names[count - 1])
    }
}

impl WebConfig {
    /// The metadata of the form; the title is always made.
    pub open spec fn metadata_view(&self) -> MetadataView {
        MetadataView {
            author: self.author@,
            date: self.date@,
            title: self.title@,
            fontsize: self.fontsize,
            papersize: self.papersize@,
            doc_class: self.doc_class@,
            maketitle: true,
        }
    }

    /// The metadata of the form; the title is always made.
    pub fn metadata(&self) -> (metadata: Metadata)
        ensures
            metadata@ == self.metadata_view(),
    {
        Metadata::new(
            self.author.as_str(),
            self.date.as_str(),
            self.title.as_str(),
            self.fontsize,
            self.papersize.as_str(),
            self.doc_class.as_str(),
            true,
        )
    }

    /// The address of the form's template in release `latest` of the remote catalog.
    pub fn template_link(&self, latest: u64) -> (link: String)
        ensures
            link@ == gh_link_text(latest, self.template@),
    {
        gh_link(latest, self.template.as_str())
    }

    /// Reads the form's template from the answer to the request for it. No answer
    /// is a network error; an answer that holds no template is an invalid template.
    pub fn get_template(&self, response: Option<&str>) -> (r: Result<Template, Error>)
        ensures
            response is None ==> (r matches Err(Error::Network(given)) && given@
                == self.template@),
            response matches Some(body) ==> match decoded(body@) {
                Some(held) => r matches Ok(template) && (
                    template_metadata(template),
                    template_lines(template),
                ) == held,
                None => r matches Err(Error::InvalidTemplate(given)) && given@ == self.template@,
            },
    {
        match response {
            None => Err(Error::Network(self.template.clone())),
            Some(body) => match parse_template(body) {
                Some(template) => Ok(template),
                None => Err(Error::InvalidTemplate(self.template.clone())),
            },
        }
    }

    /// Gives the template the metadata of the form and packs the project: the two
    /// directories, the main file, the included file, which the main file names,
    /// and the compiler configuration.
    pub fn zip(&self, template: Template) -> (r: Result<Package, Error>)
        ensures
            r matches Ok(package) ==> package.name@ == archive_name(self.proj_name@)
                && package.bytes@ == packed(
                project_entries(
                    self.proj_name@,
                    split_latex(
                        self.metadata_view(),
                        template_lines(template),
                        "include/structure"@,
                    ),
                ),
            ),
            r matches Err(e) ==> e is IO,
    {
        let ghost given = template_lines(template);
        let mut template = template;
        let metadata = self.metadata();
        let packages: Vec<String> = Vec::new();
        merge(&mut template, &metadata, &packages);
        assert(template_lines(template) =~= given + package_lines(packages@));
        assert(given + package_lines(packages@) =~= given);
        pack(self.proj_name.as_str(), &template)
    }
}

/// The lines that offer the templates of the given names in the form, one
/// `option` element each, joined by line breaks.
pub fn template_html_options(names: &Vec<String>) -> (html: String)
    ensures
        html@ == option_lines(texts(names@), names@.len() as int),
{
    let mut html = String::new();
    let mut i: usize = 0;
    while i < names.len()
        invariant
            i <= names.len(),
            html@ == option_lines(texts(names@), i as int),
        decreases names.len() - i,
    {
        if i > 0 {
            html.append("\n");
        }
        html.append("<option value='");
        html.append(names[i].as_str());
        html.append("'>");
        html.append(names[i].as_str());
        html.append("</option>");
        i += 1;
        assert(html@ =~= option_lines(texts(names@), i as int));
    }
    html
}

} // verus!
