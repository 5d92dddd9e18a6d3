//! Reports and the formats they are written in. A report knows its title
//! and its items; how they are laid out is a formatter's business, so a new
//! format is a new formatter and no change to the report.
use vstd::prelude::*;

verus! {

/// The items of `data`, each written between `before` and `after`, in order.
pub open spec fn items_text(data: Seq<String>, before: Seq<char>, after: Seq<char>) -> Seq<char>
    decreases data.len(),
{
    if data.len() == 0 {
        Seq::<char>::empty()
    } else {
        items_text(data.drop_last(), before, after) + before + data.last()@ + after
    }
}

/// The plain layout with one item per line after the title line.
pub open spec fn plain_text(title: Seq<char>, data: Seq<String>) -> Seq<char> {
    "=== "@ + title + " ==="@ + items_text(data, "\n- "@, ""@)
}

/// The plain layout in which every line, the title's too, ends in a newline.
pub open spec fn text_lines(title: Seq<char>, data: Seq<String>) -> Seq<char> {
    "=== "@ + title + " ===\n"@ + items_text(data, "- "@, "\n"@)
}

/// The layout as a heading and an unordered list.
pub open spec fn html_text(title: Seq<char>, data: Seq<String>) -> Seq<char> {
    "<h1>"@ + title + "</h1>\n<ul>\n"@ + items_text(data, "  <li>"@, "</li>\n"@) + "</ul>"@
}

/// The stand-in for a binary rendering: it names the title and no item.
pub open spec fn pdf_text(title: Seq<char>) -> Seq<char> {
    "PDF: "@ + title + " [binary data]"@
}

/// The layout as a `report` element with a title and an `items` list.
pub open spec fn xml_text(title: Seq<char>, data: Seq<String>) -> Seq<char> {
    "<report>\n"@ + "  <title>"@ + title + "</title>\n"@ + "  <items>\n"@ + items_text(
        data,
        "    <item>"@,
        "</item>\n"@,
    ) + "  </items>\n</report>"@
}

/// Appends to `out` each item of `data` between `before` and `after`.
pub fn append_items(out: &mut String, data: &[String], before: &str, after: &str)
    ensures
        final(out)@ == old(out)@ + items_text(data@, before@, after@),
{
    let n = data.len();
    let mut i: usize = 0;
    while i < n
        invariant
            i <= n,
            n == data@.len(),
            out@ == old(out)@ + items_text(data@.take(i as int), before@, after@),
        decreases n - i,
    {
        out.append(before);
        out.append(data[i].as_str());
        out.append(after);
        proof {
            let done = data@.take(i + 1);
            assert(done.drop_last() =~= data@.take(i as int));
        }
        i = i + 1;
    }
    assert(data@.take(n as int) =~= data@);
}

/// Lays out a title and items as text.
pub trait ReportFormatter {
    /// Whether `text` is what this formatter may make of `title` and `data`.
    spec fn lays_out(&self, title: Seq<char>, data: Seq<String>, text: Seq<char>) -> bool;

    fn format(&self, title: &str, data: &[String]) -> (res: String)
        ensures
            self.lays_out(title@, data@, res@),
    ;
}

/// The formats a report knows by name.
#[derive(Debug, Clone, Copy, PartialEq, Eq, Structural)]
pub enum ReportFormat {
    Text,
    Html,
    Pdf,
}

impl ReportFormat {
    /// The text of a report in this format.
    pub open spec fn text(self, title: Seq<char>, data: Seq<String>) -> Seq<char> {
        match self {
            ReportFormat::Text => plain_text(title, data),
            ReportFormat::Html => html_text(title, data),
            ReportFormat::Pdf => pdf_text(title),
        }
    }
}

impl ReportFormatter for ReportFormat {
    open spec fn lays_out(&self, title: Seq<char>, data: Seq<String>, text: Seq<char>) -> bool {
        text == self.text(title, data)
    }

    fn format(&self, title: &str, data: &[String]) -> (res: String) {
        match self {
            ReportFormat::Text => {
                let mut output = "=== ".to_owned().concat(title).concat(" ===");
                append_items(&mut output, data, "\n- ", "");
                output
            },
            ReportFormat::Html => {
                let mut output = "<h1>".to_owned().concat(title).concat("</h1>\n<ul>\n");
                append_items(&mut output, data, "  <li>", "</li>\n");
                output.append("</ul>");
                output
            },
            ReportFormat::Pdf => {
                let output = "PDF: ".to_owned().concat(title).concat(" [binary data]");
                output
            },
        }
    }
}

pub struct TextFormatter;

impl ReportFormatter for TextFormatter {
    open spec fn lays_out(&self, title: Seq<char>, data: Seq<String>, text: Seq<char>) -> bool {
        text == text_lines(title, data)
    }

    fn format(&self, title: &str, data: &[String]) -> (res: String) {
        let mut output = "=== ".to_owned().concat(title).concat(" ===\n");
        append_items(&mut output, data, "- ", "\n");
        output
    }
}

pub struct HtmlFormatter;

impl ReportFormatter for HtmlFormatter {
    open spec fn lays_out(&self, title: Seq<char>, data: Seq<String>, text: Seq<char>) -> bool {
        text == html_text(title, data)
    }

    fn format(&self, title: &str, data: &[String]) -> (res: String) {
        ReportFormat::Html.format(title, data)
    }
}

pub struct PdfFormatter;

impl ReportFormatter for PdfFormatter {
    open spec fn lays_out(&self, title: Seq<char>, data: Seq<String>, text: Seq<char>) -> bool {
        text == pdf_text(title)
    }

    fn format(&self, title: &str, data: &[String]) -> (res: String) {
        ReportFormat::Pdf.format(title, data)
    }
}

pub struct XmlFormatter;

impl ReportFormatter for XmlFormatter {
    open spec fn lays_out(&self, title: Seq<char>, data: Seq<String>, text: Seq<char>) -> bool {
        text == xml_text(title, data)
    }

    fn format(&self, title: &str, data: &[String]) -> (res: String) {
        let mut output = "<report>\n".to_owned();
        output.append("  <title>");
        output.append(title);
        output.append("</title>\n");
        output.append("  <items>\n");
        append_items(&mut output, data, "    <item>", "</item>\n");
        output.append("  </items>\n</report>");
        output
    }
}

/// A titled list of items.
pub struct Report {
    pub title: String,
    pub data: Vec<String>,
}

impl Report {
    /// The report as `formatter` lays it out.
    pub fn generate<F: ReportFormatter>(&self, formatter: &F) -> (res: String)
        ensures
            formatter.lays_out(self.title@, self.data@, res@),
    {
        formatter.format(self.title.as_str(), self.data.as_slice())
    }
}

} // verus!
