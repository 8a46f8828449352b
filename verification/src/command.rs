//! The two outside programs that a job needs, as command lines: the one
//! that moves an upload into place, and the renderer.

use vstd::prelude::*;

verus! {

/// A program and the arguments it is started with.
#[derive(Clone, Debug, PartialEq, Eq)]
pub struct Invocation {
    pub program: String,
    pub args: Vec<String>,
}

/// An `Invocation` as plain values.
pub struct InvocationView {
    pub program: Seq<char>,
    pub args: Seq<Seq<char>>,
}

impl View for Invocation {
    type V = InvocationView;

    open spec fn view(&self) -> InvocationView {
        InvocationView { program: self.program@, args: self.args.deep_view() }
    }
}

/// The command that moves the file at `from` to `to`: a rename, so that a
/// failure leaves the file where it was.
pub open spec fn move_invocation(from: Seq<char>, to: Seq<char>) -> InvocationView {
    InvocationView { program: "mv"@, args: seq![from, to] }
}

/// The arguments that name the footer: the flag and the path, or nothing.
pub open spec fn footer_args(footer: Option<Seq<char>>) -> Seq<Seq<char>> {
    match footer {
        Some(path) => seq!["--footer-html"@, path],
        None => seq![],
    }
}

/// The command that renders `html` to `pdf`: the renderer under a display
/// server of its own, then the footer's flag and path if there is a footer,
/// then the document and the output as the last two arguments.
pub open spec fn render_invocation(
    html: Seq<char>,
    pdf: Seq<char>,
    footer: Option<Seq<char>>,
) -> InvocationView {
    InvocationView {
        program: "xvfb-run"@,
        args: seq!["-a"@, "wkhtmltopdf"@] + footer_args(footer) + seq![html, pdf],
    }
}

/// The command that moves the file at `from` to `to`.
pub fn move_command(from: &str, to: &str) -> (cmd: Invocation)
    ensures
        cmd@ == move_invocation(from@, to@),
{
    let mut args: Vec<String> = Vec::new();
    args.push(String::from_str(from));
    args.push(String::from_str(to));
    let cmd = Invocation { program: String::from_str("mv"), args };
    assert(cmd@.args =~= move_invocation(from@, to@).args);
    cmd
}

/// The command that renders `html` to `pdf`, with `footer` at the foot of
/// each page if there is one.
pub fn render_command(html: &str, pdf: &str, footer: Option<&str>) -> (cmd: Invocation)
    ensures
        cmd@ == render_invocation(html@, pdf@, footer.deep_view()),
{
    let mut args: Vec<String> = Vec::new();
    args.push(String::from_str("-a"));
    args.push(String::from_str("wkhtmltopdf"));
    if let Some(path) = footer {
        args.push(String::from_str("--footer-html"));
        args.push(String::from_str(path));
    }
    args.push(String::from_str(html));
    args.push(String::from_str(pdf));
    let cmd = Invocation { program: String::from_str("xvfb-run"), args };
    assert(cmd@.args =~= render_invocation(html@, pdf@, footer.deep_view()).args);
    cmd
}

/// With a footer, the flag stands directly before the footer's path, and
/// both stand before the document, which stands directly before the output.
pub proof fn lemma_footer_precedes_document(
    html: Seq<char>,
    pdf: Seq<char>,
    footer: Seq<char>,
)
    ensures
        render_invocation(html, pdf, Some(footer)).args == seq![
            "-a"@,
            "wkhtmltopdf"@,
            "--footer-html"@,
            footer,
            html,
            pdf,
        ],
{
    assert(render_invocation(html, pdf, Some(footer)).args =~= seq![
        "-a"@,
        "wkhtmltopdf"@,
        "--footer-html"@,
        footer,
        html,
        pdf,
    ]);
}

/// Whatever the footer, the last two arguments are the document and the
/// output, in this order, and without a footer nothing else follows the
/// renderer's name.
pub proof fn lemma_document_and_output_come_last(
    html: Seq<char>,
    pdf: Seq<char>,
    footer: Option<Seq<char>>,
)
    ensures
        ({
            let args = render_invocation(html, pdf, footer).args;
            &&& args.len() == (if footer is Some { 6int } else { 4int })
            &&& args[args.len() - 2] == html
            &&& args[args.len() - 1] == pdf
        }),
        render_invocation(html, pdf, None).args == seq!["-a"@, "wkhtmltopdf"@, html, pdf],
{
    assert(render_invocation(html, pdf, None).args =~= seq!["-a"@, "wkhtmltopdf"@, html, pdf]);
}

} // verus!
