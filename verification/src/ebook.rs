//! Ebook generation: what the library decides and computes around the
//! external document compiler.
//!
//! The archive's articles are materialized as one HTML unit each and handed
//! to an external compiler process. Running that process is outside work;
//! here stand, verified, the page and file-name assembly, the compiler's
//! fixed argument list, and the reading of its outcome — which tells a
//! missing binary apart from a compiler that ran and failed.

use crate::error::ProcessError;
use crate::strutil::push_char;
use vstd::prelude::*;
use vstd::string::StrSliceExecFns;
use vstd::string::StringExecFns;

verus! {

/// The HTML unit for one article: the title as a heading, then the stored
/// body.
pub fn article_page(title: &str, content: &str) -> (r: String)
    ensures
        r@ == "<h1>"@ + title@ + "</h1>"@ + content@,
{
    let mut out = String::new();
    out.append("<h1>");
    out.append(title);
    out.append("</h1>");
    out.append(content);
    assert(out@ =~= "<h1>"@ + title@ + "</h1>"@ + content@);
    out
}

/// The file name an article's HTML unit is materialized under.
pub fn page_file_name(title: &str) -> (r: String)
    ensures
        r@ == title@ + ".html"@,
{
    let mut out = String::new();
    out.append(title);
    out.append(".html");
    assert(out@ =~= title@ + ".html"@);
    out
}

/// The argument list for the external document compiler: fixed switches
/// (document metadata, a depth-1 table of contents, standalone output), the
/// output path, then the materialized input files in order.
pub fn compiler_args(output: &str, inputs: &Vec<String>) -> (r: Vec<String>)
    ensures
        r@.len() == 7 + inputs@.len(),
        r@[0]@ == "--metadata"@,
        r@[1]@ == "title='readlater'"@,
        r@[2]@ == "--toc"@,
        r@[3]@ == "--toc-depth=1"@,
        r@[4]@ == "--standalone"@,
        r@[5]@ == "--output"@,
        r@[6]@ == output@,
        forall|i: int| 0 <= i < inputs@.len() ==> r@[7 + i]@ == inputs@[i]@,
{
    let mut args: Vec<String> = Vec::new();
    args.push("--metadata".to_owned());
    args.push("title='readlater'".to_owned());
    args.push("--toc".to_owned());
    args.push("--toc-depth=1".to_owned());
    args.push("--standalone".to_owned());
    args.push("--output".to_owned());
    args.push(output.to_owned());
    let mut i: usize = 0;
    while i < inputs.len()
        invariant
            i <= inputs.len(),
            args@.len() == 7 + i,
            args@[0]@ == "--metadata"@,
            args@[1]@ == "title='readlater'"@,
            args@[2]@ == "--toc"@,
            args@[3]@ == "--toc-depth=1"@,
            args@[4]@ == "--standalone"@,
            args@[5]@ == "--output"@,
            args@[6]@ == output@,
            forall|j: int| 0 <= j < i ==> args@[7 + j]@ == inputs@[j]@,
        decreases inputs.len() - i,
    {
        args.push(inputs[i].clone());
        i += 1;
    }
    args
}

/// The outcome of one run of the external document compiler, as the process
/// layer observed it.
pub enum CompilerOutcome {
    /// The compiler binary could not be launched: it is absent from the
    /// search path.
    LaunchFailed,
    /// The compiler ran to completion, successfully or not, with its captured
    /// output streams.
    Finished { success: bool, stdout: String, stderr: String },
}

/// Turns a compiler outcome into the ebook result: the captured standard
/// output on success, and otherwise a `ProcessError` whose diagnostic tells a
/// missing binary apart from a compilation the compiler itself reported as
/// failed (then carrying its diagnostic output).
pub fn ebook_result(outcome: CompilerOutcome) -> (r: Result<String, ProcessError>)
    ensures
        r is Ok <==> outcome matches CompilerOutcome::Finished { success: true, .. },
        outcome matches CompilerOutcome::Finished { success: true, stdout, .. } ==> (r matches Ok(
            s,
        ) && s == stdout),
        outcome is LaunchFailed ==> (r matches Err(e) && e.diagnostic@
            == "document compiler not found on the search path"@),
        outcome matches CompilerOutcome::Finished { success: false, stderr, .. } ==> (r matches Err(
            e,
        ) && e.diagnostic@ == "document compiler failed: "@ + stderr@),
{
    match outcome {
        CompilerOutcome::LaunchFailed => {
            let diagnostic = "document compiler not found on the search path".to_owned();
            Err(ProcessError { diagnostic })
        },
        CompilerOutcome::Finished { success, stdout, stderr } => {
            if success {
                Ok(stdout)
            } else {
                let mut diagnostic = "document compiler failed: ".to_owned();
                diagnostic.append(stderr.as_str());
                Err(ProcessError { diagnostic })
            }
        },
    }
}

} // verus!
