use readlater::ebook::{article_page, compiler_args, ebook_result, page_file_name, CompilerOutcome};

#[test]
fn article_page_exact() {
    assert_eq!(article_page("T", "<p>x</p>"), "<h1>T</h1><p>x</p>");
    assert_eq!(article_page("", ""), "<h1></h1>");
}

#[test]
fn page_file_name_exact() {
    assert_eq!(page_file_name("T"), "T.html");
}

#[test]
fn compiler_args_exact() {
    let inputs = vec![String::from("/tmp/a.html"), String::from("/tmp/b.html")];
    let args = compiler_args("out.epub", &inputs);
    assert_eq!(
        args,
        vec![
            "--metadata",
            "title='readlater'",
            "--toc",
            "--toc-depth=1",
            "--standalone",
            "--output",
            "out.epub",
            "/tmp/a.html",
            "/tmp/b.html",
        ]
    );
}

#[test]
fn absent_compiler_is_distinguished() {
    let r = ebook_result(CompilerOutcome::LaunchFailed);
    let e = r.err().unwrap();
    assert_eq!(e.diagnostic, "document compiler not found on the search path");
}

#[test]
fn failed_compile_carries_its_diagnostic() {
    let r = ebook_result(CompilerOutcome::Finished {
        success: false,
        stdout: String::new(),
        stderr: String::from("bad input file"),
    });
    let e = r.err().unwrap();
    assert_eq!(e.diagnostic, "document compiler failed: bad input file");
}

#[test]
fn successful_compile_returns_stdout() {
    let r = ebook_result(CompilerOutcome::Finished {
        success: true,
        stdout: String::from("all good"),
        stderr: String::new(),
    });
    assert_eq!(r.ok().unwrap(), "all good");
}
