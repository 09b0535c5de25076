//! The command surface: one variant per subcommand, with its arguments.
//!
//! These are plain data; reading the process's actual command line happens
//! outside the library.

use vstd::prelude::*;

verus! {

/// A full invocation: the subcommand plus the global verbosity switch.
pub struct Args {
    pub cmd: Command,
    pub verbose: bool,
}

/// The subcommands the tool accepts.
pub enum Command {
    Newsboat(Newsboat),
    Epub(Epub),
    Rss(Rss),
    Cleanup(Cleanup),
    Article(Article),
}

/// Save an article, optionally with an explicit title and description.
pub struct Newsboat {
    /// URL of the article.
    pub url: String,
    /// Title of the article.
    pub title: Option<String>,
    /// Description of the article.
    pub desc: Option<String>,
    /// Feed title.
    pub feed_title: Option<String>,
}

/// Compile the archive into an ebook written to the given file.
pub struct Epub {
    pub epub: String,
}

/// Serialize the archive into an RSS feed written to the given file.
pub struct Rss {
    pub rss: String,
}

/// Purge cached articles based on access time.
pub struct Cleanup {
    pub age: u8,
}

/// Save a readable version of the article at the given URL.
pub struct Article {
    pub url: String,
}

} // verus!
