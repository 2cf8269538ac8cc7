use vstd::prelude::*;
use vstd::string::*;

use crate::text::{decimal_string, decimal_text};

verus! {

/// The command line of the explorer: the repository, the file in it, the
/// phrase to look for, how many matching lines to stop after, and whether to
/// show the settings first.
pub struct CommandArgs {
    pub repo_path: String,
    pub file_path: String,
    pub phrase: String,
    pub max_count: usize,
    pub verbose: bool,
}

/// The rule line of the settings banner.
pub const BANNER_RULE: &'static str = "*******************************************************";

/// How a flag is shown.
pub open spec fn bool_text(b: bool) -> Seq<char> {
    if b {
        "true"@
    } else {
        "false"@
    }
}

/// The settings banner shown in verbose mode.
pub open spec fn banner_text(
    repo_path: Seq<char>,
    file_path: Seq<char>,
    phrase: Seq<char>,
    max_count: usize,
    verbose: bool,
) -> Seq<char> {
    "\n"@ + BANNER_RULE@ + "\n"@ + "repo_path:            "@ + repo_path + "\n"@
        + "file_path:            "@ + file_path + "\n"@ + "phrase:               "@ + phrase
        + "\n"@ + "max_count:            "@ + decimal_text(max_count as nat) + "\n"@
        + "verbose:              "@ + bool_text(verbose) + "\n"@ + BANNER_RULE@ + "\n\n"@
}

/// The banner shows each setting after its label, in the order repository
/// path, file path, phrase, maximal count (in decimal) and verbosity (`true`
/// or `false`), between two rule lines.
pub proof fn law_banner_lists_settings(
    repo_path: Seq<char>,
    file_path: Seq<char>,
    phrase: Seq<char>,
    max_count: usize,
    verbose: bool,
)
    ensures
        banner_text(repo_path, file_path, phrase, max_count, verbose) == "\n"@ + BANNER_RULE@ + "\n"@
            + ("repo_path:            "@ + repo_path + "\n"@)
            + ("file_path:            "@ + file_path + "\n"@)
            + ("phrase:               "@ + phrase + "\n"@)
            + ("max_count:            "@ + decimal_text(max_count as nat) + "\n"@)
            + ("verbose:              "@ + (if verbose { "true"@ } else { "false"@ }) + "\n"@)
            + BANNER_RULE@ + "\n\n"@,
{
    assert(banner_text(repo_path, file_path, phrase, max_count, verbose) =~= "\n"@ + BANNER_RULE@ + "\n"@
            + ("repo_path:            "@ + repo_path + "\n"@)
            + ("file_path:            "@ + file_path + "\n"@)
            + ("phrase:               "@ + phrase + "\n"@)
            + ("max_count:            "@ + decimal_text(max_count as nat) + "\n"@)
            + ("verbose:              "@ + (if verbose { "true"@ } else { "false"@ }) + "\n"@)
            + BANNER_RULE@ + "\n\n"@);
}

impl CommandArgs {
    /// The settings banner: each setting on a line of its own, between rules.
    pub fn banner(&self) -> (r: String)
        ensures
            r@ == banner_text(
                self.repo_path@,
                self.file_path@,
                self.phrase@,
                self.max_count,
                self.verbose,
            ),
    {
        let mut out = String::from_str("\n");
        out.append(BANNER_RULE);
        out.append("\n");
        out.append("repo_path:            ");
        out.append(self.repo_path.as_str());
        out.append("\n");
        out.append("file_path:            ");
        out.append(self.file_path.as_str());
        out.append("\n");
        out.append("phrase:               ");
        out.append(self.phrase.as_str());
        out.append("\n");
        out.append("max_count:            ");
        let count = decimal_string(self.max_count);
        out.append(count.as_str());
        out.append("\n");
        out.append("verbose:              ");
        if self.verbose {
            out.append("true");
        } else {
            out.append("false");
        }
        out.append("\n");
        out.append(BANNER_RULE);
        out.append("\n\n");
        out
    }
}

} // verus!
